use hydroconf::error::HydroError;
use hydroconf::hydro::Hydroconf;
use hydroconf::settings::HydroSettings;
use hydroconf::store::Setting;
use std::io::Write;
use std::path::Path;

fn write_file(dir: &Path, name: &str, text: &str) -> String {
    let mut f = tempfile::NamedTempFile::new_in(dir).unwrap();
    f.write_all(text.as_bytes()).unwrap();
    let target = dir.join(name);
    f.persist(&target).unwrap();
    target.to_str().unwrap().to_string()
}

#[test]
fn set_overrides_merged_and_default_values() {
    let dir = tempfile::tempdir().unwrap();
    let settings = write_file(dir.path(), "settings.toml", "a = 1\nb = 2\n");
    let mut h = Hydroconf::default();
    h.set_default("a", Setting::Integer(10)).unwrap();
    h.initialize(Some(settings), None).unwrap();
    h.set("a", Setting::Integer(7)).unwrap();
    h.set("c", Setting::Text("new".to_string())).unwrap();
    assert_eq!(h.get_int("a"), Ok(7));
    assert_eq!(h.get_int("b"), Ok(2));
    assert_eq!(h.get_str("c"), Ok("new".to_string()));
}

#[test]
fn default_yields_to_merged_file() {
    let dir = tempfile::tempdir().unwrap();
    let settings = write_file(dir.path(), "settings.toml", "[db]\nport = 5432\n");
    let mut h = Hydroconf::default();
    h.set_default("db.port", Setting::Integer(1)).unwrap();
    h.set_default("db.host", Setting::Text("localhost".to_string())).unwrap();
    h.initialize(Some(settings), None).unwrap();
    assert_eq!(h.get_int("db.port"), Ok(5432));
    assert_eq!(h.get_str("db.host"), Ok("localhost".to_string()));
}

#[test]
fn later_file_wins() {
    let dir = tempfile::tempdir().unwrap();
    let a = write_file(dir.path(), "settings.toml", "k = \"from a\"\nonly_a = 1\n");
    let b = write_file(dir.path(), ".secrets.toml", "k = \"from b\"\n");
    let mut h = Hydroconf::default();
    h.initialize(Some(a), Some(b)).unwrap();
    assert_eq!(h.get_str("k"), Ok("from b".to_string()));
    assert_eq!(h.get_int("only_a"), Ok(1));
}

#[test]
fn absent_key_is_not_found() {
    let h = Hydroconf::default();
    assert!(matches!(h.get_str("missing"), Err(HydroError::KeyNotFound(_))));
    assert!(matches!(h.get_int("a.b.c"), Err(HydroError::KeyNotFound(_))));
}

#[test]
fn text_read_as_integer_is_a_mismatch() {
    let mut h = Hydroconf::default();
    h.set("name", Setting::Text("abc".to_string())).unwrap();
    assert!(matches!(h.get_int("name"), Err(HydroError::TypeMismatch(_))));
    assert!(matches!(h.get_bool("name"), Err(HydroError::TypeMismatch(_))));
    assert!(matches!(h.get_table("name"), Err(HydroError::TypeMismatch(_))));
    assert!(matches!(h.get_array("name"), Err(HydroError::TypeMismatch(_))));
}

#[test]
fn initialize_without_files_leaves_store_empty() {
    let mut h = Hydroconf::default();
    assert_eq!(h.initialize(None, None), Ok(()));
    assert!(matches!(h.get_str("any.key"), Err(HydroError::KeyNotFound(_))));
}

#[test]
fn settings_and_secrets_both_merged() {
    let dir = tempfile::tempdir().unwrap();
    write_file(dir.path(), "settings.toml", "[db]\nport = 5432\n");
    write_file(dir.path(), ".secrets.toml", "[db]\npassword = \"x\"\n");
    let entries = vec!["settings.toml".to_string(), ".secrets.toml".to_string()];
    let d = dir.path().to_str().unwrap();
    let (settings, secrets) = hydroconf::locations::config_locations(d, &entries);
    let mut h = Hydroconf::new(HydroSettings::with_root_path(d.to_string()));
    h.initialize(settings, secrets).unwrap();
    assert_eq!(h.get_int("db.port"), Ok(5432));
    assert_eq!(h.get_str("db.password"), Ok("x".to_string()));
}

#[test]
fn refresh_reads_changed_file() {
    let dir = tempfile::tempdir().unwrap();
    let settings = write_file(dir.path(), "settings.toml", "level = 1\n");
    let mut h = Hydroconf::default();
    h.initialize(Some(settings), None).unwrap();
    assert_eq!(h.get_int("level"), Ok(1));
    write_file(dir.path(), "settings.toml", "level = 2\nadded = true\n");
    assert_eq!(h.get_int("level"), Ok(1));
    h.refresh().unwrap();
    assert_eq!(h.get_int("level"), Ok(2));
    assert_eq!(h.get_bool("added"), Ok(true));
}

#[test]
fn unparsable_file_is_a_parse_error() {
    let dir = tempfile::tempdir().unwrap();
    let settings = write_file(dir.path(), "settings.toml", "this is = = not toml\n");
    let mut h = Hydroconf::default();
    assert!(matches!(h.initialize(Some(settings), None), Err(HydroError::Parse(_))));
}

#[test]
fn missing_file_is_an_io_error() {
    let dir = tempfile::tempdir().unwrap();
    let gone = dir.path().join("settings.toml").to_str().unwrap().to_string();
    let mut h = Hydroconf::default();
    assert!(matches!(h.initialize(Some(gone), None), Err(HydroError::Io(_))));
}

#[test]
fn settings_error_skips_secrets() {
    let dir = tempfile::tempdir().unwrap();
    let bad = write_file(dir.path(), "settings.toml", "= broken\n");
    let good = write_file(dir.path(), ".secrets.toml", "token = \"t\"\n");
    let mut h = Hydroconf::default();
    assert!(h.initialize(Some(bad), Some(good)).is_err());
    assert!(matches!(h.get_str("token"), Err(HydroError::KeyNotFound(_))));
}

#[test]
fn typed_accessors_convert() {
    let dir = tempfile::tempdir().unwrap();
    let settings = write_file(
        dir.path(),
        "settings.toml",
        "flag = true\ncount = 3\nlist = [1, 2, 3]\n[table]\nx = 4\n",
    );
    let mut h = Hydroconf::default();
    h.initialize(Some(settings), None).unwrap();
    assert_eq!(h.get_bool("flag"), Ok(true));
    assert_eq!(h.get_int("flag"), Ok(1));
    assert_eq!(h.get_bool("count"), Ok(true));
    assert_eq!(h.get_str("count"), Ok("3".to_string()));
    let list = h.get_array("list").unwrap();
    assert_eq!(list.len(), 3);
    assert_eq!(list[2].clone().into_int().unwrap(), 3);
    let table = h.get_table("table").unwrap();
    assert_eq!(table.len(), 1);
    assert_eq!(table["x"].clone().into_int().unwrap(), 4);
    assert_eq!(h.get_int("table.x"), Ok(4));
    assert!(matches!(h.get_int("table"), Err(HydroError::TypeMismatch(_))));
}

#[test]
fn set_boolean_then_read() {
    let mut h = Hydroconf::default();
    h.set("debug", Setting::Boolean(false)).unwrap();
    assert_eq!(h.get_bool("debug"), Ok(false));
    assert_eq!(h.get_int("debug"), Ok(0));
}

#[test]
fn invalid_key_path() {
    let mut h = Hydroconf::default();
    assert!(matches!(h.set("..", Setting::Integer(1)), Err(HydroError::InvalidKey(_))));
    assert!(matches!(h.get_int(".."), Err(HydroError::InvalidKey(_))));
}

#[test]
fn base_path_prefers_root_override() {
    let h = Hydroconf::new(HydroSettings::with_root_path("/etc/app".to_string()));
    assert_eq!(h.base_path(Some("/usr/bin/app".to_string())), Some("/etc/app".to_string()));
    let d = Hydroconf::default();
    assert_eq!(d.base_path(Some("/usr/bin/app".to_string())), Some("/usr/bin/app".to_string()));
    assert_eq!(d.base_path(None), None);
    assert_eq!(d.hydro_settings().root_path, None);
}

#[test]
fn error_messages() {
    assert_eq!(HydroError::KeyNotFound("a.b".to_string()).message(), "a.b".to_string());
    assert_eq!(HydroError::Frozen.message(), "configuration is frozen".to_string());
}

#[test]
fn store_is_shared_with_callers() {
    let mut h = Hydroconf::default();
    h.set("n", Setting::Integer(9)).unwrap();
    assert_eq!(h.store().get_int("n").unwrap(), 9);
    let c = h.into_store();
    assert_eq!(c.get_int("n").unwrap(), 9);
}

#[test]
fn set_nested_key_over_file_table() {
    let dir = tempfile::tempdir().unwrap();
    let settings = write_file(dir.path(), "settings.toml", "[server]\nport = 80\nhost = \"h\"\n");
    let mut h = Hydroconf::default();
    h.initialize(Some(settings), None).unwrap();
    h.set("server.port", Setting::Integer(8080)).unwrap();
    assert_eq!(h.get_int("server.port"), Ok(8080));
    assert_eq!(h.get_str("server.host"), Ok("h".to_string()));
}

#[test]
fn not_found_names_the_key() {
    let h = Hydroconf::default();
    assert_eq!(h.get_int("db.port"), Err(HydroError::KeyNotFound("db.port".to_string())));
}

#[test]
fn malformed_keys_are_rejected_without_change() {
    let mut h = Hydroconf::default();
    assert!(matches!(h.set("a..b", Setting::Integer(1)), Err(HydroError::InvalidKey(_))));
    assert!(matches!(h.set_default(".a", Setting::Integer(1)), Err(HydroError::InvalidKey(_))));
    assert!(matches!(h.get_str("a."), Err(HydroError::InvalidKey(_))));
    assert!(matches!(h.get_str("a"), Err(HydroError::KeyNotFound(_))));
}

#[test]
fn default_visible_when_nothing_else_sets_it() {
    let mut h = Hydroconf::default();
    h.set_default("retries", Setting::Integer(3)).unwrap();
    assert_eq!(h.get_int("retries"), Ok(3));
    h.set("retries", Setting::Integer(5)).unwrap();
    h.set_default("retries", Setting::Integer(9)).unwrap();
    assert_eq!(h.get_int("retries"), Ok(5));
}

#[test]
fn explicit_value_survives_later_merge_and_refresh() {
    let dir = tempfile::tempdir().unwrap();
    let settings = write_file(dir.path(), "settings.toml", "mode = \"file\"\n");
    let mut h = Hydroconf::default();
    h.set("mode", Setting::Text("explicit".to_string())).unwrap();
    h.initialize(Some(settings), None).unwrap();
    assert_eq!(h.get_str("mode"), Ok("explicit".to_string()));
    h.refresh().unwrap();
    assert_eq!(h.get_str("mode"), Ok("explicit".to_string()));
}

#[test]
fn refresh_without_files_keeps_view() {
    let mut h = Hydroconf::default();
    h.set("a", Setting::Boolean(true)).unwrap();
    assert_eq!(h.refresh(), Ok(()));
    assert_eq!(h.get_bool("a"), Ok(true));
    assert_eq!(h.get_str("a"), Ok("true".to_string()));
}

#[test]
fn table_keys_and_array_elements() {
    let dir = tempfile::tempdir().unwrap();
    let settings = write_file(
        dir.path(),
        "settings.toml",
        "my-list = [10, 20]\n[t]\nx = 1\ny = \"z\"\n",
    );
    let mut h = Hydroconf::default();
    h.initialize(Some(settings), None).unwrap();
    let t = h.get_table("t").unwrap();
    let mut keys: Vec<String> = t.keys().cloned().collect();
    keys.sort();
    assert_eq!(keys, vec!["x".to_string(), "y".to_string()]);
    let list = h.get_array("my-list").unwrap();
    assert_eq!(list.len(), 2);
    assert_eq!(list[0].clone().into_int().unwrap(), 10);
    assert_eq!(h.get_int("my-list[1]"), Ok(20));
}

#[test]
fn word_text_read_as_integer_is_a_mismatch() {
    let mut h = Hydroconf::default();
    h.set("w", Setting::Text("maybe".to_string())).unwrap();
    assert!(matches!(h.get_int("w"), Err(HydroError::TypeMismatch(_))));
}

#[test]
fn boolean_words_read_as_booleans() {
    let mut h = Hydroconf::default();
    h.set("on", Setting::Text("yes".to_string())).unwrap();
    h.set("off", Setting::Text("off".to_string())).unwrap();
    h.set("bad", Setting::Text("2x".to_string())).unwrap();
    assert_eq!(h.get_bool("on"), Ok(true));
    assert_eq!(h.get_bool("off"), Ok(false));
    assert!(matches!(h.get_bool("bad"), Err(HydroError::TypeMismatch(_))));
}

#[test]
fn set_integer_array() {
    let mut h = Hydroconf::default();
    h.set("xs", Setting::Integers(vec![1, 2, 3])).unwrap();
    let a = h.get_array("xs").unwrap();
    assert_eq!(a.len(), 3);
    assert_eq!(a[0].clone().into_int().unwrap(), 1);
    assert_eq!(a[2].clone().into_int().unwrap(), 3);
    assert_eq!(h.get_int("xs[1]"), Ok(2));
}
