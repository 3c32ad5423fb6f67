use crate::error::HydroError;
use std::collections::HashMap;
use vstd::prelude::*;

verus! {

#[verifier::external_type_specification]
#[verifier::external_body]
pub struct ExConfig(config::Config);

#[verifier::external_type_specification]
#[verifier::external_body]
pub struct ExConfigError(config::ConfigError);

#[verifier::external_type_specification]
#[verifier::external_body]
pub struct ExValue(config::Value);

/// What a key path finds in the store's merged view.
pub enum Stored {
    Nil,
    Boolean(bool),
    Integer(i64),
    Real,
    Text(Seq<char>),
    /// A table, with the keys of its entries.
    Table(Set<Seq<char>>),
    /// An array, with its number of elements.
    Array(nat),
}

/// A value the library writes into the store.
#[derive(Debug, Clone, PartialEq, Eq)]
pub enum Setting {
    Text(String),
    Integer(i64),
    Boolean(bool),
    /// An array of integers.
    Integers(Vec<i64>),
}

impl Setting {
    /// How the store holds this value once written.
    pub open spec fn stored(self) -> Stored {
        match self {
            Setting::Text(t) => Stored::Text(t@),
            Setting::Integer(i) => Stored::Integer(i),
            Setting::Boolean(b) => Stored::Boolean(b),
            Setting::Integers(v) => Stored::Array(v@.len()),
        }
    }
}

/// What each key path finds in the store's merged view. A key is in the
/// domain exactly when it parses as a path and the path reaches a value.
pub uninterp spec fn lookup_of(c: config::Config) -> Map<Seq<char>, Stored>;

/// The files merged into the store, in the order they were merged.
pub uninterp spec fn sources_of(c: config::Config) -> Seq<Seq<char>>;

/// The store's overrides (explicit values), keyed by their key paths as set.
pub uninterp spec fn overrides_of(c: config::Config) -> Map<Seq<char>, Stored>;

/// The store's defaults, keyed by their key paths as set.
pub uninterp spec fn defaults_of(c: config::Config) -> Map<Seq<char>, Stored>;

/// Whether `longer` continues the path `shorter` into a nested entry or an
/// array element.
pub open spec fn nests_under(longer: Seq<char>, shorter: Seq<char>) -> bool {
    &&& shorter.len() < longer.len()
    &&& longer.subrange(0, shorter.len() as int) == shorter
    &&& (longer[shorter.len() as int] == '.' || longer[shorter.len() as int] == '[')
}

/// Whether an override other than `key` itself writes into or over `key`'s
/// path, so that the order in which overrides are applied decides what
/// `key` finds.
pub open spec fn shadowed(keys: Set<Seq<char>>, key: Seq<char>) -> bool {
    exists|o: Seq<char>| #[trigger] keys.contains(o) && (nests_under(o, key) || nests_under(key, o))
}

/// A key that holds a subscript with a negative index (`[`, then spaces,
/// then `-`), which the store's index arithmetic cannot take when the array
/// is shorter.
pub open spec fn negative_subscript(key: Seq<char>) -> bool {
    exists|i: int, j: int|
        #![trigger key[i], key[j]]
        0 <= i < j < key.len() && key[i] == '[' && key[j] == '-' && forall|m: int|
            i < m < j ==> key[m] == ' '
}

/// Whether `entries` finds each explicit value in `overrides` at its key,
/// wherever no other explicit value nests under or over that key and the
/// value is not a table (a table is merged into what is there).
pub open spec fn holds_explicit(entries: Map<Seq<char>, Stored>, overrides: Map<Seq<char>, Stored>) -> bool {
    forall|k: Seq<char>|
        #[trigger] overrides.contains_key(k) && !shadowed(overrides.dom(), k) && !(overrides[k] is Table)
            ==> entries.contains_key(k) && entries[k] == overrides[k]
}

/// A key without array subscripts: writing through a subscript makes the
/// store grow an array up to that index.
pub open spec fn plain_key(key: Seq<char>) -> bool {
    !key.contains('[')
}

/// A character allowed in a segment of a key path.
pub open spec fn key_char(c: char) -> bool {
    ||| ('a' <= c && c <= 'z')
    ||| ('A' <= c && c <= 'Z')
    ||| ('0' <= c && c <= '9')
    ||| c == ' '
    ||| c == '_'
    ||| c == '-'
}

/// A key path without subscripts that the store accepts: non-empty segments
/// of key characters joined by `.`.
pub open spec fn valid_plain_key(key: Seq<char>) -> bool {
    &&& key.len() > 0
    &&& key[0] != '.'
    &&& key.last() != '.'
    &&& forall|i: int| 0 <= i < key.len() ==> key_char(#[trigger] key[i]) || key[i] == '.'
    &&& forall|i: int| 0 <= i < key.len() - 1 ==> !(#[trigger] key[i] == '.' && key[i + 1] == '.')
}

/// Whether `c` can occur in text that reads as an integer: a digit, a sign,
/// or a letter of `true`, `false`, `on`, `off`, `yes` or `no` in either case.
pub open spec fn integer_text_char(c: char) -> bool {
    ||| ('0' <= c && c <= '9')
    ||| c == '+'
    ||| c == '-'
    ||| seq!['t', 'r', 'u', 'e', 'f', 'a', 'l', 's', 'o', 'n', 'y'].contains(c)
    ||| seq!['T', 'R', 'U', 'E', 'F', 'A', 'L', 'S', 'O', 'N', 'Y'].contains(c)
}

/// Whether `c` can occur in text that reads as a boolean: `0`, `1`, or a
/// letter of `true`, `false`, `on`, `off`, `yes` or `no` in either case.
pub open spec fn boolean_text_char(c: char) -> bool {
    ||| c == '0'
    ||| c == '1'
    ||| seq!['t', 'r', 'u', 'e', 'f', 'a', 'l', 's', 'o', 'n', 'y'].contains(c)
    ||| seq!['T', 'R', 'U', 'E', 'F', 'A', 'L', 'S', 'O', 'N', 'Y'].contains(c)
}

/// Whether each entry of the table at `key`, named by a single segment,
/// is found at `key` followed by `.` and that name.
pub open spec fn children_reachable(entries: Map<Seq<char>, Stored>, key: Seq<char>) -> bool {
    match entries[key] {
        Stored::Table(ks) => forall|b: Seq<char>|
            #[trigger] ks.contains(b) && valid_plain_key(b) && !b.contains('.') ==> entries.contains_key(
                key + seq!['.'] + b,
            ),
        _ => true,
    }
}

/// The outcome of a lookup of a key that the store does not hold.
pub open spec fn missing<T>(r: Result<T, HydroError>) -> bool {
    match r {
        Err(HydroError::KeyNotFound(_)) => true,
        Err(HydroError::InvalidKey(_)) => true,
        _ => false,
    }
}

/// The outcome of a lookup of a valid key that the store does not hold.
pub open spec fn not_found<T>(r: Result<T, HydroError>, key: Seq<char>) -> bool {
    r matches Err(HydroError::KeyNotFound(k)) && k@ == key
}

/// The outcome of an operation on a key the store cannot parse.
pub open spec fn invalid_key<T>(r: Result<T, HydroError>) -> bool {
    r matches Err(HydroError::InvalidKey(_))
}

/// The outcome of reading a file that cannot be read or parsed.
pub open spec fn load_failure<T>(r: Result<T, HydroError>) -> bool {
    r matches Err(e) && (e is Parse || e is Io)
}

/// The outcome of a conversion that the stored value does not admit.
pub open spec fn mismatch<T>(r: Result<T, HydroError>) -> bool {
    r matches Err(HydroError::TypeMismatch(_))
}

/// Relies on `config::ConfigError`'s variants: each becomes the library error
/// of the same kind (`NotFound` carries the key).
#[verifier::external_body]
fn error_of(e: config::ConfigError) -> (r: HydroError) {
    let text = e.to_string();
    match e {
        config::ConfigError::Frozen => HydroError::Frozen,
        config::ConfigError::NotFound(key) => HydroError::KeyNotFound(key),
        config::ConfigError::PathParse(_) => HydroError::InvalidKey(text),
        config::ConfigError::FileParse { .. } => HydroError::Parse(text),
        config::ConfigError::Type { .. } => HydroError::TypeMismatch(text),
        config::ConfigError::Message(m) => HydroError::Deserialization(m),
        config::ConfigError::Foreign(_) => HydroError::Io(text),
    }
}

/// Relies on `config::Config::default`: a store with no layers, no defaults
/// and no overrides, whose cache holds nothing.
#[verifier::external_body]
pub(crate) fn new_store() -> (r: config::Config)
    ensures
        lookup_of(r).dom() =~= Set::empty(),
        sources_of(r).len() == 0,
        overrides_of(r).dom().is_empty(),
        defaults_of(r).dom().is_empty(),
{
    config::Config::default()
}

/// Relies on `config::Config::merge` with a `config::File` for `path`: the
/// file is appended to the layers before the cache is rebuilt; when the rebuild
/// fails the cache is left as it was. (The store panics on a file whose
/// top-level key is itself a path with a negative index into a shorter array;
/// what a file holds is beyond what a precondition can name.)
#[verifier::external_body]
pub(crate) fn merge_file(c: &mut config::Config, path: &str) -> (r: Result<(), HydroError>)
    ensures
        sources_of(*final(c)) == sources_of(*old(c)).push(path@),
        overrides_of(*final(c)) == overrides_of(*old(c)),
        defaults_of(*final(c)) == defaults_of(*old(c)),
        r is Ok ==> holds_explicit(lookup_of(*final(c)), overrides_of(*final(c))),
        r is Err ==> load_failure(r),
        r is Err ==> lookup_of(*final(c)) == lookup_of(*old(c)),
{
    match c.merge(config::File::from(std::path::PathBuf::from(path))) {
        Ok(_) => Ok(()),
        Err(e) => Err(error_of(e)),
    }
}

/// Relies on `config::Config::refresh`: the layers, defaults and overrides
/// stay, the cache is rebuilt from them (with no layers, from the same
/// defaults and overrides every earlier rebuild used), and is left as it was
/// when that fails.
#[verifier::external_body]
pub(crate) fn refresh_store(c: &mut config::Config) -> (r: Result<(), HydroError>)
    ensures
        sources_of(*final(c)) == sources_of(*old(c)),
        overrides_of(*final(c)) == overrides_of(*old(c)),
        defaults_of(*final(c)) == defaults_of(*old(c)),
        r is Ok ==> holds_explicit(lookup_of(*final(c)), overrides_of(*final(c))),
        r is Err ==> load_failure(r),
        r is Err ==> lookup_of(*final(c)) == lookup_of(*old(c)),
        sources_of(*old(c)).len() == 0 ==> r is Ok && lookup_of(*final(c)) == lookup_of(*old(c)),
{
    match c.refresh() {
        Ok(_) => Ok(()),
        Err(e) => Err(error_of(e)),
    }
}

/// Relies on `config::Config::set`: records an override and rebuilds the
/// cache, applying the defaults first, then the layers, then the overrides,
/// each by writing its value at its path; the layers and defaults stay, and on
/// failure the cache is left as it was.
#[verifier::external_body]
pub(crate) fn set_override(c: &mut config::Config, key: &str, value: Setting) -> (r: Result<(), HydroError>)
    requires
        plain_key(key@),
    ensures
        sources_of(*final(c)) == sources_of(*old(c)),
        defaults_of(*final(c)) == defaults_of(*old(c)),
        !valid_plain_key(key@) ==> invalid_key(r) && overrides_of(*final(c)) == overrides_of(*old(c)),
        valid_plain_key(key@) && sources_of(*old(c)).len() == 0 ==> r is Ok,
        r is Err ==> lookup_of(*final(c)) == lookup_of(*old(c)),
        r is Ok ==> overrides_of(*final(c)) == overrides_of(*old(c)).insert(key@, value.stored()),
        r is Ok ==> holds_explicit(lookup_of(*final(c)), overrides_of(*final(c))),
{
    let done = match value {
        Setting::Text(s) => c.set(key, s),
        Setting::Integer(i) => c.set(key, i),
        Setting::Boolean(b) => c.set(key, b),
        Setting::Integers(v) => c.set(key, v),
    };
    done.map(|_| ()).map_err(error_of)
}

/// Relies on `config::Config::set_default`: records a default and rebuilds the
/// cache, applying the defaults first, then the layers, then the overrides,
/// each by writing its value at its path; the layers and overrides stay, and
/// on failure the cache is left as it was.
#[verifier::external_body]
pub(crate) fn set_fallback(c: &mut config::Config, key: &str, value: Setting) -> (r: Result<(), HydroError>)
    requires
        plain_key(key@),
    ensures
        sources_of(*final(c)) == sources_of(*old(c)),
        overrides_of(*final(c)) == overrides_of(*old(c)),
        !valid_plain_key(key@) ==> invalid_key(r) && defaults_of(*final(c)) == defaults_of(*old(c)),
        valid_plain_key(key@) && sources_of(*old(c)).len() == 0 ==> r is Ok,
        r is Err ==> lookup_of(*final(c)) == lookup_of(*old(c)),
        r is Ok ==> defaults_of(*final(c)) == defaults_of(*old(c)).insert(key@, value.stored()),
        r is Ok ==> holds_explicit(lookup_of(*final(c)), overrides_of(*final(c))),
        r is Ok && sources_of(*old(c)).len() == 0 && !overrides_of(*old(c)).contains_key(key@)
            && !shadowed(overrides_of(*old(c)).dom(), key@) && !shadowed(defaults_of(*old(c)).dom(), key@)
            ==> lookup_of(*final(c)).contains_key(key@) && lookup_of(*final(c))[key@] == value.stored(),
{
    let done = match value {
        Setting::Text(s) => c.set_default(key, s),
        Setting::Integer(i) => c.set_default(key, i),
        Setting::Boolean(b) => c.set_default(key, b),
        Setting::Integers(v) => c.set_default(key, v),
    };
    done.map(|_| ()).map_err(error_of)
}

/// Relies on `config::Config::get_str`: the value found at the key path,
/// turned into text; absent keys give `NotFound`, tables, arrays and nil give
/// a type error.
#[verifier::external_body]
pub(crate) fn lookup_str(c: &config::Config, key: &str) -> (r: Result<String, HydroError>)
    requires
        !negative_subscript(key@),
    ensures
        !lookup_of(*c).contains_key(key@) ==> missing(r),
        valid_plain_key(key@) && !lookup_of(*c).contains_key(key@) ==> not_found(r, key@),
        plain_key(key@) && !valid_plain_key(key@) ==> invalid_key(r),
        lookup_of(*c).contains_key(key@) ==> (r is Ok || mismatch(r)),
        lookup_of(*c).contains_key(key@) ==> match lookup_of(*c)[key@] {
            Stored::Text(s) => r matches Ok(v) && v@ == s,
            Stored::Boolean(b) => r matches Ok(v) && v@ == (if b { "true"@ } else { "false"@ }),
            Stored::Nil | Stored::Table(_) | Stored::Array(_) => mismatch(r),
            _ => r is Ok,
        },
{
    c.get_str(key).map_err(error_of)
}

/// Relies on `config::Config::get_int`: the value found at the key path as an
/// integer; booleans give 1 or 0, text is parsed, and absent keys give
/// `NotFound`.
#[verifier::external_body]
pub(crate) fn lookup_int(c: &config::Config, key: &str) -> (r: Result<i64, HydroError>)
    requires
        !negative_subscript(key@),
    ensures
        !lookup_of(*c).contains_key(key@) ==> missing(r),
        valid_plain_key(key@) && !lookup_of(*c).contains_key(key@) ==> not_found(r, key@),
        plain_key(key@) && !valid_plain_key(key@) ==> invalid_key(r),
        lookup_of(*c).contains_key(key@) ==> (r is Ok || mismatch(r)),
        lookup_of(*c).contains_key(key@) ==> match lookup_of(*c)[key@] {
            Stored::Integer(n) => r == Ok::<i64, HydroError>(n),
            Stored::Boolean(b) => r == Ok::<i64, HydroError>(if b { 1 } else { 0 }),
            Stored::Nil | Stored::Table(_) | Stored::Array(_) => mismatch(r),
            Stored::Real => r is Ok,
            Stored::Text(t) => (exists|i: int| 0 <= i < t.len() && !integer_text_char(#[trigger] t[i])) ==> mismatch(r),
        },
{
    c.get_int(key).map_err(error_of)
}

/// Relies on `config::Config::get_bool`: the value found at the key path as a
/// boolean; integers give whether they are non-zero, the lower-case text
/// `1`, `true`, `on`, `yes` and `0`, `false`, `off`, `no` give true and
/// false, and absent keys give `NotFound`.
#[verifier::external_body]
pub(crate) fn lookup_bool(c: &config::Config, key: &str) -> (r: Result<bool, HydroError>)
    requires
        !negative_subscript(key@),
    ensures
        !lookup_of(*c).contains_key(key@) ==> missing(r),
        valid_plain_key(key@) && !lookup_of(*c).contains_key(key@) ==> not_found(r, key@),
        plain_key(key@) && !valid_plain_key(key@) ==> invalid_key(r),
        lookup_of(*c).contains_key(key@) ==> (r is Ok || mismatch(r)),
        lookup_of(*c).contains_key(key@) ==> match lookup_of(*c)[key@] {
            Stored::Boolean(b) => r == Ok::<bool, HydroError>(b),
            Stored::Integer(n) => r == Ok::<bool, HydroError>(n != 0),
            Stored::Nil | Stored::Table(_) | Stored::Array(_) => mismatch(r),
            Stored::Real => r is Ok,
            Stored::Text(t) => {
                &&& (t == "1"@ || t == "true"@ || t == "on"@ || t == "yes"@) ==> r == Ok::<bool, HydroError>(true)
                &&& (t == "0"@ || t == "false"@ || t == "off"@ || t == "no"@) ==> r == Ok::<bool, HydroError>(false)
                &&& (exists|i: int| 0 <= i < t.len() && !boolean_text_char(#[trigger] t[i])) ==> mismatch(r)
            },
        },
{
    c.get_bool(key).map_err(error_of)
}

/// Relies on `config::Config::get_table`: a table found at the key path,
/// with its entries; every other kind of value gives a type error.
#[verifier::external_body]
pub(crate) fn lookup_table(c: &config::Config, key: &str) -> (r: Result<HashMap<String, config::Value>, HydroError>)
    requires
        !negative_subscript(key@),
    ensures
        !lookup_of(*c).contains_key(key@) ==> missing(r),
        valid_plain_key(key@) && !lookup_of(*c).contains_key(key@) ==> not_found(r, key@),
        plain_key(key@) && !valid_plain_key(key@) ==> invalid_key(r),
        lookup_of(*c).contains_key(key@) ==> (r is Ok <==> lookup_of(*c)[key@] is Table),
        r matches Ok(m) ==> lookup_of(*c)[key@] matches Stored::Table(ks) && m@.dom().map(|s: String| s@) == ks,
        r is Ok && valid_plain_key(key@) ==> children_reachable(lookup_of(*c), key@),
        lookup_of(*c).contains_key(key@) ==> (r is Ok || mismatch(r)),
{
    c.get_table(key).map_err(error_of)
}

/// Relies on `config::Config::get_array`: an array found at the key path,
/// with its elements; every other kind of value gives a type error.
#[verifier::external_body]
pub(crate) fn lookup_array(c: &config::Config, key: &str) -> (r: Result<Vec<config::Value>, HydroError>)
    requires
        !negative_subscript(key@),
    ensures
        !lookup_of(*c).contains_key(key@) ==> missing(r),
        valid_plain_key(key@) && !lookup_of(*c).contains_key(key@) ==> not_found(r, key@),
        plain_key(key@) && !valid_plain_key(key@) ==> invalid_key(r),
        lookup_of(*c).contains_key(key@) ==> (r is Ok <==> lookup_of(*c)[key@] is Array),
        r matches Ok(v) ==> lookup_of(*c)[key@] matches Stored::Array(n) && v@.len() == n,
        lookup_of(*c).contains_key(key@) ==> (r is Ok || mismatch(r)),
{
    c.get_array(key).map_err(error_of)
}

} // verus!
