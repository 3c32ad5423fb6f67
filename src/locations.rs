use vstd::prelude::*;

verus! {

/// The text of each string in `v`.
pub open spec fn names_of(v: Seq<String>) -> Seq<Seq<char>> {
    v.map_values(|s: String| s@)
}

/// The text of an optional string.
pub open spec fn opt_text(o: Option<String>) -> Option<Seq<char>> {
    match o {
        Some(s) => Some(s@),
        None => None,
    }
}

/// The file names a settings file may have, in order of preference.
pub open spec fn settings_names() -> Seq<Seq<char>> {
    seq![
        "settings.toml"@,
        "settings.json"@,
        "settings.yaml"@,
        "settings.hjson"@,
        "settings.ini"@,
    ]
}

/// The file names a secrets file may have, in order of preference.
pub open spec fn secrets_names() -> Seq<Seq<char>> {
    seq![
        ".secrets.toml"@,
        ".secrets.json"@,
        ".secrets.yaml"@,
        ".secrets.hjson"@,
        ".secrets.ini"@,
    ]
}

/// The first candidate that occurs among `entries`.
pub open spec fn first_present(cands: Seq<Seq<char>>, entries: Seq<Seq<char>>) -> Option<Seq<char>>
    decreases cands.len(),
{
    if cands.len() == 0 {
        None
    } else if entries.contains(cands[0]) {
        Some(cands[0])
    } else {
        first_present(cands.drop_first(), entries)
    }
}

/// `name` placed in directory `dir`.
pub open spec fn joined(dir: Seq<char>, name: Seq<char>) -> Seq<char> {
    if dir.len() == 0 {
        name
    } else if dir.last() == '/' {
        dir + name
    } else {
        dir + seq!['/'] + name
    }
}

/// The path of the preferred candidate present in `dir`, if any is.
pub open spec fn located(dir: Seq<char>, cands: Seq<Seq<char>>, entries: Seq<Seq<char>>) -> Option<
    Seq<char>,
> {
    match first_present(cands, entries) {
        Some(n) => Some(joined(dir, n)),
        None => None,
    }
}

/// The position of the last `c` in `p`, or -1 when there is none.
pub open spec fn last_index_of(p: Seq<char>, c: char) -> int
    decreases p.len(),
{
    if p.len() == 0 {
        -1
    } else if p.last() == c {
        p.len() - 1
    } else {
        last_index_of(p.drop_last(), c)
    }
}

/// The directory part of a path: what stands before its last separator.
pub open spec fn parent_of(p: Seq<char>) -> Seq<char> {
    let i = last_index_of(p, '/');
    if i < 0 {
        Seq::empty()
    } else if i == 0 {
        seq!['/']
    } else {
        p.subrange(0, i)
    }
}

fn settings_candidates() -> (r: Vec<String>)
    ensures
        names_of(r@) == settings_names(),
{
    let mut r: Vec<String> = Vec::new();
    r.push(String::from_str("settings.toml"));
    r.push(String::from_str("settings.json"));
    r.push(String::from_str("settings.yaml"));
    r.push(String::from_str("settings.hjson"));
    r.push(String::from_str("settings.ini"));
    assert(names_of(r@) =~= settings_names());
    r
}

fn secrets_candidates() -> (r: Vec<String>)
    ensures
        names_of(r@) == secrets_names(),
{
    let mut r: Vec<String> = Vec::new();
    r.push(String::from_str(".secrets.toml"));
    r.push(String::from_str(".secrets.json"));
    r.push(String::from_str(".secrets.yaml"));
    r.push(String::from_str(".secrets.hjson"));
    r.push(String::from_str(".secrets.ini"));
    assert(names_of(r@) =~= secrets_names());
    r
}

/// Whether `name` is one of `entries`.
pub fn contains_name(entries: &Vec<String>, name: &String) -> (r: bool)
    ensures
        r == names_of(entries@).contains(name@),
{
    let mut i: usize = 0;
    while i < entries.len()
        invariant
            i <= entries.len(),
            forall|j: int| 0 <= j < i ==> entries@[j]@ != name@,
        decreases entries.len() - i,
    {
        if entries[i] == *name {
            assert(names_of(entries@)[i as int] == name@);
            return true;
        }
        i = i + 1;
    }
    assert(!names_of(entries@).contains(name@)) by {
        if names_of(entries@).contains(name@) {
            let j = choose|j: int| 0 <= j < names_of(entries@).len() && names_of(entries@)[j] == name@;
            assert(entries@[j]@ == name@);
        }
    }
    false
}

/// The first of `cands` that occurs among `entries`.
pub fn find_first(cands: &Vec<String>, entries: &Vec<String>) -> (r: Option<String>)
    ensures
        opt_text(r) == first_present(names_of(cands@), names_of(entries@)),
{
    let ghost e = names_of(entries@);
    assert(names_of(cands@).subrange(0, cands@.len() as int) =~= names_of(cands@));
    let mut i: usize = 0;
    while i < cands.len()
        invariant
            i <= cands.len(),
            e == names_of(entries@),
            first_present(names_of(cands@), e) == first_present(names_of(cands@).subrange(i as int, cands@.len() as int), e),
        decreases cands.len() - i,
    {
        let ghost rest = names_of(cands@).subrange(i as int, cands@.len() as int);
        assert(rest[0] == cands@[i as int]@);
        assert(rest.drop_first() =~= names_of(cands@).subrange(i + 1, cands@.len() as int));
        assert(first_present(rest, e) == if e.contains(rest[0]) {
            Some(rest[0])
        } else {
            first_present(rest.drop_first(), e)
        });
        if contains_name(entries, &cands[i]) {
            return Some(cands[i].clone());
        }
        i = i + 1;
    }
    assert(names_of(cands@).subrange(i as int, cands@.len() as int).len() == 0);
    None
}

/// `name` placed in directory `dir`, with one separator between them.
pub fn join_path(dir: &str, name: &str) -> (r: String)
    ensures
        r@ == joined(dir@, name@),
{
    let n = dir.unicode_len();
    if n == 0 {
        return String::from_str(name);
    }
    let mut r = String::from_str(dir);
    if dir.get_char(n - 1) != '/' {
        proof {
            reveal_strlit("/");
        }
        r.append("/");
    }
    r.append(name);
    proof {
        if dir@.last() != '/' {
            assert(r@ =~= dir@ + seq!['/'] + name@);
        }
    }
    r
}

/// The directory part of `path`: what stands before its last `/`; `/` for a
/// path directly under the root, empty for a path without a separator.
pub fn parent_dir(path: &str) -> (r: String)
    ensures
        r@ == parent_of(path@),
{
    let n = path.unicode_len();
    assert(path@.subrange(0, n as int) =~= path@);
    let mut i: usize = n;
    while i > 0
        invariant
            i <= n == path@.len(),
            last_index_of(path@, '/') == last_index_of(path@.subrange(0, i as int), '/'),
        decreases i,
    {
        assert(path@.subrange(0, i as int).drop_last() =~= path@.subrange(0, i - 1));
        if path.get_char(i - 1) == '/' {
            if i == 1 {
                proof {
                    reveal_strlit("/");
                }
                assert("/"@ =~= seq!['/']);
                return String::from_str("/");
            }
            let p = path.substring_char(0, i - 1);
            return String::from_str(p);
        }
        i = i - 1;
    }
    assert(path@.subrange(0, 0).len() == 0);
    String::new()
}

/// The directory searched for configuration files: `base` itself when it
/// names a directory, else the directory that holds it.
pub fn search_dir(base: &str, base_is_dir: bool) -> (r: String)
    ensures
        r@ == (if base_is_dir { base@ } else { parent_of(base@) }),
{
    if base_is_dir {
        String::from_str(base)
    } else {
        parent_dir(base)
    }
}

/// Resolves the settings file and the secrets file in `dir`, whose entries
/// are `entries`: for each, the path of the first of its candidate names
/// that is present, in order of preference, or none when none is.
pub fn config_locations(dir: &str, entries: &Vec<String>) -> (r: (Option<String>, Option<String>))
    ensures
        opt_text(r.0) == located(dir@, settings_names(), names_of(entries@)),
        opt_text(r.1) == located(dir@, secrets_names(), names_of(entries@)),
{
    let settings = match find_first(&settings_candidates(), entries) {
        Some(n) => Some(join_path(dir, n.as_str())),
        None => None,
    };
    let secrets = match find_first(&secrets_candidates(), entries) {
        Some(n) => Some(join_path(dir, n.as_str())),
        None => None,
    };
    (settings, secrets)
}

} // verus!
