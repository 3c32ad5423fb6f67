use crate::error::HydroError;
use crate::settings::HydroSettings;
use crate::store::{
    boolean_text_char, children_reachable, defaults_of, holds_explicit, integer_text_char,
    invalid_key, load_failure, lookup_array, lookup_bool, lookup_int, lookup_of, lookup_str,
    lookup_table, merge_file, mismatch, missing, negative_subscript, nests_under, new_store,
    not_found, overrides_of, plain_key, refresh_store, set_fallback, set_override, shadowed,
    sources_of, valid_plain_key, Setting, Stored,
};
use std::collections::HashMap;
use vstd::prelude::*;

verus! {

/// The files among `settings` and `secrets` that are present, in merge order.
pub open spec fn planned_layers(settings: Option<String>, secrets: Option<String>) -> Seq<Seq<char>> {
    let first = match settings {
        Some(p) => seq![p@],
        None => Seq::empty(),
    };
    let second = match secrets {
        Some(p) => seq![p@],
        None => Seq::empty(),
    };
    first + second
}

/// An explicit value keeps winning: in a state that a successful `set`,
/// `set_default`, `refresh` or merging `initialize` left, a key given a value
/// with `set` finds exactly that value, whatever the files and defaults hold,
/// unless another explicit key nests under or over it.
pub proof fn lemma_explicit_value_wins(h: Hydroconf, key: Seq<char>)
    requires
        holds_explicit(h.entries(), h.overrides()),
        h.overrides().contains_key(key),
        !shadowed(h.overrides().dom(), key),
        !(h.overrides()[key] is Table),
    ensures
        h.entries().contains_key(key),
        h.entries()[key] == h.overrides()[key],
{
}

/// Configuration loaded from a settings file and an optional secrets file,
/// merged in that order into a layered store, with typed access by key path.
pub struct Hydroconf {
    config: config::Config,
    hydro: HydroSettings,
}

impl Default for Hydroconf {
    fn default() -> (r: Self)
        ensures
            r.entries().dom() == Set::<Seq<char>>::empty(),
            r.layers().len() == 0,
            r.overrides().dom().is_empty(),
            r.defaults().dom().is_empty(),
            r.settings().root_path is None,
    {
        Self::new(HydroSettings::default())
    }
}

impl Hydroconf {
    /// What each key path finds in the merged configuration.
    pub closed spec fn entries(&self) -> Map<Seq<char>, Stored> {
        lookup_of(self.config)
    }

    /// The files merged so far, in merge order; later ones take precedence.
    pub closed spec fn layers(&self) -> Seq<Seq<char>> {
        sources_of(self.config)
    }

    /// The explicit values given with `set`, by key.
    pub closed spec fn overrides(&self) -> Map<Seq<char>, Stored> {
        overrides_of(self.config)
    }

    /// The defaults given with `set_default`, by key.
    pub closed spec fn defaults(&self) -> Map<Seq<char>, Stored> {
        defaults_of(self.config)
    }

    /// Where this facade looks for configuration.
    pub closed spec fn settings(&self) -> HydroSettings {
        self.hydro
    }

    /// A facade that has merged nothing yet.
    pub fn new(hydro: HydroSettings) -> (r: Self)
        ensures
            r.entries().dom() == Set::<Seq<char>>::empty(),
            r.layers().len() == 0,
            r.overrides().dom().is_empty(),
            r.defaults().dom().is_empty(),
            r.settings() == hydro,
    {
        Hydroconf { config: new_store(), hydro }
    }

    /// Where this facade looks for configuration.
    pub fn hydro_settings(&self) -> (r: &HydroSettings)
        ensures
            *r == self.settings(),
    {
        &self.hydro
    }

    /// The path the search for configuration files starts from: the explicit
    /// root path when one was given, else `current_exe`.
    pub fn base_path(&self, current_exe: Option<String>) -> (r: Option<String>)
        ensures
            r == (match self.settings().root_path {
                Some(p) => Some(p),
                None => current_exe,
            }),
    {
        self.hydro.base_path(current_exe)
    }

    /// Merges the settings file, then the secrets file, each when present, so
    /// that the secrets take precedence. Stops at the first file that cannot be
    /// read or parsed; with neither file present nothing changes.
    pub fn initialize(&mut self, settings: Option<String>, secrets: Option<String>) -> (r: Result<(), HydroError>)
        ensures
            final(self).settings() == old(self).settings(),
            final(self).overrides() == old(self).overrides(),
            final(self).defaults() == old(self).defaults(),
            r is Err ==> load_failure(r),
            r is Ok && (settings is Some || secrets is Some) ==> holds_explicit(final(self).entries(), final(self).overrides()),
            r is Ok ==> final(self).layers() == old(self).layers() + planned_layers(settings, secrets),
            r is Err ==> (final(self).layers() == old(self).layers() + planned_layers(settings, None)
                || final(self).layers() == old(self).layers() + planned_layers(settings, secrets)),
            settings is None && secrets is None ==> r is Ok && final(self).entries() == old(self).entries()
                && final(self).layers() == old(self).layers(),
    {
        let ghost start = self.layers();
        if let Some(p) = &settings {
            match merge_file(&mut self.config, p.as_str()) {
                Ok(()) => {},
                Err(e) => {
                    assert(self.layers() =~= start + planned_layers(settings, None));
                    return Err(e);
                },
            }
        }
        assert(self.layers() =~= start + planned_layers(settings, None));
        if let Some(p) = &secrets {
            let res = merge_file(&mut self.config, p.as_str());
            assert(self.layers() =~= start + planned_layers(settings, secrets));
            if let Err(e) = res {
                return Err(e);
            }
        }
        assert(self.layers() =~= start + planned_layers(settings, secrets));
        Ok(())
    }

    /// Reads every merged file again, so that the store reflects what they
    /// hold now. On failure the store keeps what it held.
    pub fn refresh(&mut self) -> (r: Result<(), HydroError>)
        ensures
            final(self).settings() == old(self).settings(),
            final(self).layers() == old(self).layers(),
            final(self).overrides() == old(self).overrides(),
            final(self).defaults() == old(self).defaults(),
            r is Err ==> load_failure(r),
            r is Err ==> final(self).entries() == old(self).entries(),
            r is Ok ==> holds_explicit(final(self).entries(), final(self).overrides()),
            old(self).layers().len() == 0 ==> r is Ok && final(self).entries() == old(self).entries(),
    {
        refresh_store(&mut self.config)
    }

    /// Sets a value used only where no merged file and no explicit value gives
    /// one for `key`.
    pub fn set_default(&mut self, key: &str, value: Setting) -> (r: Result<(), HydroError>)
        requires
            plain_key(key@),
        ensures
            final(self).settings() == old(self).settings(),
            final(self).layers() == old(self).layers(),
            final(self).overrides() == old(self).overrides(),
            r is Err ==> final(self).entries() == old(self).entries(),
            !valid_plain_key(key@) ==> invalid_key(r) && final(self).defaults() == old(self).defaults(),
            valid_plain_key(key@) && old(self).layers().len() == 0 ==> r is Ok,
            r is Ok ==> final(self).defaults() == old(self).defaults().insert(key@, value.stored()),
            r is Ok ==> holds_explicit(final(self).entries(), final(self).overrides()),
            r is Ok && old(self).layers().len() == 0 && !old(self).overrides().contains_key(key@)
                && !shadowed(old(self).overrides().dom(), key@) && !shadowed(old(self).defaults().dom(), key@)
                ==> final(self).entries().contains_key(key@) && final(self).entries()[key@] == value.stored(),
    {
        set_fallback(&mut self.config, key, value)
    }

    /// Sets a value for `key` that takes precedence over merged files and
    /// defaults: once set, `key` finds exactly `value`, whatever the files
    /// and defaults hold, unless another explicit value nests under or over
    /// `key`'s path. Later merges, refreshes and defaults keep it so.
    pub fn set(&mut self, key: &str, value: Setting) -> (r: Result<(), HydroError>)
        requires
            plain_key(key@),
        ensures
            final(self).settings() == old(self).settings(),
            final(self).layers() == old(self).layers(),
            final(self).defaults() == old(self).defaults(),
            r is Err ==> final(self).entries() == old(self).entries(),
            r is Ok ==> final(self).overrides() == old(self).overrides().insert(key@, value.stored()),
            r is Ok ==> holds_explicit(final(self).entries(), final(self).overrides()),
            r is Ok && !shadowed(old(self).overrides().dom(), key@) ==> final(self).entries().contains_key(key@)
                && final(self).entries()[key@] == value.stored(),
            !valid_plain_key(key@) ==> invalid_key(r) && final(self).overrides() == old(self).overrides(),
            valid_plain_key(key@) && old(self).layers().len() == 0 ==> r is Ok,
    {
        let r = set_override(&mut self.config, key, value);
        proof {
            if r is Ok && !shadowed(old(self).overrides().dom(), key@) {
                let ov = self.overrides();
                assert(ov.dom() =~= old(self).overrides().dom().insert(key@));
                if shadowed(ov.dom(), key@) {
                    let o = choose|o: Seq<char>| #[trigger] ov.dom().contains(o) && (nests_under(o, key@) || nests_under(key@, o));
                    assert(o != key@);
                    assert(old(self).overrides().dom().contains(o));
                }
                assert(ov.contains_key(key@));
            }
        }
        r
    }

    /// The text at `key`; numbers and booleans are written out.
    pub fn get_str(&self, key: &str) -> (r: Result<String, HydroError>)
        requires
            !negative_subscript(key@),
        ensures
            !self.entries().contains_key(key@) ==> missing(r),
            valid_plain_key(key@) && !self.entries().contains_key(key@) ==> not_found(r, key@),
            plain_key(key@) && !valid_plain_key(key@) ==> invalid_key(r),
            self.entries().contains_key(key@) ==> (r is Ok || mismatch(r)),
            self.entries().contains_key(key@) ==> match self.entries()[key@] {
                Stored::Text(s) => r matches Ok(v) && v@ == s,
                Stored::Boolean(b) => r matches Ok(v) && v@ == (if b { "true"@ } else { "false"@ }),
                Stored::Nil | Stored::Table(_) | Stored::Array(_) => mismatch(r),
                _ => r is Ok,
            },
    {
        lookup_str(&self.config, key)
    }

    /// The integer at `key`; booleans count as 1 and 0.
    pub fn get_int(&self, key: &str) -> (r: Result<i64, HydroError>)
        requires
            !negative_subscript(key@),
        ensures
            !self.entries().contains_key(key@) ==> missing(r),
            valid_plain_key(key@) && !self.entries().contains_key(key@) ==> not_found(r, key@),
            plain_key(key@) && !valid_plain_key(key@) ==> invalid_key(r),
            self.entries().contains_key(key@) ==> (r is Ok || mismatch(r)),
            self.entries().contains_key(key@) ==> match self.entries()[key@] {
                Stored::Integer(n) => r == Ok::<i64, HydroError>(n),
                Stored::Boolean(b) => r == Ok::<i64, HydroError>(if b { 1 } else { 0 }),
                Stored::Nil | Stored::Table(_) | Stored::Array(_) => mismatch(r),
                Stored::Real => r is Ok,
                Stored::Text(t) => (exists|i: int| 0 <= i < t.len() && !integer_text_char(#[trigger] t[i])) ==> mismatch(r),
            },
    {
        lookup_int(&self.config, key)
    }

    /// The boolean at `key`; an integer counts as true when it is not zero,
    /// and text as true or false when it is one of the usual words.
    pub fn get_bool(&self, key: &str) -> (r: Result<bool, HydroError>)
        requires
            !negative_subscript(key@),
        ensures
            !self.entries().contains_key(key@) ==> missing(r),
            valid_plain_key(key@) && !self.entries().contains_key(key@) ==> not_found(r, key@),
            plain_key(key@) && !valid_plain_key(key@) ==> invalid_key(r),
            self.entries().contains_key(key@) ==> (r is Ok || mismatch(r)),
            self.entries().contains_key(key@) ==> match self.entries()[key@] {
                Stored::Boolean(b) => r == Ok::<bool, HydroError>(b),
                Stored::Integer(n) => r == Ok::<bool, HydroError>(n != 0),
                Stored::Nil | Stored::Table(_) | Stored::Array(_) => mismatch(r),
                Stored::Real => r is Ok,
                Stored::Text(t) => {
                    &&& (t == "1"@ || t == "true"@ || t == "on"@ || t == "yes"@) ==> r == Ok::<bool, HydroError>(true)
                    &&& (t == "0"@ || t == "false"@ || t == "off"@ || t == "no"@) ==> r == Ok::<bool, HydroError>(false)
                    &&& (exists|i: int| 0 <= i < t.len() && !boolean_text_char(#[trigger] t[i])) ==> mismatch(r)
                },
            },
    {
        lookup_bool(&self.config, key)
    }

    /// The table at `key`.
    pub fn get_table(&self, key: &str) -> (r: Result<HashMap<String, config::Value>, HydroError>)
        requires
            !negative_subscript(key@),
        ensures
            !self.entries().contains_key(key@) ==> missing(r),
            valid_plain_key(key@) && !self.entries().contains_key(key@) ==> not_found(r, key@),
            plain_key(key@) && !valid_plain_key(key@) ==> invalid_key(r),
            self.entries().contains_key(key@) ==> (r is Ok <==> self.entries()[key@] is Table),
            r matches Ok(m) ==> self.entries()[key@] matches Stored::Table(ks) && m@.dom().map(|s: String| s@) == ks,
        r is Ok && valid_plain_key(key@) ==> children_reachable(self.entries(), key@),
            self.entries().contains_key(key@) ==> (r is Ok || mismatch(r)),
    {
        lookup_table(&self.config, key)
    }

    /// The array at `key`.
    pub fn get_array(&self, key: &str) -> (r: Result<Vec<config::Value>, HydroError>)
        requires
            !negative_subscript(key@),
        ensures
            !self.entries().contains_key(key@) ==> missing(r),
            valid_plain_key(key@) && !self.entries().contains_key(key@) ==> not_found(r, key@),
            plain_key(key@) && !valid_plain_key(key@) ==> invalid_key(r),
            self.entries().contains_key(key@) ==> (r is Ok <==> self.entries()[key@] is Array),
            r matches Ok(v) ==> self.entries()[key@] matches Stored::Array(n) && v@.len() == n,
            self.entries().contains_key(key@) ==> (r is Ok || mismatch(r)),
    {
        lookup_array(&self.config, key)
    }

    /// The underlying store, for reads the typed accessors do not cover.
    pub fn store(&self) -> (r: &config::Config)
        ensures
            lookup_of(*r) == self.entries(),
            sources_of(*r) == self.layers(),
    {
        &self.config
    }

    /// Gives up the facade for its store, to deserialize it whole.
    pub fn into_store(self) -> (r: config::Config)
        ensures
            lookup_of(r) == self.entries(),
            sources_of(r) == self.layers(),
    {
        self.config
    }
}

} // verus!
