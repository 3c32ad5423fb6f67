use vstd::prelude::*;

verus! {

/// Where to look for configuration: an optional root path that replaces the
/// running executable's path as the base of the search.
pub struct HydroSettings {
    pub root_path: Option<String>,
}

impl Default for HydroSettings {
    fn default() -> (r: Self)
        ensures
            r.root_path is None,
    {
        HydroSettings { root_path: None }
    }
}

impl HydroSettings {
    /// Settings whose search starts at `root`.
    pub fn with_root_path(root: String) -> (r: Self)
        ensures
            r.root_path == Some(root),
    {
        HydroSettings { root_path: Some(root) }
    }

    /// The path the search starts from: the explicit root path when one was
    /// given, else the executable's path handed in by the caller.
    pub fn base_path(&self, current_exe: Option<String>) -> (r: Option<String>)
        ensures
            r == (match self.root_path {
                Some(p) => Some(p),
                None => current_exe,
            }),
    {
        match &self.root_path {
            Some(p) => Some(p.clone()),
            None => current_exe,
        }
    }
}

} // verus!
