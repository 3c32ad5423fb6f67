use vstd::prelude::*;

verus! {

/// What can go wrong while loading or reading configuration.
#[derive(Debug, Clone, PartialEq, Eq)]
pub enum HydroError {
    /// The key is absent after all merges and defaults.
    KeyNotFound(String),
    /// The stored value cannot be converted into the requested type.
    TypeMismatch(String),
    /// A configuration file does not conform to its format.
    Parse(String),
    /// A configuration file could not be read.
    Io(String),
    /// The merged configuration does not fit the requested structure.
    Deserialization(String),
    /// The key is not a valid key path.
    InvalidKey(String),
    /// The store no longer accepts changes.
    Frozen,
}

impl HydroError {
    /// A one-line description of the error.
    pub fn message(&self) -> (r: String)
        ensures
            r@ == match self {
                HydroError::KeyNotFound(m) => m@,
                HydroError::TypeMismatch(m) => m@,
                HydroError::Parse(m) => m@,
                HydroError::Io(m) => m@,
                HydroError::Deserialization(m) => m@,
                HydroError::InvalidKey(m) => m@,
                HydroError::Frozen => "configuration is frozen"@,
            },
    {
        match self {
            HydroError::KeyNotFound(k) => k.clone(),
            HydroError::TypeMismatch(m) => m.clone(),
            HydroError::Parse(m) => m.clone(),
            HydroError::Io(m) => m.clone(),
            HydroError::Deserialization(m) => m.clone(),
            HydroError::InvalidKey(m) => m.clone(),
            HydroError::Frozen => String::from_str("configuration is frozen"),
        }
    }
}

} // verus!
