//! Local persistence of an activation key: the kinds of store and
//! the file name each kind uses. Touching the file system is the
//! surrounding program's work.
use vstd::prelude::*;

verus! {

use vstd::string::StringExecFns;

/// Where an activation key is persisted locally.
#[derive(Clone, Debug)]
pub enum ActiveLocalType {
    /// A file in the temporary directory, named after the key.
    Temp(String),
}

impl ActiveLocalType {
    /// The file name the store uses inside its directory.
    pub fn cache_file_name(&self) -> (r: String)
        ensures
            match self {
                ActiveLocalType::Temp(fname) => r@ == "os-key-"@ + fname@,
            },
    {
        match self {
            ActiveLocalType::Temp(fname) => {
                let mut name = String::from_str("os-key-");
                name.append(fname.as_str());
                name
            },
        }
    }
}

} // verus!
