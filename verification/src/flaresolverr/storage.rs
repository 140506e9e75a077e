//! Where the data of a source is saved.

use vstd::prelude::*;
use vstd::string::StringExecFns;

verus! {

/// The directories, below the base directory, that hold the data of the
/// source `name`.
pub fn source_dir(name: &String) -> (parts: Vec<String>)
    ensures
        parts.deep_view() == seq!["sources"@, name@],
{
    let parts = vec![String::from_str("sources"), name.clone()];
    assert(parts.deep_view() =~= seq!["sources"@, name@]);
    parts
}

/// The name of the file that holds the data of the source `name`.
pub fn source_file_name(name: &String) -> (f: String)
    ensures
        f@ == name@ + ".json"@,
{
    let mut f = name.clone();
    f.append(".json");
    f
}

} // verus!
