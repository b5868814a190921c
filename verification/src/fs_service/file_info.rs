use vstd::prelude::*;

verus! {

/// What is known of a file: its size in bytes, what it is, and its times and
/// permissions as they are to be shown.
#[derive(Debug)]
pub struct FileInfo {
    pub size: u64,
    pub created: Option<String>,
    pub modified: Option<String>,
    pub accessed: Option<String>,
    pub is_directory: bool,
    pub is_file: bool,
    pub permissions: String,
}

} // verus!
