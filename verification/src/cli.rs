use vstd::prelude::*;

verus! {

/// What the command line configures: the directories blocked from access,
/// and the directories permitted. No permitted directory means access to
/// everything that is not blocked.
#[derive(Debug)]
pub struct CommandArguments {
    pub blocked_directories: Vec<String>,
    pub allowed_directories: Vec<String>,
}

} // verus!
