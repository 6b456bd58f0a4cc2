use vstd::prelude::*;

verus! {

/// Where the reasoning service lives and which environment variable holds its key.
pub struct LlmConfig {
    pub base_url: String,
    pub api_key_env: String,
}

/// The three verification commands, each a program followed by its arguments.
pub struct CiConfig {
    pub test_cmd: Vec<String>,
    pub check_cmd: Vec<String>,
    pub fmt_cmd: Vec<String>,
}

/// The identity under which commits are made.
pub struct CommitConfig {
    pub author_name: String,
    pub author_email: String,
}

} // verus!
