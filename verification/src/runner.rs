use vstd::prelude::*;

verus! {

/// What one finished child process left behind: its exit code (`None` when it
/// was killed by a signal) and its captured standard output.
pub struct ProcessOutput {
    pub exit_code: Option<i32>,
    pub stdout: Vec<u8>,
}

/// A narrow capability for the outside world the renderer lives in: spawning
/// a child process and the few filesystem probes conversion needs. The
/// embedding program implements it with real processes; tests implement it
/// with stubs, so no contract can be assumed of any method.
pub trait ProcessRunner {
    /// Whether a file exists at `path`.
    fn path_exists(&self, path: &String) -> bool;

    /// Remove the file at `path`; true on success.
    fn remove_file(&self, path: &String) -> bool;

    /// Run `program` with `args`, wait for it, and hand back its exit code
    /// and standard output; `Err` carries a message when it could not be
    /// spawned at all.
    fn run(&self, program: &String, args: &Vec<String>) -> Result<ProcessOutput, String>;
}

} // verus!
