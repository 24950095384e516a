use vstd::prelude::*;

verus! {

/// The caller-supplied inputs: the positional arguments left after flag
/// parsing, and optional explicit overrides for the working directory and
/// the configuration file path.
pub struct Opts {
    pub args: Vec<String>,
    pub pwd: Option<String>,
    pub config: Option<String>,
}

/// A snapshot of the process state that path resolution consults when an
/// override is absent. The caller reads the environment and hands the
/// values in, so resolution itself stays a pure function.
pub struct ProcessEnv {
    /// The value of the `XDG_CONFIG_HOME` environment variable, if set.
    pub xdg_config_home: Option<String>,
    /// The process's current working directory, if it could be determined.
    pub current_dir: Option<String>,
}

} // verus!
