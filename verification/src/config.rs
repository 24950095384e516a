use vstd::prelude::*;

use crate::numeral::decimal;
use crate::numeral::decimal_string;
use crate::opts::Opts;
use crate::opts::ProcessEnv;

verus! {

/// Which operation an arity error was reported against. The value fixes the
/// wording of the error message and the expected count it names.
#[derive(Clone, Copy, Debug, PartialEq, Eq, Structural)]
pub enum OperationKind {
    Print,
    Add,
    Remove,
}

/// Every way argument classification or path resolution can fail.
#[derive(Clone, Copy, Debug, PartialEq, Eq, Structural)]
pub enum ConfigError {
    /// The argument sequence fits no operation's arity; `reported` is the
    /// actual count named in the message.
    InvalidArguments { kind: OperationKind, reported: usize },
    /// A configuration path was not supplied and `XDG_CONFIG_HOME` is unset.
    EnvironmentLookupFailure,
    /// A working directory was not supplied and the process's current
    /// directory could not be determined.
    WorkingDirectoryUnavailable,
}

impl ConfigError {
    /// The human-readable message for this error. The removal message names
    /// `add` and the implicit-print message counts every token rather than
    /// only those after a keyword: both quirks are deliberate, documented
    /// observable behaviour.
    pub open spec fn message_view(&self) -> Seq<char> {
        match *self {
            ConfigError::InvalidArguments { kind, reported } => match kind {
                OperationKind::Add => "operation add expects 2 arguments but got "@ + decimal(
                    reported as nat,
                ),
                OperationKind::Remove => "operation add expects 1 argument but got "@ + decimal(
                    reported as nat,
                ),
                OperationKind::Print => "operation print expects 0 or 1 arguments but got "@
                    + decimal(reported as nat),
            },
            ConfigError::EnvironmentLookupFailure => "unable to get XDG_CONFIG_HOME"@,
            ConfigError::WorkingDirectoryUnavailable => "errored getting current dir"@,
        }
    }

    /// Renders the message, exactly as `message_view` describes.
    pub fn message(&self) -> (r: String)
        ensures
            r@ == self.message_view(),
    {
        match *self {
            ConfigError::InvalidArguments { kind, reported } => {
                let mut s = match kind {
                    OperationKind::Add => "operation add expects 2 arguments but got ".to_owned(),
                    OperationKind::Remove => "operation add expects 1 argument but got ".to_owned(),
                    OperationKind::Print => "operation print expects 0 or 1 arguments but got "
                        .to_owned(),
                };
                let count = decimal_string(reported);
                s.append(count.as_str());
                s
            },
            ConfigError::EnvironmentLookupFailure => "unable to get XDG_CONFIG_HOME".to_owned(),
            ConfigError::WorkingDirectoryUnavailable => "errored getting current dir".to_owned(),
        }
    }
}

/// The user's intent, derived from the positional arguments.
#[derive(Debug, PartialEq)]
pub enum Operation {
    /// Print one key, or every entry when the key is absent.
    Print(Option<String>),
    /// Store `value` under `key`.
    Add(String, String),
    /// Remove `key`.
    Remove(String),
}

/// The mathematical value of an `Operation`: each token as its character
/// sequence.
pub enum OperationView {
    Print(Option<Seq<char>>),
    Add(Seq<char>, Seq<char>),
    Remove(Seq<char>),
}

impl View for Operation {
    type V = OperationView;

    open spec fn view(&self) -> OperationView {
        match self {
            Operation::Print(key) => OperationView::Print(key.deep_view()),
            Operation::Add(key, value) => OperationView::Add(key@, value@),
            Operation::Remove(key) => OperationView::Remove(key@),
        }
    }
}

/// What classifying an argument sequence yields: keyword dispatch on the
/// first token, then an arity check. The keywords are reserved, so a key
/// literally named `add` or `rm` cannot be printed through this path.
pub open spec fn classify(args: Seq<Seq<char>>) -> Result<OperationView, ConfigError> {
    if args.len() == 0 {
        Ok(OperationView::Print(None))
    } else if args[0] == "add"@ {
        if args.len() == 3 {
            Ok(OperationView::Add(args[1], args[2]))
        } else {
            Err(ConfigError::InvalidArguments {
                kind: OperationKind::Add,
                reported: (args.len() - 1) as usize,
            })
        }
    } else if args[0] == "rm"@ {
        if args.len() == 2 {
            Ok(OperationView::Remove(args[1]))
        } else {
            Err(ConfigError::InvalidArguments {
                kind: OperationKind::Remove,
                reported: (args.len() - 1) as usize,
            })
        }
    } else if args.len() > 1 {
        Err(ConfigError::InvalidArguments {
            kind: OperationKind::Print,
            reported: args.len() as usize,
        })
    } else {
        Ok(OperationView::Print(Some(args[0])))
    }
}

/// The view of a classification result.
pub open spec fn operation_result_view(r: Result<Operation, ConfigError>) -> Result<
    OperationView,
    ConfigError,
> {
    match r {
        Ok(op) => Ok(op@),
        Err(e) => Err(e),
    }
}

impl Operation {
    /// Classifies the positional arguments into an operation, exactly as
    /// `classify` describes.
    pub fn try_from(value: Vec<String>) -> (r: Result<Operation, ConfigError>)
        ensures
            operation_result_view(r) == classify(value.deep_view()),
    {
        if value.len() == 0 {
            return Ok(Operation::Print(None));
        }
        let add: String = "add".to_owned();
        if value[0] == add {
            if value.len() != 3 {
                return Err(ConfigError::InvalidArguments {
                    kind: OperationKind::Add,
                    reported: value.len() - 1,
                });
            }
            return Ok(Operation::Add(value[1].clone(), value[2].clone()));
        }
        let rm: String = "rm".to_owned();
        if value[0] == rm {
            if value.len() != 2 {
                return Err(ConfigError::InvalidArguments {
                    kind: OperationKind::Remove,
                    reported: value.len() - 1,
                });
            }
            return Ok(Operation::Remove(value[1].clone()));
        }
        if value.len() > 1 {
            return Err(ConfigError::InvalidArguments {
                kind: OperationKind::Print,
                reported: value.len(),
            });
        }
        Ok(Operation::Print(Some(value[0].clone())))
    }
}

/// One path component joined onto a base path: a separator is inserted
/// unless the base is empty or already ends with one, matching how a Unix
/// path buffer grows when a relative component is pushed.
pub open spec fn join_component(base: Seq<char>, component: Seq<char>) -> Seq<char> {
    if base.len() == 0 || base.last() == '/' {
        base + component
    } else {
        base + seq!['/'] + component
    }
}

/// The configuration file location derived from the base configuration
/// directory: a fixed application subdirectory, then a fixed filename.
pub open spec fn default_config_path(base: Seq<char>) -> Seq<char> {
    join_component(join_component(base, "projector"@), "projector.json"@)
}

/// What configuration path resolution yields: an explicit override is used
/// as given; otherwise the path is derived from `XDG_CONFIG_HOME`, whose
/// absence is a hard failure.
pub open spec fn resolved_config_path(
    explicit: Option<Seq<char>>,
    xdg_config_home: Option<Seq<char>>,
) -> Result<Seq<char>, ConfigError> {
    match explicit {
        Some(path) => Ok(path),
        None => match xdg_config_home {
            Some(base) => Ok(default_config_path(base)),
            None => Err(ConfigError::EnvironmentLookupFailure),
        },
    }
}

/// What working-directory resolution yields: an explicit override is used
/// as given; otherwise the process's current directory, whose absence is a
/// hard failure.
pub open spec fn resolved_pwd(
    explicit: Option<Seq<char>>,
    current_dir: Option<Seq<char>>,
) -> Result<Seq<char>, ConfigError> {
    match explicit {
        Some(path) => Ok(path),
        None => match current_dir {
            Some(dir) => Ok(dir),
            None => Err(ConfigError::WorkingDirectoryUnavailable),
        },
    }
}

/// The view of a path resolution result.
pub open spec fn path_result_view(r: Result<String, ConfigError>) -> Result<
    Seq<char>,
    ConfigError,
> {
    match r {
        Ok(path) => Ok(path@),
        Err(e) => Err(e),
    }
}

/// Appends one component to `base` as `join_component` describes.
fn push_component(base: String, component: &str) -> (r: String)
    ensures
        r@ == join_component(base@, component@),
{
    let n = base.as_str().unicode_len();
    if n == 0 {
        proof {
            assert(base@ + component@ =~= component@);
        }
        component.to_owned()
    } else if base.as_str().get_char(n - 1) == '/' {
        base.concat(component)
    } else {
        let with_separator = base.concat("/");
        proof {
            reveal_strlit("/");
            assert(with_separator@ =~= base@ + seq!['/']);
        }
        with_separator.concat(component)
    }
}

/// Resolves the configuration file path, exactly as `resolved_config_path`
/// describes. No existence check is made.
pub fn get_config(config: Option<String>, xdg_config_home: Option<String>) -> (r: Result<
    String,
    ConfigError,
>)
    ensures
        path_result_view(r) == resolved_config_path(config.deep_view(), xdg_config_home.deep_view()),
{
    match config {
        Some(path) => Ok(path),
        None => match xdg_config_home {
            Some(base) => {
                let loc = push_component(base, "projector");
                let loc = push_component(loc, "projector.json");
                Ok(loc)
            },
            None => Err(ConfigError::EnvironmentLookupFailure),
        },
    }
}

/// Resolves the working directory, exactly as `resolved_pwd` describes.
pub fn get_pwd(pwd: Option<String>, current_dir: Option<String>) -> (r: Result<
    String,
    ConfigError,
>)
    ensures
        path_result_view(r) == resolved_pwd(pwd.deep_view(), current_dir.deep_view()),
{
    match pwd {
        Some(path) => Ok(path),
        None => match current_dir {
            Some(dir) => Ok(dir),
            None => Err(ConfigError::WorkingDirectoryUnavailable),
        },
    }
}

/// The immutable bundle handed to downstream persistence logic: the
/// operation, the working directory, and the configuration file path.
#[derive(Debug)]
pub struct Config {
    pub operation: Operation,
    pub pwd: String,
    pub config: String,
}

/// The mathematical value of a `Config`.
pub struct ConfigView {
    pub operation: OperationView,
    pub pwd: Seq<char>,
    pub config: Seq<char>,
}

impl View for Config {
    type V = ConfigView;

    open spec fn view(&self) -> ConfigView {
        ConfigView { operation: self.operation@, pwd: self.pwd@, config: self.config@ }
    }
}

/// What building a `Config` yields: the arguments are classified first, then
/// the configuration path is resolved, then the working directory, and the
/// first failure wins.
pub open spec fn resolved_config(
    args: Seq<Seq<char>>,
    config_explicit: Option<Seq<char>>,
    pwd_explicit: Option<Seq<char>>,
    xdg_config_home: Option<Seq<char>>,
    current_dir: Option<Seq<char>>,
) -> Result<ConfigView, ConfigError> {
    match classify(args) {
        Err(e) => Err(e),
        Ok(operation) => match resolved_config_path(config_explicit, xdg_config_home) {
            Err(e) => Err(e),
            Ok(config) => match resolved_pwd(pwd_explicit, current_dir) {
                Err(e) => Err(e),
                Ok(pwd) => Ok(ConfigView { operation, pwd, config }),
            },
        },
    }
}

/// The view of a `Config` construction result.
pub open spec fn config_result_view(r: Result<Config, ConfigError>) -> Result<
    ConfigView,
    ConfigError,
> {
    match r {
        Ok(config) => Ok(config@),
        Err(e) => Err(e),
    }
}

impl Config {
    /// Builds the resolved configuration from the caller's inputs and the
    /// environment snapshot, exactly as `resolved_config` describes.
    pub fn try_from(value: Opts, env: ProcessEnv) -> (r: Result<Config, ConfigError>)
        ensures
            config_result_view(r) == resolved_config(
                value.args.deep_view(),
                value.config.deep_view(),
                value.pwd.deep_view(),
                env.xdg_config_home.deep_view(),
                env.current_dir.deep_view(),
            ),
    {
        let operation = match Operation::try_from(value.args) {
            Ok(operation) => operation,
            Err(e) => {
                return Err(e);
            },
        };
        let config = match get_config(value.config, env.xdg_config_home) {
            Ok(config) => config,
            Err(e) => {
                return Err(e);
            },
        };
        let pwd = match get_pwd(value.pwd, env.current_dir) {
            Ok(pwd) => pwd,
            Err(e) => {
                return Err(e);
            },
        };
        Ok(Config { operation, pwd, config })
    }
}

} // verus!
