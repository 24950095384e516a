use vstd::prelude::*;

use crate::config::classify;
use crate::config::resolved_config_path;
use crate::config::resolved_pwd;
use crate::config::ConfigError;
use crate::config::OperationKind;
use crate::config::OperationView;
use crate::numeral::decimal;

verus! {

/// An empty argument sequence always classifies as printing every entry.
pub proof fn lemma_empty_args_print_all(args: Seq<Seq<char>>)
    requires
        args.len() == 0,
    ensures
        classify(args) == Ok::<OperationView, ConfigError>(OperationView::Print(None)),
{
}

/// A single token other than the two keywords always classifies as printing
/// that key.
pub proof fn lemma_single_token_prints_key(args: Seq<Seq<char>>)
    requires
        args.len() == 1,
        args[0] != "add"@,
        args[0] != "rm"@,
    ensures
        classify(args) == Ok::<OperationView, ConfigError>(OperationView::Print(Some(args[0]))),
{
}

/// A leading `add` keyword with exactly two further tokens yields `Add` of
/// those tokens in order; any other arity fails, and the message reports two
/// expected arguments against the count of tokens after the keyword.
pub proof fn lemma_add_classification(args: Seq<Seq<char>>)
    requires
        args.len() >= 1,
        args[0] == "add"@,
    ensures
        args.len() == 3 ==> classify(args) == Ok::<OperationView, ConfigError>(
            OperationView::Add(args[1], args[2]),
        ),
        args.len() != 3 ==> {
            let reported = (args.len() - 1) as usize;
            classify(args) == Err::<OperationView, ConfigError>(
                ConfigError::InvalidArguments { kind: OperationKind::Add, reported },
            ) && (ConfigError::InvalidArguments {
                kind: OperationKind::Add,
                reported,
            }).message_view() == "operation add expects 2 arguments but got "@ + decimal(
                reported as nat,
            )
        },
{
}

/// A leading `rm` keyword with exactly one further token yields `Remove` of
/// that token; any other arity fails, and the message reports one expected
/// argument against the count of tokens after the keyword.
pub proof fn lemma_remove_classification(args: Seq<Seq<char>>)
    requires
        args.len() >= 1,
        args[0] == "rm"@,
    ensures
        args.len() == 2 ==> classify(args) == Ok::<OperationView, ConfigError>(
            OperationView::Remove(args[1]),
        ),
        args.len() != 2 ==> {
            let reported = (args.len() - 1) as usize;
            classify(args) == Err::<OperationView, ConfigError>(
                ConfigError::InvalidArguments { kind: OperationKind::Remove, reported },
            ) && (ConfigError::InvalidArguments {
                kind: OperationKind::Remove,
                reported,
            }).message_view() == "operation add expects 1 argument but got "@ + decimal(
                reported as nat,
            )
        },
{
    reveal_strlit("add");
    reveal_strlit("rm");
    assert(args[0] != "add"@) by {
        assert("add"@.len() == 3);
        assert("rm"@.len() == 2);
    }
}

/// Two or more tokens whose first is neither keyword are always rejected,
/// with the full token count reported.
pub proof fn lemma_unrecognized_tokens_rejected(args: Seq<Seq<char>>)
    requires
        args.len() >= 2,
        args[0] != "add"@,
        args[0] != "rm"@,
    ensures
        classify(args) == Err::<OperationView, ConfigError>(
            ConfigError::InvalidArguments {
                kind: OperationKind::Print,
                reported: args.len() as usize,
            },
        ),
{
}

/// Path resolution is idempotent and deterministic: an explicit override is
/// returned as given whatever the environment holds, so supplying the same
/// override again yields the same path; and with no override the result is a
/// function of the environment value alone.
pub proof fn lemma_path_resolution_idempotent(
    path: Seq<char>,
    env_a: Option<Seq<char>>,
    env_b: Option<Seq<char>>,
)
    ensures
        resolved_config_path(Some(path), env_a) == Ok::<Seq<char>, ConfigError>(path),
        resolved_config_path(Some(path), env_a) == resolved_config_path(Some(path), env_b),
        resolved_pwd(Some(path), env_a) == Ok::<Seq<char>, ConfigError>(path),
        resolved_pwd(Some(path), env_a) == resolved_pwd(Some(path), env_b),
{
}

} // verus!
