//! The library-wide guarantees of the resolution pipeline, stated once,
//! over the same model that [`crate::resolve::resolve_request`] is proved
//! against.

use vstd::prelude::*;
use crate::languages::{is_allowed, lemma_allowed_nonempty};
use crate::resolve::{
    contains_help, resolution_model, resolved_input, resolved_output, resolved_text,
    ResolutionModel,
};

verus! {

/// A string that is not an allow-listed code is rejected in either
/// position: whenever the resolved input or output language falls outside
/// the allow-list, resolution never yields a request.
pub proof fn lemma_unlisted_rejected(args: Seq<char>, env_in: Seq<char>, env_out: Seq<char>)
    requires
        !is_allowed(resolved_input(args, env_in)) || !is_allowed(resolved_output(args, env_out)),
    ensures
        !(resolution_model(args, env_in, env_out) is Request),
{
}

/// Every allow-listed code is accepted in both positions: when help is not
/// requested and both resolved codes are on the allow-list, resolution
/// yields a request carrying exactly those codes and the resolved text.
pub proof fn lemma_listed_accepted(args: Seq<char>, env_in: Seq<char>, env_out: Seq<char>)
    requires
        !contains_help(args),
        is_allowed(resolved_input(args, env_in)),
        is_allowed(resolved_output(args, env_out)),
    ensures
        resolution_model(args, env_in, env_out) matches ResolutionModel::Request {
            input,
            output,
            text,
        } && input == resolved_input(args, env_in) && output == resolved_output(args, env_out)
            && text == resolved_text(args),
{
    lemma_allowed_nonempty(resolved_input(args, env_in));
    lemma_allowed_nonempty(resolved_output(args, env_out));
}

/// `--help` anywhere in the arguments renders help before anything else:
/// whatever the environment holds and whatever else the arguments say,
/// resolution is `Help`.
pub proof fn lemma_help_wins(args: Seq<char>, env_in: Seq<char>, env_out: Seq<char>)
    requires
        contains_help(args),
    ensures
        resolution_model(args, env_in, env_out) is Help,
{
}

} // verus!
