//! Shell-style word splitting through the `shlex` crate.
use vstd::prelude::*;

verus! {

/// What `shlex::split` returns for a text: `None` when the quoting is
/// unbalanced, else the words as POSIX shell quoting rules split them.
pub uninterp spec fn shlex_split_result(s: Seq<char>) -> Option<Seq<Seq<char>>>;

/// Calls `shlex::split`. The contract claims only that the result is the
/// named `shlex_split_result` of the input text; the splitting rules
/// themselves are the crate's and are not restated here.
#[verifier::external_body]
pub(crate) fn shlex_split(s: &str) -> (r: Option<Vec<String>>)
    ensures
        match r {
            Some(v) => shlex_split_result(s@) == Some(v@.map_values(|x: String| x@)),
            None => shlex_split_result(s@) is None,
        },
{
    shlex::split(s)
}

} // verus!
