//! The `<socket address>,<id>` form in which a server is told of a remote node.

use vstd::prelude::*;
use vstd::std_specs::convert::FromSpecImpl;
use vstd::string::StrSliceExecFns;
use vstd::string::StringExecFns;
use crate::state_machine::impls::key_value_store::parse::FromToken;

verus! {

/// The given text is not of the form `<socket address>,<id>`.
#[derive(Debug, Clone, Copy, PartialEq, Eq)]
pub struct ParseError;

impl From<std::io::Error> for ParseError {
    fn from(_error: std::io::Error) -> (e: Self) {
        ParseError
    }
}

impl FromSpecImpl<std::io::Error> for ParseError {
    open spec fn obeys_from_spec() -> bool {
        true
    }

    open spec fn from_spec(error: std::io::Error) -> ParseError {
        ParseError
    }
}

/// The first index at or after `from` at which `s` holds `c`, if any.
pub open spec fn index_of_from(s: Seq<char>, c: char, from: int) -> Option<int>
    decreases s.len() - from,
{
    if from >= s.len() || from < 0 {
        None
    } else if s[from] == c {
        Some(from)
    } else {
        index_of_from(s, c, from + 1)
    }
}

/// The index of the first comma of `s`, if any.
pub open spec fn first_comma(s: Seq<char>) -> Option<int> {
    index_of_from(s, ',', 0)
}

proof fn lemma_index_of_from_bounds(s: Seq<char>, c: char, from: int)
    requires
        0 <= from,
    ensures
        index_of_from(s, c, from) matches Some(i) ==> from <= i < s.len() && s[i] == c,
    decreases s.len() - from,
{
    if from < s.len() && s[from] != c {
        lemma_index_of_from_bounds(s, c, from + 1);
    }
}

/// Splits `<socket address>,<id>` at its first comma: the id is the decimal
/// number after it, the socket address the text before it (read by the
/// caller). Fails when there is no comma. The text after the first comma must
/// be a number that fits in a `usize`.
pub fn parse_socket_and_id(s: &str) -> (result: Result<(usize, String), ParseError>)
    requires
        first_comma(s@) matches Some(i) ==> !usize::token_rejected(s@.skip(i + 1)),
    ensures
        match result {
            Ok((id, socket_addr)) => first_comma(s@) matches Some(i) && usize::token_parses_as(
                s@.skip(i + 1),
                id,
            ) && socket_addr@ == s@.take(i),
            Err(_) => first_comma(s@) is None,
        },
{
    let n = s.unicode_len();
    let mut i: usize = 0;
    while i < n
        invariant
            n == s@.len(),
            i <= n,
            first_comma(s@) == index_of_from(s@, ',', i as int),
            first_comma(s@) matches Some(k) ==> !usize::token_rejected(s@.skip(k + 1)),
        decreases n - i,
    {
        if s.get_char(i) == ',' {
            proof {
                lemma_index_of_from_bounds(s@, ',', 0);
            }
            let socket_addr = s.substring_char(0, i);
            let id_text = s.substring_char(i + 1, n);
            assert(id_text@ =~= s@.skip(i + 1));
            assert(socket_addr@ =~= s@.take(i as int));
            return match usize::from_token(id_text) {
                Ok(id) => Ok((id, String::from_str(socket_addr))),
                Err(_) => Err(ParseError),
            };
        }
        i = i + 1;
    }
    Err(ParseError)
}

} // verus!
