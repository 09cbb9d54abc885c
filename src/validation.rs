//! The grammar of transport addresses: a known scheme, `://`, then a path
//! that the transport reads.

use crate::text::text_starts_with;
use vstd::prelude::*;

verus! {

/// Whether `s` begins with the characters of `prefix`.
pub open spec fn has_prefix(s: Seq<char>, prefix: Seq<char>) -> bool {
    prefix.len() <= s.len() && s.subrange(0, prefix.len() as int) == prefix
}

/// An address names a scheme this client knows (`tcp` or `ipc`) followed by
/// `://`; what follows is left to the transport.
pub open spec fn valid_address(s: Seq<char>) -> bool {
    has_prefix(s, "tcp://"@) || has_prefix(s, "ipc://"@)
}

/// Whether `input` is an address this client accepts.
pub fn is_valid_address(input: &str) -> (r: bool)
    ensures
        r == valid_address(input@),
{
    text_starts_with(input, "tcp://") || text_starts_with(input, "ipc://")
}

/// Accepts an address of a known scheme; any other text is refused with a
/// message for the operator.
pub fn validate_socket(input: String) -> (r: Result<(), String>)
    ensures
        r is Ok <==> valid_address(input@),
        r matches Err(m) ==> m@ == "Incorrect address"@,
{
    if is_valid_address(input.as_str()) {
        Ok(())
    } else {
        Err(String::from_str("Incorrect address"))
    }
}

} // verus!
