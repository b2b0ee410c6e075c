//! Small verified helpers on strings: character-wise equality and the
//! message built for an unrecognized request path.

use vstd::prelude::*;
use vstd::string::{StrSliceExecFns, StringExecFns};

verus! {

/// Character-wise equality of two string slices.
pub fn str_eq(a: &str, b: &str) -> (r: bool)
    ensures
        r == (a@ == b@),
{
    let la = a.unicode_len();
    let lb = b.unicode_len();
    if la != lb {
        return false;
    }
    let mut i: usize = 0;
    while i < la
        invariant
            i <= la,
            la == a@.len(),
            lb == b@.len(),
            la == lb,
            forall|x: int| 0 <= x < i ==> a@[x] == b@[x],
        decreases la - i,
    {
        if a.get_char(i) != b.get_char(i) {
            return false;
        }
        i = i + 1;
    }
    proof {
        assert(a@ =~= b@);
    }
    true
}

/// The text of the message carried by a `Malformed` error: it names the
/// method and the offending path token.
pub open spec fn unrecognized_view(method: Seq<char>, token: Seq<char>) -> Seq<char> {
    "Unrecognized "@ + method + " request path `"@ + token + "`."@
}

/// Builds the message for an unrecognized request path.
pub fn unrecognized_message(method: &str, token: &str) -> (r: String)
    ensures
        r@ == unrecognized_view(method@, token@),
{
    let mut m = String::from_str("Unrecognized ");
    m.append(method);
    m.append(" request path `");
    m.append(token);
    m.append("`.");
    m
}

} // verus!
