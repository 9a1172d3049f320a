//! Cutting the document out of the model's reply.
//!
//! The model is expected to wrap its answer in a fenced block: an opening
//! marker of nine characters and a closing marker of three. The markers are
//! removed by position, not by looking at them.

use vstd::prelude::*;
use vstd::string::*;

verus! {

/// Number of characters of the opening fence marker at the start of a reply.
pub const OPENING_FENCE_LEN: usize = 9;

/// Number of characters of the closing fence marker at the end of a reply.
pub const CLOSING_FENCE_LEN: usize = 3;

/// The document inside a reply: the reply without its first nine and its last
/// three characters, and nothing where the reply is too short to hold both
/// markers around a range.
pub open spec fn extracted(reply: Seq<char>) -> Seq<char> {
    if reply.len() < CLOSING_FENCE_LEN || reply.len() - CLOSING_FENCE_LEN <= OPENING_FENCE_LEN {
        Seq::empty()
    } else {
        reply.subrange(OPENING_FENCE_LEN as int, reply.len() - CLOSING_FENCE_LEN)
    }
}

/// Returns the document that `reply` wraps. A reply too short to hold both
/// fence markers gives the empty string.
pub fn extract<'a>(reply: &'a str) -> (document: &'a str)
    ensures
        document@ == extracted(reply@),
        reply@.len() < 3 ==> document@ == Seq::<char>::empty(),
        3 <= reply@.len() <= 9 ==> document@ == Seq::<char>::empty(),
        9 < reply@.len() < 12 ==> document@ == Seq::<char>::empty(),
        12 <= reply@.len() ==> document@ == reply@.subrange(9, reply@.len() - 3),
{
    let n: usize = reply.unicode_len();
    match n.checked_sub(CLOSING_FENCE_LEN) {
        Some(end) => {
            if end <= OPENING_FENCE_LEN {
                proof {
                    reveal_strlit("");
                }
                assert(""@ =~= Seq::<char>::empty());
                ""
            } else {
                reply.substring_char(OPENING_FENCE_LEN, end)
            }
        },
        None => {
            proof {
                reveal_strlit("");
            }
            assert(""@ =~= Seq::<char>::empty());
            ""
        },
    }
}

} // verus!
