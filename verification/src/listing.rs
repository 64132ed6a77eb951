//! Decoding of the rule-listing reply.
//!
//! The component writes the active rules as text into the scratch buffer.
//! The client takes the prefix up to the first null byte — or the whole
//! buffer when none is found — and decodes it as text.  Truncation by the
//! component is silent, and an empty listing is an empty string, never an
//! error.

use vstd::prelude::*;

verus! {

/// Index of the first null byte of `b`, or its length when there is
/// none.
pub open spec fn first_null(b: Seq<u8>) -> int
    decreases b.len(),
{
    if b.len() == 0 {
        0
    } else if b[0] == 0 {
        0
    } else {
        1 + first_null(b.drop_first())
    }
}

/// `first_null` is the index its name promises: no null byte lies before
/// it, and it is either the length or the place of a null byte.
proof fn lemma_first_null_characterizes(b: Seq<u8>, i: int)
    requires
        0 <= i <= b.len(),
        forall|j: int| 0 <= j < i ==> b[j] != 0,
        i == b.len() || b[i] == 0,
    ensures
        first_null(b) == i,
    decreases b.len(),
{
    if b.len() != 0 && b[0] != 0 {
        lemma_first_null_characterizes(b.drop_first(), i - 1);
    }
}

/// What `String::from_utf8_lossy` makes of a byte sequence.
pub uninterp spec fn lossy_utf8(b: Seq<u8>) -> Seq<char>;

/// Relies on String::from_utf8_lossy: the decoding depends on the bytes
/// alone; valid UTF-8 passes through without replacement, so no bytes
/// decode to no characters, and ASCII bytes decode to exactly those
/// characters.
#[verifier::external_body]
fn utf8_lossy(b: &[u8]) -> (r: String)
    ensures
        r@ == lossy_utf8(b@),
        b@.len() == 0 ==> r@.len() == 0,
        (forall|i: int| 0 <= i < b@.len() ==> b@[i] < 0x80) ==> r@ == b@.map_values(
            |x: u8| x as char,
        ),
{
    String::from_utf8_lossy(b).into_owned()
}

/// Decodes a rule-listing reply: the text before the first null byte, or
/// the whole buffer when no null byte is found.  An empty listing decodes
/// to the empty string; it is not an error.
pub fn decode_rule_listing(buf: &[u8]) -> (s: String)
    ensures
        s@ == lossy_utf8(buf@.take(first_null(buf@))),
        first_null(buf@) == 0 ==> s@.len() == 0,
        (forall|i: int| 0 <= i < first_null(buf@) ==> buf@[i] < 0x80) ==> s@ == buf@.take(
            first_null(buf@),
        ).map_values(|x: u8| x as char),
{
    let mut i: usize = 0;
    while i < buf.len() && buf[i] != 0
        invariant
            0 <= i <= buf@.len(),
            forall|j: int| 0 <= j < i ==> buf@[j] != 0,
        decreases buf@.len() - i,
    {
        i += 1;
    }
    proof {
        lemma_first_null_characterizes(buf@, i as int);
    }
    let prefix = vstd::slice::slice_subrange(buf, 0, i);
    assert(prefix@ =~= buf@.take(first_null(buf@)));
    utf8_lossy(prefix)
}

} // verus!
