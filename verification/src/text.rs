//! Comparing texts and byte strings.

use vstd::prelude::*;
use vstd::string::StringSliceAdditionalSpecFns;
use vstd::utf8::{encode_utf8, encode_utf8_decode_utf8};

verus! {

/// Two texts with the same UTF-8 bytes are the same text.
pub proof fn lemma_text_of_bytes_is_unique(a: Seq<char>, b: Seq<char>)
    requires
        encode_utf8(a) == encode_utf8(b),
    ensures
        a == b,
{
    encode_utf8_decode_utf8(a);
    encode_utf8_decode_utf8(b);
}

/// Whether two byte strings hold the same bytes.
pub fn same_bytes(a: &[u8], b: &[u8]) -> (same: bool)
    ensures
        same == (a@ == b@),
{
    if a.len() != b.len() {
        return false;
    }
    let mut at: usize = 0;
    while at < a.len()
        invariant
            a@.len() == b@.len(),
            at <= a@.len(),
            a@.subrange(0, at as int) == b@.subrange(0, at as int),
        decreases a@.len() - at,
    {
        if a[at] != b[at] {
            return false;
        }
        proof {
            assert(a@.subrange(0, at + 1) =~= a@.subrange(0, at as int).push(a@[at as int]));
            assert(b@.subrange(0, at + 1) =~= b@.subrange(0, at as int).push(b@[at as int]));
        }
        at += 1;
    }
    proof {
        assert(a@ =~= a@.subrange(0, at as int));
        assert(b@ =~= b@.subrange(0, at as int));
    }
    true
}

/// Whether two texts hold the same characters.
pub fn same_text(a: &str, b: &str) -> (same: bool)
    ensures
        same == (a@ == b@),
{
    let same = same_bytes(a.as_bytes(), b.as_bytes());
    proof {
        if same {
            lemma_text_of_bytes_is_unique(a@, b@);
        }
    }
    same
}

} // verus!
