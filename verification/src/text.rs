//! Comparisons on string slices.
//!
//! The bytes of a string slice are the UTF-8 encoding of its characters. The
//! comparisons here run over the bytes, and the lemmas carry what they find
//! over to the characters.

use vstd::prelude::*;
use vstd::string::StringSliceAdditionalSpecFns;
use vstd::utf8::{
    char_u32_cast, encode_scalar, encode_utf8, encode_utf8_decode_utf8, encode_utf8_first_scalar,
};

verus! {

/// The encoding of two texts in a row is the two encodings in a row.
proof fn lemma_encoding_of_concatenation(first: Seq<char>, second: Seq<char>)
    ensures
        encode_utf8(first + second) == encode_utf8(first) + encode_utf8(second),
    decreases first.len(),
{
    if first.len() == 0 {
        assert(first + second =~= second);
        assert(encode_utf8(first) + encode_utf8(second) =~= encode_utf8(second));
    } else {
        lemma_encoding_of_concatenation(first.drop_first(), second);
        assert((first + second).drop_first() =~= first.drop_first() + second);
        assert((first + second)[0] == first[0]);
        assert(encode_utf8(first + second) =~= encode_utf8(first) + encode_utf8(second));
    }
}

/// A text whose encoding begins the encoding of another text begins that
/// text.
proof fn lemma_prefix_of_encoding(prefix: Seq<char>, text: Seq<char>)
    requires
        encode_utf8(prefix).is_prefix_of(encode_utf8(text)),
    ensures
        prefix.is_prefix_of(text),
    decreases prefix.len(),
{
    if prefix.len() > 0 {
        let p = encode_utf8(prefix);
        let t = encode_utf8(text);
        let head = encode_scalar(prefix[0] as u32);
        encode_utf8_first_scalar(prefix);
        assert(p.len() == head.len() + encode_utf8(prefix.drop_first()).len());
        assert(text.len() > 0);
        encode_utf8_first_scalar(text);
        assert(forall|j: int| 0 <= j < p.len() ==> p[j] == t.subrange(0, p.len() as int)[j]);
        assert(p[0] == t[0]);
        assert(head.len() >= 2 ==> p[1] == t[1]);
        assert(head.len() >= 3 ==> p[2] == t[2]);
        assert(head.len() >= 4 ==> p[3] == t[3]);
        assert(prefix[0] as u32 == text[0] as u32);
        char_u32_cast(prefix[0], prefix[0] as u32);
        char_u32_cast(text[0], text[0] as u32);
        assert(prefix[0] == text[0]);
        let k = head.len() as int;
        assert(encode_utf8(prefix.drop_first()) =~= p.subrange(k, p.len() as int));
        assert(encode_utf8(text.drop_first()) =~= t.subrange(k, t.len() as int));
        assert(encode_utf8(prefix.drop_first()).is_prefix_of(encode_utf8(text.drop_first()))) by {
            let q = encode_utf8(prefix.drop_first());
            let u = encode_utf8(text.drop_first());
            assert forall|j: int| 0 <= j < q.len() implies q[j] == u[j] by {
                assert(q[j] == p[j + k]);
                assert(u[j] == t[j + k]);
                assert(p[j + k] == t.subrange(0, p.len() as int)[j + k]);
            }
            assert(q =~= u.subrange(0, q.len() as int));
        }
        lemma_prefix_of_encoding(prefix.drop_first(), text.drop_first());
        assert(prefix =~= text.subrange(0, prefix.len() as int)) by {
            let rest = prefix.drop_first();
            assert forall|j: int| 0 <= j < prefix.len() implies prefix[j] == text[j] by {
                if j > 0 {
                    assert(prefix[j] == rest[j - 1]);
                    assert(rest[j - 1] == text.drop_first().subrange(0, rest.len() as int)[j - 1]);
                }
            }
        }
    }
}

/// A text begins another exactly when its encoding begins the other's.
proof fn lemma_prefix_is_prefix_of_encoding(prefix: Seq<char>, text: Seq<char>)
    ensures
        prefix.is_prefix_of(text) <==> encode_utf8(prefix).is_prefix_of(encode_utf8(text)),
{
    if prefix.is_prefix_of(text) {
        let rest = text.subrange(prefix.len() as int, text.len() as int);
        assert(text =~= prefix + rest);
        lemma_encoding_of_concatenation(prefix, rest);
        assert(encode_utf8(prefix) =~= (encode_utf8(prefix) + encode_utf8(rest)).subrange(
            0,
            encode_utf8(prefix).len() as int,
        ));
    }
    if encode_utf8(prefix).is_prefix_of(encode_utf8(text)) {
        lemma_prefix_of_encoding(prefix, text);
    }
}

/// Whether two string slices hold the same text.
pub(crate) fn same_text(a: &str, b: &str) -> (r: bool)
    ensures
        r == (a@ == b@),
{
    let x = a.as_bytes();
    let y = b.as_bytes();
    proof {
        encode_utf8_decode_utf8(a@);
        encode_utf8_decode_utf8(b@);
    }
    if x.len() != y.len() {
        return false;
    }
    let mut i: usize = 0;
    while i < x.len()
        invariant
            i <= x.len(),
            x.len() == y.len(),
            x@ == a.spec_bytes(),
            y@ == b.spec_bytes(),
            forall|j: int| 0 <= j < i ==> x@[j] == y@[j],
        decreases x.len() - i,
    {
        if x[i] != y[i] {
            return false;
        }
        i += 1;
    }
    assert(x@ =~= y@);
    true
}

/// Whether `text` begins with `prefix`.
pub(crate) fn begins_with(text: &str, prefix: &str) -> (r: bool)
    ensures
        r == prefix@.is_prefix_of(text@),
{
    let t = text.as_bytes();
    let p = prefix.as_bytes();
    proof {
        lemma_prefix_is_prefix_of_encoding(prefix@, text@);
    }
    if p.len() > t.len() {
        return false;
    }
    let mut i: usize = 0;
    while i < p.len()
        invariant
            i <= p.len(),
            p.len() <= t.len(),
            prefix@.is_prefix_of(text@) <==> p@.is_prefix_of(t@),
            forall|j: int| 0 <= j < i ==> p@[j] == t@[j],
        decreases p.len() - i,
    {
        if p[i] != t[i] {
            assert(p@[i as int] != t@.subrange(0, p@.len() as int)[i as int]);
            return false;
        }
        i += 1;
    }
    assert(p@ =~= t@.subrange(0, p@.len() as int));
    true
}

} // verus!
