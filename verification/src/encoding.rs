//! The default backend's encoding of submodule names.
//!
//! An arbitrary name (it may contain `/`, `\`, null bytes, anything) must
//! become a string that is safe as a single path component on every
//! supported filesystem. The encoding maps each UTF-8 byte of the name to
//! exactly two characters from `[0-9a-f]`. It is total and injective, so
//! distinct names can never collide, at the accepted cost of human
//! readability.

use vstd::prelude::*;
use vstd::string::StringExecFns;
use vstd::utf8::decode_utf8;
use vstd::utf8::encode_utf8;
use vstd::utf8::encode_utf8_decode_utf8;

verus! {

/// The lower-case hexadecimal digit for a value below 16.
pub open spec fn spec_hex_digit(v: u8) -> char {
    if v == 0 {
        '0'
    } else if v == 1 {
        '1'
    } else if v == 2 {
        '2'
    } else if v == 3 {
        '3'
    } else if v == 4 {
        '4'
    } else if v == 5 {
        '5'
    } else if v == 6 {
        '6'
    } else if v == 7 {
        '7'
    } else if v == 8 {
        '8'
    } else if v == 9 {
        '9'
    } else if v == 10 {
        'a'
    } else if v == 11 {
        'b'
    } else if v == 12 {
        'c'
    } else if v == 13 {
        'd'
    } else if v == 14 {
        'e'
    } else {
        'f'
    }
}

/// The two hexadecimal digits of one byte, high digit first.
pub open spec fn spec_hex_byte(b: u8) -> Seq<char> {
    seq![spec_hex_digit((b / 16) as u8), spec_hex_digit((b % 16) as u8)]
}

/// The hexadecimal encoding of a byte string: two digits per byte, in order.
pub open spec fn spec_hex_encode(bytes: Seq<u8>) -> Seq<char>
    decreases bytes.len(),
{
    if bytes.len() == 0 {
        Seq::<char>::empty()
    } else {
        spec_hex_encode(bytes.drop_last()) + spec_hex_byte(bytes.last())
    }
}

fn hex_digit(v: u8) -> (r: &'static str)
    requires
        v < 16,
    ensures
        r@ == seq![spec_hex_digit(v)],
{
    let r: &'static str = if v == 0 {
        "0"
    } else if v == 1 {
        "1"
    } else if v == 2 {
        "2"
    } else if v == 3 {
        "3"
    } else if v == 4 {
        "4"
    } else if v == 5 {
        "5"
    } else if v == 6 {
        "6"
    } else if v == 7 {
        "7"
    } else if v == 8 {
        "8"
    } else if v == 9 {
        "9"
    } else if v == 10 {
        "a"
    } else if v == 11 {
        "b"
    } else if v == 12 {
        "c"
    } else if v == 13 {
        "d"
    } else if v == 14 {
        "e"
    } else {
        "f"
    };
    proof {
        reveal_strlit("0");
        reveal_strlit("1");
        reveal_strlit("2");
        reveal_strlit("3");
        reveal_strlit("4");
        reveal_strlit("5");
        reveal_strlit("6");
        reveal_strlit("7");
        reveal_strlit("8");
        reveal_strlit("9");
        reveal_strlit("a");
        reveal_strlit("b");
        reveal_strlit("c");
        reveal_strlit("d");
        reveal_strlit("e");
        reveal_strlit("f");
        assert(r@ =~= seq![spec_hex_digit(v)]);
    }
    r
}

/// Encodes a byte string as lower-case hexadecimal, two digits per byte.
pub fn hex_encode(bytes: &[u8]) -> (r: String)
    ensures
        r@ == spec_hex_encode(bytes@),
{
    let mut r = String::new();
    let mut i: usize = 0;
    while i < bytes.len()
        invariant
            i <= bytes@.len(),
            r@ == spec_hex_encode(bytes@.take(i as int)),
        decreases bytes@.len() - i,
    {
        let b = bytes[i];
        r.append(hex_digit(b / 16));
        r.append(hex_digit(b % 16));
        proof {
            let taken = bytes@.take(i + 1);
            assert(taken.drop_last() =~= bytes@.take(i as int));
            assert(taken.last() == bytes@[i as int]);
            assert(r@ =~= spec_hex_encode(bytes@.take(i + 1)));
        }
        i += 1;
    }
    proof {
        assert(bytes@.take(bytes@.len() as int) =~= bytes@);
    }
    r
}

/// The encoding of a byte string is exactly two digits per byte.
pub proof fn lemma_hex_encode_len(bytes: Seq<u8>)
    ensures
        spec_hex_encode(bytes).len() == 2 * bytes.len(),
    decreases bytes.len(),
{
    if bytes.len() > 0 {
        lemma_hex_encode_len(bytes.drop_last());
    }
}

proof fn lemma_hex_digit_injective(v1: u8, v2: u8)
    requires
        v1 < 16,
        v2 < 16,
        v1 != v2,
    ensures
        spec_hex_digit(v1) != spec_hex_digit(v2),
{
}

proof fn lemma_hex_encode_unambiguous(b1: Seq<u8>, b2: Seq<u8>)
    requires
        spec_hex_encode(b1) == spec_hex_encode(b2),
    ensures
        b1 == b2,
    decreases b1.len(),
{
    lemma_hex_encode_len(b1);
    lemma_hex_encode_len(b2);
    if b1.len() == 0 {
        assert(b1 =~= b2);
    } else {
        let e1 = spec_hex_encode(b1.drop_last());
        let e2 = spec_hex_encode(b2.drop_last());
        lemma_hex_encode_len(b1.drop_last());
        lemma_hex_encode_len(b2.drop_last());
        let l1 = b1.last();
        let l2 = b2.last();
        assert(spec_hex_encode(b1)[2 * b1.len() - 2] == spec_hex_digit((l1 / 16) as u8));
        assert(spec_hex_encode(b1)[2 * b1.len() - 1] == spec_hex_digit((l1 % 16) as u8));
        assert(spec_hex_encode(b2)[2 * b2.len() - 2] == spec_hex_digit((l2 / 16) as u8));
        assert(spec_hex_encode(b2)[2 * b2.len() - 1] == spec_hex_digit((l2 % 16) as u8));
        if l1 / 16 != l2 / 16 {
            lemma_hex_digit_injective((l1 / 16) as u8, (l2 / 16) as u8);
            assert(false);
        }
        if l1 % 16 != l2 % 16 {
            lemma_hex_digit_injective((l1 % 16) as u8, (l2 % 16) as u8);
            assert(false);
        }
        assert(l1 == l2);
        assert(e1 =~= e2) by {
            assert forall|i: int| 0 <= i < e1.len() implies e1[i] == e2[i] by {
                assert(spec_hex_encode(b1)[i] == e1[i]);
                assert(spec_hex_encode(b2)[i] == e2[i]);
            }
        }
        lemma_hex_encode_unambiguous(b1.drop_last(), b2.drop_last());
        assert forall|i: int| 0 <= i < b1.len() implies b1[i] == b2[i] by {
            if i < b1.len() - 1 {
                assert(b1.drop_last()[i] == b1[i]);
                assert(b2.drop_last()[i] == b2[i]);
            } else {
                assert(b1[i] == l1);
                assert(b2[i] == l2);
            }
        }
        assert(b1 =~= b2);
    }
}

/// Distinct byte strings have distinct hexadecimal encodings: the encoding
/// is injective, so no two submodule names can collide under it.
pub proof fn lemma_hex_encode_injective(b1: Seq<u8>, b2: Seq<u8>)
    requires
        b1 != b2,
    ensures
        spec_hex_encode(b1) != spec_hex_encode(b2),
{
    if spec_hex_encode(b1) == spec_hex_encode(b2) {
        lemma_hex_encode_unambiguous(b1, b2);
    }
}

/// Distinct names have distinct encodings, down to the characters of the
/// name: hexadecimal encoding is injective on byte strings, and UTF-8
/// encoding is injective on character strings.
pub proof fn lemma_name_encoding_injective(s1: Seq<char>, s2: Seq<char>)
    requires
        s1 != s2,
    ensures
        spec_hex_encode(encode_utf8(s1)) != spec_hex_encode(encode_utf8(s2)),
{
    if encode_utf8(s1) == encode_utf8(s2) {
        encode_utf8_decode_utf8(s1);
        encode_utf8_decode_utf8(s2);
        assert(decode_utf8(encode_utf8(s1)) == s1);
        assert(decode_utf8(encode_utf8(s2)) == s2);
    } else {
        lemma_hex_encode_injective(encode_utf8(s1), encode_utf8(s2));
    }
}

} // verus!
