//! Standard base64 (RFC 4648 alphabet, with '=' padding), the text form in
//! which icons are handed to the front end.

use vstd::prelude::*;
use base64::Engine;

verus! {

/// The base64 character for a six-bit value.
pub open spec fn base64_symbol(v: int) -> char {
    if v < 26 {
        ('A' as int + v) as char
    } else if v < 52 {
        ('a' as int + (v - 26)) as char
    } else if v < 62 {
        ('0' as int + (v - 52)) as char
    } else if v == 62 {
        '+'
    } else {
        '/'
    }
}

/// The standard padded base64 encoding of `bytes`: every three bytes become
/// four characters, and a final group of one or two bytes is padded with '='.
pub open spec fn base64_standard(bytes: Seq<u8>) -> Seq<char>
    decreases bytes.len(),
{
    if bytes.len() == 0 {
        seq![]
    } else {
        let b0 = bytes[0] as int;
        let b1 = if bytes.len() > 1 { bytes[1] as int } else { 0 };
        let b2 = if bytes.len() > 2 { bytes[2] as int } else { 0 };
        let c0 = base64_symbol(b0 / 4);
        let c1 = base64_symbol((b0 % 4) * 16 + b1 / 16);
        let c2 = base64_symbol((b1 % 16) * 4 + b2 / 64);
        let c3 = base64_symbol(b2 % 64);
        if bytes.len() == 1 {
            seq![c0, c1, '=', '=']
        } else if bytes.len() == 2 {
            seq![c0, c1, c2, '=']
        } else {
            seq![c0, c1, c2, c3] + base64_standard(bytes.skip(3))
        }
    }
}

/// The number of characters in the base64 text of `n` bytes.
pub open spec fn base64_length(n: nat) -> nat {
    (n / 3) * 4 + if n % 3 == 0 {
        0nat
    } else {
        4nat
    }
}

/// Encodes `bytes` with the base64 crate's `general_purpose::STANDARD` engine.
/// The crate panics when the length of the text does not fit in `usize`,
/// which the precondition excludes.
/// Claimed: the text is the standard padded base64 encoding of `bytes`.
#[verifier::external_body]
pub(crate) fn encode_standard(bytes: &[u8]) -> (text: String)
    requires
        base64_length(bytes@.len()) <= usize::MAX,
    ensures
        text@ == base64_standard(bytes@),
{
    base64::engine::general_purpose::STANDARD.encode(bytes)
}

/// Every input of at most `isize::MAX` bytes (as every Rust buffer is) has a
/// base64 text whose length fits in `usize`.
pub proof fn lemma_base64_length_fits(n: nat)
    requires
        n <= isize::MAX,
    ensures
        base64_length(n) <= usize::MAX,
{
    assert((n / 3) * 3 <= n) by (nonlinear_arith);
}

/// The first eight characters of the base64 text of at least six bytes are
/// the base64 text of those six bytes, and at least eight bytes give at least
/// twelve characters.
pub proof fn lemma_base64_prefix(bytes: Seq<u8>)
    requires
        bytes.len() >= 6,
    ensures
        base64_standard(bytes).take(8) == base64_standard(bytes.take(6)),
        bytes.len() >= 8 ==> base64_standard(bytes).len() >= 12,
{
    let head = bytes.take(6);
    let rest = bytes.skip(3);
    let tail = head.skip(3);
    assert(tail.len() == 3);
    assert(tail[0] == rest[0] && tail[1] == rest[1] && tail[2] == rest[2]);
    assert(head[0] == bytes[0] && head[1] == bytes[1] && head[2] == bytes[2]);
    assert(tail.skip(3) =~= Seq::<u8>::empty());
    assert(base64_standard(tail.skip(3)) =~= Seq::<char>::empty());
    let a = base64_standard(rest);
    let ta = base64_standard(tail);
    assert(ta.len() == 4);
    assert(a.take(4) =~= ta);
    assert(base64_standard(bytes) =~= base64_standard(head).take(4) + a);
    assert(base64_standard(head) =~= base64_standard(head).take(4) + ta);
    lemma_base64_shape(bytes);
    if bytes.len() >= 8 {
        assert(base64_length(bytes.len()) >= 12) by {
            assert(bytes.len() / 3 >= 2);
        }
    }
    assert(base64_standard(bytes).take(8) =~= base64_standard(head));
}

/// The base64 text of `bytes` has `base64_length` characters, each one from
/// the base64 alphabet or the '=' padding.
pub proof fn lemma_base64_shape(bytes: Seq<u8>)
    ensures
        base64_standard(bytes).len() == base64_length(bytes.len()),
        forall|i: int| 0 <= i < base64_standard(bytes).len() ==> {
            let c = #[trigger] base64_standard(bytes)[i];
            ||| 'A' <= c <= 'Z'
            ||| 'a' <= c <= 'z'
            ||| '0' <= c <= '9'
            ||| c == '+'
            ||| c == '/'
            ||| c == '='
        },
    decreases bytes.len(),
{
    if bytes.len() >= 3 {
        let rest = bytes.skip(3);
        lemma_base64_shape(rest);
        assert(bytes.len() / 3 == rest.len() / 3 + 1);
        assert(bytes.len() % 3 == rest.len() % 3);
    }
    assert forall|i: int| 0 <= i < base64_standard(bytes).len() implies {
        let c = #[trigger] base64_standard(bytes)[i];
        ||| 'A' <= c <= 'Z'
        ||| 'a' <= c <= 'z'
        ||| '0' <= c <= '9'
        ||| c == '+'
        ||| c == '/'
        ||| c == '='
    } by {
        if bytes.len() >= 3 && i >= 4 {
            let rest = bytes.skip(3);
            assert(base64_standard(bytes)[i] == base64_standard(rest)[i - 4]);
        }
    }
}

/// Distinct six-bit values have distinct base64 characters, none of them '='.
proof fn lemma_symbol_injective(v: int, w: int)
    requires
        0 <= v < 64,
        0 <= w < 64,
    ensures
        base64_symbol(v) == base64_symbol(w) ==> v == w,
        base64_symbol(v) != '=',
{
}

/// Three bytes are determined by the four six-bit values they are encoded as.
proof fn lemma_group_determined(a0: u8, a1: u8, a2: u8, b0: u8, b1: u8, b2: u8)
    by (bit_vector)
    requires
        a0 / 4 == b0 / 4,
        (a0 % 4) * 16 + a1 / 16 == (b0 % 4) * 16 + b1 / 16,
        (a1 % 16) * 4 + a2 / 64 == (b1 % 16) * 4 + b2 / 64,
        a2 % 64 == b2 % 64,
    ensures
        a0 == b0,
        a1 == b1,
        a2 == b2,
{
}

/// Base64 text can be decoded: different byte strings have different texts.
pub proof fn lemma_base64_injective(a: Seq<u8>, b: Seq<u8>)
    requires
        base64_standard(a) == base64_standard(b),
    ensures
        a == b,
    decreases a.len(),
{
    lemma_base64_shape(a);
    lemma_base64_shape(b);
    let t = base64_standard(a);
    if a.len() == 0 || b.len() == 0 {
        assert(a.len() == 0 && b.len() == 0);
        assert(a =~= b);
    } else {
        let a0 = a[0];
        let a1: u8 = if a.len() > 1 { a[1] } else { 0 };
        let a2: u8 = if a.len() > 2 { a[2] } else { 0 };
        let b0 = b[0];
        let b1: u8 = if b.len() > 1 { b[1] } else { 0 };
        let b2: u8 = if b.len() > 2 { b[2] } else { 0 };
        let va0 = a0 as int / 4;
        let va1 = (a0 as int % 4) * 16 + a1 as int / 16;
        let va2 = (a1 as int % 16) * 4 + a2 as int / 64;
        let va3 = a2 as int % 64;
        let vb0 = b0 as int / 4;
        let vb1 = (b0 as int % 4) * 16 + b1 as int / 16;
        let vb2 = (b1 as int % 16) * 4 + b2 as int / 64;
        let vb3 = b2 as int % 64;
        lemma_symbol_injective(va0, vb0);
        lemma_symbol_injective(va1, vb1);
        lemma_symbol_injective(va2, vb2);
        lemma_symbol_injective(va3, vb3);
        lemma_symbol_injective(vb2, va2);
        lemma_symbol_injective(vb3, va3);
        assert(t[0] == base64_symbol(va0) && t[0] == base64_symbol(vb0));
        assert(t[1] == base64_symbol(va1) && t[1] == base64_symbol(vb1));
        // Padding tells how many bytes the first group holds.
        assert((a.len() == 1) == (t[2] == '='));
        assert((b.len() == 1) == (t[2] == '='));
        assert((a.len() <= 2) == (t[3] == '='));
        assert((b.len() <= 2) == (t[3] == '='));
        if a.len() >= 2 {
            assert(t[2] == base64_symbol(va2) && t[2] == base64_symbol(vb2));
        } else {
            assert(a2 == 0 && b2 == 0 && a1 == 0 && b1 == 0);
        }
        if a.len() >= 3 {
            assert(t[3] == base64_symbol(va3) && t[3] == base64_symbol(vb3));
        } else {
            assert(a2 == 0 && b2 == 0);
        }
        lemma_group_determined(a0, a1, a2, b0, b1, b2);
        if a.len() >= 3 {
            assert(base64_standard(a.skip(3)) =~= t.skip(4));
            assert(base64_standard(b.skip(3)) =~= t.skip(4));
            lemma_base64_injective(a.skip(3), b.skip(3));
            assert(a =~= b.take(3) + b.skip(3)) by {
                assert(a =~= a.take(3) + a.skip(3));
            }
            assert(b =~= b.take(3) + b.skip(3));
        }
        assert(a =~= b);
    }
}

} // verus!
