//! Standard base64 (RFC 4648 alphabet `A-Z a-z 0-9 + /`, `=` padding), as
//! the base64 crate's `STANDARD` engine writes it, and the fact that a
//! text is the encoding of at most one byte sequence.

use vstd::prelude::*;

verus! {

/// The code point of the alphabet's character for a 6-bit value.
pub open spec fn digit_code(v: int) -> int {
    if v < 26 {
        65 + v
    } else if v < 52 {
        97 + (v - 26)
    } else if v < 62 {
        48 + (v - 52)
    } else if v == 62 {
        43
    } else {
        47
    }
}

/// The alphabet's character for a 6-bit value.
pub open spec fn digit(v: int) -> char {
    digit_code(v) as char
}

/// The four characters that encode one group of one to three bytes;
/// a short group is padded with `=`, its unused low bits zero.
pub open spec fn encode_group(b: Seq<u8>) -> Seq<char> {
    let b0 = b[0] as int;
    if b.len() == 1 {
        seq![digit(b0 / 4), digit((b0 % 4) * 16), '=', '=']
    } else if b.len() == 2 {
        let b1 = b[1] as int;
        seq![digit(b0 / 4), digit((b0 % 4) * 16 + b1 / 16), digit((b1 % 16) * 4), '=']
    } else {
        let b1 = b[1] as int;
        let b2 = b[2] as int;
        seq![digit(b0 / 4), digit((b0 % 4) * 16 + b1 / 16), digit((b1 % 16) * 4 + b2 / 64), digit(b2 % 64)]
    }
}

/// The standard padded base64 encoding of `b`, three bytes to four
/// characters.
pub open spec fn std_base64(b: Seq<u8>) -> Seq<char>
    decreases b.len(),
{
    if b.len() == 0 {
        Seq::empty()
    } else if b.len() <= 3 {
        encode_group(b)
    } else {
        encode_group(b.take(3)) + std_base64(b.skip(3))
    }
}

/// The bytes a text is the standard encoding of, where it is one.
pub open spec fn std_base64_decoded(text: Seq<char>) -> Option<Seq<u8>> {
    if exists|b: Seq<u8>| std_base64(b) == text {
        Some(choose|b: Seq<u8>| std_base64(b) == text)
    } else {
        None
    }
}

proof fn lemma_digit(x: int, y: int)
    requires
        0 <= x < 64,
        0 <= y < 64,
    ensures
        digit(x) != '=',
        digit(x) == digit(y) ==> x == y,
{
    assert(0 <= digit_code(x) < 128);
    assert(0 <= digit_code(y) < 128);
    assert((digit(x) as int) == digit_code(x));
    assert((digit(y) as int) == digit_code(y));
}

proof fn lemma_group_digits(b: Seq<u8>)
    requires
        1 <= b.len() <= 3,
    ensures
        encode_group(b).len() == 4,
        encode_group(b)[0] != '=',
        encode_group(b)[1] != '=',
        (encode_group(b)[2] == '=') <==> b.len() == 1,
        (encode_group(b)[3] == '=') <==> b.len() <= 2,
{
    let b0 = b[0] as int;
    lemma_digit(b0 / 4, 0);
    if b.len() == 1 {
        lemma_digit((b0 % 4) * 16, 0);
    } else if b.len() == 2 {
        let b1 = b[1] as int;
        lemma_digit((b0 % 4) * 16 + b1 / 16, 0);
        lemma_digit((b1 % 16) * 4, 0);
    } else {
        let b1 = b[1] as int;
        let b2 = b[2] as int;
        lemma_digit((b0 % 4) * 16 + b1 / 16, 0);
        lemma_digit((b1 % 16) * 4 + b2 / 64, 0);
        lemma_digit(b2 % 64, 0);
    }
}

proof fn lemma_split(x: int, y: int, p: int, q: int, m: int, k: int)
    requires
        0 <= x < k,
        0 <= p < k,
        0 <= y,
        0 <= q,
        0 < k,
        x * m + y == p * m + q,
        y < m,
        q < m,
        0 < m,
    ensures
        x == p,
        y == q,
{
    if x < p {
        assert(x * m + m <= p * m) by (nonlinear_arith)
            requires
                x < p,
                0 < m,
        ;
    } else if p < x {
        assert(p * m + m <= x * m) by (nonlinear_arith)
            requires
                p < x,
                0 < m,
        ;
    }
}

proof fn lemma_group_injective(b: Seq<u8>, c: Seq<u8>)
    requires
        1 <= b.len() <= 3,
        1 <= c.len() <= 3,
        encode_group(b) == encode_group(c),
    ensures
        b == c,
{
    lemma_group_digits(b);
    lemma_group_digits(c);
    let gb = encode_group(b);
    let gc = encode_group(c);
    assert(gb[2] == gc[2] && gb[3] == gc[3]);
    assert(b.len() == c.len());
    let b0 = b[0] as int;
    let c0 = c[0] as int;
    assert(gb[0] == gc[0]);
    lemma_digit(b0 / 4, c0 / 4);
    if b.len() == 1 {
        lemma_digit((b0 % 4) * 16, (c0 % 4) * 16);
        assert(b0 == c0);
        assert(b =~= c);
    } else {
        let b1 = b[1] as int;
        let c1 = c[1] as int;
        assert(gb[1] == gc[1]);
        lemma_digit((b0 % 4) * 16 + b1 / 16, (c0 % 4) * 16 + c1 / 16);
        lemma_split(b0 % 4, b1 / 16, c0 % 4, c1 / 16, 16, 4);
        assert(b0 == c0);
        if b.len() == 2 {
            lemma_digit((b1 % 16) * 4, (c1 % 16) * 4);
            assert(b1 == c1);
            assert(b =~= c);
        } else {
            let b2 = b[2] as int;
            let c2 = c[2] as int;
            lemma_digit((b1 % 16) * 4 + b2 / 64, (c1 % 16) * 4 + c2 / 64);
            lemma_split(b1 % 16, b2 / 64, c1 % 16, c2 / 64, 4, 16);
            assert(b1 == c1);
            assert(gb[3] == gc[3]);
            lemma_digit(b2 % 64, c2 % 64);
            assert(b2 == c2);
            assert(b =~= c);
        }
    }
}

/// The encoding is four characters for every started group of three bytes.
pub proof fn lemma_std_base64_len(b: Seq<u8>)
    ensures
        std_base64(b).len() == 4 * ((b.len() + 2) / 3),
    decreases b.len(),
{
    if b.len() > 3 {
        lemma_std_base64_len(b.skip(3));
    }
}

/// Two byte sequences with the same encoding are equal.
pub proof fn lemma_std_base64_injective(b: Seq<u8>, c: Seq<u8>)
    requires
        std_base64(b) == std_base64(c),
    ensures
        b == c,
    decreases b.len(),
{
    lemma_std_base64_len(b);
    lemma_std_base64_len(c);
    if b.len() == 0 {
        assert(c.len() == 0);
        assert(b =~= c);
    } else if b.len() <= 3 {
        assert(1 <= c.len() <= 3);
        lemma_group_injective(b, c);
    } else {
        assert(c.len() > 3);
        let eb = std_base64(b);
        let ec = std_base64(c);
        lemma_group_digits(b.take(3));
        lemma_group_digits(c.take(3));
        assert(eb.take(4) =~= encode_group(b.take(3)));
        assert(ec.take(4) =~= encode_group(c.take(3)));
        lemma_group_injective(b.take(3), c.take(3));
        assert(eb.skip(4) =~= std_base64(b.skip(3)));
        assert(ec.skip(4) =~= std_base64(c.skip(3)));
        lemma_std_base64_injective(b.skip(3), c.skip(3));
        assert(b =~= b.take(3) + b.skip(3));
        assert(c =~= c.take(3) + c.skip(3));
    }
}

/// The encoding of `b` decodes back to `b`.
pub proof fn lemma_std_base64_round_trip(b: Seq<u8>)
    ensures
        std_base64_decoded(std_base64(b)) == Some(b),
{
    let t = std_base64(b);
    assert(exists|x: Seq<u8>| std_base64(x) == t);
    let c = choose|x: Seq<u8>| std_base64(x) == t;
    lemma_std_base64_injective(c, b);
}

} // verus!
