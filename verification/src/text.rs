//! Character-level helpers: Unicode whitespace, trimming, ASCII case
//! folding, string comparison and concatenation, and the decimal
//! integer grammar that `str::parse` accepts for `i64` and `u64`.

use vstd::prelude::*;
use vstd::string::*;

verus! {

broadcast use vstd::string::group_string_axioms;

/// `char::is_whitespace`: the Unicode `White_Space` property.
pub open spec fn is_white_space(c: char) -> bool {
    let u = c as u32;
    ||| u == 0x20
    ||| 0x09 <= u <= 0x0d
    ||| u == 0x85
    ||| u == 0xa0
    ||| u == 0x1680
    ||| 0x2000 <= u <= 0x200a
    ||| u == 0x2028
    ||| u == 0x2029
    ||| u == 0x202f
    ||| u == 0x205f
    ||| u == 0x3000
}

/// `str::trim_start`: drops the leading whitespace.
pub open spec fn trim_start(s: Seq<char>) -> Seq<char>
    decreases s.len(),
{
    if s.len() > 0 && is_white_space(s[0]) {
        trim_start(s.drop_first())
    } else {
        s
    }
}

/// `str::trim_end`: drops the trailing whitespace.
pub open spec fn trim_end(s: Seq<char>) -> Seq<char>
    decreases s.len(),
{
    if s.len() > 0 && is_white_space(s.last()) {
        trim_end(s.drop_last())
    } else {
        s
    }
}

/// `str::trim`.
pub open spec fn trim(s: Seq<char>) -> Seq<char> {
    trim_end(trim_start(s))
}

/// `s.trim().is_empty()`.
pub open spec fn is_blank(s: Seq<char>) -> bool {
    trim(s).len() == 0
}

/// `char::is_ascii_alphanumeric`.
pub open spec fn is_ascii_alphanumeric(c: char) -> bool {
    ||| ('0' <= c && c <= '9')
    ||| ('a' <= c && c <= 'z')
    ||| ('A' <= c && c <= 'Z')
}

/// `char::to_ascii_lowercase`.
pub open spec fn ascii_lower(c: char) -> char {
    if 'A' <= c && c <= 'Z' {
        ((c as u8) + 32) as u8 as char
    } else {
        c
    }
}

/// `str::to_ascii_lowercase`.
pub open spec fn ascii_lowercase(s: Seq<char>) -> Seq<char> {
    s.map_values(|c: char| ascii_lower(c))
}

/// `str::starts_with` for a string prefix.
pub open spec fn has_prefix(s: Seq<char>, prefix: Seq<char>) -> bool {
    prefix.len() <= s.len() && s.subrange(0, prefix.len() as int) == prefix
}

/// The kinds of failure of `str::parse` for the integer types, in the
/// order `core::num::IntErrorKind` lists them.
#[derive(Clone, Copy, Debug, PartialEq, Eq, Structural)]
pub enum IntErrorKind {
    Empty,
    InvalidDigit,
    PosOverflow,
    NegOverflow,
}

pub open spec fn is_digit(c: char) -> bool {
    '0' <= c && c <= '9'
}

pub open spec fn digit_value(c: char) -> int {
    (c as u32) - ('0' as u32)
}

/// Reads the decimal digits of `d` from position `i` on, with `acc` the
/// magnitude read so far; the first character that is not a digit, or
/// the first digit that takes the magnitude past `limit`, ends the scan
/// with an error, as the standard library's left-to-right loop does.
pub open spec fn scan_digits(d: Seq<char>, i: int, acc: int, limit: int, overflow: IntErrorKind) -> Result<
    int,
    IntErrorKind,
>
    decreases d.len() - i,
{
    if i < 0 || i >= d.len() {
        Ok(acc)
    } else if !is_digit(d[i]) {
        Err(IntErrorKind::InvalidDigit)
    } else if acc * 10 + digit_value(d[i]) > limit {
        Err(overflow)
    } else {
        scan_digits(d, i + 1, acc * 10 + digit_value(d[i]), limit, overflow)
    }
}

/// `str::parse` for an integer type whose values are `-min_magnitude ..=
/// max`; `signed` says whether a leading `-` is accepted.
pub open spec fn parse_integer(s: Seq<char>, signed: bool, max: int, min_magnitude: int) -> Result<
    int,
    IntErrorKind,
> {
    if s.len() == 0 {
        Err(IntErrorKind::Empty)
    } else if s.len() == 1 && (s[0] == '+' || s[0] == '-') {
        Err(IntErrorKind::InvalidDigit)
    } else if s[0] == '+' {
        scan_digits(s.drop_first(), 0, 0, max, IntErrorKind::PosOverflow)
    } else if s[0] == '-' && signed {
        match scan_digits(s.drop_first(), 0, 0, min_magnitude, IntErrorKind::NegOverflow) {
            Ok(m) => Ok(-m),
            Err(e) => Err(e),
        }
    } else {
        scan_digits(s, 0, 0, max, IntErrorKind::PosOverflow)
    }
}

/// `s.parse::<i64>()`.
pub open spec fn parse_i64(s: Seq<char>) -> Result<i64, IntErrorKind> {
    match parse_integer(s, true, i64::MAX as int, 0x8000_0000_0000_0000) {
        Ok(v) => Ok(v as i64),
        Err(e) => Err(e),
    }
}

/// `s.parse::<u64>()`.
pub open spec fn parse_u64(s: Seq<char>) -> Result<u64, IntErrorKind> {
    match parse_integer(s, false, u64::MAX as int, 0) {
        Ok(v) => Ok(v as u64),
        Err(e) => Err(e),
    }
}

/// The text that `ParseIntError`'s `Display` gives for each kind.
pub open spec fn int_error_text(kind: IntErrorKind) -> Seq<char> {
    match kind {
        IntErrorKind::Empty => "cannot parse integer from empty string"@,
        IntErrorKind::InvalidDigit => "invalid digit found in string"@,
        IntErrorKind::PosOverflow => "number too large to fit in target type"@,
        IntErrorKind::NegOverflow => "number too small to fit in target type"@,
    }
}

pub fn int_error_message(kind: IntErrorKind) -> (r: &'static str)
    ensures
        r@ == int_error_text(kind),
{
    match kind {
        IntErrorKind::Empty => "cannot parse integer from empty string",
        IntErrorKind::InvalidDigit => "invalid digit found in string",
        IntErrorKind::PosOverflow => "number too large to fit in target type",
        IntErrorKind::NegOverflow => "number too small to fit in target type",
    }
}

/// What `format!("{:?}", s)` gives for a string: the text quoted, with
/// the escapes of `str::escape_debug`.
pub uninterp spec fn debug_text(s: Seq<char>) -> Seq<char>;

/// `format!("{:?}", s)`. The contract claims only that the text is a
/// function of `s` alone, named [`debug_text`].
#[verifier::external_body]
pub(crate) fn debug_quoted(s: &str) -> (r: String)
    ensures
        r@ == debug_text(s@),
{
    format!("{:?}", s)
}

/// Copies the characters of `s` into a vector.
pub fn chars_of(s: &str) -> (v: Vec<char>)
    ensures
        v@ == s@,
{
    let mut v: Vec<char> = Vec::new();
    for c in it: s.chars()
        invariant
            v@ == it.seq().take(it.index()),
    {
        v.push(c);
    }
    v
}

/// `a == b` on string slices.
pub fn str_eq(a: &str, b: &str) -> (r: bool)
    ensures
        r == (a@ == b@),
{
    let x = chars_of(a);
    let y = chars_of(b);
    if x.len() != y.len() {
        return false;
    }
    let mut i: usize = 0;
    while i < x.len()
        invariant
            x@ == a@,
            y@ == b@,
            x@.len() == y@.len(),
            0 <= i <= x@.len(),
            forall|j: int| 0 <= j < i ==> x@[j] == y@[j],
        decreases x@.len() - i,
    {
        if x[i] != y[i] {
            assert(x@[i as int] != y@[i as int]);
            return false;
        }
        i = i + 1;
    }
    assert(x@ =~= y@);
    true
}

/// `a` followed by `b`, as a new string.
pub fn concat(a: &str, b: &str) -> (r: String)
    ensures
        r@ == a@ + b@,
{
    let mut r = a.to_string();
    r.append(b);
    r
}

/// `a`, `b` and `c` one after the other, as a new string.
pub fn concat3(a: &str, b: &str, c: &str) -> (r: String)
    ensures
        r@ == a@ + b@ + c@,
{
    let mut r = a.to_string();
    r.append(b);
    r.append(c);
    r
}

/// `c.is_whitespace()`.
pub fn char_is_white_space(c: char) -> (r: bool)
    ensures
        r == is_white_space(c),
{
    let u = c as u32;
    u == 0x20 || (0x09 <= u && u <= 0x0d) || u == 0x85 || u == 0xa0 || u == 0x1680 || (0x2000
        <= u && u <= 0x200a) || u == 0x2028 || u == 0x2029 || u == 0x202f || u == 0x205f || u
        == 0x3000
}

/// `s.trim()`, over the characters of a string.
pub fn trimmed(s: &Vec<char>) -> (r: Vec<char>)
    ensures
        r@ == trim(s@),
{
    let n = s.len();
    let mut lo: usize = 0;
    assert(s@.subrange(0, n as int) =~= s@);
    while lo < n && char_is_white_space(s[lo])
        invariant
            n == s@.len(),
            0 <= lo <= n,
            trim_start(s@) == trim_start(s@.subrange(lo as int, n as int)),
        decreases n - lo,
    {
        assert(s@.subrange(lo as int, n as int).drop_first() =~= s@.subrange(
            lo + 1,
            n as int,
        ));
        lo = lo + 1;
    }
    if lo < n {
        assert(s@.subrange(lo as int, n as int)[0] == s@[lo as int]);
    }
    assert(trim_start(s@.subrange(lo as int, n as int)) == s@.subrange(lo as int, n as int));
    let mut hi: usize = n;
    while hi > lo && char_is_white_space(s[hi - 1])
        invariant
            n == s@.len(),
            0 <= lo <= hi <= n,
            trim(s@) == trim_end(s@.subrange(lo as int, hi as int)),
        decreases hi - lo,
    {
        assert(s@.subrange(lo as int, hi as int).drop_last() =~= s@.subrange(
            lo as int,
            hi - 1,
        ));
        hi = hi - 1;
    }
    if hi > lo {
        assert(s@.subrange(lo as int, hi as int).last() == s@[hi - 1]);
    }
    assert(trim_end(s@.subrange(lo as int, hi as int)) == s@.subrange(lo as int, hi as int));
    let mut r: Vec<char> = Vec::new();
    let mut i: usize = lo;
    while i < hi
        invariant
            n == s@.len(),
            0 <= lo <= i <= hi <= n,
            r@ == s@.subrange(lo as int, i as int),
        decreases hi - i,
    {
        r.push(s[i]);
        assert(r@ =~= s@.subrange(lo as int, i + 1));
        i = i + 1;
    }
    r
}

/// Whether `s.trim()` is empty.
pub fn blank(s: &str) -> (r: bool)
    ensures
        r == is_blank(s@),
{
    let v = chars_of(s);
    let t = trimmed(&v);
    t.len() == 0
}

/// `s.starts_with(prefix)`.
pub fn starts_with(s: &str, prefix: &str) -> (r: bool)
    ensures
        r == has_prefix(s@, prefix@),
{
    let x = chars_of(s);
    let p = chars_of(prefix);
    if p.len() > x.len() {
        return false;
    }
    let mut i: usize = 0;
    while i < p.len()
        invariant
            x@ == s@,
            p@ == prefix@,
            p@.len() <= x@.len(),
            0 <= i <= p@.len(),
            forall|j: int| 0 <= j < i ==> x@[j] == p@[j],
        decreases p@.len() - i,
    {
        if x[i] != p[i] {
            assert(x@.subrange(0, p@.len() as int)[i as int] != p@[i as int]);
            return false;
        }
        i = i + 1;
    }
    assert(x@.subrange(0, p@.len() as int) =~= p@);
    true
}

/// `d[from..]` read as decimal digits, under the rules of `scan_digits`.
fn scan_decimal(d: &Vec<char>, from: usize, limit: u64, overflow: IntErrorKind) -> (r: Result<
    u64,
    IntErrorKind,
>)
    requires
        from <= d@.len(),
    ensures
        r matches Ok(v) ==> scan_digits(d@.subrange(from as int, d@.len() as int), 0, 0, limit as int, overflow) == Ok::<int, IntErrorKind>(v as int),
        r matches Err(e) ==> scan_digits(d@.subrange(from as int, d@.len() as int), 0, 0, limit as int, overflow) == Err::<int, IntErrorKind>(e),
{
    let ghost t = d@.subrange(from as int, d@.len() as int);
    let mut acc: u64 = 0;
    let mut i: usize = from;
    while i < d.len()
        invariant
            from <= i <= d@.len(),
            t == d@.subrange(from as int, d@.len() as int),
            acc <= limit,
            scan_digits(t, 0, 0, limit as int, overflow) == scan_digits(t, i - from, acc as int, limit as int, overflow),
        decreases d@.len() - i,
    {
        let c = d[i];
        assert(t[i - from] == c);
        if !('0' <= c && c <= '9') {
            return Err(IntErrorKind::InvalidDigit);
        }
        let x = (c as u32 - '0' as u32) as u128;
        let next: u128 = (acc as u128) * 10 + x;
        if next > limit as u128 {
            return Err(overflow);
        }
        acc = next as u64;
        i = i + 1;
    }
    Ok(acc)
}

/// `s.parse::<i64>()`, over the characters of a string.
pub fn parse_i64_chars(s: &Vec<char>) -> (r: Result<i64, IntErrorKind>)
    ensures
        r == parse_i64(s@),
{
    let n = s.len();
    if n == 0 {
        return Err(IntErrorKind::Empty);
    }
    if n == 1 && (s[0] == '+' || s[0] == '-') {
        return Err(IntErrorKind::InvalidDigit);
    }
    assert(s@.drop_first() =~= s@.subrange(1, n as int));
    assert(s@ =~= s@.subrange(0, n as int));
    if s[0] == '+' {
        match scan_decimal(s, 1, 0x7fff_ffff_ffff_ffff, IntErrorKind::PosOverflow) {
            Ok(v) => Ok(v as i64),
            Err(e) => Err(e),
        }
    } else if s[0] == '-' {
        match scan_decimal(s, 1, 0x8000_0000_0000_0000, IntErrorKind::NegOverflow) {
            Ok(m) => {
                let v: i128 = 0 - (m as i128);
                Ok(v as i64)
            },
            Err(e) => Err(e),
        }
    } else {
        match scan_decimal(s, 0, 0x7fff_ffff_ffff_ffff, IntErrorKind::PosOverflow) {
            Ok(v) => Ok(v as i64),
            Err(e) => Err(e),
        }
    }
}

/// `s.parse::<u64>()`, over the characters of a string.
pub fn parse_u64_chars(s: &Vec<char>) -> (r: Result<u64, IntErrorKind>)
    ensures
        r == parse_u64(s@),
{
    let n = s.len();
    if n == 0 {
        return Err(IntErrorKind::Empty);
    }
    if n == 1 && (s[0] == '+' || s[0] == '-') {
        return Err(IntErrorKind::InvalidDigit);
    }
    assert(s@.drop_first() =~= s@.subrange(1, n as int));
    assert(s@ =~= s@.subrange(0, n as int));
    if s[0] == '+' {
        scan_decimal(s, 1, 0xffff_ffff_ffff_ffff, IntErrorKind::PosOverflow)
    } else {
        scan_decimal(s, 0, 0xffff_ffff_ffff_ffff, IntErrorKind::PosOverflow)
    }
}

/// `s.trim().to_ascii_lowercase()` compared with `word`.
pub fn trimmed_lowercase_is(s: &str, word: &str) -> (r: bool)
    ensures
        r == (ascii_lowercase(trim(s@)) == word@),
{
    let v = chars_of(s);
    let t = trimmed(&v);
    let w = chars_of(word);
    if t.len() != w.len() {
        assert(ascii_lowercase(t@).len() == t@.len());
        return false;
    }
    let mut i: usize = 0;
    while i < t.len()
        invariant
            t@ == trim(s@),
            w@ == word@,
            t@.len() == w@.len(),
            0 <= i <= t@.len(),
            forall|j: int| 0 <= j < i ==> ascii_lower(t@[j]) == w@[j],
        decreases t@.len() - i,
    {
        let c = t[i];
        let l = if 'A' <= c && c <= 'Z' {
            ((c as u8) + 32) as char
        } else {
            c
        };
        if l != w[i] {
            assert(ascii_lowercase(t@)[i as int] != w@[i as int]);
            return false;
        }
        i = i + 1;
    }
    assert(ascii_lowercase(t@) =~= w@);
    true
}

/// Ten to the power `n`.
pub open spec fn pow10(n: nat) -> int
    decreases n,
{
    if n == 0 {
        1
    } else {
        10 * pow10((n - 1) as nat)
    }
}

/// The number a string of decimal digits writes, positionally: the first
/// digit counts `10^(len-1)` times.
pub open spec fn decimal_value(d: Seq<char>) -> int
    decreases d.len(),
{
    if d.len() == 0 {
        0
    } else {
        digit_value(d[0]) * pow10((d.len() - 1) as nat) + decimal_value(d.drop_first())
    }
}

/// Whether a string is one or more ASCII digits.
pub open spec fn all_digits(d: Seq<char>) -> bool {
    d.len() > 0 && forall|i: int| 0 <= i < d.len() ==> #[trigger] is_digit(d[i])
}

proof fn lemma_pow10_positive(n: nat)
    ensures
        pow10(n) >= 1,
    decreases n,
{
    if n > 0 {
        lemma_pow10_positive((n - 1) as nat);
    }
}

proof fn lemma_decimal_value_nonneg(d: Seq<char>)
    requires
        forall|i: int| 0 <= i < d.len() ==> #[trigger] is_digit(d[i]),
    ensures
        decimal_value(d) >= 0,
    decreases d.len(),
{
    if d.len() > 0 {
        lemma_pow10_positive((d.len() - 1) as nat);
        assert(is_digit(d[0]));
        assert(digit_value(d[0]) >= 0);
        assert forall|i: int| 0 <= i < d.drop_first().len() implies #[trigger] is_digit(d.drop_first()[i]) by {
            assert(is_digit(d[i + 1]));
        }
        assert(digit_value(d[0]) * pow10((d.len() - 1) as nat) >= 0) by (nonlinear_arith)
            requires
                digit_value(d[0]) >= 0,
                pow10((d.len() - 1) as nat) >= 1,
        ;
        lemma_decimal_value_nonneg(d.drop_first());
    }
}

proof fn lemma_scan_digits(d: Seq<char>, i: int, acc: int, limit: int, overflow: IntErrorKind)
    requires
        0 <= i <= d.len(),
        0 <= acc <= limit,
        forall|k: int| 0 <= k < d.len() ==> #[trigger] is_digit(d[k]),
    ensures
        scan_digits(d, i, acc, limit, overflow) == if acc * pow10((d.len() - i) as nat) + decimal_value(
            d.subrange(i, d.len() as int),
        ) <= limit {
            Ok::<int, IntErrorKind>(acc * pow10((d.len() - i) as nat) + decimal_value(d.subrange(i, d.len() as int)))
        } else {
            Err(overflow)
        },
    decreases d.len() - i,
{
    let e = d.subrange(i, d.len() as int);
    let m = (d.len() - i) as nat;
    if i == d.len() {
        assert(e.len() == 0);
        assert(decimal_value(e) == 0);
        assert(pow10(m) == 1);
        assert(acc * pow10(m) + decimal_value(e) == acc);
    } else {
        assert(is_digit(d[i]));
        assert forall|k: int| 0 <= k < d.subrange(i + 1, d.len() as int).len() implies #[trigger] is_digit(
            d.subrange(i + 1, d.len() as int)[k],
        ) by {
            assert(is_digit(d[i + 1 + k]));
        }
        let rest = d.subrange(i + 1, d.len() as int);
        assert(e.drop_first() =~= rest);
        assert(e[0] == d[i]);
        let dv = digit_value(d[i]);
        assert(0 <= dv <= 9);
        let p = pow10((m - 1) as nat);
        lemma_pow10_positive((m - 1) as nat);
        assert(pow10(m) == 10 * p);
        assert(decimal_value(e) == dv * p + decimal_value(rest));
        assert(acc * pow10(m) + decimal_value(e) == (acc * 10 + dv) * p + decimal_value(rest)) by (nonlinear_arith)
            requires
                pow10(m) == 10 * p,
                decimal_value(e) == dv * p + decimal_value(rest),
        ;
        lemma_decimal_value_nonneg(rest);
        assert((acc * 10 + dv) * p >= acc * 10 + dv) by (nonlinear_arith)
            requires
                p >= 1,
                acc * 10 + dv >= 0,
        ;
        assert((d.len() - (i + 1)) as nat == (m - 1) as nat);
        let v = acc * pow10(m) + decimal_value(e);
        if acc * 10 + dv > limit {
            assert(v > limit);
            assert(scan_digits(d, i, acc, limit, overflow) == Err::<int, IntErrorKind>(overflow));
        } else {
            lemma_scan_digits(d, i + 1, acc * 10 + dv, limit, overflow);
            assert(scan_digits(d, i, acc, limit, overflow) == scan_digits(d, i + 1, acc * 10 + dv, limit, overflow));
        }
    }
}

/// Unsigned parsing reads decimal digits positionally: one or more
/// digits, with an optional leading `+`, give the number they write when
/// it fits in a `u64` and an overflow error otherwise; the empty text is
/// its own error, and a lone sign is an invalid digit.
pub proof fn lemma_parse_u64_decimal(d: Seq<char>)
    requires
        all_digits(d),
    ensures
        parse_u64(d) == if decimal_value(d) <= u64::MAX {
            Ok::<u64, IntErrorKind>(decimal_value(d) as u64)
        } else {
            Err(IntErrorKind::PosOverflow)
        },
        parse_u64(seq!['+'] + d) == parse_u64(d),
        parse_u64(Seq::empty()) == Err::<u64, IntErrorKind>(IntErrorKind::Empty),
        parse_u64(seq!['+']) == Err::<u64, IntErrorKind>(IntErrorKind::InvalidDigit),
{
    lemma_scan_digits(d, 0, 0, u64::MAX as int, IntErrorKind::PosOverflow);
    assert(d.subrange(0, d.len() as int) =~= d);
    assert((seq!['+'] + d).drop_first() =~= d);
    assert(d[0] != '+' && d[0] != '-');
}

/// Signed parsing reads decimal digits positionally: digits with an
/// optional `+` give the number when it is at most `i64::MAX`; after a `-`
/// they give its negation when it is at least `i64::MIN`; beyond, the
/// matching overflow error.
pub proof fn lemma_parse_i64_decimal(d: Seq<char>)
    requires
        all_digits(d),
    ensures
        parse_i64(d) == if decimal_value(d) <= i64::MAX {
            Ok::<i64, IntErrorKind>(decimal_value(d) as i64)
        } else {
            Err(IntErrorKind::PosOverflow)
        },
        parse_i64(seq!['+'] + d) == parse_i64(d),
        parse_i64(seq!['-'] + d) == if decimal_value(d) <= 0x8000_0000_0000_0000 {
            Ok::<i64, IntErrorKind>((-decimal_value(d)) as i64)
        } else {
            Err(IntErrorKind::NegOverflow)
        },
{
    lemma_scan_digits(d, 0, 0, i64::MAX as int, IntErrorKind::PosOverflow);
    lemma_scan_digits(d, 0, 0, 0x8000_0000_0000_0000, IntErrorKind::NegOverflow);
    assert(d.subrange(0, d.len() as int) =~= d);
    assert((seq!['+'] + d).drop_first() =~= d);
    assert((seq!['-'] + d).drop_first() =~= d);
    assert(d[0] != '+' && d[0] != '-');
}

/// A text that does not start with a sign or a digit is not a number.
pub proof fn lemma_parse_invalid_start(s: Seq<char>)
    requires
        s.len() > 0,
        !is_digit(s[0]),
        s[0] != '+',
    ensures
        s[0] != '-' ==> parse_i64(s) == Err::<i64, IntErrorKind>(IntErrorKind::InvalidDigit),
        parse_u64(s) == Err::<u64, IntErrorKind>(IntErrorKind::InvalidDigit),
{
}

proof fn lemma_trim_start_cut(s: Seq<char>) -> (i: int)
    ensures
        0 <= i <= s.len(),
        trim_start(s) == s.subrange(i, s.len() as int),
        forall|k: int| 0 <= k < i ==> #[trigger] is_white_space(s[k]),
        i < s.len() ==> !is_white_space(s[i]),
    decreases s.len(),
{
    if s.len() > 0 && is_white_space(s[0]) {
        let j = lemma_trim_start_cut(s.drop_first());
        assert(s.drop_first().subrange(j, s.drop_first().len() as int) =~= s.subrange(j + 1, s.len() as int));
        assert forall|k: int| 0 <= k < j + 1 implies #[trigger] is_white_space(s[k]) by {
            if k > 0 {
                assert(s[k] == s.drop_first()[k - 1]);
            }
        }
        j + 1
    } else {
        assert(s.subrange(0, s.len() as int) =~= s);
        0
    }
}

proof fn lemma_trim_end_cut(s: Seq<char>) -> (j: int)
    ensures
        0 <= j <= s.len(),
        trim_end(s) == s.subrange(0, j),
        forall|k: int| j <= k < s.len() ==> #[trigger] is_white_space(s[k]),
        j > 0 ==> !is_white_space(s[j - 1]),
    decreases s.len(),
{
    if s.len() > 0 && is_white_space(s.last()) {
        let j = lemma_trim_end_cut(s.drop_last());
        assert(s.drop_last().subrange(0, j) =~= s.subrange(0, j));
        assert forall|k: int| j <= k < s.len() implies #[trigger] is_white_space(s[k]) by {
            if k < s.len() - 1 {
                assert(s[k] == s.drop_last()[k]);
            }
        }
        j
    } else {
        assert(s.subrange(0, s.len() as int) =~= s);
        s.len() as int
    }
}

/// Trimming cuts whitespace off both ends and nothing else: the result is
/// a stretch of the text with only whitespace before and after it, and
/// it neither starts nor ends with whitespace.
pub proof fn lemma_trim_meaning(s: Seq<char>)
    ensures
        exists|i: int, j: int|
            0 <= i <= j <= s.len() && trim(s) == s.subrange(i, j) && (forall|k: int|
                0 <= k < i ==> #[trigger] is_white_space(s[k])) && (forall|k: int|
                j <= k < s.len() ==> #[trigger] is_white_space(s[k])),
        trim(s).len() > 0 ==> !is_white_space(trim(s)[0]) && !is_white_space(trim(s).last()),
{
    let i = lemma_trim_start_cut(s);
    let t = s.subrange(i, s.len() as int);
    let j = lemma_trim_end_cut(t);
    assert(trim(s) == t.subrange(0, j));
    assert(t.subrange(0, j) =~= s.subrange(i, i + j));
    assert forall|k: int| i + j <= k < s.len() implies #[trigger] is_white_space(s[k]) by {
        assert(s[k] == t[k - i]);
    }
    if trim(s).len() > 0 {
        assert(trim(s)[0] == s[i]);
        assert(trim(s).last() == t[j - 1]);
    }
    assert(0 <= i <= i + j <= s.len() && trim(s) == s.subrange(i, i + j));
}

} // verus!
