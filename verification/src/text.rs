//! Small text building blocks: appending characters, decimal numerals and
//! trimming NUL padding.

use vstd::prelude::*;

verus! {

/// Appends one character to a `String` (std's `String::push`).
/// Claimed: the new text is the old text followed by `c`.
#[verifier::external_body]
pub(crate) fn push_char(text: &mut String, c: char)
    ensures
        final(text)@ == old(text)@.push(c),
{
    text.push(c)
}

/// The character of a decimal digit `d` (0 through 9).
pub open spec fn digit_char(d: int) -> char
    recommends
        0 <= d < 10,
{
    ('0' as int + d) as char
}

/// The decimal numeral of `n`, most significant digit first, with no leading zeros.
pub open spec fn decimal(n: nat) -> Seq<char>
    decreases n,
{
    if n < 10 {
        seq![digit_char(n as int)]
    } else {
        decimal(n / 10).push(digit_char((n % 10) as int))
    }
}

/// The number that a string of decimal digits denotes.
pub open spec fn decimal_value(s: Seq<char>) -> int
    decreases s.len(),
{
    if s.len() == 0 {
        0
    } else {
        decimal_value(s.drop_last()) * 10 + (s.last() as int - '0' as int)
    }
}

/// Every numeral `decimal` produces is a non-empty string of the digits
/// '0' through '9' without a leading zero (unless it is "0"), and reading it
/// back gives the number it was made from.
pub proof fn lemma_decimal_round_trip(n: nat)
    ensures
        decimal(n).len() >= 1,
        forall|i: int| 0 <= i < decimal(n).len() ==> '0' <= #[trigger] decimal(n)[i] <= '9',
        n > 0 ==> decimal(n)[0] != '0',
        decimal_value(decimal(n)) == n,
    decreases n,
{
    if n >= 10 {
        lemma_decimal_round_trip(n / 10);
        let prefix = decimal(n / 10);
        assert(decimal(n).drop_last() =~= prefix);
        assert forall|i: int| 0 <= i < decimal(n).len() implies '0' <= #[trigger] decimal(n)[i] <= '9' by {
            if i < prefix.len() {
                assert(decimal(n)[i] == prefix[i]);
            }
        }
        assert(decimal(n)[0] == prefix[0]);
        let d: int = (n % 10) as int;
        assert(decimal(n).last() == digit_char(d));
        assert(digit_char(d) as int == '0' as int + d);
        assert(decimal_value(decimal(n)) == decimal_value(prefix) * 10 + d);
        assert((n / 10) * 10 + n % 10 == n) by (nonlinear_arith);
        assert(decimal_value(decimal(n)) == n);
    } else {
        assert(decimal(n).drop_last() =~= Seq::<char>::empty());
        assert(digit_char(n as int) as int == '0' as int + n);
        assert(decimal_value(Seq::<char>::empty()) == 0);
        assert(decimal_value(decimal(n)) == n);
    }
}

/// Different numbers have different decimal numerals.
pub proof fn lemma_decimal_injective(a: nat, b: nat)
    requires
        decimal(a) == decimal(b),
    ensures
        a == b,
{
    lemma_decimal_round_trip(a);
    lemma_decimal_round_trip(b);
}

/// Appends the decimal numeral of `n` to `out`.
pub fn append_decimal(out: &mut String, n: u32)
    ensures
        final(out)@ == old(out)@ + decimal(n as nat),
    decreases n,
{
    if n >= 10 {
        append_decimal(out, n / 10);
    }
    let d: u32 = n % 10;
    let c: char = ((d as u8) + 48u8) as char;
    assert(c == digit_char(d as int));
    push_char(out, c);
}

/// The text of `s` with every leading and trailing NUL character removed.
pub open spec fn trim_nul(s: Seq<char>) -> Seq<char>
    decreases s.len(),
{
    if s.len() > 0 && s[0] == '\0' {
        trim_nul(s.drop_first())
    } else if s.len() > 0 && s.last() == '\0' {
        trim_nul(s.drop_last())
    } else {
        s
    }
}

/// Trimming a text whose first character is not NUL only removes trailing NULs.
proof fn lemma_trim_nul_front_kept(s: Seq<char>)
    requires
        s.len() > 0,
        s[0] != '\0',
        s.last() == '\0',
    ensures
        trim_nul(s) == trim_nul(s.drop_last()),
{
}

/// A text made only of NUL characters trims to nothing.
pub proof fn lemma_trim_all_nul(s: Seq<char>)
    requires
        forall|i: int| 0 <= i < s.len() ==> s[i] == '\0',
    ensures
        trim_nul(s).len() == 0,
    decreases s.len(),
{
    if s.len() > 0 {
        lemma_trim_all_nul(s.drop_first());
    }
}

/// Trimming leaves no NUL at either end.
pub proof fn lemma_trim_nul_ends(s: Seq<char>)
    ensures
        trim_nul(s).len() > 0 ==> trim_nul(s)[0] != '\0' && trim_nul(s).last() != '\0',
        trim_nul(s).len() <= s.len(),
    decreases s.len(),
{
    if s.len() > 0 && s[0] == '\0' {
        lemma_trim_nul_ends(s.drop_first());
    } else if s.len() > 0 && s.last() == '\0' {
        lemma_trim_nul_ends(s.drop_last());
    }
}

/// Whether `t` is `s` with its leading and trailing NULs cut off: `t` is the
/// part of `s` from `i` to `j`, everything before `i` and from `j` on is NUL,
/// and a non-empty `t` neither starts nor ends with NUL.
pub open spec fn nul_trimmed_window(s: Seq<char>, t: Seq<char>, i: int, j: int) -> bool {
    &&& 0 <= i <= j <= s.len()
    &&& t == s.subrange(i, j)
    &&& forall|k: int| 0 <= k < i ==> #[trigger] s[k] == '\0'
    &&& forall|k: int| j <= k < s.len() ==> #[trigger] s[k] == '\0'
    &&& i < j ==> s[i] != '\0' && s[j - 1] != '\0'
}

/// A window of `s` without its first character, when that is NUL, is one
/// of `s` shifted by one.
proof fn lemma_window_front(s: Seq<char>, t: Seq<char>, i: int, j: int)
    requires
        s.len() > 0,
        s[0] == '\0',
        nul_trimmed_window(s.drop_first(), t, i, j),
    ensures
        nul_trimmed_window(s, t, i + 1, j + 1),
{
    let r = s.drop_first();
    assert(r.subrange(i, j) =~= s.subrange(i + 1, j + 1));
    assert forall|k: int| 0 <= k < i + 1 implies #[trigger] s[k] == '\0' by {
        if k > 0 {
            assert(s[k] == r[k - 1]);
        }
    }
    assert forall|k: int| j + 1 <= k < s.len() implies #[trigger] s[k] == '\0' by {
        assert(s[k] == r[k - 1]);
    }
    if i < j {
        assert(s[i + 1] == r[i]);
        assert(s[j] == r[j - 1]);
    }
}

/// A window of `s` without its last character, when that is NUL, is one of `s`.
proof fn lemma_window_back(s: Seq<char>, t: Seq<char>, i: int, j: int)
    requires
        s.len() > 0,
        s.last() == '\0',
        nul_trimmed_window(s.drop_last(), t, i, j),
    ensures
        nul_trimmed_window(s, t, i, j),
{
    let r = s.drop_last();
    assert(r.subrange(i, j) =~= s.subrange(i, j));
    assert forall|k: int| 0 <= k < i implies #[trigger] s[k] == '\0' by {
        assert(s[k] == r[k]);
    }
    assert forall|k: int| j <= k < s.len() implies #[trigger] s[k] == '\0' by {
        if k < s.len() - 1 {
            assert(s[k] == r[k]);
        }
    }
    if i < j {
        assert(s[i] == r[i]);
        assert(s[j - 1] == r[j - 1]);
    }
}

/// Trimming cuts off exactly the leading and trailing NULs: the result is the
/// stretch of `s` between them, and nothing but NULs is removed.
pub proof fn lemma_trim_nul_window(s: Seq<char>)
    ensures
        exists|i: int, j: int| #[trigger] nul_trimmed_window(s, trim_nul(s), i, j),
    decreases s.len(),
{
    if s.len() > 0 && s[0] == '\0' {
        let r = s.drop_first();
        assert(trim_nul(s) == trim_nul(r));
        lemma_trim_nul_window(r);
        let (i, j) = choose|i: int, j: int| #[trigger] nul_trimmed_window(r, trim_nul(r), i, j);
        lemma_window_front(s, trim_nul(r), i, j);
        assert(nul_trimmed_window(s, trim_nul(s), i + 1, j + 1));
    } else if s.len() > 0 && s.last() == '\0' {
        let r = s.drop_last();
        assert(trim_nul(s) == trim_nul(r));
        lemma_trim_nul_window(r);
        let (i, j) = choose|i: int, j: int| #[trigger] nul_trimmed_window(r, trim_nul(r), i, j);
        lemma_window_back(s, trim_nul(r), i, j);
        assert(nul_trimmed_window(s, trim_nul(s), i, j));
    } else {
        assert(s.subrange(0, s.len() as int) =~= s);
        assert(nul_trimmed_window(s, trim_nul(s), 0, s.len() as int));
    }
}

/// `s` without its leading and trailing NUL characters.
pub fn trim_nul_text(s: &str) -> (trimmed: String)
    ensures
        trimmed@ == trim_nul(s@),
{
    let len: usize = s.unicode_len();
    let mut start: usize = 0;
    assert(s@.subrange(0, len as int) =~= s@);
    while start < len && s.get_char(start) == '\0'
        invariant
            len == s@.len(),
            start <= len,
            trim_nul(s@) == trim_nul(s@.subrange(start as int, len as int)),
        decreases len - start,
    {
        let ghost rest = s@.subrange(start as int, len as int);
        assert(rest.drop_first() =~= s@.subrange(start + 1, len as int));
        start = start + 1;
    }
    let mut end: usize = len;
    while end > start && s.get_char(end - 1) == '\0'
        invariant
            len == s@.len(),
            start <= end <= len,
            start < len ==> s@[start as int] != '\0',
            trim_nul(s@) == trim_nul(s@.subrange(start as int, end as int)),
        decreases end - start,
    {
        let ghost rest = s@.subrange(start as int, end as int);
        assert(end - 1 > start);
        assert(rest[0] == s@[start as int]);
        proof {
            lemma_trim_nul_front_kept(rest);
        }
        assert(rest.drop_last() =~= s@.subrange(start as int, end - 1));
        end = end - 1;
    }
    let ghost kept = s@.subrange(start as int, end as int);
    assert(kept.len() > 0 ==> kept[0] == s@[start as int]);
    assert(trim_nul(kept) == kept);
    s.substring_char(start, end).to_owned()
}

} // verus!
