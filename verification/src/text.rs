//! Characters and text: white space, trimming, decimal numbers.

use vstd::prelude::*;
use vstd::string::*;
use vstd::utf8::*;

verus! {

/// The characters with the Unicode property `White_Space`.
pub open spec fn is_white_space(c: char) -> bool {
    let n = c as u32;
    ||| 0x9 <= n <= 0xd
    ||| n == 0x20
    ||| n == 0x85
    ||| n == 0xa0
    ||| n == 0x1680
    ||| 0x2000 <= n <= 0x200a
    ||| n == 0x2028
    ||| n == 0x2029
    ||| n == 0x202f
    ||| n == 0x205f
    ||| n == 0x3000
}

/// `s` without the white space it starts with.
pub open spec fn trimmed_start(s: Seq<char>) -> Seq<char>
    decreases s.len(),
{
    if s.len() > 0 && is_white_space(s[0]) {
        trimmed_start(s.drop_first())
    } else {
        s
    }
}

/// `s` without the white space it ends with.
pub open spec fn trimmed_end(s: Seq<char>) -> Seq<char>
    decreases s.len(),
{
    if s.len() > 0 && is_white_space(s.last()) {
        trimmed_end(s.drop_last())
    } else {
        s
    }
}

/// `s` without the white space at either end.
pub open spec fn trimmed(s: Seq<char>) -> Seq<char> {
    trimmed_end(trimmed_start(s))
}

/// All characters are white space.
pub open spec fn is_blank(s: Seq<char>) -> bool {
    forall|i: int| 0 <= i < s.len() ==> is_white_space(#[trigger] s[i])
}

/// Trimming takes exactly the white space around a text: what is left neither
/// starts nor ends with any.
pub proof fn law_trim_takes_the_padding(left: Seq<char>, core: Seq<char>, right: Seq<char>)
    requires
        forall|i: int| 0 <= i < left.len() ==> is_white_space(#[trigger] left[i]),
        forall|i: int| 0 <= i < right.len() ==> is_white_space(#[trigger] right[i]),
        core.len() > 0,
        !is_white_space(core[0]),
        !is_white_space(core.last()),
    ensures
        trimmed(left + core + right) == core,
{
    lemma_trim_start(left, core + right);
    assert(left + core + right == left + (core + right));
    lemma_trim_end(core, right);
}

/// A text of white space alone is trimmed to nothing.
pub proof fn law_blank_text_trims_to_nothing(s: Seq<char>)
    requires
        forall|i: int| 0 <= i < s.len() ==> is_white_space(#[trigger] s[i]),
    ensures
        trimmed(s) == Seq::<char>::empty(),
{
    lemma_trim_start(s, Seq::empty());
    assert(s + Seq::<char>::empty() == s);
}

/// Trimming one end takes all the white space there, however much there is, up to the
/// first other character, and leaves everything from that on.
pub proof fn law_trim_one_end(padding: Seq<char>, rest: Seq<char>)
    requires
        forall|i: int| 0 <= i < padding.len() ==> is_white_space(#[trigger] padding[i]),
    ensures
        rest.len() == 0 || !is_white_space(rest[0]) ==> trimmed_start(padding + rest) == rest,
        rest.len() == 0 || !is_white_space(rest.last()) ==> trimmed_end(rest + padding) == rest,
{
    if rest.len() == 0 || !is_white_space(rest[0]) {
        lemma_trim_start(padding, rest);
    }
    if rest.len() == 0 || !is_white_space(rest.last()) {
        lemma_trim_end(rest, padding);
    }
}

/// Trimming the start takes a blank beginning.
proof fn lemma_trim_start(left: Seq<char>, rest: Seq<char>)
    requires
        is_blank(left),
        rest.len() == 0 || !is_white_space(rest[0]),
    ensures
        trimmed_start(left + rest) == rest,
    decreases left.len(),
{
    if left.len() == 0 {
        assert(left + rest == rest);
    } else {
        assert((left + rest)[0] == left[0]);
        assert((left + rest).drop_first() == left.drop_first() + rest);
        lemma_trim_start(left.drop_first(), rest);
    }
}

/// Trimming the end takes a blank ending.
proof fn lemma_trim_end(rest: Seq<char>, right: Seq<char>)
    requires
        is_blank(right),
        rest.len() == 0 || !is_white_space(rest.last()),
    ensures
        trimmed_end(rest + right) == rest,
    decreases right.len(),
{
    if right.len() == 0 {
        assert(rest + right == rest);
    } else {
        assert((rest + right).last() == right[right.len() - 1]);
        assert((rest + right).drop_last() == rest + right.drop_last());
        lemma_trim_end(rest, right.drop_last());
    }
}

/// Whether a character counts as white space.
pub fn white_space(c: char) -> (yes: bool)
    ensures
        yes == is_white_space(c),
{
    let n: u32 = c as u32;
    (0x9 <= n && n <= 0xd) || n == 0x20 || n == 0x85 || n == 0xa0 || n == 0x1680 || (0x2000 <= n
        && n <= 0x200a) || n == 0x2028 || n == 0x2029 || n == 0x202f || n == 0x205f || n == 0x3000
}

/// Cuts the white space off the end of `s`.
pub fn trim_end(s: &str) -> (rest: &str)
    ensures
        rest@ == trimmed_end(s@),
{
    let mut end: usize = s.unicode_len();
    assert(s@.subrange(0, end as int) == s@);
    while end > 0 && white_space(s.get_char(end - 1))
        invariant
            end <= s@.len(),
            trimmed_end(s@) == trimmed_end(s@.subrange(0, end as int)),
        decreases end,
    {
        assert(s@.subrange(0, end as int).drop_last() == s@.subrange(0, end - 1));
        end = end - 1;
    }
    s.substring_char(0, end)
}

/// Cuts the white space off the start of `s`.
pub fn trim_start(s: &str) -> (rest: &str)
    ensures
        rest@ == trimmed_start(s@),
{
    let len: usize = s.unicode_len();
    let mut start: usize = 0;
    assert(s@.subrange(0, len as int) == s@);
    while start < len && white_space(s.get_char(start))
        invariant
            start <= len,
            len == s@.len(),
            trimmed_start(s@) == trimmed_start(s@.subrange(start as int, len as int)),
        decreases len - start,
    {
        assert(s@.subrange(start as int, len as int).drop_first() == s@.subrange(
            start + 1,
            len as int,
        ));
        start = start + 1;
    }
    s.substring_char(start, len)
}

/// Cuts the white space off both ends of `s`.
pub fn trim(s: &str) -> (rest: &str)
    ensures
        rest@ == trimmed(s@),
{
    trim_end(trim_start(s))
}

/// Reads bytes as text with [`std::str::from_utf8`]: there is a text exactly if
/// the bytes are well-formed UTF-8, and it is the one they encode.
#[verifier::external_body]
pub(crate) fn utf8_text(bytes: &[u8]) -> (text: Option<&str>)
    ensures
        text is Some <==> valid_utf8(bytes@),
        text matches Some(t) ==> t@ == decode_utf8(bytes@),
{
    std::str::from_utf8(bytes).ok()
}

/// Whether two texts are the same.
pub fn same_text(a: &str, b: &str) -> (yes: bool)
    ensures
        yes == (a@ == b@),
{
    a.to_owned() == b.to_owned()
}

/// The digit that stands for `d`.
pub open spec fn digit(d: nat) -> char
    recommends
        d < 10,
{
    (0x30 + d) as char
}

/// `n` in decimal, most significant digit first, without leading zeros.
pub open spec fn decimal(n: nat) -> Seq<char>
    decreases n,
{
    if n < 10 {
        seq![digit(n)]
    } else {
        decimal(n / 10).push(digit(n % 10))
    }
}

/// The number that a sequence of digits stands for.
pub open spec fn decimal_value(s: Seq<char>) -> nat
    decreases s.len(),
{
    if s.len() == 0 {
        0
    } else {
        (10 * decimal_value(s.drop_last()) + (s.last() as u32 - 0x30)) as nat
    }
}

/// Reading a decimal number back gives the number that was written, so two
/// numbers are never written alike.
pub proof fn law_decimal_reads_back(n: nat)
    ensures
        decimal_value(decimal(n)) == n,
        decimal(n).len() > 0,
        forall|i: int| 0 <= i < decimal(n).len() ==> '0' <= #[trigger] decimal(n)[i] <= '9',
    decreases n,
{
    reveal_with_fuel(decimal_value, 2);
    if n < 10 {
        assert(decimal(n).drop_last() == Seq::<char>::empty());
    } else {
        law_decimal_reads_back(n / 10);
        assert(decimal(n).drop_last() == decimal(n / 10));
    }
}

/// The text of a single digit.
fn digit_text(d: u64) -> (text: &'static str)
    requires
        d < 10,
    ensures
        text@ == seq![digit(d as nat)],
{
    proof {
        reveal_strlit("0");
        reveal_strlit("1");
        reveal_strlit("2");
        reveal_strlit("3");
        reveal_strlit("4");
        reveal_strlit("5");
        reveal_strlit("6");
        reveal_strlit("7");
        reveal_strlit("8");
        reveal_strlit("9");
    }
    match d {
        0 => "0",
        1 => "1",
        2 => "2",
        3 => "3",
        4 => "4",
        5 => "5",
        6 => "6",
        7 => "7",
        8 => "8",
        _ => "9",
    }
}

/// Writes `n` in decimal.
pub fn decimal_text(n: u64) -> (text: String)
    ensures
        text@ == decimal(n as nat),
    decreases n,
{
    if n < 10 {
        digit_text(n).to_owned()
    } else {
        let mut text = decimal_text(n / 10);
        text.append(digit_text(n % 10));
        text
    }
}

/// Decimal numbers are written with one digit for each power of ten: a number below ten
/// is its digit, and a further digit behind a number stands for ten times as much and
/// that digit.
pub proof fn law_decimal_digits(n: nat, d: nat)
    requires
        d < 10,
    ensures
        decimal(d) == seq![(48 + d) as char],
        n > 0 ==> decimal(10 * n + d) == decimal(n).push((48 + d) as char),
{
    assert((10 * n + d) / 10 == n && (10 * n + d) % 10 == d);
}

} // verus!
