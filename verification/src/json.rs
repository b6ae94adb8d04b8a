//! JSON text, by way of `serde_json`.

use vstd::prelude::*;

verus! {

/// A JSON value; what is inside it is the concern of `serde_json` alone.
#[verifier::external_type_specification]
#[verifier::external_body]
pub struct ExValue(serde_json::Value);

/// The hexadecimal digit, in lower case, that stands for `n`.
pub open spec fn hex_digit(n: nat) -> char
    recommends
        n < 16,
{
    if n < 10 {
        (0x30 + n) as char
    } else {
        (0x61 + n - 10) as char
    }
}

/// A character as it stands in a JSON string: quotes, backslashes and control
/// characters are escaped.
pub open spec fn escape(c: char) -> Seq<char> {
    let n = c as nat;
    if c == '"' || c == '\\' {
        seq!['\\', c]
    } else if n == 0x08 {
        seq!['\\', 'b']
    } else if n == 0x09 {
        seq!['\\', 't']
    } else if n == 0x0a {
        seq!['\\', 'n']
    } else if n == 0x0c {
        seq!['\\', 'f']
    } else if n == 0x0d {
        seq!['\\', 'r']
    } else if n < 0x20 {
        seq!['\\', 'u', '0', '0', hex_digit(n / 16), hex_digit(n % 16)]
    } else {
        seq![c]
    }
}

/// A text as it stands between the quotes of a JSON string.
pub open spec fn escaped(text: Seq<char>) -> Seq<char>
    decreases text.len(),
{
    if text.len() == 0 {
        Seq::empty()
    } else {
        escape(text[0]) + escaped(text.drop_first())
    }
}

/// A text as a JSON string.
pub open spec fn quoted(text: Seq<char>) -> Seq<char> {
    seq!['"'] + escaped(text) + seq!['"']
}

/// The object with the given names and texts in it, as collecting the pairs into
/// a [`serde_json::Value`] makes it.
pub uninterp spec fn json_object(fields: Seq<(Seq<char>, Seq<char>)>) -> serde_json::Value;

/// The values in a JSON array, as [`serde_json::from_str`] reads them; `None` if
/// the text is no JSON array.
pub uninterp spec fn json_array(text: Seq<char>) -> Option<Seq<serde_json::Value>>;

/// The JSON array of the given values, as [`serde_json::to_string_pretty`]
/// writes it.
pub uninterp spec fn json_pretty(values: Seq<serde_json::Value>) -> Seq<char>;

/// An object that holds nothing but texts.
pub open spec fn is_text_object(value: serde_json::Value) -> bool {
    exists|fields: Seq<(Seq<char>, Seq<char>)>| value == #[trigger] json_object(fields)
}

/// The character is a decimal digit.
pub open spec fn is_digit(c: char) -> bool {
    '0' <= c <= '9'
}

/// The number that the digits before and at the start of `text` stand for, where
/// those before it stand for `so_far`.
pub open spec fn leading_number(text: Seq<char>, so_far: nat) -> nat
    decreases text.len(),
{
    if text.len() > 0 && is_digit(text[0]) {
        leading_number(text.drop_first(), 10 * so_far + (text[0] as nat - 0x30) as nat)
    } else {
        so_far
    }
}

/// Outside of strings, the JSON text holds no number but whole ones that fit `u64`
/// or `i64`: no point, no exponent, no negative zero. `in_string` tells whether the
/// text begins inside a string.
pub open spec fn whole_numbers_only(text: Seq<char>, in_string: bool) -> bool
    decreases text.len(),
{
    if text.len() == 0 {
        true
    } else if in_string && text[0] == '\\' {
        text.len() > 1 ==> whole_numbers_only(text.skip(2), true)
    } else if in_string {
        whole_numbers_only(text.drop_first(), text[0] != '"')
    } else {
        &&& text[0] != '.'
        &&& leading_number(text, 0) <= u64::MAX
        &&& text.len() > 1 && is_digit(text[0]) ==> text[1] != 'e' && text[1] != 'E'
        &&& text.len() > 1 && text[0] == '-' ==> text[1] != '0' && -leading_number(
            text.drop_first(),
            0,
        ) >= i64::MIN
        &&& whole_numbers_only(text.drop_first(), text[0] == '"')
    }
}

/// The value stands at the given place in the JSON array `text`, which holds no
/// numbers but whole ones.
pub open spec fn stands_in(value: serde_json::Value, text: Seq<char>, place: int) -> bool {
    &&& whole_numbers_only(text, false)
    &&& json_array(text) matches Some(values)
    &&& 0 <= place < values.len()
    &&& values[place] == value
}

/// A value that can be written and read again without loss: an object of texts, or
/// whatever was read from an array that holds no numbers but whole ones.
pub open spec fn is_exact(value: serde_json::Value) -> bool {
    is_text_object(value) || exists|text: Seq<char>, place: int|
        #[trigger] stands_in(value, text, place)
}

/// All values can be written and read again without loss.
pub open spec fn all_exact(values: Seq<serde_json::Value>) -> bool {
    forall|i: int| 0 <= i < values.len() ==> is_exact(#[trigger] values[i])
}

/// The names and texts of a list of fields.
pub open spec fn fields_view(fields: Seq<(String, String)>) -> Seq<(Seq<char>, Seq<char>)> {
    fields.map_values(|field: (String, String)| (field.0@, field.1@))
}

/// Writes a text as a JSON string with [`serde_json::to_string`]: in quotes, with
/// quotes, backslashes and control characters escaped and all else as it is.
#[verifier::external_body]
pub(crate) fn json_string(text: &str) -> (json: String)
    ensures
        json@ == quoted(text@),
{
    serde_json::to_string(text).unwrap()
}

/// Makes a JSON object by collecting names and texts into a
/// [`serde_json::Value`]. The result is named [`json_object`].
#[verifier::external_body]
pub(crate) fn text_object(fields: Vec<(String, String)>) -> (value: serde_json::Value)
    ensures
        value == json_object(fields_view(fields@)),
{
    fields.into_iter().collect::<serde_json::Value>()
}

/// Reads a JSON array with [`serde_json::from_str`]. The result is named
/// [`json_array`].
#[verifier::external_body]
pub(crate) fn parse_array(text: &str) -> (values: Option<Vec<serde_json::Value>>)
    ensures
        values is Some <==> json_array(text@) is Some,
        values matches Some(v) ==> json_array(text@) == Some(v@),
{
    serde_json::from_str::<Vec<serde_json::Value>>(text).ok()
}

/// Writes a JSON array with [`serde_json::to_string_pretty`]. The result is named
/// [`json_pretty`]; reading it gives the same values again where they are objects
/// of texts or were read from arrays in which all numbers are whole and fit `u64` or
/// `i64`, which `serde_json` holds as integers. Nothing is said of reading back other
/// numbers, because a floating-point number may come back changed in its last digit.
#[verifier::external_body]
pub(crate) fn pretty_array(values: &Vec<serde_json::Value>) -> (json: String)
    ensures
        json@ == json_pretty(values@),
        all_exact(values@) ==> json_array(json@) == Some(values@),
{
    serde_json::to_string_pretty(values).unwrap()
}

/// The escape of a character never starts like that of another, and never with
/// a quote.
proof fn lemma_escapes_differ(a: char, x: Seq<char>, b: char, y: Seq<char>)
    requires
        escape(a) + x == escape(b) + y,
    ensures
        a == b,
        x == y,
{
    let left = escape(a) + x;
    let right = escape(b) + y;
    assert(left[0] == escape(a)[0] && right[0] == escape(b)[0]);
    if escape(a).len() > 1 && escape(b).len() > 1 {
        assert(left[1] == escape(a)[1] && right[1] == escape(b)[1]);
        if escape(a).len() == 6 && escape(b).len() == 6 {
            assert(left[4] == escape(a)[4] && right[4] == escape(b)[4]);
            assert(left[5] == escape(a)[5] && right[5] == escape(b)[5]);
        }
    }
    assert(a == b);
    assert(x == left.skip(escape(a).len() as int));
    assert(y == right.skip(escape(b).len() as int));
}

/// A text and what follows its closing quote can be told from the escaped text.
pub proof fn law_json_strings_end_at_their_quote(
    a: Seq<char>,
    x: Seq<char>,
    b: Seq<char>,
    y: Seq<char>,
)
    requires
        escaped(a) + seq!['"'] + x == escaped(b) + seq!['"'] + y,
    ensures
        a == b,
        x == y,
    decreases a.len(),
{
    let left = escaped(a) + seq!['"'] + x;
    let right = escaped(b) + seq!['"'] + y;
    if a.len() == 0 {
        assert(left[0] == '"');
        if b.len() > 0 {
            assert(right[0] == escape(b[0])[0]);
        }
        assert(x == left.skip(1));
        assert(y == right.skip(1));
        assert(a == b);
    } else if b.len() == 0 {
        assert(right[0] == '"');
        assert(left[0] == escape(a[0])[0]);
    } else {
        let a_rest = escaped(a.drop_first()) + seq!['"'] + x;
        let b_rest = escaped(b.drop_first()) + seq!['"'] + y;
        assert(left == escape(a[0]) + a_rest);
        assert(right == escape(b[0]) + b_rest);
        lemma_escapes_differ(a[0], a_rest, b[0], b_rest);
        law_json_strings_end_at_their_quote(a.drop_first(), x, b.drop_first(), y);
        assert(a == seq![a[0]] + a.drop_first());
        assert(b == seq![b[0]] + b.drop_first());
    }
}

/// A text is quoted character by character, however long it is: what stands between the
/// quotes of two texts in a row is what stands between the quotes of each.
pub proof fn law_texts_are_quoted_in_order(a: Seq<char>, b: Seq<char>)
    ensures
        quoted(a) == seq!['"'] + escaped(a) + seq!['"'],
        escaped(a + b) == escaped(a) + escaped(b),
        escaped(Seq::empty()) == Seq::<char>::empty(),
    decreases a.len(),
{
    if a.len() == 0 {
        assert(a + b == b);
    } else {
        law_texts_are_quoted_in_order(a.drop_first(), b);
        assert((a + b).drop_first() == a.drop_first() + b);
    }
}

/// A character stands for itself in a JSON string, but that a backslash comes before a
/// quote and before a backslash, and that control characters have escapes of their own.
pub proof fn law_characters_in_json(c: char)
    ensures
        c as nat >= 0x20 && c != '"' && c != '\\' ==> escaped(seq![c]) == seq![c],
        c == '"' || c == '\\' ==> escaped(seq![c]) == seq!['\\', c],
        c as nat == 0x08 ==> escaped(seq![c]) == seq!['\\', 'b'],
        c as nat == 0x09 ==> escaped(seq![c]) == seq!['\\', 't'],
        c as nat == 0x0a ==> escaped(seq![c]) == seq!['\\', 'n'],
        c as nat == 0x0c ==> escaped(seq![c]) == seq!['\\', 'f'],
        c as nat == 0x0d ==> escaped(seq![c]) == seq!['\\', 'r'],
        (c as nat) < 0x20 && c as nat != 0x08 && c as nat != 0x09 && c as nat != 0x0a && c as nat
            != 0x0c && c as nat != 0x0d ==> escaped(seq![c]) == seq![
            '\\',
            'u',
            '0',
            '0',
            if (c as nat) < 0x10 {
                '0'
            } else {
                '1'
            },
            if c as nat % 16 < 10 {
                (0x30 + c as nat % 16) as char
            } else {
                (0x57 + c as nat % 16) as char
            },
        ],
{
    assert(seq![c].drop_first() == Seq::<char>::empty());
    reveal_with_fuel(escaped, 2);
}

/// The fields of a JSON object are handed on as they are, in order.
pub proof fn law_fields_are_handed_on(fields: Seq<(String, String)>, i: int)
    requires
        0 <= i < fields.len(),
    ensures
        fields_view(fields).len() == fields.len(),
        fields_view(fields)[i].0 == fields[i].0@,
        fields_view(fields)[i].1 == fields[i].1@,
{
}

} // verus!
