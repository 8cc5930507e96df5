//! What the functions on plain text return.
use crate::text::{
    all_digits, contents, decimal_string, digits_value, is_digit, is_white_space, joined,
    lemma_decimal_parses, line_feeds_replaced, parse_index, replace_line_feeds, right_align,
    to_chars, trim, trimmed, trimmed_end, trimmed_start, white_space, without_plus,
};
use vstd::prelude::*;

verus! {

broadcast use vstd::string::group_string_axioms;

/// A number below ten is written as its one digit.
pub proof fn law_decimal_digit(n: usize, r: String)
    requires
        call_ensures(decimal_string, (n,), r),
        n < 10,
    ensures
        r@.len() == 1,
        r@[0] as int == '0' as int + n,
{
}

/// A number from ten on is written as its tenth and one more digit.
pub proof fn law_decimal_step(n: usize, tenth: String, r: String)
    requires
        call_ensures(decimal_string, (n,), r),
        call_ensures(decimal_string, ((n / 10) as usize,), tenth),
        n >= 10,
    ensures
        r@.drop_last() == tenth@,
        r@.last() as int == '0' as int + n % 10,
{
    assert(r@.drop_last() =~= tenth@);
}

/// A number that is written can be read.
pub proof fn law_decimal_is_read_back(n: usize, text: &str, written: String, r: Option<usize>)
    requires
        call_ensures(decimal_string, (n,), written),
        text@ == written@,
        call_ensures(parse_index, (text,), r),
    ensures
        r == Some(n),
{
    lemma_decimal_parses(n);
}

/// Nothing, or a plus sign alone, is no index.
pub proof fn law_parse_nothing(text: &str, r: Option<usize>)
    requires
        call_ensures(parse_index, (text,), r),
        text@.len() == 0 || text@ == seq!['+'],
    ensures
        r is None,
{
}

/// A single character is an index exactly when it is a digit.
pub proof fn law_parse_digit(text: &str, r: Option<usize>)
    requires
        call_ensures(parse_index, (text,), r),
        text@.len() == 1,
    ensures
        '0' <= text@[0] <= '9' ==> r == Some((text@[0] as int - '0' as int) as usize),
        !('0' <= text@[0] <= '9') ==> r is None,
{
    let s = text@;
    assert(s.drop_last() =~= Seq::empty());
    if '0' <= s[0] <= '9' {
        assert(without_plus(s) == s);
        assert(digits_value(s.drop_last()) == 0);
        assert(digits_value(s) == s[0] as nat - 48);
        assert(all_digits(s));
    } else if s[0] != '+' {
        assert(!is_digit(s[0]));
        assert(!all_digits(s));
    }
}

/// A plus sign before an index changes nothing; before another plus sign it makes no index.
pub proof fn law_parse_plus(text: &str, rest: &str, r: Option<usize>, of_rest: Option<usize>)
    requires
        call_ensures(parse_index, (text,), r),
        call_ensures(parse_index, (rest,), of_rest),
        text@ == seq!['+'] + rest@,
    ensures
        rest@.len() > 0 && rest@[0] == '+' ==> r is None,
        rest@.len() == 0 || rest@[0] != '+' ==> r == of_rest,
{
    assert(text@.skip(1) =~= rest@);
    if rest@.len() > 0 && rest@[0] == '+' {
        assert(!is_digit(rest@[0]));
        assert(!all_digits(rest@));
    }
}

/// One more character: a digit makes ten times the index and itself, as long as that fits; any
/// other makes no index. What was no index, and neither nothing nor a plus sign alone, stays none.
pub proof fn law_parse_step(
    text: &str,
    start: &str,
    c: char,
    r: Option<usize>,
    of_start: Option<usize>,
)
    requires
        call_ensures(parse_index, (text,), r),
        call_ensures(parse_index, (start,), of_start),
        text@ == start@.push(c),
        start@.len() > 0,
        start@ != seq!['+'],
    ensures
        !('0' <= c <= '9') ==> r is None,
        of_start is None ==> r is None,
        match of_start {
            Some(v) => '0' <= c <= '9' ==> r == (if v * 10 + (c as int - '0' as int) <= usize::MAX {
                Some((v * 10 + (c as int - '0' as int)) as usize)
            } else {
                None
            }),
            None => true,
        },
{
    let s = start@;
    let digits = without_plus(s);
    let longer = without_plus(text@);
    assert(text@[0] == s[0]);
    if s[0] == '+' {
        assert(longer =~= digits.push(c));
        if s.len() == 1 {
            assert(s =~= seq!['+']);
        }
    }
    assert(longer == digits.push(c));
    assert(longer.drop_last() =~= digits);
    assert(digits.len() > 0);
    if all_digits(longer) {
        assert forall|i: int| 0 <= i < digits.len() implies is_digit(#[trigger] digits[i]) by {
            assert(longer[i] == digits[i]);
        }
        assert(is_digit(longer[longer.len() - 1]));
    }
    if all_digits(digits) && is_digit(c) {
        assert forall|i: int| 0 <= i < longer.len() implies is_digit(#[trigger] longer[i]) by {
            if i < digits.len() {
                assert(longer[i] == digits[i]);
            }
        }
    }
}

/// All characters of a text, in their order.
pub proof fn law_to_chars(text: &str, r: Vec<char>)
    requires
        call_ensures(to_chars, (text,), r),
    ensures
        r@.len() == text@.len(),
        forall|i: int| 0 <= i < r@.len() ==> r@[i] == text@[i],
{
}

pub(crate) proof fn lemma_trimmed_start(s: Seq<char>) -> (start: int)
    ensures
        0 <= start <= s.len(),
        trimmed_start(s) == s.skip(start),
        forall|i: int| 0 <= i < start ==> is_white_space(#[trigger] s[i]),
        start < s.len() ==> !is_white_space(s[start]),
    decreases s.len(),
{
    if s.len() > 0 && is_white_space(s[0]) {
        let start = lemma_trimmed_start(s.skip(1));
        assert(s.skip(1).skip(start) =~= s.skip(start + 1));
        assert forall|i: int| 0 <= i < start + 1 implies is_white_space(#[trigger] s[i]) by {
            if i > 0 {
                assert(s.skip(1)[i - 1] == s[i]);
            }
        }
        start + 1
    } else {
        assert(s.skip(0) =~= s);
        0
    }
}

pub(crate) proof fn lemma_trimmed_end(s: Seq<char>) -> (end: int)
    ensures
        0 <= end <= s.len(),
        trimmed_end(s) == s.take(end),
        forall|i: int| end <= i < s.len() ==> is_white_space(#[trigger] s[i]),
        end > 0 ==> !is_white_space(s[end - 1]),
    decreases s.len(),
{
    if s.len() > 0 && is_white_space(s.last()) {
        let end = lemma_trimmed_end(s.drop_last());
        assert(s.drop_last().take(end) =~= s.take(end));
        assert forall|i: int| end <= i < s.len() implies is_white_space(#[trigger] s[i]) by {
            if i < s.len() - 1 {
                assert(s.drop_last()[i] == s[i]);
            }
        }
        end
    } else {
        assert(s.take(s.len() as int) =~= s);
        s.len() as int
    }
}

/// White space is what moves on a line or to another one: from the tabulator to the carriage return,
/// the blanks of all widths, and the separators of lines and paragraphs. No printed ASCII character
/// is.
pub proof fn law_white_space(c: char, r: bool)
    requires
        call_ensures(white_space, (c,), r),
    ensures
        '\t' <= c <= '\r' || c == ' ' ==> r,
        '!' <= c <= '~' ==> !r,
        c < '\t' || '\r' < c < ' ' ==> !r,
        c >= '\u{7f}' ==> (r <==> c == '\u{85}' || c == '\u{a0}' || c == '\u{1680}' || '\u{2000}' <= c
            <= '\u{200a}' || '\u{2028}' <= c <= '\u{2029}' || c == '\u{202f}' || c == '\u{205f}' || c
            == '\u{3000}'),
        is_white_space(c) == r,
{
}

/// A trimmed text is the part of the text without white space at its ends: what is cut off at
/// either side is white space only, and neither end of what is left is.
pub proof fn law_trimmed(s: Seq<char>) -> (bounds: (int, int))
    ensures
        0 <= bounds.0 <= bounds.1 <= s.len(),
        trimmed(s) == s.subrange(bounds.0, bounds.1),
        forall|i: int| 0 <= i < bounds.0 ==> is_white_space(#[trigger] s[i]),
        forall|i: int| bounds.1 <= i < s.len() ==> is_white_space(#[trigger] s[i]),
        bounds.0 < bounds.1 ==> !is_white_space(s[bounds.0]) && !is_white_space(s[bounds.1 - 1]),
        bounds.0 == bounds.1 ==> forall|i: int| 0 <= i < s.len() ==> is_white_space(#[trigger] s[i]),
{
    let start = lemma_trimmed_start(s);
    let middle = s.skip(start);
    let len = lemma_trimmed_end(middle);
    assert(middle.take(len) =~= s.subrange(start, start + len));
    assert forall|i: int| start + len <= i < s.len() implies is_white_space(#[trigger] s[i]) by {
        assert(middle[i - start] == s[i]);
    }
    if len > 0 {
        assert(middle[0] == s[start]);
        assert(middle[len - 1] == s[start + len - 1]);
    }
    (start, start + len)
}

/// `trim` gives the trimmed text, of the white space that `white_space` tells.
pub proof fn law_trim(text: &str, r: &str) -> (bounds: (int, int))
    requires
        call_ensures(trim, (text,), r),
    ensures
        0 <= bounds.0 <= bounds.1 <= text@.len(),
        r@ == text@.subrange(bounds.0, bounds.1),
        forall|i: int, w: bool|
            0 <= i < text@.len() && #[trigger] call_ensures(white_space, (text@[i],), w) ==> {
                &&& i < bounds.0 || bounds.1 <= i ==> w
                &&& i == bounds.0 && i < bounds.1 ==> !w
                &&& i == bounds.1 - 1 && bounds.0 <= i ==> !w
                &&& bounds.0 == bounds.1 ==> w
            },
{
    law_trimmed(text@)
}

/// The parts of two lists, joined, are the joined parts of each with the separator between.
pub proof fn law_joined_parts(a: Seq<Seq<char>>, b: Seq<Seq<char>>, sep: Seq<char>)
    requires
        a.len() > 0,
        b.len() > 0,
    ensures
        joined(a + b, sep) == joined(a, sep) + sep + joined(b, sep),
    decreases b.len(),
{
    let all = a + b;
    assert(all.last() == b.last());
    if b.len() == 1 {
        assert(all.drop_last() =~= a);
    } else {
        assert(all.drop_last() =~= a + b.drop_last());
        law_joined_parts(a, b.drop_last(), sep);
        assert(joined(a, sep) + sep + joined(b.drop_last(), sep) + sep + b.last() =~= joined(a, sep)
            + sep + joined(b, sep));
    }
}

/// No part joined is nothing; one part joined is itself.
pub proof fn law_joined_few(parts: Seq<Seq<char>>, sep: Seq<char>)
    ensures
        parts.len() == 0 ==> joined(parts, sep).len() == 0,
        parts.len() == 1 ==> joined(parts, sep) == parts[0],
{
}

/// The contents of strings are theirs one by one.
pub proof fn law_contents(strings: Seq<String>)
    ensures
        contents(strings).len() == strings.len(),
        forall|i: int| 0 <= i < strings.len() ==> #[trigger] contents(strings)[i] == strings[i]@,
{
}

/// Replacing line feeds in two texts, one after the other, is replacing them in each.
pub proof fn law_replaced_parts(a: Seq<char>, b: Seq<char>, with: Seq<char>)
    ensures
        line_feeds_replaced(a + b, with) == line_feeds_replaced(a, with) + line_feeds_replaced(
            b,
            with,
        ),
    decreases b.len(),
{
    if b.len() == 0 {
        assert(a + b =~= a);
        assert(line_feeds_replaced(a, with) + line_feeds_replaced(b, with) =~= line_feeds_replaced(
            a,
            with,
        ));
    } else {
        assert((a + b).drop_last() =~= a + b.drop_last());
        assert((a + b).last() == b.last());
        law_replaced_parts(a, b.drop_last(), with);
        assert(line_feeds_replaced(a + b, with) =~= line_feeds_replaced(a, with)
            + line_feeds_replaced(b, with));
    }
}

/// A line feed becomes the replacement; any other character stays.
pub proof fn law_replaced_character(c: char, with: Seq<char>)
    ensures
        line_feeds_replaced(seq![c], with) == (if c == '\n' {
            with
        } else {
            seq![c]
        }),
{
    assert(seq![c].drop_last() =~= Seq::empty());
    assert(line_feeds_replaced(seq![c].drop_last(), with) =~= Seq::empty());
    assert(line_feeds_replaced(seq![c], with) =~= (if c == '\n' {
        with
    } else {
        seq![c]
    }));
}

/// `replace_line_feeds` works on each part of a text by itself, puts the replacement for a line
/// feed, and leaves a text without line feeds as it is.
pub proof fn law_replace_line_feeds(
    text: &str,
    a: &str,
    b: &str,
    with: &str,
    r: String,
    of_a: String,
    of_b: String,
)
    requires
        call_ensures(replace_line_feeds, (text, with), r),
        call_ensures(replace_line_feeds, (a, with), of_a),
        call_ensures(replace_line_feeds, (b, with), of_b),
    ensures
        text@ == a@ + b@ ==> r@ == of_a@ + of_b@,
        text@ == seq!['\n'] ==> r@ == with@,
        (forall|i: int| 0 <= i < text@.len() ==> text@[i] != '\n') ==> r@ == text@,
{
    if text@ == a@ + b@ {
        law_replaced_parts(a@, b@, with@);
    }
    if text@ == seq!['\n'] {
        law_replaced_character('\n', with@);
    }
    if forall|i: int| 0 <= i < text@.len() ==> text@[i] != '\n' {
        lemma_replaced_none(text@, with@);
    }
}

pub(crate) proof fn lemma_replaced_none(s: Seq<char>, with: Seq<char>)
    requires
        forall|i: int| 0 <= i < s.len() ==> s[i] != '\n',
    ensures
        line_feeds_replaced(s, with) == s,
    decreases s.len(),
{
    if s.len() > 0 {
        lemma_replaced_none(s.drop_last(), with);
        assert(s.drop_last() + seq![s.last()] =~= s);
    } else {
        assert(line_feeds_replaced(s, with) =~= s);
    }
}

/// An aligned text ends in the text, has only blanks before it, and is as wide as asked for or as
/// the text.
pub proof fn law_right_align(text: &str, width: usize, r: String)
    requires
        call_ensures(right_align, (text, width), r),
    ensures
        r@.len() == (if text@.len() >= width {
            text@.len()
        } else {
            width as nat
        }),
        r@.skip(r@.len() - text@.len()) == text@,
        forall|i: int| 0 <= i < r@.len() - text@.len() ==> r@[i] == ' ',
{
    assert(r@.skip(r@.len() - text@.len()) =~= text@);
}

} // verus!
