//! Texts: what is cut off them, where they come apart, and which comes first.
use crate::text;
use vstd::prelude::*;

verus! {

/// White space is the tab, the line breaks, the spaces of every width and the
/// separators of lines and paragraphs.
pub proof fn white_space_is_one_of_these_characters(c: char)
    ensures
        text::white_space(c) <==> {
            ||| c == '\t' || c == '\n' || c == '\u{b}' || c == '\u{c}' || c == '\r'
            ||| c == ' ' || c == '\u{85}' || c == '\u{a0}' || c == '\u{1680}'
            ||| c == '\u{2000}' || c == '\u{2001}' || c == '\u{2002}' || c == '\u{2003}'
            ||| c == '\u{2004}' || c == '\u{2005}' || c == '\u{2006}' || c == '\u{2007}'
            ||| c == '\u{2008}' || c == '\u{2009}' || c == '\u{200a}'
            ||| c == '\u{2028}' || c == '\u{2029}' || c == '\u{202f}'
            ||| c == '\u{205f}' || c == '\u{3000}'
        },
{
}

/// Where the trimmed text begins and ends.
proof fn lemma_trimmed_range(text: Seq<char>) -> (range: (int, int))
    ensures
        0 <= range.0 <= range.1 <= text.len(),
        text::trimmed(text) == text.subrange(range.0, range.1),
        forall|i: int| 0 <= i < range.0 ==> text::white_space(#[trigger] text[i]),
        forall|i: int| range.1 <= i < text.len() ==> text::white_space(#[trigger] text[i]),
        range.0 < range.1 ==> !text::white_space(text[range.0]) && !text::white_space(
            text[range.1 - 1],
        ),
    decreases text.len(),
{
    if text.len() > 0 && text::white_space(text.first()) {
        let inner = text.drop_first();
        let range = lemma_trimmed_range(inner);
        assert(inner.subrange(range.0, range.1) =~= text.subrange(range.0 + 1, range.1 + 1));
        assert forall|i: int| 0 <= i < range.0 + 1 implies text::white_space(
            #[trigger] text[i],
        ) by {
            if i > 0 {
                assert(inner[i - 1] == text[i]);
            }
        }
        assert forall|i: int| range.1 + 1 <= i < text.len() implies text::white_space(
            #[trigger] text[i],
        ) by {
            assert(inner[i - 1] == text[i]);
        }
        (range.0 + 1, range.1 + 1)
    } else if text.len() > 0 && text::white_space(text.last()) {
        let inner = text.drop_last();
        let range = lemma_trimmed_range(inner);
        assert(inner.subrange(range.0, range.1) =~= text.subrange(range.0, range.1));
        assert forall|i: int| 0 <= i < range.0 implies text::white_space(#[trigger] text[i]) by {
            assert(inner[i] == text[i]);
        }
        assert forall|i: int| range.1 <= i < text.len() implies text::white_space(
            #[trigger] text[i],
        ) by {
            if i < text.len() - 1 {
                assert(inner[i] == text[i]);
            }
        }
        range
    } else {
        assert(text.subrange(0, text.len() as int) =~= text);
        (0, text.len() as int)
    }
}

/// Whether `inner` is `text` from `start` to `end`, with nothing but white space
/// around it, and none at its own ends.
pub open spec fn stands_trimmed(text: Seq<char>, inner: Seq<char>, start: int, end: int) -> bool {
    &&& 0 <= start <= end <= text.len()
    &&& inner == text.subrange(start, end)
    &&& forall|i: int| 0 <= i < start ==> text::white_space(#[trigger] text[i])
    &&& forall|i: int| end <= i < text.len() ==> text::white_space(#[trigger] text[i])
    &&& start < end ==> !text::white_space(text[start]) && !text::white_space(text[end - 1])
}

/// Trimming cuts the white space off both ends of a text, all of it, and nothing
/// else.
pub proof fn trimming_cuts_white_space_off_both_ends(text: Seq<char>)
    ensures
        exists|start: int, end: int| stands_trimmed(text, text::trimmed(text), start, end),
{
    let (start, end) = lemma_trimmed_range(text);
    assert(stands_trimmed(text, text::trimmed(text), start, end));
}

/// A text is blank exactly where every character of it is white space. What is asked
/// for trimmed or not blank is there exactly where it is not blank, and stays as it
/// is, or trimmed.
pub proof fn a_blank_text_holds_nothing_but_white_space(text: Seq<char>)
    ensures
        text::blank(text) <==> forall|i: int|
            0 <= i < text.len() ==> text::white_space(#[trigger] text[i]),
        text::blank(text) ==> text::trimmed_non_empty(Some(text)) is None,
        !text::blank(text) ==> text::trimmed_non_empty(Some(text)) == Some(text::trimmed(text)),
        text::blank(text) ==> text::not_blank(Some(text)) is None,
        !text::blank(text) ==> text::not_blank(Some(text)) == Some(text),
        text::trimmed_non_empty(None) is None,
        text::not_blank(None) is None,
{
    let (start, end) = lemma_trimmed_range(text);
    assert(text::trimmed(text).len() == end - start);
}

/// Of two values the second counts only where the first is not there.
pub proof fn the_first_value_counts<T>(first: T, second: Option<T>)
    ensures
        text::or_else(Some(first), second) == Some(first),
        text::or_else(None, second) == second,
{
}

/// A text comes apart at the first place where the delimiter stands, and does not
/// come apart exactly where it stands nowhere.
pub proof fn a_text_comes_apart_at_the_first_delimiter(text: Seq<char>, delimiter: Seq<char>)
    ensures
        match text::split_first(text, delimiter) {
            Some((before, after)) => {
                &&& text == before + delimiter + after
                &&& forall|i: int|
                    0 <= i < before.len() ==> #[trigger] text.subrange(i, i + delimiter.len())
                        != delimiter
            },
            None => forall|i: int|
                0 <= i && i + delimiter.len() <= text.len() ==> #[trigger] text.subrange(
                    i,
                    i + delimiter.len(),
                ) != delimiter,
        },
{
    text::lemma_find_from(text, delimiter, 0);
    match text::find_from(text, delimiter, 0) {
        Some(at) => {
            let before = text.take(at);
            let after = text.skip(at + delimiter.len());
            assert(text::occurs_at(text, delimiter, at));
            assert(text =~= before + text.subrange(at, at + delimiter.len()) + after);
            assert forall|i: int| 0 <= i < before.len() implies #[trigger] text.subrange(
                i,
                i + delimiter.len(),
            ) != delimiter by {
                assert(!text::occurs_at(text, delimiter, i));
            }
        },
        None => {
            assert forall|i: int| 0 <= i && i + delimiter.len() <= text.len() implies
                #[trigger] text.subrange(i, i + delimiter.len()) != delimiter by {
                assert(!text::occurs_at(text, delimiter, i));
            }
        },
    }
}

/// Whether `a` and `b` agree before the index `at`, and `a` ends there or holds the
/// smaller character there.
pub open spec fn first_differs_at(a: Seq<char>, b: Seq<char>, at: int) -> bool {
    &&& 0 <= at <= a.len()
    &&& at < b.len()
    &&& a.take(at) == b.take(at)
    &&& at == a.len() || a[at] < b[at]
}

/// A text comes before another where it ends first, or holds the smaller character,
/// at the first place at which they differ.
pub proof fn texts_are_ordered_by_their_first_difference(a: Seq<char>, b: Seq<char>)
    ensures
        text::text_less(a, b) <==> exists|at: int| first_differs_at(a, b, at),
    decreases a.len(),
{
    if b.len() > 0 && a.len() > 0 && a[0] == b[0] {
        let a1 = a.drop_first();
        let b1 = b.drop_first();
        texts_are_ordered_by_their_first_difference(a1, b1);
        if text::text_less(a, b) {
            let at = choose|at: int| first_differs_at(a1, b1, at);
            assert(a.take(at + 1) =~= seq![a[0]] + a1.take(at));
            assert(b.take(at + 1) =~= seq![b[0]] + b1.take(at));
            assert(first_differs_at(a, b, at + 1));
        }
        if exists|at: int| first_differs_at(a, b, at) {
            let at = choose|at: int| first_differs_at(a, b, at);
            assert(at > 0);
            assert(a1.take(at - 1) =~= a.take(at).drop_first());
            assert(b1.take(at - 1) =~= b.take(at).drop_first());
            assert(first_differs_at(a1, b1, at - 1));
        }
    } else if b.len() > 0 {
        assert(a.take(0) =~= b.take(0));
        if text::text_less(a, b) {
            assert(first_differs_at(a, b, 0));
        }
        if exists|at: int| first_differs_at(a, b, at) {
            let at = choose|at: int| first_differs_at(a, b, at);
            if at > 0 {
                assert(a.take(at)[0] == a[0]);
                assert(b.take(at)[0] == b[0]);
            }
        }
    }
}

/// A number is read digit by digit, with at most one plus sign before the first; a
/// text with anything else in it is no number.
pub proof fn a_number_is_read_digit_by_digit(text: Seq<char>, digits: Seq<char>, digit: char)
    ensures
        text::decimal_u64(seq![]) is None,
        text::is_digit(digit) <==> '0' <= digit && digit <= '9',
        text::is_digit(digit) ==> text::decimal_u64(seq![digit]) == Some(
            (digit as u32 - '0' as u32) as u64,
        ),
        text::is_digit(digit) ==> text::decimal_value(digits.push(digit)) == text::decimal_value(
            digits,
        ) * 10 + (digit as u32 - '0' as u32),
        digits.len() > 0 && digits[0] != '+' ==> text::decimal_u64(seq!['+'] + digits)
            == text::decimal_u64(digits),
        digits.len() > 0 && (forall|i: int|
            0 <= i < digits.len() ==> text::is_digit(#[trigger] digits[i]))
            ==> text::decimal_u64(digits) == if text::decimal_value(digits) <= u64::MAX {
            Some(text::decimal_value(digits) as u64)
        } else {
            None
        },
        text::decimal_u64(text) is Some ==> forall|i: int|
            1 <= i < text.len() ==> text::is_digit(#[trigger] text[i]),
        text::decimal_u64(text) is Some ==> text::is_digit(text[0]) || text[0] == '+'
            && text.len() > 1,
{
    assert(digits.push(digit).drop_last() =~= digits);
    assert((seq!['+'] + digits).drop_first() =~= digits);
    let one = seq![digit];
    assert(one.drop_last() =~= Seq::<char>::empty());
    assert(text::decimal_value(one.drop_last()) == 0);
    if text.len() > 0 && text[0] == '+' && text::decimal_u64(text) is Some {
        let inner = text.drop_first();
        assert forall|i: int| 1 <= i < text.len() implies text::is_digit(#[trigger] text[i]) by {
            assert(inner[i - 1] == text[i]);
        }
    }
}

/// A text of ASCII characters is in lower case letter by letter, and any other one as
/// the standard library writes it.
pub proof fn lower_case_is_that_of_each_ascii_letter(text: Seq<char>)
    ensures
        text::all_ascii(text) ==> text::lower_case(text).len() == text.len() && forall|i: int|
            0 <= i < text.len() ==> #[trigger] text::lower_case(text)[i] == if 'A' <= text[i]
                && text[i] <= 'Z' {
                ((text[i] as u32 + 32) as u32) as char
            } else {
                text[i]
            },
        !text::all_ascii(text) ==> text::lower_case(text) == text::lowercase(text),
{
}

} // verus!
