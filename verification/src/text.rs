//! Text as sequences of characters: trimming, searching, ordering and
//! reading of numbers.
use vstd::prelude::*;
use vstd::string::*;

verus! {

/// The model of an optional value: the model of what is there.
pub open spec fn view_opt<T: View>(value: Option<T>) -> Option<T::V> {
    match value {
        Some(inner) => Some(inner@),
        None => None,
    }
}

/// `first` where it is there, and `second` otherwise.
pub open spec fn or_else<T>(first: Option<T>, second: Option<T>) -> Option<T> {
    match first {
        Some(_) => first,
        None => second,
    }
}

/// The texts of `strings`.
pub open spec fn texts(strings: Seq<String>) -> Seq<Seq<char>> {
    strings.map_values(|s: String| s@)
}

/// The characters with the Unicode property `White_Space`.
pub open spec fn white_space(c: char) -> bool {
    ||| 0x9 <= c as u32 <= 0xd
    ||| c as u32 == 0x20
    ||| c as u32 == 0x85
    ||| c as u32 == 0xa0
    ||| c as u32 == 0x1680
    ||| 0x2000 <= c as u32 <= 0x200a
    ||| c as u32 == 0x2028
    ||| c as u32 == 0x2029
    ||| c as u32 == 0x202f
    ||| c as u32 == 0x205f
    ||| c as u32 == 0x3000
}

/// `text` without the white space at its two ends.
pub open spec fn trimmed(text: Seq<char>) -> Seq<char>
    decreases text.len(),
{
    if text.len() > 0 && white_space(text.first()) {
        trimmed(text.drop_first())
    } else if text.len() > 0 && white_space(text.last()) {
        trimmed(text.drop_last())
    } else {
        text
    }
}

/// Whether nothing but white space stands in `text`.
pub open spec fn blank(text: Seq<char>) -> bool {
    trimmed(text).len() == 0
}

/// `value` trimmed, and nothing where that leaves no character.
pub open spec fn trimmed_non_empty(value: Option<Seq<char>>) -> Option<Seq<char>> {
    match value {
        Some(text) => if blank(text) {
            None
        } else {
            Some(trimmed(text))
        },
        None => None,
    }
}

/// `value` as it is, and nothing where it is blank.
pub open spec fn not_blank(value: Option<Seq<char>>) -> Option<Seq<char>> {
    match value {
        Some(text) => if blank(text) {
            None
        } else {
            Some(text)
        },
        None => None,
    }
}

/// Whether `part` stands in `text` at the index `at`.
pub open spec fn occurs_at(text: Seq<char>, part: Seq<char>, at: int) -> bool {
    &&& 0 <= at
    &&& at + part.len() <= text.len()
    &&& text.subrange(at, at + part.len()) == part
}

/// Whether `part` stands anywhere in `text`.
pub open spec fn occurs(text: Seq<char>, part: Seq<char>) -> bool {
    exists|at: int| occurs_at(text, part, at)
}

/// The first index, from `from` on, at which `part` stands in `text`.
pub open spec fn find_from(text: Seq<char>, part: Seq<char>, from: int) -> Option<int>
    decreases text.len() + 1 - from,
{
    if from < 0 || from + part.len() > text.len() {
        None
    } else if occurs_at(text, part, from) {
        Some(from)
    } else {
        find_from(text, part, from + 1)
    }
}

/// What stands before and after the first `delimiter` in `text`.
pub open spec fn split_first(text: Seq<char>, delimiter: Seq<char>) -> Option<
    (Seq<char>, Seq<char>),
> {
    match find_from(text, delimiter, 0) {
        Some(at) => Some((text.take(at), text.skip(at + delimiter.len()))),
        None => None,
    }
}

/// The order of texts: by the code points at the first place where they differ,
/// and a proper prefix before the longer text.
pub open spec fn text_less(a: Seq<char>, b: Seq<char>) -> bool
    decreases a.len(),
{
    if b.len() == 0 {
        false
    } else if a.len() == 0 {
        true
    } else if a[0] != b[0] {
        a[0] < b[0]
    } else {
        text_less(a.drop_first(), b.drop_first())
    }
}

/// Whether `c` is one of `0` to `9`.
pub open spec fn is_digit(c: char) -> bool {
    '0' <= c <= '9'
}

/// The number that the decimal digits in `digits` write.
pub open spec fn decimal_value(digits: Seq<char>) -> nat
    decreases digits.len(),
{
    if digits.len() == 0 {
        0
    } else {
        decimal_value(digits.drop_last()) * 10 + (digits.last() as u32 - '0' as u32) as nat
    }
}

/// The digits of `text`: all of it but one leading plus sign.
pub open spec fn unsigned_digits(text: Seq<char>) -> Seq<char> {
    if text.len() > 0 && text[0] == '+' {
        text.drop_first()
    } else {
        text
    }
}

/// The unsigned number that `text` writes in decimal, where it writes one that
/// fits.
pub open spec fn decimal_u64(text: Seq<char>) -> Option<u64> {
    let digits = unsigned_digits(text);
    if digits.len() > 0 && (forall|i: int| 0 <= i < digits.len() ==> is_digit(#[trigger] digits[i]))
        && decimal_value(digits) <= u64::MAX {
        Some(decimal_value(digits) as u64)
    } else {
        None
    }
}

/// `c` in lower case where it is one of `A` to `Z`, and `c` itself otherwise.
pub open spec fn ascii_lower(c: char) -> char {
    if 'A' <= c <= 'Z' {
        ((c as u32 + 32) as u32) as char
    } else {
        c
    }
}

/// `text` with its ASCII letters in lower case.
pub open spec fn ascii_lowercase(text: Seq<char>) -> Seq<char> {
    text.map_values(|c: char| ascii_lower(c))
}

/// Whether every character of `text` is an ASCII character.
pub open spec fn all_ascii(text: Seq<char>) -> bool {
    forall|i: int| 0 <= i < text.len() ==> (#[trigger] text[i] as u32) < 128
}

/// `text` in lower case, as `str::to_lowercase` writes it.
pub uninterp spec fn lowercase(text: Seq<char>) -> Seq<char>;

/// `str::to_lowercase` is a function of the text alone, and on a text of ASCII
/// characters it is the lower case of each letter.
pub assume_specification[ str::to_lowercase ](s: &str) -> (result: String)
    ensures
        result@ == lowercase(s@),
        all_ascii(s@) ==> result@ == ascii_lowercase(s@),
;

/// `str::to_ascii_lowercase` maps the letters `A` to `Z` and leaves every other
/// character as it is.
pub assume_specification[ str::to_ascii_lowercase ](s: &str) -> (result: String)
    ensures
        result@ == ascii_lowercase(s@),
;

/// `text` in lower case: letter by letter where it holds ASCII characters alone, and
/// as `str::to_lowercase` writes it otherwise.
pub open spec fn lower_case(text: Seq<char>) -> Seq<char> {
    if all_ascii(text) {
        ascii_lowercase(text)
    } else {
        lowercase(text)
    }
}

/// Whether two texts are the same.
pub fn same_text(a: &str, b: &str) -> (result: bool)
    ensures
        result == (a@ == b@),
{
    a.to_owned() == b.to_owned()
}

/// Whether two optional texts are the same.
pub fn same_opt(a: Option<&str>, b: Option<&str>) -> (result: bool)
    ensures
        result == (view_opt(a) == view_opt(b)),
{
    match (a, b) {
        (Some(left), Some(right)) => same_text(left, right),
        (None, None) => true,
        _ => false,
    }
}

/// A borrow of an optional text.
pub fn as_text(value: &Option<String>) -> (result: Option<&str>)
    ensures
        view_opt(result) == view_opt(*value),
{
    match value {
        Some(text) => Some(text.as_str()),
        None => None,
    }
}

/// An owned copy of an optional text.
pub fn to_text(value: Option<&str>) -> (result: Option<String>)
    ensures
        view_opt(result) == view_opt(value),
{
    match value {
        Some(text) => Some(text.to_owned()),
        None => None,
    }
}

/// A copy of an optional text.
pub fn copy_text(value: &Option<String>) -> (result: Option<String>)
    ensures
        view_opt(result) == view_opt(*value),
{
    to_text(as_text(value))
}

/// The characters of `text`.
pub fn characters(text: &str) -> (result: Vec<char>)
    ensures
        result@ == text@,
{
    let mut result: Vec<char> = Vec::new();
    for c in iter: text.chars()
        invariant
            result@ == iter.seq().take(iter.index() as int),
            iter.seq() == text@,
    {
        result.push(c);
    }
    result
}

/// Whether `c` is white space.
pub fn is_white_space(c: char) -> (result: bool)
    ensures
        result == white_space(c),
{
    let code: u32 = c as u32;
    (0x9 <= code && code <= 0xd) || code == 0x20 || code == 0x85 || code == 0xa0 || code == 0x1680
        || (0x2000 <= code && code <= 0x200a) || code == 0x2028 || code == 0x2029 || code == 0x202f
        || code == 0x205f || code == 0x3000
}

/// `text` without the white space at its two ends.
pub fn trim(text: &str) -> (result: &str)
    ensures
        result@ == trimmed(text@),
{
    let chars = characters(text);
    let mut start: usize = 0;
    let mut end: usize = chars.len();
    assert(text@.subrange(0, text@.len() as int) == text@);
    while start < end && is_white_space(chars[start])
        invariant
            start <= end == chars@.len(),
            chars@ == text@,
            trimmed(text@) == trimmed(text@.subrange(start as int, end as int)),
        decreases end - start,
    {
        assert(text@.subrange(start as int, end as int).drop_first() == text@.subrange(
            start + 1,
            end as int,
        ));
        start += 1;
    }
    while start < end && is_white_space(chars[end - 1])
        invariant
            start <= end <= chars@.len(),
            start < end ==> !white_space(text@[start as int]),
            chars@ == text@,
            trimmed(text@) == trimmed(text@.subrange(start as int, end as int)),
        decreases end - start,
    {
        assert(text@.subrange(start as int, end as int).drop_last() == text@.subrange(
            start as int,
            end - 1,
        ));
        end -= 1;
    }
    text.substring_char(start, end)
}

/// `value` trimmed, and nothing where that leaves no character.
pub fn non_empty(value: Option<&str>) -> (result: Option<&str>)
    ensures
        view_opt(result) == trimmed_non_empty(view_opt(value)),
{
    match value {
        Some(text) => {
            let inner = trim(text);
            if inner.is_empty() {
                None
            } else {
                Some(inner)
            }
        },
        None => None,
    }
}

/// Whether nothing but white space stands in `text`.
pub fn is_blank(text: &str) -> (result: bool)
    ensures
        result == blank(text@),
{
    trim(text).is_empty()
}

/// Whether `part` stands in `text` at the index `at`.
fn stands_at(text: &Vec<char>, part: &Vec<char>, at: usize) -> (result: bool)
    requires
        at + part@.len() <= text@.len(),
    ensures
        result == occurs_at(text@, part@, at as int),
{
    let mut i: usize = 0;
    while i < part.len()
        invariant
            i <= part@.len(),
            at + part.len() <= text.len(),
            forall|j: int| 0 <= j < i ==> text@[at + j] == part@[j],
        decreases part@.len() - i,
    {
        if text[at + i] != part[i] {
            assert(text@.subrange(at as int, at + part@.len())[i as int] != part@[i as int]);
            return false;
        }
        i += 1;
    }
    assert(text@.subrange(at as int, at + part@.len()) =~= part@);
    true
}

/// What stands before and after the first `delimiter` in `text`.
pub fn split_once<'a>(text: &'a str, delimiter: &str) -> (result: Option<(&'a str, &'a str)>)
    ensures
        match result {
            Some(parts) => split_first(text@, delimiter@) == Some((parts.0@, parts.1@)),
            None => split_first(text@, delimiter@) is None,
        },
{
    let chars = characters(text);
    let part = characters(delimiter);
    if part.len() > chars.len() {
        return None;
    }
    let last: usize = chars.len() - part.len();
    let mut at: usize = 0;
    while at <= last
        invariant
            at <= last + 1,
            last + part@.len() == chars@.len(),
            chars@ == text@,
            part@ == delimiter@,
            chars@.len() <= usize::MAX,
            find_from(text@, delimiter@, 0) == find_from(text@, delimiter@, at as int),
        decreases last + 1 - at,
    {
        if stands_at(&chars, &part, at) {
            let before = text.substring_char(0, at);
            let after = text.substring_char(at + part.len(), chars.len());
            assert(before@ == text@.take(at as int));
            assert(after@ == text@.skip(at + delimiter@.len()));
            return Some((before, after));
        }
        if at == last {
            assert(find_from(text@, delimiter@, at + 1) is None);
            return None;
        }
        at += 1;
    }
    None
}

/// Whether `a` comes before `b` in the order of texts.
pub fn text_before(a: &str, b: &str) -> (result: bool)
    ensures
        result == text_less(a@, b@),
{
    let left = characters(a);
    let right = characters(b);
    let mut i: usize = 0;
    assert(a@.skip(0) == a@);
    assert(b@.skip(0) == b@);
    while i < left.len() && i < right.len()
        invariant
            i <= left@.len(),
            i <= right@.len(),
            left@ == a@,
            right@ == b@,
            text_less(a@, b@) == text_less(a@.skip(i as int), b@.skip(i as int)),
        decreases left@.len() - i,
    {
        assert(a@.skip(i as int)[0] == a@[i as int]);
        assert(b@.skip(i as int)[0] == b@[i as int]);
        if left[i] != right[i] {
            return left[i] < right[i];
        }
        assert(a@.skip(i as int).drop_first() == a@.skip(i + 1));
        assert(b@.skip(i as int).drop_first() == b@.skip(i + 1));
        i += 1;
    }
    left.len() < right.len()
}

/// The unsigned number that `text` writes in decimal, with an optional plus sign
/// before the digits.
pub fn parse_u64(text: &str) -> (result: Option<u64>)
    ensures
        result == decimal_u64(text@),
{
    let chars = characters(text);
    let start: usize = if chars.len() > 0 && chars[0] == '+' {
        1
    } else {
        0
    };
    let ghost digits = unsigned_digits(text@);
    assert(digits == text@.skip(start as int));
    if start == chars.len() {
        return None;
    }
    let mut value: u64 = 0;
    let mut i: usize = start;
    assert(digits.take(0).len() == 0);
    while i < chars.len()
        invariant
            start <= i <= chars@.len(),
            chars@ == text@,
            start < chars@.len(),
            digits == unsigned_digits(text@),
            digits == text@.skip(start as int),
            forall|j: int| 0 <= j < i - start ==> is_digit(#[trigger] digits[j]),
            value == decimal_value(digits.take(i - start)),
        decreases chars@.len() - i,
    {
        let c = chars[i];
        assert(digits[i - start] == c);
        if !('0' <= c && c <= '9') {
            return None;
        }
        assert(digits.take(i + 1 - start).drop_last() == digits.take(i - start));
        let wide: u128 = value as u128 * 10 + (c as u32 - '0' as u32) as u128;
        assert(wide == decimal_value(digits.take(i + 1 - start)));
        if wide > u64::MAX as u128 {
            proof {
                lemma_decimal_grows(digits, i + 1 - start);
            }
            return None;
        }
        value = wide as u64;
        i += 1;
    }
    assert(digits.take(i - start) == digits);
    Some(value)
}

/// `find_from` gives the first of the places at which `part` stands.
pub proof fn lemma_find_from(text: Seq<char>, part: Seq<char>, from: int)
    requires
        0 <= from,
    ensures
        match find_from(text, part, from) {
            Some(at) => {
                &&& from <= at
                &&& occurs_at(text, part, at)
                &&& forall|j: int| from <= j < at ==> !#[trigger] occurs_at(text, part, j)
            },
            None => forall|j: int| from <= j ==> !#[trigger] occurs_at(text, part, j),
        },
    decreases text.len() + 1 - from,
{
    if from + part.len() <= text.len() && !occurs_at(text, part, from) {
        lemma_find_from(text, part, from + 1);
    }
}

/// A place before which `part` stands nowhere is where `find_from` finds it.
pub proof fn lemma_first_is_found(text: Seq<char>, part: Seq<char>, at: int)
    requires
        occurs_at(text, part, at),
        forall|j: int| 0 <= j < at ==> !#[trigger] occurs_at(text, part, j),
    ensures
        find_from(text, part, 0) == Some(at),
{
    lemma_find_from(text, part, 0);
}

/// The order of texts is a strict total order.
pub proof fn text_order_is_total(a: Seq<char>, b: Seq<char>, c: Seq<char>)
    ensures
        !text_less(a, a),
        text_less(a, b) ==> !text_less(b, a),
        a != b ==> text_less(a, b) || text_less(b, a),
        text_less(a, b) && text_less(b, c) ==> text_less(a, c),
{
    lemma_text_less_asymmetric(a, a);
    lemma_text_less_asymmetric(a, b);
    lemma_text_less_connected(a, b);
    lemma_text_less_transitive(a, b, c);
}

proof fn lemma_text_less_asymmetric(a: Seq<char>, b: Seq<char>)
    ensures
        text_less(a, b) ==> !text_less(b, a),
    decreases a.len(),
{
    if a.len() > 0 && b.len() > 0 && a[0] == b[0] {
        lemma_text_less_asymmetric(a.drop_first(), b.drop_first());
    }
}

proof fn lemma_text_less_connected(a: Seq<char>, b: Seq<char>)
    ensures
        a != b ==> text_less(a, b) || text_less(b, a),
    decreases a.len(),
{
    if a.len() > 0 && b.len() > 0 {
        if a[0] == b[0] {
            lemma_text_less_connected(a.drop_first(), b.drop_first());
            if a.drop_first() == b.drop_first() {
                assert(a == seq![a[0]] + a.drop_first());
                assert(b == seq![b[0]] + b.drop_first());
            }
        }
    } else if a.len() == 0 && b.len() == 0 {
        assert(a == b);
    }
}

proof fn lemma_text_less_transitive(a: Seq<char>, b: Seq<char>, c: Seq<char>)
    ensures
        text_less(a, b) && text_less(b, c) ==> text_less(a, c),
    decreases a.len(),
{
    if a.len() > 0 && b.len() > 0 && c.len() > 0 && a[0] == b[0] && b[0] == c[0] {
        lemma_text_less_transitive(a.drop_first(), b.drop_first(), c.drop_first());
    }
}

/// A text of digits writes at least what each of its beginnings writes.
proof fn lemma_decimal_grows(digits: Seq<char>, len: int)
    requires
        0 <= len <= digits.len(),
    ensures
        decimal_value(digits.take(len)) <= decimal_value(digits),
    decreases digits.len() - len,
{
    if len < digits.len() {
        assert(digits.take(len + 1).drop_last() == digits.take(len));
        lemma_decimal_grows(digits, len + 1);
    } else {
        assert(digits.take(len) == digits);
    }
}

} // verus!
