//! Small text helpers: joining, counting whitespace-separated fields and
//! writing numbers in decimal.
use vstd::prelude::*;

verus! {

/// The characters with the Unicode `White_Space` property.
pub open spec fn is_white_space(c: char) -> bool {
    ||| '\u{9}' <= c <= '\u{d}'
    ||| c == '\u{20}'
    ||| c == '\u{85}'
    ||| c == '\u{a0}'
    ||| c == '\u{1680}'
    ||| '\u{2000}' <= c <= '\u{200a}'
    ||| c == '\u{2028}'
    ||| c == '\u{2029}'
    ||| c == '\u{202f}'
    ||| c == '\u{205f}'
    ||| c == '\u{3000}'
}

/// How many maximal runs of non-whitespace characters `s` has.
pub open spec fn field_count(s: Seq<char>) -> nat
    decreases s.len(),
{
    if s.len() == 0 {
        0
    } else if !is_white_space(s.last()) && (s.len() == 1 || is_white_space(s[s.len() - 2])) {
        field_count(s.drop_last()) + 1
    } else {
        field_count(s.drop_last())
    }
}

/// The characters of each of the texts.
pub open spec fn texts(strings: Seq<String>) -> Seq<Seq<char>> {
    strings.map_values(|s: String| s@)
}

/// The decimal digits of `n`, most significant first.
pub open spec fn decimal(n: nat) -> Seq<char>
    decreases n,
{
    if n < 10 {
        seq![digit_char(n)]
    } else {
        decimal(n / 10).push(digit_char(n % 10))
    }
}

pub open spec fn digit_char(d: nat) -> char {
    if d == 0 {
        '0'
    } else if d == 1 {
        '1'
    } else if d == 2 {
        '2'
    } else if d == 3 {
        '3'
    } else if d == 4 {
        '4'
    } else if d == 5 {
        '5'
    } else if d == 6 {
        '6'
    } else if d == 7 {
        '7'
    } else if d == 8 {
        '8'
    } else {
        '9'
    }
}

/// Whether `c` has the Unicode `White_Space` property.
pub fn is_space(c: char) -> (r: bool)
    ensures
        r == is_white_space(c),
{
    ('\u{9}' <= c && c <= '\u{d}') || c == '\u{20}' || c == '\u{85}' || c == '\u{a0}' || c
        == '\u{1680}' || ('\u{2000}' <= c && c <= '\u{200a}') || c == '\u{2028}' || c == '\u{2029}'
        || c == '\u{202f}' || c == '\u{205f}' || c == '\u{3000}'
}

/// Counts the whitespace-separated fields of `text`.
pub fn count_fields(text: &str) -> (r: usize)
    ensures
        r == field_count(text@),
{
    let length: usize = text.unicode_len();
    let mut index: usize = 0;
    let mut count: usize = 0;
    let mut after_space: bool = true;
    while index < length
        invariant
            length == text@.len(),
            index <= length,
            count == field_count(text@.take(index as int)),
            count <= index,
            after_space == (index == 0 || is_white_space(text@[index - 1])),
        decreases length - index,
    {
        let c = text.get_char(index);
        let space = is_space(c);
        proof {
            assert(text@.take(index + 1).drop_last() =~= text@.take(index as int));
        }
        if after_space && !space {
            count = count + 1;
        }
        after_space = space;
        index = index + 1;
    }
    assert(text@.take(length as int) =~= text@);
    count
}

fn digit_text(d: u128) -> (r: &'static str)
    requires
        d < 10,
    ensures
        r@ == seq![digit_char(d as nat)],
{
    proof {
        reveal_strlit("0");
        reveal_strlit("1");
        reveal_strlit("2");
        reveal_strlit("3");
        reveal_strlit("4");
        reveal_strlit("5");
        reveal_strlit("6");
        reveal_strlit("7");
        reveal_strlit("8");
        reveal_strlit("9");
    }
    if d == 0 {
        "0"
    } else if d == 1 {
        "1"
    } else if d == 2 {
        "2"
    } else if d == 3 {
        "3"
    } else if d == 4 {
        "4"
    } else if d == 5 {
        "5"
    } else if d == 6 {
        "6"
    } else if d == 7 {
        "7"
    } else if d == 8 {
        "8"
    } else {
        "9"
    }
}

/// Writes `n` in decimal.
pub fn decimal_text(n: u128) -> (r: String)
    ensures
        r@ == decimal(n as nat),
    decreases n,
{
    if n < 10 {
        digit_text(n).to_owned()
    } else {
        let mut text = decimal_text(n / 10);
        text.append(digit_text(n % 10));
        text
    }
}

/// The value of a decimal digit.
pub open spec fn digit_value(c: char) -> Option<nat> {
    if '0' <= c <= '9' {
        Some((c as int - '0' as int) as nat)
    } else {
        None
    }
}

/// The number that a row of decimal digits stands for; `None` where something
/// else is among them.
pub open spec fn digits_value(s: Seq<char>) -> Option<nat>
    decreases s.len(),
{
    if s.len() == 0 {
        Some(0)
    } else {
        match (digits_value(s.drop_last()), digit_value(s.last())) {
            (Some(front), Some(digit)) => Some(front * 10 + digit),
            _ => None,
        }
    }
}

/// A number without a plus sign before it.
pub open spec fn unsigned_body(s: Seq<char>) -> Seq<char> {
    if s.len() > 0 && s[0] == '+' {
        s.skip(1)
    } else {
        s
    }
}

/// The number that a text holds: decimal digits, perhaps with a plus sign
/// before them, and no more than `max`.
pub open spec fn unsigned_value(s: Seq<char>, max: nat) -> Option<nat> {
    if unsigned_body(s).len() == 0 {
        None
    } else {
        match digits_value(unsigned_body(s)) {
            Some(value) => if value <= max {
                Some(value)
            } else {
                None
            },
            None => None,
        }
    }
}

proof fn lemma_prefix_value(s: Seq<char>, length: nat)
    requires
        length <= s.len(),
    ensures
        digits_value(s) matches Some(value) ==> (digits_value(s.take(length as int)) matches Some(
            front,
        ) && front <= value),
    decreases s.len(),
{
    if length < s.len() {
        lemma_prefix_value(s.drop_last(), length);
        assert(s.drop_last().take(length as int) =~= s.take(length as int));
    } else {
        assert(s.take(length as int) =~= s);
    }
}

/// Reading the decimal digits of a number gives the number.
pub proof fn law_decimal_reads_back(n: nat)
    ensures
        digits_value(decimal(n)) == Some(n),
        decimal(n).len() > 0,
        unsigned_body(decimal(n)) == decimal(n),
        forall|max: nat| n <= max ==> #[trigger] unsigned_value(decimal(n), max) == Some(n),
    decreases n,
{
    lemma_decimal_digits(n);
    reveal_with_fuel(digits_value, 2);
    assert(digit_value(digit_char(n % 10)) == Some(n % 10));
    if n < 10 {
        assert(seq![digit_char(n)].drop_last() =~= Seq::<char>::empty());
        assert(seq![digit_char(n)].last() == digit_char(n % 10));
    } else {
        law_decimal_reads_back(n / 10);
        let front = decimal(n / 10);
        assert(front.push(digit_char(n % 10)).drop_last() =~= front);
        assert(n / 10 * 10 + n % 10 == n);
    }
}

/// Decimal texts are not empty and hold no sign.
pub proof fn lemma_decimal_digits(n: nat)
    ensures
        decimal(n).len() > 0,
        forall|i: int|
            0 <= i < decimal(n).len() ==> #[trigger] decimal(n)[i] != '+' && decimal(n)[i] != '-',
    decreases n,
{
    if n >= 10 {
        lemma_decimal_digits(n / 10);
        let front = decimal(n / 10);
        assert forall|i: int| 0 <= i < decimal(n).len() implies #[trigger] decimal(n)[i] != '+'
            && decimal(n)[i] != '-' by {
            if i < front.len() {
                assert(decimal(n)[i] == front[i]);
            }
        }
    }
}

/// Reads a number that is no more than `max`.
pub fn parse_unsigned(text: &str, max: u64) -> (r: Option<u64>)
    ensures
        match r {
            Some(value) => unsigned_value(text@, max as nat) == Some(value as nat),
            None => unsigned_value(text@, max as nat) is None,
        },
{
    let length: usize = text.unicode_len();
    let mut start: usize = 0;
    if length > 0 && text.get_char(0) == '+' {
        start = 1;
    }
    if start == length {
        return None;
    }
    let ghost body = unsigned_body(text@);
    let mut value: u64 = 0;
    let mut index: usize = start;
    assert(body.take(0) =~= Seq::<char>::empty());
    assert(start == 0 ==> body =~= text@);
    while index < length
        invariant
            length == text@.len(),
            start <= index <= length,
            start < length,
            start <= 1,
            body == unsigned_body(text@),
            body.len() == length - start,
            forall|i: int| 0 <= i < body.len() ==> #[trigger] body[i] == text@[i + start],
            value <= max,
            digits_value(body.take(index - start)) == Some(value as nat),
        decreases length - index,
    {
        let c = text.get_char(index);
        let ghost longer = body.take(index - start + 1);
        proof {
            assert(longer.drop_last() =~= body.take(index - start));
            assert(longer.last() == c);
            lemma_prefix_value(body, (index - start + 1) as nat);
        }
        if !('0' <= c && c <= '9') {
            return None;
        }
        let digit: u64 = c as u64 - 48;
        let next: u128 = value as u128 * 10 + digit as u128;
        if next > max as u128 {
            return None;
        }
        value = next as u64;
        index = index + 1;
    }
    assert(body.take(index - start) =~= body);
    Some(value)
}

/// A character with an ASCII capital letter made small.
pub open spec fn ascii_lower(c: char) -> char {
    if 'A' <= c <= 'Z' {
        (c as int + 32) as char
    } else {
        c
    }
}

/// Whether a text is a word of small letters, whatever the case of its ASCII
/// letters.
pub fn is_word_ignoring_case(text: &str, word: &str) -> (r: bool)
    ensures
        r == (text@.map_values(|c: char| ascii_lower(c)) == word@),
{
    let length: usize = text.unicode_len();
    let ghost lower = text@.map_values(|c: char| ascii_lower(c));
    if length != word.unicode_len() {
        return false;
    }
    let mut index: usize = 0;
    while index < length
        invariant
            length == text@.len(),
            length == word@.len(),
            index <= length,
            lower == text@.map_values(|c: char| ascii_lower(c)),
            forall|i: int| 0 <= i < index ==> #[trigger] lower[i] == word@[i],
        decreases length - index,
    {
        let c = text.get_char(index);
        let small = if 'A' <= c && c <= 'Z' {
            (c as u8 + 32) as char
        } else {
            c
        };
        assert(small == lower[index as int]);
        if small != word.get_char(index) {
            return false;
        }
        index = index + 1;
    }
    assert(lower =~= word@);
    true
}

/// Whether two texts hold the same characters.
pub fn same_text(left: &str, right: &str) -> (r: bool)
    ensures
        r == (left@ == right@),
{
    left.to_owned() == right.to_owned()
}

/// The two texts, one after the other.
pub fn join2(first: &str, second: &str) -> (r: String)
    ensures
        r@ == first@ + second@,
{
    let mut text = first.to_owned();
    text.append(second);
    text
}

/// The three texts, one after the other.
pub fn join3(first: &str, second: &str, third: &str) -> (r: String)
    ensures
        r@ == first@ + second@ + third@,
{
    let mut text = first.to_owned();
    text.append(second);
    text.append(third);
    text
}

/// Reading what was written of a number gives the number back, unless it is more
/// than is asked for.
pub proof fn law_call_number_round_trip(
    n: u64,
    max: u64,
    written: String,
    read: &str,
    r: Option<u64>,
)
    requires
        call_ensures(decimal_text, (n as u128,), written),
        read@ == written@,
        call_ensures(parse_unsigned, (read, max), r),
    ensures
        n <= max ==> r == Some(n),
        n > max ==> r is None,
{
    law_decimal_reads_back(n as nat);
}

/// Fields are counted where they begin: white space adds none, and another
/// character adds one exactly where it comes first or after white space.
pub proof fn law_fields_begin(s: Seq<char>, c: char)
    ensures
        field_count(Seq::empty()) == 0,
        is_white_space(c) ==> field_count(s.push(c)) == field_count(s),
        !is_white_space(c) && (s.len() == 0 || is_white_space(s.last())) ==> field_count(s.push(c))
            == field_count(s) + 1,
        !is_white_space(c) && s.len() > 0 && !is_white_space(s.last()) ==> field_count(s.push(c))
            == field_count(s),
{
    assert(s.push(c).drop_last() =~= s);
}

/// What separates fields, and what a cron expression is written with.
pub proof fn law_white_space(c: char)
    ensures
        is_white_space(' '),
        is_white_space('\t'),
        is_white_space('\n'),
        is_white_space('\r'),
        '!' <= c <= '~' ==> !is_white_space(c),
{
}

/// A number in digits: each digit is that of the remainder by ten, after the
/// digits of the rest.
pub proof fn law_decimal_digits(n: nat)
    ensures
        decimal(n).last() as int == '0' as int + n % 10,
        n >= 10 ==> decimal(n).drop_last() == decimal(n / 10),
        n < 10 ==> decimal(n).len() == 1,
{
    if n >= 10 {
        assert(decimal(n).drop_last() =~= decimal(n / 10));
    }
}

} // verus!
