//! Text handling for the dialogue: decimal numerals and surrounding white space.

use vstd::prelude::*;

verus! {

/// The character that writes the digit `d`.
pub open spec fn digit_char(d: nat) -> char
    recommends
        d < 10,
{
    if d == 0 {
        '0'
    } else if d == 1 {
        '1'
    } else if d == 2 {
        '2'
    } else if d == 3 {
        '3'
    } else if d == 4 {
        '4'
    } else if d == 5 {
        '5'
    } else if d == 6 {
        '6'
    } else if d == 7 {
        '7'
    } else if d == 8 {
        '8'
    } else {
        '9'
    }
}

/// The decimal numeral of `n`: most significant digit first, no sign, and no
/// leading zero except for zero itself.
pub open spec fn decimal(n: nat) -> Seq<char>
    decreases n,
{
    if n < 10 {
        seq![digit_char(n)]
    } else {
        decimal(n / 10).push(digit_char(n % 10))
    }
}

/// The one-character text of the digit `d`.
fn digit_text(d: usize) -> (text: &'static str)
    requires
        d < 10,
    ensures
        text@ == seq![digit_char(d as nat)],
{
    proof {
        reveal_strlit("0");
        reveal_strlit("1");
        reveal_strlit("2");
        reveal_strlit("3");
        reveal_strlit("4");
        reveal_strlit("5");
        reveal_strlit("6");
        reveal_strlit("7");
        reveal_strlit("8");
        reveal_strlit("9");
    }
    if d == 0 {
        "0"
    } else if d == 1 {
        "1"
    } else if d == 2 {
        "2"
    } else if d == 3 {
        "3"
    } else if d == 4 {
        "4"
    } else if d == 5 {
        "5"
    } else if d == 6 {
        "6"
    } else if d == 7 {
        "7"
    } else if d == 8 {
        "8"
    } else {
        "9"
    }
}

/// Writes `n` as a decimal numeral.
pub fn decimal_string(n: usize) -> (text: String)
    ensures
        text@ == decimal(n as nat),
    decreases n,
{
    if n < 10 {
        String::from_str(digit_text(n))
    } else {
        let mut text = decimal_string(n / 10);
        text.append(digit_text(n % 10));
        text
    }
}

/// White space as Unicode's `White_Space` property has it.
pub open spec fn is_space(c: char) -> bool {
    let code = c as u32;
    ||| 0x09 <= code <= 0x0D
    ||| code == 0x20
    ||| code == 0x85
    ||| code == 0xA0
    ||| code == 0x1680
    ||| 0x2000 <= code <= 0x200A
    ||| code == 0x2028
    ||| code == 0x2029
    ||| code == 0x202F
    ||| code == 0x205F
    ||| code == 0x3000
}

/// `text` from its first character that is no white space.
pub open spec fn without_leading_space(text: Seq<char>) -> Seq<char>
    decreases text.len(),
{
    if text.len() > 0 && is_space(text.first()) {
        without_leading_space(text.drop_first())
    } else {
        text
    }
}

/// `text` up to its last character that is no white space.
pub open spec fn without_trailing_space(text: Seq<char>) -> Seq<char>
    decreases text.len(),
{
    if text.len() > 0 && is_space(text.last()) {
        without_trailing_space(text.drop_last())
    } else {
        text
    }
}

/// `text` without the white space before and after it.
pub open spec fn trimmed(text: Seq<char>) -> Seq<char> {
    without_trailing_space(without_leading_space(text))
}

/// Where white space fills `text` before `from`, and `from` is the end of
/// `text` or holds another character, the text from `from` on is what
/// [`without_leading_space`] gives.
proof fn lemma_leading_space(text: Seq<char>, from: int)
    requires
        0 <= from <= text.len(),
        forall|j: int| 0 <= j < from ==> is_space(text[j]),
        from < text.len() ==> !is_space(text[from]),
    ensures
        without_leading_space(text) == text.subrange(from, text.len() as int),
    decreases from,
{
    if from > 0 {
        lemma_leading_space(text.drop_first(), from - 1);
    }
}

/// Where white space fills `text` from `to` on, and `to` is the start of
/// `text` or follows another character, the text before `to` is what
/// [`without_trailing_space`] gives.
proof fn lemma_trailing_space(text: Seq<char>, to: int)
    requires
        0 <= to <= text.len(),
        forall|j: int| to <= j < text.len() ==> is_space(text[j]),
        0 < to ==> !is_space(text[to - 1]),
    ensures
        without_trailing_space(text) == text.subrange(0, to),
    decreases text.len() - to,
{
    if to < text.len() {
        lemma_trailing_space(text.drop_last(), to);
    }
}

/// The trimmed text is the stretch between the white space that leads and
/// the white space that trails: where only white space lies outside
/// `from..to`, and that stretch is empty or starts and ends with another
/// character, it is [`trimmed`]`(text)`.
pub proof fn lemma_trimmed_stretch(text: Seq<char>, from: int, to: int)
    requires
        0 <= from <= to <= text.len(),
        forall|j: int| 0 <= j < from ==> is_space(text[j]),
        forall|j: int| to <= j < text.len() ==> is_space(text[j]),
        from < to ==> !is_space(text[from]) && !is_space(text[to - 1]),
    ensures
        trimmed(text) == text.subrange(from, to),
{
    if from == to {
        lemma_leading_space(text, text.len() as int);
    } else {
        lemma_leading_space(text, from);
        lemma_trailing_space(text.subrange(from, text.len() as int), to - from);
    }
}

/// Whether `c` is white space.
pub fn is_whitespace(c: char) -> (space: bool)
    ensures
        space == is_space(c),
{
    let code = c as u32;
    (0x09 <= code && code <= 0x0D)
        || code == 0x20
        || code == 0x85
        || code == 0xA0
        || code == 0x1680
        || (0x2000 <= code && code <= 0x200A)
        || code == 0x2028
        || code == 0x2029
        || code == 0x202F
        || code == 0x205F
        || code == 0x3000
}

/// The part of `text` between its leading and its trailing white space.
pub fn trim(text: &str) -> (core: &str)
    ensures
        core@ == trimmed(text@),
{
    let length = text.unicode_len();
    let mut from: usize = 0;
    let mut to: usize = 0;
    let mut at: usize = 0;
    for c in it: text.chars()
        invariant
            it.seq() == text@,
            text@.len() == length,
            at == it.index(),
            from <= to <= at,
            from == to ==> forall|j: int| 0 <= j < at ==> is_space(text@[j]),
            from < to ==> !is_space(text@[from as int]) && !is_space(text@[to - 1]),
            forall|j: int| 0 <= j < from ==> is_space(text@[j]),
            forall|j: int| to <= j < at ==> is_space(text@[j]),
    {
        if !is_whitespace(c) {
            if from == to {
                from = at;
            }
            to = at + 1;
        }
        at += 1;
    }
    proof {
        lemma_trimmed_stretch(text@, from as int, to as int);
    }
    text.substring_char(from, to)
}

/// Whether `c` is one of the ten digits.
pub open spec fn is_digit(c: char) -> bool {
    0x30 <= c as u32 <= 0x39
}

/// The number that the digit `c` writes; zero for any other character.
pub open spec fn digit_value(c: char) -> nat {
    if is_digit(c) {
        (c as u32 - 0x30) as nat
    } else {
        0
    }
}

/// The number that `digits` writes in base ten.
pub open spec fn numeral_value(digits: Seq<char>) -> nat
    decreases digits.len(),
{
    if digits.len() == 0 {
        0
    } else {
        10 * numeral_value(digits.drop_last()) + digit_value(digits.last())
    }
}

/// Whether `digits` is a numeral: one digit or more, and nothing else.
pub open spec fn is_numeral(digits: Seq<char>) -> bool {
    &&& digits.len() > 0
    &&& forall|i: int| 0 <= i < digits.len() ==> is_digit(digits[i])
}

/// `text` without the plus sign that may lead it.
pub open spec fn unsigned(text: Seq<char>) -> Seq<char> {
    if text.len() > 0 && text[0] == '+' {
        text.drop_first()
    } else {
        text
    }
}

/// The task number that `text` writes: `text` is a numeral, a plus sign
/// before it or not, and its value fits the machine word. Any other text
/// writes no number.
pub open spec fn parsed_id(text: Seq<char>) -> Option<usize> {
    let digits = unsigned(text);
    if is_numeral(digits) && numeral_value(digits) <= usize::MAX {
        Some(numeral_value(digits) as usize)
    } else {
        None
    }
}

/// A numeral is worth no less than any of its beginnings.
proof fn lemma_numeral_prefix(digits: Seq<char>, k: int)
    requires
        0 <= k <= digits.len(),
    ensures
        numeral_value(digits.take(k)) <= numeral_value(digits),
    decreases digits.len() - k,
{
    if k == digits.len() {
        assert(digits.take(k) =~= digits);
    } else {
        lemma_numeral_prefix(digits.drop_last(), k);
        assert(digits.drop_last().take(k) =~= digits.take(k));
    }
}

/// A decimal numeral is a numeral, and is worth the number it was written
/// for.
proof fn lemma_decimal_is_numeral(n: nat)
    ensures
        is_numeral(decimal(n)),
        numeral_value(decimal(n)) == n,
    decreases n,
{
    if n < 10 {
        assert(numeral_value(decimal(n).drop_last()) == 0);
    } else {
        lemma_decimal_is_numeral(n / 10);
        assert(decimal(n).drop_last() =~= decimal(n / 10));
    }
}

/// What [`decimal_string`] writes, [`parse_id`] reads back: the number that a
/// listing shows for a task is a number that the dialogue accepts for it.
pub proof fn lemma_parse_reads_decimal(n: usize)
    ensures
        parsed_id(decimal(n as nat)) == Some(n),
{
    lemma_decimal_is_numeral(n as nat);
}

/// Reads a task number: see [`parsed_id`].
pub fn parse_id(text: &str) -> (id: Option<usize>)
    ensures
        id == parsed_id(text@),
{
    let length = text.unicode_len();
    let digits = if length > 0 && text.get_char(0) == '+' {
        text.substring_char(1, length)
    } else {
        text
    };
    let count = digits.unicode_len();
    let mut value: usize = 0;
    let mut at: usize = 0;
    for c in it: digits.chars()
        invariant
            it.seq() == digits@,
            digits@ == unsigned(text@),
            digits@.len() == count,
            at == it.index(),
            forall|j: int| 0 <= j < at ==> is_digit(digits@[j]),
            value == numeral_value(digits@.take(at as int)),
    {
        let code = c as u32;
        if code < 0x30 || code > 0x39 {
            return None;
        }
        let digit = (code - 0x30) as usize;
        proof {
            let read = digits@.take(at + 1);
            assert(read.drop_last() =~= digits@.take(at as int));
            lemma_numeral_prefix(digits@, at + 1);
        }
        if value > (usize::MAX - digit) / 10 {
            return None;
        }
        value = value * 10 + digit;
        at += 1;
    }
    assert(digits@.take(at as int) =~= digits@);
    if at == 0 {
        None
    } else {
        Some(value)
    }
}

} // verus!
