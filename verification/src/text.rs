//! The little text the renderer reads and writes: settings out of the
//! environment, names and numbers into the log.

use vstd::prelude::*;
use vstd::string::*;

verus! {

/// Unicode's white space.
pub open spec fn is_white(c: char) -> bool {
    let code = c as u32;
    ||| 0x9 <= code <= 0xD
    ||| code == 0x20
    ||| code == 0x85
    ||| code == 0xA0
    ||| code == 0x1680
    ||| 0x2000 <= code <= 0x200A
    ||| code == 0x2028
    ||| code == 0x2029
    ||| code == 0x202F
    ||| code == 0x205F
    ||| code == 0x3000
}

/// What is left of a text without the white space in front of it.
pub open spec fn without_leading(text: Seq<char>) -> Seq<char>
    decreases text.len(),
{
    if text.len() > 0 && is_white(text[0]) {
        without_leading(text.drop_first())
    } else {
        text
    }
}

/// What is left of a text without the white space behind it.
pub open spec fn without_trailing(text: Seq<char>) -> Seq<char>
    decreases text.len(),
{
    if text.len() > 0 && is_white(text.last()) {
        without_trailing(text.drop_last())
    } else {
        text
    }
}

/// A text without the white space around it.
pub open spec fn trimmed(text: Seq<char>) -> Seq<char> {
    without_trailing(without_leading(text))
}

/// The lower case of an ASCII letter; anything else is itself.
pub open spec fn lower(c: char) -> char {
    if 'A' <= c <= 'Z' {
        ((c as u32) + 32) as char
    } else {
        c
    }
}

/// A text with its ASCII letters in lower case.
pub open spec fn lowered(text: Seq<char>) -> Seq<char> {
    text.map_values(|c: char| lower(c))
}

pub open spec fn is_digit(c: char) -> bool {
    '0' <= c <= '9'
}

/// The number that a row of decimal digits writes.
pub open spec fn number(digits: Seq<char>) -> nat
    decreases digits.len(),
{
    if digits.len() == 0 {
        0
    } else {
        number(digits.drop_last()) * 10 + ((digits.last() as u32) - ('0' as u32)) as nat
    }
}

/// What is left of a text without one plus sign in front of it.
pub open spec fn unsigned_part(text: Seq<char>) -> Seq<char> {
    if text.len() > 0 && text[0] == '+' {
        text.drop_first()
    } else {
        text
    }
}

/// The count a text writes: decimal digits, at least one, after a plus sign at
/// most, and no more than a count can hold.
pub open spec fn count_of(text: Seq<char>) -> Option<usize> {
    let digits = unsigned_part(text);
    if digits.len() > 0 && (forall|i: int| 0 <= i < digits.len() ==> is_digit(#[trigger] digits[i]))
        && number(digits) <= usize::MAX {
        Some(number(digits) as usize)
    } else {
        None
    }
}

/// The digit of a value below sixteen, capital where it is a letter.
pub open spec fn digit_char(value: nat) -> char {
    if value < 10 {
        (('0' as u32) + value) as char
    } else {
        (('A' as u32) + (value - 10)) as char
    }
}

/// A number written in some base, without leading zeros.
pub open spec fn written(value: nat, base: nat) -> Seq<char>
    decreases value,
    via written_decreases
{
    if base < 2 || value < base {
        seq![digit_char(value)]
    } else {
        written(value / base, base).push(digit_char(value % base))
    }
}

#[via_fn]
proof fn written_decreases(value: nat, base: nat) {
    if base >= 2 && value >= base {
        assert(value / base < value) by (nonlinear_arith)
            requires
                value >= base,
                base >= 2,
        ;
    }
}

/// A text with zeros put in front of it up to some width.
pub open spec fn padded(text: Seq<char>, width: nat) -> Seq<char> {
    if text.len() < width {
        Seq::new((width - text.len()) as nat, |i: int| '0') + text
    } else {
        text
    }
}

/// Several texts in a row with a separator between them.
pub open spec fn joined(parts: Seq<Seq<char>>, separator: Seq<char>) -> Seq<char>
    decreases parts.len(),
{
    if parts.len() == 0 {
        Seq::empty()
    } else if parts.len() == 1 {
        parts[0]
    } else {
        joined(parts.drop_last(), separator) + separator + parts.last()
    }
}

pub fn is_space(c: char) -> (space: bool)
    ensures
        space == is_white(c),
{
    let code: u32 = c as u32;
    (0x9 <= code && code <= 0xD) || code == 0x20 || code == 0x85 || code == 0xA0 || code == 0x1680
        || (0x2000 <= code && code <= 0x200A) || code == 0x2028 || code == 0x2029 || code == 0x202F
        || code == 0x205F || code == 0x3000
}

proof fn leading_steps(text: Seq<char>, start: int)
    requires
        0 <= start <= text.len(),
        forall|i: int| 0 <= i < start ==> is_white(#[trigger] text[i]),
        start < text.len() ==> !is_white(text[start]),
    ensures
        without_leading(text) == text.subrange(start, text.len() as int),
    decreases start,
{
    if start > 0 {
        let rest = text.drop_first();
        assert forall|i: int| 0 <= i < start - 1 implies is_white(#[trigger] rest[i]) by {
            assert(rest[i] == text[i + 1]);
        }
        leading_steps(rest, start - 1);
        assert(rest.subrange(start - 1, rest.len() as int) =~= text.subrange(
            start,
            text.len() as int,
        ));
    } else {
        assert(text.subrange(0, text.len() as int) =~= text);
    }
}

proof fn trailing_steps(text: Seq<char>, end: int)
    requires
        0 <= end <= text.len(),
        forall|i: int| end <= i < text.len() ==> is_white(#[trigger] text[i]),
        end > 0 ==> !is_white(text[end - 1]),
    ensures
        without_trailing(text) == text.subrange(0, end),
    decreases text.len() - end,
{
    if end < text.len() {
        trailing_steps(text.drop_last(), end);
        assert(text.drop_last().subrange(0, end) =~= text.subrange(0, end));
    } else {
        assert(text.subrange(0, end) =~= text);
    }
}

/// A text without the white space around it.
pub fn trim<'a>(text: &'a str) -> (part: &'a str)
    ensures
        part@ == trimmed(text@),
{
    let len: usize = text.unicode_len();
    let mut start: usize = 0;
    while start < len && is_space(text.get_char(start))
        invariant
            start <= len,
            len == text@.len(),
            forall|i: int| 0 <= i < start ==> is_white(#[trigger] text@[i]),
        decreases len - start,
    {
        start = start + 1;
    }
    let mut end: usize = len;
    while end > start && is_space(text.get_char(end - 1))
        invariant
            start <= end <= len,
            len == text@.len(),
            forall|i: int| end <= i < len ==> is_white(#[trigger] text@[i]),
        decreases end - start,
    {
        end = end - 1;
    }
    proof {
        leading_steps(text@, start as int);
        let tail = text@.subrange(start as int, len as int);
        assert forall|i: int| end - start <= i < tail.len() implies is_white(#[trigger] tail[i]) by {
            assert(tail[i] == text@[start + i]);
        }
        if end > start {
            assert(tail[end - start - 1] == text@[end - 1]);
        }
        trailing_steps(tail, end - start);
        assert(tail.subrange(0, end - start) =~= text@.subrange(start as int, end as int));
    }
    text.substring_char(start, end)
}

/// Whether two texts are the same.
pub fn same(a: &str, b: &str) -> (equal: bool)
    ensures
        equal == (a@ == b@),
{
    a.to_owned() == b.to_owned()
}

fn to_lower(c: char) -> (l: char)
    ensures
        l == lower(c),
{
    if 'A' <= c && c <= 'Z' {
        let code: u32 = c as u32;
        ((code + 32) as u8) as char
    } else {
        c
    }
}

/// Whether a text, in lower case, is `word`.
pub fn same_lowered(text: &str, word: &str) -> (equal: bool)
    ensures
        equal == (lowered(text@) == word@),
{
    let len: usize = text.unicode_len();
    if len != word.unicode_len() {
        assert(lowered(text@).len() != word@.len());
        return false;
    }
    let mut i: usize = 0;
    while i < len
        invariant
            i <= len,
            len == text@.len(),
            len == word@.len(),
            forall|j: int| 0 <= j < i ==> lowered(text@)[j] == #[trigger] word@[j],
        decreases len - i,
    {
        if to_lower(text.get_char(i)) != word.get_char(i) {
            assert(lowered(text@)[i as int] != word@[i as int]);
            return false;
        }
        i = i + 1;
    }
    assert(lowered(text@) =~= word@);
    true
}

proof fn number_of_prefix(digits: Seq<char>, i: int)
    requires
        0 <= i < digits.len(),
    ensures
        number(digits.subrange(0, i + 1)) == number(digits.subrange(0, i)) * 10 + ((digits[i]
            as u32) - ('0' as u32)) as nat,
{
    assert(digits.subrange(0, i + 1).drop_last() =~= digits.subrange(0, i));
}

proof fn number_grows(digits: Seq<char>, i: int)
    requires
        0 <= i <= digits.len(),
        forall|j: int| 0 <= j < digits.len() ==> is_digit(#[trigger] digits[j]),
    ensures
        number(digits.subrange(0, i)) <= number(digits),
    decreases digits.len() - i,
{
    if i < digits.len() {
        number_of_prefix(digits, i);
        number_grows(digits, i + 1);
        assert(is_digit(digits[i]));
    } else {
        assert(digits.subrange(0, i) =~= digits);
    }
}

/// The count a text writes, or `None` where it writes none.
pub fn parse_count(text: &str) -> (count: Option<usize>)
    ensures
        count == count_of(text@),
{
    let len: usize = text.unicode_len();
    let start: usize = if len > 0 && text.get_char(0) == '+' {
        1
    } else {
        0
    };
    let ghost digits = unsigned_part(text@);
    assert(digits =~= text@.subrange(start as int, len as int));
    if start == len {
        return None;
    }
    let mut value: usize = 0;
    let mut i: usize = start;
    assert(digits.subrange(0, 0) =~= Seq::<char>::empty());
    while i < len
        invariant
            start <= i <= len,
            len == text@.len(),
            digits == text@.subrange(start as int, len as int),
            digits == unsigned_part(text@),
            value == number(digits.subrange(0, i - start)),
            forall|j: int| 0 <= j < i - start ==> is_digit(#[trigger] digits[j]),
        decreases len - i,
    {
        let c: char = text.get_char(i);
        assert(digits[i - start] == c);
        if !('0' <= c && c <= '9') {
            assert(!is_digit(digits[i - start]));
            return None;
        }
        let digit: usize = (c as u32 - '0' as u32) as usize;
        proof {
            number_of_prefix(digits, i - start);
            if forall|j: int| 0 <= j < digits.len() ==> is_digit(#[trigger] digits[j]) {
                number_grows(digits, i - start + 1);
            }
        }
        match value.checked_mul(10) {
            Some(tens) => match tens.checked_add(digit) {
                Some(next) => {
                    value = next;
                },
                None => {
                    return None;
                },
            },
            None => {
                return None;
            },
        }
        i = i + 1;
    }
    assert(digits.subrange(0, len - start) =~= digits);
    Some(value)
}

/// The digit of a value below sixteen, as text.
fn digit(value: u64) -> (text: &'static str)
    requires
        value < 16,
    ensures
        text@ == seq![digit_char(value as nat)],
{
    proof {
        reveal_strlit("0");
        reveal_strlit("1");
        reveal_strlit("2");
        reveal_strlit("3");
        reveal_strlit("4");
        reveal_strlit("5");
        reveal_strlit("6");
        reveal_strlit("7");
        reveal_strlit("8");
        reveal_strlit("9");
        reveal_strlit("A");
        reveal_strlit("B");
        reveal_strlit("C");
        reveal_strlit("D");
        reveal_strlit("E");
        reveal_strlit("F");
    }
    let text: &'static str = match value {
        0 => "0",
        1 => "1",
        2 => "2",
        3 => "3",
        4 => "4",
        5 => "5",
        6 => "6",
        7 => "7",
        8 => "8",
        9 => "9",
        10 => "A",
        11 => "B",
        12 => "C",
        13 => "D",
        14 => "E",
        _ => "F",
    };
    assert(text@ =~= seq![digit_char(value as nat)]);
    text
}

/// Write a number behind a text.
pub fn append_number(text: &mut String, value: u64, base: u64)
    requires
        2 <= base <= 16,
    ensures
        final(text)@ == old(text)@ + written(value as nat, base as nat),
    decreases value,
{
    let ghost before = text@;
    if value >= base {
        proof {
            assert(value / base < value) by (nonlinear_arith)
                requires
                    value >= base,
                    base >= 2,
            ;
        }
        append_number(text, value / base, base);
    }
    proof {
        if value < base {
            vstd::arithmetic::div_mod::lemma_small_mod(value as nat, base as nat);
        } else {
            vstd::arithmetic::div_mod::lemma_mod_bound(value as int, base as int);
        }
    }
    text.append(digit(value % base));
    assert(text@ =~= before + written(value as nat, base as nat));
}

/// Write a number behind a text, with zeros in front of it up to some width.
pub fn append_padded(text: &mut String, value: u64, base: u64, width: usize)
    requires
        2 <= base <= 16,
    ensures
        final(text)@ == old(text)@ + padded(written(value as nat, base as nat), width as nat),
{
    let mut digits: String = String::new();
    append_number(&mut digits, value, base);
    let ghost before = text@;
    let len: usize = digits.as_str().unicode_len();
    let mut i: usize = len;
    while i < width
        invariant
            len <= i,
            i <= width || i == len,
            text@ == before + Seq::new((i - len) as nat, |k: int| '0'),
        decreases width - i,
    {
        let ghost so_far = text@;
        text.append(digit(0));
        i = i + 1;
        assert(text@ =~= before + Seq::new((i - len) as nat, |k: int| '0'));
    }
    text.append(digits.as_str());
    assert(text@ =~= before + padded(written(value as nat, base as nat), width as nat));
}

/// Join texts with a separator.
pub fn join(parts: &Vec<String>, separator: &str) -> (text: String)
    ensures
        text@ == joined(parts@.map_values(|part: String| part@), separator@),
{
    let mut text: String = String::new();
    let ghost all = parts@.map_values(|part: String| part@);
    let mut i: usize = 0;
    assert(all.subrange(0, 0) =~= Seq::<Seq<char>>::empty());
    while i < parts.len()
        invariant
            i <= parts@.len(),
            all == parts@.map_values(|part: String| part@),
            text@ == joined(all.subrange(0, i as int), separator@),
        decreases parts@.len() - i,
    {
        proof {
            assert(all.subrange(0, i + 1).drop_last() =~= all.subrange(0, i as int));
            assert(all.subrange(0, i + 1).last() == parts@[i as int]@);
        }
        if i > 0 {
            text.append(separator);
        }
        text.append(parts[i].as_str());
        proof {
            if i == 0 {
                assert(text@ =~= parts@[0]@);
            }
        }
        i = i + 1;
    }
    assert(all.subrange(0, all.len() as int) =~= all);
    text
}

/// **Trimming takes the space around a text and nothing else.** What is left begins and
/// ends with something else, and is what stands between the space that was taken.
pub proof fn trimming_takes_the_space_around(text: Seq<char>) -> (cut: (int, int))
    ensures
        0 <= cut.0 <= cut.1 <= text.len(),
        trimmed(text) == text.subrange(cut.0, cut.1),
        forall|i: int| 0 <= i < cut.0 ==> is_white(#[trigger] text[i]),
        forall|i: int| cut.1 <= i < text.len() ==> is_white(#[trigger] text[i]),
        trimmed(text).len() > 0 ==> !is_white(trimmed(text)[0]) && !is_white(trimmed(text).last()),
{
    let start = first_ink(text, 0);
    leading_steps(text, start);
    let tail = text.subrange(start, text.len() as int);
    let end = last_ink(tail, tail.len() as int);
    trailing_steps(tail, end);
    assert(tail.subrange(0, end) =~= text.subrange(start, start + end));
    assert forall|i: int| start + end <= i < text.len() implies is_white(#[trigger] text[i]) by {
        assert(tail[i - start] == text[i]);
    }
    if end > 0 {
        assert(trimmed(text)[0] == text[start]);
        assert(trimmed(text).last() == tail[end - 1]);
    }
    (start, start + end)
}

proof fn first_ink(text: Seq<char>, from: int) -> (start: int)
    requires
        0 <= from <= text.len(),
        forall|i: int| 0 <= i < from ==> is_white(#[trigger] text[i]),
    ensures
        0 <= start <= text.len(),
        forall|i: int| 0 <= i < start ==> is_white(#[trigger] text[i]),
        start < text.len() ==> !is_white(text[start]),
    decreases text.len() - from,
{
    if from < text.len() && is_white(text[from]) {
        first_ink(text, from + 1)
    } else {
        from
    }
}

proof fn last_ink(text: Seq<char>, to: int) -> (end: int)
    requires
        0 <= to <= text.len(),
        forall|i: int| to <= i < text.len() ==> is_white(#[trigger] text[i]),
    ensures
        0 <= end <= text.len(),
        forall|i: int| end <= i < text.len() ==> is_white(#[trigger] text[i]),
        end > 0 ==> !is_white(text[end - 1]),
    decreases to,
{
    if to > 0 && is_white(text[to - 1]) {
        last_ink(text, to - 1)
    } else {
        to
    }
}

/// **A count that was written is read back.**
pub proof fn counts_round_trip(value: nat)
    requires
        value <= usize::MAX,
    ensures
        count_of(written(value, 10)) == Some(value as usize),
        count_of(seq!['+'] + written(value, 10)) == Some(value as usize),
{
    written_is_digits(value);
    let digits = written(value, 10);
    assert((seq!['+'] + digits).drop_first() =~= digits);
    assert(is_digit(digits[0]));
}

proof fn written_is_digits(value: nat)
    ensures
        written(value, 10).len() > 0,
        forall|i: int| 0 <= i < written(value, 10).len() ==> is_digit(#[trigger] written(value, 10)[i]),
        number(written(value, 10)) == value,
    decreases value,
{
    let digits = written(value, 10);
    if value < 10 {
        assert(digits =~= seq![digit_char(value)]);
        assert(digits.drop_last() =~= Seq::<char>::empty());
        assert(number(digits.drop_last()) == 0);
    } else {
        written_is_digits(value / 10);
        let rest = written(value / 10, 10);
        assert(digits == rest.push(digit_char(value % 10)));
        assert(digits.drop_last() =~= rest);
    }
}

/// **Lower case changes capitals and nothing else.**
pub proof fn lowering_is_ascii(c: char)
    ensures
        'A' <= c <= 'Z' ==> lower(c) as u32 == c as u32 + 32 && 'a' <= lower(c) <= 'z',
        !('A' <= c <= 'Z') ==> lower(c) == c,
        lower(lower(c)) == lower(c),
{
}

/// **Padding goes in front and only up to the width.**
pub proof fn padding_goes_in_front(text: Seq<char>, width: nat, i: int)
    ensures
        padded(text, width).len() == (if text.len() < width {
            width
        } else {
            text.len()
        }),
        ({
            let zeros = padded(text, width).len() - text.len();
            &&& 0 <= i < zeros ==> padded(text, width)[i] == '0'
            &&& zeros <= i < padded(text, width).len() ==> padded(text, width)[i] == text[i - zeros]
        }),
{
}

/// **Nothing that is printed is white space, in ASCII.** The space itself and the five
/// controls from the tab on are, and no other character up to the tilde.
pub proof fn printed_characters_are_not_white(c: char)
    requires
        c as u32 <= 0x7E,
    ensures
        is_white(c) <==> c == ' ' || '\t' <= c <= '\r',
{
}

/// **Lower case keeps white space, digits and lengths.**
pub proof fn lowering_keeps_the_rest(text: Seq<char>, i: int)
    requires
        0 <= i < text.len(),
    ensures
        lowered(text).len() == text.len(),
        lowered(text)[i] == lower(text[i]),
        is_white(lowered(text)[i]) <==> is_white(text[i]),
        is_digit(lowered(text)[i]) <==> is_digit(text[i]),
        lowered(lowered(text)) == lowered(text),
{
    assert(lowered(lowered(text)) =~= lowered(text));
}

/// **Digits count by their places.** One more digit makes a number ten times what it was
/// and what the digit is; a zero in front changes nothing.
pub proof fn digits_count_by_their_places(digits: Seq<char>, digit: nat)
    requires
        digit < 10,
    ensures
        number(digits.push(digit_char(digit))) == 10 * number(digits) + digit,
        number(seq!['0'] + digits) == number(digits),
        number(Seq::empty()) == 0,
    decreases digits.len(),
{
    assert(digits.push(digit_char(digit)).drop_last() =~= digits);
    if digits.len() == 0 {
        assert(seq!['0'] + digits =~= seq!['0']);
        assert(seq!['0'].drop_last() =~= Seq::<char>::empty());
        assert(number(seq!['0'].drop_last()) == 0);
    } else {
        digits_count_by_their_places(digits.drop_last(), 0);
        assert((seq!['0'] + digits).drop_last() =~= seq!['0'] + digits.drop_last());
        assert((seq!['0'] + digits).last() == digits.last());
    }
}

/// **A count is made of digits.** A text that is read as one has some, and none but
/// them behind a plus at most; and what is read is what they count to.
pub proof fn counts_are_made_of_digits(text: Seq<char>, i: int)
    requires
        count_of(text) is Some,
        0 <= i < text.len(),
    ensures
        '0' <= text[i] <= '9' || i == 0 && text[0] == '+' && text.len() > 1,
        '0' <= text[0] <= '9' ==> count_of(text)->0 == number(text),
        text[0] == '+' ==> count_of(text)->0 == number(text.drop_first()),
{
    let digits = unsigned_part(text);
    if text[0] == '+' && i > 0 {
        assert(digits[i - 1] == text[i]);
    }
    assert(is_digit(digits[0]));
    if text[0] != '+' {
        assert(is_digit(digits[i]));
    }
}

/// **Sixteen digits, nine and letters**: each in its order, capitals from ten on.
pub proof fn digits_are_in_their_order(value: nat)
    requires
        value < 16,
    ensures
        value < 10 ==> digit_char(value) as u32 == '0' as u32 + value,
        value >= 10 ==> digit_char(value) as u32 == 'A' as u32 + value - 10,
        'A' <= digit_char(value) <= 'F' || '0' <= digit_char(value) <= '9',
{
}

/// **A number is written without leading zeros, and its last digit last.**
pub proof fn numbers_are_written_from_the_front(value: nat, base: nat)
    requires
        2 <= base <= 16,
    ensures
        written(value, base).last() == digit_char(value % base),
        value >= base ==> written(value, base).drop_last() == written(value / base, base),
        value < base ==> written(value, base).len() == 1,
        value > 0 ==> written(value, base)[0] != '0',
    decreases value,
{
    if value >= base {
        assert(0 < value / base < value) by (nonlinear_arith)
            requires
                2 <= base <= value,
        ;
        numbers_are_written_from_the_front(value / base, base);
        let rest = written(value / base, base);
        written_is_some(value / base, base);
        assert(rest.push(digit_char(value % base)).drop_last() =~= rest);
        assert(rest.push(digit_char(value % base))[0] == rest[0]);
    } else {
        assert(value % base == value) by (nonlinear_arith)
            requires
                value < base,
        ;
        digits_are_in_their_order(value);
    }
}

proof fn written_is_some(value: nat, base: nat)
    ensures
        written(value, base).len() > 0,
{
}

/// **Joined parts stand behind each other with the separator between them.**
pub proof fn parts_are_joined_in_order(parts: Seq<Seq<char>>, separator: Seq<char>, last: Seq<char>)
    ensures
        joined(parts.push(last), separator) == (if parts.len() == 0 {
            last
        } else {
            joined(parts, separator) + separator + last
        }),
        joined(Seq::empty(), separator).len() == 0,
{
    assert(parts.push(last).drop_last() =~= parts);
}

} // verus!
