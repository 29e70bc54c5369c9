//! Operations on text that are stated over its characters.

use vstd::prelude::*;
use vstd::string::{StrSliceExecFns, StringExecFns};

verus! {

/// The character of a decimal digit.
pub open spec fn digit_char(d: int) -> char {
    (48 + d) as char
}

/// A number in decimal, without leading zeros.
pub open spec fn decimal_digits(n: nat) -> Seq<char>
    decreases n,
{
    if n < 10 {
        seq![digit_char(n as int)]
    } else {
        decimal_digits(n / 10).push(digit_char((n % 10) as int))
    }
}

fn digit_text(d: u64) -> (text: &'static str)
    requires
        d < 10,
    ensures
        text@ =~= seq![digit_char(d as int)],
{
    proof {
        reveal_strlit("0");
        reveal_strlit("1");
        reveal_strlit("2");
        reveal_strlit("3");
        reveal_strlit("4");
        reveal_strlit("5");
        reveal_strlit("6");
        reveal_strlit("7");
        reveal_strlit("8");
        reveal_strlit("9");
    }
    if d == 0 {
        "0"
    } else if d == 1 {
        "1"
    } else if d == 2 {
        "2"
    } else if d == 3 {
        "3"
    } else if d == 4 {
        "4"
    } else if d == 5 {
        "5"
    } else if d == 6 {
        "6"
    } else if d == 7 {
        "7"
    } else if d == 8 {
        "8"
    } else {
        "9"
    }
}

/// A number in decimal.
pub fn decimal(n: u64) -> (text: String)
    ensures
        text@ == decimal_digits(n as nat),
    decreases n,
{
    if n < 10 {
        digit_text(n).to_owned()
    } else {
        decimal(n / 10).concat(digit_text(n % 10))
    }
}

/// A number in decimal, with a sign where it is below zero.
pub open spec fn signed_digits(n: int) -> Seq<char> {
    if n < 0 {
        "-"@ + decimal_digits((-n) as nat)
    } else {
        decimal_digits(n as nat)
    }
}

pub fn signed_decimal(n: i32) -> (text: String)
    ensures
        text@ == signed_digits(n as int),
{
    if n < 0 {
        "-".to_owned().concat(decimal((-(n as i64)) as u64).as_str())
    } else {
        decimal(n as u64)
    }
}

/// A number in decimal, always with a sign.
pub open spec fn plus_digits(n: int) -> Seq<char> {
    if n < 0 {
        "-"@ + decimal_digits((-n) as nat)
    } else {
        "+"@ + decimal_digits(n as nat)
    }
}

pub fn plus_decimal(n: i64) -> (text: String)
    ensures
        text@ == plus_digits(n as int),
{
    if n < 0 {
        "-".to_owned().concat(decimal((-(n as i128)) as u64).as_str())
    } else {
        "+".to_owned().concat(decimal(n as u64).as_str())
    }
}

/// The character of a hexadecimal digit.
pub open spec fn hex_char(d: int) -> char {
    if d < 10 {
        (48 + d) as char
    } else {
        (87 + d) as char
    }
}

/// The last `width` hexadecimal digits of a number.
pub open spec fn hex_digits(n: nat, width: nat) -> Seq<char>
    decreases width,
{
    if width == 0 {
        Seq::empty()
    } else {
        hex_digits(n / 16, (width - 1) as nat).push(hex_char((n % 16) as int))
    }
}

fn hex_digit_text(d: u64) -> (text: &'static str)
    requires
        d < 16,
    ensures
        text@ =~= seq![hex_char(d as int)],
{
    proof {
        reveal_strlit("a");
        reveal_strlit("b");
        reveal_strlit("c");
        reveal_strlit("d");
        reveal_strlit("e");
        reveal_strlit("f");
    }
    if d < 10 {
        digit_text(d)
    } else if d == 10 {
        "a"
    } else if d == 11 {
        "b"
    } else if d == 12 {
        "c"
    } else if d == 13 {
        "d"
    } else if d == 14 {
        "e"
    } else {
        "f"
    }
}

/// A number in hexadecimal, with leading zeros up to `width` digits.
pub fn hexadecimal(n: u64, width: u32) -> (text: String)
    ensures
        text@ == hex_digits(n as nat, width as nat),
    decreases width,
{
    if width == 0 {
        proof {
            reveal_strlit("");
        }
        let text: String = "".to_owned();
        assert(text@ =~= Seq::<char>::empty());
        text
    } else {
        hexadecimal(n / 16, width - 1).concat(hex_digit_text(n % 16))
    }
}

/// A number of at least two digits, as clocks show it.
pub open spec fn two_digits(n: nat) -> Seq<char> {
    if n < 10 {
        seq!['0'] + decimal_digits(n)
    } else {
        decimal_digits(n)
    }
}

pub fn decimal_two(n: u64) -> (text: String)
    ensures
        text@ == two_digits(n as nat),
{
    if n < 10 {
        proof {
            reveal_strlit("0");
        }
        let text: String = "0".to_owned().concat(decimal(n).as_str());
        assert("0"@ =~= seq!['0']);
        text
    } else {
        decimal(n)
    }
}

/// The characters of a text.
pub fn chars_of(text: &str) -> (chars: Vec<char>)
    ensures
        chars@ == text@,
{
    let mut chars: Vec<char> = Vec::new();
    let len: usize = text.unicode_len();
    let mut i: usize = 0;
    while i < len
        invariant
            i <= len,
            len == text@.len(),
            chars@ =~= text@.subrange(0, i as int),
        decreases len - i,
    {
        chars.push(text.get_char(i));
        i = i + 1;
    }
    chars
}

/// True where `needle` stands in `text` at `at`.
pub open spec fn occurs_at(text: Seq<char>, needle: Seq<char>, at: int) -> bool {
    0 <= at && at + needle.len() <= text.len() && text.subrange(at, at + needle.len()) =~= needle
}

fn matches_at(text: &Vec<char>, needle: &Vec<char>, at: usize) -> (found: bool)
    requires
        at <= text@.len(),
    ensures
        found == occurs_at(text@, needle@, at as int),
{
    if needle.len() > text.len() - at {
        return false;
    }
    let len: usize = text.len();
    let mut i: usize = 0;
    while i < needle.len()
        invariant
            i <= needle@.len(),
            len == text@.len(),
            at + needle@.len() <= len,
            forall|k: int| 0 <= k < i ==> text@[at + k] == needle@[k],
        decreases needle@.len() - i,
    {
        if text[at + i] != needle[i] {
            assert(text@.subrange(at as int, at + needle@.len())[i as int] != needle@[i as int]);
            return false;
        }
        i = i + 1;
    }
    true
}

/// True where `text` begins with `prefix`.
pub fn starts_with(text: &str, prefix: &str) -> (found: bool)
    ensures
        found == occurs_at(text@, prefix@, 0),
{
    let text: Vec<char> = chars_of(text);
    let prefix: Vec<char> = chars_of(prefix);
    matches_at(&text, &prefix, 0)
}

/// True where `text` ends with `suffix`.
pub fn ends_with(text: &str, suffix: &str) -> (found: bool)
    ensures
        found == occurs_at(text@, suffix@, text@.len() - suffix@.len()),
{
    let text: Vec<char> = chars_of(text);
    let suffix: Vec<char> = chars_of(suffix);
    if suffix.len() > text.len() {
        return false;
    }
    matches_at(&text, &suffix, text.len() - suffix.len())
}

/// True where `needle` stands somewhere in `text`.
pub open spec fn occurs_in(text: Seq<char>, needle: Seq<char>) -> bool {
    exists|at: int| #[trigger] occurs_at(text, needle, at)
}

pub fn contains(text: &str, needle: &str) -> (found: bool)
    ensures
        found == occurs_in(text@, needle@),
{
    let chars: Vec<char> = chars_of(text);
    let wanted: Vec<char> = chars_of(needle);
    let mut at: usize = 0;
    loop
        invariant
            at <= chars@.len(),
            chars@ == text@,
            wanted@ == needle@,
            forall|k: int| 0 <= k < at ==> !#[trigger] occurs_at(text@, needle@, k),
        decreases chars@.len() - at,
    {
        if matches_at(&chars, &wanted, at) {
            return true;
        }
        if at == chars.len() {
            return false;
        }
        at = at + 1;
    }
}

/// True where two texts are the same.
pub fn same_text(a: &str, b: &str) -> (same: bool)
    ensures
        same == (a@ == b@),
{
    let left: Vec<char> = chars_of(a);
    let right: Vec<char> = chars_of(b);
    if left.len() != right.len() {
        return false;
    }
    let mut i: usize = 0;
    while i < left.len()
        invariant
            i <= left@.len(),
            left@ == a@,
            right@ == b@,
            a@.len() == b@.len(),
            forall|k: int| 0 <= k < i ==> a@[k] == b@[k],
        decreases left@.len() - i,
    {
        if left[i] != right[i] {
            return false;
        }
        i = i + 1;
    }
    assert(a@ =~= b@);
    true
}

/// The part of a text from `from` up to `to`.
pub fn slice(text: &str, from: usize, to: usize) -> (part: String)
    requires
        from <= to <= text@.len(),
    ensures
        part@ == text@.subrange(from as int, to as int),
{
    text.substring_char(from, to).to_owned()
}

/// A text without the characters `c` at its beginning.
pub open spec fn trimmed_front(text: Seq<char>, c: char) -> Seq<char>
    decreases text.len(),
{
    if text.len() > 0 && text[0] == c {
        trimmed_front(text.skip(1), c)
    } else {
        text
    }
}

/// A text without the characters `c` at its end.
pub open spec fn trimmed_back(text: Seq<char>, c: char) -> Seq<char>
    decreases text.len(),
{
    if text.len() > 0 && text.last() == c {
        trimmed_back(text.drop_last(), c)
    } else {
        text
    }
}

/// A text without the characters `c` at either end.
pub open spec fn trimmed(text: Seq<char>, c: char) -> Seq<char> {
    trimmed_back(trimmed_front(text, c), c)
}

pub fn trim(text: &str, c: char) -> (part: String)
    ensures
        part@ == trimmed(text@, c),
        part@.len() > 0 ==> part@[0] != c && part@.last() != c,
{
    let chars: Vec<char> = chars_of(text);
    let mut from: usize = 0;
    assert(chars@.skip(0) =~= chars@);
    while from < chars.len() && chars[from] == c
        invariant
            from <= chars@.len(),
            trimmed_front(chars@, c) == trimmed_front(chars@.skip(from as int), c),
        decreases chars@.len() - from,
    {
        assert(chars@.skip(from as int).skip(1) =~= chars@.skip(from + 1));
        from = from + 1;
    }
    let ghost front = chars@.skip(from as int);
    assert(trimmed_front(chars@, c) == front);
    let mut to: usize = chars.len();
    while to > from && chars[to - 1] == c
        invariant
            from <= to <= chars@.len(),
            front == chars@.skip(from as int),
            trimmed_back(front, c) == trimmed_back(chars@.subrange(from as int, to as int), c),
        decreases to,
    {
        assert(chars@.subrange(from as int, to as int).drop_last() =~= chars@.subrange(
            from as int,
            to - 1,
        ));
        to = to - 1;
    }
    assert(front =~= chars@.subrange(from as int, chars@.len() as int));
    proof {
        let part = chars@.subrange(from as int, to as int);
        if part.len() > 0 {
            assert(part[0] == chars@[from as int]);
            assert(part.last() == chars@[to - 1]);
        }
    }
    slice(text, from, to)
}

/// Where `c` stands last in a text.
pub fn rfind(text: &str, c: char) -> (found: Option<usize>)
    ensures
        match found {
            Some(at) => {
                &&& at < text@.len()
                &&& text@[at as int] == c
                &&& forall|k: int| at < k < text@.len() ==> text@[k] != c
            },
            None => forall|k: int| 0 <= k < text@.len() ==> text@[k] != c,
        },
{
    let chars: Vec<char> = chars_of(text);
    let mut i: usize = chars.len();
    while i > 0
        invariant
            i <= chars@.len(),
            chars@ == text@,
            forall|k: int| i <= k < text@.len() ==> text@[k] != c,
        decreases i,
    {
        if chars[i - 1] == c {
            return Some(i - 1);
        }
        i = i - 1;
    }
    None
}

/// Where `c` stands first in a text.
pub fn find(text: &str, c: char) -> (found: Option<usize>)
    ensures
        match found {
            Some(at) => {
                &&& at < text@.len()
                &&& text@[at as int] == c
                &&& forall|k: int| 0 <= k < at ==> text@[k] != c
            },
            None => forall|k: int| 0 <= k < text@.len() ==> text@[k] != c,
        },
{
    let chars: Vec<char> = chars_of(text);
    let mut i: usize = 0;
    while i < chars.len()
        invariant
            i <= chars@.len(),
            chars@ == text@,
            forall|k: int| 0 <= k < i ==> text@[k] != c,
        decreases chars@.len() - i,
    {
        if chars[i] == c {
            return Some(i);
        }
        i = i + 1;
    }
    None
}

/// What stands in a text before the first `c`; all of it where there is none.
pub open spec fn before_first(text: Seq<char>, c: char) -> Seq<char>
    decreases text.len(),
{
    if text.len() == 0 || text[0] == c {
        Seq::empty()
    } else {
        seq![text[0]] + before_first(text.skip(1), c)
    }
}

/// What stands in a text after the last `c`; all of it where there is none.
pub open spec fn after_last(text: Seq<char>, c: char) -> Seq<char>
    decreases text.len(),
{
    if text.len() == 0 || text.last() == c {
        Seq::empty()
    } else {
        after_last(text.drop_last(), c).push(text.last())
    }
}

/// What stands in a text after the first `c`, where there is one.
pub open spec fn after_first(text: Seq<char>, c: char) -> Option<Seq<char>> {
    let head = before_first(text, c);
    if head.len() < text.len() {
        Some(text.skip(head.len() as int + 1))
    } else {
        None
    }
}

proof fn lemma_before_first(text: Seq<char>, c: char, at: int)
    requires
        0 <= at <= text.len(),
        forall|k: int| 0 <= k < at ==> text[k] != c,
        at < text.len() ==> text[at] == c,
    ensures
        before_first(text, c) == text.take(at),
    decreases text.len(),
{
    if at > 0 {
        lemma_before_first(text.skip(1), c, at - 1);
        assert(seq![text[0]] + text.skip(1).take(at - 1) =~= text.take(at));
    } else {
        assert(text.take(0) =~= Seq::<char>::empty());
    }
}

proof fn lemma_after_last(text: Seq<char>, c: char, from: int)
    requires
        0 <= from <= text.len(),
        forall|k: int| from <= k < text.len() ==> text[k] != c,
        from > 0 ==> text[from - 1] == c,
    ensures
        after_last(text, c) == text.skip(from),
    decreases text.len(),
{
    if from < text.len() {
        lemma_after_last(text.drop_last(), c, from);
        assert(text.drop_last().skip(from).push(text.last()) =~= text.skip(from));
    } else {
        assert(text.skip(from) =~= Seq::<char>::empty());
    }
}

/// Cuts a text off before the first `c`.
pub fn cut_before(text: &str, c: char) -> (part: String)
    ensures
        part@ == before_first(text@, c),
{
    let at: usize = match find(text, c) {
        Some(at) => at,
        None => text.unicode_len(),
    };
    proof {
        lemma_before_first(text@, c, at as int);
    }
    slice(text, 0, at)
}

/// The part of a text after the first `c`, where there is one.
pub fn rest_after(text: &str, c: char) -> (part: Option<String>)
    ensures
        match part {
            Some(rest) => after_first(text@, c) == Some(rest@),
            None => after_first(text@, c) is None,
        },
{
    let len: usize = text.unicode_len();
    match find(text, c) {
        Some(at) => {
            proof {
                lemma_before_first(text@, c, at as int);
                assert(text@.skip(at + 1) =~= text@.subrange(at + 1, len as int));
            }
            Some(slice(text, at + 1, len))
        },
        None => {
            proof {
                lemma_before_first(text@, c, len as int);
            }
            None
        },
    }
}

/// The part of a text after the last `c`.
pub fn tail_after(text: &str, c: char) -> (part: String)
    ensures
        part@ == after_last(text@, c),
{
    let len: usize = text.unicode_len();
    let from: usize = match rfind(text, c) {
        Some(at) => at + 1,
        None => 0,
    };
    proof {
        lemma_after_last(text@, c, from as int);
        assert(text@.skip(from as int) =~= text@.subrange(from as int, len as int));
    }
    slice(text, from, len)
}

/// The value of a digit in a base up to sixteen, in either case of letters.
#[verifier::allow_in_spec]
pub fn digit_value(c: char, base: u64) -> Option<u64>
    returns
        ({
            let value = if '0' <= c <= '9' {
                c as int - '0' as int
            } else if 'a' <= c <= 'f' {
                c as int - 'a' as int + 10
            } else if 'A' <= c <= 'F' {
                c as int - 'A' as int + 10
            } else {
                16
            };
            if value < base && value < 16 {
                Some(value as u64)
            } else {
                None::<u64>
            }
        }),
{
    let value: u64 = if '0' <= c && c <= '9' {
        c as u64 - '0' as u64
    } else if 'a' <= c && c <= 'f' {
        c as u64 - 'a' as u64 + 10
    } else if 'A' <= c && c <= 'F' {
        c as u64 - 'A' as u64 + 10
    } else {
        16
    };
    if value < base && value < 16 {
        Some(value)
    } else {
        None
    }
}

/// The number that a run of digits stands for; none where there is a character
/// that is no digit, or nothing at all.
pub open spec fn number_of(digits: Seq<char>, base: u64) -> Option<nat>
    decreases digits.len(),
{
    if digits.len() == 0 {
        None
    } else {
        match digit_value(digits.last(), base) {
            None => None,
            Some(value) => if digits.len() == 1 {
                Some(value as nat)
            } else {
                match number_of(digits.drop_last(), base) {
                    None => None,
                    Some(high) => Some((high * base + value) as nat),
                }
            },
        }
    }
}

/// Digits without the sign that may stand before them.
pub open spec fn unsigned(text: Seq<char>) -> Seq<char> {
    if text.len() > 0 && text[0] == '+' {
        text.skip(1)
    } else {
        text
    }
}

/// The number that a text stands for, where it is one and fits.
pub open spec fn parsed_number(text: Seq<char>, base: u64) -> Option<u64> {
    match number_of(unsigned(text), base) {
        Some(n) if n <= u64::MAX => Some(n as u64),
        _ => None,
    }
}

proof fn lemma_number_grows(digits: Seq<char>, base: u64, upto: int)
    requires
        2 <= base <= 16,
        0 < upto <= digits.len(),
        number_of(digits, base) is Some,
    ensures
        number_of(digits.subrange(0, upto), base) is Some,
        number_of(digits.subrange(0, upto), base)->0 <= number_of(digits, base)->0,
    decreases digits.len(),
{
    if upto == digits.len() {
        assert(digits.subrange(0, upto) =~= digits);
    } else {
        lemma_number_grows(digits.drop_last(), base, upto);
        assert(digits.drop_last().subrange(0, upto) =~= digits.subrange(0, upto));
        let high: nat = number_of(digits.drop_last(), base)->0;
        assert(high <= high * base) by (nonlinear_arith)
            requires
                base >= 2,
        ;
    }
}

proof fn lemma_no_number_beyond(digits: Seq<char>, base: u64, upto: int)
    requires
        0 < upto <= digits.len(),
        number_of(digits.subrange(0, upto), base) is None,
    ensures
        number_of(digits, base) is None,
    decreases digits.len(),
{
    if upto == digits.len() {
        assert(digits.subrange(0, upto) =~= digits);
    } else {
        assert(digits.drop_last().subrange(0, upto) =~= digits.subrange(0, upto));
        lemma_no_number_beyond(digits.drop_last(), base, upto);
    }
}

/// Reads an unsigned number, with an optional plus sign before it.
pub fn parse_number(text: &str, base: u64) -> (number: Option<u64>)
    requires
        2 <= base <= 16,
    ensures
        number == parsed_number(text@, base),
{
    let chars: Vec<char> = chars_of(text);
    let start: usize = if chars.len() > 0 && chars[0] == '+' {
        1
    } else {
        0
    };
    let ghost digits = unsigned(text@);
    assert(digits =~= chars@.skip(start as int));
    if start == chars.len() {
        return None;
    }
    let mut number: u64 = 0;
    let mut i: usize = start;
    while i < chars.len()
        invariant
            2 <= base <= 16,
            start <= i <= chars@.len(),
            start < chars@.len(),
            digits =~= chars@.skip(start as int),
            digits == unsigned(text@),
            i > start ==> number_of(digits.subrange(0, i - start), base) == Some(number as nat),
            i == start ==> number == 0,
        decreases chars@.len() - i,
    {
        let ghost upto: int = i + 1 - start;
        assert(digits.subrange(0, upto).drop_last() =~= digits.subrange(0, upto - 1));
        assert(digits.subrange(0, upto).last() == chars@[i as int]);
        let value: u64 = match digit_value(chars[i], base) {
            Some(value) => value,
            None => {
                proof {
                    lemma_no_number_beyond(digits, base, upto);
                }
                return None;
            },
        };
        assert(number * base <= u64::MAX * 16) by (nonlinear_arith)
            requires
                number <= u64::MAX,
                base <= 16,
        ;
        let wide: u128 = (number as u128) * (base as u128) + value as u128;
        assert(number_of(digits.subrange(0, upto), base) == Some(wide as nat)) by {
            if i == start {
                assert(0 * base == 0) by (nonlinear_arith);
            }
        }
        if wide > u64::MAX as u128 {
            proof {
                if number_of(digits, base) is Some {
                    lemma_number_grows(digits, base, upto);
                }
            }
            return None;
        }
        number = wide as u64;
        i = i + 1;
    }
    assert(digits.subrange(0, digits.len() as int) =~= digits);
    Some(number)
}

/// A text with the letters of the Latin alphabet in lower case.
pub open spec fn lower(text: Seq<char>) -> Seq<char> {
    Seq::new(text.len(), |i: int| lower_char(text[i]))
}

#[verifier::allow_in_spec]
pub fn lower_char(c: char) -> char
    returns
        (if 'A' <= c <= 'Z' {
            (c as int + 32) as char
        } else {
            c
        }),
{
    if 'A' <= c && c <= 'Z' {
        (c as u8 + 32) as char
    } else {
        c
    }
}

/// True where a text is `wanted` but for the case of its letters.
pub fn same_lower(text: &str, wanted: &str) -> (same: bool)
    ensures
        same == (lower(text@) == wanted@),
{
    let left: Vec<char> = chars_of(text);
    let right: Vec<char> = chars_of(wanted);
    if left.len() != right.len() {
        return false;
    }
    let mut i: usize = 0;
    while i < left.len()
        invariant
            i <= left@.len(),
            left@ == text@,
            right@ == wanted@,
            text@.len() == wanted@.len(),
            forall|k: int| 0 <= k < i ==> lower_char(text@[k]) == wanted@[k],
        decreases left@.len() - i,
    {
        if lower_char(left[i]) != right[i] {
            assert(lower(text@)[i as int] != wanted@[i as int]);
            return false;
        }
        i = i + 1;
    }
    assert(lower(text@) =~= wanted@);
    true
}

/// A text in upper case, as far as the result can be plain Latin letters.
pub open spec fn upper(text: Seq<char>) -> Seq<char> {
    Seq::new(text.len(), |i: int| upper_char(text[i]))
}

/// The upper case of a character: a Latin letter, or one of the two others whose
/// upper case is one, the dotless i and the long s.
#[verifier::allow_in_spec]
pub fn upper_char(c: char) -> char
    returns
        (if 'a' <= c <= 'z' {
            (c as int - 32) as char
        } else if c == '\u{131}' {
            'I'
        } else if c == '\u{17f}' {
            'S'
        } else {
            c
        }),
{
    if 'a' <= c && c <= 'z' {
        (c as u8 - 32) as char
    } else if c == '\u{131}' {
        'I'
    } else if c == '\u{17f}' {
        'S'
    } else {
        c
    }
}

/// True where a text in upper case is `wanted`.
pub fn same_upper(text: &str, wanted: &str) -> (same: bool)
    ensures
        same == (upper(text@) == wanted@),
{
    let left: Vec<char> = chars_of(text);
    let right: Vec<char> = chars_of(wanted);
    if left.len() != right.len() {
        return false;
    }
    let mut i: usize = 0;
    while i < left.len()
        invariant
            i <= left@.len(),
            left@ == text@,
            right@ == wanted@,
            text@.len() == wanted@.len(),
            forall|k: int| 0 <= k < i ==> upper_char(text@[k]) == wanted@[k],
        decreases left@.len() - i,
    {
        if upper_char(left[i]) != right[i] {
            assert(upper(text@)[i as int] != wanted@[i as int]);
            return false;
        }
        i = i + 1;
    }
    assert(upper(text@) =~= wanted@);
    true
}

proof fn lemma_decimal_digits_are_digits(n: nat)
    ensures
        decimal_digits(n).len() > 0,
        forall|i: int|
            0 <= i < decimal_digits(n).len() ==> '0' <= #[trigger] decimal_digits(n)[i] <= '9',
    decreases n,
{
    if n >= 10 {
        lemma_decimal_digits_are_digits(n / 10);
    }
}

proof fn lemma_decimal_is_its_number(n: nat)
    ensures
        number_of(decimal_digits(n), 10) == Some(n),
    decreases n,
{
    lemma_decimal_digits_are_digits(n);
    if n >= 10 {
        let high = decimal_digits(n / 10);
        lemma_decimal_is_its_number(n / 10);
        lemma_decimal_digits_are_digits(n / 10);
        assert(decimal_digits(n).drop_last() =~= high);
        assert(decimal_digits(n).last() == digit_char((n % 10) as int));
    }
}

/// A number that is written in decimal is read back as itself.
pub proof fn law_decimal_is_read_back(n: u64)
    ensures
        parsed_number(decimal_digits(n as nat), 10) == Some(n),
        forall|i: int|
            0 <= i < decimal_digits(n as nat).len() ==> '0' <= #[trigger] decimal_digits(
                n as nat,
            )[i] <= '9',
        n > 0 ==> decimal_digits(n as nat)[0] != '0',
{
    lemma_decimal_is_its_number(n as nat);
    lemma_decimal_digits_are_digits(n as nat);
    if n > 0 {
        lemma_decimal_has_no_leading_zero(n as nat);
    }
}

proof fn lemma_decimal_has_no_leading_zero(n: nat)
    requires
        n > 0,
    ensures
        decimal_digits(n)[0] != '0',
    decreases n,
{
    if n >= 10 {
        lemma_decimal_has_no_leading_zero(n / 10);
        lemma_decimal_digits_are_digits(n / 10);
    }
}

/// Below zero a number has a minus, else none, or a plus where one is always written.
pub proof fn law_signs_tell_the_side_of_zero(n: nat)
    requires
        n > 0,
    ensures
        signed_digits(-(n as int)) == "-"@ + decimal_digits(n),
        signed_digits(n as int) == decimal_digits(n),
        plus_digits(-(n as int)) == "-"@ + decimal_digits(n),
        plus_digits(n as int) == "+"@ + decimal_digits(n),
        plus_digits(0) == "+"@ + decimal_digits(0),
{
}

/// True of a number that has no more hexadecimal digits than `width`.
pub open spec fn fits_hex(n: nat, width: nat) -> bool
    decreases width,
{
    if width == 0 {
        n == 0
    } else {
        fits_hex(n / 16, (width - 1) as nat)
    }
}

/// A number that is written in hexadecimal is read back as itself, and is as wide as asked.
pub proof fn law_hexadecimal_is_read_back(n: nat, width: nat)
    requires
        width > 0,
        fits_hex(n, width),
    ensures
        hex_digits(n, width).len() == width,
        number_of(hex_digits(n, width), 16) == Some(n),
    decreases width,
{
    reveal_with_fuel(hex_digits, 2);
    reveal_with_fuel(fits_hex, 2);
    let high = hex_digits(n / 16, (width - 1) as nat);
    if width > 1 {
        law_hexadecimal_is_read_back(n / 16, (width - 1) as nat);
    }
    assert(hex_digits(n, width).drop_last() =~= high);
    assert(hex_digits(n, width).last() == hex_char((n % 16) as int));
}

/// A number on a clock has two digits at least, and is read as itself.
pub proof fn law_clock_numbers_have_two_digits(n: nat)
    requires
        n < 100,
    ensures
        two_digits(n).len() == 2,
        number_of(two_digits(n), 10) == Some(n),
{
    reveal_with_fuel(decimal_digits, 3);
    reveal_with_fuel(number_of, 3);
    if n < 10 {
        assert(two_digits(n) =~= seq!['0', digit_char(n as int)]);
        assert(two_digits(n).drop_last() =~= seq!['0']);
    } else {
        assert(two_digits(n) =~= seq![digit_char((n / 10) as int), digit_char((n % 10) as int)]);
        assert(two_digits(n).drop_last() =~= seq![digit_char((n / 10) as int)]);
    }
}

/// The first of a character cuts a text in two: what comes before it has none of it.
pub proof fn law_first_cuts_a_text(head: Seq<char>, c: char, tail: Seq<char>)
    requires
        !head.contains(c),
    ensures
        before_first(head + seq![c] + tail, c) == head,
        after_first(head + seq![c] + tail, c) == Some(tail),
        before_first(head, c) == head,
        after_first(head, c) is None,
{
    let text = head + seq![c] + tail;
    let at: int = head.len() as int;
    assert forall|k: int| 0 <= k < at implies text[k] != c && head[k] != c by {
        assert(head.contains(head[k]));
    }
    lemma_before_first(text, c, at);
    lemma_before_first(head, c, at);
    assert(text.take(at) =~= head);
    assert(head.take(at) =~= head);
    assert(text.skip(at + 1) =~= tail);
}

/// The last of a character cuts a text in two: what comes after it has none of it.
pub proof fn law_last_cuts_a_text(head: Seq<char>, c: char, tail: Seq<char>)
    requires
        !tail.contains(c),
    ensures
        after_last(head + seq![c] + tail, c) == tail,
        after_last(tail, c) == tail,
    decreases tail.len(),
{
    let text = head + seq![c] + tail;
    if tail.len() == 0 {
        assert(text.last() == c);
        assert(after_last(text, c) =~= tail);
        assert(after_last(tail, c) =~= tail);
    } else {
        let less = tail.drop_last();
        assert(tail.contains(tail.last()));
        assert(!less.contains(c)) by {
            if less.contains(c) {
                let k = choose|k: int| 0 <= k < less.len() && less[k] == c;
                assert(tail[k] == c);
            }
        }
        law_last_cuts_a_text(head, c, less);
        assert(text.drop_last() =~= head + seq![c] + less);
        assert(text.last() == tail.last());
        assert(less.push(tail.last()) =~= tail);
    }
}

proof fn lemma_front_of_longer(text: Seq<char>, c: char)
    ensures
        trimmed_front(text.push(c), c) == (if trimmed_front(text, c).len() > 0 {
            trimmed_front(text, c).push(c)
        } else {
            Seq::empty()
        }),
        trimmed_front(text, c).len() > 0 ==> trimmed_front(text, c)[0] != c
            && trimmed_front(text, c).last() == text.last(),
    decreases text.len(),
{
    if text.len() == 0 {
        assert(text.push(c).skip(1) =~= Seq::<char>::empty());
        assert(trimmed_front(text.push(c).skip(1), c) =~= Seq::<char>::empty());
    } else if text[0] == c {
        lemma_front_of_longer(text.skip(1), c);
        assert(text.push(c).skip(1) =~= text.skip(1).push(c));
    }
}

proof fn lemma_back_ends_otherwise(text: Seq<char>, c: char)
    ensures
        trimmed_back(text, c).len() > 0 ==> trimmed_back(text, c).last() != c
            && trimmed_back(text, c)[0] == text[0],
    decreases text.len(),
{
    if text.len() > 0 && text.last() == c {
        lemma_back_ends_otherwise(text.drop_last(), c);
    }
}

/// Trimming takes a character away at either end, as often as it stands there, and nothing
/// else.
pub proof fn law_trimming_takes_the_ends(text: Seq<char>, c: char)
    ensures
        trimmed(seq![c] + text, c) == trimmed(text, c),
        trimmed(text.push(c), c) == trimmed(text, c),
        trimmed(text, c).len() > 0 ==> trimmed(text, c)[0] != c && trimmed(text, c).last() != c,
        text.len() > 0 && text[0] != c && text.last() != c ==> trimmed(text, c) == text,
{
    let front = trimmed_front(text, c);
    assert((seq![c] + text).skip(1) =~= text);
    lemma_front_of_longer(text, c);
    lemma_back_ends_otherwise(front, c);
    if front.len() > 0 {
        assert(front.push(c).drop_last() =~= front);
    }
}

/// Lower case changes the twenty-six capitals and nothing else, and is its own lower case.
pub proof fn law_lower_case_changes_capitals(text: Seq<char>)
    ensures
        lower(text).len() == text.len(),
        forall|i: int|
            0 <= i < text.len() ==> (#[trigger] lower(text)[i]) as int == (if 'A' <= text[i] <= 'Z' {
                text[i] as int + 32
            } else {
                text[i] as int
            }),
        lower(lower(text)) =~= lower(text),
{
}

} // verus!
