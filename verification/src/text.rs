//! Work on text: characters, words, and whole numbers in decimal.

use vstd::prelude::*;

verus! {

/// The characters of a text, in order.
pub fn chars_of(text: &str) -> (chars: Vec<char>)
    ensures
        chars@ == text@,
{
    let mut chars: Vec<char> = Vec::new();
    for c in it: text.chars()
        invariant
            chars@ == it.seq().take(it.index() as int),
            it.seq() == text@,
    {
        chars.push(c);
    }
    chars
}

/// Whether `prefix` stands at the start of `text`.
pub open spec fn has_prefix(text: Seq<char>, prefix: Seq<char>) -> bool {
    prefix.len() <= text.len() && text.take(prefix.len() as int) == prefix
}

/// Tells whether `prefix` stands at the start of `text`.
pub fn starts_with(text: &Vec<char>, prefix: &Vec<char>) -> (found: bool)
    ensures
        found == has_prefix(text@, prefix@),
{
    if prefix.len() > text.len() {
        return false;
    }
    let mut i: usize = 0;
    while i < prefix.len()
        invariant
            i <= prefix.len() <= text.len(),
            text@.take(i as int) == prefix@.take(i as int),
        decreases prefix.len() - i,
    {
        if text[i] != prefix[i] {
            assert(text@.take(prefix.len() as int)[i as int] != prefix@[i as int]);
            return false;
        }
        assert(text@.take(i + 1) == text@.take(i as int).push(text@[i as int]));
        assert(prefix@.take(i + 1) == prefix@.take(i as int).push(prefix@[i as int]));
        i += 1;
    }
    assert(prefix@ == prefix@.take(prefix.len() as int));
    true
}

/// Whether a character is white space: one of the code points that carry that
/// property in Unicode.
pub open spec fn is_space(c: char) -> bool {
    let p = c as u32;
    ||| 0x09 <= p <= 0x0d
    ||| p == 0x20
    ||| p == 0x85
    ||| p == 0xa0
    ||| p == 0x1680
    ||| 0x2000 <= p <= 0x200a
    ||| p == 0x2028
    ||| p == 0x2029
    ||| p == 0x202f
    ||| p == 0x205f
    ||| p == 0x3000
}

/// Tells whether a character is white space.
pub fn is_whitespace(c: char) -> (space: bool)
    ensures
        space == is_space(c),
{
    let p: u32 = c as u32;
    (0x09 <= p && p <= 0x0d) || p == 0x20 || p == 0x85 || p == 0xa0 || p == 0x1680 || (0x2000
        <= p && p <= 0x200a) || p == 0x2028 || p == 0x2029 || p == 0x202f || p == 0x205f || p
        == 0x3000
}

/// The length of the word that `text` starts with: of its longest prefix that holds
/// no white space.
pub open spec fn word_len(text: Seq<char>) -> nat
    decreases text.len(),
{
    if text.len() == 0 || is_space(text[0]) {
        0
    } else {
        1 + word_len(text.skip(1))
    }
}

/// The words of a text: its longest runs of characters other than white space, in order.
pub open spec fn words(text: Seq<char>) -> Seq<Seq<char>>
    decreases text.len(),
    via words_end
{
    if text.len() == 0 {
        Seq::empty()
    } else if is_space(text[0]) {
        words(text.skip(1))
    } else {
        let n = word_len(text) as int;
        seq![text.take(n)] + words(text.skip(n))
    }
}

/// The words of a text are found in the end: each takes a character at least.
#[via_fn]
proof fn words_end(text: Seq<char>) {
    lemma_word_len_bounds(text);
}

/// A word ends within its text, and is not empty where the text starts with one.
proof fn lemma_word_len_bounds(text: Seq<char>)
    ensures
        word_len(text) <= text.len(),
        text.len() > 0 && !is_space(text[0]) ==> word_len(text) > 0,
    decreases text.len(),
{
    if text.len() == 0 || is_space(text[0]) {
    } else {
        lemma_word_len_bounds(text.skip(1));
    }
}

/// The word length of a text whose first `n` characters are no white space and whose
/// next one, if it has one, is.
proof fn lemma_word_len_is(text: Seq<char>, n: int)
    requires
        0 <= n <= text.len(),
        forall|i: int| 0 <= i < n ==> !is_space(#[trigger] text[i]),
        n < text.len() ==> is_space(text[n]),
    ensures
        word_len(text) == n,
    decreases n,
{
    if n == 0 {
    } else {
        let rest = text.skip(1);
        assert forall|i: int| 0 <= i < n - 1 implies !is_space(#[trigger] rest[i]) by {
            assert(rest[i] == text[i + 1]);
        }
        if n - 1 < rest.len() {
            assert(rest[n - 1] == text[n]);
        }
        lemma_word_len_is(rest, n - 1);
    }
}

/// What each text of a sequence holds.
pub open spec fn texts(items: Seq<String>) -> Seq<Seq<char>> {
    Seq::new(items.len(), |i: int| items[i]@)
}

/// Cuts a text into its words.
pub fn split_words(text: &str) -> (found: Vec<String>)
    ensures
        texts(found@) == words(text@),
{
    let chars = chars_of(text);
    let n = chars.len();
    let mut found: Vec<String> = Vec::new();
    let mut i: usize = 0;
    assert(text@.skip(0) == text@);
    assert(texts(found@) + words(text@) == words(text@));
    while i < n
        invariant
            i <= n,
            n == chars.len(),
            chars@ == text@,
            texts(found@) + words(text@.skip(i as int)) == words(text@),
        decreases n - i,
    {
        let ghost rest = text@.skip(i as int);
        assert(rest.len() > 0 && rest[0] == chars@[i as int]);
        if is_whitespace(chars[i]) {
            assert(rest.skip(1) == text@.skip(i + 1));
            i += 1;
        } else {
            let start = i;
            let mut j: usize = i + 1;
            while j < n && !is_whitespace(chars[j])
                invariant
                    start < j <= n,
                    n == chars.len(),
                    forall|k: int| start <= k < j ==> !is_space(#[trigger] chars@[k]),
                decreases n - j,
            {
                j += 1;
            }
            proof {
                assert forall|k: int| 0 <= k < j - start implies !is_space(
                    #[trigger] rest[k],
                ) by {
                    assert(rest[k] == chars@[start + k]);
                }
                if j - start < rest.len() {
                    assert(rest[j - start] == chars@[j as int]);
                }
                lemma_word_len_is(rest, j - start);
                assert(rest.take(j - start) == text@.subrange(start as int, j as int));
                assert(rest.skip(j - start) == text@.skip(j as int));
            }
            let word = String::from_str(text.substring_char(start, j));
            let ghost before = found@;
            found.push(word);
            assert(texts(found@) == texts(before) + seq![word@]);
            assert(texts(before) + (seq![word@] + words(text@.skip(j as int))) == (texts(before)
                + seq![word@]) + words(text@.skip(j as int)));
            i = j;
        }
    }
    assert(text@.skip(n as int).len() == 0);
    assert(texts(found@) + Seq::<Seq<char>>::empty() == texts(found@));
    found
}

/// Whether a character is one of the ten decimal digits.
pub open spec fn is_digit(c: char) -> bool {
    '0' <= c <= '9'
}

/// The number that a decimal digit stands for.
pub open spec fn digit_value(c: char) -> int {
    c as int - 0x30
}

/// Whether a text holds decimal digits only.
pub open spec fn all_digits(text: Seq<char>) -> bool {
    forall|i: int| 0 <= i < text.len() ==> is_digit(#[trigger] text[i])
}

/// The number that a run of decimal digits writes.
pub open spec fn digits_value(text: Seq<char>) -> int
    decreases text.len(),
{
    if text.len() == 0 {
        0
    } else {
        digits_value(text.drop_last()) * 10 + digit_value(text.last())
    }
}

/// Whether a numeral starts with a sign.
pub open spec fn has_sign(text: Seq<char>) -> bool {
    text.len() > 0 && (text[0] == '-' || text[0] == '+')
}

/// The digits of a numeral: what follows its sign, or all of it where it has none.
pub open spec fn numeral_digits(text: Seq<char>) -> Seq<char> {
    if has_sign(text) {
        text.skip(1)
    } else {
        text
    }
}

/// The number that a numeral writes: an optional sign, then one decimal digit or
/// more, and nothing else. `None` for every other text.
pub open spec fn numeral_value(text: Seq<char>) -> Option<int> {
    let digits = numeral_digits(text);
    if digits.len() > 0 && all_digits(digits) {
        if text[0] == '-' {
            Some(-digits_value(digits))
        } else {
            Some(digits_value(digits))
        }
    } else {
        None
    }
}

/// The number that a numeral writes, where it lies between `low` and `high`.
pub open spec fn numeral_within(text: Seq<char>, low: int, high: int) -> Option<int> {
    match numeral_value(text) {
        Some(value) => if low <= value <= high {
            Some(value)
        } else {
            None
        },
        None => None,
    }
}

/// A run of digits writes no less than any of its prefixes does.
proof fn lemma_digits_value_grows(text: Seq<char>, n: int)
    requires
        all_digits(text),
        0 <= n <= text.len(),
    ensures
        0 <= digits_value(text.take(n)) <= digits_value(text),
    decreases text.len() - n,
{
    if n == text.len() {
        assert(text.take(n) == text);
        lemma_digits_value_nonnegative(text);
    } else {
        let front = text.drop_last();
        assert(front.take(n) == text.take(n));
        assert(all_digits(front)) by {
            assert forall|i: int| 0 <= i < front.len() implies is_digit(#[trigger] front[i]) by {
                assert(front[i] == text[i]);
            }
        }
        lemma_digits_value_grows(front, n);
        assert(is_digit(text[text.len() - 1]));
    }
}

/// A run of digits writes no negative number.
proof fn lemma_digits_value_nonnegative(text: Seq<char>)
    requires
        all_digits(text),
    ensures
        0 <= digits_value(text),
    decreases text.len(),
{
    if text.len() > 0 {
        let front = text.drop_last();
        assert forall|i: int| 0 <= i < front.len() implies is_digit(#[trigger] front[i]) by {
            assert(front[i] == text[i]);
        }
        lemma_digits_value_nonnegative(front);
        assert(is_digit(text[text.len() - 1]));
    }
}

/// Reads the number that a run of characters writes in decimal digits, where it is
/// no more than `limit`.
fn read_digits(chars: &Vec<char>, from: usize, limit: u64) -> (value: Option<u64>)
    requires
        from <= chars.len(),
    ensures
        value matches Some(v) ==> from < chars.len() && all_digits(chars@.skip(from as int)) && v
            == digits_value(chars@.skip(from as int)) && v <= limit,
        value is None ==> from == chars.len() || !all_digits(chars@.skip(from as int))
            || digits_value(chars@.skip(from as int)) > limit,
{
    let ghost digits = chars@.skip(from as int);
    if from == chars.len() {
        return None;
    }
    let mut total: u64 = 0;
    let mut i: usize = from;
    assert(digits.take(0) == Seq::<char>::empty());
    while i < chars.len()
        invariant
            from <= i <= chars.len(),
            digits == chars@.skip(from as int),
            all_digits(digits.take(i - from)),
            total == digits_value(digits.take(i - from)),
            total <= limit,
        decreases chars.len() - i,
    {
        let c = chars[i];
        let ghost seen = digits.take(i - from + 1);
        proof {
            assert(seen.drop_last() == digits.take(i - from));
            assert(seen.last() == c);
        }
        if c < '0' || c > '9' {
            assert(digits[i - from] == c);
            return None;
        }
        let digit: u64 = (c as u32 - 0x30) as u64;
        assert(all_digits(seen)) by {
            assert forall|k: int| 0 <= k < seen.len() implies is_digit(#[trigger] seen[k]) by {
                if k < seen.len() - 1 {
                    assert(seen[k] == digits.take(i - from)[k]);
                }
            }
        }
        let next: u128 = total as u128 * 10 + digit as u128;
        if next > limit as u128 {
            proof {
                assert(digits_value(seen) > limit);
                if all_digits(digits) {
                    lemma_digits_value_grows(digits, i - from + 1);
                }
            }
            return None;
        }
        total = next as u64;
        i += 1;
    }
    assert(digits.take(i - from) == digits);
    Some(total)
}

/// The signed number of 32 bits that a text writes: an optional `+` or `-`, then
/// decimal digits. `None` where the text is anything else, or the number does not fit.
pub open spec fn numeral_i32(text: Seq<char>) -> Option<i32> {
    match numeral_within(text, i32::MIN as int, i32::MAX as int) {
        Some(value) => Some(value as i32),
        None => None,
    }
}

/// The unsigned number of 64 bits that a text writes: an optional `+`, then decimal
/// digits. `None` where the text is anything else, a `-` before zero too, or the
/// number does not fit.
pub open spec fn numeral_u64(text: Seq<char>) -> Option<u64> {
    match numeral_within(text, 0, u64::MAX as int) {
        Some(value) => if text[0] == '-' {
            None
        } else {
            Some(value as u64)
        },
        None => None,
    }
}

/// Reads a signed number of 32 bits.
pub fn parse_i32(text: &str) -> (value: Option<i32>)
    ensures
        value == numeral_i32(text@),
{
    let chars = chars_of(text);
    if chars.len() == 0 {
        return None;
    }
    let negative = chars[0] == '-';
    let from: usize = if negative || chars[0] == '+' {
        1
    } else {
        0
    };
    assert(chars@.skip(0) == chars@);
    let limit: u64 = if negative {
        0x8000_0000
    } else {
        0x7fff_ffff
    };
    proof {
        if from < chars.len() && all_digits(chars@.skip(from as int)) {
            lemma_digits_value_nonnegative(chars@.skip(from as int));
        }
    }
    match read_digits(&chars, from, limit) {
        Some(v) => {
            if negative {
                Some((-(v as i64)) as i32)
            } else {
                Some(v as i32)
            }
        },
        None => None,
    }
}

/// Reads an unsigned number of 64 bits.
pub fn parse_u64(text: &str) -> (value: Option<u64>)
    ensures
        value == numeral_u64(text@),
{
    let chars = chars_of(text);
    if chars.len() == 0 || chars[0] == '-' {
        return None;
    }
    let from: usize = if chars[0] == '+' {
        1
    } else {
        0
    };
    assert(chars@.skip(0) == chars@);
    proof {
        if from < chars.len() && all_digits(chars@.skip(from as int)) {
            lemma_digits_value_nonnegative(chars@.skip(from as int));
        }
    }
    read_digits(&chars, from, u64::MAX)
}

/// The character that writes a number below ten.
pub open spec fn digit_char(digit: int) -> char {
    (0x30 + digit) as u8 as char
}

/// A natural number in decimal digits, without leading zeros.
pub open spec fn natural_text(n: nat) -> Seq<char>
    decreases n,
{
    if n < 10 {
        seq![digit_char(n as int)]
    } else {
        natural_text(n / 10).push(digit_char(n as int % 10))
    }
}

/// A whole number in decimal digits, with `-` before it where it is negative.
pub open spec fn integer_text(n: int) -> Seq<char> {
    if n < 0 {
        seq!['-'] + natural_text((-n) as nat)
    } else {
        natural_text(n as nat)
    }
}

/// The text of one decimal digit.
fn digit_text(digit: u64) -> (text: &'static str)
    requires
        digit < 10,
    ensures
        text@ == seq![digit_char(digit as int)],
{
    proof {
        reveal_strlit("0");
        reveal_strlit("1");
        reveal_strlit("2");
        reveal_strlit("3");
        reveal_strlit("4");
        reveal_strlit("5");
        reveal_strlit("6");
        reveal_strlit("7");
        reveal_strlit("8");
        reveal_strlit("9");
    }
    let text = if digit == 0 {
        "0"
    } else if digit == 1 {
        "1"
    } else if digit == 2 {
        "2"
    } else if digit == 3 {
        "3"
    } else if digit == 4 {
        "4"
    } else if digit == 5 {
        "5"
    } else if digit == 6 {
        "6"
    } else if digit == 7 {
        "7"
    } else if digit == 8 {
        "8"
    } else {
        "9"
    };
    assert(text@ =~= seq![digit_char(digit as int)]);
    text
}

/// Writes a natural number in decimal digits at the end of `out`.
pub fn push_natural(out: &mut String, n: u64)
    ensures
        final(out)@ == old(out)@ + natural_text(n as nat),
    decreases n,
{
    if n >= 10 {
        push_natural(out, n / 10);
    }
    out.append(digit_text(n % 10));
    proof {
        if n >= 10 {
            assert(final(out)@ =~= old(out)@ + natural_text(n as nat));
        } else {
            assert(final(out)@ =~= old(out)@ + natural_text(n as nat));
        }
    }
}

/// Writes a whole number in decimal digits at the end of `out`.
pub fn push_integer(out: &mut String, n: i64)
    ensures
        final(out)@ == old(out)@ + integer_text(n as int),
{
    if n < 0 {
        proof {
            reveal_strlit("-");
        }
        out.append("-");
        let magnitude: u64 = (-(n as i128)) as u64;
        push_natural(out, magnitude);
        assert(final(out)@ =~= old(out)@ + integer_text(n as int));
    } else {
        push_natural(out, n as u64);
    }
}

/// The texts of a sequence, one after the other, with `separator` between each two.
pub open spec fn joined(parts: Seq<Seq<char>>, separator: Seq<char>) -> Seq<char>
    decreases parts.len(),
{
    if parts.len() == 0 {
        Seq::empty()
    } else if parts.len() == 1 {
        parts[0]
    } else {
        joined(parts.drop_last(), separator) + separator + parts.last()
    }
}

/// Strings texts together, with `separator` between each two.
pub fn join(parts: &Vec<String>, separator: &str) -> (whole: String)
    ensures
        whole@ == joined(texts(parts@), separator@),
{
    let mut whole = String::new();
    let mut i: usize = 0;
    while i < parts.len()
        invariant
            i <= parts.len(),
            whole@ == joined(texts(parts@).take(i as int), separator@),
        decreases parts.len() - i,
    {
        let ghost seen = texts(parts@).take(i + 1);
        proof {
            assert(seen.drop_last() == texts(parts@).take(i as int));
            assert(seen.last() == parts@[i as int]@);
        }
        if i > 0 {
            whole.append(separator);
        }
        whole.append(parts[i].as_str());
        assert(whole@ =~= joined(seen, separator@));
        i += 1;
    }
    assert(texts(parts@).take(parts.len() as int) == texts(parts@));
    whole
}

/// The text that an optional text holds, and no text where it is absent.
pub open spec fn text_or_empty(text: Option<String>) -> Seq<char> {
    match text {
        Some(t) => t@,
        None => Seq::empty(),
    }
}

} // verus!
