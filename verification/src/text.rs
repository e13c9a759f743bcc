//! Text: characters, decimal and hexadecimal numbers, and the small grammar
//! of version strings.

use vstd::prelude::*;
use vstd::string::*;

verus! {

/// Whether a character is white space, as Unicode defines it.
pub open spec fn spec_is_space(c: char) -> bool {
    ||| ('\u{9}' <= c && c <= '\u{d}')
    ||| c == ' '
    ||| c == '\u{85}'
    ||| c == '\u{a0}'
    ||| c == '\u{1680}'
    ||| ('\u{2000}' <= c && c <= '\u{200a}')
    ||| c == '\u{2028}'
    ||| c == '\u{2029}'
    ||| c == '\u{202f}'
    ||| c == '\u{205f}'
    ||| c == '\u{3000}'
}

pub fn is_space(c: char) -> (result: bool)
    ensures
        result == spec_is_space(c),
{
    ('\u{9}' <= c && c <= '\u{d}') || c == ' ' || c == '\u{85}' || c == '\u{a0}' || c == '\u{1680}'
        || ('\u{2000}' <= c && c <= '\u{200a}') || c == '\u{2028}' || c == '\u{2029}' || c
        == '\u{202f}' || c == '\u{205f}' || c == '\u{3000}'
}

/// Whether a character is white space of ASCII.
pub open spec fn spec_is_ascii_space(c: char) -> bool {
    c == ' ' || c == '\u{9}' || c == '\u{a}' || c == '\u{c}' || c == '\u{d}'
}

pub fn is_ascii_space(c: char) -> (result: bool)
    ensures
        result == spec_is_ascii_space(c),
{
    c == ' ' || c == '\u{9}' || c == '\u{a}' || c == '\u{c}' || c == '\u{d}'
}

/// Whether a character is a decimal digit.
pub open spec fn spec_is_digit(c: char) -> bool {
    '0' <= c && c <= '9'
}

pub fn is_digit(c: char) -> (result: bool)
    ensures
        result == spec_is_digit(c),
{
    '0' <= c && c <= '9'
}

/// A class of characters.
#[derive(Clone, Copy, Debug, PartialEq, Eq, Structural)]
pub enum CharClass {
    /// White space.
    Space,
    /// What makes up words: everything but white space.
    Word,
    /// What stands between dots.
    Part,
    /// What versions are made of: digits and dots.
    Version,
    /// Everything but what versions are made of.
    Other,
    /// White space of ASCII.
    AsciiSpace,
    /// Everything but white space of ASCII.
    AsciiWord,
}

impl CharClass {
    pub open spec fn has(self, c: char) -> bool {
        match self {
            CharClass::Space => spec_is_space(c),
            CharClass::Word => !spec_is_space(c),
            CharClass::Part => c != '.',
            CharClass::Version => spec_is_digit(c) || c == '.',
            CharClass::Other => !(spec_is_digit(c) || c == '.'),
            CharClass::AsciiSpace => spec_is_ascii_space(c),
            CharClass::AsciiWord => !spec_is_ascii_space(c),
        }
    }

    fn test(self, c: char) -> (result: bool)
        ensures
            result == self.has(c),
    {
        match self {
            CharClass::Space => is_space(c),
            CharClass::Word => !is_space(c),
            CharClass::Part => c != '.',
            CharClass::Version => is_digit(c) || c == '.',
            CharClass::Other => !(is_digit(c) || c == '.'),
            CharClass::AsciiSpace => is_ascii_space(c),
            CharClass::AsciiWord => !is_ascii_space(c),
        }
    }
}

/// How many characters at the start are of a class.
pub open spec fn lead(s: Seq<char>, class: CharClass) -> nat
    decreases s.len(),
{
    if s.len() > 0 && class.has(s[0]) {
        1 + lead(s.skip(1), class)
    } else {
        0
    }
}

/// The leading characters are of the class, and the next one is not.
pub proof fn lead_is_maximal(s: Seq<char>, class: CharClass)
    ensures
        lead(s, class) <= s.len(),
        forall|i: int| 0 <= i < lead(s, class) ==> class.has(#[trigger] s[i]),
        lead(s, class) < s.len() ==> !class.has(s[lead(s, class) as int]),
    decreases s.len(),
{
    if s.len() > 0 && class.has(s[0]) {
        lead_is_maximal(s.skip(1), class);
        assert forall|i: int| 0 <= i < lead(s, class) implies class.has(#[trigger] s[i]) by {
            if i > 0 {
                assert(s.skip(1)[i - 1] == s[i]);
            }
        }
        if lead(s, class) < s.len() {
            assert(s.skip(1)[lead(s.skip(1), class) as int] == s[lead(s, class) as int]);
        }
    }
}

proof fn lemma_lead(s: Seq<char>, class: CharClass, n: nat)
    requires
        n <= s.len(),
        forall|i: int| 0 <= i < n ==> class.has(#[trigger] s[i]),
        n < s.len() ==> !class.has(s[n as int]),
    ensures
        lead(s, class) == n,
{
    lead_is_maximal(s, class);
    if lead(s, class) < n {
        assert(class.has(s[lead(s, class) as int]));
    }
    if n < lead(s, class) {
        assert(class.has(s[n as int]));
    }
}

/// The text without the white space at its start.
pub open spec fn trimmed_start(s: Seq<char>) -> Seq<char> {
    s.skip(lead(s, CharClass::Space) as int)
}

/// The text without the white space around it.
pub open spec fn trimmed(s: Seq<char>) -> Seq<char> {
    trimmed_start(trimmed_start(s).reverse()).reverse()
}

/// Whether the text is nothing but white space.
pub open spec fn spec_is_blank(s: Seq<char>) -> bool {
    forall|i: int| 0 <= i < s.len() ==> spec_is_space(#[trigger] s[i])
}

/// A text is blank exactly if nothing is left of it.
pub proof fn blank_texts_trim_to_nothing(s: Seq<char>)
    ensures
        spec_is_blank(s) == (trimmed(s).len() == 0),
{
    let space = CharClass::Space;
    lead_is_maximal(s, space);
    let rest = trimmed_start(s);
    lead_is_maximal(rest.reverse(), space);
    if spec_is_blank(s) {
        if lead(s, space) < s.len() {
            assert(spec_is_space(s[lead(s, space) as int]));
        }
    } else {
        let n = lead(s, space);
        if n == s.len() {
            assert forall|i: int| 0 <= i < s.len() implies spec_is_space(#[trigger] s[i]) by {
                assert(space.has(s[i]));
            }
        }
        assert(rest[0] == s[n as int]);
        assert(rest.reverse()[rest.len() - 1] == rest[0]);
        if lead(rest.reverse(), space) == rest.len() {
            assert(space.has(rest.reverse()[rest.len() - 1]));
        }
    }
}

/// The characters of a text.
pub fn chars_of(text: &str) -> (result: Vec<char>)
    ensures
        result@ == text@,
{
    let mut result: Vec<char> = Vec::new();
    let n: usize = text.unicode_len();
    let mut at: usize = 0;
    while at < n
        invariant
            n == text@.len(),
            at <= n,
            result@ == text@.take(at as int),
        decreases n - at,
    {
        result.push(text.get_char(at));
        at += 1;
        assert(result@ =~= text@.take(at as int));
    }
    assert(text@.take(n as int) =~= text@);
    result
}

/// Whether the text is nothing but white space.
pub fn is_blank(text: &str) -> (result: bool)
    ensures
        result == spec_is_blank(text@),
{
    let n: usize = text.unicode_len();
    let mut at: usize = 0;
    while at < n
        invariant
            n == text@.len(),
            at <= n,
            forall|i: int| 0 <= i < at ==> spec_is_space(#[trigger] text@[i]),
        decreases n - at,
    {
        if !is_space(text.get_char(at)) {
            return false;
        }
        at += 1;
    }
    true
}

/// The text without the white space around it.
pub fn trim(text: &str) -> (result: String)
    ensures
        result@ == trimmed(text@),
{
    let n: usize = text.unicode_len();
    let ghost space = CharClass::Space;
    let mut from: usize = 0;
    while from < n && is_space(text.get_char(from))
        invariant
            n == text@.len(),
            from <= n,
            forall|i: int| 0 <= i < from ==> spec_is_space(#[trigger] text@[i]),
        decreases n - from,
    {
        from += 1;
    }
    proof {
        lemma_lead(text@, space, from as nat);
    }
    let ghost rest = text@.skip(from as int);
    let mut to: usize = n;
    while to > from && is_space(text.get_char(to - 1))
        invariant
            n == text@.len(),
            from <= to <= n,
            forall|i: int| to <= i < n ==> spec_is_space(#[trigger] text@[i]),
        decreases to,
    {
        to -= 1;
    }
    proof {
        let back = rest.reverse();
        let cut = (n - to) as nat;
        assert forall|i: int| 0 <= i < cut implies space.has(#[trigger] back[i]) by {
            assert(back[i] == text@[n - 1 - i]);
        }
        if cut < back.len() {
            assert(back[cut as int] == text@[to - 1]);
        }
        lemma_lead(back, space, cut);
        assert(trimmed(text@) =~= text@.subrange(from as int, to as int));
    }
    let slice = text.substring_char(from, to);
    slice.to_owned()
}

/// Where the leading characters of a class end.
pub fn lead_end(chars: &Vec<char>, from: usize, to: usize, class: CharClass) -> (result: usize)
    requires
        from <= to <= chars@.len(),
    ensures
        from <= result <= to,
        result - from == lead(chars@.subrange(from as int, to as int), class),
{
    let ghost s = chars@.subrange(from as int, to as int);
    let mut at: usize = from;
    while at < to && class.test(chars[at])
        invariant
            from <= at <= to <= chars@.len(),
            s == chars@.subrange(from as int, to as int),
            forall|i: int| 0 <= i < at - from ==> class.has(#[trigger] s[i]),
        decreases to - at,
    {
        assert(s[at - from] == chars@[at as int]);
        at += 1;
    }
    proof {
        if at < to {
            assert(s[at - from] == chars@[at as int]);
        }
        lemma_lead(s, class, (at - from) as nat);
    }
    at
}

/// Whether a text starts with another.
pub open spec fn starts_with(s: Seq<char>, prefix: Seq<char>) -> bool {
    prefix.len() <= s.len() && s.take(prefix.len() as int) == prefix
}

/// Whether the characters start with a text.
pub fn has_prefix(chars: &Vec<char>, prefix: &str) -> (result: bool)
    ensures
        result == starts_with(chars@, prefix@),
{
    let n: usize = prefix.unicode_len();
    if chars.len() < n {
        return false;
    }
    let mut at: usize = 0;
    while at < n
        invariant
            n == prefix@.len(),
            n <= chars@.len(),
            at <= n,
            forall|i: int| 0 <= i < at ==> chars@[i] == #[trigger] prefix@[i],
        decreases n - at,
    {
        if chars[at] != prefix.get_char(at) {
            assert(chars@.take(n as int)[at as int] != prefix@[at as int]);
            return false;
        }
        at += 1;
    }
    assert(chars@.take(n as int) =~= prefix@);
    true
}

/// The value of decimal digits.
pub open spec fn decimal_value(s: Seq<char>) -> nat
    decreases s.len(),
{
    if s.len() == 0 {
        0
    } else {
        10 * decimal_value(s.drop_last()) + (s.last() as nat - '0' as nat) as nat
    }
}

/// Whether the text is one or more decimal digits.
pub open spec fn all_digits(s: Seq<char>) -> bool {
    s.len() > 0 && forall|i: int| 0 <= i < s.len() ==> spec_is_digit(#[trigger] s[i])
}

/// The digits of a number that may have a plus sign.
pub open spec fn unsigned(s: Seq<char>) -> Seq<char> {
    if s.len() > 1 && s[0] == '+' {
        s.skip(1)
    } else {
        s
    }
}

/// The number that a text spells, if it spells one that fits a byte.
pub open spec fn parsed_byte(s: Seq<char>) -> Option<u8> {
    let digits = unsigned(s);
    if all_digits(digits) && decimal_value(digits) <= u8::MAX {
        Some(decimal_value(digits) as u8)
    } else {
        None
    }
}

proof fn lemma_value_grows(s: Seq<char>, n: int)
    requires
        0 <= n <= s.len(),
        all_digits(s),
    ensures
        decimal_value(s.take(n)) <= decimal_value(s),
    decreases s.len(),
{
    if n == s.len() {
        assert(s.take(n) =~= s);
    } else if s.len() == 1 {
        assert(s.take(n).len() == 0);
    } else {
        let less = s.drop_last();
        assert forall|i: int| 0 <= i < less.len() implies spec_is_digit(#[trigger] less[i]) by {
            assert(less[i] == s[i]);
        }
        lemma_value_grows(less, n);
        assert(less.take(n) =~= s.take(n));
    }
}

/// Reads a number that fits a byte from a stretch of characters.
pub fn parse_byte(chars: &Vec<char>, from: usize, to: usize) -> (result: Option<u8>)
    requires
        from <= to <= chars@.len(),
    ensures
        result == parsed_byte(chars@.subrange(from as int, to as int)),
{
    let ghost whole = chars@.subrange(from as int, to as int);
    let start: usize = if to - from > 1 && chars[from] == '+' {
        from + 1
    } else {
        from
    };
    let ghost digits = unsigned(whole);
    assert(digits =~= chars@.subrange(start as int, to as int));
    if start == to {
        return None;
    }
    let mut value: u32 = 0;
    let mut at: usize = start;
    assert(digits.take(0) =~= Seq::<char>::empty());
    while at < to
        invariant
            start <= at <= to <= chars@.len(),
            digits == chars@.subrange(start as int, to as int),
            value <= 255,
            forall|i: int| 0 <= i < at - start ==> spec_is_digit(#[trigger] digits[i]),
            value == decimal_value(digits.take(at - start)),
            digits == unsigned(whole),
            whole == chars@.subrange(from as int, to as int),
        decreases to - at,
    {
        let c = chars[at];
        assert(digits[at - start] == c);
        if !is_digit(c) {
            return None;
        }
        let digit: u32 = c as u32 - '0' as u32;
        proof {
            let next = digits.take(at - start + 1);
            assert(next.drop_last() =~= digits.take(at - start));
            assert(next.last() == c);
        }
        value = value * 10 + digit;
        if value > 255 {
            proof {
                if all_digits(digits) {
                    lemma_value_grows(digits, at - start + 1);
                }
            }
            return None;
        }
        at += 1;
    }
    proof {
        assert(digits.take(to - start) =~= digits);
    }
    Some(value as u8)
}

/// One decimal digit.
pub open spec fn digit_char(digit: nat) -> char {
    (('0' as nat) + digit) as char
}

/// A number in decimal digits.
pub open spec fn decimal(n: nat) -> Seq<char>
    decreases n,
{
    if n < 10 {
        seq![digit_char(n)]
    } else {
        decimal(n / 10).push(digit_char(n % 10))
    }
}

/// A digit of base sixteen.
pub open spec fn hex_char(digit: nat) -> char {
    if digit < 10 {
        digit_char(digit)
    } else {
        (('a' as nat) + (digit - 10)) as char
    }
}

/// A number in at least so many digits of base sixteen.
pub open spec fn hexadecimal(n: nat, width: nat) -> Seq<char>
    decreases n + width,
{
    if n == 0 && width == 0 {
        Seq::empty()
    } else {
        hexadecimal(
            n / 16,
            if width == 0 {
                0
            } else {
                (width - 1) as nat
            },
        ).push(hex_char(n % 16))
    }
}

/// Reading a number gives back the number that was written.
pub proof fn numbers_are_read_as_written(n: nat)
    ensures
        decimal(n).len() > 0,
        forall|i: int| 0 <= i < decimal(n).len() ==> spec_is_digit(#[trigger] decimal(n)[i]),
        decimal_value(decimal(n)) == n,
    decreases n,
{
    if n < 10 {
        let s = decimal(n);
        assert(s.drop_last() =~= Seq::<char>::empty());
        assert(s.last() == digit_char(n));
        assert(decimal_value(Seq::<char>::empty()) == 0);
    } else {
        numbers_are_read_as_written(n / 10);
        let s = decimal(n);
        assert(s.drop_last() =~= decimal(n / 10));
        assert(s.last() == digit_char(n % 10));
        assert forall|i: int| 0 <= i < s.len() implies spec_is_digit(#[trigger] s[i]) by {
            if i < decimal(n / 10).len() {
                assert(s[i] == decimal(n / 10)[i]);
            }
        }
    }
}

fn digit_text(digit: u64) -> (result: &'static str)
    requires
        digit < 16,
    ensures
        result@ == seq![hex_char(digit as nat)],
{
    proof {
        reveal_strlit("0");
        reveal_strlit("1");
        reveal_strlit("2");
        reveal_strlit("3");
        reveal_strlit("4");
        reveal_strlit("5");
        reveal_strlit("6");
        reveal_strlit("7");
        reveal_strlit("8");
        reveal_strlit("9");
        reveal_strlit("a");
        reveal_strlit("b");
        reveal_strlit("c");
        reveal_strlit("d");
        reveal_strlit("e");
        reveal_strlit("f");
    }
    let result = match digit {
        0 => "0",
        1 => "1",
        2 => "2",
        3 => "3",
        4 => "4",
        5 => "5",
        6 => "6",
        7 => "7",
        8 => "8",
        9 => "9",
        10 => "a",
        11 => "b",
        12 => "c",
        13 => "d",
        14 => "e",
        _ => "f",
    };
    assert(result@ =~= seq![hex_char(digit as nat)]);
    result
}

/// Appends a number in decimal digits.
pub fn push_decimal(text: &mut String, n: u64)
    ensures
        final(text)@ == old(text)@ + decimal(n as nat),
    decreases n,
{
    if n >= 10 {
        push_decimal(text, n / 10);
    }
    let ghost before = text@;
    text.append(digit_text(n % 10));
    assert(text@ =~= before.push(digit_char(n as nat % 10)));
    assert(text@ =~= old(text)@ + decimal(n as nat));
}

/// Appends a number in at least so many digits of base sixteen.
pub fn push_hexadecimal(text: &mut String, n: u64, width: u32)
    ensures
        final(text)@ == old(text)@ + hexadecimal(n as nat, width as nat),
    decreases n, width,
{
    if n == 0 && width == 0 {
        assert(text@ =~= old(text)@ + hexadecimal(0, 0));
        return;
    }
    let less: u32 = if width == 0 {
        0
    } else {
        width - 1
    };
    push_hexadecimal(text, n / 16, less);
    let ghost before = text@;
    text.append(digit_text(n % 16));
    assert(text@ =~= before.push(hex_char(n as nat % 16)));
    assert(text@ =~= old(text)@ + hexadecimal(n as nat, width as nat));
}

/// Whether a word stands at a place of a text, with white space of ASCII or
/// nothing around it.
pub open spec fn word_at(s: Seq<char>, word: Seq<char>, at: int) -> bool {
    &&& 0 < word.len()
    &&& 0 <= at
    &&& at + word.len() <= s.len()
    &&& s.subrange(at, at + word.len()) == word
    &&& forall|i: int| 0 <= i < word.len() ==> !spec_is_ascii_space(#[trigger] word[i])
    &&& at == 0 || spec_is_ascii_space(s[at - 1])
    &&& at + word.len() == s.len() || spec_is_ascii_space(s[at + word.len()])
}

/// Whether a word stands in a text.
pub open spec fn spec_has_word(s: Seq<char>, word: Seq<char>) -> bool {
    exists|at: int| #[trigger] word_at(s, word, at)
}

/// Whether two stretches of characters are the same.
fn same_chars(chars: &Vec<char>, from: usize, to: usize, other: &Vec<char>) -> (result: bool)
    requires
        from <= to <= chars@.len(),
    ensures
        result == (chars@.subrange(from as int, to as int) == other@),
{
    let ghost s = chars@.subrange(from as int, to as int);
    if to - from != other.len() {
        return false;
    }
    let mut at: usize = 0;
    while at < other.len()
        invariant
            from <= to <= chars@.len(),
            to - from == other@.len(),
            s == chars@.subrange(from as int, to as int),
            at <= other@.len(),
            forall|i: int| 0 <= i < at ==> s[i] == #[trigger] other@[i],
        decreases other@.len() - at,
    {
        assert(s[at as int] == chars@[from + at]);
        if chars[from + at] != other[at] {
            return false;
        }
        at += 1;
    }
    assert(s =~= other@);
    true
}

/// Whether a word stands in a text.
pub fn has_word(text: &str, word: &str) -> (result: bool)
    ensures
        result == spec_has_word(text@, word@),
{
    let chars = chars_of(text);
    let wanted = chars_of(word);
    let n = chars.len();
    let mut at: usize = 0;
    while at < n
        invariant
            n == chars@.len(),
            chars@ == text@,
            wanted@ == word@,
            at <= n,
            at == 0 || at == n || spec_is_ascii_space(text@[at as int]),
            forall|i: int| i < at ==> !#[trigger] word_at(text@, word@, i),
        decreases n - at,
    {
        let start = lead_end(&chars, at, n, CharClass::AsciiSpace);
        let end = lead_end(&chars, start, n, CharClass::AsciiWord);
        let ghost spaces = chars@.subrange(at as int, n as int);
        let ghost letters = chars@.subrange(start as int, n as int);
        proof {
            lead_is_maximal(spaces, CharClass::AsciiSpace);
            lead_is_maximal(letters, CharClass::AsciiWord);
            assert forall|i: int| at <= i < start implies spec_is_ascii_space(
                #[trigger] text@[i],
            ) by {
                assert(CharClass::AsciiSpace.has(spaces[i - at]));
            }
            assert forall|i: int| start <= i < end implies !spec_is_ascii_space(
                #[trigger] text@[i],
            ) by {
                assert(CharClass::AsciiWord.has(letters[i - start]));
            }
            if start < n {
                assert(spaces[start - at] == letters[0]);
            }
            if end < n {
                assert(letters[end - start] == text@[end as int]);
            }
        }
        if start < end && same_chars(&chars, start, end, &wanted) {
            proof {
                assert forall|i: int| 0 <= i < word@.len() implies !spec_is_ascii_space(
                    #[trigger] word@[i],
                ) by {
                    assert(word@[i] == text@[start + i]);
                }
                assert(word_at(text@, word@, start as int));
            }
            return true;
        }
        proof {
            assert forall|i: int| i < end implies !#[trigger] word_at(text@, word@, i) by {
                if i >= at && word_at(text@, word@, i) {
                    assert(text@.subrange(i, i + word@.len())[0] == text@[i]);
                    assert(!spec_is_ascii_space(word@[0]));
                    if i > start {
                        assert(!spec_is_ascii_space(text@[i - 1]));
                    } else {
                        let len = word@.len() as int;
                        if start + len < end {
                            assert(!spec_is_ascii_space(text@[start + len]));
                        }
                        if end < start + len {
                            assert(word@[end - start] == text@[end as int]);
                            assert(!spec_is_ascii_space(word@[end - start]));
                        }
                    }
                }
            }
        }
        at = end;
    }
    proof {
        assert forall|i: int| !#[trigger] word_at(text@, word@, i) by {}
    }
    false
}

/// The first word of a text, with nothing but white space of ASCII before it.
pub open spec fn first_ascii_word(s: Seq<char>) -> Seq<char> {
    let rest = s.skip(lead(s, CharClass::AsciiSpace) as int);
    rest.take(lead(rest, CharClass::AsciiWord) as int)
}

/// Whether a text comes before another in the order of their characters.
pub open spec fn precedes(a: Seq<char>, b: Seq<char>) -> bool
    decreases a.len(),
{
    if b.len() == 0 {
        false
    } else if a.len() == 0 {
        true
    } else if a[0] != b[0] {
        a[0] < b[0]
    } else {
        precedes(a.skip(1), b.skip(1))
    }
}

/// Of two different texts one comes first, and only one.
pub proof fn texts_are_ordered(a: Seq<char>, b: Seq<char>)
    ensures
        !(precedes(a, b) && precedes(b, a)),
        a != b ==> precedes(a, b) || precedes(b, a),
        a == b ==> !precedes(a, b),
    decreases a.len(),
{
    if a.len() > 0 && b.len() > 0 && a[0] == b[0] {
        texts_are_ordered(a.skip(1), b.skip(1));
        if a.skip(1) == b.skip(1) {
            assert(a =~= seq![a[0]] + a.skip(1));
            assert(b =~= seq![b[0]] + b.skip(1));
        }
    } else if a.len() == 0 && b.len() == 0 {
        assert(a =~= b);
    }
}

/// What comes before a text comes before all that follow that text.
pub proof fn order_is_transitive(a: Seq<char>, b: Seq<char>, c: Seq<char>)
    requires
        precedes(a, b),
        precedes(b, c),
    ensures
        precedes(a, c),
    decreases a.len(),
{
    if a.len() > 0 && a[0] == b[0] && b[0] == c[0] {
        order_is_transitive(a.skip(1), b.skip(1), c.skip(1));
    }
}

fn comes_before(a: &str, b: &str) -> (result: bool)
    ensures
        result == precedes(a@, b@),
{
    let n: usize = a.unicode_len();
    let m: usize = b.unicode_len();
    let mut at: usize = 0;
    assert(a@.skip(0) =~= a@);
    assert(b@.skip(0) =~= b@);
    while at < n && at < m
        invariant
            n == a@.len(),
            m == b@.len(),
            at <= n,
            at <= m,
            precedes(a@, b@) == precedes(a@.skip(at as int), b@.skip(at as int)),
        decreases n - at,
    {
        let x = a.get_char(at);
        let y = b.get_char(at);
        if x != y {
            return x < y;
        }
        assert(a@.skip(at as int).skip(1) =~= a@.skip(at + 1));
        assert(b@.skip(at as int).skip(1) =~= b@.skip(at + 1));
        at += 1;
    }
    at < m
}

/// Whether each text in a list comes before all that follow it.
pub open spec fn ascending(items: Seq<String>) -> bool {
    forall|i: int, j: int|
        0 <= i < j < items.len() ==> precedes(#[trigger] items[i]@, #[trigger] items[j]@)
}

/// Puts a text where it belongs, unless it is there.
fn put_in_order(items: &mut Vec<String>, text: String)
    requires
        ascending(old(items)@),
    ensures
        ascending(final(items)@),
        texts_in(final(items)@) == texts_in(old(items)@).insert(text@),
{
    let ghost before = items@;
    let ghost added = text@;
    let mut at: usize = 0;
    while at < items.len() && comes_before(items[at].as_str(), text.as_str())
        invariant
            items@ == before,
            added == text@,
            at <= before.len(),
            forall|i: int| 0 <= i < at ==> precedes(#[trigger] before[i]@, added),
        decreases before.len() - at,
    {
        at += 1;
    }
    if at < items.len() && !comes_before(text.as_str(), items[at].as_str()) {
        proof {
            texts_are_ordered(before[at as int]@, added);
            assert(before[at as int]@ == added);
            assert(texts_in(before).insert(added) =~= texts_in(before));
        }
        return;
    }
    items.insert(at, text);
    proof {
        let after = items@;
        assert(after == before.insert(at as int, text));
        assert forall|i: int, j: int| 0 <= i < j < after.len() implies precedes(
            #[trigger] after[i]@,
            #[trigger] after[j]@,
        ) by {
            let x = if i < at {
                i
            } else {
                i - 1
            };
            let y = if j < at {
                j
            } else {
                j - 1
            };
            if i == at {
                if y > at {
                    assert(precedes(before[at as int]@, before[y]@));
                    order_is_transitive(added, before[at as int]@, before[y]@);
                }
            } else if j != at {
                assert(precedes(before[x]@, before[y]@));
            }
        }
        assert forall|t: Seq<char>| texts_in(after).contains(t) == (texts_in(before).contains(t)
            || t == added) by {
            if texts_in(before).contains(t) {
                let i = choose|i: int| 0 <= i < before.len() && (#[trigger] before[i])@ == t;
                if i < at {
                    assert(after[i]@ == t);
                } else {
                    assert(after[i + 1]@ == t);
                }
            }
            if t == added {
                assert(after[at as int]@ == t);
            }
            if texts_in(after).contains(t) && t != added {
                let i = choose|i: int| 0 <= i < after.len() && (#[trigger] after[i])@ == t;
                if i < at {
                    assert(before[i]@ == t);
                } else {
                    assert(before[i - 1]@ == t);
                }
            }
        }
        assert(texts_in(after) =~= texts_in(before).insert(added));
    }
}

/// A set of texts.
#[derive(Debug)]
pub struct TextSet {
    items: Vec<String>,
}

/// The texts in a list.
pub open spec fn texts_in(items: Seq<String>) -> Set<Seq<char>> {
    Set::new(|text: Seq<char>| exists|i: int| 0 <= i < items.len() && (#[trigger] items[i])@ == text)
}

impl View for TextSet {
    type V = Set<Seq<char>>;

    closed spec fn view(&self) -> Set<Seq<char>> {
        texts_in(self.items@)
    }
}

impl TextSet {
    pub fn new() -> (result: Self)
        ensures
            result@ == Set::<Seq<char>>::empty(),
    {
        let result = TextSet { items: Vec::new() };
        assert(result@ =~= Set::<Seq<char>>::empty());
        result
    }

    pub fn contains(&self, text: &str) -> (result: bool)
        ensures
            result == self@.contains(text@),
    {
        let wanted = text.to_owned();
        let mut at: usize = 0;
        while at < self.items.len()
            invariant
                at <= self.items@.len(),
                wanted@ == text@,
                forall|i: int| 0 <= i < at ==> (#[trigger] self.items@[i])@ != text@,
            decreases self.items@.len() - at,
        {
            if self.items[at] == wanted {
                assert(self.items@[at as int]@ == text@);
                return true;
            }
            at += 1;
        }
        false
    }

    pub fn insert(&mut self, text: String)
        ensures
            final(self)@ == old(self)@.insert(text@),
    {
        let ghost before = self.items@;
        let ghost added = text@;
        if !self.contains(text.as_str()) {
            self.items.push(text);
            proof {
                assert forall|t: Seq<char>| texts_in(self.items@).contains(t) == (texts_in(
                    before,
                ).contains(t) || t == added) by {
                    if texts_in(before).contains(t) {
                        let i = choose|i: int|
                            0 <= i < before.len() && (#[trigger] before[i])@ == t;
                        assert(self.items@[i]@ == t);
                    }
                    if t == added {
                        assert(self.items@[before.len() as int]@ == t);
                    }
                    if texts_in(self.items@).contains(t) && t != added {
                        let i = choose|i: int|
                            0 <= i < self.items@.len() && (#[trigger] self.items@[i])@ == t;
                        assert(before[i]@ == t);
                    }
                }
            }
        }
        assert(self@ =~= old(self)@.insert(added));
    }

    /// Adds all texts of another set.
    pub fn extend(&mut self, other: TextSet)
        ensures
            final(self)@ == old(self)@ + other@,
    {
        let mut rest = other.items;
        let ghost all = other@;
        let ghost whole = rest@;
        while rest.len() > 0
            invariant
                self@ + texts_in(rest@) == old(self)@ + all,
            decreases rest@.len(),
        {
            let ghost before = rest@;
            let ghost sofar = self@;
            let last = rest.pop();
            match last {
                Some(text) => {
                    proof {
                        assert(rest@ =~= before.drop_last());
                        assert(text == before.last());
                        assert forall|t: Seq<char>| texts_in(before).contains(t) == (texts_in(
                            rest@,
                        ).contains(t) || t == text@) by {
                            if texts_in(before).contains(t) && t != text@ {
                                let i = choose|i: int|
                                    0 <= i < before.len() && (#[trigger] before[i])@ == t;
                                assert(rest@[i]@ == t);
                            }
                            if texts_in(rest@).contains(t) {
                                let i = choose|i: int|
                                    0 <= i < rest@.len() && (#[trigger] rest@[i])@ == t;
                                assert(before[i]@ == t);
                            }
                            if t == text@ {
                                assert(before[before.len() - 1]@ == t);
                            }
                        }
                    }
                    let ghost added = text@;
                    self.insert(text);
                    assert(self@ + texts_in(rest@) =~= sofar + texts_in(before));
                },
                None => {},
            }
        }
        assert(texts_in(rest@) =~= Set::<Seq<char>>::empty());
        assert(self@ =~= self@ + texts_in(rest@));
    }

    /// All texts, in order and each of them once.
    pub fn sorted(&self) -> (result: Vec<String>)
        ensures
            ascending(result@),
            texts_in(result@) == self@,
    {
        let mut result: Vec<String> = Vec::new();
        let mut at: usize = 0;
        assert(texts_in(result@) =~= texts_in(self.items@.take(0)));
        while at < self.items.len()
            invariant
                at <= self.items@.len(),
                ascending(result@),
                texts_in(result@) == texts_in(self.items@.take(at as int)),
            decreases self.items@.len() - at,
        {
            let ghost sofar = self.items@.take(at as int);
            let text = self.items[at].as_str().to_owned();
            let ghost added = text@;
            put_in_order(&mut result, text);
            at += 1;
            proof {
                let now = self.items@.take(at as int);
                assert forall|t: Seq<char>| texts_in(now).contains(t) == (texts_in(sofar).contains(
                    t,
                ) || t == added) by {
                    if texts_in(sofar).contains(t) {
                        let i = choose|i: int| 0 <= i < sofar.len() && (#[trigger] sofar[i])@ == t;
                        assert(now[i]@ == t);
                    }
                    if t == added {
                        assert(now[at - 1]@ == t);
                    }
                    if texts_in(now).contains(t) && t != added {
                        let i = choose|i: int| 0 <= i < now.len() && (#[trigger] now[i])@ == t;
                        assert(sofar[i]@ == t);
                    }
                }
                assert(texts_in(now) =~= texts_in(sofar).insert(added));
            }
        }
        assert(self.items@.take(at as int) =~= self.items@);
        result
    }

    /// Whether there is no text.
    pub fn is_empty(&self) -> (result: bool)
        ensures
            result == (self@ == Set::<Seq<char>>::empty()),
    {
        proof {
            if self.items@.len() > 0 {
                assert(self@.contains(self.items@[0]@));
            } else {
                assert(self@ =~= Set::<Seq<char>>::empty());
            }
        }
        self.items.len() == 0
    }
}

} // verus!
