//! Text as sequences of characters: searching, trimming, joining and numbers.

use vstd::prelude::*;
use vstd::string::*;
use vstd::utf8::*;

verus! {

/// `String::push` appends one character.
pub assume_specification[ String::push ](text: &mut String, character: char)
    ensures
        final(text)@ == old(text)@.push(character),
;

/// The characters with Unicode's `White_Space` property.
pub open spec fn is_white(c: char) -> bool {
    let code = c as u32;
    ||| 0x09 <= code <= 0x0d
    ||| code == 0x20
    ||| code == 0x85
    ||| code == 0xa0
    ||| code == 0x1680
    ||| 0x2000 <= code <= 0x200a
    ||| code == 0x2028
    ||| code == 0x2029
    ||| code == 0x202f
    ||| code == 0x205f
    ||| code == 0x3000
}

pub fn is_whitespace(c: char) -> (result: bool)
    ensures
        result == is_white(c),
{
    let code: u32 = c as u32;
    (0x09 <= code && code <= 0x0d) || code == 0x20 || code == 0x85 || code == 0xa0 || code == 0x1680
        || (0x2000 <= code && code <= 0x200a) || code == 0x2028 || code == 0x2029 || code == 0x202f
        || code == 0x205f || code == 0x3000
}

/// The kinds of characters that searches and trims look for.
#[derive(Clone, Copy, Debug, PartialEq, Eq, Structural)]
pub enum CharClass {
    White,
    /// Ends a URL inside running text.
    UrlEnd,
    /// Ends an unquoted secret.
    SecretEnd,
    /// Ends an unquoted path.
    PathEnd,
    /// Parts the components of a path.
    Separator,
    Digit,
    Only(char),
}

impl CharClass {
    pub open spec fn has(self, c: char) -> bool {
        match self {
            CharClass::White => is_white(c),
            CharClass::UrlEnd => is_white(c) || c == '"' || c == '\'' || c == ')' || c == ']' || c
                == '>' || c == ',',
            CharClass::SecretEnd => is_white(c) || c == '&' || c == ',' || c == ';' || c == ')'
                || c == ']' || c == '}',
            CharClass::PathEnd => is_white(c) || c == '"' || c == '\'' || c == ')' || c == ']' || c
                == '}' || c == '>' || c == ',',
            CharClass::Separator => c == '/' || c == '\\',
            CharClass::Digit => '0' <= c && c <= '9',
            CharClass::Only(wanted) => c == wanted,
        }
    }

    pub fn contains(self, c: char) -> (result: bool)
        ensures
            result == self.has(c),
    {
        match self {
            CharClass::White => is_whitespace(c),
            CharClass::UrlEnd => is_whitespace(c) || c == '"' || c == '\'' || c == ')' || c == ']'
                || c == '>' || c == ',',
            CharClass::SecretEnd => is_whitespace(c) || c == '&' || c == ',' || c == ';' || c == ')'
                || c == ']' || c == '}',
            CharClass::PathEnd => is_whitespace(c) || c == '"' || c == '\'' || c == ')' || c == ']'
                || c == '}' || c == '>' || c == ',',
            CharClass::Separator => c == '/' || c == '\\',
            CharClass::Digit => '0' <= c && c <= '9',
            CharClass::Only(wanted) => c == wanted,
        }
    }
}

/// The least position from `from` on whose character is in the class (or, with
/// `inside` false, is not in it); the length of the text where there is none.
pub open spec fn first(s: Seq<char>, from: int, class: CharClass, inside: bool) -> int
    decreases s.len() - from,
{
    if from >= s.len() {
        s.len() as int
    } else if class.has(s[from]) == inside {
        from
    } else {
        first(s, from + 1, class, inside)
    }
}

/// `first` is the least such position.
pub proof fn first_is_least(s: Seq<char>, from: int, class: CharClass, inside: bool)
    requires
        0 <= from <= s.len(),
    ensures
        from <= first(s, from, class, inside) <= s.len(),
        forall|i: int|
            from <= i < first(s, from, class, inside) ==> class.has(#[trigger] s[i]) != inside,
        first(s, from, class, inside) < s.len() ==> class.has(s[first(s, from, class, inside)])
            == inside,
    decreases s.len() - from,
{
    if from < s.len() && class.has(s[from]) != inside {
        first_is_least(s, from + 1, class, inside);
    }
}

pub fn position(chars: &[char], from: usize, class: CharClass, inside: bool) -> (result: usize)
    requires
        from <= chars@.len(),
    ensures
        result == first(chars@, from as int, class, inside),
        from <= result <= chars@.len(),
{
    let mut i: usize = from;
    while i < chars.len()
        invariant
            from <= i <= chars@.len(),
            first(chars@, from as int, class, inside) == first(chars@, i as int, class, inside),
        decreases chars@.len() - i,
    {
        if class.contains(chars[i]) == inside {
            return i;
        }
        i += 1;
    }
    i
}

/// The text without the characters of the class at its start.
pub open spec fn trim_start_by(s: Seq<char>, class: CharClass) -> Seq<char> {
    s.skip(first(s, 0, class, false))
}

/// The text without the characters of the class at its end.
pub open spec fn trim_end_by(s: Seq<char>, class: CharClass) -> Seq<char>
    decreases s.len(),
{
    if s.len() > 0 && class.has(s.last()) {
        trim_end_by(s.drop_last(), class)
    } else {
        s
    }
}

/// The text without the characters of the class at either end.
pub open spec fn trim_by(s: Seq<char>, class: CharClass) -> Seq<char> {
    trim_end_by(trim_start_by(s, class), class)
}

pub fn trim_chars_end(chars: &[char], class: CharClass) -> (result: Vec<char>)
    ensures
        result@ == trim_end_by(chars@, class),
{
    let mut end: usize = chars.len();
    assert(chars@.take(end as int) =~= chars@);
    while end > 0 && class.contains(chars[end - 1])
        invariant
            end <= chars@.len(),
            trim_end_by(chars@, class) == trim_end_by(chars@.take(end as int), class),
        decreases end,
    {
        proof {
            let t = chars@.take(end as int);
            assert(t.last() == chars@[end - 1]);
            assert(t.drop_last() =~= chars@.take(end - 1));
        }
        end -= 1;
    }
    proof {
        let t = chars@.take(end as int);
        if end > 0 {
            assert(t.last() == chars@[end - 1]);
        }
    }
    part(chars, 0, end)
}

pub fn trim_chars(chars: &[char], class: CharClass) -> (result: Vec<char>)
    ensures
        result@ == trim_by(chars@, class),
{
    let start: usize = position(chars, 0, class, false);
    let rest = part(chars, start, chars.len());
    assert(rest@ =~= chars@.skip(start as int));
    trim_chars_end(&rest, class)
}

/// The text after every repetition of `pattern` at its start is taken off.
pub open spec fn strip_prefixes(s: Seq<char>, pattern: Seq<char>) -> Seq<char>
    decreases s.len(),
{
    if pattern.len() > 0 && matches_at(s, 0, pattern) {
        strip_prefixes(s.skip(pattern.len() as int), pattern)
    } else {
        s
    }
}

/// The text after every repetition of `pattern` at its end is taken off.
pub open spec fn strip_suffixes(s: Seq<char>, pattern: Seq<char>) -> Seq<char>
    decreases s.len(),
{
    if pattern.len() > 0 && matches_at(s, s.len() - pattern.len(), pattern) {
        strip_suffixes(s.take(s.len() - pattern.len()), pattern)
    } else {
        s
    }
}

pub fn strip_chars_start(chars: &[char], pattern: &[char]) -> (result: Vec<char>)
    requires
        pattern@.len() > 0,
    ensures
        result@ == strip_prefixes(chars@, pattern@),
{
    let mut start: usize = 0;
    let length: usize = chars.len();
    assert(chars@.skip(0) =~= chars@);
    while matches_here(chars, start, pattern)
        invariant
            start <= chars@.len() <= usize::MAX,
            pattern@.len() > 0,
            strip_prefixes(chars@, pattern@) == strip_prefixes(chars@.skip(start as int), pattern@),
        decreases chars@.len() - start,
    {
        proof {
            let t = chars@.skip(start as int);
            let n = pattern@.len() as int;
            assert(t.subrange(0, n) =~= chars@.subrange(start as int, start + n));
            assert(t.skip(n) =~= chars@.skip(start + n));
        }
        start += pattern.len();
    }
    proof {
        let t = chars@.skip(start as int);
        let n = pattern@.len() as int;
        if matches_at(t, 0, pattern@) {
            assert(t.subrange(0, n) =~= chars@.subrange(start as int, start + n));
        }
        assert(chars@.subrange(start as int, chars@.len() as int) =~= t);
    }
    part(chars, start, length)
}

pub fn strip_chars_end(chars: &[char], pattern: &[char]) -> (result: Vec<char>)
    requires
        pattern@.len() > 0,
    ensures
        result@ == strip_suffixes(chars@, pattern@),
{
    let mut end: usize = chars.len();
    assert(chars@.take(end as int) =~= chars@);
    while end >= pattern.len() && matches_here(chars, end - pattern.len(), pattern)
        invariant
            end <= chars@.len(),
            pattern@.len() > 0,
            strip_suffixes(chars@, pattern@) == strip_suffixes(chars@.take(end as int), pattern@),
        decreases end,
    {
        proof {
            let t = chars@.take(end as int);
            let n = pattern@.len() as int;
            assert(t.subrange(end - n, end as int) =~= chars@.subrange(end - n, end as int));
            assert(t.take(end - n) =~= chars@.take(end - n));
        }
        end -= pattern.len();
    }
    proof {
        let t = chars@.take(end as int);
        let n = pattern@.len() as int;
        if end >= n {
            assert(t.subrange(end - n, end as int) =~= chars@.subrange(end - n, end as int));
        }
        assert(chars@.subrange(0, end as int) =~= t);
    }
    part(chars, 0, end)
}

/// `pattern` stands in `s` at position `at`.
pub open spec fn matches_at(s: Seq<char>, at: int, pattern: Seq<char>) -> bool {
    0 <= at && at + pattern.len() <= s.len() && s.subrange(at, at + pattern.len()) == pattern
}

pub fn matches_here(chars: &[char], at: usize, pattern: &[char]) -> (result: bool)
    requires
        at <= chars@.len(),
    ensures
        result == matches_at(chars@, at as int, pattern@),
{
    if pattern.len() > chars.len() - at {
        return false;
    }
    let mut i: usize = 0;
    while i < pattern.len()
        invariant
            i <= pattern@.len(),
            at + pattern@.len() <= chars@.len() <= usize::MAX,
            forall|j: int| 0 <= j < i ==> chars@[at + j] == pattern@[j],
        decreases pattern@.len() - i,
    {
        if chars[at + i] != pattern[i] {
            proof {
                let t = chars@.subrange(at as int, at + pattern@.len());
                assert(t[i as int] == chars@[at + i]);
            }
            return false;
        }
        i += 1;
    }
    assert(chars@.subrange(at as int, at + pattern@.len()) =~= pattern@);
    true
}

/// The least position from `from` on at which `pattern` stands.
pub open spec fn found(s: Seq<char>, from: int, pattern: Seq<char>) -> Option<int>
    decreases s.len() + 1 - from,
{
    if from < 0 || from + pattern.len() > s.len() {
        None
    } else if matches_at(s, from, pattern) {
        Some(from)
    } else {
        found(s, from + 1, pattern)
    }
}

/// `found` is the least position of the pattern, and there is one exactly where it is found.
pub proof fn found_is_least(s: Seq<char>, from: int, pattern: Seq<char>)
    requires
        0 <= from,
    ensures
        match found(s, from, pattern) {
            Some(at) => from <= at && matches_at(s, at, pattern) && forall|i: int|
                from <= i < at ==> !#[trigger] matches_at(s, i, pattern),
            None => forall|i: int| from <= i ==> !#[trigger] matches_at(s, i, pattern),
        },
    decreases s.len() + 1 - from,
{
    if from + pattern.len() <= s.len() && !matches_at(s, from, pattern) {
        found_is_least(s, from + 1, pattern);
    }
}

pub fn find(chars: &[char], from: usize, pattern: &[char]) -> (result: Option<usize>)
    requires
        from <= chars@.len(),
    ensures
        match result {
            Some(at) => found(chars@, from as int, pattern@) == Some(at as int),
            None => found(chars@, from as int, pattern@) is None,
        },
        result is Some ==> from <= result->0 && result->0 + pattern@.len() <= chars@.len(),
{
    let mut i: usize = from;
    while i <= chars.len() && pattern.len() <= chars.len() - i
        invariant
            from <= i <= chars@.len() + 1,
            from <= chars@.len(),
            found(chars@, from as int, pattern@) == found(chars@, i as int, pattern@),
        decreases chars@.len() + 1 - i,
    {
        if matches_here(chars, i, pattern) {
            return Some(i);
        }
        if i == chars.len() {
            assert(found(chars@, i + 1, pattern@) is None);
            return None;
        }
        i += 1;
    }
    None
}

/// `pattern` stands somewhere in `s`.
pub open spec fn holds(s: Seq<char>, pattern: Seq<char>) -> bool {
    exists|i: int| #[trigger] matches_at(s, i, pattern)
}

pub fn contains_chars(chars: &[char], pattern: &[char]) -> (result: bool)
    ensures
        result == holds(chars@, pattern@),
{
    proof {
        found_is_least(chars@, 0, pattern@);
    }
    find(chars, 0, pattern).is_some()
}

/// The ASCII lower case of a character.
pub open spec fn lower(c: char) -> char {
    if 'A' <= c && c <= 'Z' {
        ((c as u8 + 32) as u8) as char
    } else {
        c
    }
}

pub open spec fn lowered(s: Seq<char>) -> Seq<char> {
    s.map_values(|c: char| lower(c))
}

pub fn lower_chars(chars: &[char]) -> (result: Vec<char>)
    ensures
        result@ == lowered(chars@),
{
    let mut result: Vec<char> = Vec::new();
    let mut i: usize = 0;
    while i < chars.len()
        invariant
            i <= chars@.len(),
            result@ == lowered(chars@.take(i as int)),
        decreases chars@.len() - i,
    {
        let c: char = chars[i];
        let mapped: char = if 'A' <= c && c <= 'Z' {
            let code: u8 = c as u8;
            (code + 32) as char
        } else {
            c
        };
        result.push(mapped);
        assert(lowered(chars@.take(i + 1)) =~= lowered(chars@.take(i as int)).push(lower(c)));
        i += 1;
    }
    assert(chars@.take(i as int) =~= chars@);
    result
}

pub fn chars_of(text: &str) -> (result: Vec<char>)
    ensures
        result@ == text@,
{
    let mut result: Vec<char> = Vec::new();
    for c in it: text.chars()
        invariant
            it.seq() == text@,
            result@ == text@.take(it.index() as int),
    {
        result.push(c);
        assert(text@.take(it.index() + 1) =~= text@.take(it.index() as int).push(c));
    }
    assert(text@.take(text@.len() as int) =~= text@);
    result
}

pub fn string_of(chars: &[char]) -> (result: String)
    ensures
        result@ == chars@,
{
    let mut result = String::new();
    let mut i: usize = 0;
    while i < chars.len()
        invariant
            i <= chars@.len(),
            result@ == chars@.take(i as int),
        decreases chars@.len() - i,
    {
        result.push(chars[i]);
        assert(chars@.take(i + 1) =~= chars@.take(i as int).push(chars@[i as int]));
        i += 1;
    }
    assert(chars@.take(i as int) =~= chars@);
    result
}

/// The characters from `from` up to `to`.
pub fn part(chars: &[char], from: usize, to: usize) -> (result: Vec<char>)
    requires
        from <= to <= chars@.len(),
    ensures
        result@ == chars@.subrange(from as int, to as int),
{
    let mut result: Vec<char> = Vec::new();
    push_part(&mut result, chars, from, to);
    assert(result@ =~= chars@.subrange(from as int, to as int));
    result
}

pub fn push_part(output: &mut Vec<char>, chars: &[char], from: usize, to: usize)
    requires
        from <= to <= chars@.len(),
    ensures
        final(output)@ == old(output)@ + chars@.subrange(from as int, to as int),
{
    let ghost before = output@;
    let mut i: usize = from;
    while i < to
        invariant
            from <= i <= to <= chars@.len(),
            output@ =~= before + chars@.subrange(from as int, i as int),
        decreases to - i,
    {
        output.push(chars[i]);
        i += 1;
    }
}

pub fn push_chars(output: &mut Vec<char>, chars: &[char])
    ensures
        final(output)@ == old(output)@ + chars@,
{
    push_part(output, chars, 0, chars.len());
    assert(chars@.subrange(0, chars@.len() as int) =~= chars@);
}

pub fn same(a: &str, b: &str) -> (result: bool)
    ensures
        result == (a@ == b@),
{
    a.to_owned() == b.to_owned()
}

pub fn same_option(a: &Option<String>, b: &Option<String>) -> (result: bool)
    ensures
        result == (shown(*a) == shown(*b)),
{
    match (a, b) {
        (Some(a), Some(b)) => same(a, b),
        (None, None) => true,
        _ => false,
    }
}

/// The view of an optional text.
pub open spec fn shown(text: Option<String>) -> Option<Seq<char>> {
    match text {
        Some(text) => Some(text@),
        None => None,
    }
}

pub fn starts_with(text: &str, prefix: &str) -> (result: bool)
    ensures
        result == matches_at(text@, 0, prefix@),
{
    let chars = chars_of(text);
    let pattern = chars_of(prefix);
    matches_here(&chars, 0, &pattern)
}

pub fn ends_with(text: &str, suffix: &str) -> (result: bool)
    ensures
        result == matches_at(text@, text@.len() - suffix@.len(), suffix@),
{
    let chars = chars_of(text);
    let pattern = chars_of(suffix);
    chars.len() >= pattern.len() && matches_here(&chars, chars.len() - pattern.len(), &pattern)
}

pub fn joined(a: &str, b: &str) -> (result: String)
    ensures
        result@ == a@ + b@,
{
    let mut result = a.to_owned();
    result.append(b);
    result
}

pub open spec fn trimmed(s: Seq<char>) -> Seq<char> {
    trim_by(s, CharClass::White)
}

pub fn trim(text: &str) -> (result: String)
    ensures
        result@ == trimmed(text@),
{
    let chars = chars_of(text);
    let inner = trim_chars(&chars, CharClass::White);
    string_of(&inner)
}

pub open spec fn digit(n: nat) -> char
    recommends
        n < 10,
{
    ((48 + n) as u8) as char
}

/// The decimal digits of a number.
pub open spec fn decimal(n: nat) -> Seq<char>
    decreases n,
{
    if n < 10 {
        seq![digit(n)]
    } else {
        decimal(n / 10).push(digit(n % 10))
    }
}

pub fn decimal_text(n: u64) -> (result: String)
    ensures
        result@ == decimal(n as nat),
    decreases n,
{
    let low: u8 = (n % 10) as u8;
    let mut result = if n < 10 {
        String::new()
    } else {
        decimal_text(n / 10)
    };
    result.push((48 + low) as char);
    assert(result@ =~= decimal(n as nat));
    result
}

/// The value of a run of digits.
pub open spec fn digits_value(s: Seq<char>) -> nat
    decreases s.len(),
{
    if s.len() == 0 {
        0
    } else {
        digits_value(s.drop_last()) * 10 + (s.last() as u32 - 48) as nat
    }
}

pub open spec fn all_digits(s: Seq<char>) -> bool {
    forall|i: int| 0 <= i < s.len() ==> CharClass::Digit.has(#[trigger] s[i])
}

/// What text says of a number no greater than `limit`: digits, with an optional plus sign.
pub open spec fn number_of(s: Seq<char>, limit: nat) -> Option<nat> {
    let digits = if s.len() > 0 && s[0] == '+' { s.skip(1) } else { s };
    if digits.len() > 0 && all_digits(digits) && digits_value(digits) <= limit {
        Some(digits_value(digits))
    } else {
        None
    }
}

proof fn digits_value_grows(s: Seq<char>, n: int)
    requires
        0 <= n <= s.len(),
        all_digits(s),
    ensures
        digits_value(s.take(n)) <= digits_value(s),
    decreases s.len() - n,
{
    if n < s.len() {
        let t = s.take(n + 1);
        assert(t.drop_last() =~= s.take(n));
        assert(t.last() == s[n]);
        digits_value_grows(s, n + 1);
    } else {
        assert(s.take(n) =~= s);
    }
}

/// Reads a number as `str::parse` does for `u64`, but no greater than `limit`.
pub fn parse_number(text: &str, limit: u64) -> (result: Option<u64>)
    ensures
        match result {
            Some(n) => number_of(text@, limit as nat) == Some(n as nat),
            None => number_of(text@, limit as nat) is None,
        },
{
    let all = chars_of(text);
    let from: usize = if all.len() > 0 && all[0] == '+' {
        1
    } else {
        0
    };
    let digits = part(&all, from, all.len());
    assert(digits@ =~= if all@.len() > 0 && all@[0] == '+' {
        all@.skip(1)
    } else {
        all@
    });
    if digits.len() == 0 {
        return None;
    }
    let mut value: u64 = 0;
    let mut i: usize = 0;
    while i < digits.len()
        invariant
            i <= digits@.len(),
            all_digits(digits@.take(i as int)),
            value == digits_value(digits@.take(i as int)),
            value <= limit,
            digits@.len() > 0,
            digits@ == if text@.len() > 0 && text@[0] == '+' {
                text@.skip(1)
            } else {
                text@
            },
        decreases digits@.len() - i,
    {
        let c: char = digits[i];
        proof {
            let t = digits@.take(i + 1);
            assert(t.drop_last() =~= digits@.take(i as int));
            assert(t.last() == c);
        }
        if !CharClass::Digit.contains(c) {
            assert(!all_digits(digits@));
            return None;
        }
        let d: u64 = c as u64 - 48;
        let next: u128 = value as u128 * 10 + d as u128;
        assert(next == digits_value(digits@.take(i + 1)));
        if next > limit as u128 {
            proof {
                if all_digits(digits@) {
                    digits_value_grows(digits@, i + 1);
                }
            }
            return None;
        }
        value = next as u64;
        assert forall|j: int| 0 <= j < i + 1 implies CharClass::Digit.has(
            #[trigger] digits@.take(i + 1)[j],
        ) by {
            if j < i {
                assert(digits@.take(i as int)[j] == digits@[j]);
            }
        }
        i += 1;
    }
    assert(digits@.take(i as int) =~= digits@);
    Some(value)
}

proof fn digit_values(n: nat)
    requires
        n < 10,
    ensures
        CharClass::Digit.has(digit(n)),
        digit(n) as u32 == 48 + n,
{
}

/// Reading a written number gives the number back.
pub proof fn number_round_trip(n: nat, limit: nat)
    requires
        n <= limit,
    ensures
        number_of(decimal(n), limit) == Some(n),
        all_digits(decimal(n)),
        decimal(n).len() > 0,
        digits_value(decimal(n)) == n,
    decreases n,
{
    reveal_with_fuel(digits_value, 2);
    let s = decimal(n);
    digit_values(n % 10);
    if n >= 10 {
        number_round_trip(n / 10, limit);
        assert(s.drop_last() =~= decimal(n / 10));
        assert(s.last() == digit(n % 10));
        assert forall|i: int| 0 <= i < s.len() implies CharClass::Digit.has(#[trigger] s[i]) by {
            if i < s.len() - 1 {
                assert(s[i] == decimal(n / 10)[i]);
            }
        }
    } else {
        assert(s.drop_last() =~= Seq::<char>::empty());
        assert(s.last() == digit(n));
    }
    assert(CharClass::Digit.has(s[0]));
}

/// Different numbers are written differently.
pub proof fn decimal_injective(a: nat, b: nat)
    requires
        decimal(a) == decimal(b),
    ensures
        a == b,
{
    let limit = if a < b { b } else { a };
    number_round_trip(a, limit);
    number_round_trip(b, limit);
}

/// The views of a list of texts.
pub open spec fn texts(list: Seq<String>) -> Seq<Seq<char>> {
    list.map_values(|text: String| text@)
}

/// The texts with `separator` between each two of them.
pub open spec fn joined_by(list: Seq<Seq<char>>, separator: Seq<char>) -> Seq<char>
    decreases list.len(),
{
    if list.len() == 0 {
        seq![]
    } else if list.len() == 1 {
        list[0]
    } else {
        joined_by(list.drop_last(), separator) + separator + list.last()
    }
}

pub fn join_texts(list: &[String], separator: &str) -> (result: String)
    ensures
        result@ == joined_by(texts(list@), separator@),
{
    let mut result = String::new();
    let mut i: usize = 0;
    while i < list.len()
        invariant
            i <= list@.len(),
            result@ =~= joined_by(texts(list@).take(i as int), separator@),
        decreases list@.len() - i,
    {
        proof {
            let t = texts(list@).take(i + 1);
            assert(t.drop_last() =~= texts(list@).take(i as int));
            assert(t.last() == list@[i as int]@);
        }
        if i > 0 {
            result.append(separator);
        }
        result.append(list[i].as_str());
        i += 1;
    }
    assert(texts(list@).take(i as int) =~= texts(list@));
    result
}

/// The number of bytes that a text takes in UTF-8.
pub open spec fn bytes_len(s: Seq<char>) -> nat {
    encode_utf8(s).len()
}

pub open spec fn char_len(c: char) -> nat {
    encode_scalar(c as u32).len()
}

pub fn char_bytes(c: char) -> (result: usize)
    ensures
        result == char_len(c),
        1 <= result <= 4,
{
    let code: u32 = c as u32;
    if code <= 0x7f {
        1
    } else if code <= 0x7ff {
        2
    } else if code <= 0xffff {
        3
    } else {
        4
    }
}

pub fn text_bytes(text: &str) -> (result: usize)
    ensures
        result == bytes_len(text@),
{
    text.as_bytes().len()
}

/// The encoding of a text is that of its first part followed by that of the rest.
pub proof fn encode_split(a: Seq<char>, b: Seq<char>)
    ensures
        encode_utf8(a + b) == encode_utf8(a) + encode_utf8(b),
    decreases a.len(),
{
    if a.len() == 0 {
        assert(a + b =~= b);
        assert(encode_utf8(a) + encode_utf8(b) =~= encode_utf8(b));
    } else {
        assert((a + b).drop_first() =~= a.drop_first() + b);
        encode_split(a.drop_first(), b);
        assert(encode_utf8(a + b) =~= encode_utf8(a) + encode_utf8(b));
    }
}

/// The longest end of the text that takes at most `limit` bytes.
pub open spec fn tail_within(s: Seq<char>, limit: nat) -> Seq<char>
    decreases s.len(),
{
    if bytes_len(s) <= limit {
        s
    } else {
        tail_within(s.drop_first(), limit)
    }
}

/// The longest start of the text that takes at most `limit` bytes.
pub open spec fn head_within(s: Seq<char>, limit: nat) -> Seq<char>
    decreases s.len(),
{
    if bytes_len(s) <= limit {
        s
    } else {
        head_within(s.drop_last(), limit)
    }
}

pub proof fn tail_is_short(s: Seq<char>, limit: nat)
    ensures
        bytes_len(tail_within(s, limit)) <= limit,
        tail_within(s, limit).len() <= s.len(),
        tail_within(s, limit) == s.skip(s.len() - tail_within(s, limit).len()),
    decreases s.len(),
{
    if bytes_len(s) <= limit {
        assert(s.skip(0) =~= s);
    } else {
        tail_is_short(s.drop_first(), limit);
        let t = tail_within(s, limit);
        assert(t =~= s.skip(s.len() - t.len()));
    }
}

pub proof fn head_is_short(s: Seq<char>, limit: nat)
    ensures
        bytes_len(head_within(s, limit)) <= limit,
        head_within(s, limit).len() <= s.len(),
        head_within(s, limit) == s.take(head_within(s, limit).len() as int),
    decreases s.len(),
{
    if bytes_len(s) <= limit {
        assert(s.take(s.len() as int) =~= s);
    } else {
        head_is_short(s.drop_last(), limit);
        let t = head_within(s, limit);
        assert(t =~= s.take(t.len() as int));
    }
}

pub fn keep_tail(text: &str, limit: usize) -> (result: String)
    ensures
        result@ == tail_within(text@, limit as nat),
{
    let mut length: usize = text_bytes(text);
    if length <= limit {
        return text.to_owned();
    }
    let chars = chars_of(text);
    let count: usize = chars.len();
    let mut from: usize = 0;
    assert(chars@.skip(0) =~= chars@);
    while length > limit
        invariant
            from <= count == chars@.len(),
            length == bytes_len(chars@.skip(from as int)),
            tail_within(chars@, limit as nat) == tail_within(chars@.skip(from as int), limit as nat),
        decreases chars@.len() - from,
    {
        proof {
            let t = chars@.skip(from as int);
            if from == chars@.len() {
                assert(t =~= Seq::<char>::empty());
            } else {
                assert(t[0] == chars@[from as int]);
                assert(t.drop_first() =~= chars@.skip(from + 1));
            }
        }
        length -= char_bytes(chars[from]);
        from += 1;
    }
    let kept = part(&chars, from, chars.len());
    assert(kept@ =~= chars@.skip(from as int));
    string_of(&kept)
}

pub fn keep_head(text: &str, limit: usize) -> (result: String)
    ensures
        result@ == head_within(text@, limit as nat),
{
    let mut length: usize = text_bytes(text);
    if length <= limit {
        return text.to_owned();
    }
    let chars = chars_of(text);
    let mut to: usize = chars.len();
    assert(chars@.take(to as int) =~= chars@);
    while length > limit
        invariant
            to <= chars@.len(),
            length == bytes_len(chars@.take(to as int)),
            head_within(chars@, limit as nat) == head_within(chars@.take(to as int), limit as nat),
        decreases to,
    {
        proof {
            let t = chars@.take(to as int);
            if to == 0 {
                assert(t =~= Seq::<char>::empty());
            } else {
                let c = chars@[to - 1];
                assert(t.drop_last() =~= chars@.take(to - 1));
                assert(t =~= t.drop_last() + seq![c]);
                encode_split(t.drop_last(), seq![c]);
                reveal_with_fuel(encode_utf8, 2);
                assert(seq![c].drop_first() =~= Seq::<char>::empty());
                assert(encode_utf8(seq![c]) =~= encode_scalar(c as u32));
            }
        }
        to -= 1;
        length -= char_bytes(chars[to]);
    }
    let kept = part(&chars, 0, to);
    assert(kept@ =~= chars@.take(to as int));
    string_of(&kept)
}

/// The pieces of a text from `from` on: what stands between characters of the class.
pub open spec fn pieces(s: Seq<char>, from: int, class: CharClass) -> Seq<Seq<char>>
    decreases s.len() - from,
    when 0 <= from <= s.len()
{
    let start = first(s, from, class, false);
    let end = first(s, start, class, true);
    proof {
        first_is_least(s, from, class, false);
        first_is_least(s, start, class, true);
    }
    if start >= s.len() {
        seq![]
    } else {
        seq![s.subrange(start, end)] + pieces(s, end, class)
    }
}

pub fn split_pieces(chars: &[char], from: usize, class: CharClass) -> (result: Vec<String>)
    requires
        from <= chars@.len(),
    ensures
        texts(result@) == pieces(chars@, from as int, class),
{
    let mut result: Vec<String> = Vec::new();
    let mut at: usize = from;
    let length: usize = chars.len();
    let ghost all = pieces(chars@, from as int, class);
    assert(texts(result@) + all =~= all);
    loop
        invariant_except_break
            texts(result@) + pieces(chars@, at as int, class) == all,
        invariant
            at <= length == chars@.len(),
        ensures
            texts(result@) == all,
        decreases length - at,
    {
        let start: usize = position(chars, at, class, false);
        if start >= length {
            assert(texts(result@) + pieces(chars@, at as int, class) =~= texts(result@));
            break;
        }
        let end: usize = position(chars, start, class, true);
        proof {
            first_is_least(chars@, at as int, class, false);
            first_is_least(chars@, start as int, class, true);
        }
        let piece = part(chars, start, end);
        let ghost held = texts(result@);
        let ghost added = piece@;
        result.push(string_of(&piece));
        proof {
            assert(texts(result@) =~= held.push(added));
            assert(texts(result@) + pieces(chars@, end as int, class) =~= held + pieces(
                chars@,
                at as int,
                class,
            ));
        }
        at = end;
    }
    result
}

/// The words of a text: what stands between white space.
pub open spec fn words(s: Seq<char>) -> Seq<Seq<char>> {
    pieces(s, 0, CharClass::White)
}

pub fn split_words(text: &str) -> (result: Vec<String>)
    ensures
        texts(result@) == words(text@),
{
    let chars = chars_of(text);
    split_pieces(&chars, 0, CharClass::White)
}

/// What `String::from_utf8_lossy` makes of bytes.
pub uninterp spec fn utf8_lossy(bytes: Seq<u8>) -> Seq<char>;

/// `String::from_utf8_lossy`: valid UTF-8 is decoded as it is; what it makes of other bytes is a
/// function of them that is not spelled out.
#[verifier::external_body]
pub(crate) fn lossy_text(bytes: &[u8]) -> (result: String)
    ensures
        result@ == utf8_lossy(bytes@),
        valid_utf8(bytes@) ==> result@ == decode_utf8(bytes@),
{
    String::from_utf8_lossy(bytes).into_owned()
}

/// What `str::to_lowercase` makes of a text.
pub uninterp spec fn unicode_lower(text: Seq<char>) -> Seq<char>;

/// `str::to_lowercase`: a function of the text, and on ASCII texts the ASCII lower case.
#[verifier::external_body]
pub(crate) fn lower_text(text: &str) -> (result: String)
    ensures
        result@ == unicode_lower(text@),
        is_ascii_chars(text@) ==> result@ == lowered(text@),
{
    text.to_lowercase()
}

/// The last digit of a number in the hexadecimal system.
pub open spec fn hex_end(n: nat) -> char {
    if n % 16 < 10 {
        digit(n % 16)
    } else {
        ('a' as u32 + (n % 16 - 10)) as char
    }
}

/// A character inside a text in JSON: quotes, backslashes and control characters are escaped.
pub open spec fn json_char(c: char) -> Seq<char> {
    if c == '"' || c == '\\' {
        seq!['\\', c]
    } else if c == '\u{8}' {
        "\\b"@
    } else if c == '\t' {
        "\\t"@
    } else if c == '\n' {
        "\\n"@
    } else if c == '\u{c}' {
        "\\f"@
    } else if c == '\r' {
        "\\r"@
    } else if (c as u32) < 32 {
        "\\u00"@ + seq![digit((c as nat) / 16), hex_end(c as nat)]
    } else {
        seq![c]
    }
}

/// A text in JSON.
pub open spec fn json_of_text(text: Seq<char>) -> Seq<char> {
    "\""@ + flat(text.map_values(|c: char| json_char(c))) + "\""@
}

/// `to_string` of a `serde_json::Value` that holds a text: its JSON form.
#[verifier::external_body]
pub(crate) fn json_text(text: &str) -> (result: String)
    ensures
        result@ == json_of_text(text@),
{
    serde_json::Value::String(text.to_owned()).to_string()
}

/// `String::from_utf8`: bytes are a text exactly if they are valid UTF-8. The wording of its error
/// is not stated.
#[verifier::external_body]
pub(crate) fn text_of_bytes(bytes: Vec<u8>) -> (result: Result<String, String>)
    ensures
        match result {
            Ok(text) => valid_utf8(bytes@) && text@ == decode_utf8(bytes@),
            Err(_) => !valid_utf8(bytes@),
        },
{
    String::from_utf8(bytes).map_err(|error| error.to_string())
}

/// The texts one behind the other.
pub open spec fn flat(list: Seq<Seq<char>>) -> Seq<char>
    decreases list.len(),
{
    if list.len() == 0 {
        seq![]
    } else {
        list[0] + flat(list.drop_first())
    }
}

pub proof fn flat_push(list: Seq<Seq<char>>, last: Seq<char>)
    ensures
        flat(list.push(last)) == flat(list) + last,
    decreases list.len(),
{
    let longer = list.push(last);
    if list.len() == 0 {
        assert(longer.drop_first() =~= Seq::<Seq<char>>::empty());
        reveal_with_fuel(flat, 2);
        assert(flat(longer) =~= flat(list) + last);
    } else {
        assert(longer.drop_first() =~= list.drop_first().push(last));
        flat_push(list.drop_first(), last);
        assert(flat(longer) =~= flat(list) + last);
    }
}

} // verus!
