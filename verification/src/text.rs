//! Text building and scanning, stated over the characters of a text.

use vstd::prelude::*;
use vstd::string::*;

verus! {

/// `String::push` of std appends the given character to the end of the text.
pub assume_specification[ String::push ](s: &mut String, c: char)
    ensures
        final(s)@ == old(s)@.push(c),
;

/// The characters of a text, in order.
pub fn chars_of(s: &str) -> (v: Vec<char>)
    ensures
        v@ == s@,
{
    let mut v: Vec<char> = Vec::new();
    for c in it: s.chars()
        invariant
            it.seq() == s@,
            v@ == s@.take(it.index() as int),
    {
        v.push(c);
        assert(s@.take(it.index() as int).push(c) =~= s@.take(it.index() + 1));
    }
    assert(s@.take(s@.len() as int) =~= s@);
    v
}

/// Whether two texts hold the same characters.
pub fn same_text(a: &str, b: &str) -> (same: bool)
    ensures
        same == (a@ == b@),
{
    let u = chars_of(a);
    let v = chars_of(b);
    if u.len() != v.len() {
        return false;
    }
    let mut i: usize = 0;
    while i < u.len()
        invariant
            u@ == a@,
            v@ == b@,
            u@.len() == v@.len(),
            i <= u@.len(),
            forall|j: int| 0 <= j < i ==> u@[j] == v@[j],
        decreases u@.len() - i,
    {
        if u[i] != v[i] {
            return false;
        }
        i += 1;
    }
    assert(a@ =~= b@);
    true
}

/// The text `a + b`.
pub fn joined(a: &str, b: &str) -> (s: String)
    ensures
        s@ == a@ + b@,
{
    let mut s = a.to_owned();
    s.append(b);
    s
}

/// The digit that stands for `d` in bases up to sixteen.
pub open spec fn digit_char(d: int) -> char {
    if d == 0 {
        '0'
    } else if d == 1 {
        '1'
    } else if d == 2 {
        '2'
    } else if d == 3 {
        '3'
    } else if d == 4 {
        '4'
    } else if d == 5 {
        '5'
    } else if d == 6 {
        '6'
    } else if d == 7 {
        '7'
    } else if d == 8 {
        '8'
    } else if d == 9 {
        '9'
    } else if d == 10 {
        'a'
    } else if d == 11 {
        'b'
    } else if d == 12 {
        'c'
    } else if d == 13 {
        'd'
    } else if d == 14 {
        'e'
    } else {
        'f'
    }
}

fn digit_of(d: u64) -> (c: char)
    requires
        d < 16,
    ensures
        c == digit_char(d as int),
{
    match d {
        0 => '0',
        1 => '1',
        2 => '2',
        3 => '3',
        4 => '4',
        5 => '5',
        6 => '6',
        7 => '7',
        8 => '8',
        9 => '9',
        10 => 'a',
        11 => 'b',
        12 => 'c',
        13 => 'd',
        14 => 'e',
        _ => 'f',
    }
}

/// `n` written in decimal, without leading zeros.
pub open spec fn decimal(n: nat) -> Seq<char>
    decreases n,
{
    if n < 10 {
        seq![digit_char(n as int)]
    } else {
        decimal(n / 10).push(digit_char((n % 10) as int))
    }
}

pub fn decimal_text(n: u64) -> (s: String)
    ensures
        s@ == decimal(n as nat),
    decreases n,
{
    if n < 10 {
        let mut s = String::new();
        s.push(digit_of(n));
        assert(s@ =~= seq![digit_char(n as int)]);
        s
    } else {
        let mut s = decimal_text(n / 10);
        s.push(digit_of(n % 10));
        s
    }
}

/// The last `width` hexadecimal digits of `n`, in lower case, most significant first.
pub open spec fn hex(n: nat, width: nat) -> Seq<char>
    decreases width,
{
    if width == 0 {
        Seq::empty()
    } else {
        hex(n / 16, (width - 1) as nat).push(digit_char((n % 16) as int))
    }
}

pub fn hex_text(n: u64, width: u32) -> (s: String)
    ensures
        s@ == hex(n as nat, width as nat),
    decreases width,
{
    if width == 0 {
        String::new()
    } else {
        let mut s = hex_text(n / 16, width - 1);
        s.push(digit_of(n % 16));
        s
    }
}

/// Whether `pattern` stands in `text` at position `at`.
pub open spec fn occurs_at(text: Seq<char>, pattern: Seq<char>, at: int) -> bool {
    &&& 0 <= at
    &&& at + pattern.len() <= text.len()
    &&& text.subrange(at, at + pattern.len()) == pattern
}

/// Whether `pattern` stands anywhere in `text`.
pub open spec fn contains_text(text: Seq<char>, pattern: Seq<char>) -> bool {
    exists|at: int| occurs_at(text, pattern, at)
}

fn occurs(text: &Vec<char>, pattern: &Vec<char>, at: usize) -> (found: bool)
    ensures
        found == occurs_at(text@, pattern@, at as int),
{
    if pattern.len() > text.len() || at > text.len() - pattern.len() {
        return false;
    }
    let size: usize = text.len();
    let mut j: usize = 0;
    while j < pattern.len()
        invariant
            size == text@.len(),
            at + pattern@.len() <= size,
            j <= pattern@.len(),
            forall|k: int| 0 <= k < j ==> text@[at + k] == pattern@[k],
        decreases pattern@.len() - j,
    {
        if text[at + j] != pattern[j] {
            assert(text@.subrange(at as int, at + pattern@.len())[j as int] != pattern@[j as int]);
            return false;
        }
        j += 1;
    }
    assert(text@.subrange(at as int, at + pattern@.len()) =~= pattern@);
    true
}

/// Whether `text` begins with `prefix`.
pub fn starts_with(text: &str, prefix: &str) -> (found: bool)
    ensures
        found == occurs_at(text@, prefix@, 0),
{
    let t = chars_of(text);
    let p = chars_of(prefix);
    occurs(&t, &p, 0)
}

/// Whether `pattern` stands anywhere in `text`.
pub fn contains(text: &str, pattern: &str) -> (found: bool)
    ensures
        found == contains_text(text@, pattern@),
{
    let t = chars_of(text);
    let p = chars_of(pattern);
    let mut at: usize = 0;
    while at < t.len()
        invariant
            t@ == text@,
            p@ == pattern@,
            at <= t@.len(),
            forall|k: int| 0 <= k < at ==> !occurs_at(t@, p@, k),
        decreases t@.len() - at,
    {
        if occurs(&t, &p, at) {
            return true;
        }
        at += 1;
    }
    occurs(&t, &p, at)
}

/// `text` with each occurrence of `pattern`, taken from the left and not overlapping, replaced by
/// `by`.
pub open spec fn replace_all(text: Seq<char>, pattern: Seq<char>, by: Seq<char>) -> Seq<char>
    decreases text.len(),
{
    if text.len() == 0 || pattern.len() == 0 {
        text
    } else if occurs_at(text, pattern, 0) {
        by + replace_all(text.skip(pattern.len() as int), pattern, by)
    } else {
        seq![text[0]] + replace_all(text.skip(1), pattern, by)
    }
}

pub fn replace(text: &str, pattern: &str, by: &str) -> (s: String)
    requires
        pattern@.len() > 0,
    ensures
        s@ == replace_all(text@, pattern@, by@),
{
    let t = chars_of(text);
    let p = chars_of(pattern);
    let mut s = String::new();
    let mut at: usize = 0;
    assert(t@.skip(0) =~= t@);
    while at < t.len()
        invariant
            t@ == text@,
            p@ == pattern@,
            p@.len() > 0,
            at <= t@.len(),
            s@ + replace_all(t@.skip(at as int), p@, by@) == replace_all(t@, p@, by@),
        decreases t@.len() - at,
    {
        let ghost rest = t@.skip(at as int);
        if occurs(&t, &p, at) {
            let ghost before = s@;
            s.append(by);
            proof {
                assert(rest.subrange(0, p@.len() as int) =~= t@.subrange(
                    at as int,
                    at + p@.len(),
                ));
                assert(occurs_at(rest, p@, 0));
                assert(rest.skip(p@.len() as int) =~= t@.skip(at + p@.len()));
                assert(before + (by@ + replace_all(rest.skip(p@.len() as int), p@, by@)) =~= s@
                    + replace_all(t@.skip(at + p@.len()), p@, by@));
            }
            at += p.len();
        } else {
            let ghost before = s@;
            s.push(t[at]);
            proof {
                if occurs_at(rest, p@, 0) {
                    assert(rest.subrange(0, p@.len() as int) =~= t@.subrange(
                        at as int,
                        at + p@.len(),
                    ));
                }
                assert(rest.skip(1) =~= t@.skip(at + 1));
                assert(before + (seq![rest[0]] + replace_all(rest.skip(1), p@, by@)) =~= s@
                    + replace_all(t@.skip(at + 1), p@, by@));
            }
            at += 1;
        }
    }
    assert(t@.skip(at as int) =~= Seq::empty());
    assert(s@ + Seq::<char>::empty() =~= s@);
    s
}

/// Replacing a pattern that does not occur changes nothing.
pub proof fn replace_absent(text: Seq<char>, pattern: Seq<char>, by: Seq<char>)
    requires
        !contains_text(text, pattern),
    ensures
        replace_all(text, pattern, by) == text,
    decreases text.len(),
{
    if text.len() > 0 && pattern.len() > 0 {
        assert(!occurs_at(text, pattern, 0));
        let rest = text.skip(1);
        assert forall|at: int| !occurs_at(rest, pattern, at) by {
            if occurs_at(rest, pattern, at) {
                assert(rest.subrange(at, at + pattern.len()) =~= text.subrange(
                    at + 1,
                    at + 1 + pattern.len(),
                ));
                assert(occurs_at(text, pattern, at + 1));
            }
        }
        replace_absent(rest, pattern, by);
        assert(seq![text[0]] + rest =~= text);
    }
}

/// Up to where its first character would stand, a replaced pattern leaves the text as it was.
proof fn prefix_is_kept(text: Seq<char>, pattern: Seq<char>, by: Seq<char>, n: int)
    requires
        pattern.len() > 0,
        by.len() > 0,
        by[0] == pattern[0],
        0 <= n <= replace_all(text, pattern, by).len(),
        forall|k: int| 0 <= k < n ==> replace_all(text, pattern, by)[k] != pattern[0],
    ensures
        n <= text.len(),
        replace_all(text, pattern, by).take(n) == text.take(n),
    decreases n,
{
    let after = replace_all(text, pattern, by);
    if n > 0 {
        if occurs_at(text, pattern, 0) {
            assert(after[0] == by[0]);
        } else {
            let rest = replace_all(text.skip(1), pattern, by);
            assert(after =~= seq![text[0]] + rest);
            assert forall|k: int| 0 <= k < n - 1 implies rest[k] != pattern[0] by {
                assert(rest[k] == after[k + 1]);
            }
            prefix_is_kept(text.skip(1), pattern, by, n - 1);
            assert forall|k: int| 0 <= k < n implies after[k] == text[k] by {
                if k > 0 {
                    assert(after[k] == rest.take(n - 1)[k - 1]);
                    assert(text.skip(1).take(n - 1)[k - 1] == text[k]);
                }
            }
        }
    }
    assert(after.take(n) =~= text.take(n));
}

/// A replaced pattern is gone, where the pattern and what replaces it begin with the same character,
/// hold it nowhere else, and differ further on: then no new occurrence can arise.
pub proof fn replaced_pattern_is_gone(text: Seq<char>, pattern: Seq<char>, by: Seq<char>, d: int)
    requires
        0 < d < pattern.len(),
        d < by.len(),
        by[0] == pattern[0],
        by[d] != pattern[d],
        forall|k: int| 0 < k < pattern.len() ==> #[trigger] pattern[k] != pattern[0],
        forall|k: int| 0 < k < by.len() ==> #[trigger] by[k] != pattern[0],
    ensures
        !contains_text(replace_all(text, pattern, by), pattern),
    decreases text.len(),
{
    let after = replace_all(text, pattern, by);
    let n = pattern.len() as int;
    if text.len() > 0 {
        let step = if occurs_at(text, pattern, 0) {
            n
        } else {
            1
        };
        let rest = replace_all(text.skip(step), pattern, by);
        replaced_pattern_is_gone(text.skip(step), pattern, by, d);
        assert forall|at: int| !occurs_at(after, pattern, at) by {
            if occurs_at(after, pattern, at) {
                assert forall|k: int| 0 <= k < n implies after[at + k] == pattern[k] by {
                    assert(after.subrange(at, at + n)[k] == pattern[k]);
                }
                if occurs_at(text, pattern, 0) {
                    assert(after == by + rest);
                    if at >= by.len() {
                        assert(after.subrange(at, at + n) =~= rest.subrange(
                            at - by.len(),
                            at - by.len() + n,
                        ));
                        assert(occurs_at(rest, pattern, at - by.len()));
                    } else if at == 0 {
                        assert(after[at + d] == by[d]);
                    } else {
                        assert(after[at + 0] == by[at]);
                    }
                } else {
                    assert(after == seq![text[0]] + rest);
                    if at >= 1 {
                        assert(after.subrange(at, at + n) =~= rest.subrange(at - 1, at - 1 + n));
                        assert(occurs_at(rest, pattern, at - 1));
                    } else {
                        assert forall|k: int| 0 <= k < n - 1 implies rest[k] != pattern[0] by {
                            assert(rest[k] == after[at + (k + 1)]);
                            assert(after[at + (k + 1)] == pattern[k + 1]);
                        }
                        prefix_is_kept(text.skip(1), pattern, by, n - 1);
                        assert forall|k: int| 0 <= k < n implies text[k] == pattern[k] by {
                            if k == 0 {
                                assert(after[at + 0] == text[0]);
                            } else {
                                assert(rest.take(n - 1)[k - 1] == after[at + k]);
                                assert(text.skip(1).take(n - 1)[k - 1] == text[k]);
                            }
                        }
                        assert(text.subrange(0, n) =~= pattern);
                    }
                }
            }
        }
    } else {
        assert forall|at: int| !occurs_at(after, pattern, at) by {
        }
    }
}

/// A letter's code with the letters `A` to `Z` brought to lower case.
pub open spec fn folded(c: char) -> int {
    if 'A' <= c <= 'Z' {
        c as int + 32
    } else {
        c as int
    }
}

/// Equality of texts up to the case of the letters `A` to `Z`.
pub open spec fn same_ignoring_case(a: Seq<char>, b: Seq<char>) -> bool {
    &&& a.len() == b.len()
    &&& forall|i: int| 0 <= i < a.len() ==> folded(#[trigger] a[i]) == folded(b[i])
}

fn fold(c: char) -> (n: u32)
    ensures
        n == folded(c),
{
    if 'A' <= c && c <= 'Z' {
        c as u32 + 32
    } else {
        c as u32
    }
}

pub fn eq_ignore_ascii_case(a: &str, b: &str) -> (same: bool)
    ensures
        same == same_ignoring_case(a@, b@),
{
    let u = chars_of(a);
    let v = chars_of(b);
    if u.len() != v.len() {
        return false;
    }
    let mut i: usize = 0;
    while i < u.len()
        invariant
            u@ == a@,
            v@ == b@,
            u@.len() == v@.len(),
            i <= u@.len(),
            forall|j: int| 0 <= j < i ==> folded(#[trigger] u@[j]) == folded(v@[j]),
        decreases u@.len() - i,
    {
        if fold(u[i]) != fold(v[i]) {
            assert(folded(a@[i as int]) != folded(b@[i as int]));
            return false;
        }
        i += 1;
    }
    true
}

/// The characters of the Unicode property `White_Space`.
pub open spec fn white_space(c: char) -> bool {
    let n = c as int;
    ||| 0x09 <= n <= 0x0d
    ||| n == 0x20
    ||| n == 0x85
    ||| n == 0xa0
    ||| n == 0x1680
    ||| 0x2000 <= n <= 0x200a
    ||| n == 0x2028
    ||| n == 0x2029
    ||| n == 0x202f
    ||| n == 0x205f
    ||| n == 0x3000
}

fn is_white_space(c: char) -> (white: bool)
    ensures
        white == white_space(c),
{
    let n: u32 = c as u32;
    (0x09 <= n && n <= 0x0d) || n == 0x20 || n == 0x85 || n == 0xa0 || n == 0x1680 || (0x2000 <= n
        && n <= 0x200a) || n == 0x2028 || n == 0x2029 || n == 0x202f || n == 0x205f || n == 0x3000
}

/// `s` up to the first `separator`, or all of `s`.
pub open spec fn before_first(s: Seq<char>, separator: char) -> Seq<char>
    decreases s.len(),
{
    if s.len() == 0 || s[0] == separator {
        Seq::empty()
    } else {
        seq![s[0]] + before_first(s.skip(1), separator)
    }
}

pub open spec fn trim_start(s: Seq<char>) -> Seq<char>
    decreases s.len(),
{
    if s.len() > 0 && white_space(s[0]) {
        trim_start(s.skip(1))
    } else {
        s
    }
}

pub open spec fn trim_end(s: Seq<char>) -> Seq<char>
    decreases s.len(),
{
    if s.len() > 0 && white_space(s.last()) {
        trim_end(s.drop_last())
    } else {
        s
    }
}

/// `s` without the white space at either end.
pub open spec fn trimmed(s: Seq<char>) -> Seq<char> {
    trim_end(trim_start(s))
}

pub open spec fn is_digit(c: char) -> bool {
    '0' <= c <= '9'
}

/// The number that a row of decimal digits stands for.
pub open spec fn digits_value(s: Seq<char>) -> nat
    decreases s.len(),
{
    if s.len() == 0 {
        0
    } else {
        (digits_value(s.drop_last()) * 10 + (s.last() as int - '0' as int)) as nat
    }
}

/// The number that at least one digit, and digits alone, stand for.
pub open spec fn digits_number(digits: Seq<char>) -> Option<u32> {
    if digits.len() > 0 && (forall|i: int| 0 <= i < digits.len() ==> is_digit(#[trigger] digits[i]))
        && digits_value(digits) <= u32::MAX {
        Some(digits_value(digits) as u32)
    } else {
        None
    }
}

/// A number in decimal, with an optional plus sign before its digits.
pub open spec fn number(s: Seq<char>) -> Option<u32> {
    if s.len() > 0 && s[0] == '+' {
        digits_number(s.skip(1))
    } else {
        digits_number(s)
    }
}

/// A row of digits is worth at least what any of its beginnings is worth.
proof fn digits_value_grows(s: Seq<char>, n: int)
    requires
        0 <= n <= s.len(),
        forall|i: int| 0 <= i < s.len() ==> is_digit(#[trigger] s[i]),
    ensures
        digits_value(s.take(n)) <= digits_value(s),
    decreases s.len() - n,
{
    if n == s.len() {
        assert(s.take(n) =~= s);
    } else {
        digits_value_grows(s, n + 1);
        assert(s.take(n + 1).drop_last() =~= s.take(n));
        assert(is_digit(s[n]));
    }
}

/// Reads the text between `from` and `to` as a number.
fn parse_number(v: &Vec<char>, from: usize, to: usize) -> (n: Option<u32>)
    requires
        from <= to <= v@.len(),
    ensures
        n == number(v@.subrange(from as int, to as int)),
{
    let ghost s = v@.subrange(from as int, to as int);
    let mut at: usize = from;
    if at < to && v[at] == '+' {
        at += 1;
    }
    let ghost digits = v@.subrange(at as int, to as int);
    assert(number(s) == digits_number(digits)) by {
        if s.len() > 0 && s[0] == '+' {
            assert(digits =~= s.skip(1));
        }
    }
    if at == to {
        return None;
    }
    let start: usize = at;
    let mut value: u64 = 0;
    while at < to
        invariant
            start <= at <= to <= v@.len(),
            digits == v@.subrange(start as int, to as int),
            forall|i: int| 0 <= i < at - start ==> is_digit(#[trigger] digits[i]),
            value == digits_value(digits.take(at - start)),
            value <= u32::MAX,
            number(v@.subrange(from as int, to as int)) == digits_number(digits),
        decreases to - at,
    {
        let c = v[at];
        if !('0' <= c && c <= '9') {
            assert(!is_digit(digits[at - start]));
            return None;
        }
        assert(digits.take(at + 1 - start).drop_last() =~= digits.take(at - start));
        value = value * 10 + (c as u64 - '0' as u64);
        at += 1;
        if value > u32::MAX as u64 {
            proof {
                if forall|i: int| 0 <= i < digits.len() ==> is_digit(#[trigger] digits[i]) {
                    digits_value_grows(digits, at - start);
                }
            }
            return None;
        }
    }
    assert(digits.take(to - start) =~= digits);
    Some(value as u32)
}

/// Reads the number that stands before the first semicolon, with white space around it allowed.
pub fn leading_number(text: &str) -> (n: Option<u32>)
    ensures
        n == number(trimmed(before_first(text@, ';'))),
{
    let v = chars_of(text);
    let mut end: usize = 0;
    assert(v@.skip(0) =~= v@);
    assert(v@.subrange(0, 0) + before_first(v@, ';') =~= before_first(v@, ';'));
    while end < v.len() && v[end] != ';'
        invariant
            end <= v@.len(),
            v@.subrange(0, end as int) + before_first(v@.skip(end as int), ';') == before_first(
                v@,
                ';',
            ),
        decreases v@.len() - end,
    {
        let ghost rest = v@.skip(end as int);
        assert(rest.skip(1) =~= v@.skip(end + 1));
        assert(v@.subrange(0, end as int) + (seq![rest[0]] + before_first(rest.skip(1), ';'))
            =~= v@.subrange(0, end + 1) + before_first(v@.skip(end + 1), ';'));
        end += 1;
    }
    let ghost head = before_first(v@, ';');
    assert(head =~= v@.subrange(0, end as int));
    let mut from: usize = 0;
    assert(v@.subrange(0, end as int) =~= head);
    while from < end && is_white_space(v[from])
        invariant
            from <= end <= v@.len(),
            trim_start(v@.subrange(from as int, end as int)) == trim_start(head),
        decreases end - from,
    {
        assert(v@.subrange(from as int, end as int).skip(1) =~= v@.subrange(from + 1, end as int));
        from += 1;
    }
    assert(trim_start(head) == v@.subrange(from as int, end as int));
    let mut to: usize = end;
    while from < to && is_white_space(v[to - 1])
        invariant
            from <= to <= v@.len(),
            trim_end(v@.subrange(from as int, to as int)) == trim_end(trim_start(head)),
        decreases to - from,
    {
        assert(v@.subrange(from as int, to as int).drop_last() =~= v@.subrange(
            from as int,
            to - 1,
        ));
        to -= 1;
    }
    assert(trimmed(head) == v@.subrange(from as int, to as int));
    parse_number(&v, from, to)
}

/// A digit shows its value: those below ten in the order of `0` to `9`, the others in that of `a` to
/// `f`.
pub proof fn a_digit_shows_its_value(d: int)
    requires
        0 <= d < 16,
    ensures
        d < 10 ==> digit_char(d) as int == '0' as int + d,
        d >= 10 ==> digit_char(d) as int == 'a' as int + (d - 10),
{
}

/// A number that is written in hexadecimal has as many digits as it is asked for, the last of them
/// for its remainder by sixteen and those before it for its quotient.
pub proof fn hexadecimal_digits_stand_in_order(n: nat, width: nat)
    ensures
        hex(n, width).len() == width,
        width > 0 ==> hex(n, width).last() == digit_char((n % 16) as int),
        width > 0 ==> hex(n, width).drop_last() == hex(n / 16, (width - 1) as nat),
    decreases width,
{
    if width > 0 {
        hexadecimal_digits_stand_in_order(n / 16, (width - 1) as nat);
        assert(hex(n, width).drop_last() =~= hex(n / 16, (width - 1) as nat));
    }
}

/// A number that is written in decimal is a row of digits that is worth that number, and begins with
/// a zero only where it is zero.
pub proof fn decimal_digits_are_worth_the_number(n: nat)
    ensures
        decimal(n).len() > 0,
        forall|i: int| 0 <= i < decimal(n).len() ==> '0' <= #[trigger] decimal(n)[i] <= '9',
        digits_value(decimal(n)) == n,
        n > 0 ==> decimal(n)[0] != '0',
        n == 0 ==> decimal(n).len() == 1,
    decreases n,
{
    let s = decimal(n);
    if n < 10 {
        assert(s.drop_last() =~= Seq::empty());
        reveal_with_fuel(digits_value, 2);
    } else {
        let before = decimal(n / 10);
        decimal_digits_are_worth_the_number(n / 10);
        assert(s.drop_last() =~= before);
        assert forall|i: int| 0 <= i < s.len() implies '0' <= #[trigger] s[i] <= '9' by {
            if i < before.len() {
                assert(s[i] == before[i]);
            }
        }
        assert(s[0] == before[0]);
    }
}

/// A number that was written reads back, with a plus sign before it or without.
pub proof fn a_written_number_reads_back(n: u32)
    ensures
        number(decimal(n as nat)) == Some(n),
        number(seq!['+'] + decimal(n as nat)) == Some(n),
{
    let s = decimal(n as nat);
    decimal_digits_are_worth_the_number(n as nat);
    assert((seq!['+'] + s).skip(1) =~= s);
    assert forall|i: int| 0 <= i < s.len() implies is_digit(#[trigger] s[i]) by {
    }
    assert('0' <= s[0]);
}

/// Only digits make a number, with a plus sign before them or without; each digit counts ten times
/// as much as the one that follows it; and a row of digits makes a number exactly where it has a
/// digit and fits in 32 bits.
pub proof fn only_digits_make_a_number(s: Seq<char>, c: char)
    ensures
        number(s) is Some ==> s.len() > 0 && forall|i: int|
            0 <= i < s.len() ==> '0' <= #[trigger] s[i] <= '9' || (i == 0 && s.len() > 1 && s[0]
                == '+'),
        (s.len() > 0 && forall|i: int| 0 <= i < s.len() ==> '0' <= #[trigger] s[i] <= '9') ==> (
        number(s) is Some <==> digits_value(s) <= u32::MAX),
        (s.len() > 0 && forall|i: int| 0 <= i < s.len() ==> '0' <= #[trigger] s[i] <= '9')
            && digits_value(s) <= u32::MAX ==> number(s)->0 == digits_value(s),
        number(Seq::empty()) is None,
        '0' <= c <= '9' ==> digits_value(s.push(c)) == 10 * digits_value(s) + (c as int
            - '0' as int),
        digits_value(Seq::empty()) == 0,
{
    if number(s) is Some {
        if s[0] == '+' {
            let digits = s.skip(1);
            assert forall|i: int| 0 < i < s.len() implies '0' <= #[trigger] s[i] <= '9' by {
                assert(is_digit(digits[i - 1]));
            }
        } else {
            assert forall|i: int| 0 <= i < s.len() implies '0' <= #[trigger] s[i] <= '9' by {
                assert(is_digit(s[i]));
            }
        }
    }
    if s.len() > 0 && forall|i: int| 0 <= i < s.len() ==> '0' <= #[trigger] s[i] <= '9' {
        assert('0' <= s[0]);
        assert forall|i: int| 0 <= i < s.len() implies is_digit(#[trigger] s[i]) by {
        }
    }
    assert(s.push(c).drop_last() =~= s);
}

/// A pattern stands in a text at a position exactly where the text has its characters from there on.
pub proof fn a_pattern_stands_where_its_characters_do(text: Seq<char>, pattern: Seq<char>, at: int)
    ensures
        occurs_at(text, pattern, at) <==> 0 <= at && at + pattern.len() <= text.len() && forall|
            k: int,
        |
            0 <= k < pattern.len() ==> text[at + k] == #[trigger] pattern[k],
{
    if occurs_at(text, pattern, at) {
        assert forall|k: int| 0 <= k < pattern.len() implies text[at + k] == #[trigger] pattern[k] by {
            assert(text.subrange(at, at + pattern.len())[k] == pattern[k]);
        }
    }
    if 0 <= at && at + pattern.len() <= text.len() && forall|k: int|
        0 <= k < pattern.len() ==> text[at + k] == #[trigger] pattern[k] {
        assert(text.subrange(at, at + pattern.len()) =~= pattern);
    }
}

/// A text contains what stands in it, whatever stands before it and after it.
pub proof fn a_text_contains_its_parts(before: Seq<char>, pattern: Seq<char>, after: Seq<char>)
    ensures
        contains_text(before + pattern + after, pattern),
{
    let text = before + pattern + after;
    let at = before.len() as int;
    assert(text.subrange(at, at + pattern.len()) =~= pattern);
    assert(occurs_at(text, pattern, at));
}

/// Whatever a text contains stands between a beginning and an end of it.
pub proof fn what_is_contained_is_a_part(text: Seq<char>, pattern: Seq<char>) -> (parts: (
    Seq<char>,
    Seq<char>,
))
    requires
        contains_text(text, pattern),
    ensures
        text == parts.0 + pattern + parts.1,
{
    let at = choose|at: int| occurs_at(text, pattern, at);
    let parts = (text.take(at), text.skip(at + pattern.len()));
    assert forall|i: int| 0 <= i < text.len() implies text[i] == #[trigger] (parts.0 + pattern
        + parts.1)[i] by {
        if at <= i < at + pattern.len() {
            assert(text.subrange(at, at + pattern.len())[i - at] == pattern[i - at]);
        }
    }
    assert(text =~= parts.0 + pattern + parts.1);
    parts
}

/// Replacing takes the first occurrence out, leaves what stands before it, and goes on behind it.
pub proof fn replacing_goes_from_left_to_right(
    before: Seq<char>,
    pattern: Seq<char>,
    after: Seq<char>,
    by: Seq<char>,
)
    requires
        pattern.len() > 0,
        forall|k: int|
            0 <= k < before.len() ==> !#[trigger] occurs_at(before + pattern + after, pattern, k),
    ensures
        replace_all(before + pattern + after, pattern, by) == before + by + replace_all(
            after,
            pattern,
            by,
        ),
    decreases before.len(),
{
    let text = before + pattern + after;
    if before.len() == 0 {
        assert(text.subrange(0, pattern.len() as int) =~= pattern);
        assert(text.skip(pattern.len() as int) =~= after);
        assert(before + by =~= by);
    } else {
        let shorter = before.skip(1);
        let rest = shorter + pattern + after;
        assert(text.skip(1) =~= rest);
        assert(!occurs_at(text, pattern, 0));
        assert forall|k: int| 0 <= k < shorter.len() implies !#[trigger] occurs_at(
            rest,
            pattern,
            k,
        ) by {
            if occurs_at(rest, pattern, k) {
                assert(rest.subrange(k, k + pattern.len()) =~= text.subrange(
                    k + 1,
                    k + 1 + pattern.len(),
                ));
                assert(occurs_at(text, pattern, k + 1));
            }
        }
        replacing_goes_from_left_to_right(shorter, pattern, after, by);
        let done = replace_all(after, pattern, by);
        assert(seq![text[0]] + (shorter + by + done) =~= before + by + done);
    }
}

/// Two texts are the same up to case exactly where they are equally long and differ, if at all, in
/// that one has a letter in upper case where the other has it in lower case.
pub proof fn only_the_case_of_letters_is_ignored(a: Seq<char>, b: Seq<char>)
    ensures
        same_ignoring_case(a, b) <==> a.len() == b.len() && forall|i: int|
            0 <= i < a.len() ==> (#[trigger] a[i]) == b[i] || ('A' <= a[i] <= 'Z' && b[i] as int
                == a[i] as int + 32) || ('A' <= b[i] <= 'Z' && a[i] as int == b[i] as int + 32),
{
    if same_ignoring_case(a, b) {
        assert forall|i: int| 0 <= i < a.len() implies (#[trigger] a[i]) == b[i] || ('A' <= a[i]
            <= 'Z' && b[i] as int == a[i] as int + 32) || ('A' <= b[i] <= 'Z' && a[i] as int
            == b[i] as int + 32) by {
            assert(folded(a[i]) == folded(b[i]));
        }
    }
}

/// What stands before the first separator is the beginning of a text that holds no separator, and is
/// either all of it or followed by one.
pub proof fn a_text_is_cut_at_the_first_separator(s: Seq<char>, separator: char)
    ensures
        before_first(s, separator).len() <= s.len(),
        before_first(s, separator) == s.take(before_first(s, separator).len() as int),
        forall|i: int|
            0 <= i < before_first(s, separator).len() ==> #[trigger] s[i] != separator,
        before_first(s, separator).len() < s.len() ==> s[before_first(s, separator).len() as int]
            == separator,
    decreases s.len(),
{
    let head = before_first(s, separator);
    if s.len() > 0 && s[0] != separator {
        let rest = s.skip(1);
        a_text_is_cut_at_the_first_separator(rest, separator);
        let tail = before_first(rest, separator);
        assert forall|i: int| 0 <= i < head.len() implies #[trigger] s[i] != separator && head[i]
            == s[i] by {
            if i > 0 {
                assert(rest[i - 1] == s[i]);
                assert(tail[i - 1] == rest.take(tail.len() as int)[i - 1]);
            }
        }
        assert(head =~= s.take(head.len() as int));
        if head.len() < s.len() {
            assert(s[head.len() as int] == rest[tail.len() as int]);
        }
    } else {
        assert(head =~= s.take(0));
    }
}

/// White space is what Unicode takes for it: the space, the controls that move the cursor, and the
/// spaces and separators beyond ASCII.
pub proof fn white_space_by_code(c: char)
    ensures
        white_space(c) <==> (9 <= c as int <= 13) || c as int == 32 || c as int == 133 || c as int
            == 160 || c as int == 5760 || (8192 <= c as int <= 8202) || c as int == 8232
            || c as int == 8233 || c as int == 8239 || c as int == 8287 || c as int == 12288,
{
}

proof fn trimming_the_start(s: Seq<char>) -> (from: int)
    ensures
        0 <= from <= s.len(),
        trim_start(s) == s.skip(from),
        forall|i: int| 0 <= i < from ==> white_space(#[trigger] s[i]),
        from < s.len() ==> !white_space(s[from]),
    decreases s.len(),
{
    if s.len() > 0 && white_space(s[0]) {
        let rest = s.skip(1);
        let n = trimming_the_start(rest);
        assert(rest.skip(n) =~= s.skip(n + 1));
        assert forall|i: int| 0 <= i < n + 1 implies white_space(#[trigger] s[i]) by {
            if i > 0 {
                assert(rest[i - 1] == s[i]);
            }
        }
        n + 1
    } else {
        assert(s.skip(0) =~= s);
        0
    }
}

proof fn trimming_the_end(s: Seq<char>) -> (to: int)
    ensures
        0 <= to <= s.len(),
        trim_end(s) == s.take(to),
        forall|i: int| to <= i < s.len() ==> white_space(#[trigger] s[i]),
        to > 0 ==> !white_space(s[to - 1]),
    decreases s.len(),
{
    if s.len() > 0 && white_space(s.last()) {
        let rest = s.drop_last();
        let n = trimming_the_end(rest);
        assert(rest.take(n) =~= s.take(n));
        assert forall|i: int| n <= i < s.len() implies white_space(#[trigger] s[i]) by {
            if i < rest.len() {
                assert(rest[i] == s[i]);
            }
        }
        n
    } else {
        assert(s.take(s.len() as int) =~= s);
        s.len() as int
    }
}

/// Trimming a text leaves a stretch of it that has no white space at either end, and takes nothing
/// but white space away.
pub proof fn trimming_takes_only_white_space_away(s: Seq<char>) -> (ends: (int, int))
    ensures
        0 <= ends.0 <= ends.1 <= s.len(),
        trimmed(s) == s.subrange(ends.0, ends.1),
        forall|i: int|
            0 <= i < ends.0 || ends.1 <= i < s.len() ==> white_space(#[trigger] s[i]),
        ends.0 < ends.1 ==> !white_space(s[ends.0]) && !white_space(s[ends.1 - 1]),
{
    let from = trimming_the_start(s);
    let rest = s.skip(from);
    let n = trimming_the_end(rest);
    assert(rest.take(n) =~= s.subrange(from, from + n));
    assert forall|i: int| from + n <= i < s.len() implies white_space(#[trigger] s[i]) by {
        assert(rest[i - from] == s[i]);
    }
    if n > 0 {
        assert(rest[n - 1] == s[from + n - 1]);
        assert(s[from] == rest[0]);
    }
    (from, from + n)
}

/// A number that is written alone, or before a semicolon, is what is read there.
pub proof fn a_number_before_a_semicolon_reads_back(n: u32, rest: Seq<char>)
    ensures
        number(trimmed(before_first(decimal(n as nat), ';'))) == Some(n),
        number(trimmed(before_first(decimal(n as nat) + seq![';'] + rest, ';'))) == Some(n),
{
    let s = decimal(n as nat);
    decimal_digits_are_worth_the_number(n as nat);
    a_written_number_reads_back(n);
    let long = s + seq![';'] + rest;
    a_text_is_cut_at_the_first_separator(s, ';');
    a_text_is_cut_at_the_first_separator(long, ';');
    let short_cut = before_first(s, ';').len() as int;
    let long_cut = before_first(long, ';').len() as int;
    if short_cut < s.len() {
        assert('0' <= s[short_cut] <= '9');
    }
    assert(s.take(short_cut) =~= s);
    if long_cut < s.len() {
        assert(long[long_cut] == s[long_cut]);
        assert('0' <= s[long_cut] <= '9');
    }
    if long_cut > s.len() {
        assert(long[s.len() as int] == ';');
    }
    assert(long.take(long_cut) =~= s);
    let ends = trimming_takes_only_white_space_away(s);
    if ends.0 > 0 {
        assert('0' <= s[0] <= '9');
        assert(white_space(s[0]));
    }
    if ends.1 < s.len() {
        let last = s.len() - 1;
        assert('0' <= s[last] <= '9');
        assert(white_space(s[last]));
    }
    assert(s.subrange(0, s.len() as int) =~= s);
}

/// Replacing back what was replaced gives the text back, where it did not hold what was put in, and
/// the two patterns are equally long, begin with the same character and hold it nowhere else.
pub proof fn replacing_back_restores(text: Seq<char>, pattern: Seq<char>, by: Seq<char>)
    requires
        pattern.len() > 0,
        by.len() == pattern.len(),
        by[0] == pattern[0],
        forall|k: int| 0 < k < by.len() ==> #[trigger] by[k] != pattern[0],
        !contains_text(text, by),
    ensures
        replace_all(replace_all(text, pattern, by), by, pattern) == text,
    decreases text.len(),
{
    let n = pattern.len() as int;
    let after = replace_all(text, pattern, by);
    if text.len() > 0 {
        let step = if occurs_at(text, pattern, 0) {
            n
        } else {
            1
        };
        let rest = text.skip(step);
        assert forall|at: int| !occurs_at(rest, by, at) by {
            if occurs_at(rest, by, at) {
                assert(rest.subrange(at, at + n) =~= text.subrange(at + step, at + step + n));
                assert(occurs_at(text, by, at + step));
            }
        }
        replacing_back_restores(rest, pattern, by);
        let done = replace_all(rest, pattern, by);
        if occurs_at(text, pattern, 0) {
            assert(after == by + done);
            assert(after.subrange(0, n) =~= by);
            assert(after.skip(n) =~= done);
            assert(pattern + rest =~= text) by {
                assert(text.subrange(0, n) == pattern);
                assert(text.subrange(0, n) + text.skip(n) =~= text);
            }
        } else {
            assert(after == seq![text[0]] + done);
            assert(!occurs_at(after, by, 0)) by {
                if occurs_at(after, by, 0) {
                    assert forall|k: int| 0 <= k < n implies after[k] == by[k] by {
                        assert(after.subrange(0, n)[k] == by[k]);
                    }
                    assert forall|k: int| 0 <= k < n - 1 implies done[k] != pattern[0] by {
                        assert(done[k] == after[k + 1]);
                        assert(after[k + 1] == by[k + 1]);
                    }
                    prefix_is_kept(rest, pattern, by, n - 1);
                    assert forall|k: int| 0 <= k < n implies text[k] == by[k] by {
                        if k == 0 {
                            assert(after[0] == text[0]);
                        } else {
                            assert(done.take(n - 1)[k - 1] == after[k]);
                            assert(rest.take(n - 1)[k - 1] == text[k]);
                        }
                    }
                    assert(text.subrange(0, n) =~= by);
                    assert(occurs_at(text, by, 0));
                }
            }
            assert(after.skip(1) =~= done);
            assert(seq![text[0]] + rest =~= text);
        }
    }
}

} // verus!
