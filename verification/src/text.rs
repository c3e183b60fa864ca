//! Small helpers on strings and characters, stated over `Seq<char>`.

use vstd::prelude::*;

verus! {

/// `String::push` of the standard library: appends one character to the
/// end of the string and leaves the characters before it untouched.
pub assume_specification[ String::push ](s: &mut String, c: char)
    ensures
        final(s)@ == old(s)@.push(c),
;

/// The ASCII lower-case form of a character: `A` to `Z` become `a` to `z`,
/// every other character stays as it is.
pub open spec fn lower_char(c: char) -> char {
    if 'A' <= c && c <= 'Z' {
        ((c as u8) + 32) as char
    } else {
        c
    }
}

/// The ASCII lower-case form of a text, character by character.
pub open spec fn lower(s: Seq<char>) -> Seq<char> {
    Seq::new(s.len(), |i: int| lower_char(s[i]))
}

/// Lower-cases one character as `lower_char` says.
pub fn to_lower_char(c: char) -> (l: char)
    ensures
        l == lower_char(c),
{
    if 'A' <= c && c <= 'Z' {
        ((c as u8) + 32) as char
    } else {
        c
    }
}

/// The characters of a string, in order.
pub fn chars_of(s: &str) -> (chars: Vec<char>)
    ensures
        chars@ == s@,
{
    let mut chars: Vec<char> = Vec::new();
    for c in it: s.chars()
        invariant
            it.seq() == s@,
            chars@ == s@.take(it.index()),
    {
        chars.push(c);
    }
    chars
}

/// The string made of the characters `chars[from..to]`.
pub fn string_of(chars: &Vec<char>, from: usize, to: usize) -> (s: String)
    requires
        from <= to <= chars.len(),
    ensures
        s@ == chars@.subrange(from as int, to as int),
{
    let mut s = String::new();
    let mut i: usize = from;
    while i < to
        invariant
            from <= i <= to <= chars.len(),
            s@ == chars@.subrange(from as int, i as int),
        decreases to - i,
    {
        s.push(chars[i]);
        i += 1;
    }
    s
}

/// Whether two texts hold the same characters.
pub fn same_text(a: &str, b: &str) -> (same: bool)
    ensures
        same == (a@ == b@),
{
    let x = chars_of(a);
    let y = chars_of(b);
    if x.len() != y.len() {
        return false;
    }
    let mut i: usize = 0;
    while i < x.len()
        invariant
            x@ == a@,
            y@ == b@,
            x.len() == y.len(),
            i <= x.len(),
            forall|k: int| 0 <= k < i ==> x@[k] == y@[k],
        decreases x.len() - i,
    {
        if x[i] != y[i] {
            return false;
        }
        i += 1;
    }
    assert(x@ =~= y@);
    true
}

/// Whether `text` begins with the characters of `prefix`.
pub fn starts_with(text: &str, prefix: &str) -> (found: bool)
    ensures
        found == prefix@.is_prefix_of(text@),
{
    let t = chars_of(text);
    let p = chars_of(prefix);
    if p.len() > t.len() {
        return false;
    }
    let mut i: usize = 0;
    while i < p.len()
        invariant
            t@ == text@,
            p@ == prefix@,
            i <= p.len() <= t.len(),
            forall|k: int| 0 <= k < i ==> t@[k] == p@[k],
        decreases p.len() - i,
    {
        if t[i] != p[i] {
            assert(t@.subrange(0, p@.len() as int)[i as int] != p@[i as int]);
            return false;
        }
        i += 1;
    }
    assert(p@ =~= t@.subrange(0, p@.len() as int));
    true
}

/// What follows the first occurrence of `mark` in `s`; empty if `mark`
/// does not occur.
pub open spec fn after_first(s: Seq<char>, mark: char) -> Seq<char>
    decreases s.len(),
{
    if s.len() == 0 {
        s
    } else if s[0] == mark {
        s.skip(1)
    } else {
        after_first(s.skip(1), mark)
    }
}

/// If `mark` stands at `at` and nowhere before it, `after_first` is what
/// follows `at`; if `mark` stands nowhere, it is empty.
pub proof fn lemma_after_first(s: Seq<char>, mark: char, at: int)
    requires
        0 <= at <= s.len(),
        forall|k: int| 0 <= k < at ==> s[k] != mark,
        at < s.len() ==> s[at] == mark,
    ensures
        at < s.len() ==> after_first(s, mark) == s.skip(at + 1),
        at == s.len() ==> after_first(s, mark) == Seq::<char>::empty(),
    decreases at,
{
    if at > 0 {
        let t = s.skip(1);
        assert forall|k: int| 0 <= k < at - 1 implies t[k] != mark by {
            assert(t[k] == s[k + 1]);
        }
        lemma_after_first(t, mark, at - 1);
        if at < s.len() {
            assert(t.skip(at) =~= s.skip(at + 1));
        }
    } else if at < s.len() {
    } else {
        assert(s =~= Seq::<char>::empty());
    }
}

/// Cuts `text` behind the first `mark`, as `after_first` says.
pub fn text_after_first(text: &str, mark: char) -> (rest: String)
    ensures
        rest@ == after_first(text@, mark),
{
    let chars = chars_of(text);
    let mut at: usize = 0;
    while at < chars.len() && chars[at] != mark
        invariant
            at <= chars.len(),
            forall|k: int| 0 <= k < at ==> chars@[k] != mark,
        decreases chars.len() - at,
    {
        at += 1;
    }
    proof {
        lemma_after_first(chars@, mark, at as int);
    }
    if at < chars.len() {
        string_of(&chars, at + 1, chars.len())
    } else {
        String::new()
    }
}

/// What stands before the first occurrence of `mark` in `s`; all of `s`
/// if `mark` does not occur.
pub open spec fn before_first(s: Seq<char>, mark: char) -> Seq<char>
    decreases s.len(),
{
    if s.len() == 0 || s[0] == mark {
        Seq::empty()
    } else {
        seq![s[0]] + before_first(s.skip(1), mark)
    }
}

/// If `mark` stands at `at` and nowhere before it, or `at` is the end of
/// `s` and `mark` stands nowhere, `before_first` is what precedes `at`.
pub proof fn lemma_before_first(s: Seq<char>, mark: char, at: int)
    requires
        0 <= at <= s.len(),
        forall|k: int| 0 <= k < at ==> s[k] != mark,
        at < s.len() ==> s[at] == mark,
    ensures
        before_first(s, mark) == s.take(at),
    decreases at,
{
    if at > 0 {
        let t = s.skip(1);
        assert forall|k: int| 0 <= k < at - 1 implies t[k] != mark by {
            assert(t[k] == s[k + 1]);
        }
        lemma_before_first(t, mark, at - 1);
        assert(seq![s[0]] + t.take(at - 1) =~= s.take(at));
    } else {
        assert(s.take(0) =~= Seq::<char>::empty());
    }
}

/// The second of the pieces into which the occurrences of `mark` cut `s`:
/// what stands between the first `mark` and the next, or the end. Nothing
/// if `mark` does not occur.
pub open spec fn second_piece(s: Seq<char>, mark: char) -> Option<Seq<char>> {
    if s.contains(mark) {
        Some(before_first(after_first(s, mark), mark))
    } else {
        None
    }
}

/// Cuts the second piece out of `text`, as `second_piece` says.
pub fn text_second_piece(text: &str, mark: char) -> (piece: Option<String>)
    ensures
        piece.deep_view() == second_piece(text@, mark),
{
    let chars = chars_of(text);
    let n: usize = chars.len();
    let mut at: usize = 0;
    while at < n && chars[at] != mark
        invariant
            n == chars.len(),
            at <= n,
            forall|k: int| 0 <= k < at ==> chars@[k] != mark,
        decreases n - at,
    {
        at += 1;
    }
    proof {
        lemma_after_first(chars@, mark, at as int);
    }
    if at == n {
        assert(!chars@.contains(mark));
        return None;
    }
    assert(chars@[at as int] == mark);
    assert(chars@.contains(mark));
    let ghost rest = chars@.skip(at + 1);
    let mut end: usize = at + 1;
    while end < n && chars[end] != mark
        invariant
            n == chars.len(),
            at < end <= n,
            rest == chars@.skip(at + 1),
            forall|k: int| 0 <= k < end - at - 1 ==> rest[k] != mark,
        decreases n - end,
    {
        assert(rest[end - at - 1] == chars@[end as int]);
        end += 1;
    }
    proof {
        if end < n {
            assert(rest[end - at - 1] == chars@[end as int]);
        }
        lemma_before_first(rest, mark, end - at - 1);
        assert(rest.take(end - at - 1) =~= chars@.subrange(at + 1, end as int));
    }
    Some(string_of(&chars, at + 1, end))
}

/// Whether `needle` stands in `hay` at position `at`.
pub open spec fn occurs_at(hay: Seq<char>, needle: Seq<char>, at: int) -> bool {
    0 <= at && at + needle.len() <= hay.len() && hay.subrange(at, at + needle.len()) == needle
}

/// Whether `needle` stands somewhere in `hay`.
pub open spec fn contains_text(hay: Seq<char>, needle: Seq<char>) -> bool {
    exists|at: int| occurs_at(hay, needle, at)
}

/// Searches `hay` for `needle`.
pub fn text_contains(hay: &str, needle: &str) -> (found: bool)
    ensures
        found == contains_text(hay@, needle@),
{
    let h = chars_of(hay);
    let n = chars_of(needle);
    if n.len() > h.len() {
        assert forall|at: int| !occurs_at(hay@, needle@, at) by {}
        return false;
    }
    let last: usize = h.len() - n.len();
    let mut at: usize = 0;
    while at <= last
        invariant
            h@ == hay@,
            n@ == needle@,
            n.len() <= h.len(),
            last == h.len() - n.len(),
            at <= last + 1,
            forall|k: int| 0 <= k < at ==> !occurs_at(hay@, needle@, k),
        decreases last + 1 - at,
    {
        let mut j: usize = 0;
        while j < n.len() && h[at + j] == n[j]
            invariant
                n.len() <= h.len(),
                last == h.len() - n.len(),
                at <= last,
                j <= n.len(),
                forall|k: int| 0 <= k < j ==> h@[at + k] == n@[k],
            decreases n.len() - j,
        {
            j += 1;
        }
        if j == n.len() {
            assert(h@.subrange(at as int, at + n.len()) =~= n@);
            assert(occurs_at(hay@, needle@, at as int));
            return true;
        }
        assert(!occurs_at(hay@, needle@, at as int)) by {
            assert(h@.subrange(at as int, at + n.len())[j as int] != n@[j as int]);
        }
        at += 1;
    }
    assert forall|k: int| !occurs_at(hay@, needle@, k) by {}
    false
}

/// The lower-case form that `str::to_lowercase` of the standard library
/// gives a text.
pub uninterp spec fn unicode_lower(s: Seq<char>) -> Seq<char>;

/// Calls `str::to_lowercase` of the standard library, which lower-cases a
/// text by the rules of Unicode. The contract gives the result its name,
/// [`unicode_lower`], and claims nothing else of it.
#[verifier::external_body]
pub(crate) fn to_unicode_lower(s: &str) -> (lowered: String)
    ensures
        lowered@ == unicode_lower(s@),
{
    s.to_lowercase()
}

/// Whether `c` is one of the decimal digits `0` to `9`.
pub open spec fn is_digit(c: char) -> bool {
    '0' <= c && c <= '9'
}

/// The value of a decimal digit.
pub open spec fn digit_value(c: char) -> nat {
    (c as u8 - 48) as nat
}

/// The number that a sequence of decimal digits denotes; 0 for the empty
/// sequence.
pub open spec fn decimal_value(digits: Seq<char>) -> nat
    decreases digits.len(),
{
    if digits.len() == 0 {
        0
    } else {
        10 * decimal_value(digits.drop_last()) + digit_value(digits.last())
    }
}

/// Whether `s` holds decimal digits only.
pub open spec fn all_digits(s: Seq<char>) -> bool {
    forall|i: int| 0 <= i < s.len() ==> is_digit(#[trigger] s[i])
}

/// `text` without one leading plus sign.
pub open spec fn without_plus(text: Seq<char>) -> Seq<char> {
    if text.len() > 0 && text[0] == '+' {
        text.skip(1)
    } else {
        text
    }
}

/// The number that `text` denotes as an unsigned 32-bit integer: an
/// optional plus sign, then one or more decimal digits whose value fits.
/// Anything else denotes nothing.
pub open spec fn parsed_u32(text: Seq<char>) -> Option<u32> {
    let digits = without_plus(text);
    if digits.len() > 0 && all_digits(digits) && decimal_value(digits) <= u32::MAX {
        Some(decimal_value(digits) as u32)
    } else {
        None
    }
}

/// More digits never denote less.
pub proof fn lemma_decimal_value_grows(digits: Seq<char>, n: int)
    requires
        0 <= n <= digits.len(),
    ensures
        decimal_value(digits.take(n)) <= decimal_value(digits),
    decreases digits.len() - n,
{
    if n < digits.len() {
        assert(digits.take(n + 1).drop_last() =~= digits.take(n));
        lemma_decimal_value_grows(digits, n + 1);
    } else {
        assert(digits.take(n) =~= digits);
    }
}

/// Reads `text` as an unsigned 32-bit integer, as `parsed_u32` says.
pub fn parse_u32(text: &str) -> (number: Option<u32>)
    ensures
        number == parsed_u32(text@),
{
    let chars = chars_of(text);
    let n: usize = chars.len();
    let first: usize = if n > 0 && chars[0] == '+' {
        1
    } else {
        0
    };
    let ghost digits = without_plus(text@);
    assert(digits =~= chars@.subrange(first as int, n as int));
    if first == n {
        return None;
    }
    let mut value: u64 = 0;
    let mut i: usize = first;
    while i < n
        invariant
            first <= i <= n == chars.len(),
            first < n,
            digits == without_plus(text@),
            digits == chars@.subrange(first as int, n as int),
            forall|k: int| 0 <= k < i - first ==> is_digit(#[trigger] digits[k]),
            value == decimal_value(digits.take(i - first)),
            value <= u32::MAX,
        decreases n - i,
    {
        let c = chars[i];
        assert(c == digits[i - first]);
        if !('0' <= c && c <= '9') {
            assert(!is_digit(digits[i - first]));
            return None;
        }
        let digit: u64 = ((c as u8) - 48) as u64;
        let next: u64 = value * 10 + digit;
        assert(digits.take(i - first + 1).drop_last() =~= digits.take(i - first));
        assert(next == decimal_value(digits.take(i - first + 1)));
        if next > 0xffff_ffff {
            proof {
                lemma_decimal_value_grows(digits, i - first + 1);
            }
            return None;
        }
        value = next;
        i += 1;
    }
    assert(digits.take(n - first) =~= digits);
    Some(value as u32)
}

} // verus!
