//! Command lines: splitting one into its segments, and reducing the name
//! of an executable to the form in which the allow-list knows it.

use vstd::prelude::*;

use crate::text::{chars_of, lower, to_lower_char};

verus! {

/// Whether position `i` of `s` lies behind an odd number of double quotes,
/// that is, inside a quoted span that has been opened and not yet closed.
pub open spec fn in_quotes(s: Seq<char>, i: int) -> bool
    decreases i,
{
    if i <= 0 {
        false
    } else {
        in_quotes(s, i - 1) != (s[i - 1] == '"')
    }
}

/// Whether position `i` of `s` separates two segments: a space outside
/// every quoted span.
pub open spec fn is_break(s: Seq<char>, i: int) -> bool {
    0 <= i < s.len() && s[i] == ' ' && !in_quotes(s, i)
}

/// The first separating position at or after `from`, or the length of `s`
/// if there is none.
pub open spec fn next_break(s: Seq<char>, from: int) -> int
    decreases s.len() - from,
{
    if from >= s.len() {
        s.len() as int
    } else if is_break(s, from) {
        from
    } else {
        next_break(s, from + 1)
    }
}

/// `next_break` stays within the string, never moves back, and moves
/// forward past a position that does not separate.
pub proof fn lemma_next_break_bounds(s: Seq<char>, from: int)
    requires
        0 <= from <= s.len(),
    ensures
        from <= next_break(s, from) <= s.len(),
        from < s.len() && !is_break(s, from) ==> from < next_break(s, from),
        next_break(s, from) < s.len() ==> is_break(s, next_break(s, from)),
        forall|k: int| from <= k < next_break(s, from) ==> !is_break(s, k),
    decreases s.len() - from,
{
    if from < s.len() && !is_break(s, from) {
        lemma_next_break_bounds(s, from + 1);
    }
}

/// The segments of `s` that start at or after `from`, where `from` is not
/// in the middle of a segment.
pub open spec fn segments_from(s: Seq<char>, from: int) -> Seq<Seq<char>>
    decreases s.len() - from,
{
    if from >= s.len() || from < 0 {
        Seq::empty()
    } else if is_break(s, from) {
        segments_from(s, from + 1)
    } else {
        proof {
            lemma_next_break_bounds(s, from);
        }
        seq![s.subrange(from, next_break(s, from))] + segments_from(s, next_break(s, from))
    }
}

/// The segments of a command line: the maximal runs of characters that hold
/// no separating space, in the order in which they occur.
pub open spec fn segments_of(s: Seq<char>) -> Seq<Seq<char>> {
    segments_from(s, 0)
}

/// A run that holds no separating position and ends at one, or at the end
/// of the string, ends exactly where `next_break` says.
pub proof fn lemma_next_break_is(s: Seq<char>, from: int, end: int)
    requires
        0 <= from <= end <= s.len(),
        forall|k: int| from <= k < end ==> !is_break(s, k),
        end == s.len() || is_break(s, end),
    ensures
        next_break(s, from) == end,
    decreases end - from,
{
    if from < end {
        lemma_next_break_is(s, from + 1, end);
    }
}

/// Splits a command line into its segments at every space that stands
/// outside double quotes. The quotes stay part of their segment, and a
/// quote that is never closed runs to the end of the line. Runs of spaces
/// produce no empty segments.
pub fn split_command(command: &str) -> (segments: Vec<String>)
    ensures
        segments.deep_view() == segments_of(command@),
{
    let mut segments: Vec<String> = Vec::new();
    let mut segment = String::new();
    let mut quoted = false;
    let ghost mut start: int = 0;
    let ghost s = command@;

    for c in it: command.chars()
        invariant
            it.seq() == s,
            0 <= start <= it.index() <= s.len(),
            quoted == in_quotes(s, it.index()),
            segment@ == s.subrange(start, it.index()),
            forall|k: int| start <= k < it.index() ==> !is_break(s, k),
            segments_of(s) == segments.deep_view() + segments_from(s, start),
    {
        let ghost i = it.index();
        assert(c == s[i]);
        assert(in_quotes(s, i + 1) == (in_quotes(s, i) != (s[i] == '"')));
        if c == ' ' && !quoted {
            assert(is_break(s, i));
            if !segment.as_str().is_empty() {
                proof {
                    lemma_next_break_is(s, start, i);
                    lemma_next_break_bounds(s, start);
                    assert(segments_from(s, start) == seq![s.subrange(start, i)] + segments_from(
                        s,
                        i,
                    ));
                    assert(segments_from(s, i) == segments_from(s, i + 1));
                    assert(segments.deep_view().push(segment@) + segments_from(s, i + 1)
                        == segments.deep_view() + segments_from(s, start));
                }
                let ghost before = segments.deep_view();
                segments.push(segment);
                assert(segments.deep_view() == before.push(s.subrange(start, i)));
                segment = String::new();
            } else {
                assert(start == i);
            }
            proof {
                start = i + 1;
            }
            assert(segment@ == s.subrange(start, i + 1));
        } else {
            if c == '"' {
                quoted = !quoted;
            }
            segment.push(c);
            assert(!is_break(s, i));
            assert(segment@ == s.subrange(start, i + 1));
        }
    }

    if !segment.as_str().is_empty() {
        proof {
            let n = s.len() as int;
            lemma_next_break_is(s, start, n);
            assert(segments_from(s, n) == Seq::<Seq<char>>::empty());
            assert(segments_from(s, start) == seq![s.subrange(start, n)]);
        }
        let ghost before = segments.deep_view();
        segments.push(segment);
        assert(segments.deep_view() == before.push(s.subrange(start, s.len() as int)));
    } else {
        assert(start == s.len());
    }
    segments
}

/// The stretch of positions from `span.0` up to, not including, `span.1`.
pub open spec fn in_span(span: (int, int), i: int) -> bool {
    span.0 <= i < span.1
}

/// Where the segments of `s` at or after `from` lie: for each its first
/// position and the position behind its last.
pub open spec fn spans_from(s: Seq<char>, from: int) -> Seq<(int, int)>
    decreases s.len() - from,
{
    if from >= s.len() || from < 0 {
        Seq::empty()
    } else if is_break(s, from) {
        spans_from(s, from + 1)
    } else {
        proof {
            lemma_next_break_bounds(s, from);
        }
        seq![(from, next_break(s, from))] + spans_from(s, next_break(s, from))
    }
}

/// Where the segments of `s` lie.
pub open spec fn spans_of(s: Seq<char>) -> Seq<(int, int)> {
    spans_from(s, 0)
}

/// What it means that `spans` are the runs between the separating
/// positions of `s` from `from` on: each is a stretch of `s` that is not
/// empty and holds no separating position; each begins at `from` or just
/// behind a separating position and ends at one or at the end of `s`;
/// they come in order and apart; and every position from `from` on that
/// does not separate lies in one of them.
pub open spec fn are_runs_between_breaks(s: Seq<char>, from: int, spans: Seq<(int, int)>) -> bool {
    &&& forall|k: int|
        0 <= k < spans.len() ==> from <= (#[trigger] spans[k]).0 < spans[k].1 <= s.len()
    &&& forall|k: int, i: int|
        0 <= k < spans.len() && #[trigger] in_span(spans[k], i) ==> !is_break(s, i)
    &&& forall|k: int|
        0 <= k < spans.len() ==> (#[trigger] spans[k]).0 == from || is_break(s, spans[k].0 - 1)
    &&& forall|k: int|
        0 <= k < spans.len() ==> (#[trigger] spans[k]).1 == s.len() || is_break(s, spans[k].1)
    &&& forall|k: int| 0 <= k && k + 1 < spans.len() ==> (#[trigger] spans[k]).1 < spans[k + 1].0
    &&& forall|i: int|
        from <= i < s.len() && !#[trigger] is_break(s, i) ==> exists|k: int|
            0 <= k < spans.len() && in_span(#[trigger] spans[k], i)
}

/// From a position at which no segment is under way, `spans_from` yields
/// the runs between the separating positions.
pub proof fn lemma_spans_from(s: Seq<char>, from: int)
    requires
        0 <= from <= s.len(),
    ensures
        are_runs_between_breaks(s, from, spans_from(s, from)),
    decreases s.len() - from,
{
    let spans = spans_from(s, from);
    if from >= s.len() {
    } else if is_break(s, from) {
        lemma_spans_from(s, from + 1);
        let rest = spans_from(s, from + 1);
        assert(spans == rest);
        assert forall|i: int| from <= i < s.len() && !#[trigger] is_break(s, i) implies exists|
            k: int,
        | 0 <= k < spans.len() && in_span(#[trigger] spans[k], i) by {
            assert(from + 1 <= i);
        }
    } else {
        let end = next_break(s, from);
        lemma_next_break_bounds(s, from);
        lemma_spans_from(s, end);
        let rest = spans_from(s, end);
        assert(spans == seq![(from, end)] + rest);
        assert(spans[0] == (from, end));
        assert forall|k: int| 1 <= k < spans.len() implies spans[k] == rest[k - 1] by {}
        assert forall|k: int| 0 <= k < rest.len() implies end < (#[trigger] rest[k]).0 by {
            assert(in_span(rest[k], rest[k].0));
            assert(!is_break(s, rest[k].0));
        }
        assert forall|k: int| 0 <= k < spans.len() implies from <= (#[trigger] spans[k]).0
            < spans[k].1 <= s.len() by {
            if k > 0 {
                assert(spans[k] == rest[k - 1]);
            }
        }
        assert forall|k: int, i: int|
            0 <= k < spans.len() && #[trigger] in_span(spans[k], i) implies !is_break(s, i) by {
            if k > 0 {
                assert(spans[k] == rest[k - 1]);
                assert(in_span(rest[k - 1], i));
            }
        }
        assert forall|k: int| 0 <= k < spans.len() implies (#[trigger] spans[k]).0 == from
            || is_break(s, spans[k].0 - 1) by {
            if k > 0 {
                assert(spans[k] == rest[k - 1]);
                assert(end < rest[k - 1].0);
            }
        }
        assert forall|k: int| 0 <= k < spans.len() implies (#[trigger] spans[k]).1 == s.len()
            || is_break(s, spans[k].1) by {
            if k > 0 {
                assert(spans[k] == rest[k - 1]);
            }
        }
        assert forall|k: int| 0 <= k && k + 1 < spans.len() implies (#[trigger] spans[k]).1
            < spans[k + 1].0 by {
            assert(spans[k + 1] == rest[k]);
            if k > 0 {
                assert(spans[k] == rest[k - 1]);
            }
        }
        assert forall|i: int| from <= i < s.len() && !#[trigger] is_break(s, i) implies exists|
            k: int,
        | 0 <= k < spans.len() && in_span(#[trigger] spans[k], i) by {
            if i < end {
                assert(in_span(spans[0], i));
            } else {
                let k = choose|k: int| 0 <= k < rest.len() && in_span(#[trigger] rest[k], i);
                assert(spans[k + 1] == rest[k]);
                assert(in_span(spans[k + 1], i));
            }
        }
    }
}

/// The segments from `from` on are the stretches of `s` that `spans_from`
/// names.
pub proof fn lemma_segments_from_spans(s: Seq<char>, from: int)
    requires
        0 <= from <= s.len(),
    ensures
        segments_from(s, from).len() == spans_from(s, from).len(),
        forall|k: int|
            0 <= k < spans_from(s, from).len() ==> #[trigger] segments_from(s, from)[k]
                == s.subrange(spans_from(s, from)[k].0, spans_from(s, from)[k].1),
    decreases s.len() - from,
{
    if from >= s.len() {
    } else if is_break(s, from) {
        lemma_segments_from_spans(s, from + 1);
    } else {
        lemma_next_break_bounds(s, from);
        lemma_segments_from_spans(s, next_break(s, from));
    }
}

/// A command line is split at its separating spaces and nowhere else: its
/// segments are, in order, the runs of characters between the spaces that
/// stand outside quotes. No segment is empty, none holds such a space,
/// none could be longer, and no other character is lost.
pub proof fn lemma_split_on_unquoted_spaces_only(s: Seq<char>)
    ensures
        are_runs_between_breaks(s, 0, spans_of(s)),
        segments_of(s).len() == spans_of(s).len(),
        forall|k: int|
            0 <= k < spans_of(s).len() ==> #[trigger] segments_of(s)[k] == s.subrange(
                spans_of(s)[k].0,
                spans_of(s)[k].1,
            ),
{
    lemma_spans_from(s, 0);
    lemma_segments_from_spans(s, 0);
}

/// Between an opening quote and the quote that closes it no position
/// separates, so the quoted span, its two quotes included, stays within
/// one segment.
pub proof fn lemma_quoted_span_is_unbroken(s: Seq<char>, open: int, close: int)
    requires
        0 <= open < close < s.len(),
        s[open] == '"',
        s[close] == '"',
        !in_quotes(s, open),
        forall|k: int| open < k < close ==> s[k] != '"',
    ensures
        forall|k: int| open <= k <= close ==> !#[trigger] is_break(s, k),
        !in_quotes(s, close + 1),
{
    assert forall|k: int| open < k <= close implies in_quotes(s, k) by {
        lemma_quoted(s, open, k);
    }
    assert(in_quotes(s, close));
    assert(in_quotes(s, close + 1) == (in_quotes(s, close) != (s[close] == '"')));
}

/// Behind an opening quote every position is quoted as far as no other
/// quote stands.
proof fn lemma_quoted(s: Seq<char>, open: int, k: int)
    requires
        0 <= open < k <= s.len(),
        s[open] == '"',
        !in_quotes(s, open),
        forall|j: int| open < j < k ==> s[j] != '"',
    ensures
        in_quotes(s, k),
    decreases k - open,
{
    if k > open + 1 {
        lemma_quoted(s, open, k - 1);
    }
}

/// A stretch of positions that holds no separating position lies within
/// one segment.
pub proof fn lemma_unbroken_run_in_one_segment(s: Seq<char>, first: int, last: int)
    requires
        0 <= first <= last < s.len(),
        forall|i: int| first <= i <= last ==> !#[trigger] is_break(s, i),
    ensures
        exists|k: int|
            0 <= k < spans_of(s).len() && (#[trigger] spans_of(s)[k]).0 <= first && last
                < spans_of(s)[k].1,
{
    lemma_spans_from(s, 0);
    let spans = spans_of(s);
    assert(!is_break(s, first));
    let k = choose|k: int| 0 <= k < spans.len() && in_span(#[trigger] spans[k], first);
    assert(spans[k].1 == s.len() || is_break(s, spans[k].1));
    assert(last < spans[k].1);
}

/// Whether `c` separates the components of a path.
pub open spec fn is_path_separator(c: char) -> bool {
    c == '/' || c == '\\'
}

/// Where the final component of the path `s` starts: behind its last
/// separator, or at 0 if it has none.
pub open spec fn base_start(s: Seq<char>) -> int
    decreases s.len(),
{
    if s.len() == 0 {
        0
    } else if is_path_separator(s.last()) {
        s.len() as int
    } else {
        base_start(s.drop_last())
    }
}

/// The final component of the path `s`.
pub open spec fn base_name(s: Seq<char>) -> Seq<char> {
    s.skip(base_start(s))
}

/// The suffix that marks an executable file.
pub open spec fn exe_suffix() -> Seq<char> {
    seq!['.', 'e', 'x', 'e']
}

/// Whether `s` ends in the executable suffix, in any mix of upper and
/// lower case.
pub open spec fn has_exe_suffix(s: Seq<char>) -> bool {
    s.len() >= 4 && lower(s.skip(s.len() - 4)) == exe_suffix()
}

/// `s` without its executable suffix, if it has one.
pub open spec fn without_exe_suffix(s: Seq<char>) -> Seq<char> {
    if has_exe_suffix(s) {
        s.take(s.len() - 4)
    } else {
        s
    }
}

/// The name under which an executable is looked up in the allow-list: the
/// final component of its path, without the executable suffix, in lower
/// case.
pub open spec fn normalized_name(executable: Seq<char>) -> Seq<char> {
    lower(without_exe_suffix(base_name(executable)))
}

/// `base_start` names the position behind the last separator: nothing
/// from there on separates, and what stands just before it does.
pub proof fn lemma_base_start(s: Seq<char>)
    ensures
        0 <= base_start(s) <= s.len(),
        forall|k: int| base_start(s) <= k < s.len() ==> !is_path_separator(s[k]),
        base_start(s) > 0 ==> is_path_separator(s[base_start(s) - 1]),
    decreases s.len(),
{
    if s.len() > 0 && !is_path_separator(s.last()) {
        let t = s.drop_last();
        lemma_base_start(t);
        assert forall|k: int| base_start(s) <= k < s.len() implies !is_path_separator(s[k]) by {
            if k < t.len() {
                assert(t[k] == s[k]);
            }
        }
    }
}

/// The position behind the last separator is the only one that
/// `lemma_base_start` describes.
pub proof fn lemma_base_start_is(s: Seq<char>, start: int)
    requires
        0 <= start <= s.len(),
        forall|k: int| start <= k < s.len() ==> !is_path_separator(s[k]),
        start > 0 ==> is_path_separator(s[start - 1]),
    ensures
        base_start(s) == start,
    decreases s.len(),
{
    if s.len() > 0 && !is_path_separator(s.last()) {
        lemma_base_start_is(s.drop_last(), start);
    }
}

/// Reduces the path or name of an executable to the name under which the
/// allow-list knows it.
pub fn normalize_executable(executable: &str) -> (name: String)
    ensures
        name@ == normalized_name(executable@),
{
    let chars = chars_of(executable);
    let n: usize = chars.len();
    let mut start: usize = n;
    while start > 0 && !(chars[start - 1] == '/' || chars[start - 1] == '\\')
        invariant
            n == chars.len(),
            start <= n,
            forall|k: int| start <= k < n ==> !is_path_separator(chars@[k]),
        decreases start,
    {
        start -= 1;
    }
    proof {
        lemma_base_start_is(chars@, start as int);
    }
    let ghost base = chars@.skip(start as int);
    let mut end: usize = n;
    if n - start >= 4 {
        let dot = to_lower_char(chars[n - 4]);
        let e1 = to_lower_char(chars[n - 3]);
        let x = to_lower_char(chars[n - 2]);
        let e2 = to_lower_char(chars[n - 1]);
        assert(lower(base.skip(base.len() - 4)) =~= seq![dot, e1, x, e2]);
        if dot == '.' && e1 == 'e' && x == 'x' && e2 == 'e' {
            assert(seq![dot, e1, x, e2] =~= exe_suffix());
            end = n - 4;
        } else {
            assert(seq![dot, e1, x, e2] != exe_suffix()) by {
                let t = seq![dot, e1, x, e2];
                assert(t[0] == dot && t[1] == e1 && t[2] == x && t[3] == e2);
                assert(exe_suffix()[0] == '.' && exe_suffix()[1] == 'e' && exe_suffix()[2] == 'x'
                    && exe_suffix()[3] == 'e');
            }
        }
    }
    let ghost stem = without_exe_suffix(base);
    assert(stem =~= chars@.subrange(start as int, end as int));
    let mut name = String::new();
    let mut i: usize = start;
    while i < end
        invariant
            start <= i <= end <= chars.len(),
            name@ == lower(chars@.subrange(start as int, i as int)),
        decreases end - i,
    {
        let c = to_lower_char(chars[i]);
        name.push(c);
        assert(name@ =~= lower(chars@.subrange(start as int, i + 1)));
        i += 1;
    }
    name
}

} // verus!
