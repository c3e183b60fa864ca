//! The parameters that a request carries in its URL.

use vstd::prelude::*;

use crate::text::{parse_u32, parsed_u32, same_text};

verus! {

/// The name and value pairs that `form_urlencoded::parse` of the `url`
/// crate finds in `input`, in the order in which they stand there.
pub uninterp spec fn form_pairs(input: Seq<char>) -> Seq<(Seq<char>, Seq<char>)>;

/// The name and value pairs in the query of the absolute URL `url`, as
/// `Url::parse` and `Url::query_pairs` of the `url` crate find them, or
/// `None` where `Url::parse` does not accept `url`.
pub uninterp spec fn url_query_pairs(url: Seq<char>) -> Option<Seq<(Seq<char>, Seq<char>)>>;

/// Calls `form_urlencoded::parse` of the `url` crate on the bytes of
/// `input` and collects the decoded pairs. The contract gives the result
/// its name, [`form_pairs`], and claims nothing else of it.
#[verifier::external_body]
pub(crate) fn parse_form(input: &str) -> (pairs: Vec<(String, String)>)
    ensures
        pairs.deep_view() == form_pairs(input@),
{
    url::form_urlencoded::parse(input.as_bytes()).into_owned().collect()
}

/// Calls `Url::parse` of the `url` crate on `url` and, where that
/// succeeds, collects the decoded pairs of `Url::query_pairs`. The
/// contract gives the result its name, [`url_query_pairs`], and claims
/// nothing else of it.
#[verifier::external_body]
pub(crate) fn parse_url_query(url: &str) -> (pairs: Option<Vec<(String, String)>>)
    ensures
        pairs.deep_view() == url_query_pairs(url@),
{
    match url::Url::parse(url) {
        Ok(parsed) => Some(parsed.query_pairs().into_owned().collect()),
        Err(_) => None,
    }
}

/// The value of the first pair named `key`.
pub open spec fn first_value(pairs: Seq<(Seq<char>, Seq<char>)>, key: Seq<char>) -> Option<
    Seq<char>,
>
    decreases pairs.len(),
{
    if pairs.len() == 0 {
        None
    } else if pairs.first().0 == key {
        Some(pairs.first().1)
    } else {
        first_value(pairs.drop_first(), key)
    }
}

/// The value of the last pair named `key`: the one that remains when the
/// pairs are entered into a map one after the other.
pub open spec fn last_value(pairs: Seq<(Seq<char>, Seq<char>)>, key: Seq<char>) -> Option<
    Seq<char>,
>
    decreases pairs.len(),
{
    if pairs.len() == 0 {
        None
    } else if pairs.last().0 == key {
        Some(pairs.last().1)
    } else {
        last_value(pairs.drop_last(), key)
    }
}

/// `first_value` finds the pair at `at` if no pair before it is named
/// `key`, and finds nothing if no pair at all is.
pub proof fn lemma_first_value(pairs: Seq<(Seq<char>, Seq<char>)>, key: Seq<char>, at: int)
    requires
        0 <= at <= pairs.len(),
        forall|k: int| 0 <= k < at ==> pairs[k].0 != key,
        at < pairs.len() ==> pairs[at].0 == key,
    ensures
        at < pairs.len() ==> first_value(pairs, key) == Some(pairs[at].1),
        at == pairs.len() ==> first_value(pairs, key) is None,
    decreases at,
{
    if at > 0 {
        let rest = pairs.drop_first();
        assert forall|k: int| 0 <= k < at - 1 implies rest[k].0 != key by {
            assert(rest[k] == pairs[k + 1]);
        }
        lemma_first_value(rest, key, at - 1);
    }
}

/// `last_value` finds the pair at `at` if no pair behind it is named
/// `key`, and finds nothing if no pair at all is (`at` is then -1).
pub proof fn lemma_last_value(pairs: Seq<(Seq<char>, Seq<char>)>, key: Seq<char>, at: int)
    requires
        -1 <= at < pairs.len(),
        forall|k: int| at < k < pairs.len() ==> pairs[k].0 != key,
        at >= 0 ==> pairs[at].0 == key,
    ensures
        at >= 0 ==> last_value(pairs, key) == Some(pairs[at].1),
        at == -1 ==> last_value(pairs, key) is None,
    decreases pairs.len() - at,
{
    if at < pairs.len() - 1 {
        let rest = pairs.drop_last();
        lemma_last_value(rest, key, at);
    }
}

/// Looks up the value of the first pair named `key`.
pub fn find_first<'a>(pairs: &'a Vec<(String, String)>, key: &str) -> (value: Option<&'a String>)
    ensures
        value.deep_view() == first_value(pairs.deep_view(), key@),
{
    let mut i: usize = 0;
    while i < pairs.len()
        invariant
            i <= pairs.len(),
            forall|k: int| 0 <= k < i ==> pairs.deep_view()[k].0 != key@,
        decreases pairs.len() - i,
    {
        assert(pairs.deep_view()[i as int] == (pairs[i as int].0@, pairs[i as int].1@));
        if same_text(pairs[i].0.as_str(), key) {
            proof {
                lemma_first_value(pairs.deep_view(), key@, i as int);
            }
            return Some(&pairs[i].1);
        }
        i += 1;
    }
    proof {
        lemma_first_value(pairs.deep_view(), key@, i as int);
    }
    None
}

/// Looks up the value of the last pair named `key`.
pub fn find_last<'a>(pairs: &'a Vec<(String, String)>, key: &str) -> (value: Option<&'a String>)
    ensures
        value.deep_view() == last_value(pairs.deep_view(), key@),
{
    let mut i: usize = pairs.len();
    while i > 0
        invariant
            i <= pairs.len(),
            forall|k: int| i <= k < pairs.len() ==> pairs.deep_view()[k].0 != key@,
        decreases i,
    {
        i -= 1;
        assert(pairs.deep_view()[i as int] == (pairs[i as int].0@, pairs[i as int].1@));
        if same_text(pairs[i].0.as_str(), key) {
            proof {
                lemma_last_value(pairs.deep_view(), key@, i as int);
            }
            return Some(&pairs[i].1);
        }
    }
    proof {
        lemma_last_value(pairs.deep_view(), key@, -1);
    }
    None
}

/// The process id that a parameter value names: the number it denotes,
/// and 0 where the parameter is missing or denotes no number.
pub open spec fn pid_or_zero(value: Option<Seq<char>>) -> u32 {
    match value {
        Some(text) => match parsed_u32(text) {
            Some(pid) => pid,
            None => 0,
        },
        None => 0,
    }
}

/// Reads a parameter value as a process id, as `pid_or_zero` says.
pub fn read_pid(value: Option<&String>) -> (pid: u32)
    ensures
        pid == pid_or_zero(value.deep_view()),
{
    match value {
        Some(text) => match parse_u32(text.as_str()) {
            Some(pid) => pid,
            None => 0,
        },
        None => 0,
    }
}

} // verus!
