//! How the terminal UI's slash-command menu turns the typed text into a
//! search: an empty input yields no results, anything else is searched for as
//! trimmed, lower-case text, among the active commands and, when AI work runs
//! on the local host, among the local skills too, whose matches follow those
//! of the commands.

use vstd::prelude::*;

verus! {

/// Whether `c` is white space in the sense of the Unicode `White_Space`
/// property, which is what `char::is_whitespace` and `str::trim` go by.
pub open spec fn is_unicode_whitespace(c: char) -> bool {
    let u = c as u32;
    ||| 0x09 <= u <= 0x0d
    ||| u == 0x20
    ||| u == 0x85
    ||| u == 0xa0
    ||| u == 0x1680
    ||| 0x2000 <= u <= 0x200a
    ||| u == 0x2028
    ||| u == 0x2029
    ||| u == 0x202f
    ||| u == 0x205f
    ||| u == 0x3000
}

/// `s` without its leading white space.
pub open spec fn trim_start(s: Seq<char>) -> Seq<char>
    decreases s.len(),
{
    if s.len() > 0 && is_unicode_whitespace(s[0]) {
        trim_start(s.drop_first())
    } else {
        s
    }
}

/// `s` without its trailing white space.
pub open spec fn trim_end(s: Seq<char>) -> Seq<char>
    decreases s.len(),
{
    if s.len() > 0 && is_unicode_whitespace(s.last()) {
        trim_end(s.drop_last())
    } else {
        s
    }
}

/// `s` without its leading and trailing white space.
pub open spec fn trimmed(s: Seq<char>) -> Seq<char> {
    trim_end(trim_start(s))
}

/// The result of `str::to_lowercase` on the text `s`: the full Unicode
/// lower-case mapping of each character, with the context rule for the final
/// Greek sigma.
pub uninterp spec fn lowercase(s: Seq<char>) -> Seq<char>;

proof fn lemma_trim_start_drops_leading_space(s: Seq<char>) -> (i: int)
    ensures
        0 <= i <= s.len(),
        trim_start(s) == s.subrange(i, s.len() as int),
        forall|k: int| 0 <= k < i ==> is_unicode_whitespace(#[trigger] s[k]),
        i < s.len() ==> !is_unicode_whitespace(s[i]),
    decreases s.len(),
{
    if s.len() > 0 && is_unicode_whitespace(s[0]) {
        let i = lemma_trim_start_drops_leading_space(s.drop_first());
        assert(s.drop_first().subrange(i, s.drop_first().len() as int) =~= s.subrange(
            i + 1,
            s.len() as int,
        ));
        assert forall|k: int| 0 <= k < i + 1 implies is_unicode_whitespace(#[trigger] s[k]) by {
            if k > 0 {
                assert(s[k] == s.drop_first()[k - 1]);
            }
        }
        i + 1
    } else {
        assert(s.subrange(0, s.len() as int) =~= s);
        0
    }
}

proof fn lemma_trim_end_drops_trailing_space(s: Seq<char>) -> (j: int)
    ensures
        0 <= j <= s.len(),
        trim_end(s) == s.subrange(0, j),
        forall|k: int| j <= k < s.len() ==> is_unicode_whitespace(#[trigger] s[k]),
        j > 0 ==> !is_unicode_whitespace(s[j - 1]),
    decreases s.len(),
{
    if s.len() > 0 && is_unicode_whitespace(s.last()) {
        let j = lemma_trim_end_drops_trailing_space(s.drop_last());
        assert(s.drop_last().subrange(0, j) =~= s.subrange(0, j));
        assert forall|k: int| j <= k < s.len() implies is_unicode_whitespace(#[trigger] s[k]) by {
            if k < s.len() - 1 {
                assert(s[k] == s.drop_last()[k]);
            }
        }
        j
    } else {
        assert(s.subrange(0, s.len() as int) =~= s);
        s.len() as int
    }
}

/// Trimming keeps a contiguous stretch of the text and drops only white space
/// around it: what is dropped before and after is white space, and what is
/// kept neither begins nor ends with white space.
pub proof fn lemma_trimmed_is_text_without_surrounding_space(s: Seq<char>)
    ensures
        exists|i: int, j: int|
            0 <= i <= j <= s.len() && trimmed(s) == s.subrange(i, j) && (forall|k: int|
                0 <= k < i ==> is_unicode_whitespace(#[trigger] s[k])) && (forall|k: int|
                j <= k < s.len() ==> is_unicode_whitespace(#[trigger] s[k])),
        trimmed(s).len() > 0 ==> !is_unicode_whitespace(trimmed(s)[0]) && !is_unicode_whitespace(
            trimmed(s).last(),
        ),
{
    let i = lemma_trim_start_drops_leading_space(s);
    let t = trim_start(s);
    let j = lemma_trim_end_drops_trailing_space(t);
    assert(trimmed(s) == t.subrange(0, j));
    assert(t.subrange(0, j) =~= s.subrange(i, i + j));
    assert forall|k: int| i + j <= k < s.len() implies is_unicode_whitespace(#[trigger] s[k]) by {
        assert(s[k] == t[k - i]);
    }
    if trimmed(s).len() > 0 {
        assert(trimmed(s)[0] == t[0]);
        assert(t[0] == s[i]);
        assert(trimmed(s).last() == t[j - 1]);
    }
    assert(0 <= i <= i + j <= s.len() && trimmed(s) == s.subrange(i, i + j));
}

/// Calls `str::trim`, which returns `s` without its leading and trailing
/// white space (the Unicode `White_Space` property).
#[verifier::external_body]
fn trim_text<'a>(s: &'a str) -> (t: &'a str)
    ensures
        t@ == trimmed(s@),
{
    s.trim()
}

/// Calls `str::to_lowercase`; its result is named `lowercase`, a function of
/// the text alone.
#[verifier::external_body]
fn lowercase_text(s: &str) -> (l: String)
    ensures
        l@ == lowercase(s@),
{
    s.to_lowercase()
}

/// What the menu does with the typed text.
pub enum TuiQueryPlan {
    /// The input is empty: the menu shows no results.
    NoResults,
    /// Search for `query_text`: among the active commands, and among the local
    /// skills when AI work runs on the local host (which is consulted only
    /// for this case).
    Search { query_text: String },
}

/// Plans the search for the typed `text`. Emptiness is judged before
/// trimming, so input made only of white space is searched for as the empty
/// text.
pub fn plan_query(text: &str) -> (plan: TuiQueryPlan)
    ensures
        (plan is NoResults) == (text@.len() == 0),
        plan matches TuiQueryPlan::Search { query_text } ==> query_text@ == lowercase(
            trimmed(text@),
        ),
{
    if text.is_empty() {
        return TuiQueryPlan::NoResults;
    }
    let query_text = lowercase_text(trim_text(text));
    TuiQueryPlan::Search { query_text }
}

/// The menu's results: the matching commands first, then the matching local
/// skills, which are given only when AI work runs on the local host.
pub fn assemble_query_results<T>(command_matches: Vec<T>, skill_matches: Option<Vec<T>>) -> (results:
    Vec<T>)
    ensures
        results@ == command_matches@ + match skill_matches {
            Some(skills) => skills@,
            None => Seq::<T>::empty(),
        },
{
    let mut results = command_matches;
    match skill_matches {
        Some(skills) => {
            let mut skills = skills;
            results.append(&mut skills);
        },
        None => {
            assert(results@ =~= results@ + Seq::<T>::empty());
        },
    }
    results
}

} // verus!
