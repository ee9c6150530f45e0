//! Line search: the lines of a text that contain a query, in the order in which they
//! stand in the text.
//!
//! A search can take the query as written or ignore case. To ignore case it compares
//! the lower-case form of the query with the lower-case form of each line, both as
//! `str::to_lowercase` gives them. That form is the same in every locale and
//! environment, so a search has the same result wherever it runs. It is a plain case
//! fold and no collation: two texts that a reader takes for the same word may still
//! differ after it, as a composed and a decomposed accented letter do.

use vstd::prelude::*;
use crate::lines::{lemma_lines_are_pieces, lines, lines_of};
use crate::substring::{chars_of, contains_chars, is_substring};

verus! {

/// The lower-case form of `text`, as `str::to_lowercase` computes it from the Unicode
/// character database: the same for every locale and environment.
pub uninterp spec fn lowercase(text: Seq<char>) -> Seq<char>;

/// `str::to_lowercase` of the standard library. Its result is a function of the text
/// alone; nothing more is claimed of it here than that it is the text's `lowercase`.
pub assume_specification[ str::to_lowercase ](text: &str) -> (folded: String)
    ensures
        folded@ == lowercase(text@),
;

/// The form in which text is compared: as it stands when case matters, in lower case
/// when it does not.
pub open spec fn folded(text: Seq<char>, case_sensitive: bool) -> Seq<char> {
    if case_sensitive {
        text
    } else {
        lowercase(text)
    }
}

/// Whether `line` is a hit for `query`: the query, folded, occurs in the folded line.
pub open spec fn line_matches(query: Seq<char>, line: Seq<char>, case_sensitive: bool) -> bool {
    is_substring(folded(query, case_sensitive), folded(line, case_sensitive))
}

/// The test that a search puts to each line.
pub open spec fn hit_test(query: Seq<char>, case_sensitive: bool) -> spec_fn(Seq<char>) -> bool {
    |line: Seq<char>| line_matches(query, line, case_sensitive)
}

/// The test of a case-insensitive search, written out: the lower-case query occurs in
/// the lower-case line.
pub open spec fn lowercase_hit_test(query: Seq<char>) -> spec_fn(Seq<char>) -> bool {
    |line: Seq<char>| is_substring(lowercase(query), lowercase(line))
}

/// What a search returns: the lines of `contents` that are hits for `query`, each as it
/// stands in `contents`, in the order in which they stand there.
pub open spec fn search_results(
    query: Seq<char>,
    contents: Seq<char>,
    case_sensitive: bool,
) -> Seq<Seq<char>> {
    lines_of(contents).filter(hit_test(query, case_sensitive))
}

/// The characters of `text` in the form in which they are compared.
fn folded_chars(text: &str, case_sensitive: bool) -> (chars: Vec<char>)
    ensures
        chars@ == folded(text@, case_sensitive),
{
    if case_sensitive {
        chars_of(text)
    } else {
        let lower = text.to_lowercase();
        chars_of(lower.as_str())
    }
}

/// Keeps the lines of `all` that are hits for `query`.
pub fn select_matching<'a>(query: &str, all: Vec<&'a str>, case_sensitive: bool) -> (results: Vec<
    &'a str,
>)
    ensures
        results.deep_view() == all.deep_view().filter(hit_test(query@, case_sensitive)),
{
    let wanted = folded_chars(query, case_sensitive);
    let ghost hit = hit_test(query@, case_sensitive);
    let ghost given = all.deep_view();
    let mut results: Vec<&'a str> = Vec::new();
    let mut i: usize = 0;
    proof {
        reveal(Seq::filter);
        assert(given.take(0) =~= Seq::<Seq<char>>::empty());
        assert(results.deep_view() =~= given.take(0).filter(hit));
    }
    while i < all.len()
        invariant
            i <= all.len(),
            given == all.deep_view(),
            wanted@ == folded(query@, case_sensitive),
            hit == hit_test(query@, case_sensitive),
            results.deep_view() == given.take(i as int).filter(hit),
        decreases all.len() - i,
    {
        let line: &'a str = all[i];
        let shown = folded_chars(line, case_sensitive);
        let ghost before = results.deep_view();
        proof {
            reveal(Seq::filter);
            assert(given.take(i + 1).drop_last() =~= given.take(i as int));
            assert(given.take(i + 1).last() == line@);
        }
        if contains_chars(shown.as_slice(), wanted.as_slice()) {
            results.push(line);
            assert(results.deep_view() =~= before.push(line@));
        }
        i += 1;
    }
    assert(given.take(i as int) =~= given);
    results
}

/// Returns the lines of `contents` that contain `query`, exactly as written.
pub fn search<'a>(query: &str, contents: &'a str) -> (results: Vec<&'a str>)
    ensures
        results.deep_view() == search_results(query@, contents@, true),
{
    select_matching(query, lines(contents), true)
}

/// Returns the lines of `contents` whose lower-case form contains the lower-case form
/// of `query`. The lines come back as they stand in `contents`, not in lower case.
pub fn search_case_insensitive<'a>(query: &str, contents: &'a str) -> (results: Vec<&'a str>)
    ensures
        results.deep_view() == search_results(query@, contents@, false),
{
    select_matching(query, lines(contents), false)
}

/// Line search with the choice of case handling as an argument.
pub struct LineSearcher;

impl LineSearcher {
    /// Returns the lines of `contents` that are hits for `query`, in the order and the
    /// form in which they stand in `contents`. With `case_sensitive` the query must occur as written; without
    /// it, query and line are compared in lower case. Every pair of texts has a
    /// result: no hit gives the empty vector.
    pub fn search<'a>(query: &str, contents: &'a str, case_sensitive: bool) -> (results: Vec<
        &'a str,
    >)
        ensures
            results.deep_view() == search_results(query@, contents@, case_sensitive),
    {
        if case_sensitive {
            search(query, contents)
        } else {
            search_case_insensitive(query, contents)
        }
    }
}

/// `picked` is made of the entries of `from` at the positions `at`, which rise: so
/// `picked` holds entries of `from` only, in the order in which they stand there.
pub open spec fn picks_in_order<A>(picked: Seq<A>, from: Seq<A>, at: Seq<int>) -> bool {
    &&& at.len() == picked.len()
    &&& forall|k: int|
        0 <= k < at.len() ==> 0 <= #[trigger] at[k] < from.len() && picked[k] == from[at[k]]
    &&& forall|j: int, k: int| 0 <= j < k < at.len() ==> at[j] < at[k]
}

/// `picked` is made of exactly the entries of `from` that `keep` accepts: each position
/// of such an entry is in `at`, no other position is, and the positions rise.
pub open spec fn picks_exactly<A>(
    picked: Seq<A>,
    from: Seq<A>,
    keep: spec_fn(A) -> bool,
    at: Seq<int>,
) -> bool {
    &&& picks_in_order(picked, from, at)
    &&& forall|k: int| 0 <= k < at.len() ==> keep(from[#[trigger] at[k]])
    &&& forall|i: int| 0 <= i < from.len() && keep(#[trigger] from[i]) ==> at.contains(i)
}

/// The positions in `from` of the entries that `keep` accepts, rising.
pub open spec fn kept_positions<A>(from: Seq<A>, keep: spec_fn(A) -> bool) -> Seq<int>
    decreases from.len(),
{
    if from.len() == 0 {
        Seq::empty()
    } else {
        let earlier = kept_positions(from.drop_last(), keep);
        if keep(from.last()) {
            earlier.push(from.len() - 1)
        } else {
            earlier
        }
    }
}

/// Filtering picks exactly the accepted entries, at `kept_positions`.
pub proof fn lemma_filter_picks_exactly<A>(from: Seq<A>, keep: spec_fn(A) -> bool)
    ensures
        picks_exactly(from.filter(keep), from, keep, kept_positions(from, keep)),
    decreases from.len(),
{
    reveal(Seq::filter);
    if from.len() > 0 {
        let shorter = from.drop_last();
        let earlier = kept_positions(shorter, keep);
        let at = kept_positions(from, keep);
        lemma_filter_picks_exactly(shorter, keep);
        assert forall|i: int| 0 <= i < from.len() && keep(#[trigger] from[i]) implies at.contains(
            i,
        ) by {
            if i < shorter.len() {
                assert(shorter[i] == from[i]);
                assert(earlier.contains(i));
                let k = choose|k: int| 0 <= k < earlier.len() && earlier[k] == i;
                assert(at[k] == i);
            } else {
                assert(at[at.len() - 1] == i);
            }
        }
    }
}

/// A case-sensitive search returns only lines of `contents` that contain `query` as
/// written, and returns them in the order in which they stand in `contents`.
pub proof fn law_case_sensitive_hits_in_order(query: Seq<char>, contents: Seq<char>)
    ensures
        forall|k: int|
            0 <= k < search_results(query, contents, true).len() ==> is_substring(
                query,
                #[trigger] search_results(query, contents, true)[k],
            ),
        exists|at: Seq<int>|
            picks_in_order(search_results(query, contents, true), lines_of(contents), at),
{
    let keep = hit_test(query, true);
    let from = lines_of(contents);
    lemma_filter_picks_exactly(from, keep);
    let at = kept_positions(from, keep);
    assert(picks_in_order(search_results(query, contents, true), from, at));
    assert forall|k: int| 0 <= k < search_results(query, contents, true).len() implies is_substring(
        query,
        #[trigger] search_results(query, contents, true)[k],
    ) by {
        assert(keep(from[at[k]]));
    }
}

/// A case-insensitive search returns exactly the lines of `contents` whose lower-case
/// form contains the lower-case form of `query`: each such line, no other, in the
/// order in which they stand in `contents`.
pub proof fn law_case_insensitive_exactly_the_hits(query: Seq<char>, contents: Seq<char>)
    ensures
        exists|at: Seq<int>|
            picks_exactly(
                search_results(query, contents, false),
                lines_of(contents),
                lowercase_hit_test(query),
                at,
            ),
{
    let keep = hit_test(query, false);
    let stated = lowercase_hit_test(query);
    let from = lines_of(contents);
    lemma_filter_picks_exactly(from, keep);
    let at = kept_positions(from, keep);
    assert(picks_exactly(search_results(query, contents, false), from, stated, at)) by {
        assert forall|k: int| 0 <= k < at.len() implies stated(from[#[trigger] at[k]]) by {
            assert(keep(from[at[k]]));
        }
        assert forall|i: int| 0 <= i < from.len() && stated(#[trigger] from[i]) implies at.contains(
            i,
        ) by {
            assert(keep(from[i]));
        }
    }
}

/// Whatever the case handling, a search returns exactly the hits among the lines of
/// `contents`, in the order in which they stand there.
pub proof fn law_results_are_exactly_the_hits(
    query: Seq<char>,
    contents: Seq<char>,
    case_sensitive: bool,
)
    ensures
        exists|at: Seq<int>|
            picks_exactly(
                search_results(query, contents, case_sensitive),
                lines_of(contents),
                hit_test(query, case_sensitive),
                at,
            ),
{
    let keep = hit_test(query, case_sensitive);
    lemma_filter_picks_exactly(lines_of(contents), keep);
    assert(picks_exactly(
        search_results(query, contents, case_sensitive),
        lines_of(contents),
        keep,
        kept_positions(lines_of(contents), keep),
    ));
}

/// Every line that a search returns is a piece of `contents`: the search makes up no
/// text of its own.
pub proof fn law_results_are_pieces_of_contents(
    query: Seq<char>,
    contents: Seq<char>,
    case_sensitive: bool,
)
    ensures
        forall|k: int|
            0 <= k < search_results(query, contents, case_sensitive).len() ==> is_substring(
                #[trigger] search_results(query, contents, case_sensitive)[k],
                contents,
            ),
{
    let keep = hit_test(query, case_sensitive);
    let from = lines_of(contents);
    lemma_filter_picks_exactly(from, keep);
    lemma_lines_are_pieces(contents);
    let at = kept_positions(from, keep);
    assert forall|k: int|
        0 <= k < search_results(query, contents, case_sensitive).len() implies is_substring(
        #[trigger] search_results(query, contents, case_sensitive)[k],
        contents,
    ) by {
        assert(search_results(query, contents, case_sensitive)[k] == from[at[k]]);
    }
}

/// The empty text occurs in every text.
pub proof fn lemma_empty_is_substring(haystack: Seq<char>)
    ensures
        is_substring(Seq::empty(), haystack),
{
    assert(haystack.subrange(0, 0) =~= Seq::<char>::empty());
    assert(crate::substring::occurs_at(Seq::empty(), haystack, 0));
}

/// Filtering by a test that every entry passes changes nothing.
proof fn lemma_filter_keeps_all<A>(from: Seq<A>, keep: spec_fn(A) -> bool)
    requires
        forall|i: int| 0 <= i < from.len() ==> keep(#[trigger] from[i]),
    ensures
        from.filter(keep) == from,
    decreases from.len(),
{
    reveal(Seq::filter);
    if from.len() > 0 {
        let shorter = from.drop_last();
        assert forall|i: int| 0 <= i < shorter.len() implies keep(#[trigger] shorter[i]) by {
            assert(shorter[i] == from[i]);
        }
        lemma_filter_keeps_all(shorter, keep);
        assert(shorter.push(from.last()) =~= from);
    }
}

/// A case-sensitive search for the empty query returns every line of `contents`,
/// unchanged.
pub proof fn law_empty_query_returns_every_line(contents: Seq<char>)
    ensures
        search_results(Seq::empty(), contents, true) == lines_of(contents),
{
    let keep = hit_test(Seq::empty(), true);
    let from = lines_of(contents);
    assert forall|i: int| 0 <= i < from.len() implies keep(#[trigger] from[i]) by {
        lemma_empty_is_substring(from[i]);
    }
    lemma_filter_keeps_all(from, keep);
}

/// A search in the empty text returns nothing, whatever the query and the case
/// handling.
pub proof fn law_empty_contents_no_results(query: Seq<char>, case_sensitive: bool)
    ensures
        search_results(query, Seq::empty(), case_sensitive) == Seq::<Seq<char>>::empty(),
{
    reveal(Seq::filter);
    assert(lines_of(Seq::empty()) =~= Seq::<Seq<char>>::empty());
}

/// Searching twice with the same arguments gives the same lines in the same order:
/// the result depends on nothing but the query, the text and the case handling.
pub proof fn law_same_arguments_same_results(
    query: Seq<char>,
    contents: Seq<char>,
    case_sensitive: bool,
    first: Seq<Seq<char>>,
    second: Seq<Seq<char>>,
)
    requires
        first == search_results(query, contents, case_sensitive),
        second == search_results(query, contents, case_sensitive),
    ensures
        first == second,
{
}

} // verus!
