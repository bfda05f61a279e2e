//! From a query to what its candidates call for: nothing found, one record,
//! one title to fetch, or a choice among several titles.

use vstd::prelude::*;
use vstd::string::*;
use crate::record::{records_view, titles_of, CardRecord, CardRecordView};
use crate::store::{
    find_by_prefix, find_exact, find_exact_is_first, first_match_is_first_row, is_first_titled,
    matching_is_ordered_selection,
};
use crate::text::{chars_of, is_prefix};

verus! {

/// How many candidates a prefix query asks for at most.
pub const CANDIDATE_LIMIT: usize = 10;

/// The character that stands for any run of characters in a prefix pattern.
pub const ANY_RUN: char = '%';

/// The character that stands for any one character in a prefix pattern.
pub const ANY_ONE: char = '_';

/// The character that makes the next character of a pattern stand for itself.
pub const ESCAPE: char = '\\';

/// Whether `c` has a meaning of its own in a pattern.
pub open spec fn is_pattern_char(c: char) -> bool {
    c == ANY_RUN || c == ANY_ONE || c == ESCAPE
}

/// `query` with every character that has a meaning in a pattern escaped, so
/// that each character of the query stands for itself.
pub open spec fn escaped(query: Seq<char>) -> Seq<char>
    decreases query.len(),
{
    if query.len() == 0 {
        Seq::empty()
    } else if is_pattern_char(query[0]) {
        seq![ESCAPE, query[0]] + escaped(query.drop_first())
    } else {
        seq![query[0]] + escaped(query.drop_first())
    }
}

/// The pattern that selects the titles beginning with `query`: the query,
/// escaped, followed by the any-run character.
pub open spec fn prefix_pattern_of(query: Seq<char>) -> Seq<char> {
    escaped(query).push(ANY_RUN)
}

/// Whether `text` matches `pattern`, character for character: the any-run
/// character matches any run of characters, also the empty one; the any-one
/// character matches any one character; the escape character makes the
/// character behind it match itself alone; every other character matches
/// itself alone.
pub open spec fn like(pattern: Seq<char>, text: Seq<char>) -> bool
    decreases pattern.len(), text.len(),
{
    if pattern.len() == 0 {
        text.len() == 0
    } else if pattern[0] == ESCAPE {
        pattern.len() >= 2 && text.len() > 0 && text[0] == pattern[1] && like(
            pattern.skip(2),
            text.drop_first(),
        )
    } else if pattern[0] == ANY_RUN {
        like(pattern.drop_first(), text) || (text.len() > 0 && like(pattern, text.drop_first()))
    } else if pattern[0] == ANY_ONE {
        text.len() > 0 && like(pattern.drop_first(), text.drop_first())
    } else {
        text.len() > 0 && text[0] == pattern[0] && like(pattern.drop_first(), text.drop_first())
    }
}

/// The any-run character alone matches every text.
proof fn any_run_matches_all(text: Seq<char>)
    ensures
        like(seq![ANY_RUN], text),
    decreases text.len(),
{
    let pattern = seq![ANY_RUN];
    if text.len() == 0 {
        assert(like(pattern.drop_first(), text));
    } else {
        any_run_matches_all(text.drop_first());
    }
}

/// The pattern built for a query selects the titles that begin with the
/// query, and no others, whatever characters the query holds.
pub proof fn prefix_pattern_selects_prefixes(query: Seq<char>, title: Seq<char>)
    ensures
        like(prefix_pattern_of(query), title) <==> is_prefix(query, title),
    decreases query.len(),
{
    let pattern = prefix_pattern_of(query);
    if query.len() == 0 {
        any_run_matches_all(title);
        assert(title.subrange(0, 0) =~= query);
    } else {
        let rest = query.drop_first();
        let tail = title.drop_first();
        prefix_pattern_selects_prefixes(rest, tail);
        if is_pattern_char(query[0]) {
            assert(pattern.skip(2) =~= prefix_pattern_of(rest));
        } else {
            assert(pattern.drop_first() =~= prefix_pattern_of(rest));
        }
        if title.len() > 0 && title[0] == query[0] {
            if is_prefix(rest, tail) {
                assert forall|k: int| 0 <= k < query.len() implies title[k] == query[k] by {
                    if k > 0 {
                        assert(tail.subrange(0, rest.len() as int)[k - 1] == rest[k - 1]);
                    }
                }
                assert(title.subrange(0, query.len() as int) =~= query);
            }
            if is_prefix(query, title) {
                assert(tail.subrange(0, rest.len() as int) =~= rest);
            }
        }
    }
}

/// Builds the pattern that selects the titles beginning with `query`.
pub fn prefix_pattern(query: &str) -> (pattern: String)
    ensures
        pattern@ == prefix_pattern_of(query@),
{
    let chars = chars_of(query);
    let mut pattern = String::new();
    let mut i: usize = 0;
    proof {
        reveal_strlit("\\");
        reveal_strlit("%");
        assert(query@.skip(0) =~= query@);
    }
    while i < chars.len()
        invariant
            i <= chars.len(),
            chars@ == query@,
            "\\"@ == seq![ESCAPE],
            pattern@ + escaped(query@.skip(i as int)) == escaped(query@),
        decreases chars.len() - i,
    {
        let c = chars[i];
        proof {
            assert(query@.skip(i as int).drop_first() =~= query@.skip(i as int + 1));
        }
        if c == ANY_RUN || c == ANY_ONE || c == ESCAPE {
            pattern.append("\\");
        }
        pattern.append(query.substring_char(i, i + 1));
        i += 1;
    }
    pattern.append("%");
    pattern
}

/// The character sequences of a list of strings, in the same order.
pub open spec fn strings_view(strings: Seq<String>) -> Seq<Seq<char>> {
    Seq::new(strings.len(), |i: int| strings[i]@)
}

/// A copy of a list of strings.
pub fn copy_strings(strings: &Vec<String>) -> (copy: Vec<String>)
    ensures
        copy@ == strings@,
{
    let mut copy: Vec<String> = Vec::new();
    let mut i: usize = 0;
    while i < strings.len()
        invariant
            i <= strings.len(),
            copy@ == strings@.take(i as int),
        decreases strings.len() - i,
    {
        copy.push(strings[i].clone());
        i += 1;
    }
    copy
}

/// `titles` without repetitions, each title at the place of its first
/// occurrence.
pub open spec fn distinct(titles: Seq<Seq<char>>) -> Seq<Seq<char>>
    decreases titles.len(),
{
    if titles.len() == 0 {
        Seq::empty()
    } else if distinct(titles.drop_last()).contains(titles.last()) {
        distinct(titles.drop_last())
    } else {
        distinct(titles.drop_last()).push(titles.last())
    }
}

/// The distinct titles hold no title twice, hold exactly the titles given,
/// and begin with the first title given.
pub proof fn distinct_is_duplicate_free(titles: Seq<Seq<char>>)
    ensures
        distinct(titles).no_duplicates(),
        forall|t: Seq<char>| distinct(titles).contains(t) <==> titles.contains(t),
        distinct(titles).len() <= titles.len(),
        titles.len() > 0 ==> distinct(titles).len() > 0 && distinct(titles)[0] == titles[0],
    decreases titles.len(),
{
    if titles.len() > 0 {
        let init = titles.drop_last();
        let d = distinct(titles);
        let di = distinct(init);
        distinct_is_duplicate_free(init);
        assert forall|t: Seq<char>| d.contains(t) <==> titles.contains(t) by {
            if d.contains(t) && t != titles.last() {
                let k = choose|k: int| 0 <= k < d.len() && d[k] == t;
                assert(di[k] == t);
                assert(init.contains(t));
                let w = choose|w: int| 0 <= w < init.len() && init[w] == t;
                assert(titles[w] == t);
            }
            if titles.contains(t) && t != titles.last() {
                let w = choose|w: int| 0 <= w < titles.len() && titles[w] == t;
                assert(init[w] == t);
                assert(init.contains(t));
                let k = choose|k: int| 0 <= k < di.len() && di[k] == t;
                assert(d[k] == t);
            }
            if t == titles.last() {
                assert(titles[titles.len() - 1] == t);
                if di.contains(t) {
                    let k = choose|k: int| 0 <= k < di.len() && di[k] == t;
                    assert(d[k] == t);
                } else {
                    assert(d[d.len() - 1] == t);
                }
            }
        }
    }
}

/// What a set of candidates calls for.
#[derive(Clone, Debug, PartialEq, Eq)]
pub enum Resolution {
    /// No candidate: nothing is titled so.
    Missing,
    /// One candidate: it is the record.
    Unique(CardRecord),
    /// Several candidates that share one title: the record is the first row
    /// with that title.
    SameTitle(String),
    /// Candidates with several titles: the user chooses among them.
    Ambiguous(Vec<String>),
}

/// What a [`Resolution`] holds, as character sequences.
pub enum ResolutionView {
    Missing,
    Unique(CardRecordView),
    SameTitle(Seq<char>),
    Ambiguous(Seq<Seq<char>>),
}

impl View for Resolution {
    type V = ResolutionView;

    open spec fn view(&self) -> ResolutionView {
        match self {
            Resolution::Missing => ResolutionView::Missing,
            Resolution::Unique(record) => ResolutionView::Unique(record@),
            Resolution::SameTitle(title) => ResolutionView::SameTitle(title@),
            Resolution::Ambiguous(options) => ResolutionView::Ambiguous(strings_view(options@)),
        }
    }
}

/// What `candidates` call for: by their number, then by the number of
/// distinct titles among them.
pub open spec fn classify_candidates(candidates: Seq<CardRecordView>) -> ResolutionView {
    if candidates.len() == 0 {
        ResolutionView::Missing
    } else if candidates.len() == 1 {
        ResolutionView::Unique(candidates[0])
    } else if distinct(titles_of(candidates)).len() == 1 {
        ResolutionView::SameTitle(candidates[0].title)
    } else {
        ResolutionView::Ambiguous(distinct(titles_of(candidates)))
    }
}

/// Whether `list` holds a string with the characters of `text`.
pub fn contains_text(list: &Vec<String>, text: &String) -> (r: bool)
    ensures
        r == strings_view(list@).contains(text@),
{
    let mut i: usize = 0;
    while i < list.len()
        invariant
            i <= list.len(),
            forall|k: int| 0 <= k < i ==> strings_view(list@)[k] != text@,
        decreases list.len() - i,
    {
        if list[i] == *text {
            assert(strings_view(list@)[i as int] == text@);
            return true;
        }
        i += 1;
    }
    false
}

/// The distinct titles among `candidates`, each at the place of its first
/// occurrence.
pub fn distinct_titles(candidates: &Vec<CardRecord>) -> (titles: Vec<String>)
    ensures
        strings_view(titles@) == distinct(titles_of(records_view(candidates@))),
{
    let mut titles: Vec<String> = Vec::new();
    let mut i: usize = 0;
    let ghost all = titles_of(records_view(candidates@));
    while i < candidates.len()
        invariant
            i <= candidates.len(),
            all == titles_of(records_view(candidates@)),
            strings_view(titles@) == distinct(all.take(i as int)),
        decreases candidates.len() - i,
    {
        proof {
            assert(all.take(i as int + 1).drop_last() =~= all.take(i as int));
        }
        if !contains_text(&titles, &candidates[i].title) {
            titles.push(candidates[i].title.clone());
        }
        i += 1;
    }
    assert(all.take(i as int) =~= all);
    titles
}

/// Says what `candidates` call for.
pub fn classify(candidates: Vec<CardRecord>) -> (resolution: Resolution)
    ensures
        resolution@ == classify_candidates(records_view(candidates@)),
{
    let mut candidates = candidates;
    let ghost given = records_view(candidates@);
    if candidates.len() == 0 {
        Resolution::Missing
    } else if candidates.len() == 1 {
        let record = candidates.remove(0);
        Resolution::Unique(record)
    } else {
        let mut titles = distinct_titles(&candidates);
        proof {
            distinct_is_duplicate_free(titles_of(given));
        }
        if titles.len() == 1 {
            let title = titles.remove(0);
            Resolution::SameTitle(title)
        } else {
            Resolution::Ambiguous(titles)
        }
    }
}

/// A query that no stored title begins with has no candidates, and only
/// such a query: the candidates call for [`ResolutionView::Missing`] exactly
/// when no row of the store matches.
pub proof fn missing_iff_no_title_matches(store: Seq<CardRecordView>, query: Seq<char>)
    ensures
        classify_candidates(find_by_prefix(store, query, CANDIDATE_LIMIT as nat))
            is Missing <==> forall|i: int|
            0 <= i < store.len() ==> !is_prefix(query, #[trigger] store[i].title),
{
    matching_is_ordered_selection(store, query);
}

/// When every stored title that begins with the query is the same title,
/// whatever the number of rows that carry it, the candidates call for the
/// first row with that title: either they are that row alone, or they name
/// the title, and the exact query for it returns their first row.
pub proof fn one_title_resolves_to_its_first_row(
    store: Seq<CardRecordView>,
    query: Seq<char>,
    title: Seq<char>,
)
    requires
        exists|i: int| 0 <= i < store.len() && is_prefix(query, #[trigger] store[i].title),
        forall|i: int|
            0 <= i < store.len() && is_prefix(query, #[trigger] store[i].title) ==> store[i].title
                == title,
    ensures
        ({
            let candidates = find_by_prefix(store, query, CANDIDATE_LIMIT as nat);
            &&& candidates.len() > 0
            &&& find_exact(store, title) == Some(candidates[0])
            &&& exists|i: int| is_first_titled(store, title, i) && store[i] == candidates[0]
            &&& classify_candidates(candidates) == ResolutionView::Unique(candidates[0])
                || classify_candidates(candidates) == ResolutionView::SameTitle(title)
        }),
{
    let candidates = find_by_prefix(store, query, CANDIDATE_LIMIT as nat);
    matching_is_ordered_selection(store, query);
    first_match_is_first_row(store, query);
    find_exact_is_first(store, title);
    let titles = titles_of(candidates);
    distinct_is_duplicate_free(titles);
    let options = distinct(titles);
    assert forall|k: int| 0 <= k < options.len() implies options[k] == title by {
        assert(titles.contains(options[k]));
    }
    if options.len() >= 2 {
        assert(options[0] == options[1]);
    }
}

/// When the candidates carry two or more distinct titles, they call for a
/// choice with one option for each distinct title and no option twice; and
/// for each option the exact query returns the first row of the store with
/// that title.
pub proof fn several_titles_are_each_offered_once(store: Seq<CardRecordView>, query: Seq<char>)
    requires
        distinct(titles_of(find_by_prefix(store, query, CANDIDATE_LIMIT as nat))).len() >= 2,
    ensures
        ({
            let candidates = find_by_prefix(store, query, CANDIDATE_LIMIT as nat);
            let options = distinct(titles_of(candidates));
            &&& classify_candidates(candidates) == ResolutionView::Ambiguous(options)
            &&& options.no_duplicates()
            &&& forall|t: Seq<char>| options.contains(t) <==> titles_of(candidates).contains(t)
            &&& forall|t: Seq<char>| #[trigger]
                options.contains(t) ==> exists|i: int|
                    is_first_titled(store, t, i) && find_exact(store, t) == Some(store[i])
        }),
{
    let candidates = find_by_prefix(store, query, CANDIDATE_LIMIT as nat);
    let titles = titles_of(candidates);
    let options = distinct(titles);
    distinct_is_duplicate_free(titles);
    matching_is_ordered_selection(store, query);
    assert forall|t: Seq<char>| #[trigger] options.contains(t) implies exists|i: int|
        is_first_titled(store, t, i) && find_exact(store, t) == Some(store[i]) by {
        assert(titles.contains(t));
        find_exact_is_first(store, t);
    }
}

} // verus!
