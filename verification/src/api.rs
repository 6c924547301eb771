//! The result normalizer: the core of the pipeline.
//!
//! A raw search response arrives as an ordered sequence of hits whose fields
//! may be absent. `validate` checks the shape (every hit must carry a title),
//! `normalize_validated` turns the validated response into the user-facing
//! candidate list, and `normalize` composes the two. The upstream order is
//! trusted to be relevance-sorted and is preserved verbatim; the first
//! candidate, and only the first, is marked most relevant.

use vstd::prelude::*;

use crate::error::Error;
use crate::models::MovieData;

verus! {

/// One raw hit as it comes out of the upstream JSON: both fields may be
/// missing. A missing title is a shape error; a missing or empty release
/// date is normal and is normalized to the `"N/A"` sentinel.
#[derive(Debug)]
pub struct RawHit {
    pub title: Option<String>,
    pub release_date: Option<String>,
}

/// One validated movie entry: the title is known to be present.
#[derive(Debug)]
pub struct TmdbMovie {
    pub title: String,
    pub release_date: Option<String>,
}

/// A validated raw search response: the typed intermediate between the
/// search client and the normalizer.
#[derive(Debug)]
pub struct TmdbResponse {
    pub results: Vec<TmdbMovie>,
}

/// The sentinel shown in place of an absent or empty release date.
pub open spec fn sentinel_date() -> Seq<char> {
    "N/A"@
}

/// The message carried by the no-results condition.
pub open spec fn no_results_message() -> Seq<char> {
    "No results found"@
}

/// The message carried by the shape error for a hit without a title.
pub open spec fn missing_title_message() -> Seq<char> {
    "Hit is missing its title"@
}

/// The view of an optional string: the field as the specs speak of it.
pub open spec fn opt_view(s: Option<String>) -> Option<Seq<char>> {
    match s {
        Option::Some(t) => Option::Some(t@),
        Option::None => Option::None,
    }
}

/// The date-normalization policy: an absent or empty upstream value becomes
/// the sentinel, anything else is passed through verbatim.
pub open spec fn norm_date(d: Option<Seq<char>>) -> Seq<char> {
    match d {
        Option::Some(s) => if s.len() == 0 {
            sentinel_date()
        } else {
            s
        },
        Option::None => sentinel_date(),
    }
}

/// Whether a raw hit is well-shaped: its title field is present.
pub open spec fn hit_has_title(h: RawHit) -> bool {
    h.title is Some
}

/// Whether every hit of a raw batch is well-shaped.
pub open spec fn all_hits_titled(raw: Seq<RawHit>) -> bool {
    forall|i: int| 0 <= i < raw.len() ==> hit_has_title(#[trigger] raw[i])
}

/// Whether a validated movie entry is the faithful image of a raw hit.
pub open spec fn movie_matches_hit(m: TmdbMovie, h: RawHit) -> bool {
    &&& h.title is Some
    &&& m.title@ == h.title->0@
    &&& opt_view(m.release_date) == opt_view(h.release_date)
}

/// Whether a validated response is the faithful image of a raw batch:
/// same length, same order, every entry matching its hit.
pub open spec fn is_validated(ms: Seq<TmdbMovie>, raw: Seq<RawHit>) -> bool {
    &&& ms.len() == raw.len()
    &&& forall|i: int| 0 <= i < raw.len() ==> movie_matches_hit(#[trigger] ms[i], raw[i])
}

/// Whether a candidate presents a validated movie entry: title verbatim,
/// date normalized, relevance marker as given.
pub open spec fn candidate_of_movie(c: MovieData, m: TmdbMovie, at_front: bool) -> bool {
    &&& c.title@ == m.title@
    &&& c.release_date@ == norm_date(opt_view(m.release_date))
    &&& c.is_most_relevant == at_front
}

/// Whether a candidate list presents a validated response: same length and
/// order, and exactly the element at index 0 marked most relevant.
pub open spec fn is_presentation_of(cands: Seq<MovieData>, ms: Seq<TmdbMovie>) -> bool {
    &&& cands.len() == ms.len()
    &&& forall|i: int| 0 <= i < ms.len() ==> candidate_of_movie(#[trigger] cands[i], ms[i], i == 0)
}

/// Whether a candidate is the normalization of a raw hit: the hit carries a
/// title, the candidate repeats it verbatim, the date is normalized, and the
/// relevance marker is as given.
pub open spec fn candidate_matches_hit(c: MovieData, h: RawHit, at_front: bool) -> bool {
    &&& h.title is Some
    &&& c.title@ == h.title->0@
    &&& c.release_date@ == norm_date(opt_view(h.release_date))
    &&& c.is_most_relevant == at_front
}

/// The full contract of normalization: equal length, titles kept in the
/// upstream order, dates normalized, and the most-relevant marker on the
/// element at index 0 and nowhere else.
pub open spec fn is_normalization_of(cands: Seq<MovieData>, raw: Seq<RawHit>) -> bool {
    &&& cands.len() == raw.len()
    &&& forall|i: int| 0 <= i < raw.len() ==> candidate_matches_hit(#[trigger] cands[i], raw[i], i == 0)
}

/// Shape-check a raw batch: succeeds with the validated response exactly
/// when every hit carries a title, and fails fast with a shape error on the
/// first hit that does not.
pub fn validate(raw: Vec<RawHit>) -> (r: Result<TmdbResponse, Error>)
    ensures
        r is Ok <==> all_hits_titled(raw@),
        r matches Ok(res) ==> is_validated(res.results@, raw@),
        r matches Err(e) ==> e is Shape && e.spec_message() == missing_title_message(),
{
    let mut results: Vec<TmdbMovie> = Vec::new();
    let mut i: usize = 0;
    while i < raw.len()
        invariant
            i <= raw@.len(),
            results@.len() == i,
            forall|j: int| 0 <= j < i ==> movie_matches_hit(#[trigger] results@[j], raw@[j]),
        decreases raw@.len() - i,
    {
        let hit = &raw[i];
        match &hit.title {
            Option::Some(t) => {
                let date: Option<String> = match &hit.release_date {
                    Option::Some(d) => Option::Some(d.clone()),
                    Option::None => Option::None,
                };
                results.push(TmdbMovie { title: t.clone(), release_date: date });
            },
            Option::None => {
                return Err(Error::Shape("Hit is missing its title".to_owned()));
            },
        }
        i = i + 1;
    }
    proof {
        assert forall|k: int| 0 <= k < raw@.len() implies hit_has_title(#[trigger] raw@[k]) by {
            assert(movie_matches_hit(results@[k], raw@[k]));
        }
    }
    Ok(TmdbResponse { results })
}

/// Replace an absent or empty upstream release date by the sentinel; keep
/// any other value verbatim.
pub fn normalize_date(release_date: &Option<String>) -> (r: String)
    ensures
        r@ == norm_date(opt_view(*release_date)),
{
    match release_date {
        Option::Some(d) => {
            if d.as_str().is_empty() {
                "N/A".to_owned()
            } else {
                d.clone()
            }
        },
        Option::None => "N/A".to_owned(),
    }
}

/// Turn a validated response into the candidate list: fails with the
/// no-results condition exactly when the response holds zero entries;
/// otherwise every entry becomes a candidate, in order, with the element at
/// index 0 and no other marked most relevant.
pub fn normalize_validated(response: TmdbResponse) -> (r: Result<Vec<MovieData>, Error>)
    ensures
        r is Ok <==> response.results@.len() > 0,
        r matches Ok(c) ==> is_presentation_of(c@, response.results@),
        r matches Err(e) ==> e is ResultNotFound && e.spec_message() == no_results_message(),
{
    let mut movies: Vec<MovieData> = Vec::new();
    let mut i: usize = 0;
    while i < response.results.len()
        invariant
            i <= response.results@.len(),
            movies@.len() == i,
            forall|j: int| 0 <= j < i ==> candidate_of_movie(
                #[trigger] movies@[j],
                response.results@[j],
                false,
            ),
        decreases response.results@.len() - i,
    {
        let m = &response.results[i];
        let date = normalize_date(&m.release_date);
        movies.push(MovieData::new(m.title.clone(), date, false));
        i = i + 1;
    }

    if movies.len() == 0 {
        return Err(Error::ResultNotFound("No results found".to_owned()));
    }

    let front = movies.remove(0);
    let marked = MovieData::new(front.title, front.release_date, true);
    movies.insert(0, marked);

    proof {
        assert forall|j: int| 0 <= j < response.results@.len() implies candidate_of_movie(
            #[trigger] movies@[j],
            response.results@[j],
            j == 0,
        ) by {
        }
    }
    Ok(movies)
}

/// Normalize a raw search response end to end: shape errors and the
/// no-results condition are told apart exactly, and on success the output is
/// pinned down element by element by `is_normalization_of`.
pub fn normalize(raw: Vec<RawHit>) -> (r: Result<Vec<MovieData>, Error>)
    ensures
        r is Ok <==> raw@.len() > 0 && all_hits_titled(raw@),
        r matches Ok(c) ==> is_normalization_of(c@, raw@),
        r matches Err(e) ==> (e is ResultNotFound <==> raw@.len() == 0),
        r matches Err(e) ==> raw@.len() == 0 ==> e.spec_message() == no_results_message(),
        r matches Err(e) ==> raw@.len() > 0 ==> (e is Shape && !all_hits_titled(raw@)
            && e.spec_message() == missing_title_message()),
{
    let ghost raw_view = raw@;
    let response = match validate(raw) {
        Ok(res) => res,
        Err(e) => {
            return Err(e);
        },
    };
    let ghost ms = response.results@;
    match normalize_validated(response) {
        Ok(c) => {
            proof {
                assert forall|i: int| 0 <= i < raw_view.len() implies candidate_matches_hit(
                    #[trigger] c@[i],
                    raw_view[i],
                    i == 0,
                ) by {
                    assert(movie_matches_hit(ms[i], raw_view[i]));
                    assert(candidate_of_movie(c@[i], ms[i], i == 0));
                }
            }
            Ok(c)
        },
        Err(e) => Err(e),
    }
}

/// Law: the date-normalization policy, stated on its own. An absent or
/// empty upstream release date becomes the sentinel; any other value is
/// kept verbatim.
pub proof fn lemma_date_policy(d: Option<Seq<char>>)
    ensures
        d is None ==> norm_date(d) == sentinel_date(),
        d matches Some(s) ==> s.len() == 0 ==> norm_date(d) == sentinel_date(),
        d matches Some(s) ==> s.len() > 0 ==> norm_date(d) == s,
{
}

/// The data-model invariant of a finished candidate list: it is non-empty,
/// exactly its element at index 0 is marked most relevant, and no release
/// date is left empty.
pub open spec fn candidate_list_wf(cands: Seq<MovieData>) -> bool {
    &&& cands.len() > 0
    &&& forall|i: int| 0 <= i < cands.len() ==> (#[trigger] cands[i].is_most_relevant <==> i == 0)
    &&& forall|i: int| 0 <= i < cands.len() ==> (#[trigger] cands[i].release_date)@.len() > 0
}

/// Law: normalizing a non-empty raw batch yields a well-formed candidate
/// list — non-empty, the most-relevant marker at index 0 and nowhere else,
/// and every release date either the upstream value or the sentinel, never
/// the empty string.
pub proof fn lemma_normalization_wf(raw: Seq<RawHit>, cands: Seq<MovieData>)
    requires
        raw.len() > 0,
        is_normalization_of(cands, raw),
    ensures
        candidate_list_wf(cands),
{
    reveal_strlit("N/A");
    assert forall|i: int| 0 <= i < cands.len() implies (#[trigger] cands[i].release_date)@.len()
        > 0 by {
        assert(candidate_matches_hit(cands[i], raw[i], i == 0));
        assert(sentinel_date().len() == 3);
    }
    assert forall|i: int| 0 <= i < cands.len() implies (#[trigger] cands[i].is_most_relevant <==> i
        == 0) by {
        assert(candidate_matches_hit(cands[i], raw[i], i == 0));
    }
}

/// Law: normalization is deterministic. Two candidate lists that both
/// normalize the same raw batch agree element by element, so calling the
/// normalizer twice on the same input yields structurally equal output.
pub proof fn lemma_normalize_deterministic(
    raw: Seq<RawHit>,
    c1: Seq<MovieData>,
    c2: Seq<MovieData>,
)
    requires
        is_normalization_of(c1, raw),
        is_normalization_of(c2, raw),
    ensures
        c1.len() == c2.len(),
        forall|i: int|
            0 <= i < c1.len() ==> (#[trigger] c1[i]).title@ == c2[i].title@
                && c1[i].release_date@ == c2[i].release_date@ && c1[i].is_most_relevant
                == c2[i].is_most_relevant,
{
    assert forall|i: int|
        0 <= i < c1.len() implies (#[trigger] c1[i]).title@ == c2[i].title@
        && c1[i].release_date@ == c2[i].release_date@ && c1[i].is_most_relevant
        == c2[i].is_most_relevant by {
        assert(candidate_matches_hit(c1[i], raw[i], i == 0));
        assert(candidate_matches_hit(c2[i], raw[i], i == 0));
    }
}

} // verus!
