use vstd::prelude::*;

use crate::task::owned;

verus! {

/// Most rows a search returns.
pub const MAX_RESULTS: usize = 1000;

/// Placeholders in the ranking expression; each is bound to the search term.
pub const RANK_PLACEHOLDERS: usize = 1;

/// How search results are ordered.
#[derive(Clone, Copy, Debug, PartialEq, Eq, Structural)]
pub enum SearchOrder {
    /// Newest first.
    Recency,
    /// Highest relevance first.
    Relevance,
}

/// One matching post.
#[derive(Clone, Debug)]
pub struct Post {
    pub did: String,
    pub created_at: String,
    pub text: String,
}

/// `created_at` selects recency; every other selector means relevance.
pub open spec fn spec_order_from_selector(s: Seq<char>) -> SearchOrder {
    if s == "created_at"@ {
        SearchOrder::Recency
    } else {
        SearchOrder::Relevance
    }
}

/// Connection setting that lets the ranking subquery yield more than one row.
pub open spec fn spec_setup_statement() -> Seq<char> {
    "SET scalar_subquery_error_on_multiple_rows = false"@
}

/// Ranked full-text query: distinct rows, relevance at least 3.0, ordered as asked, at most
/// 1000 rows.
pub open spec fn spec_search_query(order: SearchOrder) -> Seq<char> {
    match order {
        SearchOrder::Recency => "SELECT DISTINCT did, feedpost.createdAt AS created_at, text, score FROM (SELECT *, (SELECT fts_main_posts.match_bm25(cid, ?, fields := 'text', k := 1.2, b := 0.75)) AS score FROM posts) AS ranked WHERE score >= 3.0 ORDER BY created_at DESC LIMIT 1000"@,
        SearchOrder::Relevance => "SELECT DISTINCT did, feedpost.createdAt AS created_at, text, score FROM (SELECT *, (SELECT fts_main_posts.match_bm25(cid, ?, fields := 'text', k := 1.2, b := 0.75)) AS score FROM posts) AS ranked WHERE score >= 3.0 ORDER BY score DESC LIMIT 1000"@,
    }
}

/// Posts of the rows that decoded, in row order.
pub open spec fn decoded(rows: Seq<Option<Post>>) -> Seq<Post>
    decreases rows.len(),
{
    if rows.len() == 0 {
        seq![]
    } else {
        let before = decoded(rows.drop_last());
        match rows.last() {
            Some(p) => before.push(p),
            None => before,
        }
    }
}

/// The first `MAX_RESULTS` of a sequence of posts.
pub open spec fn capped(s: Seq<Post>) -> Seq<Post> {
    if s.len() <= MAX_RESULTS {
        s
    } else {
        s.take(MAX_RESULTS as int)
    }
}

impl SearchOrder {
    pub fn from_selector(selector: &str) -> (r: SearchOrder)
        ensures
            r == spec_order_from_selector(selector@),
    {
        if owned(selector) == owned("created_at") {
            SearchOrder::Recency
        } else {
            SearchOrder::Relevance
        }
    }
}

/// Statement to run on the connection before the search query.
pub fn setup_statement() -> (r: &'static str)
    ensures
        r@ == spec_setup_statement(),
{
    "SET scalar_subquery_error_on_multiple_rows = false"
}

/// The pre-written query text for an ordering; caller input never enters it.
pub fn search_query(order: SearchOrder) -> (r: &'static str)
    ensures
        r@ == spec_search_query(order),
{
    match order {
        SearchOrder::Recency => "SELECT DISTINCT did, feedpost.createdAt AS created_at, text, score FROM (SELECT *, (SELECT fts_main_posts.match_bm25(cid, ?, fields := 'text', k := 1.2, b := 0.75)) AS score FROM posts) AS ranked WHERE score >= 3.0 ORDER BY created_at DESC LIMIT 1000",
        SearchOrder::Relevance => "SELECT DISTINCT did, feedpost.createdAt AS created_at, text, score FROM (SELECT *, (SELECT fts_main_posts.match_bm25(cid, ?, fields := 'text', k := 1.2, b := 0.75)) AS score FROM posts) AS ranked WHERE score >= 3.0 ORDER BY score DESC LIMIT 1000",
    }
}

/// Values for the query's placeholders: the term, once per placeholder.
pub fn search_params(term: &str) -> (r: Vec<String>)
    ensures
        r@.len() == RANK_PLACEHOLDERS,
        forall|i: int| 0 <= i < r@.len() ==> #[trigger] r@[i]@ == term@,
{
    let mut params: Vec<String> = Vec::new();
    let mut i: usize = 0;
    while i < RANK_PLACEHOLDERS
        invariant
            i <= RANK_PLACEHOLDERS,
            params@.len() == i,
            forall|j: int| 0 <= j < i ==> #[trigger] params@[j]@ == term@,
        decreases RANK_PLACEHOLDERS - i,
    {
        params.push(owned(term));
        i = i + 1;
    }
    params
}

fn copy_post(p: &Post) -> (r: Post)
    ensures
        r == *p,
{
    Post { did: p.did.clone(), created_at: p.created_at.clone(), text: p.text.clone() }
}

/// Gathers the rows that decoded, in order, skipping the others, up to `MAX_RESULTS`.
pub fn collect_posts(rows: &Vec<Option<Post>>) -> (r: Vec<Post>)
    ensures
        r@ == capped(decoded(rows@)),
        r@.len() <= MAX_RESULTS,
        (forall|i: int| 0 <= i < rows@.len() ==> #[trigger] rows@[i] is None) ==> r@.len() == 0,
{
    let mut out: Vec<Post> = Vec::new();
    let mut i: usize = 0;
    while i < rows.len()
        invariant
            i <= rows@.len(),
            out@ == capped(decoded(rows@.take(i as int))),
        decreases rows@.len() - i,
    {
        let ghost before = decoded(rows@.take(i as int));
        assert(rows@.take(i as int + 1).drop_last() =~= rows@.take(i as int));
        assert(rows@.take(i as int + 1).last() == rows@[i as int]);
        match &rows[i] {
            Some(p) => {
                if out.len() < MAX_RESULTS {
                    out.push(copy_post(p));
                    assert(out@ =~= capped(before.push(*p)));
                } else {
                    assert(capped(before.push(*p)) =~= capped(before));
                }
            },
            None => {},
        }
        i = i + 1;
    }
    assert(rows@.take(rows@.len() as int) =~= rows@);
    proof { lemma_no_rows_decoded(rows@); }
    out
}

proof fn lemma_no_rows_decoded(rows: Seq<Option<Post>>)
    ensures
        (forall|i: int| 0 <= i < rows.len() ==> #[trigger] rows[i] is None) ==> decoded(rows).len()
            == 0,
    decreases rows.len(),
{
    if rows.len() > 0 {
        let rest = rows.drop_last();
        lemma_no_rows_decoded(rest);
        if forall|i: int| 0 <= i < rows.len() ==> #[trigger] rows[i] is None {
            assert forall|i: int| 0 <= i < rest.len() implies #[trigger] rest[i] is None by {
                assert(rest[i] == rows[i]);
            }
            assert(rows[rows.len() - 1] is None);
        }
    }
}

} // verus!
