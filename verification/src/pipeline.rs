//! The indexing pipeline: what is sent to the vector store to index a text
//! and to find the stored texts nearest to a query.

use vstd::prelude::*;
use qdrant_client::qdrant::Filter;
use crate::embedding::{embed, embedded, Embedding};
use crate::error::PipelineError;
use crate::point::{
    fresh_point_id, is_point_id, is_utc_stamp, payload_for, payload_view, point_views,
    utc_now_text, DocumentPoint, Payload, PointView, DATETIME_FIELD, TIMESTAMP_PATTERN,
};

verus! {

/// The store's filter expression, qdrant's `Filter`: a predicate over payload
/// fields, which the pipeline hands on unread.
#[verifier::external_type_specification]
#[verifier::external_body]
pub struct ExFilter(Filter);

/// A request to write, as plain values.
pub struct UpsertView {
    pub collection: Seq<char>,
    pub points: Seq<PointView>,
}

/// A request to the store to write points into a collection.
#[derive(Clone, Debug, PartialEq, Eq)]
pub struct UpsertRequest {
    pub collection: String,
    pub points: Vec<DocumentPoint>,
}

impl View for UpsertRequest {
    type V = UpsertView;

    open spec fn view(&self) -> UpsertView {
        UpsertView { collection: self.collection@, points: point_views(self.points@) }
    }
}

/// A request to search, as plain values.
pub struct SearchView {
    pub collection: Seq<char>,
    pub vector: Seq<u32>,
    pub limit: u64,
    pub filter: Option<Filter>,
    pub with_payload: bool,
    pub with_vectors: bool,
}

/// A request to the store for the points of a collection that are nearest to
/// a vector, nearest first.
#[derive(Clone, Debug, PartialEq)]
pub struct SearchRequest {
    pub collection: String,
    pub vector: Embedding,
    /// The largest number of results wanted.
    pub limit: u64,
    /// Restricts the search to the points that satisfy it.
    pub filter: Option<Filter>,
    /// Whether each result is to carry the point's payload.
    pub with_payload: bool,
    /// Whether each result is to carry the point's vector.
    pub with_vectors: bool,
}

impl View for SearchRequest {
    type V = SearchView;

    open spec fn view(&self) -> SearchView {
        SearchView {
            collection: self.collection@,
            vector: self.vector@,
            limit: self.limit,
            filter: self.filter,
            with_payload: self.with_payload,
            with_vectors: self.with_vectors,
        }
    }
}

/// One result of a search.
#[derive(Clone, Debug, PartialEq, Eq)]
pub struct ScoredResult {
    pub id: String,
    /// The similarity to the query, as the 32 bits of an IEEE 754
    /// single-precision number. Higher is more similar.
    pub score_bits: u32,
    pub payload: Payload,
    /// The point's vector, where the store sent it.
    pub vector: Option<Embedding>,
}

/// A result as plain values.
pub struct HitView {
    pub id: Seq<char>,
    pub score_bits: u32,
    pub payload: Map<Seq<char>, Seq<char>>,
    pub vector: Option<Seq<u32>>,
}

impl View for ScoredResult {
    type V = HitView;

    open spec fn view(&self) -> HitView {
        HitView {
            id: self.id@,
            score_bits: self.score_bits,
            payload: self.payload@,
            vector: match self.vector {
                Some(vector) => Some(vector@),
                None => None,
            },
        }
    }
}

/// The results of a sequence, as plain values.
pub open spec fn hit_views(results: Seq<ScoredResult>) -> Seq<HitView> {
    results.map_values(|result: ScoredResult| result@)
}

/// Where a score stands among all scores: of two scores, the higher has the
/// higher rank, and zero and minus zero have the same. This is the order of
/// IEEE 754 numbers read off their bits: the numbers without the sign bit
/// rise with their bits, the numbers with it fall. A score that is no number
/// has no meaningful rank.
pub open spec fn score_rank(score_bits: u32) -> int {
    if score_bits < 0x8000_0000 {
        score_bits as int
    } else {
        0x8000_0000 - score_bits
    }
}

/// Whether results stand in the order in which a search gives them: most
/// similar first.
pub open spec fn ranked(hits: Seq<HitView>) -> bool {
    forall|i: int, j: int|
        0 <= i < j < hits.len() ==> score_rank(#[trigger] hits[i].score_bits) >= score_rank(
            #[trigger] hits[j].score_bits,
        )
}

/// Computes [`score_rank`].
fn rank_of(score_bits: u32) -> (rank: i64)
    ensures
        rank == score_rank(score_bits),
{
    if score_bits < 0x8000_0000 {
        score_bits as i64
    } else {
        0x8000_0000i64 - score_bits as i64
    }
}

/// Tests whether results stand most similar first, as the store promises to
/// send them.
pub fn is_ranked(results: &Vec<ScoredResult>) -> (yes: bool)
    ensures
        yes == ranked(hit_views(results@)),
{
    let ghost hits = hit_views(results@);
    if results.len() < 2 {
        return true;
    }
    let mut k: usize = 1;
    while k < results.len()
        invariant
            1 <= k <= results@.len(),
            hits == hit_views(results@),
            forall|i: int, j: int|
                0 <= i < j < k ==> score_rank(#[trigger] hits[i].score_bits) >= score_rank(
                    #[trigger] hits[j].score_bits,
                ),
        decreases results@.len() - k,
    {
        assert(hits[k - 1].score_bits == results@[k - 1].score_bits);
        assert(hits[k as int].score_bits == results@[k as int].score_bits);
        if rank_of(results[k - 1].score_bits) < rank_of(results[k].score_bits) {
            return false;
        }
        k += 1;
    }
    true
}

/// The request that writes one text.
pub open spec fn upsert_view(
    collection: Seq<char>,
    text: Seq<char>,
    vector: Seq<u32>,
    id: Seq<char>,
    datetime: Seq<char>,
) -> UpsertView {
    UpsertView {
        collection,
        points: seq![PointView { id, vector, payload: payload_view(text, datetime) }],
    }
}

/// The request that searches for a vector: payload and vector are asked for
/// with every result.
pub open spec fn search_view(
    collection: Seq<char>,
    vector: Seq<u32>,
    limit: u64,
    filter: Option<Filter>,
) -> SearchView {
    SearchView { collection, vector, limit, filter, with_payload: true, with_vectors: true }
}

/// Builds the request that writes one text under a given identifier and
/// time of insertion. The request holds exactly one point, and the
/// embedding goes into it as it came, neither cut nor padded.
pub fn upsert_point(
    collection_name: &str,
    text: &String,
    embedding: Embedding,
    id: String,
    datetime: String,
) -> (request: UpsertRequest)
    ensures
        request.points@.len() == 1,
        request@ == upsert_view(collection_name@, text@, embedding@, id@, datetime@),
{
    let point = DocumentPoint { id, vector: embedding, payload: payload_for(text.as_str(), datetime) };
    let mut points: Vec<DocumentPoint> = Vec::new();
    points.push(point);
    let request = UpsertRequest { collection: collection_name.to_owned(), points };
    assert(request@.points =~= upsert_view(
        collection_name@,
        text@,
        embedding@,
        id@,
        datetime@,
    ).points);
    request
}

/// Builds the request that writes one text, from the engine's answer to that
/// text. Where the engine failed, so does the upsert, and nothing is to be
/// sent. Else the request holds one point: its vector is the text's
/// embedding, its identifier is fresh and random, whatever the text (writing
/// the same text twice asks for two points), and its payload holds the text
/// and the time of this call.
pub fn upsert(
    collection_name: &str,
    text: &String,
    encoded: Result<Vec<Embedding>, String>,
) -> (outcome: Result<UpsertRequest, PipelineError>)
    ensures
        match embedded(encoded) {
            Ok(embedding) => {
                &&& outcome matches Ok(request)
                &&& request.points@.len() == 1
                &&& is_point_id(request.points@[0].id@)
                &&& is_utc_stamp(request.points@[0].payload@[DATETIME_FIELD@])
                &&& request@ == upsert_view(
                    collection_name@,
                    text@,
                    embedding@,
                    request.points@[0].id@,
                    request.points@[0].payload@[DATETIME_FIELD@],
                )
            },
            Err(error) => outcome is Err && outcome->Err_0@ == error,
        },
{
    match embed(encoded) {
        Ok(embedding) => {
            let datetime = utc_now_text(TIMESTAMP_PATTERN);
            let id = fresh_point_id();
            let request = upsert_point(collection_name, text, embedding, id, datetime);
            assert(request@.points[0] == request.points@[0]@);
            Ok(request)
        },
        Err(error) => Err(error),
    }
}

/// Builds the request that finds the points nearest to a query, from the
/// engine's answer to the query's text. Where the engine failed, so does the
/// search. Else the request carries the query's embedding, the limit and the
/// filter as they came, and asks for payload and vector with every result.
pub fn search(
    collection_name: &str,
    encoded: Result<Vec<Embedding>, String>,
    count_limit: u64,
    filter: Option<Filter>,
) -> (outcome: Result<SearchRequest, PipelineError>)
    ensures
        match embedded(encoded) {
            Ok(embedding) => outcome matches Ok(request) && request@ == search_view(
                collection_name@,
                embedding@,
                count_limit,
                filter,
            ),
            Err(error) => outcome is Err && outcome->Err_0@ == error,
        },
{
    match embed(encoded) {
        Ok(embedding) => Ok(
            SearchRequest {
                collection: collection_name.to_owned(),
                vector: embedding,
                limit: count_limit,
                filter,
                with_payload: true,
                with_vectors: true,
            },
        ),
        Err(error) => Err(error),
    }
}

} // verus!
