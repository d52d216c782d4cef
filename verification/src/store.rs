//! What the pipeline expects of the vector store, and what follows from it.
//!
//! The store is a service outside this crate. This module writes down, as a
//! model in plain values, the behaviour that the pipeline relies on: what a
//! command does to the store's collections, which points a write is accepted
//! with, and which answers a search may give. The laws below are proved of
//! the requests that this crate builds, for every store that behaves so.

use vstd::prelude::*;
use qdrant_client::qdrant::Filter;
use crate::collection::{drop_plan, ensure_plan, CommandView, ConfigView, Metric};
use crate::error::{agrees, settled, Operation, PipelineError};
use crate::pipeline::{
    hit_views, ranked, search_view, upsert_view, HitView, ScoredResult, SearchView, UpsertView,
};
use crate::point::PointView;

verus! {

/// A collection in the store: its configuration, and its points by their
/// identifiers.
pub struct CollectionState {
    pub config: ConfigView,
    pub points: Map<Seq<char>, PointView>,
}

/// The store: its collections by their names.
pub struct StoreState {
    pub collections: Map<Seq<char>, CollectionState>,
}

/// The collection that a creation leaves: configured, and empty.
pub open spec fn fresh_collection(config: ConfigView) -> CollectionState {
    CollectionState { config, points: Map::empty() }
}

/// The points of a collection after some more were written: each stands
/// under its identifier, in place of what the identifier held before.
pub open spec fn with_points(
    points: Map<Seq<char>, PointView>,
    written: Seq<PointView>,
) -> Map<Seq<char>, PointView>
    decreases written.len(),
{
    if written.len() == 0 {
        points
    } else {
        with_points(points, written.drop_last()).insert(written.last().id, written.last())
    }
}

impl StoreState {
    /// The store after a command. Deleting a collection that does not exist
    /// changes nothing, and neither does creating one that exists.
    pub open spec fn run(self, command: CommandView) -> StoreState {
        match command {
            CommandView::DeleteCollection { name } => StoreState {
                collections: self.collections.remove(name),
            },
            CommandView::CreateCollection { config } => if self.collections.contains_key(
                config.name,
            ) {
                self
            } else {
                StoreState {
                    collections: self.collections.insert(config.name, fresh_collection(config)),
                }
            },
        }
    }

    /// The store after a plan's commands, in their order.
    pub open spec fn run_all(self, commands: Seq<CommandView>) -> StoreState
        decreases commands.len(),
    {
        if commands.len() == 0 {
            self
        } else {
            self.run_all(commands.drop_last()).run(commands.last())
        }
    }

    /// Whether the store accepts a write: the collection exists, and every
    /// point has as many components as the collection's dimension.
    pub open spec fn accepts(self, request: UpsertView) -> bool {
        &&& self.collections.contains_key(request.collection)
        &&& forall|i: int|
            0 <= i < request.points.len() ==> (#[trigger] request.points[i]).vector.len()
                == self.collections[request.collection].config.dimension
    }

    /// The store after a write. A write that is not accepted changes nothing.
    pub open spec fn write(self, request: UpsertView) -> StoreState {
        if self.accepts(request) {
            let collection = self.collections[request.collection];
            StoreState {
                collections: self.collections.insert(
                    request.collection,
                    CollectionState {
                        config: collection.config,
                        points: with_points(collection.points, request.points),
                    },
                ),
            }
        } else {
            self
        }
    }

    /// Whether results may be the store's answer to a search: no more than
    /// were asked for, each a point of the collection with its payload (and
    /// its vector, where one came), no point twice, most similar first.
    pub open spec fn answers(self, request: SearchView, hits: Seq<HitView>) -> bool {
        &&& self.collections.contains_key(request.collection)
        &&& hits.len() <= request.limit
        &&& forall|i: int|
            0 <= i < hits.len() ==> {
                let hit = #[trigger] hits[i];
                let points = self.collections[request.collection].points;
                &&& points.contains_key(hit.id)
                &&& hit.payload == points[hit.id].payload
                &&& hit.vector matches Some(vector) ==> vector == points[hit.id].vector
            }
        &&& forall|i: int, j: int|
            0 <= i < j < hits.len() ==> (#[trigger] hits[i]).id != (#[trigger] hits[j]).id
        &&& ranked(hits)
    }

    /// Whether every point of every collection has as many components as
    /// its collection's dimension.
    pub open spec fn dimensions_hold(self) -> bool {
        forall|name: Seq<char>, id: Seq<char>|
            #![trigger self.collections[name].points[id]]
            self.collections.contains_key(name) && self.collections[name].points.contains_key(id)
                ==> self.collections[name].points[id].vector.len()
                == self.collections[name].config.dimension
    }
}

/// Establishing a collection leaves it with the dimension and metric asked
/// for and without any point, whatever bore its name before, and leaves
/// every other collection as it was.
pub proof fn ensure_collection_establishes(
    store: StoreState,
    name: Seq<char>,
    dimension: u64,
    metric: Metric,
)
    ensures
        store.run_all(ensure_plan(name, dimension, metric)).collections == store.collections.insert(
            name,
            fresh_collection(ConfigView { name, dimension, metric }),
        ),
{
    let plan = ensure_plan(name, dimension, metric);
    let config = ConfigView { name, dimension, metric };
    let first = plan.drop_last();
    assert(first.drop_last().len() == 0);
    assert(store.run_all(first.drop_last()) == store);
    assert(first.last() == drop_plan(name));
    assert(store.run_all(first) == store.run(drop_plan(name)));
    assert(plan.last() == CommandView::CreateCollection { config });
    let after = store.run_all(plan);
    assert(after.collections =~= store.collections.insert(name, fresh_collection(config)));
}

/// Establishing a collection a second time changes nothing: the operation
/// is idempotent.
pub proof fn ensure_collection_is_idempotent(
    store: StoreState,
    name: Seq<char>,
    dimension: u64,
    metric: Metric,
)
    ensures
        store.run_all(ensure_plan(name, dimension, metric)).run_all(
            ensure_plan(name, dimension, metric),
        ) == store.run_all(ensure_plan(name, dimension, metric)),
{
    let once = store.run_all(ensure_plan(name, dimension, metric));
    ensure_collection_establishes(store, name, dimension, metric);
    ensure_collection_establishes(once, name, dimension, metric);
    let twice = once.run_all(ensure_plan(name, dimension, metric));
    assert(twice.collections =~= once.collections);
}

/// Establishing a collection under a name that holds one of another
/// configuration destroys the old one: the collection then has the new
/// dimension and metric, and none of the old points.
pub proof fn ensure_collection_recreates(
    store: StoreState,
    name: Seq<char>,
    old_dimension: u64,
    old_metric: Metric,
    written: UpsertView,
    dimension: u64,
    metric: Metric,
)
    ensures
        store.run_all(ensure_plan(name, old_dimension, old_metric)).write(written).run_all(
            ensure_plan(name, dimension, metric),
        ).collections[name] == fresh_collection(ConfigView { name, dimension, metric }),
{
    let before = store.run_all(ensure_plan(name, old_dimension, old_metric)).write(written);
    ensure_collection_establishes(before, name, dimension, metric);
}

/// Removing a collection is idempotent, and safe where there is none.
pub proof fn drop_collection_is_idempotent(store: StoreState, name: Seq<char>)
    ensures
        !store.run(drop_plan(name)).collections.contains_key(name),
        store.run(drop_plan(name)).run(drop_plan(name)) == store.run(drop_plan(name)),
        !store.collections.contains_key(name) ==> store.run(drop_plan(name)) == store,
{
    let once = store.run(drop_plan(name));
    assert(once.run(drop_plan(name)).collections =~= once.collections);
    if !store.collections.contains_key(name) {
        assert(once.collections =~= store.collections);
    }
}

/// The store keeps to its collections' dimensions: where every stored point
/// has its collection's dimension, that is still so after any command.
pub proof fn commands_keep_dimensions(store: StoreState, command: CommandView)
    requires
        store.dimensions_hold(),
    ensures
        store.run(command).dimensions_hold(),
{
    let after = store.run(command);
    assert forall|name: Seq<char>, id: Seq<char>|
        after.collections.contains_key(name) && after.collections[name].points.contains_key(
            id,
        ) implies (#[trigger] after.collections[name].points[id]).vector.len()
        == after.collections[name].config.dimension by {
        if store.collections.contains_key(name) && after.collections[name]
            == store.collections[name] {
            assert(store.collections[name].points[id].vector.len()
                == store.collections[name].config.dimension);
        }
    }
}

/// The store keeps to its collections' dimensions: where every stored point
/// has its collection's dimension, that is still so after any write,
/// accepted or not.
pub proof fn writes_keep_dimensions(store: StoreState, request: UpsertView)
    requires
        store.dimensions_hold(),
    ensures
        store.write(request).dimensions_hold(),
{
    if store.accepts(request) {
        let written = store.write(request);
        let old_points = store.collections[request.collection].points;
        let dimension = store.collections[request.collection].config.dimension;
        assert forall|id: Seq<char>|
            old_points.contains_key(id) implies (#[trigger] old_points[id]).vector.len()
            == dimension by {
            assert(store.collections[request.collection].points[id].vector.len() == dimension);
        }
        written_points_have_dimension(old_points, request.points, dimension as int);
        assert forall|name: Seq<char>, id: Seq<char>|
            written.collections.contains_key(name) && written.collections[name].points.contains_key(
                id,
            ) implies (#[trigger] written.collections[name].points[id]).vector.len()
            == written.collections[name].config.dimension by {
            if name != request.collection {
                assert(store.collections[name].points[id].vector.len()
                    == store.collections[name].config.dimension);
            }
        }
    }
}

/// Points of one length, written among points of that length, leave points
/// of that length.
proof fn written_points_have_dimension(
    points: Map<Seq<char>, PointView>,
    written: Seq<PointView>,
    dimension: int,
)
    requires
        forall|id: Seq<char>|
            points.contains_key(id) ==> (#[trigger] points[id]).vector.len() == dimension,
        forall|i: int| 0 <= i < written.len() ==> (#[trigger] written[i]).vector.len() == dimension,
    ensures
        forall|id: Seq<char>|
            with_points(points, written).contains_key(id) ==> (#[trigger] with_points(
                points,
                written,
            )[id]).vector.len() == dimension,
    decreases written.len(),
{
    if written.len() > 0 {
        let rest = with_points(points, written.drop_last());
        let last = written[written.len() - 1];
        written_points_have_dimension(points, written.drop_last(), dimension);
        assert forall|id: Seq<char>| with_points(points, written).contains_key(id) implies (
        #[trigger] with_points(points, written)[id]).vector.len() == dimension by {
            if id != last.id {
                assert(rest[id].vector.len() == dimension);
            }
        }
    }
}

/// Every point that the store accepted from an upsert has the dimension of
/// its collection, and holds the embedding as the engine gave it.
pub proof fn upserted_point_has_the_dimension(
    store: StoreState,
    collection: Seq<char>,
    text: Seq<char>,
    vector: Seq<u32>,
    id: Seq<char>,
    datetime: Seq<char>,
)
    requires
        store.accepts(upsert_view(collection, text, vector, id, datetime)),
    ensures
        ({
            let after = store.write(upsert_view(collection, text, vector, id, datetime));
            &&& after.collections.contains_key(collection)
            &&& after.collections[collection].config == store.collections[collection].config
            &&& after.collections[collection].points.contains_key(id)
            &&& after.collections[collection].points[id].vector == vector
            &&& vector.len() == after.collections[collection].config.dimension
        }),
{
    let request = upsert_view(collection, text, vector, id, datetime);
    assert(request.points[0].vector.len() == store.collections[collection].config.dimension);
    one_point_written(store.collections[collection].points, request.points);
}

/// A collection that was established with some dimension takes the upsert
/// of an embedding of that dimension, and of no other. What it takes, it
/// holds as it was sent.
pub proof fn established_collection_takes_its_dimension(
    store: StoreState,
    name: Seq<char>,
    dimension: u64,
    metric: Metric,
    text: Seq<char>,
    vector: Seq<u32>,
    id: Seq<char>,
    datetime: Seq<char>,
)
    ensures
        ({
            let ready = store.run_all(ensure_plan(name, dimension, metric));
            let request = upsert_view(name, text, vector, id, datetime);
            &&& ready.accepts(request) <==> vector.len() == dimension
            &&& ready.accepts(request) ==> ready.write(request).collections[name].points
                == Map::<Seq<char>, PointView>::empty().insert(id, request.points[0])
        }),
{
    ensure_collection_establishes(store, name, dimension, metric);
    let ready = store.run_all(ensure_plan(name, dimension, metric));
    let request = upsert_view(name, text, vector, id, datetime);
    assert(request.points[0].vector == vector);
    one_point_written(ready.collections[name].points, request.points);
}

/// Writing one point puts it under its identifier and leaves every other
/// point as it was.
proof fn one_point_written(points: Map<Seq<char>, PointView>, written: Seq<PointView>)
    requires
        written.len() == 1,
    ensures
        with_points(points, written) == points.insert(written[0].id, written[0]),
{
    assert(written.drop_last().len() == 0);
    assert(with_points(points, written.drop_last()) == points);
    assert(written.last() == written[0]);
}

/// Two upserts, of the same text or not, leave two points, as long as their
/// identifiers differ: the second does not overwrite the first, and neither
/// touches a point that was there before under another identifier.
pub proof fn upserts_add_points(
    store: StoreState,
    collection: Seq<char>,
    text: Seq<char>,
    vector: Seq<u32>,
    first_id: Seq<char>,
    first_datetime: Seq<char>,
    second_id: Seq<char>,
    second_datetime: Seq<char>,
)
    requires
        store.accepts(upsert_view(collection, text, vector, first_id, first_datetime)),
        first_id != second_id,
    ensures
        ({
            let first = upsert_view(collection, text, vector, first_id, first_datetime);
            let second = upsert_view(collection, text, vector, second_id, second_datetime);
            let before = store.collections[collection].points;
            let after = store.write(first).write(second).collections[collection].points;
            &&& after.dom() == before.dom().insert(first_id).insert(second_id)
            &&& after[first_id] == first.points[0]
            &&& after[second_id] == second.points[0]
            &&& forall|id: Seq<char>|
                before.contains_key(id) && id != first_id && id != second_id ==> after[id]
                    == before[id]
        }),
{
    let first = upsert_view(collection, text, vector, first_id, first_datetime);
    let second = upsert_view(collection, text, vector, second_id, second_datetime);
    let before = store.collections[collection].points;
    one_point_written(before, first.points);
    let middle = store.write(first);
    assert(second.points[0].vector.len() == first.points[0].vector.len());
    assert(middle.accepts(second));
    one_point_written(middle.collections[collection].points, second.points);
    let after = middle.write(second).collections[collection].points;
    assert(after.dom() =~= before.dom().insert(first_id).insert(second_id));
}

/// A search of a collection that was just established finds nothing,
/// whatever the query, and that is an answer, not an error: the empty list
/// is handed to the caller.
pub proof fn fresh_collection_answers_nothing(
    store: StoreState,
    name: Seq<char>,
    dimension: u64,
    metric: Metric,
    vector: Seq<u32>,
    limit: u64,
    filter: Option<Filter>,
    results: Vec<ScoredResult>,
    outcome: Result<Vec<ScoredResult>, PipelineError>,
)
    requires
        store.run_all(ensure_plan(name, dimension, metric)).answers(
            search_view(name, vector, limit, filter),
            hit_views(results@),
        ),
        agrees(outcome, settled(Operation::Query, name, Ok::<Vec<ScoredResult>, String>(results))),
    ensures
        outcome == Ok::<Vec<ScoredResult>, PipelineError>(results),
        results@.len() == 0,
{
    ensure_collection_establishes(store, name, dimension, metric);
    let hits = hit_views(results@);
    let points = store.run_all(ensure_plan(name, dimension, metric)).collections[name].points;
    assert(hits.len() == 0) by {
        if hits.len() > 0 {
            assert(points.contains_key(hits[0].id));
        }
    }
}

/// What the store ranked reaches the caller in the store's order, most
/// similar first.
pub proof fn answers_stay_ranked(
    store: StoreState,
    request: SearchView,
    results: Vec<ScoredResult>,
    outcome: Result<Vec<ScoredResult>, PipelineError>,
)
    requires
        store.answers(request, hit_views(results@)),
        agrees(
            outcome,
            settled(Operation::Query, request.collection, Ok::<Vec<ScoredResult>, String>(results)),
        ),
    ensures
        outcome matches Ok(found) && found@ == results@ && ranked(hit_views(found@)),
{
}

} // verus!
