//! Vector collections: their configuration, and the commands that establish
//! and remove them.

use vstd::prelude::*;
use crate::error::{ErrorKind, ErrorView, Operation, PipelineError};

verus! {

/// The similarity function by which a collection ranks its points.
#[derive(Clone, Copy, Debug, PartialEq, Eq, Structural)]
pub enum Metric {
    /// Cosine similarity, the default.
    Cosine,
    /// Euclidean distance.
    Euclid,
    /// Dot product.
    Dot,
}

/// A collection's configuration as plain values.
pub struct ConfigView {
    pub name: Seq<char>,
    pub dimension: u64,
    pub metric: Metric,
}

/// What a collection is created with. Every point of the collection has a
/// vector of `dimension` components.
#[derive(Clone, Debug, PartialEq, Eq)]
pub struct CollectionConfig {
    pub name: String,
    pub dimension: u64,
    pub metric: Metric,
}

impl View for CollectionConfig {
    type V = ConfigView;

    open spec fn view(&self) -> ConfigView {
        ConfigView { name: self.name@, dimension: self.dimension, metric: self.metric }
    }
}

/// A command as plain values.
pub enum CommandView {
    DeleteCollection { name: Seq<char> },
    CreateCollection { config: ConfigView },
}

/// A command to the vector store about a whole collection.
#[derive(Clone, Debug, PartialEq, Eq)]
pub enum StoreCommand {
    /// Remove the collection of this name; nothing happens if there is none.
    DeleteCollection { name: String },
    /// Create an empty collection.
    CreateCollection { config: CollectionConfig },
}

impl View for StoreCommand {
    type V = CommandView;

    open spec fn view(&self) -> CommandView {
        match self {
            StoreCommand::DeleteCollection { name } => CommandView::DeleteCollection { name: name@ },
            StoreCommand::CreateCollection { config } => CommandView::CreateCollection {
                config: config@,
            },
        }
    }
}

/// The commands of a plan, as plain values.
pub open spec fn command_views(commands: Seq<StoreCommand>) -> Seq<CommandView> {
    commands.map_values(|command: StoreCommand| command@)
}

/// The commands that establish a collection: whatever bears the name is
/// removed, then the collection is created empty.
pub open spec fn ensure_plan(name: Seq<char>, dimension: u64, metric: Metric) -> Seq<CommandView> {
    seq![
        CommandView::DeleteCollection { name },
        CommandView::CreateCollection { config: ConfigView { name, dimension, metric } },
    ]
}

/// The command that removes a collection.
pub open spec fn drop_plan(name: Seq<char>) -> CommandView {
    CommandView::DeleteCollection { name }
}

/// What the caller is told when a collection and the engine disagree.
pub const DIMENSION_MISMATCH: &'static str = "the collection's dimension is not the engine's";

/// Plans the establishing of a collection with the given dimension and
/// metric. A collection of that name that exists already is never left in
/// place: the plan removes it first, so that no point of another dimension
/// survives.
pub fn ensure_collection(name: &str, dimension: u64, metric: Metric) -> (plan: Vec<StoreCommand>)
    ensures
        plan@.len() == 2,
        command_views(plan@) == ensure_plan(name@, dimension, metric),
{
    let mut plan: Vec<StoreCommand> = Vec::new();
    plan.push(StoreCommand::DeleteCollection { name: name.to_owned() });
    plan.push(
        StoreCommand::CreateCollection {
            config: CollectionConfig { name: name.to_owned(), dimension, metric },
        },
    );
    assert(command_views(plan@) =~= ensure_plan(name@, dimension, metric));
    plan
}

/// Plans the removal of a collection. The command is safe to send for a
/// collection that does not exist.
pub fn drop_collection(name: &str) -> (command: StoreCommand)
    ensures
        command@ == drop_plan(name@),
{
    StoreCommand::DeleteCollection { name: name.to_owned() }
}

impl CollectionConfig {
    /// Tests this collection against the engine that is to fill it: they must
    /// agree on the dimension. A collection that fails is to be established
    /// anew; its vectors are never cut or padded to fit.
    pub fn check_dimension(&self, engine_dimension: u64) -> (outcome: Result<(), PipelineError>)
        ensures
            outcome is Ok <==> self.dimension == engine_dimension,
            outcome matches Err(error) ==> error@ == (ErrorView {
                kind: ErrorKind::ConfigMismatch,
                operation: Operation::EnsureCollection,
                collection: self.name@,
                cause: DIMENSION_MISMATCH@,
            }),
    {
        if self.dimension == engine_dimension {
            Ok(())
        } else {
            Err(
                PipelineError {
                    kind: ErrorKind::ConfigMismatch,
                    operation: Operation::EnsureCollection,
                    collection: self.name.clone(),
                    cause: DIMENSION_MISMATCH.to_owned(),
                },
            )
        }
    }
}

} // verus!
