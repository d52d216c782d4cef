//! The embedding engine's side of the pipeline: what its answers mean.
//!
//! The engine itself computes outside this crate, in floating point. Here a
//! vector is the sequence of its components' bit patterns, which is all the
//! pipeline needs: it counts the components and hands them on, untouched.

use vstd::prelude::*;
use crate::error::{agrees, failure_of, ErrorView, Operation, PipelineError};

verus! {

/// An embedding vector. Each component is held as the 32 bits of an IEEE 754
/// single-precision number.
#[derive(Clone, Debug, PartialEq, Eq)]
pub struct Embedding {
    pub bits: Vec<u32>,
}

impl View for Embedding {
    type V = Seq<u32>;

    open spec fn view(&self) -> Seq<u32> {
        self.bits@
    }
}

impl Embedding {
    /// The number of components.
    pub fn len(&self) -> (n: usize)
        ensures
            n == self@.len(),
    {
        self.bits.len()
    }
}

/// What the caller is told when the engine reports a negative length.
pub const NEGATIVE_DIMENSION: &'static str = "the engine reported a negative dimension";

/// What the caller is told when the engine answers one text with no vector.
pub const NO_VECTOR: &'static str = "the engine returned no vector";

/// What the engine's report of its output length means: a length that is
/// not negative is the dimension.
pub open spec fn dimension_of(reported: Result<i64, String>) -> Result<u64, ErrorView> {
    match reported {
        Ok(length) => if length >= 0 {
            Ok(length as u64)
        } else {
            Err(failure_of(Operation::Dimension, Seq::empty(), NEGATIVE_DIMENSION@))
        },
        Err(cause) => Err(failure_of(Operation::Dimension, Seq::empty(), cause@)),
    }
}

/// What the engine's answer to one text means: the first vector of the
/// answer is the text's embedding.
pub open spec fn embedded(encoded: Result<Vec<Embedding>, String>) -> Result<Embedding, ErrorView> {
    match encoded {
        Ok(batch) => if batch@.len() > 0 {
            Ok(batch@[0])
        } else {
            Err(failure_of(Operation::Embed, Seq::empty(), NO_VECTOR@))
        },
        Err(cause) => Err(failure_of(Operation::Embed, Seq::empty(), cause@)),
    }
}

/// The engine's answer decides the embedding: the same answer gives the
/// same vector, or the same failure, every time.
pub proof fn embedding_is_determined(
    encoded: Result<Vec<Embedding>, String>,
    first: Result<Embedding, PipelineError>,
    second: Result<Embedding, PipelineError>,
)
    requires
        agrees(first, embedded(encoded)),
        agrees(second, embedded(encoded)),
    ensures
        first is Ok <==> second is Ok,
        first is Ok ==> first == second,
        first is Err ==> first->Err_0@ == second->Err_0@,
{
}

/// Turns the engine's report of its output length into the dimension that
/// collections are created with. The engine reports a signed number; a
/// negative one is no length.
pub fn dimension(reported: Result<i64, String>) -> (outcome: Result<u64, PipelineError>)
    ensures
        agrees(outcome, dimension_of(reported)),
{
    proof {
        reveal_strlit("");
        assert(""@ =~= Seq::<char>::empty());
    }
    match reported {
        Ok(length) => {
            if length >= 0 {
                Ok(length as u64)
            } else {
                Err(
                    PipelineError::failed(
                        Operation::Dimension,
                        "",
                        NEGATIVE_DIMENSION.to_owned(),
                    ),
                )
            }
        },
        Err(cause) => Err(PipelineError::failed(Operation::Dimension, "", cause)),
    }
}

/// Takes the embedding of one text out of the engine's answer. The engine
/// answers a batch of texts with a batch of vectors; asked for one text, it
/// owes one vector, and the pipeline works with exactly one.
pub fn embed(encoded: Result<Vec<Embedding>, String>) -> (outcome: Result<Embedding, PipelineError>)
    ensures
        agrees(outcome, embedded(encoded)),
{
    proof {
        reveal_strlit("");
        assert(""@ =~= Seq::<char>::empty());
    }
    match encoded {
        Ok(batch) => {
            let mut batch = batch;
            if batch.len() > 0 {
                Ok(batch.swap_remove(0))
            } else {
                Err(
                    PipelineError::failed(Operation::Embed, "", NO_VECTOR.to_owned()),
                )
            }
        },
        Err(cause) => Err(PipelineError::failed(Operation::Embed, "", cause)),
    }
}

} // verus!
