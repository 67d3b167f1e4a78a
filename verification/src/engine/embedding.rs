//! The embedding provider as the engine sees it: which model it runs, how
//! the model comes to be loaded exactly once, and what is made of the
//! model's answers.
//!
//! The model itself lives with whoever drives these decisions, in a slot
//! that is shared by all users of one provider and guarded by a lock with
//! shared and exclusive access.

use vstd::prelude::*;
use crate::engine::document::Embedding;
use crate::engine::error::ModelError;
use crate::engine::text::same_text;

verus! {

/// The embedding models that can be run.
#[derive(Debug, Clone, Copy, PartialEq, Eq, Structural)]
pub enum EmbeddingModel {
    BgeSmallEnV15,
    BgeBaseEnV15,
    BgeLargeEnV15,
    AllMiniLmL6V2,
}

/// The model that a name stands for. An unknown name stands for the small
/// BGE model.
pub open spec fn model_named(name: Seq<char>) -> EmbeddingModel {
    if name == "BAAI/bge-small-en-v1.5"@ {
        EmbeddingModel::BgeSmallEnV15
    } else if name == "BAAI/bge-base-en-v1.5"@ {
        EmbeddingModel::BgeBaseEnV15
    } else if name == "BAAI/bge-large-en-v1.5"@ {
        EmbeddingModel::BgeLargeEnV15
    } else if name == "sentence-transformers/all-MiniLM-L6-v2"@ {
        EmbeddingModel::AllMiniLmL6V2
    } else {
        EmbeddingModel::BgeSmallEnV15
    }
}

/// Where one caller's attempt to get at the model stands.
#[derive(Debug, Clone, Copy, PartialEq, Eq, Structural)]
pub enum InitState {
    /// Nothing has been done yet.
    Idle,
    /// Shared access to the slot was asked for.
    AwaitingShared,
    /// Exclusive access to the slot was asked for.
    AwaitingExclusive,
    /// The model is being loaded, under exclusive access.
    Loading,
    /// The attempt is over.
    Finished,
}

/// What the driver of an attempt reports.
#[derive(Debug)]
pub enum InitEvent {
    /// The attempt is to begin.
    Begin,
    /// Shared access was granted; `loaded` says whether the slot holds a
    /// model.
    Shared { loaded: bool },
    /// Exclusive access was granted; `loaded` says whether the slot holds a
    /// model.
    Exclusive { loaded: bool },
    /// Loading ended, with the cause if it failed.
    Loaded(Result<(), String>),
}

/// What the driver of an attempt is to do next.
#[derive(Debug, Clone)]
pub enum InitAction {
    /// Ask for shared access to the slot and report what it holds.
    AcquireShared,
    /// Give shared access back, ask for exclusive access and report what the
    /// slot holds.
    AcquireExclusive,
    /// Load this model, keeping exclusive access, and report the outcome.
    Load(EmbeddingModel),
    /// Put the loaded model into the slot, give exclusive access back and go
    /// on with the model.
    InstallAndProceed,
    /// Give access back and go on with the model that the slot holds.
    Proceed,
    /// Give exclusive access back, leaving the slot empty, and stop with
    /// this failure.
    Fail(ModelError),
}

/// Whether a caller that holds exclusive access has to load the model:
/// only if the slot, looked at again, is still empty.
pub open spec fn must_load(loaded: bool) -> bool {
    !loaded
}

/// Whether an attempt in `state` that is told `event` goes on in `next`
/// with `action`, for a provider that runs `model`.
///
/// The slot is looked at under shared access first. Only a caller that finds
/// it empty asks for exclusive access, and under exclusive access looks
/// again: it loads the model only if the slot is still empty.
pub open spec fn init_follows(
    model: EmbeddingModel,
    state: InitState,
    event: InitEvent,
    next: InitState,
    action: InitAction,
) -> bool {
    match (state, event) {
        (InitState::Idle, InitEvent::Begin) => {
            &&& next == InitState::AwaitingShared
            &&& action == InitAction::AcquireShared
        },
        (InitState::AwaitingShared, InitEvent::Shared { loaded }) => {
            if loaded {
                next == InitState::Finished && action == InitAction::Proceed
            } else {
                next == InitState::AwaitingExclusive && action == InitAction::AcquireExclusive
            }
        },
        (InitState::AwaitingExclusive, InitEvent::Exclusive { loaded }) => {
            if must_load(loaded) {
                next == InitState::Loading && action == InitAction::Load(model)
            } else {
                next == InitState::Finished && action == InitAction::Proceed
            }
        },
        (InitState::Loading, InitEvent::Loaded(Ok(_))) => {
            &&& next == InitState::Finished
            &&& action == InitAction::InstallAndProceed
        },
        (InitState::Loading, InitEvent::Loaded(Err(cause))) => {
            &&& next == InitState::Finished
            &&& action == InitAction::Fail(ModelError::LoadFailed(cause))
        },
        _ => {
            &&& next == InitState::Finished
            &&& action == InitAction::Fail(ModelError::NotInitialized)
        },
    }
}

/// What one caller's time under exclusive access does to the slot: whether
/// the slot holds a model afterwards, and whether the caller loaded one.
///
/// `loaded` says whether the slot held a model when access was granted, and
/// `load_succeeds` whether a load would succeed.
pub open spec fn exclusive_section(loaded: bool, load_succeeds: bool) -> (bool, bool) {
    if must_load(loaded) {
        (load_succeeds, true)
    } else {
        (true, false)
    }
}

/// How many loads happen when callers take exclusive access one after the
/// other, starting with a slot that holds a model or not according to
/// `loaded`. `loads_succeed[i]` says whether a load by the `i`-th caller
/// would succeed.
pub open spec fn loads_during(loaded: bool, loads_succeed: Seq<bool>) -> nat
    decreases loads_succeed.len(),
{
    if loads_succeed.len() == 0 {
        0
    } else {
        let (after, load) = exclusive_section(loaded, loads_succeed[0]);
        (if load {
            1nat
        } else {
            0nat
        }) + loads_during(after, loads_succeed.drop_first())
    }
}

/// Whether the slot holds a model after the callers have had their turns.
pub open spec fn loaded_after(loaded: bool, loads_succeed: Seq<bool>) -> bool
    decreases loads_succeed.len(),
{
    if loads_succeed.len() == 0 {
        loaded
    } else {
        loaded_after(
            exclusive_section(loaded, loads_succeed[0]).0,
            loads_succeed.drop_first(),
        )
    }
}

/// Once the slot holds a model, no caller loads another, and the slot keeps
/// its model.
pub proof fn lemma_loaded_stays(loads_succeed: Seq<bool>)
    ensures
        loads_during(true, loads_succeed) == 0,
        loaded_after(true, loads_succeed),
    decreases loads_succeed.len(),
{
    if loads_succeed.len() > 0 {
        lemma_loaded_stays(loads_succeed.drop_first());
    }
}

/// However many callers find the slot empty and go for exclusive access: if
/// loading succeeds, the model is loaded exactly once, and the slot holds it
/// when all are through.
pub proof fn lemma_single_load(loads_succeed: Seq<bool>)
    requires
        loads_succeed.len() >= 1,
        forall|i: int| 0 <= i < loads_succeed.len() ==> loads_succeed[i],
    ensures
        loads_during(false, loads_succeed) == 1,
        loaded_after(false, loads_succeed),
{
    lemma_loaded_stays(loads_succeed.drop_first());
}

/// A failed load leaves the slot empty, so that the next caller tries again.
pub proof fn lemma_failed_load_retried(loads_succeed: Seq<bool>)
    requires
        loads_succeed.len() >= 1,
        !loads_succeed[0],
    ensures
        exclusive_section(false, loads_succeed[0]) == (false, true),
        loads_during(false, loads_succeed) == 1 + loads_during(false, loads_succeed.drop_first()),
{
}

/// A source of embeddings: the name of the model and the length of its
/// vectors.
#[derive(Debug, Clone)]
pub struct EmbeddingService {
    model_name: String,
    dimension: usize,
}

impl EmbeddingService {
    /// The name of the model.
    pub closed spec fn name(self) -> Seq<char> {
        self.model_name@
    }

    /// The length of the vectors.
    pub closed spec fn size(self) -> usize {
        self.dimension
    }

    /// A provider for the named model with vectors of length `dimension`.
    pub fn new(model_name: &str, dimension: usize) -> (service: EmbeddingService)
        ensures
            service.name() == model_name@,
            service.size() == dimension,
    {
        EmbeddingService { model_name: model_name.to_owned(), dimension }
    }

    /// The length of the vectors.
    pub fn dimension(&self) -> (dimension: usize)
        ensures
            dimension == self.size(),
    {
        self.dimension
    }

    /// The model that a name stands for.
    pub fn parse_model_name(name: &str) -> (model: EmbeddingModel)
        ensures
            model == model_named(name@),
    {
        if same_text(name, "BAAI/bge-small-en-v1.5") {
            EmbeddingModel::BgeSmallEnV15
        } else if same_text(name, "BAAI/bge-base-en-v1.5") {
            EmbeddingModel::BgeBaseEnV15
        } else if same_text(name, "BAAI/bge-large-en-v1.5") {
            EmbeddingModel::BgeLargeEnV15
        } else if same_text(name, "sentence-transformers/all-MiniLM-L6-v2") {
            EmbeddingModel::AllMiniLmL6V2
        } else {
            EmbeddingModel::BgeSmallEnV15
        }
    }

    /// The model that this provider runs.
    pub fn model(&self) -> (model: EmbeddingModel)
        ensures
            model == model_named(self.name()),
    {
        Self::parse_model_name(self.model_name.as_str())
    }

    /// Takes one caller's attempt to get at the model one step further.
    pub fn init(&self, state: InitState, event: InitEvent) -> (next: (InitState, InitAction))
        ensures
            init_follows(model_named(self.name()), state, event, next.0, next.1),
    {
        match (state, event) {
            (InitState::Idle, InitEvent::Begin) => (
                InitState::AwaitingShared,
                InitAction::AcquireShared,
            ),
            (InitState::AwaitingShared, InitEvent::Shared { loaded }) => {
                if loaded {
                    (InitState::Finished, InitAction::Proceed)
                } else {
                    (InitState::AwaitingExclusive, InitAction::AcquireExclusive)
                }
            },
            (InitState::AwaitingExclusive, InitEvent::Exclusive { loaded }) => {
                if loaded {
                    (InitState::Finished, InitAction::Proceed)
                } else {
                    (InitState::Loading, InitAction::Load(self.model()))
                }
            },
            (InitState::Loading, InitEvent::Loaded(Ok(()))) => (
                InitState::Finished,
                InitAction::InstallAndProceed,
            ),
            (InitState::Loading, InitEvent::Loaded(Err(cause))) => (
                InitState::Finished,
                InitAction::Fail(ModelError::LoadFailed(cause)),
            ),
            _ => (InitState::Finished, InitAction::Fail(ModelError::NotInitialized)),
        }
    }

    /// What `embed` makes of the model's answer to a single text: the first
    /// vector, and a failure if there is none.
    pub fn embed(answer: Result<Vec<Embedding>, String>) -> (outcome: Result<Embedding, ModelError>)
        ensures
            match answer {
                Ok(vectors) => if vectors@.len() > 0 {
                    outcome is Ok && outcome->Ok_0@ == vectors@[0]@
                } else {
                    outcome is Err && outcome->Err_0 == ModelError::NoEmbedding
                },
                Err(cause) => outcome is Err && outcome->Err_0 == ModelError::InferenceFailed(
                    cause,
                ),
            },
    {
        match answer {
            Ok(vectors) => {
                if vectors.len() > 0 {
                    Ok(vectors[0].clone())
                } else {
                    Err(ModelError::NoEmbedding)
                }
            },
            Err(cause) => Err(ModelError::InferenceFailed(cause)),
        }
    }

    /// What `embed_batch` makes of the model's answer to `count` texts: the
    /// vectors as they came, provided there is one per text.
    pub fn embed_batch(count: usize, answer: Result<Vec<Embedding>, String>) -> (outcome: Result<
        Vec<Embedding>,
        ModelError,
    >)
        ensures
            match answer {
                Ok(vectors) => if vectors@.len() == count {
                    outcome == Ok::<Vec<Embedding>, ModelError>(vectors)
                } else {
                    outcome is Err && outcome->Err_0 == ModelError::WrongCount
                },
                Err(cause) => outcome is Err && outcome->Err_0 == ModelError::InferenceFailed(
                    cause,
                ),
            },
    {
        match answer {
            Ok(vectors) => {
                if vectors.len() == count {
                    Ok(vectors)
                } else {
                    Err(ModelError::WrongCount)
                }
            },
            Err(cause) => Err(ModelError::InferenceFailed(cause)),
        }
    }
}

} // verus!
