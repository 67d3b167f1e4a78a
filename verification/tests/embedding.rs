use prior_notebook::engine::embedding::{
    EmbeddingModel, EmbeddingService, InitAction, InitEvent, InitState,
};
use prior_notebook::engine::error::ModelError;

#[test]
fn test_embedding_service_creation() {
    let service = EmbeddingService::new("BAAI/bge-small-en-v1.5", 384);
    assert_eq!(service.dimension(), 384);
}

#[test]
fn model_names_are_known() {
    assert_eq!(
        EmbeddingService::parse_model_name("BAAI/bge-small-en-v1.5"),
        EmbeddingModel::BgeSmallEnV15
    );
    assert_eq!(
        EmbeddingService::parse_model_name("BAAI/bge-base-en-v1.5"),
        EmbeddingModel::BgeBaseEnV15
    );
    assert_eq!(
        EmbeddingService::parse_model_name("BAAI/bge-large-en-v1.5"),
        EmbeddingModel::BgeLargeEnV15
    );
    assert_eq!(
        EmbeddingService::parse_model_name("sentence-transformers/all-MiniLM-L6-v2"),
        EmbeddingModel::AllMiniLmL6V2
    );
    assert_eq!(EmbeddingService::parse_model_name("unknown"), EmbeddingModel::BgeSmallEnV15);
    assert_eq!(EmbeddingService::parse_model_name(""), EmbeddingModel::BgeSmallEnV15);
    assert_eq!(
        EmbeddingService::new("BAAI/bge-large-en-v1.5", 1024).model(),
        EmbeddingModel::BgeLargeEnV15
    );
}

fn service() -> EmbeddingService {
    EmbeddingService::new("BAAI/bge-base-en-v1.5", 768)
}

#[test]
fn a_loaded_model_is_used_at_once() {
    let service = service();
    let (state, action) = service.init(InitState::Idle, InitEvent::Begin);
    assert_eq!(state, InitState::AwaitingShared);
    assert!(matches!(action, InitAction::AcquireShared));
    let (state, action) = service.init(state, InitEvent::Shared { loaded: true });
    assert_eq!(state, InitState::Finished);
    assert!(matches!(action, InitAction::Proceed));
}

#[test]
fn an_empty_slot_is_filled_under_exclusive_access() {
    let service = service();
    let (state, _) = service.init(InitState::Idle, InitEvent::Begin);
    let (state, action) = service.init(state, InitEvent::Shared { loaded: false });
    assert_eq!(state, InitState::AwaitingExclusive);
    assert!(matches!(action, InitAction::AcquireExclusive));
    let (state, action) = service.init(state, InitEvent::Exclusive { loaded: false });
    assert_eq!(state, InitState::Loading);
    assert!(matches!(action, InitAction::Load(EmbeddingModel::BgeBaseEnV15)));
    let (state, action) = service.init(state, InitEvent::Loaded(Ok(())));
    assert_eq!(state, InitState::Finished);
    assert!(matches!(action, InitAction::InstallAndProceed));
}

#[test]
fn a_slot_filled_meanwhile_is_not_filled_again() {
    let service = service();
    let (state, action) =
        service.init(InitState::AwaitingExclusive, InitEvent::Exclusive { loaded: true });
    assert_eq!(state, InitState::Finished);
    assert!(matches!(action, InitAction::Proceed));
}

#[test]
fn a_failed_load_is_reported() {
    let service = service();
    let (state, action) =
        service.init(InitState::Loading, InitEvent::Loaded(Err("no network".to_string())));
    assert_eq!(state, InitState::Finished);
    assert!(matches!(action, InitAction::Fail(ModelError::LoadFailed(cause)) if cause == "no network"));
}

#[test]
fn init_events_out_of_order_fail() {
    let service = service();
    let (state, action) = service.init(InitState::Idle, InitEvent::Loaded(Ok(())));
    assert_eq!(state, InitState::Finished);
    assert!(matches!(action, InitAction::Fail(ModelError::NotInitialized)));
    let (_, action) = service.init(InitState::Finished, InitEvent::Begin);
    assert!(matches!(action, InitAction::Fail(ModelError::NotInitialized)));
}

fn simulate(callers: usize, load_succeeds: bool) -> (usize, usize, bool) {
    let service = service();
    let mut slot = false;
    let mut loads = 0;
    let mut ready = 0;
    let mut waiting: Vec<InitState> = Vec::new();
    for _ in 0..callers {
        let (state, _) = service.init(InitState::Idle, InitEvent::Begin);
        let (state, _) = service.init(state, InitEvent::Shared { loaded: slot });
        waiting.push(state);
    }
    for state in waiting {
        let (state, action) = service.init(state, InitEvent::Exclusive { loaded: slot });
        match action {
            InitAction::Proceed => ready += 1,
            InitAction::Load(_) => {
                loads += 1;
                let outcome = if load_succeeds { Ok(()) } else { Err("x".to_string()) };
                let (_, action) = service.init(state, InitEvent::Loaded(outcome));
                match action {
                    InitAction::InstallAndProceed => {
                        slot = true;
                        ready += 1;
                    }
                    InitAction::Fail(_) => {}
                    other => panic!("unexpected action {:?}", other),
                }
            }
            other => panic!("unexpected action {:?}", other),
        }
    }
    (loads, ready, slot)
}

#[test]
fn many_first_callers_load_once() {
    assert_eq!(simulate(1, true), (1, 1, true));
    assert_eq!(simulate(8, true), (1, 8, true));
    assert_eq!(simulate(3, false), (3, 0, false));
}

#[test]
fn embed_takes_the_first_vector() {
    assert_eq!(EmbeddingService::embed(Ok(vec![vec![1, 2], vec![3]])).unwrap(), vec![1, 2]);
    assert!(matches!(EmbeddingService::embed(Ok(Vec::new())), Err(ModelError::NoEmbedding)));
    assert!(matches!(
        EmbeddingService::embed(Err("bad".to_string())),
        Err(ModelError::InferenceFailed(cause)) if cause == "bad"
    ));
}

#[test]
fn embed_batch_wants_one_vector_per_text() {
    assert_eq!(
        EmbeddingService::embed_batch(2, Ok(vec![vec![1], vec![2]])).unwrap(),
        vec![vec![1], vec![2]]
    );
    assert!(EmbeddingService::embed_batch(0, Ok(Vec::new())).unwrap().is_empty());
    assert!(matches!(
        EmbeddingService::embed_batch(3, Ok(vec![vec![1]])),
        Err(ModelError::WrongCount)
    ));
    assert!(matches!(
        EmbeddingService::embed_batch(1, Err("bad".to_string())),
        Err(ModelError::InferenceFailed(cause)) if cause == "bad"
    ));
}
