//! Startup as one atomic sequence: configuration, then the five backend
//! connectors, then the immutable [`AppState`] aggregate, then — only if
//! everything succeeded — the listener. The verdict merge below is the
//! single point where each backend's native failure is wrapped into its
//! taxonomy variant, and it never lets a later outcome mask an earlier one.

use vstd::prelude::*;
use crate::error::{AppError, is_backend_error};

verus! {

/// The relational pool's fixed maximum connection count.
pub const RELATIONAL_POOL_MAX_CONNECTIONS: u32 = 10;

/// The application identifier the document-store client is tagged with for
/// observability.
pub fn document_store_app_name() -> (r: &'static str)
    ensures
        r@ == "rust-backend"@,
{
    "rust-backend"
}

/// Immutable aggregate of the five live backend handles, constructed once
/// after all five connectors succeed and shared read-only with every
/// request handler. The handle types are the drivers' own and stay opaque
/// here.
pub struct AppState<R, D, C, Q, S> {
    pub mysql_pool: R,
    pub mongo_client: D,
    pub redis_client: C,
    pub rabbit_conn: Q,
    pub kafka_producer: S,
}

/// Assembles the aggregate: a pure aggregation with no failure mode, each
/// handle stored unchanged.
pub fn assemble<R, D, C, Q, S>(
    mysql_pool: R,
    mongo_client: D,
    redis_client: C,
    rabbit_conn: Q,
    kafka_producer: S,
) -> (r: AppState<R, D, C, Q, S>)
    ensures
        r.mysql_pool == mysql_pool,
        r.mongo_client == mongo_client,
        r.redis_client == redis_client,
        r.rabbit_conn == rabbit_conn,
        r.kafka_producer == kafka_producer,
{
    AppState { mysql_pool, mongo_client, redis_client, rabbit_conn, kafka_producer }
}

/// The startup verdict the five connector outcomes merge to: the earliest
/// failure, wrapped into its own taxonomy variant, or success when all
/// five succeeded.
pub open spec fn spec_startup_gate(
    relational: Result<(), String>,
    document: Result<(), String>,
    cache: Result<(), String>,
    queue: Result<(), String>,
    stream: Result<(), String>,
) -> Result<(), AppError> {
    match relational {
        Err(c) => Err(AppError::RelationalStore(c)),
        Ok(_) => match document {
            Err(c) => Err(AppError::DocumentStore(c)),
            Ok(_) => match cache {
                Err(c) => Err(AppError::Cache(c)),
                Ok(_) => match queue {
                    Err(c) => Err(AppError::Queue(c)),
                    Ok(_) => match stream {
                        Err(c) => Err(AppError::Stream(c)),
                        Ok(_) => Ok(()),
                    },
                },
            },
        },
    }
}

/// Merges the five connector outcomes, in startup order, into the one
/// startup verdict. This is the single wrapping point per backend: each
/// cause becomes its own taxonomy variant, and the first failure is the
/// one reported.
pub fn startup_gate(
    relational: Result<(), String>,
    document: Result<(), String>,
    cache: Result<(), String>,
    queue: Result<(), String>,
    stream: Result<(), String>,
) -> (r: Result<(), AppError>)
    ensures
        r == spec_startup_gate(relational, document, cache, queue, stream),
{
    match relational {
        Err(c) => Err(AppError::RelationalStore(c)),
        Ok(_) => match document {
            Err(c) => Err(AppError::DocumentStore(c)),
            Ok(_) => match cache {
                Err(c) => Err(AppError::Cache(c)),
                Ok(_) => match queue {
                    Err(c) => Err(AppError::Queue(c)),
                    Ok(_) => match stream {
                        Err(c) => Err(AppError::Stream(c)),
                        Ok(_) => Ok(()),
                    },
                },
            },
        },
    }
}

/// Whether the network listener may be bound: only on a clean startup
/// verdict — no partial service is ever exposed.
pub fn may_bind(outcome: &Result<(), AppError>) -> (r: bool)
    ensures
        r == (outcome is Ok),
{
    outcome.is_ok()
}

/// The process exit code startup yields: zero exactly on clean success.
pub fn exit_code(outcome: &Result<(), AppError>) -> (r: i32)
    ensures
        (r == 0) <==> (outcome is Ok),
{
    match outcome {
        Ok(_) => 0,
        Err(_) => 1,
    }
}

/// Law: no partial service, and no masking. The startup verdict is clean
/// exactly when all five connectors succeeded; if the relational one failed, its
/// failure is the verdict whatever the later outcomes were, and likewise
/// down the order; every failing verdict is a backend variant.
pub proof fn lemma_no_partial_startup(
    relational: Result<(), String>,
    document: Result<(), String>,
    cache: Result<(), String>,
    queue: Result<(), String>,
    stream: Result<(), String>,
)
    ensures
        spec_startup_gate(relational, document, cache, queue, stream) is Ok <==> (relational is Ok
            && document is Ok && cache is Ok && queue is Ok && stream is Ok),
        relational matches Err(c) ==> spec_startup_gate(relational, document, cache, queue, stream)
            == Result::<(), AppError>::Err(AppError::RelationalStore(c)),
        relational is Ok ==> (document matches Err(c) ==> spec_startup_gate(
            relational,
            document,
            cache,
            queue,
            stream,
        ) == Result::<(), AppError>::Err(AppError::DocumentStore(c))),
        relational is Ok && document is Ok ==> (cache matches Err(c) ==> spec_startup_gate(
            relational,
            document,
            cache,
            queue,
            stream,
        ) == Result::<(), AppError>::Err(AppError::Cache(c))),
        relational is Ok && document is Ok && cache is Ok ==> (queue matches Err(c)
            ==> spec_startup_gate(relational, document, cache, queue, stream) == Result::<
            (),
            AppError,
        >::Err(AppError::Queue(c))),
        relational is Ok && document is Ok && cache is Ok && queue is Ok ==> (stream matches Err(c)
            ==> spec_startup_gate(relational, document, cache, queue, stream) == Result::<
            (),
            AppError,
        >::Err(AppError::Stream(c))),
        spec_startup_gate(relational, document, cache, queue, stream) matches Err(e)
            ==> is_backend_error(&e),
{
}

} // verus!
