use backend_core::error::AppError;
use backend_core::startup::{
    assemble, document_store_app_name, exit_code, may_bind, startup_gate,
    RELATIONAL_POOL_MAX_CONNECTIONS,
};

#[test]
fn all_connectors_succeeding_lets_the_listener_bind() {
    let verdict = startup_gate(Ok(()), Ok(()), Ok(()), Ok(()), Ok(()));
    assert!(verdict.is_ok());
    assert!(may_bind(&verdict));
    assert_eq!(exit_code(&verdict), 0);
}

#[test]
fn unreachable_relational_store_aborts_before_any_bind() {
    let verdict = startup_gate(
        Err("connection refused".to_string()),
        Ok(()),
        Ok(()),
        Ok(()),
        Ok(()),
    );
    assert!(!may_bind(&verdict));
    assert_ne!(exit_code(&verdict), 0);
    match verdict {
        Err(AppError::RelationalStore(cause)) => assert_eq!(cause, "connection refused"),
        _ => panic!("expected the relational failure"),
    }
}

#[test]
fn a_later_connector_never_masks_an_earlier_failure() {
    let verdict = startup_gate(
        Err("relational down".to_string()),
        Err("document down".to_string()),
        Err("cache down".to_string()),
        Ok(()),
        Ok(()),
    );
    assert!(matches!(verdict, Err(AppError::RelationalStore(_))));

    let verdict = startup_gate(
        Ok(()),
        Ok(()),
        Err("cache down".to_string()),
        Err("queue down".to_string()),
        Ok(()),
    );
    assert!(matches!(verdict, Err(AppError::Cache(_))));
}

#[test]
fn each_backend_failure_wraps_into_its_own_variant() {
    let verdict = startup_gate(Ok(()), Err("x".to_string()), Ok(()), Ok(()), Ok(()));
    assert!(matches!(verdict, Err(AppError::DocumentStore(_))));
    let verdict = startup_gate(Ok(()), Ok(()), Ok(()), Err("x".to_string()), Ok(()));
    assert!(matches!(verdict, Err(AppError::Queue(_))));
    let verdict = startup_gate(Ok(()), Ok(()), Ok(()), Ok(()), Err("x".to_string()));
    assert!(matches!(verdict, Err(AppError::Stream(_))));
}

#[test]
fn startup_failures_map_to_generic_500_responses() {
    let verdict = startup_gate(
        Err("mysql://root:SECRET-REDACTED@db/app refused".to_string()),
        Ok(()),
        Ok(()),
        Ok(()),
        Ok(()),
    );
    let (status, message) = verdict.unwrap_err().status_and_message();
    assert_eq!(status, 500);
    assert_eq!(message, "database error");
}

#[test]
fn assemble_keeps_each_handle_unchanged() {
    let state = assemble(1u32, "mongo", 2.5f64, vec![3u8], Some(4u64));
    assert_eq!(state.mysql_pool, 1);
    assert_eq!(state.mongo_client, "mongo");
    assert_eq!(state.redis_client, 2.5);
    assert_eq!(state.rabbit_conn, vec![3u8]);
    assert_eq!(state.kafka_producer, Some(4));
}

#[test]
fn startup_constants_match_the_design() {
    assert_eq!(RELATIONAL_POOL_MAX_CONNECTIONS, 10);
    assert_eq!(document_store_app_name(), "rust-backend");
}
