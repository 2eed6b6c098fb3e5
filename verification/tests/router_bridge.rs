use federation_rs::keyed::KeyedMap;
use federation_rs::router_bridge::api_schema::{api_schema, ApiSchemaError};
use federation_rs::router_bridge::js::{
    expanded_heap_limit, heap_size_setting, parameter_script_name, runtime_error_message,
    unrecognised_flags, v8_flags,
};
use federation_rs::router_bridge::planner::{
    setup_error, setup_outcome, BridgeSetupResult, PlanError, PlanErrorExtensions, PlanErrors,
    PlanResult, PlannerError, QueryPlanOptions, QueryPlannerConfig, UsageReporting, WorkerError,
};
use federation_rs::router_bridge::pool::{choice_of_two, pick_of_draws};
use federation_rs::router_bridge::validate::{validate, ValidationError};
use std::sync::Arc;

fn usage() -> UsageReporting {
    UsageReporting { stats_report_key: "key".to_string(), referenced_fields_by_type: KeyedMap::new() }
}

#[test]
fn plan_error_code_and_text() {
    let e = PlanError { message: Some("bad".to_string()), extensions: None };
    assert_eq!(e.code(), "UNKNOWN");
    assert_eq!(e.to_text(), "UNKNOWN: bad");
    let e = PlanError {
        message: None,
        extensions: Some(PlanErrorExtensions { code: "E_TEST_CASE".to_string(), exception: None }),
    };
    assert_eq!(e.code(), "E_TEST_CASE");
    assert_eq!(e.to_text(), "E_TEST_CASE");
}

#[test]
fn worker_error_without_message_is_unknown() {
    let e = WorkerError { message: None, name: None, stack: None, extensions: None, locations: vec![] };
    assert_eq!(PlannerError::from(e).to_text(), "unknown error");
}

#[test]
fn plan_result_with_data_succeeds() {
    let r: PlanResult<u32> = PlanResult { data: Some(7), usage_reporting: usage(), errors: None };
    let s = r.into_result().ok().unwrap();
    assert_eq!(s.data, 7);
    assert_eq!(s.usage_reporting.stats_report_key, "key");
}

#[test]
fn plan_result_without_data_or_errors_fails_unknown() {
    let r: PlanResult<u32> = PlanResult { data: None, usage_reporting: usage(), errors: None };
    let e = r.into_result().err().unwrap();
    assert_eq!(e.errors.len(), 1);
    assert_eq!(e.errors[0].message.as_deref(), Some("an unknown error occured"));
    assert_eq!(e.to_text(), "query validation errors: an unknown error occured");
}

#[test]
fn plan_errors_text_lists_messages() {
    let e = PlanErrors {
        errors: Arc::new(vec![
            PlanError { message: Some("a".to_string()), extensions: None },
            PlanError { message: None, extensions: None },
        ]),
        usage_reporting: usage(),
    };
    assert_eq!(e.to_text(), "query validation errors: a, UNKNWON ERROR");
}

#[test]
fn defaults() {
    assert!(!QueryPlanOptions::default().auto_fragmentization);
    let c = QueryPlannerConfig::default();
    assert_eq!(c.incremental_delivery.unwrap().enable_defer, Some(false));
}

#[test]
fn setup_outcomes() {
    let failed: Result<BridgeSetupResult<u8>, String> = Err("down".to_string());
    let errors = setup_outcome(failed).err().unwrap();
    assert_eq!(errors.len(), 1);
    match &errors[0] {
        PlannerError::WorkerError(w) => {
            assert_eq!(w.name.as_deref(), Some("planner setup error"));
            assert_eq!(w.message.as_deref(), Some("down"));
        }
        _ => panic!("expected a worker error"),
    }
    let ok: Result<BridgeSetupResult<u8>, String> = Ok(BridgeSetupResult { data: Some(1), errors: None });
    assert!(setup_outcome(ok).is_ok());
    let refused: Result<BridgeSetupResult<u8>, String> =
        Ok(BridgeSetupResult { data: None, errors: Some(vec![setup_error("x".to_string())]) });
    assert_eq!(setup_outcome(refused).err().unwrap().len(), 1);
}

#[test]
fn scripts_carry_json_parameters() {
    let js = api_schema("type Query { a: Int }").ok().unwrap();
    assert_eq!(js.name(), "api_schema");
    assert_eq!(js.parameter_count(), 1);
    assert_eq!(js.parameter_at(0), ("sdl", "sdl = \"type Query { a: Int }\""));
    let js = api_schema("a\"b\nc").ok().unwrap();
    assert_eq!(js.parameter_at(0).1, "sdl = \"a\\\"b\\nc\"");
    let js = validate("type Query", "{ me }").ok().unwrap();
    assert_eq!(js.name(), "validate");
    assert_eq!(js.parameter_at(1), ("query", "query = \"{ me }\""));
}

#[test]
fn error_texts_default_to_unknown() {
    assert_eq!(ApiSchemaError { message: None }.to_text(), "UNKNOWN");
    assert_eq!(ValidationError { message: Some("m".to_string()) }.to_text(), "m");
}

#[test]
fn runtime_settings() {
    assert_eq!(heap_size_setting(None), "256");
    assert_eq!(heap_size_setting(Some("512".to_string())), "512");
    assert_eq!(v8_flags("256".to_string()), vec!["--ignored", "--max-heap-size", "256"]);
    assert_eq!(
        unrecognised_flags(vec!["--ignored".to_string(), "--bogus".to_string()]),
        vec!["--bogus".to_string()]
    );
    assert_eq!(expanded_heap_limit(400), 500);
    assert_eq!(parameter_script_name("sdl"), "<sdl>");
    assert_eq!(
        runtime_error_message("do_x", "boom"),
        "unable to invoke `do_x` in JavaScript runtime \n error: \n boom"
    );
}

#[test]
fn the_less_loaded_of_two_workers_is_chosen() {
    let loads = vec![5, 0];
    for _ in 0..20 {
        assert_eq!(choice_of_two(&loads), 1);
    }
    let loads = vec![3, 1, 2];
    for _ in 0..20 {
        assert!(choice_of_two(&loads) < 3);
        assert_ne!(choice_of_two(&loads), 0);
    }
}

#[test]
fn draws_choose_the_less_loaded_worker() {
    let loads = vec![5, 2, 9, 2];
    // first draw 0, second draw 0 among the others: worker 1.
    assert_eq!(pick_of_draws(&loads, 0, 0), 1);
    // first draw 2, second draw 2 among the others: worker 3.
    assert_eq!(pick_of_draws(&loads, 2, 2), 3);
    // first draw 3, second draw 1: worker 1; equal loads go to the second.
    assert_eq!(pick_of_draws(&loads, 3, 1), 1);
    // first draw 1, second draw 1 among the others: worker 2, the first wins.
    assert_eq!(pick_of_draws(&loads, 1, 1), 1);
}
