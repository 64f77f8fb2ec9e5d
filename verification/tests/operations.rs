use fedimint_ln_common::{
    ln_operation, LightningCommonGen, OperationError, OperationLogEntry, KIND,
};

fn entry(kind: &str) -> OperationLogEntry {
    OperationLogEntry {
        operation_module_kind: kind.to_owned(),
        meta: r#"{"variant":"pay"}"#.to_owned(),
        outcome: Some("\"success\"".to_owned()),
    }
}

#[test]
fn lightning_operations_are_handed_back() {
    assert_eq!(ln_operation(Some(entry("ln"))), Ok(entry("ln")));
}

#[test]
fn unknown_operations_are_not_found() {
    assert_eq!(ln_operation(None), Err(OperationError::NotFound));
    assert_eq!(OperationError::NotFound.to_string(), "Operation not found");
}

#[test]
fn operations_of_other_modules_are_refused() {
    for kind in ["mint", "", "LN", "ln2", "l"] {
        assert_eq!(ln_operation(Some(entry(kind))), Err(OperationError::NotLightning));
    }
    assert_eq!(
        OperationError::NotLightning.to_string(),
        "Operation is not a lightning operation"
    );
}

#[test]
fn the_module_goes_by_its_kind() {
    assert_eq!(KIND, "ln");
    assert_eq!(LightningCommonGen::KIND, "ln");
    assert_eq!(LightningCommonGen::CONSENSUS_VERSION, 0);
}
