use scalar_codegen::decl::Field;
use scalar_codegen::decl::Shape;
use scalar_codegen::decl::TypeDeclaration;
use scalar_codegen::harness::ComparisonOutcome;
use scalar_codegen::harness::RunOutcome;
use scalar_codegen::harness::compare;
use scalar_codegen::harness::finish_case;
use scalar_codegen::harness::start_case;
use scalar_codegen::normalize::NormalizeError;
use scalar_codegen::normalize::normalize_identity;
use scalar_codegen::snapshot::SnapshotStore;
use scalar_codegen::validate::Reason;

fn datetime_decl() -> TypeDeclaration {
    TypeDeclaration {
        name: "DateTime".to_string(),
        shape: Shape::Record,
        fields: vec![Field { name: None, ty: "String".to_string() }],
        generics: Vec::new(),
    }
}

fn pair_decl() -> TypeDeclaration {
    TypeDeclaration {
        name: "Pair".to_string(),
        shape: Shape::Record,
        fields: vec![
            Field { name: None, ty: "String".to_string() },
            Field { name: None, ty: "String".to_string() },
        ],
        generics: Vec::new(),
    }
}

#[test]
fn compare_equal_baseline_matches() {
    let baseline = "impl A {}".to_string();
    let r = compare("impl A {}".to_string(), Some(&baseline));
    assert_eq!(r, ComparisonOutcome::Match);
}

#[test]
fn compare_differing_baseline_carries_both_texts() {
    let baseline = "expected text".to_string();
    let r = compare("actual text".to_string(), Some(&baseline));
    assert_eq!(
        r,
        ComparisonOutcome::Mismatch("expected text".to_string(), "actual text".to_string())
    );
}

#[test]
fn compare_without_baseline_carries_actual() {
    let r = compare("fresh text".to_string(), None);
    assert_eq!(r, ComparisonOutcome::NoBaseline("fresh text".to_string()));
}

#[test]
fn start_case_eligible_yields_fragment() {
    let fragment = start_case(&datetime_decl()).unwrap();
    assert!(fragment.text().contains("impl FromValue for DateTime"));
}

#[test]
fn start_case_rejection_short_circuits() {
    let r = start_case(&pair_decl());
    assert_eq!(
        r.unwrap_err(),
        RunOutcome::FailedValidation(Reason::WrongFieldCount(2))
    );
}

#[test]
fn scalar_wrapper_case_matches_stored_baseline() {
    let mut store = SnapshotStore::new();
    let case_name = "scalar_wrapper".to_string();

    let fragment = start_case(&datetime_decl()).unwrap();
    let formatted = normalize_identity(fragment.into_text());
    store.accept(case_name.clone(), formatted.clone());

    let fragment = start_case(&datetime_decl()).unwrap();
    let formatted = normalize_identity(fragment.into_text());
    let outcome = finish_case(Ok(formatted), store.lookup(&case_name));
    assert_eq!(outcome, RunOutcome::Compared(ComparisonOutcome::Match));
}

#[test]
fn changed_output_is_reported_as_mismatch() {
    let mut store = SnapshotStore::new();
    let case_name = "scalar_wrapper".to_string();
    store.accept(case_name.clone(), "stale baseline".to_string());

    let fragment = start_case(&datetime_decl()).unwrap();
    let actual = fragment.into_text();
    let outcome = finish_case(Ok(actual.clone()), store.lookup(&case_name));
    assert_eq!(
        outcome,
        RunOutcome::Compared(ComparisonOutcome::Mismatch("stale baseline".to_string(), actual))
    );
}

#[test]
fn unavailable_normalizer_fails_every_pending_case() {
    let store = SnapshotStore::new();
    let pending = vec![datetime_decl(), datetime_decl(), datetime_decl()];
    for decl in &pending {
        let name = "scalar_wrapper".to_string();
        let _fragment = start_case(decl).unwrap();
        let outcome = finish_case(Err(NormalizeError::SpawnFailed), store.lookup(&name));
        assert_eq!(outcome, RunOutcome::FailedNormalization(NormalizeError::SpawnFailed));
        assert!(!matches!(outcome, RunOutcome::Compared(_)));
    }
}

#[test]
fn nonzero_exit_is_reported_with_its_code() {
    let outcome = finish_case(Err(NormalizeError::ExitedNonZero(101)), None);
    assert_eq!(outcome, RunOutcome::FailedNormalization(NormalizeError::ExitedNonZero(101)));
}

#[test]
fn identity_normalizer_returns_input_unchanged() {
    let text = "impl A {  }".to_string();
    assert_eq!(normalize_identity(text.clone()), text);
}

#[test]
fn identity_normalizer_is_idempotent() {
    let text = "already formatted".to_string();
    let once = normalize_identity(text.clone());
    let twice = normalize_identity(once.clone());
    assert_eq!(once, twice);
}

#[test]
fn empty_store_has_no_baseline() {
    let store = SnapshotStore::new();
    assert_eq!(store.lookup(&"anything".to_string()), None);
}

#[test]
fn accepted_baseline_is_looked_up() {
    let mut store = SnapshotStore::new();
    store.accept("case_a".to_string(), "text a".to_string());
    store.accept("case_b".to_string(), "text b".to_string());
    assert_eq!(store.lookup(&"case_a".to_string()), Some(&"text a".to_string()));
    assert_eq!(store.lookup(&"case_b".to_string()), Some(&"text b".to_string()));
    assert_eq!(store.lookup(&"case_c".to_string()), None);
}

#[test]
fn accepting_again_overwrites_the_record() {
    let mut store = SnapshotStore::new();
    store.accept("case_a".to_string(), "first".to_string());
    store.accept("case_a".to_string(), "second".to_string());
    assert_eq!(store.lookup(&"case_a".to_string()), Some(&"second".to_string()));
}
