use cbmc_results::errors::{FatalKind, PostprocessError};
use cbmc_results::format::format_result;
use cbmc_results::postprocess::{
    annotate_properties_with_reach_results, determine_result, filter_properties,
    filter_ptr_checks, filter_reach_checks, filter_sanity_checks, final_changes,
    has_check_failures, modify_undefined_function_checks, postprocess_result,
    remove_check_ids_from_description,
};
use cbmc_results::types::{CheckStatus, Property, SourceLocation};

fn nowhere() -> SourceLocation {
    SourceLocation { column: None, file: None, function: None, line: None }
}

fn in_file(file: &str) -> SourceLocation {
    SourceLocation {
        column: None,
        file: Some(file.to_string()),
        function: Some("main".to_string()),
        line: Some("3".to_string()),
    }
}

fn check(description: &str, property: &str, status: CheckStatus) -> Property {
    Property {
        description: description.to_string(),
        property: property.to_string(),
        source_location: in_file("src/main.rs"),
        status,
        reach: None,
        trace: None,
    }
}

fn marker(id: &str, status: CheckStatus) -> Property {
    check(
        &format!("[KANI_REACHABILITY_CHECK] {}", id),
        "main.reachability_check.1",
        status,
    )
}

fn descriptions(checks: &Vec<Property>) -> Vec<String> {
    checks.iter().map(|p| p.description.clone()).collect()
}

#[test]
fn array_bounds_failure_gets_its_alias() {
    let batch = vec![check(
        "array 'buf' upper bound in buf[(signed long int)i]",
        "main.array_bounds.2",
        CheckStatus::Failure,
    )];
    let (checks, verdict) = postprocess_result(batch, false).unwrap();
    assert_eq!(checks.len(), 1);
    assert_eq!(
        checks[0].description,
        "index out of bounds: the length is less than or equal to the given index"
    );
    assert_eq!(checks[0].status, CheckStatus::Failure);
    assert!(!verdict);
    let report = format_result(&checks, false, "/");
    assert!(report.contains("1 of 1 failed"));
    assert_eq!(
        report,
        "\nVERIFICATION RESULT:\n ** 1 of 1 failed\nFailed Checks: index out of bounds: the length is less than or equal to the given index\n\nVERIFICATION:- FAILED\n"
    );
}

#[test]
fn passed_sanity_check_is_removed() {
    let batch = vec![check("sanity", "main.sanity_check.1", CheckStatus::Success)];
    let (checks, verdict) = postprocess_result(batch, false).unwrap();
    assert_eq!(checks.len(), 0);
    assert!(verdict);
}

#[test]
fn check_at_unreachable_location_becomes_unreachable() {
    let batch = vec![
        marker("KANI_CHECK_ID_R1_1", CheckStatus::Success),
        check(
            "[KANI_CHECK_ID_R1_1] assertion failed: x > 0",
            "main.assertion.1",
            CheckStatus::Success,
        ),
    ];
    let (checks, verdict) = postprocess_result(batch, false).unwrap();
    assert_eq!(checks.len(), 1);
    assert_eq!(checks[0].status, CheckStatus::Unreachable);
    assert_eq!(checks[0].reach, Some(CheckStatus::Success));
    assert_eq!(checks[0].description, "assertion failed: x > 0");
    assert!(verdict);
}

#[test]
fn unsupported_construct_makes_passes_undetermined() {
    let batch = vec![
        check(
            "ptr_mask is not currently supported by Kani",
            "main.assertion.1",
            CheckStatus::Failure,
        ),
        check("assertion failed: y == 2", "main.assertion.2", CheckStatus::Success),
    ];
    let (checks, verdict) = postprocess_result(batch, false).unwrap();
    assert_eq!(checks.len(), 2);
    assert_eq!(checks[0].status, CheckStatus::Failure);
    assert_eq!(checks[1].status, CheckStatus::Undetermined);
    assert!(!verdict);
    let report = format_result(&checks, true, "/");
    assert!(report.contains(
        "** WARNING: A Rust construct that is not currently supported by Kani was found to be reachable. Check the results for more details."
    ));
    assert!(report.contains(" ** 1 of 2 failed (1 undetermined)\n"));
}

#[test]
fn final_count_never_exceeds_input_count() {
    let batch = vec![
        marker("KANI_CHECK_ID_a_1", CheckStatus::Failure),
        check("[KANI_CHECK_ID_a_1] assertion failed: a", "main.assertion.1", CheckStatus::Failure),
        check("housekeeping", "main.sanity_check.1", CheckStatus::Success),
        check("pointer NULL", "main.pointer_arithmetic.1", CheckStatus::Success),
        check("division by zero", "main.division-by-zero.1", CheckStatus::Success),
    ];
    let (checks, _) = postprocess_result(batch.clone(), false).unwrap();
    assert_eq!(checks.len(), 2);
    assert!(checks.len() <= batch.len());
    let (checks, _) = postprocess_result(batch.clone(), true).unwrap();
    assert_eq!(checks.len(), 3);
    assert!(checks.len() <= batch.len());
}

#[test]
fn final_checks_keep_input_order() {
    let batch = vec![
        check("first", "main.assertion.1", CheckStatus::Success),
        marker("KANI_CHECK_ID_a_1", CheckStatus::Failure),
        check("second", "main.assertion.2", CheckStatus::Failure),
        check("housekeeping", "main.sanity_check.1", CheckStatus::Success),
        check("third", "main.assertion.3", CheckStatus::Success),
    ];
    let (checks, verdict) = postprocess_result(batch, false).unwrap();
    assert_eq!(descriptions(&checks), vec!["first", "second", "third"]);
    assert!(!verdict);
}

#[test]
fn correlation_is_independent_of_position() {
    let real = check(
        "[KANI_CHECK_ID_X_7] assertion failed: z",
        "main.assertion.1",
        CheckStatus::Success,
    );
    let mark = marker("KANI_CHECK_ID_X_7", CheckStatus::Success);
    let (first, _) = postprocess_result(vec![mark.clone(), real.clone()], false).unwrap();
    let (second, _) = postprocess_result(vec![real, mark], false).unwrap();
    assert_eq!(first.len(), 1);
    assert_eq!(second.len(), 1);
    assert_eq!(first[0].reach, Some(CheckStatus::Success));
    assert_eq!(second[0].reach, Some(CheckStatus::Success));
    assert_eq!(first[0].status, CheckStatus::Unreachable);
    assert_eq!(second[0].status, CheckStatus::Unreachable);
}

#[test]
fn reach_reflects_the_marker_status() {
    let batch = vec![
        check("[KANI_CHECK_ID_m_1] assertion failed: a", "main.assertion.1", CheckStatus::Failure),
        check("[KANI_CHECK_ID_m_2] assertion failed: b", "main.assertion.2", CheckStatus::Success),
        check("[KANI_CHECK_ID_m_3] assertion failed: c", "main.assertion.3", CheckStatus::Success),
        check("assertion failed: d", "main.assertion.4", CheckStatus::Success),
        marker("KANI_CHECK_ID_m_2", CheckStatus::Success),
        marker("KANI_CHECK_ID_m_1", CheckStatus::Failure),
    ];
    let (checks, verdict) = postprocess_result(batch, false).unwrap();
    assert_eq!(checks.len(), 4);
    assert_eq!(checks[0].reach, Some(CheckStatus::Failure));
    assert_eq!(checks[0].status, CheckStatus::Failure);
    assert_eq!(checks[1].reach, Some(CheckStatus::Success));
    assert_eq!(checks[1].status, CheckStatus::Unreachable);
    assert_eq!(checks[2].reach, None);
    assert_eq!(checks[2].status, CheckStatus::Success);
    assert_eq!(checks[3].reach, None);
    assert_eq!(
        descriptions(&checks),
        vec![
            "assertion failed: a",
            "assertion failed: b",
            "assertion failed: c",
            "assertion failed: d"
        ]
    );
    assert!(!verdict);
}

#[test]
fn pointer_checks_are_dropped_without_the_flag() {
    let batch = vec![
        check("pointer relation: dead object", "main.pointer_arithmetic.1", CheckStatus::Failure),
        check("dead object", "main.pointer_primitives.4", CheckStatus::Success),
        check("dereference failure: pointer NULL", "main.pointer_dereference.1", CheckStatus::Success),
        check("anything", "main.my_pointer_primitives_x.1", CheckStatus::Success),
    ];
    let (checks, verdict) = postprocess_result(batch.clone(), false).unwrap();
    assert_eq!(descriptions(&checks), vec!["dereference failure: pointer NULL"]);
    assert!(verdict);
    let (checks, verdict) = postprocess_result(batch, true).unwrap();
    assert_eq!(
        descriptions(&checks),
        vec![
            "pointer relation: dead object",
            "pointer to dead object",
            "dereference failure: pointer NULL",
            "anything"
        ]
    );
    assert!(!verdict);
}

#[test]
fn verdict_is_false_exactly_with_a_failure() {
    let pass = check("a", "main.assertion.1", CheckStatus::Success);
    let fail = check("b", "main.assertion.2", CheckStatus::Failure);
    let unknown = check("c", "main.assertion.3", CheckStatus::Undetermined);
    let dead = check("d", "main.assertion.4", CheckStatus::Unreachable);
    assert!(determine_result(&vec![]));
    assert!(determine_result(&vec![pass.clone(), unknown.clone(), dead.clone()]));
    assert!(!determine_result(&vec![pass.clone(), fail.clone()]));
    let (_, verdict) = postprocess_result(vec![pass.clone(), unknown, dead], false).unwrap();
    assert!(verdict);
    let (_, verdict) = postprocess_result(vec![pass, fail], false).unwrap();
    assert!(!verdict);
}

#[test]
fn promotion_and_forced_undetermined() {
    let mut reached = check("x", "main.assertion.1", CheckStatus::Success);
    reached.reach = Some(CheckStatus::Success);
    let promoted = final_changes(vec![reached.clone()], false).unwrap();
    assert_eq!(promoted[0].status, CheckStatus::Unreachable);
    let forced = final_changes(vec![reached], true).unwrap();
    assert_eq!(forced[0].status, CheckStatus::Undetermined);
}

#[test]
fn forced_undetermined_leaves_other_statuses() {
    let batch = vec![
        check("a", "main.assertion.1", CheckStatus::Failure),
        check("b", "main.assertion.2", CheckStatus::Unreachable),
        check("c", "main.assertion.3", CheckStatus::Undetermined),
        check("d", "main.assertion.4", CheckStatus::Success),
    ];
    let out = final_changes(batch, true).unwrap();
    assert_eq!(out[0].status, CheckStatus::Failure);
    assert_eq!(out[1].status, CheckStatus::Unreachable);
    assert_eq!(out[2].status, CheckStatus::Undetermined);
    assert_eq!(out[3].status, CheckStatus::Undetermined);
}

#[test]
fn unwinding_failure_makes_passes_undetermined() {
    let batch = vec![
        check("unwinding assertion loop 0", "main.unwind.1", CheckStatus::Failure),
        check("assertion failed: y", "main.assertion.2", CheckStatus::Success),
    ];
    let (checks, verdict) = postprocess_result(batch, false).unwrap();
    assert_eq!(checks[1].status, CheckStatus::Undetermined);
    assert!(!verdict);
    let report = format_result(&checks, false, "/");
    assert!(report.ends_with(
        "[Kani] info: Verification output shows one or more unwinding failures.\n[Kani] tip: Consider increasing the unwinding value or disabling `--unwinding-assertions`.\n"
    ));
}

#[test]
fn passed_marker_texts_raise_no_flag() {
    let batch = vec![
        check("unwinding assertion loop 0", "main.unwind.1", CheckStatus::Success),
        check("foo is not currently supported by Kani", "main.assertion.2", CheckStatus::Success),
    ];
    assert!(!has_check_failures(&batch, "unwinding assertion loop"));
    assert!(!has_check_failures(&batch, "is not currently supported by Kani"));
    let (checks, verdict) = postprocess_result(batch, false).unwrap();
    assert_eq!(checks[0].status, CheckStatus::Success);
    assert_eq!(checks[1].status, CheckStatus::Success);
    assert!(verdict);
}

#[test]
fn undefined_function_check_is_rewritten() {
    let mut undefined = check("assertion false", "foo.assertion.1", CheckStatus::Failure);
    undefined.source_location = nowhere();
    let mut located = check("assertion false", "foo.assertion.2", CheckStatus::Failure);
    located.source_location = in_file("lib.rs");
    let mut other_class = check("assertion false", "foo.overflow.1", CheckStatus::Failure);
    other_class.source_location = nowhere();
    let mut longer = check("assertion false positive", "foo.assertion.3", CheckStatus::Failure);
    longer.source_location = nowhere();
    let (out, failed) =
        modify_undefined_function_checks(vec![undefined, located, other_class, longer]).unwrap();
    assert!(failed);
    assert_eq!(
        descriptions(&out),
        vec![
            "Function with missing definition is unreachable",
            "assertion false",
            "assertion false",
            "assertion false positive"
        ]
    );
}

#[test]
fn undefined_function_check_that_passed_raises_no_flag() {
    let mut undefined = check("assertion false", "foo.assertion.1", CheckStatus::Success);
    undefined.source_location = nowhere();
    let (out, failed) = modify_undefined_function_checks(vec![undefined.clone()]).unwrap();
    assert!(!failed);
    assert_eq!(out[0].description, "Function with missing definition is unreachable");
    let pass = check("assertion failed: y", "main.assertion.2", CheckStatus::Success);
    let (checks, verdict) = postprocess_result(vec![undefined, pass], false).unwrap();
    assert_eq!(checks[1].status, CheckStatus::Success);
    assert!(verdict);
}

#[test]
fn failed_undefined_function_check_is_a_fundamental_failure() {
    let mut undefined = check("assertion false", "foo.assertion.1", CheckStatus::Failure);
    undefined.source_location = nowhere();
    let pass = check("assertion failed: y", "main.assertion.2", CheckStatus::Success);
    let (checks, verdict) = postprocess_result(vec![undefined, pass], false).unwrap();
    assert_eq!(checks[0].description, "Function with missing definition is unreachable");
    assert_eq!(checks[1].status, CheckStatus::Undetermined);
    assert!(!verdict);
}

#[test]
fn filter_properties_splits_in_order() {
    let batch = vec![
        check("a mark", "m.assertion.1", CheckStatus::Success),
        check("b", "m.assertion.2", CheckStatus::Success),
        check("mark c", "m.assertion.3", CheckStatus::Success),
        check("d", "m.assertion.4", CheckStatus::Success),
    ];
    let (without, with) = filter_properties(batch, "mark");
    assert_eq!(descriptions(&without), vec!["b", "d"]);
    assert_eq!(descriptions(&with), vec!["a mark", "mark c"]);
}

#[test]
fn filter_reach_checks_sets_markers_apart() {
    let batch = vec![
        marker("KANI_CHECK_ID_a_1", CheckStatus::Success),
        check("real", "m.assertion.2", CheckStatus::Success),
    ];
    let (real, markers) = filter_reach_checks(batch);
    assert_eq!(descriptions(&real), vec!["real"]);
    assert_eq!(descriptions(&markers), vec!["[KANI_REACHABILITY_CHECK] KANI_CHECK_ID_a_1"]);
}

#[test]
fn failed_sanity_check_is_kept() {
    let batch = vec![
        check("s1", "m.sanity_check.1", CheckStatus::Failure),
        check("s2", "m.sanity_check.2", CheckStatus::Success),
        check("s3", "m.sanity_check.3", CheckStatus::Undetermined),
        check("s4", "m.sanity_checks.4", CheckStatus::Success),
    ];
    let out = filter_sanity_checks(batch).unwrap();
    assert_eq!(descriptions(&out), vec!["s1", "s3", "s4"]);
}

#[test]
fn strip_removes_the_token_once() {
    let batch = vec![
        check("[KANI_CHECK_ID_a.b_12] assertion failed: x", "m.assertion.1", CheckStatus::Success),
        check("no token here", "m.assertion.2", CheckStatus::Success),
        check("pre [KANI_CHECK_ID_foo_3] post", "m.assertion.3", CheckStatus::Success),
    ];
    let once = remove_check_ids_from_description(batch).unwrap();
    assert_eq!(
        descriptions(&once),
        vec!["assertion failed: x", "no token here", "pre post"]
    );
    let twice = remove_check_ids_from_description(once.clone()).unwrap();
    assert_eq!(descriptions(&twice), descriptions(&once));
}

#[test]
fn strip_takes_one_token_per_line_of_text() {
    let batch = vec![check(
        "[KANI_CHECK_ID_a_1] x\n[KANI_CHECK_ID_b_2] y",
        "m.assertion.1",
        CheckStatus::Success,
    )];
    let once = remove_check_ids_from_description(batch).unwrap();
    assert_eq!(once[0].description, "x\n[KANI_CHECK_ID_b_2] y");
    let twice = remove_check_ids_from_description(once).unwrap();
    assert_eq!(twice[0].description, "x\ny");
}

#[test]
fn annotate_sets_reach_from_markers() {
    let reals = vec![
        check("[KANI_CHECK_ID_a_1] x", "m.assertion.1", CheckStatus::Success),
        check("[KANI_CHECK_ID_a_2] y", "m.assertion.2", CheckStatus::Success),
        check("z", "m.assertion.3", CheckStatus::Success),
    ];
    let markers = vec![marker("KANI_CHECK_ID_a_1", CheckStatus::Failure)];
    let out = annotate_properties_with_reach_results(reals, markers).unwrap();
    assert_eq!(out[0].reach, Some(CheckStatus::Failure));
    assert_eq!(out[1].reach, None);
    assert_eq!(out[2].reach, None);
    assert_eq!(out[0].description, "[KANI_CHECK_ID_a_1] x");
}

#[test]
fn token_must_match_exactly() {
    let reals = vec![check("[KANI_CHECK_ID_a_11] x", "m.assertion.1", CheckStatus::Success)];
    let markers = vec![marker("KANI_CHECK_ID_a_1", CheckStatus::Success)];
    let out = annotate_properties_with_reach_results(reals, markers).unwrap();
    assert_eq!(out[0].reach, None);
}

#[test]
fn error_malformed_property() {
    let batch = vec![check("x", "nodots", CheckStatus::Success)];
    let err = postprocess_result(batch.clone(), false).unwrap_err();
    assert_eq!(err, PostprocessError::MalformedProperty);
    assert_eq!(err.kind(), FatalKind::MalformedItem);
    assert_eq!(
        modify_undefined_function_checks(batch.clone()).unwrap_err(),
        PostprocessError::MalformedProperty
    );
    assert_eq!(filter_sanity_checks(batch.clone()).unwrap_err(), PostprocessError::MalformedProperty);
    assert_eq!(filter_ptr_checks(batch.clone()).unwrap_err(), PostprocessError::MalformedProperty);
    assert_eq!(final_changes(batch, true).unwrap_err(), PostprocessError::MalformedProperty);
}

#[test]
fn error_malformed_marker_id() {
    let mut mark = marker("KANI_CHECK_ID_a_1", CheckStatus::Success);
    mark.property = "".to_string();
    let batch = vec![mark, check("x", "m.assertion.1", CheckStatus::Success)];
    assert_eq!(
        postprocess_result(batch, true).unwrap_err(),
        PostprocessError::MalformedProperty
    );
}

#[test]
fn error_missing_check_id() {
    let batch = vec![
        check("[KANI_REACHABILITY_CHECK] nothing", "m.reach.1", CheckStatus::Success),
        check("x", "m.assertion.1", CheckStatus::Success),
    ];
    let err = postprocess_result(batch, false).unwrap_err();
    assert_eq!(err, PostprocessError::MissingCheckId);
    assert_eq!(err.kind(), FatalKind::MalformedItem);
}

#[test]
fn error_duplicate_check_id() {
    let batch = vec![
        marker("KANI_CHECK_ID_a_1", CheckStatus::Success),
        check("x", "m.assertion.1", CheckStatus::Success),
        marker("KANI_CHECK_ID_a_1", CheckStatus::Failure),
    ];
    let err = postprocess_result(batch, false).unwrap_err();
    assert_eq!(err, PostprocessError::DuplicateCheckId);
    assert_eq!(err.kind(), FatalKind::InvariantViolation);
}

#[test]
fn error_inconsistent_reach() {
    let batch = vec![
        marker("KANI_CHECK_ID_a_1", CheckStatus::Success),
        check("[KANI_CHECK_ID_a_1] x", "m.assertion.1", CheckStatus::Failure),
    ];
    let err = postprocess_result(batch, false).unwrap_err();
    assert_eq!(err, PostprocessError::InconsistentReach);
    assert_eq!(err.kind(), FatalKind::InvariantViolation);
}

#[test]
fn inconsistent_reach_is_no_error_under_a_fundamental_failure() {
    let batch = vec![
        marker("KANI_CHECK_ID_a_1", CheckStatus::Success),
        check("[KANI_CHECK_ID_a_1] x", "m.assertion.1", CheckStatus::Failure),
        check("unwinding assertion loop 0", "m.unwind.1", CheckStatus::Failure),
    ];
    let (checks, verdict) = postprocess_result(batch, false).unwrap();
    assert_eq!(checks.len(), 2);
    assert_eq!(checks[0].status, CheckStatus::Failure);
    assert!(!verdict);
}

#[test]
fn inconsistent_pointer_check_is_dropped_before_it_counts() {
    let batch = vec![
        marker("KANI_CHECK_ID_a_1", CheckStatus::Success),
        check("[KANI_CHECK_ID_a_1] dead object", "m.pointer_primitives.1", CheckStatus::Failure),
    ];
    let (checks, verdict) = postprocess_result(batch.clone(), false).unwrap();
    assert_eq!(checks.len(), 0);
    assert!(verdict);
    assert_eq!(
        postprocess_result(batch, true).unwrap_err(),
        PostprocessError::InconsistentReach
    );
}

#[test]
fn empty_batch_passes() {
    let (checks, verdict) = postprocess_result(vec![], false).unwrap();
    assert_eq!(checks.len(), 0);
    assert!(verdict);
}
