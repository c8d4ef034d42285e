use cbmc_results::format::{
    build_failure_message, count_status, format_item, format_item_regular, format_item_terse,
    format_result, has_description,
};
use cbmc_results::types::{
    CheckStatus, OutputFormat, ParserItem, Property, SourceLocation, TraceItem,
};

fn place(
    file: Option<&str>,
    line: Option<&str>,
    column: Option<&str>,
    function: Option<&str>,
) -> SourceLocation {
    SourceLocation {
        column: column.map(|s| s.to_string()),
        file: file.map(|s| s.to_string()),
        function: function.map(|s| s.to_string()),
        line: line.map(|s| s.to_string()),
    }
}

fn step(source_location: Option<SourceLocation>) -> TraceItem {
    TraceItem { thread: 0, step_type: "assignment".to_string(), hidden: false, source_location }
}

fn entry(
    description: &str,
    property: &str,
    status: CheckStatus,
    source_location: SourceLocation,
) -> Property {
    Property {
        description: description.to_string(),
        property: property.to_string(),
        source_location,
        status,
        reach: None,
        trace: None,
    }
}

fn sample() -> Vec<Property> {
    let mut first = entry(
        "d1",
        "main.assertion.1",
        CheckStatus::Failure,
        place(Some("/w/src/main.rs"), Some("5"), Some("9"), Some("main")),
    );
    first.trace = Some(vec![
        step(None),
        step(Some(place(Some("/w/src/lib.rs"), Some("7"), None, Some("f")))),
    ]);
    vec![
        first,
        entry("d2", "main.overflow.2", CheckStatus::Success, place(None, None, None, None)),
        entry(
            "d3",
            "m.x.3",
            CheckStatus::Undetermined,
            place(None, Some("3"), None, Some("g")),
        ),
        entry(
            "d4",
            "m.x.4",
            CheckStatus::Unreachable,
            place(Some("other.rs"), None, Some("2"), None),
        ),
    ]
}

const REGULAR: &str = "\nRESULTS:\nCheck 1: main.assertion.1\n\t - Status: FAILURE\n\t - Description: \"d1\"\n\t - Location: src/main.rs:5:9 in function main\n\nCheck 2: main.overflow.2\n\t - Status: SUCCESS\n\t - Description: \"d2\"\n\nCheck 3: m.x.3\n\t - Status: UNDETERMINED\n\t - Description: \"d3\"\n\t - Location: Unknown File in function g\n\nCheck 4: m.x.4\n\t - Status: UNREACHABLE\n\t - Description: \"d4\"\n\t - Location: other.rs\n\n\nSUMMARY:\n ** 1 of 4 failed (1 undetermined,1 unreachable)\nFailed Checks: d1\n File: \"/w/src/lib.rs\", line 7, in f\n\nVERIFICATION:- FAILED\n";

const TERSE: &str = "\nVERIFICATION RESULT:\n ** 1 of 4 failed (1 undetermined,1 unreachable)\nFailed Checks: d1\n File: \"/w/src/lib.rs\", line 7, in f\n\nVERIFICATION:- FAILED\n";

#[test]
fn regular_report_lists_every_check() {
    assert_eq!(format_result(&sample(), true, "/w"), REGULAR);
}

#[test]
fn terse_report_is_the_summary_alone() {
    assert_eq!(format_result(&sample(), false, "/w"), TERSE);
}

#[test]
fn report_on_an_empty_batch() {
    assert_eq!(
        format_result(&vec![], false, "/w"),
        "\nVERIFICATION RESULT:\n ** 0 of 0 failed\n\nVERIFICATION:- SUCCESSFUL \n"
    );
    assert_eq!(
        format_result(&vec![], true, "/w"),
        "\nRESULTS:\n\nSUMMARY:\n ** 0 of 0 failed\n\nVERIFICATION:- SUCCESSFUL \n"
    );
}

#[test]
fn report_counts_only_one_other_status() {
    let only_unreachable =
        vec![entry("a", "m.x.1", CheckStatus::Unreachable, place(None, None, None, None))];
    assert_eq!(
        format_result(&only_unreachable, false, "/"),
        "\nVERIFICATION RESULT:\n ** 0 of 1 failed (1 unreachable)\n\nVERIFICATION:- SUCCESSFUL \n"
    );
    let only_undetermined = vec![
        entry("a", "m.x.1", CheckStatus::Undetermined, place(None, None, None, None)),
        entry("b", "m.x.2", CheckStatus::Undetermined, place(None, None, None, None)),
    ];
    assert_eq!(
        format_result(&only_undetermined, false, "/"),
        "\nVERIFICATION RESULT:\n ** 0 of 2 failed (2 undetermined)\n\nVERIFICATION:- SUCCESSFUL \n"
    );
}

#[test]
fn report_numbers_checks_in_decimal() {
    let mut batch = Vec::new();
    for i in 0..12 {
        batch.push(entry(
            &format!("d{}", i),
            "m.x.1",
            CheckStatus::Failure,
            place(None, None, None, None),
        ));
    }
    let report = format_result(&batch, true, "/");
    assert!(report.contains("\nCheck 9: m.x.1\n"));
    assert!(report.contains("\nCheck 10: m.x.1\n"));
    assert!(report.contains("\nCheck 12: m.x.1\n"));
    assert!(!report.contains("Check 13"));
    assert!(report.contains("\n ** 12 of 12 failed\n"));
    assert!(report.contains("Failed Checks: d0\nFailed Checks: d1\n"));
    assert!(report.ends_with("Failed Checks: d11\n\nVERIFICATION:- FAILED\n"));
}

#[test]
fn advisory_lines_follow_the_verdict() {
    let batch = vec![
        entry(
            "x is not currently supported by Kani",
            "m.assertion.1",
            CheckStatus::Failure,
            place(None, None, None, None),
        ),
        entry(
            "unwinding assertion loop 0",
            "m.unwind.1",
            CheckStatus::Failure,
            place(None, None, None, None),
        ),
    ];
    assert_eq!(
        format_result(&batch, false, "/"),
        "\nVERIFICATION RESULT:\n ** 2 of 2 failed\nFailed Checks: x is not currently supported by Kani\nFailed Checks: unwinding assertion loop 0\n\nVERIFICATION:- FAILED\n** WARNING: A Rust construct that is not currently supported by Kani was found to be reachable. Check the results for more details.[Kani] info: Verification output shows one or more unwinding failures.\n[Kani] tip: Consider increasing the unwinding value or disabling `--unwinding-assertions`.\n"
    );
}

#[test]
fn advisory_lines_do_not_depend_on_the_status() {
    let batch = vec![entry(
        "foo is not currently supported by Kani",
        "main.assertion.1",
        CheckStatus::Undetermined,
        place(None, None, None, None),
    )];
    let report = format_result(&batch, false, "/");
    assert!(report.ends_with(
        "** WARNING: A Rust construct that is not currently supported by Kani was found to be reachable. Check the results for more details."
    ));
    assert_eq!(
        report,
        "\nVERIFICATION RESULT:\n ** 0 of 1 failed (1 undetermined)\n\nVERIFICATION:- SUCCESSFUL \n** WARNING: A Rust construct that is not currently supported by Kani was found to be reachable. Check the results for more details."
    );
    for status in [CheckStatus::Success, CheckStatus::Unreachable, CheckStatus::Failure] {
        let batch = vec![entry(
            "unwinding assertion loop 0",
            "main.unwind.1",
            status,
            place(None, None, None, None),
        )];
        assert!(format_result(&batch, true, "/").ends_with(
            "\n[Kani] info: Verification output shows one or more unwinding failures.\n[Kani] tip: Consider increasing the unwinding value or disabling `--unwinding-assertions`.\n"
        ));
    }
}

#[test]
fn no_advisory_lines_without_a_marker() {
    let batch = vec![
        entry("assertion failed: x", "m.assertion.1", CheckStatus::Failure, place(None, None, None, None)),
        entry("is not supported by Kani", "m.assertion.2", CheckStatus::Failure, place(None, None, None, None)),
        entry("unwinding assertion", "m.unwind.1", CheckStatus::Failure, place(None, None, None, None)),
    ];
    assert!(format_result(&batch, false, "/").ends_with("\nVERIFICATION:- FAILED\n"));
    assert!(!has_description(&batch, "unwinding assertion loop"));
    assert!(has_description(&batch, "unwinding assertion"));
    assert!(!has_description(&vec![], ""));
}

#[test]
fn failure_message_without_trace() {
    assert_eq!(build_failure_message("boom".to_string(), &None), "Failed Checks: boom\n");
    assert_eq!(
        build_failure_message("boom".to_string(), &Some(vec![])),
        "Failed Checks: boom\n"
    );
}

#[test]
fn failure_message_uses_the_last_step() {
    let trace = Some(vec![
        step(Some(place(Some("a.rs"), Some("1"), None, Some("first")))),
        step(Some(place(Some("b.rs"), Some("2"), Some("4"), Some("last")))),
    ]);
    assert_eq!(
        build_failure_message("boom".to_string(), &trace),
        "Failed Checks: boom\n File: \"b.rs\", line 2, in last\n"
    );
}

#[test]
fn failure_message_omits_an_incomplete_location() {
    let complete = step(Some(place(Some("a.rs"), Some("1"), None, Some("first"))));
    for last in [
        step(None),
        step(Some(place(None, Some("2"), None, Some("f")))),
        step(Some(place(Some("b.rs"), None, None, Some("f")))),
        step(Some(place(Some("b.rs"), Some("2"), None, None))),
    ] {
        let trace = Some(vec![complete.clone(), last]);
        assert_eq!(build_failure_message("boom".to_string(), &trace), "Failed Checks: boom\n");
    }
}

#[test]
fn count_status_counts() {
    let batch = sample();
    assert_eq!(count_status(&batch, CheckStatus::Failure), 1);
    assert_eq!(count_status(&batch, CheckStatus::Success), 1);
    assert_eq!(count_status(&batch, CheckStatus::Undetermined), 1);
    assert_eq!(count_status(&vec![], CheckStatus::Failure), 0);
}

#[test]
fn status_words() {
    assert_eq!(CheckStatus::Success.to_string(), "SUCCESS");
    assert_eq!(CheckStatus::Failure.to_string(), "FAILURE");
    assert_eq!(CheckStatus::Unreachable.to_string(), "UNREACHABLE");
    assert_eq!(CheckStatus::Undetermined.to_string(), "UNDETERMINED");
}

#[test]
fn location_text() {
    assert_eq!(
        place(Some("/w/a/b.rs"), Some("1"), Some("2"), Some("f")).to_string("/w"),
        "a/b.rs:1:2 in function f"
    );
    assert_eq!(place(Some("/w/a/b.rs"), Some("1"), None, None).to_string("/w"), "a/b.rs:1");
    assert_eq!(place(Some("/w/a/b.rs"), None, Some("2"), None).to_string("/w"), "a/b.rs");
    assert_eq!(place(Some("/w/a/b.rs"), None, None, None).to_string("/w/a/c"), "../b.rs");
    assert_eq!(place(None, Some("1"), Some("2"), None).to_string("/w"), "Unknown File");
    assert_eq!(
        place(None, None, None, Some("f")).to_string("/w"),
        "Unknown File in function f"
    );
    assert_eq!(place(Some("rel.rs"), None, None, None).to_string("/w"), "rel.rs");
}

#[test]
fn location_is_missing_without_file_and_function() {
    assert!(place(None, Some("1"), Some("2"), None).is_missing());
    assert!(!place(Some("a.rs"), None, None, None).is_missing());
    assert!(!place(None, None, None, Some("f")).is_missing());
}

#[test]
fn items_in_the_regular_format() {
    let program = ParserItem::Program { program: "CBMC 5.60".to_string() };
    let message = ParserItem::Message {
        message_text: "Starting".to_string(),
        message_type: "STATUS-MESSAGE".to_string(),
    };
    let status = ParserItem::ProverStatus { _c_prover_status: "failure".to_string() };
    let result = ParserItem::Result { result: sample() };
    assert_eq!(format_item_regular(&program, "/w"), Some("CBMC 5.60".to_string()));
    assert_eq!(format_item_regular(&message, "/w"), Some("Starting".to_string()));
    assert_eq!(format_item_regular(&status, "/w"), None);
    assert_eq!(format_item_regular(&result, "/w"), Some(REGULAR.to_string()));
    assert_eq!(format_item(&result, &OutputFormat::Regular, "/w"), Some(REGULAR.to_string()));
    assert_eq!(
        format_item(&program, &OutputFormat::Regular, "/w"),
        Some("CBMC 5.60".to_string())
    );
}

#[test]
fn items_in_the_terse_format() {
    let program = ParserItem::Program { program: "CBMC 5.60".to_string() };
    let message = ParserItem::Message {
        message_text: "Starting".to_string(),
        message_type: "STATUS-MESSAGE".to_string(),
    };
    let status = ParserItem::ProverStatus { _c_prover_status: "failure".to_string() };
    let result = ParserItem::Result { result: sample() };
    assert_eq!(format_item_terse(&program, "/w"), None);
    assert_eq!(format_item_terse(&message, "/w"), None);
    assert_eq!(format_item_terse(&status, "/w"), None);
    assert_eq!(format_item_terse(&result, "/w"), Some(TERSE.to_string()));
    assert_eq!(format_item(&result, &OutputFormat::Terse, "/w"), Some(TERSE.to_string()));
    assert_eq!(format_item(&message, &OutputFormat::Terse, "/w"), None);
}

#[test]
fn items_as_they_came() {
    assert_eq!(ParserItem::Program { program: "CBMC".to_string() }.to_string(), "CBMC");
    assert_eq!(
        ParserItem::Message { message_text: "hi".to_string(), message_type: "X".to_string() }
            .to_string(),
        "hi"
    );
    assert_eq!(ParserItem::Result { result: vec![] }.to_string(), "Not implemented!");
    assert_eq!(
        ParserItem::ProverStatus { _c_prover_status: "s".to_string() }.to_string(),
        "Not implemented!"
    );
}
