//! The report: every check in turn, the summary, the failed checks and the
//! verdict, as text.

use vstd::prelude::*;
use vstd::string::*;
use crate::markers::{UNSUPPORTED_CONSTRUCT_DESC, UNWINDING_ASSERT_DESC};
use crate::paths::{filepath, relative_path, shown_path};
use crate::text::{contains, decimal, decimal_string, str_contains};
use crate::types::{
    CheckStatus, OutputFormat, ParserItem, ParserItemView, Property, PropertyView, SourceLocation,
    SourceLocationView, TraceItem, TraceItemView,
};

verus! {

/// The word that stands for a status in the report.
pub open spec fn status_text(status: CheckStatus) -> Seq<char> {
    match status {
        CheckStatus::Success => "SUCCESS"@,
        CheckStatus::Failure => "FAILURE"@,
        CheckStatus::Unreachable => "UNREACHABLE"@,
        CheckStatus::Undetermined => "UNDETERMINED"@,
    }
}

impl CheckStatus {
    /// The word that stands for the status in the report.
    pub fn to_string(&self) -> (s: String)
        ensures
            s@ == status_text(*self),
    {
        let check_str = match self {
            CheckStatus::Success => "SUCCESS",
            CheckStatus::Failure => "FAILURE",
            CheckStatus::Unreachable => "UNREACHABLE",
            CheckStatus::Undetermined => "UNDETERMINED",
        };
        String::from_str(check_str)
    }
}

/// `:column`, where the column is known.
pub open spec fn column_text(loc: SourceLocationView) -> Seq<char> {
    match loc.column {
        Some(c) => ":"@ + c,
        None => Seq::empty(),
    }
}

/// `:line`, then the column, where the line is known.
pub open spec fn line_text(loc: SourceLocationView) -> Seq<char> {
    match loc.line {
        Some(l) => ":"@ + l + column_text(loc),
        None => Seq::empty(),
    }
}

/// The file part of a location: the file as it is shown from `base`, then
/// line and column; `Unknown File` where no file is known.
pub open spec fn file_text(loc: SourceLocationView, base: Seq<char>) -> Seq<char> {
    match loc.file {
        Some(f) => shown_path(f, relative_path(f, base)) + line_text(loc),
        None => "Unknown File"@,
    }
}

/// ` in function name`, where the function is known.
pub open spec fn function_text(loc: SourceLocationView) -> Seq<char> {
    match loc.function {
        Some(f) => " in function "@ + f,
        None => Seq::empty(),
    }
}

/// A location as the report shows it.
pub open spec fn location_text(loc: SourceLocationView, base: Seq<char>) -> Seq<char> {
    file_text(loc, base) + function_text(loc)
}

impl SourceLocation {
    /// The location as the report shows it, with the file taken relative to
    /// the directory `base`.
    pub fn to_string(&self, base: &str) -> (s: String)
        ensures
            s@ == location_text(self@, base@),
    {
        let mut fmt_str = String::new();
        match &self.file {
            Some(file) => {
                let file_str = filepath(file.clone(), base);
                fmt_str.append(file_str.as_str());
                match &self.line {
                    Some(line) => {
                        fmt_str.append(":");
                        fmt_str.append(line.as_str());
                        match &self.column {
                            Some(column) => {
                                fmt_str.append(":");
                                fmt_str.append(column.as_str());
                            },
                            None => {},
                        }
                    },
                    None => {},
                }
                assert(fmt_str@ =~= file_text(self@, base@));
            },
            None => {
                fmt_str.append("Unknown File");
                assert(fmt_str@ =~= file_text(self@, base@));
            },
        }
        match &self.function {
            Some(function) => {
                fmt_str.append(" in function ");
                fmt_str.append(function.as_str());
            },
            None => {},
        }
        assert(fmt_str@ =~= location_text(self@, base@));
        fmt_str
    }
}

/// File, line and function of the last step of a trace, where the trace has
/// a step and that step's location names all three.
pub open spec fn failure_location(trace: Option<Seq<TraceItemView>>) -> Option<
    (Seq<char>, Seq<char>, Seq<char>),
> {
    match trace {
        Some(steps) => if steps.len() > 0 {
            match steps.last().source_location {
                Some(loc) => if loc.file is Some && loc.function is Some && loc.line is Some {
                    Some((loc.file->0, loc.line->0, loc.function->0))
                } else {
                    None
                },
                None => None,
            }
        } else {
            None
        },
        None => None,
    }
}

/// The entry of a failed check in the digest: its description and, where the
/// trace ends at a fully known location, that location.
pub open spec fn failure_message(description: Seq<char>, trace: Option<Seq<TraceItemView>>) -> Seq<
    char,
> {
    match failure_location(trace) {
        Some((file, line, function)) => "Failed Checks: "@ + description + "\n File: \""@ + file
            + "\", line "@ + line + ", in "@ + function + "\n"@,
        None => "Failed Checks: "@ + description + "\n"@,
    }
}

/// The entry of a failed check in the digest.
pub fn build_failure_message(description: String, trace: &Option<Vec<TraceItem>>) -> (s: String)
    ensures
        s@ == failure_message(description@, trace.deep_view()),
{
    let mut message = String::from_str("Failed Checks: ");
    message.append(description.as_str());
    match trace {
        Some(steps) => {
            if steps.len() > 0 {
                let last = &steps[steps.len() - 1];
                assert(steps.deep_view().last() == last@);
                match &last.source_location {
                    Some(loc) => {
                        match (&loc.file, &loc.line, &loc.function) {
                            (Some(file), Some(line), Some(function)) => {
                                message.append("\n File: \"");
                                message.append(file.as_str());
                                message.append("\", line ");
                                message.append(line.as_str());
                                message.append(", in ");
                                message.append(function.as_str());
                            },
                            _ => {},
                        }
                    },
                    None => {},
                }
            }
        },
        None => {},
    }
    message.append("\n");
    message
}

/// How many checks have the status `status`.
pub open spec fn count_with_status(props: Seq<PropertyView>, status: CheckStatus) -> nat {
    props.filter(|p: PropertyView| p.status == status).len()
}

/// Counts the checks that have the status `status`.
pub fn count_status(properties: &Vec<Property>, status: CheckStatus) -> (n: usize)
    ensures
        n == count_with_status(properties.deep_view(), status),
        n <= properties.len(),
{
    let ghost all = properties.deep_view();
    let ghost has = |p: PropertyView| p.status == status;
    let mut n: usize = 0;
    let mut i: usize = 0;
    while i < properties.len()
        invariant
            i <= properties.len(),
            all == properties.deep_view(),
            has == |p: PropertyView| p.status == status,
            n <= i,
            n == all.take(i as int).filter(has).len(),
        decreases properties.len() - i,
    {
        proof {
            assert(all.take(i + 1) =~= all.take(i as int).push(all[i as int]));
            all.take(i as int).lemma_filter_push(all[i as int], has);
        }
        if properties[i].status == status {
            n += 1;
        }
        i += 1;
    }
    assert(all.take(all.len() as int) =~= all);
    n
}

/// One check in the listing: number and id, status, description and, where
/// anything is known of it, the location.
pub open spec fn check_text(p: PropertyView, index: nat, base: Seq<char>) -> Seq<char> {
    "Check "@ + decimal(index) + ": "@ + p.property + "\n"@ + "\t - Status: "@ + status_text(
        p.status,
    ) + "\n"@ + "\t - Description: \""@ + p.description + "\"\n"@ + (if p.source_location.is_missing() {
        Seq::empty()
    } else {
        "\t - Location: "@ + location_text(p.source_location, base) + "\n"@
    }) + "\n"@
}

/// The listing of the first `n` checks, numbered from one.
pub open spec fn checks_text(props: Seq<PropertyView>, base: Seq<char>, n: nat) -> Seq<char>
    decreases n,
{
    if n == 0 {
        Seq::empty()
    } else {
        checks_text(props, base, (n - 1) as nat) + check_text(props[n - 1], n, base)
    }
}

/// The digest of the failed checks among the first `n`, in order.
pub open spec fn failures_text(props: Seq<PropertyView>, n: nat) -> Seq<char>
    decreases n,
{
    if n == 0 {
        Seq::empty()
    } else {
        failures_text(props, (n - 1) as nat) + (if props[n - 1].status == CheckStatus::Failure {
            failure_message(props[n - 1].description, props[n - 1].trace)
        } else {
            Seq::empty()
        })
    }
}

/// The bracket after the count of failures: the counts of undetermined and of
/// unreachable checks that are not zero, separated by a comma.
pub open spec fn other_status_text(undetermined: nat, unreachable: nat) -> Seq<char> {
    if undetermined > 0 && unreachable > 0 {
        " ("@ + decimal(undetermined) + " undetermined"@ + ","@ + decimal(unreachable)
            + " unreachable"@ + ")"@
    } else if undetermined > 0 {
        " ("@ + decimal(undetermined) + " undetermined"@ + ")"@
    } else if unreachable > 0 {
        " ("@ + decimal(unreachable) + " unreachable"@ + ")"@
    } else {
        Seq::empty()
    }
}

/// The part of the report before the counts: the listing under its heading
/// and the heading of the summary, or the heading of the terse result.
pub open spec fn heading_text(props: Seq<PropertyView>, show_checks: bool, base: Seq<char>) -> Seq<
    char,
> {
    if show_checks {
        "\nRESULTS:\n"@ + checks_text(props, base, props.len()) + "\nSUMMARY:"@
    } else {
        "\nVERIFICATION RESULT:"@
    }
}

/// The line of counts.
pub open spec fn counts_text(props: Seq<PropertyView>) -> Seq<char> {
    "\n ** "@ + decimal(count_with_status(props, CheckStatus::Failure)) + " of "@ + decimal(
        props.len(),
    ) + " failed"@ + other_status_text(
        count_with_status(props, CheckStatus::Undetermined),
        count_with_status(props, CheckStatus::Unreachable),
    ) + "\n"@
}

/// The verdict line: successful exactly when no check has failed.
pub open spec fn verdict_text(props: Seq<PropertyView>) -> Seq<char> {
    "\nVERIFICATION:- "@ + (if count_with_status(props, CheckStatus::Failure) == 0 {
        "SUCCESSFUL "@
    } else {
        "FAILED"@
    }) + "\n"@
}

/// The warning shown when the description of a check names an unsupported
/// construct.
pub const UNSUPPORTED_CONSTRUCT_WARNING: &'static str =
    "** WARNING: A Rust construct that is not currently supported by Kani was found to be reachable. Check the results for more details.";

/// The advice shown when the description of a check names an unwinding
/// assertion.
pub const UNWINDING_TIP: &'static str =
    "[Kani] info: Verification output shows one or more unwinding failures.\n[Kani] tip: Consider increasing the unwinding value or disabling `--unwinding-assertions`.\n";

/// The description of some check holds `message`, whatever the status of
/// that check.
pub open spec fn spec_has_description(props: Seq<PropertyView>, message: Seq<char>) -> bool {
    exists|i: int| 0 <= i < props.len() && contains((#[trigger] props[i]).description, message)
}

/// Whether the description of some check holds `message`.
pub fn has_description(properties: &Vec<Property>, message: &str) -> (b: bool)
    ensures
        b == spec_has_description(properties.deep_view(), message@),
{
    let mut i: usize = 0;
    while i < properties.len()
        invariant
            i <= properties.len(),
            forall|j: int|
                0 <= j < i ==> !contains(
                    (#[trigger] properties.deep_view()[j]).description,
                    message@,
                ),
        decreases properties.len() - i,
    {
        if str_contains(properties[i].description.as_str(), message) {
            assert(contains(properties.deep_view()[i as int].description, message@));
            return true;
        }
        i += 1;
    }
    false
}

/// The advisory lines at the end of the report: the warning where the
/// description of some check names an unsupported construct, then the advice
/// where the description of some check names an unwinding assertion. The
/// status of those checks plays no part.
pub open spec fn advisory_text(props: Seq<PropertyView>) -> Seq<char> {
    (if spec_has_description(props, UNSUPPORTED_CONSTRUCT_DESC@) {
        UNSUPPORTED_CONSTRUCT_WARNING@
    } else {
        Seq::empty()
    }) + (if spec_has_description(props, UNWINDING_ASSERT_DESC@) {
        UNWINDING_TIP@
    } else {
        Seq::empty()
    })
}

/// The whole report on a batch of checks.
pub open spec fn spec_format_result(props: Seq<PropertyView>, show_checks: bool, base: Seq<char>) -> Seq<
    char,
> {
    heading_text(props, show_checks, base) + counts_text(props) + failures_text(props, props.len())
        + verdict_text(props) + advisory_text(props)
}

/// The listing of all checks.
fn checks_listing(properties: &Vec<Property>, base: &str) -> (s: String)
    ensures
        s@ == checks_text(properties.deep_view(), base@, properties.len() as nat),
{
    let ghost all = properties.deep_view();
    let mut listing = String::new();
    let mut i: usize = 0;
    while i < properties.len()
        invariant
            i <= properties.len(),
            all == properties.deep_view(),
            listing@ == checks_text(all, base@, i as nat),
        decreases properties.len() - i,
    {
        let prop = &properties[i];
        let ghost before = listing@;
        assert(all[i as int] == prop@);
        let mut entry = String::from_str("Check ");
        entry.append(decimal_string(i + 1).as_str());
        entry.append(": ");
        entry.append(prop.property.as_str());
        entry.append("\n");
        entry.append("\t - Status: ");
        entry.append(prop.status.to_string().as_str());
        entry.append("\n");
        entry.append("\t - Description: \"");
        entry.append(prop.description.as_str());
        entry.append("\"\n");
        if !prop.source_location.is_missing() {
            let mut location_msg = String::from_str("\t - Location: ");
            location_msg.append(prop.source_location.to_string(base).as_str());
            location_msg.append("\n");
            entry.append(location_msg.as_str());
        } else {
            assert(entry@ + Seq::<char>::empty() =~= entry@);
        }
        entry.append("\n");
        assert(entry@ == check_text(prop@, (i + 1) as nat, base@));
        listing.append(entry.as_str());
        i += 1;
    }
    listing
}

/// The digest of all failed checks.
fn failures_digest(properties: &Vec<Property>) -> (s: String)
    ensures
        s@ == failures_text(properties.deep_view(), properties.len() as nat),
{
    let ghost all = properties.deep_view();
    let mut digest = String::new();
    let mut i: usize = 0;
    while i < properties.len()
        invariant
            i <= properties.len(),
            all == properties.deep_view(),
            digest@ == failures_text(all, i as nat),
        decreases properties.len() - i,
    {
        let prop = &properties[i];
        assert(all[i as int] == prop@);
        if prop.status == CheckStatus::Failure {
            let failure_message = build_failure_message(prop.description.clone(), &prop.trace);
            digest.append(failure_message.as_str());
        } else {
            assert(digest@ + Seq::<char>::empty() =~= digest@);
        }
        i += 1;
    }
    digest
}

/// The bracket after the count of failures.
fn other_status(undetermined: usize, unreachable: usize) -> (s: String)
    ensures
        s@ == other_status_text(undetermined as nat, unreachable as nat),
{
    let mut text = String::new();
    if undetermined > 0 || unreachable > 0 {
        text.append(" (");
        if undetermined > 0 {
            text.append(decimal_string(undetermined).as_str());
            text.append(" undetermined");
        }
        if undetermined > 0 && unreachable > 0 {
            text.append(",");
        }
        if unreachable > 0 {
            text.append(decimal_string(unreachable).as_str());
            text.append(" unreachable");
        }
        text.append(")");
    }
    assert(text@ =~= other_status_text(undetermined as nat, unreachable as nat));
    text
}

/// Renders the report on a batch of checks: with `show_checks` every check
/// under `RESULTS:` and then the summary, without it the summary alone. The
/// summary gives the counts, the digest of the failed checks, the verdict and
/// the advisory lines. Files are shown relative to the directory `base`.
pub fn format_result(properties: &Vec<Property>, show_checks: bool, base: &str) -> (s: String)
    ensures
        s@ == spec_format_result(properties.deep_view(), show_checks, base@),
{
    let ghost all = properties.deep_view();
    let mut result_str = String::new();
    if show_checks {
        result_str.append("\nRESULTS:\n");
        result_str.append(checks_listing(properties, base).as_str());
        result_str.append("\nSUMMARY:");
    } else {
        result_str.append("\nVERIFICATION RESULT:");
    }
    assert(result_str@ =~= heading_text(all, show_checks, base@));

    let number_tests_failed = count_status(properties, CheckStatus::Failure);
    let number_tests_undetermined = count_status(properties, CheckStatus::Undetermined);
    let number_tests_unreachable = count_status(properties, CheckStatus::Unreachable);

    let mut summary = String::from_str("\n ** ");
    summary.append(decimal_string(number_tests_failed).as_str());
    summary.append(" of ");
    summary.append(decimal_string(properties.len()).as_str());
    summary.append(" failed");
    summary.append(other_status(number_tests_undetermined, number_tests_unreachable).as_str());
    summary.append("\n");
    assert(summary@ == counts_text(all));
    result_str.append(summary.as_str());

    result_str.append(failures_digest(properties).as_str());

    let verification_result = if number_tests_failed == 0 {
        "SUCCESSFUL "
    } else {
        "FAILED"
    };
    let mut overall_result = String::from_str("\nVERIFICATION:- ");
    overall_result.append(verification_result);
    overall_result.append("\n");
    assert(overall_result@ == verdict_text(all));
    result_str.append(overall_result.as_str());

    let mut advisory = String::new();
    if has_description(properties, UNSUPPORTED_CONSTRUCT_DESC) {
        advisory.append(UNSUPPORTED_CONSTRUCT_WARNING);
    }
    if has_description(properties, UNWINDING_ASSERT_DESC) {
        advisory.append(UNWINDING_TIP);
    }
    assert(advisory@ =~= advisory_text(all));
    result_str.append(advisory.as_str());
    result_str
}

/// What the full report shows of a record: the text of a banner or of a
/// message, the whole report on a batch of results, nothing of the rest.
pub open spec fn spec_format_item_regular(item: ParserItemView, base: Seq<char>) -> Option<
    Seq<char>,
> {
    match item {
        ParserItemView::Program { program } => Some(program),
        ParserItemView::Message { message_text, .. } => Some(message_text),
        ParserItemView::Result { result } => Some(spec_format_result(result, true, base)),
        ParserItemView::ProverStatus { .. } => None,
    }
}

/// What the terse report shows of a record: the summary of a batch of
/// results, nothing of the rest.
pub open spec fn spec_format_item_terse(item: ParserItemView, base: Seq<char>) -> Option<
    Seq<char>,
> {
    match item {
        ParserItemView::Result { result } => Some(spec_format_result(result, false, base)),
        _ => None,
    }
}

/// What the report in the format `output_format` shows of a record.
pub open spec fn spec_format_item(
    item: ParserItemView,
    output_format: OutputFormat,
    base: Seq<char>,
) -> Option<Seq<char>> {
    match output_format {
        OutputFormat::Regular => spec_format_item_regular(item, base),
        OutputFormat::Terse => spec_format_item_terse(item, base),
    }
}

/// Renders a record for the full report.
pub fn format_item_regular(item: &ParserItem, base: &str) -> (r: Option<String>)
    ensures
        r.deep_view() == spec_format_item_regular(item@, base@),
{
    match item {
        ParserItem::Program { program } => Some(program.clone()),
        ParserItem::Message { message_text, .. } => Some(message_text.clone()),
        ParserItem::Result { result } => Some(format_result(result, true, base)),
        ParserItem::ProverStatus { .. } => None,
    }
}

/// Renders a record for the terse report.
pub fn format_item_terse(item: &ParserItem, base: &str) -> (r: Option<String>)
    ensures
        r.deep_view() == spec_format_item_terse(item@, base@),
{
    match item {
        ParserItem::Result { result } => Some(format_result(result, false, base)),
        _ => None,
    }
}

/// Renders a record in the format `output_format`; `None` where the format
/// shows nothing of it.
pub fn format_item(item: &ParserItem, output_format: &OutputFormat, base: &str) -> (r: Option<
    String,
>)
    ensures
        r.deep_view() == spec_format_item(item@, *output_format, base@),
{
    match output_format {
        OutputFormat::Regular => format_item_regular(item, base),
        OutputFormat::Terse => format_item_terse(item, base),
    }
}

/// The text of a record when it is printed as it came.
pub open spec fn item_text(item: ParserItemView) -> Seq<char> {
    match item {
        ParserItemView::Program { program } => program,
        ParserItemView::Message { message_text, .. } => message_text,
        _ => "Not implemented!"@,
    }
}

impl ParserItem {
    /// The text of the record when it is printed as it came: the banner or
    /// the message; other records have no such form.
    pub fn to_string(&self) -> (s: String)
        ensures
            s@ == item_text(self@),
    {
        match self {
            ParserItem::Program { program } => program.clone(),
            ParserItem::Message { message_text, .. } => message_text.clone(),
            _ => String::from_str("Not implemented!"),
        }
    }
}

} // verus!
