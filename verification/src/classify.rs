//! What happens to a record between the parser and the report: boilerplate
//! is suppressed, known error texts are rewritten, results are processed.

use vstd::prelude::*;
use vstd::string::*;
use crate::errors::PostprocessError;
use crate::format::{format_item, spec_format_item};
use crate::postprocess::{postprocess_result, spec_postprocess_result};
use crate::text::{contains, replace_all, str_contains, str_equal, str_replace, str_starts_with};
use crate::types::{OutputFormat, ParserItem, ParserItemView, PropertyView};

verus! {

/// Opens the model checker's notice that it builds an error trace.
pub const TRACE_NOTICE_PREFIX: &'static str = "Building error trace";

/// Opens the model checker's own verdict line.
pub const VERDICT_PREFIX: &'static str = "VERIFICATION";

/// Severity of the messages that report an error.
pub const ERROR_TYPE: &'static str = "ERROR";

/// The advice in the model checker's error on too few object bits.
pub const OBJECT_BITS_ADVICE: &'static str = "use the `--object-bits n` option";

/// The flag named in that advice.
pub const OBJECT_BITS_FLAG: &'static str = "--object-bits ";

/// The flags that a user has to give in its place.
pub const OBJECT_BITS_FLAGS: &'static str = "--enable-unstable --cbmc-args --object-bits ";

/// The record is a message that the report replaces by its own lines.
pub open spec fn spec_must_be_skipped(item: ParserItemView) -> bool {
    match item {
        ParserItemView::Message { message_text, .. } => TRACE_NOTICE_PREFIX@.is_prefix_of(
            message_text,
        ) || VERDICT_PREFIX@.is_prefix_of(message_text),
        _ => false,
    }
}

/// Whether the record is left out of the report: a message that begins with
/// the notice of the error trace or with the model checker's verdict.
pub fn must_be_skipped(item: &ParserItem) -> (b: bool)
    ensures
        b == spec_must_be_skipped(item@),
{
    match item {
        ParserItem::Message { message_text, .. } => str_starts_with(
            message_text.as_str(),
            TRACE_NOTICE_PREFIX,
        ) || str_starts_with(message_text.as_str(), VERDICT_PREFIX),
        _ => false,
    }
}

/// The record with the advice on object bits rewritten, where it is a
/// message that gives this advice.
pub open spec fn spec_postprocess_error_message(message: ParserItemView) -> ParserItemView {
    match message {
        ParserItemView::Message { message_text, message_type } => if contains(
            message_text,
            OBJECT_BITS_ADVICE@,
        ) {
            ParserItemView::Message {
                message_text: replace_all(message_text, OBJECT_BITS_FLAG@, OBJECT_BITS_FLAGS@),
                message_type: ERROR_TYPE@,
            }
        } else {
            message
        },
        _ => message,
    }
}

/// Rewrites the model checker's advice on object bits: in a message that gives it,
/// the flag is replaced by the flags that the user has to pass, and the
/// message is one of the error severity. Any other record comes back as it is.
pub fn postprocess_error_message(message: ParserItem) -> (r: ParserItem)
    ensures
        r@ == spec_postprocess_error_message(message@),
{
    match message {
        ParserItem::Message { message_text, message_type } => {
            if str_contains(message_text.as_str(), OBJECT_BITS_ADVICE) {
                ParserItem::Message {
                    message_text: str_replace(
                        message_text.as_str(),
                        OBJECT_BITS_FLAG,
                        OBJECT_BITS_FLAGS,
                    ),
                    message_type: String::from_str(ERROR_TYPE),
                }
            } else {
                ParserItem::Message { message_text, message_type }
            }
        },
        other => other,
    }
}

/// What becomes of a record and of the verdict so far: a batch of results is
/// put through the pipeline and sets the verdict, a message of the error
/// severity is rewritten, any other record and the verdict stay.
pub open spec fn spec_process_item(item: ParserItemView, extra_ptr_checks: bool, verdict: bool) -> Result<
    (ParserItemView, bool),
    PostprocessError,
> {
    match item {
        ParserItemView::Result { result } => match spec_postprocess_result(
            result,
            extra_ptr_checks,
        ) {
            Ok((checks, overall)) => Ok((ParserItemView::Result { result: checks }, overall)),
            Err(e) => Err(e),
        },
        ParserItemView::Message { message_type, .. } => if message_type == ERROR_TYPE@ {
            Ok((spec_postprocess_error_message(item), verdict))
        } else {
            Ok((item, verdict))
        },
        _ => Ok((item, verdict)),
    }
}

/// Processes one record. A batch of results is put through the pipeline,
/// and its verdict is stored in `res`; a message of the error severity is
/// rewritten; any other record comes back as it is. On an error of the
/// pipeline `res` is left alone.
pub fn process_item(item: ParserItem, extra_ptr_checks: bool, res: &mut bool) -> (r: Result<
    ParserItem,
    PostprocessError,
>)
    ensures
        match r {
            Ok(out) => spec_process_item(item@, extra_ptr_checks, *old(res)) == Ok::<
                (ParserItemView, bool),
                PostprocessError,
            >((out@, *final(res))),
            Err(e) => *final(res) == *old(res) && spec_process_item(
                item@,
                extra_ptr_checks,
                *old(res),
            ) == Err::<(ParserItemView, bool), PostprocessError>(e),
        },
{
    match item {
        ParserItem::Result { result } => {
            match postprocess_result(result, extra_ptr_checks) {
                Ok((postprocessed_result, overall_status)) => {
                    *res = overall_status;
                    Ok(ParserItem::Result { result: postprocessed_result })
                },
                Err(e) => Err(e),
            }
        },
        ParserItem::Message { message_text, message_type } => {
            if str_equal(message_type.as_str(), ERROR_TYPE) {
                Ok(postprocess_error_message(ParserItem::Message { message_text, message_type }))
            } else {
                Ok(ParserItem::Message { message_text, message_type })
            }
        },
        other => Ok(other),
    }
}

/// What is printed for a record, and the verdict after it: nothing for a
/// record that is skipped; else the record is processed and rendered in the
/// format asked for.
pub open spec fn spec_output_for_item(
    item: ParserItemView,
    extra_ptr_checks: bool,
    output_format: OutputFormat,
    base: Seq<char>,
    verdict: bool,
) -> Result<(Option<Seq<char>>, bool), PostprocessError> {
    if spec_must_be_skipped(item) {
        Ok((None, verdict))
    } else {
        match spec_process_item(item, extra_ptr_checks, verdict) {
            Ok((processed, overall)) => Ok(
                (spec_format_item(processed, output_format, base), overall),
            ),
            Err(e) => Err(e),
        }
    }
}

/// One turn of the loop over the records of a run: the text to print for
/// the record, if any, with the verdict kept in `res`. A skipped record
/// prints nothing; any other record is processed and then rendered in the
/// format `output_format`, files being shown relative to `base`.
pub fn output_for_item(
    item: ParserItem,
    extra_ptr_checks: bool,
    output_format: &OutputFormat,
    base: &str,
    res: &mut bool,
) -> (r: Result<Option<String>, PostprocessError>)
    ensures
        match r {
            Ok(text) => spec_output_for_item(
                item@,
                extra_ptr_checks,
                *output_format,
                base@,
                *old(res),
            ) == Ok::<(Option<Seq<char>>, bool), PostprocessError>(
                (text.deep_view(), *final(res)),
            ),
            Err(e) => *final(res) == *old(res) && spec_output_for_item(
                item@,
                extra_ptr_checks,
                *output_format,
                base@,
                *old(res),
            ) == Err::<(Option<Seq<char>>, bool), PostprocessError>(e),
        },
{
    if must_be_skipped(&item) {
        return Ok(None);
    }
    match process_item(item, extra_ptr_checks, res) {
        Ok(trans_item) => Ok(format_item(&trans_item, output_format, base)),
        Err(e) => Err(e),
    }
}

} // verus!
