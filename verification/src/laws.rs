//! What holds of the pipeline as a whole.

use vstd::prelude::*;
use crate::category::category;
use crate::errors::PostprocessError;
use crate::markers::{REACH_CHECK_DESC, STRIP_TOKEN_PATTERN};
use crate::pattern::{matched_text, without_match};
use crate::postprocess::{
    all_categorized, all_consistent, annotated, carries, correlated_checks, embedded_token,
    final_checks, final_status, finalized, has_fundamental_failures, is_inconsistent,
    is_passed_sanity_check, is_pointer_check, is_reach_check, marker_token, postprocess_error,
    reach_markers, reach_of, real_checks, rewritten_checks, shown_checks, spec_determine_result,
    spec_postprocess_result, spec_with, spec_without, stripped, tokens_distinct,
    undefined_rewritten,
};
use crate::text::contains;
use crate::types::{CheckStatus, PropertyView};

verus! {

/// The pipeline only removes checks: no stage holds more checks than the
/// batch it was given, so the final checks are at most as many as the input.
pub proof fn law_pipeline_only_removes(all: Seq<PropertyView>, extra_ptr_checks: bool)
    ensures
        reach_markers(all).len() + spec_without(rewritten_checks(all), REACH_CHECK_DESC@).len()
            <= all.len(),
        real_checks(all).len() <= all.len(),
        correlated_checks(all).len() == real_checks(all).len(),
        shown_checks(all, extra_ptr_checks).len() <= correlated_checks(all).len(),
        final_checks(all, extra_ptr_checks).len() == shown_checks(all, extra_ptr_checks).len(),
        final_checks(all, extra_ptr_checks).len() <= all.len(),
{
    let rewritten = rewritten_checks(all);
    let with = |p: PropertyView| contains(p.description, REACH_CHECK_DESC@);
    let without = |p: PropertyView| !contains(p.description, REACH_CHECK_DESC@);
    lemma_partition_len(rewritten, with, without);
    let sane = |p: PropertyView| !is_passed_sanity_check(p);
    rewritten.filter(without).lemma_filter_len(sane);
    let no_pointer = |p: PropertyView| !is_pointer_check(p);
    correlated_checks(all).lemma_filter_len(no_pointer);
}

/// A sequence split by a condition and its negation: the two parts have
/// together as many members as the sequence.
pub proof fn lemma_partition_len(
    props: Seq<PropertyView>,
    with: spec_fn(PropertyView) -> bool,
    without: spec_fn(PropertyView) -> bool,
)
    requires
        forall|p: PropertyView| #[trigger] without(p) == !with(p),
    ensures
        props.filter(with).len() + props.filter(without).len() == props.len(),
    decreases props.len(),
{
    reveal(Seq::filter);
    if props.len() > 0 {
        lemma_partition_len(props.drop_last(), with, without);
        assert(without(props.last()) == !with(props.last()));
    }
}

/// Taking the check-id token out of a description a second time changes
/// nothing exactly when the first time left no token behind.
pub proof fn law_strip_twice(description: Seq<char>)
    ensures
        ({
            let once = without_match(STRIP_TOKEN_PATTERN@, description);
            let twice = without_match(STRIP_TOKEN_PATTERN@, once);
            twice == once <==> match matched_text(STRIP_TOKEN_PATTERN@, once) {
                Some(token) => token.len() == 0,
                None => true,
            }
        }),
{
    let once = without_match(STRIP_TOKEN_PATTERN@, description);
    let twice = without_match(STRIP_TOKEN_PATTERN@, once);
    match matched_text(STRIP_TOKEN_PATTERN@, once) {
        Some(token) => {
            if token.len() == 0 {
                assert(twice =~= once);
            } else {
                assert(twice.len() < once.len());
            }
        },
        None => {},
    }
}

/// Where a description holds no check-id token, taking the token out leaves
/// it as it is; so a description that was stripped of its only token is not
/// changed by stripping it again.
pub proof fn law_strip_is_idempotent(p: PropertyView)
    requires
        matched_text(STRIP_TOKEN_PATTERN@, stripped(p).description) is None,
    ensures
        stripped(stripped(p)) == stripped(p),
{
}

/// The correlation does not depend on where marker and check stand in the
/// batch. Wherever a reachability marker and a real check that embeds the
/// marker's token are, the check comes out of the correlation with the
/// marker's status as its `reach`.
pub proof fn law_correlation_any_position(all: Seq<PropertyView>, marker_at: int, check_at: int)
    requires
        0 <= marker_at < all.len(),
        0 <= check_at < all.len(),
        is_reach_check(undefined_rewritten(all[marker_at])),
        !is_reach_check(undefined_rewritten(all[check_at])),
        !is_passed_sanity_check(all[check_at]),
        tokens_distinct(reach_markers(all)),
        marker_token(undefined_rewritten(all[marker_at])) is Some,
        marker_token(undefined_rewritten(all[marker_at])) == embedded_token(
            undefined_rewritten(all[check_at]),
        ),
    ensures
        ({
            let check = annotated(undefined_rewritten(all[check_at]), reach_markers(all));
            &&& check.reach == Some(all[marker_at].status)
            &&& correlated_checks(all).contains(stripped(check))
        }),
{
    let rewritten = rewritten_checks(all);
    let markers = reach_markers(all);
    let marker = undefined_rewritten(all[marker_at]);
    let subject = undefined_rewritten(all[check_at]);
    let token = marker_token(marker)->0;
    let with = |p: PropertyView| contains(p.description, REACH_CHECK_DESC@);
    let without = |p: PropertyView| !contains(p.description, REACH_CHECK_DESC@);
    let sane = |p: PropertyView| !is_passed_sanity_check(p);

    assert(rewritten[marker_at] == marker);
    rewritten.lemma_filter_contains(with, marker_at);
    let k = choose|k: int| 0 <= k < markers.len() && markers[k] == marker;
    assert(carries(markers, k, token));
    let c = choose|c: int| carries(markers, c, token);
    assert(marker_token(markers[c]) == marker_token(markers[k]));
    assert(c == k);
    assert(reach_of(markers, token) == Some(marker.status));

    assert(rewritten[check_at] == subject);
    rewritten.lemma_filter_contains(without, check_at);
    let reals = rewritten.filter(without);
    let a = choose|a: int| 0 <= a < reals.len() && reals[a] == subject;
    reals.lemma_filter_contains(sane, a);
    let kept = real_checks(all);
    let b = choose|b: int| 0 <= b < kept.len() && kept[b] == subject;
    assert(correlated_checks(all)[b] == stripped(annotated(subject, markers)));
}

/// Without the extra pointer checks no pointer-arithmetic or
/// pointer-primitive check remains among the final checks. With them no
/// check is removed for being one: the checks shown are all the correlated
/// checks, and those shown without the extra checks are the ones among them
/// that are no pointer checks.
pub proof fn law_pointer_checks(all: Seq<PropertyView>)
    ensures
        forall|i: int|
            0 <= i < final_checks(all, false).len() ==> !is_pointer_check(
                #[trigger] final_checks(all, false)[i],
            ),
        shown_checks(all, true) == correlated_checks(all),
        final_checks(all, true).len() == correlated_checks(all).len(),
        shown_checks(all, false) == shown_checks(all, true).filter(
            |p: PropertyView| !is_pointer_check(p),
        ),
{
    let no_pointer = |p: PropertyView| !is_pointer_check(p);
    let shown = shown_checks(all, false);
    assert forall|i: int| 0 <= i < final_checks(all, false).len() implies !is_pointer_check(
        #[trigger] final_checks(all, false)[i],
    ) by {
        correlated_checks(all).lemma_filter_pred(no_pointer, i);
        assert(no_pointer(shown[i]));
        assert(final_checks(all, false)[i].property == shown[i].property);
    }
}

/// The verdict is `false` exactly when a final check has failed.
pub proof fn law_verdict(all: Seq<PropertyView>, extra_ptr_checks: bool)
    requires
        postprocess_error(all, extra_ptr_checks) is None,
    ensures
        ({
            let outcome = spec_postprocess_result(all, extra_ptr_checks);
            let checks = final_checks(all, extra_ptr_checks);
            &&& outcome is Ok
            &&& outcome->Ok_0.0 == checks
            &&& !outcome->Ok_0.1 <==> exists|i: int|
                0 <= i < checks.len() && (#[trigger] checks[i]).status == CheckStatus::Failure
        }),
{
}

/// A check that has passed at an unreachable location becomes unreachable
/// where the batch has no fundamental failure, and undetermined, like every
/// other pass, where it has one.
pub proof fn law_promotion(p: PropertyView)
    requires
        p.reach == Some(CheckStatus::Success),
        p.status == CheckStatus::Success,
    ensures
        finalized(p, false).status == CheckStatus::Unreachable,
        finalized(p, true).status == CheckStatus::Undetermined,
{
}

/// A final check is unreachable only if it was so before or had passed; and
/// with a fundamental failure in the batch no final check has passed.
pub proof fn law_final_statuses(all: Seq<PropertyView>, extra_ptr_checks: bool, i: int)
    requires
        postprocess_error(all, extra_ptr_checks) is None,
        0 <= i < final_checks(all, extra_ptr_checks).len(),
    ensures
        ({
            let before = shown_checks(all, extra_ptr_checks)[i];
            let after = final_checks(all, extra_ptr_checks)[i];
            &&& after.status == final_status(before, has_fundamental_failures(all))
            &&& after.status == CheckStatus::Unreachable ==> before.status
                == CheckStatus::Unreachable || before.status == CheckStatus::Success
            &&& has_fundamental_failures(all) ==> after.status != CheckStatus::Success
            &&& after.status == CheckStatus::Failure <==> before.status == CheckStatus::Failure
        }),
{
    let before = shown_checks(all, extra_ptr_checks)[i];
    if !has_fundamental_failures(all) {
        assert(!is_inconsistent(before));
    }
}

} // verus!
