//! The ordered clean-up pipeline over a batch of checks.

use vstd::prelude::*;
use vstd::string::*;
use crate::category::{category, extract_property_class};
use crate::descriptions::{get_readable_description, readable_description};
use crate::errors::PostprocessError;
use crate::laws::law_pipeline_only_removes;
use crate::markers::{
    ASSERTION_FALSE, CHECK_TOKEN_PATTERN, DEFAULT_ASSERTION, MARKER_ID_PATTERN,
    MISSING_DEFINITION_DESC, POINTER_ARITHMETIC, POINTER_PRIMITIVES, REACH_CHECK_DESC,
    SANITY_CHECK, STRIP_TOKEN_PATTERN, UNSUPPORTED_CONSTRUCT_DESC, UNWINDING_ASSERT_DESC,
};
use crate::pattern::{
    find_text, matched_text, pattern_compiles, pattern_is_valid, remove_first, without_match,
};
use crate::text::{contains, str_contains, str_equal};
use crate::types::{CheckStatus, Property, PropertyView};

verus! {

/// The check has failed and its description holds `message`.
pub open spec fn fails_with(p: PropertyView, message: Seq<char>) -> bool {
    contains(p.description, message) && p.status == CheckStatus::Failure
}

/// Some check has failed with `message` in its description.
pub open spec fn spec_has_check_failures(props: Seq<PropertyView>, message: Seq<char>) -> bool {
    exists|i: int| 0 <= i < props.len() && fails_with(#[trigger] props[i], message)
}

/// Whether some check has failed with `message` in its description.
pub fn has_check_failures(properties: &Vec<Property>, message: &str) -> (b: bool)
    ensures
        b == spec_has_check_failures(properties.deep_view(), message@),
{
    let mut i: usize = 0;
    while i < properties.len()
        invariant
            i <= properties.len(),
            forall|j: int| 0 <= j < i ==> !fails_with(#[trigger] properties.deep_view()[j], message@),
        decreases properties.len() - i,
    {
        let prop = &properties[i];
        if str_contains(prop.description.as_str(), message) && prop.status == CheckStatus::Failure {
            assert(fails_with(properties.deep_view()[i as int], message@));
            return true;
        }
        i += 1;
    }
    false
}

/// The checks whose description does not hold `message`, in order.
pub open spec fn spec_without(props: Seq<PropertyView>, message: Seq<char>) -> Seq<PropertyView> {
    props.filter(|p: PropertyView| !contains(p.description, message))
}

/// The checks whose description holds `message`, in order.
pub open spec fn spec_with(props: Seq<PropertyView>, message: Seq<char>) -> Seq<PropertyView> {
    props.filter(|p: PropertyView| contains(p.description, message))
}

/// Splits the checks in two by whether the description holds `message`: first
/// those without it, then those with it, each in the order of the input.
pub fn filter_properties(properties: Vec<Property>, message: &str) -> (r: (
    Vec<Property>,
    Vec<Property>,
))
    ensures
        r.0.deep_view() == spec_without(properties.deep_view(), message@),
        r.1.deep_view() == spec_with(properties.deep_view(), message@),
{
    let mut filtered_properties: Vec<Property> = Vec::new();
    let mut removed_properties: Vec<Property> = Vec::new();
    let ghost all = properties.deep_view();
    let ghost without = |p: PropertyView| !contains(p.description, message@);
    let ghost with = |p: PropertyView| contains(p.description, message@);
    for prop in it: properties
        invariant
            it.seq() == properties@,
            all == properties.deep_view(),
            without == |p: PropertyView| !contains(p.description, message@),
            with == |p: PropertyView| contains(p.description, message@),
            filtered_properties.deep_view() == all.take(it.index()).filter(without),
            removed_properties.deep_view() == all.take(it.index()).filter(with),
    {
        proof {
            let i = it.index();
            assert(prop@ == all[i]);
            assert(all.take(i + 1) =~= all.take(i).push(all[i]));
            all.take(i).lemma_filter_push(all[i], without);
            all.take(i).lemma_filter_push(all[i], with);
        }
        let ghost before_filtered = filtered_properties.deep_view();
        let ghost before_removed = removed_properties.deep_view();
        if str_contains(prop.description.as_str(), message) {
            removed_properties.push(prop);
            assert(removed_properties.deep_view() =~= before_removed.push(prop@));
        } else {
            filtered_properties.push(prop);
            assert(filtered_properties.deep_view() =~= before_filtered.push(prop@));
        }
    }
    assert(all.take(all.len() as int) =~= all);
    (filtered_properties, removed_properties)
}

/// Every check has an id with a category.
pub open spec fn all_categorized(props: Seq<PropertyView>) -> bool {
    forall|i: int| 0 <= i < props.len() ==> category(#[trigger] props[i].property) is Some
}

/// Whether every check has an id with a category.
pub fn all_have_category(properties: &Vec<Property>) -> (b: bool)
    ensures
        b == all_categorized(properties.deep_view()),
{
    let mut i: usize = 0;
    while i < properties.len()
        invariant
            i <= properties.len(),
            forall|j: int| 0 <= j < i ==> category(#[trigger] properties.deep_view()[j].property) is Some,
        decreases properties.len() - i,
    {
        if extract_property_class(&properties[i]).is_none() {
            assert(category(properties.deep_view()[i as int].property) is None);
            return false;
        }
        i += 1;
    }
    true
}

/// The check stands for a call of a function that has no definition: a plain
/// assertion described as `assertion false`, with no source file.
pub open spec fn is_undefined_function_check(p: PropertyView) -> bool {
    &&& p.description == ASSERTION_FALSE@
    &&& category(p.property) == Some(DEFAULT_ASSERTION@)
    &&& p.source_location.file is None
}

/// The check with the description of an undefined function put in, where it
/// stands for one.
pub open spec fn undefined_rewritten(p: PropertyView) -> PropertyView {
    if is_undefined_function_check(p) {
        PropertyView { description: MISSING_DEFINITION_DESC@, ..p }
    } else {
        p
    }
}

/// Some check that stands for an undefined function has failed.
pub open spec fn has_reachable_undefined(props: Seq<PropertyView>) -> bool {
    exists|i: int|
        0 <= i < props.len() && is_undefined_function_check(#[trigger] props[i]) && props[i].status
            == CheckStatus::Failure
}

/// Gives the checks that stand for calls of undefined functions their fixed
/// description, and tells whether one of them has failed. An id without a
/// category is an error.
pub fn modify_undefined_function_checks(properties: Vec<Property>) -> (r: Result<
    (Vec<Property>, bool),
    PostprocessError,
>)
    ensures
        match r {
            Ok((out, failed)) => {
                &&& all_categorized(properties.deep_view())
                &&& out.deep_view() == properties.deep_view().map_values(
                    |p: PropertyView| undefined_rewritten(p),
                )
                &&& failed == has_reachable_undefined(properties.deep_view())
            },
            Err(e) => e == PostprocessError::MalformedProperty && !all_categorized(
                properties.deep_view(),
            ),
        },
{
    if !all_have_category(&properties) {
        return Err(PostprocessError::MalformedProperty);
    }
    let ghost all = properties.deep_view();
    let ghost rewrite = |p: PropertyView| undefined_rewritten(p);
    let mut has_unknown_location_checks = false;
    let mut out: Vec<Property> = Vec::new();
    for prop in it: properties
        invariant
            it.seq() == properties@,
            all == properties.deep_view(),
            rewrite == |p: PropertyView| undefined_rewritten(p),
            all_categorized(all),
            out.deep_view() == all.take(it.index()).map_values(rewrite),
            has_unknown_location_checks == has_reachable_undefined(all.take(it.index())),
    {
        let ghost i = it.index();
        let ghost before = out.deep_view();
        assert(prop@ == all[i]);
        assert(category(all[i].property) is Some);
        let class = extract_property_class(&prop);
        let is_undefined = str_equal(prop.description.as_str(), ASSERTION_FALSE) && class.is_some()
            && str_equal(class.unwrap(), DEFAULT_ASSERTION) && prop.source_location.file.is_none();
        assert(is_undefined == is_undefined_function_check(prop@));
        proof {
            assert(all.take(i + 1) =~= all.take(i).push(all[i]));
            if has_reachable_undefined(all.take(i)) {
                let k = choose|k: int|
                    0 <= k < all.take(i).len() && is_undefined_function_check(
                        #[trigger] all.take(i)[k],
                    ) && all.take(i)[k].status == CheckStatus::Failure;
                assert(all.take(i + 1)[k] == all.take(i)[k]);
            }
            if has_reachable_undefined(all.take(i + 1)) && !(is_undefined && prop.status
                == CheckStatus::Failure) {
                let k = choose|k: int|
                    0 <= k < all.take(i + 1).len() && is_undefined_function_check(
                        #[trigger] all.take(i + 1)[k],
                    ) && all.take(i + 1)[k].status == CheckStatus::Failure;
                assert(all.take(i)[k] == all.take(i + 1)[k]);
            }
            if is_undefined && prop.status == CheckStatus::Failure {
                assert(is_undefined_function_check(all.take(i + 1)[i]));
            }
        }
        if is_undefined {
            if prop.status == CheckStatus::Failure {
                has_unknown_location_checks = true;
            }
            out.push(
                Property {
                    description: String::from_str(MISSING_DEFINITION_DESC),
                    property: prop.property,
                    source_location: prop.source_location,
                    status: prop.status,
                    reach: prop.reach,
                    trace: prop.trace,
                },
            );
        } else {
            out.push(prop);
        }
        assert(out.deep_view() =~= before.push(undefined_rewritten(all[i])));
        assert(all.take(i + 1).map_values(rewrite) =~= all.take(i).map_values(rewrite).push(
            rewrite(all[i]),
        ));
    }
    assert(all.take(all.len() as int) =~= all);
    Ok((out, has_unknown_location_checks))
}

/// The check only records whether a location is reachable.
pub open spec fn is_reach_check(p: PropertyView) -> bool {
    contains(p.description, REACH_CHECK_DESC@)
}

/// Splits the checks into the real ones and the reachability markers, each
/// in the order of the input.
pub fn filter_reach_checks(properties: Vec<Property>) -> (r: (Vec<Property>, Vec<Property>))
    ensures
        r.0.deep_view() == spec_without(properties.deep_view(), REACH_CHECK_DESC@),
        r.1.deep_view() == spec_with(properties.deep_view(), REACH_CHECK_DESC@),
{
    filter_properties(properties, REACH_CHECK_DESC)
}

/// The check is one of the model checker's own housekeeping checks, and has passed.
pub open spec fn is_passed_sanity_check(p: PropertyView) -> bool {
    category(p.property) == Some(SANITY_CHECK@) && p.status == CheckStatus::Success
}

/// Drops the housekeeping checks that have passed; one that has not passed
/// stays. An id without a category is an error.
pub fn filter_sanity_checks(properties: Vec<Property>) -> (r: Result<
    Vec<Property>,
    PostprocessError,
>)
    ensures
        match r {
            Ok(out) => {
                &&& all_categorized(properties.deep_view())
                &&& out.deep_view() == properties.deep_view().filter(
                    |p: PropertyView| !is_passed_sanity_check(p),
                )
            },
            Err(e) => e == PostprocessError::MalformedProperty && !all_categorized(
                properties.deep_view(),
            ),
        },
{
    if !all_have_category(&properties) {
        return Err(PostprocessError::MalformedProperty);
    }
    let ghost all = properties.deep_view();
    let ghost keep = |p: PropertyView| !is_passed_sanity_check(p);
    let mut out: Vec<Property> = Vec::new();
    for prop in it: properties
        invariant
            it.seq() == properties@,
            all == properties.deep_view(),
            keep == |p: PropertyView| !is_passed_sanity_check(p),
            all_categorized(all),
            out.deep_view() == all.take(it.index()).filter(keep),
    {
        let ghost i = it.index();
        let ghost before = out.deep_view();
        proof {
            assert(prop@ == all[i]);
            assert(category(all[i].property) is Some);
            assert(all.take(i + 1) =~= all.take(i).push(all[i]));
            all.take(i).lemma_filter_push(all[i], keep);
        }
        let class = extract_property_class(&prop);
        let passed_sanity = class.is_some() && str_equal(class.unwrap(), SANITY_CHECK)
            && prop.status == CheckStatus::Success;
        if !passed_sanity {
            out.push(prop);
            assert(out.deep_view() =~= before.push(all[i]));
        }
    }
    assert(all.take(all.len() as int) =~= all);
    Ok(out)
}

/// No check has failed.
pub open spec fn spec_determine_result(props: Seq<PropertyView>) -> bool {
    forall|i: int| 0 <= i < props.len() ==> (#[trigger] props[i]).status != CheckStatus::Failure
}

/// The verdict on a batch: whether no check in it has failed.
pub fn determine_result(properties: &Vec<Property>) -> (b: bool)
    ensures
        b == spec_determine_result(properties.deep_view()),
{
    let mut i: usize = 0;
    while i < properties.len()
        invariant
            i <= properties.len(),
            forall|j: int| 0 <= j < i ==> (#[trigger] properties.deep_view()[j]).status
                != CheckStatus::Failure,
        decreases properties.len() - i,
    {
        if properties[i].status == CheckStatus::Failure {
            assert(properties.deep_view()[i as int].status == CheckStatus::Failure);
            return false;
        }
        i += 1;
    }
    true
}

/// The token that a reachability marker stands for: the check id found in
/// its description, in square brackets.
pub open spec fn marker_token(marker: PropertyView) -> Option<Seq<char>> {
    match matched_text(MARKER_ID_PATTERN@, marker.description) {
        Some(id) => Some("["@ + id + "]"@),
        None => None,
    }
}

/// The bracketed check-id token found in the description of a check.
pub open spec fn embedded_token(p: PropertyView) -> Option<Seq<char>> {
    matched_text(CHECK_TOKEN_PATTERN@, p.description)
}

/// Every marker carries a check id.
pub open spec fn all_have_token(markers: Seq<PropertyView>) -> bool {
    forall|k: int| 0 <= k < markers.len() ==> marker_token(#[trigger] markers[k]) is Some
}

/// No two markers carry the same check id.
pub open spec fn tokens_distinct(markers: Seq<PropertyView>) -> bool {
    forall|j: int, k: int|
        0 <= j < k < markers.len() ==> marker_token(#[trigger] markers[j]) != marker_token(
            #[trigger] markers[k],
        )
}

/// The marker at `k` stands for `token`.
pub open spec fn carries(markers: Seq<PropertyView>, k: int, token: Seq<char>) -> bool {
    0 <= k < markers.len() && marker_token(markers[k]) == Some(token)
}

/// The status of the marker that stands for `token`, where there is one.
pub open spec fn reach_of(markers: Seq<PropertyView>, token: Seq<char>) -> Option<CheckStatus> {
    if exists|k: int| carries(markers, k, token) {
        Some(markers[choose|k: int| carries(markers, k, token)].status)
    } else {
        None
    }
}

/// The check with `reach` set to the status of the marker that stands for
/// the token in its description; unchanged where it holds no token or no
/// marker stands for it.
pub open spec fn annotated(p: PropertyView, markers: Seq<PropertyView>) -> PropertyView {
    match embedded_token(p) {
        Some(token) => match reach_of(markers, token) {
            Some(status) => PropertyView { reach: Some(status), ..p },
            None => p,
        },
        None => p,
    }
}

/// The two patterns of the correlation are regular expressions.
pub open spec fn correlation_patterns_compile() -> bool {
    pattern_compiles(MARKER_ID_PATTERN@) && pattern_compiles(CHECK_TOKEN_PATTERN@)
}

/// Why the markers cannot be correlated with the checks, if they cannot.
pub open spec fn correlation_error(markers: Seq<PropertyView>) -> Option<PostprocessError> {
    if !correlation_patterns_compile() {
        Some(PostprocessError::InvalidPattern)
    } else if !all_have_token(markers) {
        Some(PostprocessError::MissingCheckId)
    } else if !tokens_distinct(markers) {
        Some(PostprocessError::DuplicateCheckId)
    } else {
        None
    }
}

/// A check id in square brackets: the token under which checks refer to it.
pub fn bracketed(check_id: &str) -> (token: String)
    ensures
        token@ == "["@ + check_id@ + "]"@,
{
    let mut check_id_str = String::from_str("[");
    check_id_str.append(check_id);
    check_id_str.append("]");
    check_id_str
}

/// The status of the marker whose token is `token`, where `tokens` holds the
/// tokens of the markers `reach_checks`, one each and in their order: that
/// of the first such marker, `None` where no marker has this token.
pub fn reach_for_token(tokens: &Vec<String>, reach_checks: &Vec<Property>, token: &str) -> (r:
    Option<CheckStatus>)
    requires
        tokens.len() == reach_checks.len(),
    ensures
        match r {
            Some(status) => exists|k: int|
                #[trigger] is_first_place(tokens@, token@, k) && status
                    == reach_checks.deep_view()[k].status,
            None => forall|k: int| 0 <= k < tokens.len() ==> tokens[k]@ != token@,
        },
{
    match position_of(tokens, token) {
        Some(k) => {
            assert(reach_checks.deep_view()[k as int] == reach_checks[k as int]@);
            assert(is_first_place(tokens@, token@, k as int));
            Some(reach_checks[k].status)
        },
        None => None,
    }
}

/// The check with `reach` set to `status`, where there is one.
pub fn with_reach(prop: Property, status: Option<CheckStatus>) -> (r: Property)
    ensures
        r@ == match status {
            Some(s) => PropertyView { reach: Some(s), ..prop@ },
            None => prop@,
        },
{
    match status {
        Some(s) => Property {
            description: prop.description,
            property: prop.property,
            source_location: prop.source_location,
            status: prop.status,
            reach: Some(s),
            trace: prop.trace,
        },
        None => prop,
    }
}

/// The tokens of all markers, in order; `None` where a marker has none.
fn marker_tokens(reach_checks: &Vec<Property>) -> (r: Option<Vec<String>>)
    requires
        pattern_compiles(MARKER_ID_PATTERN@),
    ensures
        match r {
            Some(tokens) => {
                &&& tokens.len() == reach_checks.len()
                &&& forall|k: int|
                    0 <= k < tokens.len() ==> marker_token(
                        #[trigger] reach_checks.deep_view()[k],
                    ) == Some(tokens[k]@)
            },
            None => !all_have_token(reach_checks.deep_view()),
        },
{
    let mut tokens: Vec<String> = Vec::new();
    let mut i: usize = 0;
    while i < reach_checks.len()
        invariant
            i <= reach_checks.len(),
            tokens.len() == i,
            pattern_compiles(MARKER_ID_PATTERN@),
            forall|k: int|
                0 <= k < i ==> marker_token(#[trigger] reach_checks.deep_view()[k]) == Some(
                    tokens[k]@,
                ),
        decreases reach_checks.len() - i,
    {
        let reach_check = &reach_checks[i];
        assert(reach_check@ == reach_checks.deep_view()[i as int]);
        match find_text(MARKER_ID_PATTERN, reach_check.description.as_str()) {
            Some(check_id) => {
                tokens.push(bracketed(check_id.as_str()));
            },
            None => {
                assert(marker_token(reach_checks.deep_view()[i as int]) is None);
                return None;
            },
        }
        i += 1;
    }
    Some(tokens)
}

/// Whether no text occurs twice in `tokens`.
pub fn all_distinct(tokens: &Vec<String>) -> (b: bool)
    ensures
        b == forall|j: int, k: int| 0 <= j < k < tokens.len() ==> tokens[j]@ != tokens[k]@,
{
    let mut k: usize = 0;
    while k < tokens.len()
        invariant
            k <= tokens.len(),
            forall|a: int, b: int| 0 <= a < b < k ==> tokens[a]@ != tokens[b]@,
        decreases tokens.len() - k,
    {
        let mut j: usize = 0;
        while j < k
            invariant
                j <= k < tokens.len(),
                forall|a: int| 0 <= a < j ==> tokens[a]@ != tokens[k as int]@,
            decreases k - j,
        {
            if str_equal(tokens[j].as_str(), tokens[k].as_str()) {
                return false;
            }
            j += 1;
        }
        k += 1;
    }
    true
}

/// `k` is the first place at which `tokens` holds `token`.
pub open spec fn is_first_place(tokens: Seq<String>, token: Seq<char>, k: int) -> bool {
    &&& 0 <= k < tokens.len()
    &&& tokens[k]@ == token
    &&& forall|j: int| 0 <= j < k ==> tokens[j]@ != token
}

/// The first place of `token` in `tokens`.
pub fn position_of(tokens: &Vec<String>, token: &str) -> (r: Option<usize>)
    ensures
        match r {
            Some(k) => is_first_place(tokens@, token@, k as int),
            None => forall|k: int| 0 <= k < tokens.len() ==> tokens[k]@ != token@,
        },
{
    let mut k: usize = 0;
    while k < tokens.len()
        invariant
            k <= tokens.len(),
            forall|j: int| 0 <= j < k ==> tokens[j]@ != token@,
        decreases tokens.len() - k,
    {
        if str_equal(tokens[k].as_str(), token) {
            return Some(k);
        }
        k += 1;
    }
    None
}

/// Correlates the checks with the reachability markers: a check whose
/// description holds the token of a marker gets that marker's status as its
/// `reach`; the others stay as they are. A marker without a check id and two
/// markers with the same id are errors.
pub fn annotate_properties_with_reach_results(
    properties: Vec<Property>,
    reach_checks: Vec<Property>,
) -> (r: Result<Vec<Property>, PostprocessError>)
    ensures
        match r {
            Ok(out) => {
                &&& correlation_error(reach_checks.deep_view()) is None
                &&& out.deep_view() == properties.deep_view().map_values(
                    |p: PropertyView| annotated(p, reach_checks.deep_view()),
                )
            },
            Err(e) => correlation_error(reach_checks.deep_view()) == Some(e),
        },
{
    if !pattern_is_valid(MARKER_ID_PATTERN) || !pattern_is_valid(CHECK_TOKEN_PATTERN) {
        return Err(PostprocessError::InvalidPattern);
    }
    let ghost markers = reach_checks.deep_view();
    let tokens = match marker_tokens(&reach_checks) {
        Some(tokens) => tokens,
        None => {
            return Err(PostprocessError::MissingCheckId);
        },
    };
    assert(all_have_token(markers));
    if !all_distinct(&tokens) {
        proof {
            let (j, k) = choose|j: int, k: int|
                0 <= j < k < tokens.len() && tokens[j]@ == tokens[k]@;
            assert(marker_token(markers[j]) == marker_token(markers[k]));
        }
        return Err(PostprocessError::DuplicateCheckId);
    }
    assert(tokens_distinct(markers)) by {
        assert forall|j: int, k: int| 0 <= j < k < markers.len() implies marker_token(
            #[trigger] markers[j],
        ) != marker_token(#[trigger] markers[k]) by {
            assert(tokens[j]@ != tokens[k]@);
        }
    }
    let ghost all = properties.deep_view();
    let ghost annotate = |p: PropertyView| annotated(p, markers);
    let mut out: Vec<Property> = Vec::new();
    for prop in it: properties
        invariant
            it.seq() == properties@,
            all == properties.deep_view(),
            markers == reach_checks.deep_view(),
            annotate == |p: PropertyView| annotated(p, markers),
            pattern_compiles(CHECK_TOKEN_PATTERN@),
            tokens.len() == reach_checks.len(),
            forall|k: int|
                0 <= k < tokens.len() ==> marker_token(#[trigger] markers[k]) == Some(tokens[k]@),
            tokens_distinct(markers),
            out.deep_view() == all.take(it.index()).map_values(annotate),
    {
        let ghost i = it.index();
        let ghost before = out.deep_view();
        assert(prop@ == all[i]);
        let found = match find_text(CHECK_TOKEN_PATTERN, prop.description.as_str()) {
            Some(token) => {
                let status = reach_for_token(&tokens, &reach_checks, token.as_str());
                proof {
                    match status {
                        Some(_) => {
                            let k = choose|k: int|
                                #[trigger] is_first_place(tokens@, token@, k) && status == Some(
                                    reach_checks.deep_view()[k].status,
                                );
                            assert(carries(markers, k, token@));
                            let c = choose|c: int| carries(markers, c, token@);
                            assert(marker_token(markers[c]) == marker_token(markers[k]));
                            assert(c == k);
                        },
                        None => {
                            assert forall|c: int| !carries(markers, c, token@) by {
                                if 0 <= c < markers.len() {
                                    assert(tokens[c]@ != token@);
                                }
                            }
                        },
                    }
                }
                status
            },
            None => None,
        };
        out.push(with_reach(prop, found));
        assert(out.deep_view() =~= before.push(annotated(all[i], markers)));
        assert(all.take(i + 1).map_values(annotate) =~= all.take(i).map_values(annotate).push(
            annotate(all[i]),
        ));
    }
    assert(all.take(all.len() as int) =~= all);
    Ok(out)
}

/// The check with the check-id token taken out of its description.
pub open spec fn stripped(p: PropertyView) -> PropertyView {
    PropertyView { description: without_match(STRIP_TOKEN_PATTERN@, p.description), ..p }
}

/// Takes the check-id token, and the blank after it, out of the description
/// of every check.
pub fn remove_check_ids_from_description(properties: Vec<Property>) -> (r: Result<
    Vec<Property>,
    PostprocessError,
>)
    ensures
        match r {
            Ok(out) => {
                &&& pattern_compiles(STRIP_TOKEN_PATTERN@)
                &&& out.deep_view() == properties.deep_view().map_values(
                    |p: PropertyView| stripped(p),
                )
            },
            Err(e) => e == PostprocessError::InvalidPattern && !pattern_compiles(
                STRIP_TOKEN_PATTERN@,
            ),
        },
{
    if !pattern_is_valid(STRIP_TOKEN_PATTERN) {
        return Err(PostprocessError::InvalidPattern);
    }
    let ghost all = properties.deep_view();
    let ghost strip = |p: PropertyView| stripped(p);
    let mut out: Vec<Property> = Vec::new();
    for prop in it: properties
        invariant
            it.seq() == properties@,
            all == properties.deep_view(),
            strip == |p: PropertyView| stripped(p),
            pattern_compiles(STRIP_TOKEN_PATTERN@),
            out.deep_view() == all.take(it.index()).map_values(strip),
    {
        let ghost i = it.index();
        let ghost before = out.deep_view();
        assert(prop@ == all[i]);
        let description = remove_first(STRIP_TOKEN_PATTERN, prop.description.as_str());
        out.push(
            Property {
                description,
                property: prop.property,
                source_location: prop.source_location,
                status: prop.status,
                reach: prop.reach,
                trace: prop.trace,
            },
        );
        assert(out.deep_view() =~= before.push(stripped(all[i])));
        assert(all.take(i + 1).map_values(strip) =~= all.take(i).map_values(strip).push(
            strip(all[i]),
        ));
    }
    assert(all.take(all.len() as int) =~= all);
    Ok(out)
}

/// The category of the check holds the name of the pointer-arithmetic or of
/// the pointer-primitive checks.
pub open spec fn is_pointer_check(p: PropertyView) -> bool {
    match category(p.property) {
        Some(c) => contains(c, POINTER_ARITHMETIC@) || contains(c, POINTER_PRIMITIVES@),
        None => false,
    }
}

/// Drops the pointer-arithmetic and pointer-primitive checks. An id without
/// a category is an error.
pub fn filter_ptr_checks(properties: Vec<Property>) -> (r: Result<Vec<Property>, PostprocessError>)
    ensures
        match r {
            Ok(out) => {
                &&& all_categorized(properties.deep_view())
                &&& out.deep_view() == properties.deep_view().filter(
                    |p: PropertyView| !is_pointer_check(p),
                )
            },
            Err(e) => e == PostprocessError::MalformedProperty && !all_categorized(
                properties.deep_view(),
            ),
        },
{
    if !all_have_category(&properties) {
        return Err(PostprocessError::MalformedProperty);
    }
    let ghost all = properties.deep_view();
    let ghost keep = |p: PropertyView| !is_pointer_check(p);
    let mut out: Vec<Property> = Vec::new();
    for prop in it: properties
        invariant
            it.seq() == properties@,
            all == properties.deep_view(),
            keep == |p: PropertyView| !is_pointer_check(p),
            out.deep_view() == all.take(it.index()).filter(keep),
    {
        let ghost i = it.index();
        let ghost before = out.deep_view();
        proof {
            assert(prop@ == all[i]);
            assert(all.take(i + 1) =~= all.take(i).push(all[i]));
            all.take(i).lemma_filter_push(all[i], keep);
        }
        let is_pointer = match extract_property_class(&prop) {
            Some(class) => str_contains(class, POINTER_ARITHMETIC) || str_contains(
                class,
                POINTER_PRIMITIVES,
            ),
            None => false,
        };
        if !is_pointer {
            out.push(prop);
            assert(out.deep_view() =~= before.push(all[i]));
        }
    }
    assert(all.take(all.len() as int) =~= all);
    Ok(out)
}

/// The location of the check is unreachable, yet the check has not passed.
pub open spec fn is_inconsistent(p: PropertyView) -> bool {
    p.reach == Some(CheckStatus::Success) && p.status != CheckStatus::Success
}

/// No check is unreachable without having passed.
pub open spec fn all_consistent(props: Seq<PropertyView>) -> bool {
    forall|i: int| 0 <= i < props.len() ==> !is_inconsistent(#[trigger] props[i])
}

/// The final status of a check. With a fundamental failure in the batch a
/// pass cannot be trusted and becomes undetermined; without one, a check at
/// an unreachable location becomes unreachable.
pub open spec fn final_status(p: PropertyView, has_fundamental_failures: bool) -> CheckStatus {
    if has_fundamental_failures {
        if p.status == CheckStatus::Success {
            CheckStatus::Undetermined
        } else {
            p.status
        }
    } else if p.reach == Some(CheckStatus::Success) {
        CheckStatus::Unreachable
    } else {
        p.status
    }
}

/// The check in its final form: readable description and final status.
pub open spec fn finalized(p: PropertyView, has_fundamental_failures: bool) -> PropertyView {
    PropertyView {
        description: readable_description(p)->0,
        status: final_status(p, has_fundamental_failures),
        ..p
    }
}

/// Why the checks cannot be given their final form, if they cannot.
pub open spec fn final_error(props: Seq<PropertyView>, has_fundamental_failures: bool) -> Option<
    PostprocessError,
> {
    if !all_categorized(props) {
        Some(PostprocessError::MalformedProperty)
    } else if !has_fundamental_failures && !all_consistent(props) {
        Some(PostprocessError::InconsistentReach)
    } else {
        None
    }
}

/// Whether no check is unreachable without having passed.
fn all_reach_consistent(properties: &Vec<Property>) -> (b: bool)
    ensures
        b == all_consistent(properties.deep_view()),
{
    let mut i: usize = 0;
    while i < properties.len()
        invariant
            i <= properties.len(),
            forall|j: int| 0 <= j < i ==> !is_inconsistent(#[trigger] properties.deep_view()[j]),
        decreases properties.len() - i,
    {
        let prop = &properties[i];
        let unreachable = match prop.reach {
            Some(reach) => reach == CheckStatus::Success,
            None => false,
        };
        if unreachable && prop.status != CheckStatus::Success {
            assert(is_inconsistent(properties.deep_view()[i as int]));
            return false;
        }
        i += 1;
    }
    true
}

/// Gives every check its final form: the readable description in place of
/// the model checker's wording, and the final status. An id without a category is
/// an error; so is, where the batch has no fundamental failure, a check at an
/// unreachable location that has not passed.
pub fn final_changes(properties: Vec<Property>, has_fundamental_failures: bool) -> (r: Result<
    Vec<Property>,
    PostprocessError,
>)
    ensures
        match r {
            Ok(out) => {
                &&& final_error(properties.deep_view(), has_fundamental_failures) is None
                &&& out.deep_view() == properties.deep_view().map_values(
                    |p: PropertyView| finalized(p, has_fundamental_failures),
                )
            },
            Err(e) => final_error(properties.deep_view(), has_fundamental_failures) == Some(e),
        },
{
    if !all_have_category(&properties) {
        return Err(PostprocessError::MalformedProperty);
    }
    if !has_fundamental_failures && !all_reach_consistent(&properties) {
        return Err(PostprocessError::InconsistentReach);
    }
    let ghost all = properties.deep_view();
    let ghost finalize = |p: PropertyView| finalized(p, has_fundamental_failures);
    let mut out: Vec<Property> = Vec::new();
    for prop in it: properties
        invariant
            it.seq() == properties@,
            all == properties.deep_view(),
            finalize == |p: PropertyView| finalized(p, has_fundamental_failures),
            all_categorized(all),
            out.deep_view() == all.take(it.index()).map_values(finalize),
    {
        let ghost i = it.index();
        let ghost before = out.deep_view();
        assert(prop@ == all[i]);
        assert(category(all[i].property) is Some);
        let description = match get_readable_description(&prop) {
            Some(description) => description,
            None => prop.description.clone(),
        };
        let unreachable = match prop.reach {
            Some(reach) => reach == CheckStatus::Success,
            None => false,
        };
        let status = if has_fundamental_failures {
            if prop.status == CheckStatus::Success {
                CheckStatus::Undetermined
            } else {
                prop.status
            }
        } else if unreachable {
            CheckStatus::Unreachable
        } else {
            prop.status
        };
        out.push(
            Property {
                description,
                property: prop.property,
                source_location: prop.source_location,
                status,
                reach: prop.reach,
                trace: prop.trace,
            },
        );
        assert(out.deep_view() =~= before.push(finalized(all[i], has_fundamental_failures)));
        assert(all.take(i + 1).map_values(finalize) =~= all.take(i).map_values(finalize).push(
            finalize(all[i]),
        ));
    }
    assert(all.take(all.len() as int) =~= all);
    Ok(out)
}

/// The three search patterns of the pipeline are regular expressions.
pub open spec fn patterns_compile() -> bool {
    &&& pattern_compiles(MARKER_ID_PATTERN@)
    &&& pattern_compiles(CHECK_TOKEN_PATTERN@)
    &&& pattern_compiles(STRIP_TOKEN_PATTERN@)
}

/// The batch holds a failure that makes every pass in it doubtful: a failed
/// check on an unsupported construct, a failed unwinding assertion, or a
/// failed check of an undefined function.
pub open spec fn has_fundamental_failures(all: Seq<PropertyView>) -> bool {
    ||| spec_has_check_failures(all, UNSUPPORTED_CONSTRUCT_DESC@)
    ||| spec_has_check_failures(all, UNWINDING_ASSERT_DESC@)
    ||| has_reachable_undefined(all)
}

/// The batch after the checks of undefined functions got their description.
pub open spec fn rewritten_checks(all: Seq<PropertyView>) -> Seq<PropertyView> {
    all.map_values(|p: PropertyView| undefined_rewritten(p))
}

/// The reachability markers of the batch, in order.
pub open spec fn reach_markers(all: Seq<PropertyView>) -> Seq<PropertyView> {
    spec_with(rewritten_checks(all), REACH_CHECK_DESC@)
}

/// The real checks of the batch, in order: no markers, and no housekeeping
/// checks that have passed.
pub open spec fn real_checks(all: Seq<PropertyView>) -> Seq<PropertyView> {
    spec_without(rewritten_checks(all), REACH_CHECK_DESC@).filter(
        |p: PropertyView| !is_passed_sanity_check(p),
    )
}

/// The real checks, each with its `reach` set from the markers and then with
/// the check-id token taken out of its description.
pub open spec fn correlated_checks(all: Seq<PropertyView>) -> Seq<PropertyView> {
    real_checks(all).map_values(|p: PropertyView| annotated(p, reach_markers(all))).map_values(
        |p: PropertyView| stripped(p),
    )
}

/// The checks that the report will show: all correlated checks where the
/// extra pointer checks are asked for, else those that are no pointer checks.
pub open spec fn shown_checks(all: Seq<PropertyView>, extra_ptr_checks: bool) -> Seq<
    PropertyView,
> {
    if extra_ptr_checks {
        correlated_checks(all)
    } else {
        correlated_checks(all).filter(|p: PropertyView| !is_pointer_check(p))
    }
}

/// Why the batch has no final form, if it has none. The conditions are
/// tried in this order.
pub open spec fn postprocess_error(all: Seq<PropertyView>, extra_ptr_checks: bool) -> Option<
    PostprocessError,
> {
    if !patterns_compile() {
        Some(PostprocessError::InvalidPattern)
    } else if !all_categorized(all) {
        Some(PostprocessError::MalformedProperty)
    } else if !all_have_token(reach_markers(all)) {
        Some(PostprocessError::MissingCheckId)
    } else if !tokens_distinct(reach_markers(all)) {
        Some(PostprocessError::DuplicateCheckId)
    } else if !has_fundamental_failures(all) && !all_consistent(
        shown_checks(all, extra_ptr_checks),
    ) {
        Some(PostprocessError::InconsistentReach)
    } else {
        None
    }
}

/// The final form of the batch.
pub open spec fn final_checks(all: Seq<PropertyView>, extra_ptr_checks: bool) -> Seq<
    PropertyView,
> {
    shown_checks(all, extra_ptr_checks).map_values(
        |p: PropertyView| finalized(p, has_fundamental_failures(all)),
    )
}

/// The outcome of the pipeline on a batch: the error, or the final checks
/// with the verdict on them.
pub open spec fn spec_postprocess_result(all: Seq<PropertyView>, extra_ptr_checks: bool) -> Result<
    (Seq<PropertyView>, bool),
    PostprocessError,
> {
    match postprocess_error(all, extra_ptr_checks) {
        Some(e) => Err(e),
        None => Ok(
            (
                final_checks(all, extra_ptr_checks),
                spec_determine_result(final_checks(all, extra_ptr_checks)),
            ),
        ),
    }
}

/// Filtering keeps every id with its category.
pub proof fn lemma_filter_categorized(props: Seq<PropertyView>, keep: spec_fn(PropertyView) -> bool)
    requires
        all_categorized(props),
    ensures
        all_categorized(props.filter(keep)),
{
    let kept = props.filter(keep);
    assert forall|i: int| 0 <= i < kept.len() implies category(#[trigger] kept[i].property)
        is Some by {
        assert(kept.contains(kept[i]));
        props.lemma_filter_contains_rev(keep, kept[i]);
        let j = choose|j: int| 0 <= j < props.len() && props[j] == kept[i];
        assert(category(props[j].property) is Some);
    }
}

/// A change that leaves the ids alone keeps every id with its category.
pub proof fn lemma_map_categorized(
    props: Seq<PropertyView>,
    change: spec_fn(PropertyView) -> PropertyView,
)
    requires
        all_categorized(props),
        forall|p: PropertyView| (#[trigger] change(p)).property == p.property,
    ensures
        all_categorized(props.map_values(change)),
{
    let changed = props.map_values(change);
    assert forall|i: int| 0 <= i < changed.len() implies category(#[trigger] changed[i].property)
        is Some by {
        assert(category(props[i].property) is Some);
    }
}

/// In a batch whose ids all have a category, so have the ids at every stage
/// of the pipeline.
pub proof fn lemma_stages_categorized(all: Seq<PropertyView>, extra_ptr_checks: bool)
    requires
        all_categorized(all),
    ensures
        all_categorized(rewritten_checks(all)),
        all_categorized(spec_without(rewritten_checks(all), REACH_CHECK_DESC@)),
        all_categorized(real_checks(all)),
        all_categorized(
            real_checks(all).map_values(|p: PropertyView| annotated(p, reach_markers(all))),
        ),
        all_categorized(correlated_checks(all)),
        all_categorized(shown_checks(all, extra_ptr_checks)),
{
    let rewrite = |p: PropertyView| undefined_rewritten(p);
    lemma_map_categorized(all, rewrite);
    let without = |p: PropertyView| !contains(p.description, REACH_CHECK_DESC@);
    lemma_filter_categorized(rewritten_checks(all), without);
    let sane = |p: PropertyView| !is_passed_sanity_check(p);
    lemma_filter_categorized(spec_without(rewritten_checks(all), REACH_CHECK_DESC@), sane);
    let annotate = |p: PropertyView| annotated(p, reach_markers(all));
    lemma_map_categorized(real_checks(all), annotate);
    let strip = |p: PropertyView| stripped(p);
    lemma_map_categorized(real_checks(all).map_values(annotate), strip);
    let no_pointer = |p: PropertyView| !is_pointer_check(p);
    lemma_filter_categorized(correlated_checks(all), no_pointer);
}

/// Brings a batch of checks into its final form and gives the verdict on it.
///
/// In order: the checks of undefined functions get their description; the
/// reachability markers are set apart; housekeeping checks that passed are
/// dropped; each check gets the status of its marker as `reach`; the check-id
/// tokens leave the descriptions; unless `extra_ptr_checks` is set the pointer
/// checks are dropped; every remaining check gets its readable description
/// and final status. The verdict is `true` exactly when no final check has
/// failed. The checks keep the order of the input.
pub fn postprocess_result(properties: Vec<Property>, extra_ptr_checks: bool) -> (r: Result<
    (Vec<Property>, bool),
    PostprocessError,
>)
    ensures
        match r {
            Ok((checks, verdict)) => spec_postprocess_result(
                properties.deep_view(),
                extra_ptr_checks,
            ) == Ok::<(Seq<PropertyView>, bool), PostprocessError>((checks.deep_view(), verdict)),
            Err(e) => spec_postprocess_result(properties.deep_view(), extra_ptr_checks) == Err::<
                (Seq<PropertyView>, bool),
                PostprocessError,
            >(e),
        },
        r matches Ok((checks, _)) ==> checks.len() <= properties.len(),
{
    let ghost all = properties.deep_view();
    proof {
        law_pipeline_only_removes(all, extra_ptr_checks);
    }
    if !pattern_is_valid(MARKER_ID_PATTERN) || !pattern_is_valid(CHECK_TOKEN_PATTERN)
        || !pattern_is_valid(STRIP_TOKEN_PATTERN) {
        return Err(PostprocessError::InvalidPattern);
    }
    let has_reachable_unsupported_constructs = has_check_failures(
        &properties,
        UNSUPPORTED_CONSTRUCT_DESC,
    );
    let has_failed_unwinding_asserts = has_check_failures(&properties, UNWINDING_ASSERT_DESC);
    let (properties_with_undefined, has_reachable_undefined_functions) =
        match modify_undefined_function_checks(properties) {
        Ok(modified) => modified,
        Err(e) => {
            return Err(e);
        },
    };
    proof {
        lemma_stages_categorized(all, extra_ptr_checks);
    }
    let (properties_without_reachs, reach_checks) = filter_reach_checks(properties_with_undefined);
    let properties_without_sanity_checks = match filter_sanity_checks(properties_without_reachs) {
        Ok(kept) => kept,
        Err(e) => {
            return Err(e);
        },
    };
    let properties_annotated = match annotate_properties_with_reach_results(
        properties_without_sanity_checks,
        reach_checks,
    ) {
        Ok(annotated) => annotated,
        Err(e) => {
            return Err(e);
        },
    };
    let properties_without_ids = match remove_check_ids_from_description(properties_annotated) {
        Ok(stripped) => stripped,
        Err(e) => {
            return Err(e);
        },
    };
    let new_properties = if !extra_ptr_checks {
        match filter_ptr_checks(properties_without_ids) {
            Ok(kept) => kept,
            Err(e) => {
                return Err(e);
            },
        }
    } else {
        properties_without_ids
    };
    let has_fundamental_failures = has_reachable_unsupported_constructs
        || has_failed_unwinding_asserts || has_reachable_undefined_functions;
    let final_properties = match final_changes(new_properties, has_fundamental_failures) {
        Ok(finalized) => finalized,
        Err(e) => {
            return Err(e);
        },
    };
    let overall_result = determine_result(&final_properties);
    Ok((final_properties, overall_result))
}

} // verus!
