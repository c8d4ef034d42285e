//! Readable descriptions: the table that turns the model checker's wording into
//! the wording shown to the user, category by category.

use vstd::prelude::*;
use vstd::string::*;
use crate::category::{category, extract_property_class};
use crate::text::{contains, str_contains, str_equal};
use crate::types::{Property, PropertyView};

verus! {

/// One line of the table: the wording to look for in a description, and the
/// wording shown in its place where that is another one.
pub type Alias = (&'static str, Option<&'static str>);

/// A line of the table as sequences of characters.
pub type AliasView = (Seq<char>, Option<Seq<char>>);

/// The lines of the table for the category `error_label`, in the order in which
/// they are tried.
pub open spec fn error_label_aliases() -> Seq<AliasView> {
    Seq::empty()
}

fn error_label_table() -> (table: Vec<Alias>)
    ensures
        table.deep_view() == error_label_aliases(),
{
    let table: Vec<Alias> = Vec::new();
    assert(table.deep_view() =~= error_label_aliases());
    table
}

/// The lines of the table for the category `division-by-zero`, in the order in which
/// they are tried.
pub open spec fn division_by_zero_aliases() -> Seq<AliasView> {
    seq![
        ("division by zero"@, None),
    ]
}

fn division_by_zero_table() -> (table: Vec<Alias>)
    ensures
        table.deep_view() == division_by_zero_aliases(),
{
    let table: Vec<Alias> = vec![
        ("division by zero", None),
    ];
    assert(table.deep_view() =~= division_by_zero_aliases());
    table
}

/// The lines of the table for the category `enum-range-check`, in the order in which
/// they are tried.
pub open spec fn enum_range_check_aliases() -> Seq<AliasView> {
    seq![
        ("enum range check"@, None),
    ]
}

fn enum_range_check_table() -> (table: Vec<Alias>)
    ensures
        table.deep_view() == enum_range_check_aliases(),
{
    let table: Vec<Alias> = vec![
        ("enum range check", None),
    ];
    assert(table.deep_view() =~= enum_range_check_aliases());
    table
}

/// The lines of the table for the category `undefined-shift`, in the order in which
/// they are tried.
pub open spec fn undefined_shift_aliases() -> Seq<AliasView> {
    seq![
        ("shift distance is negative"@, None),
        ("shift distance too large"@, None),
        ("shift operand is negative"@, None),
        ("shift of non-integer type"@, None),
    ]
}

fn undefined_shift_table() -> (table: Vec<Alias>)
    ensures
        table.deep_view() == undefined_shift_aliases(),
{
    let table: Vec<Alias> = vec![
        ("shift distance is negative", None),
        ("shift distance too large", None),
        ("shift operand is negative", None),
        ("shift of non-integer type", None),
    ];
    assert(table.deep_view() =~= undefined_shift_aliases());
    table
}

/// The lines of the table for the category `overflow`, in the order in which
/// they are tried.
pub open spec fn overflow_aliases() -> Seq<AliasView> {
    seq![
        ("result of signed mod is not representable"@, None),
        ("arithmetic overflow on signed type conversion"@, None),
        ("arithmetic overflow on signed division"@, None),
        ("arithmetic overflow on signed unary minus"@, None),
        ("arithmetic overflow on signed shl"@, None),
        ("arithmetic overflow on unsigned unary minus"@, None),
        ("arithmetic overflow on signed +"@, Some("arithmetic overflow on signed addition"@)),
        ("arithmetic overflow on signed -"@, Some("arithmetic overflow on signed subtraction"@)),
        ("arithmetic overflow on signed *"@, Some("arithmetic overflow on signed multiplication"@)),
        ("arithmetic overflow on unsigned +"@, Some("arithmetic overflow on unsigned addition"@)),
        ("arithmetic overflow on unsigned -"@, Some("arithmetic overflow on unsigned subtraction"@)),
        ("arithmetic overflow on unsigned *"@, Some("arithmetic overflow on unsigned multiplication"@)),
        ("arithmetic overflow on floating-point typecast"@, None),
        ("arithmetic overflow on floating-point division"@, None),
        ("arithmetic overflow on floating-point addition"@, None),
        ("arithmetic overflow on floating-point subtraction"@, None),
        ("arithmetic overflow on floating-point multiplication"@, None),
        ("arithmetic overflow on unsigned to signed type conversion"@, None),
        ("arithmetic overflow on float to signed integer type conversion"@, None),
        ("arithmetic overflow on signed to unsigned type conversion"@, None),
        ("arithmetic overflow on unsigned to unsigned type conversion"@, None),
        ("arithmetic overflow on float to unsigned integer type conversion"@, None),
    ]
}

fn overflow_table() -> (table: Vec<Alias>)
    ensures
        table.deep_view() == overflow_aliases(),
{
    let table: Vec<Alias> = vec![
        ("result of signed mod is not representable", None),
        ("arithmetic overflow on signed type conversion", None),
        ("arithmetic overflow on signed division", None),
        ("arithmetic overflow on signed unary minus", None),
        ("arithmetic overflow on signed shl", None),
        ("arithmetic overflow on unsigned unary minus", None),
        ("arithmetic overflow on signed +", Some("arithmetic overflow on signed addition")),
        ("arithmetic overflow on signed -", Some("arithmetic overflow on signed subtraction")),
        ("arithmetic overflow on signed *", Some("arithmetic overflow on signed multiplication")),
        ("arithmetic overflow on unsigned +", Some("arithmetic overflow on unsigned addition")),
        ("arithmetic overflow on unsigned -", Some("arithmetic overflow on unsigned subtraction")),
        ("arithmetic overflow on unsigned *", Some("arithmetic overflow on unsigned multiplication")),
        ("arithmetic overflow on floating-point typecast", None),
        ("arithmetic overflow on floating-point division", None),
        ("arithmetic overflow on floating-point addition", None),
        ("arithmetic overflow on floating-point subtraction", None),
        ("arithmetic overflow on floating-point multiplication", None),
        ("arithmetic overflow on unsigned to signed type conversion", None),
        ("arithmetic overflow on float to signed integer type conversion", None),
        ("arithmetic overflow on signed to unsigned type conversion", None),
        ("arithmetic overflow on unsigned to unsigned type conversion", None),
        ("arithmetic overflow on float to unsigned integer type conversion", None),
    ];
    assert(table.deep_view() =~= overflow_aliases());
    table
}

/// The lines of the table for the category `NaN`, in the order in which
/// they are tried.
pub open spec fn nan_aliases() -> Seq<AliasView> {
    seq![
        ("NaN on +"@, Some("NaN on addition"@)),
        ("NaN on -"@, Some("NaN on subtraction"@)),
        ("NaN on /"@, Some("NaN on division"@)),
        ("NaN on *"@, Some("NaN on multiplication"@)),
    ]
}

fn nan_table() -> (table: Vec<Alias>)
    ensures
        table.deep_view() == nan_aliases(),
{
    let table: Vec<Alias> = vec![
        ("NaN on +", Some("NaN on addition")),
        ("NaN on -", Some("NaN on subtraction")),
        ("NaN on /", Some("NaN on division")),
        ("NaN on *", Some("NaN on multiplication")),
    ];
    assert(table.deep_view() =~= nan_aliases());
    table
}

/// The lines of the table for the category `pointer`, in the order in which
/// they are tried.
pub open spec fn pointer_aliases() -> Seq<AliasView> {
    seq![
        ("same object violation"@, None),
    ]
}

fn pointer_table() -> (table: Vec<Alias>)
    ensures
        table.deep_view() == pointer_aliases(),
{
    let table: Vec<Alias> = vec![
        ("same object violation", None),
    ];
    assert(table.deep_view() =~= pointer_aliases());
    table
}

/// The lines of the table for the category `pointer_arithmetic`, in the order in which
/// they are tried.
pub open spec fn pointer_arithmetic_aliases() -> Seq<AliasView> {
    seq![
        ("pointer relation: deallocated dynamic object"@, None),
        ("pointer relation: dead object"@, None),
        ("pointer relation: pointer NULL"@, None),
        ("pointer relation: pointer invalid"@, None),
        ("pointer relation: pointer outside dynamic object bounds"@, None),
        ("pointer relation: pointer outside object bounds"@, None),
        ("pointer relation: invalid integer address"@, None),
        ("pointer arithmetic: deallocated dynamic object"@, None),
        ("pointer arithmetic: dead object"@, None),
        ("pointer arithmetic: pointer NULL"@, None),
        ("pointer arithmetic: pointer invalid"@, None),
        ("pointer arithmetic: pointer outside dynamic object bounds"@, None),
        ("pointer arithmetic: pointer outside object bounds"@, None),
        ("pointer arithmetic: invalid integer address"@, None),
    ]
}

fn pointer_arithmetic_table() -> (table: Vec<Alias>)
    ensures
        table.deep_view() == pointer_arithmetic_aliases(),
{
    let table: Vec<Alias> = vec![
        ("pointer relation: deallocated dynamic object", None),
        ("pointer relation: dead object", None),
        ("pointer relation: pointer NULL", None),
        ("pointer relation: pointer invalid", None),
        ("pointer relation: pointer outside dynamic object bounds", None),
        ("pointer relation: pointer outside object bounds", None),
        ("pointer relation: invalid integer address", None),
        ("pointer arithmetic: deallocated dynamic object", None),
        ("pointer arithmetic: dead object", None),
        ("pointer arithmetic: pointer NULL", None),
        ("pointer arithmetic: pointer invalid", None),
        ("pointer arithmetic: pointer outside dynamic object bounds", None),
        ("pointer arithmetic: pointer outside object bounds", None),
        ("pointer arithmetic: invalid integer address", None),
    ];
    assert(table.deep_view() =~= pointer_arithmetic_aliases());
    table
}

/// The lines of the table for the category `pointer_dereference`, in the order in which
/// they are tried.
pub open spec fn pointer_dereference_aliases() -> Seq<AliasView> {
    seq![
        ("dereferenced function pointer must be"@, Some("dereference failure: invalid function pointer"@)),
        ("dereference failure: pointer NULL"@, None),
        ("dereference failure: pointer invalid"@, None),
        ("dereference failure: deallocated dynamic object"@, None),
        ("dereference failure: dead object"@, None),
        ("dereference failure: pointer outside dynamic object bounds"@, None),
        ("dereference failure: pointer outside object bounds"@, None),
        ("dereference failure: invalid integer address"@, None),
    ]
}

fn pointer_dereference_table() -> (table: Vec<Alias>)
    ensures
        table.deep_view() == pointer_dereference_aliases(),
{
    let table: Vec<Alias> = vec![
        ("dereferenced function pointer must be", Some("dereference failure: invalid function pointer")),
        ("dereference failure: pointer NULL", None),
        ("dereference failure: pointer invalid", None),
        ("dereference failure: deallocated dynamic object", None),
        ("dereference failure: dead object", None),
        ("dereference failure: pointer outside dynamic object bounds", None),
        ("dereference failure: pointer outside object bounds", None),
        ("dereference failure: invalid integer address", None),
    ];
    assert(table.deep_view() =~= pointer_dereference_aliases());
    table
}

/// The lines of the table for the category `pointer_primitives`, in the order in which
/// they are tried.
pub open spec fn pointer_primitives_aliases() -> Seq<AliasView> {
    seq![
        ("pointer invalid"@, None),
        ("deallocated dynamic object"@, Some("pointer to deallocated dynamic object"@)),
        ("dead object"@, Some("pointer to dead object"@)),
        ("pointer outside dynamic object bounds"@, None),
        ("pointer outside object bounds"@, None),
        ("invalid integer address"@, None),
    ]
}

fn pointer_primitives_table() -> (table: Vec<Alias>)
    ensures
        table.deep_view() == pointer_primitives_aliases(),
{
    let table: Vec<Alias> = vec![
        ("pointer invalid", None),
        ("deallocated dynamic object", Some("pointer to deallocated dynamic object")),
        ("dead object", Some("pointer to dead object")),
        ("pointer outside dynamic object bounds", None),
        ("pointer outside object bounds", None),
        ("invalid integer address", None),
    ];
    assert(table.deep_view() =~= pointer_primitives_aliases());
    table
}

/// The lines of the table for the category `array_bounds`, in the order in which
/// they are tried.
pub open spec fn array_bounds_aliases() -> Seq<AliasView> {
    seq![
        ("lower bound"@, Some("index out of bounds"@)),
        ("upper bound"@, Some("index out of bounds: the length is less than or equal to the given index"@)),
    ]
}

fn array_bounds_table() -> (table: Vec<Alias>)
    ensures
        table.deep_view() == array_bounds_aliases(),
{
    let table: Vec<Alias> = vec![
        ("lower bound", Some("index out of bounds")),
        ("upper bound", Some("index out of bounds: the length is less than or equal to the given index")),
    ];
    assert(table.deep_view() =~= array_bounds_aliases());
    table
}

/// The lines of the table for the category `bit_count`, in the order in which
/// they are tried.
pub open spec fn bit_count_aliases() -> Seq<AliasView> {
    seq![
        ("count trailing zeros is undefined for value zero"@, None),
        ("count leading zeros is undefined for value zero"@, None),
    ]
}

fn bit_count_table() -> (table: Vec<Alias>)
    ensures
        table.deep_view() == bit_count_aliases(),
{
    let table: Vec<Alias> = vec![
        ("count trailing zeros is undefined for value zero", None),
        ("count leading zeros is undefined for value zero", None),
    ];
    assert(table.deep_view() =~= bit_count_aliases());
    table
}

/// The lines of the table for the category `memory-leak`, in the order in which
/// they are tried.
pub open spec fn memory_leak_aliases() -> Seq<AliasView> {
    seq![
        ("dynamically allocated memory never freed"@, None),
    ]
}

fn memory_leak_table() -> (table: Vec<Alias>)
    ensures
        table.deep_view() == memory_leak_aliases(),
{
    let table: Vec<Alias> = vec![
        ("dynamically allocated memory never freed", None),
    ];
    assert(table.deep_view() =~= memory_leak_aliases());
    table
}

/// The lines of the table for `category`; none for a category that the table
/// does not know.
pub open spec fn aliases_of(category: Seq<char>) -> Seq<AliasView> {
    if category == "error_label"@ {
        error_label_aliases()
    } else if category == "division-by-zero"@ {
        division_by_zero_aliases()
    } else if category == "enum-range-check"@ {
        enum_range_check_aliases()
    } else if category == "undefined-shift"@ {
        undefined_shift_aliases()
    } else if category == "overflow"@ {
        overflow_aliases()
    } else if category == "NaN"@ {
        nan_aliases()
    } else if category == "pointer"@ {
        pointer_aliases()
    } else if category == "pointer_arithmetic"@ {
        pointer_arithmetic_aliases()
    } else if category == "pointer_dereference"@ {
        pointer_dereference_aliases()
    } else if category == "pointer_primitives"@ {
        pointer_primitives_aliases()
    } else if category == "array_bounds"@ {
        array_bounds_aliases()
    } else if category == "bit_count"@ {
        bit_count_aliases()
    } else if category == "memory-leak"@ {
        memory_leak_aliases()
    } else {
        Seq::empty()
    }
}

/// Looks up the lines of the table for `category`.
pub fn description_alternatives(category: &str) -> (table: Vec<Alias>)
    ensures
        table.deep_view() == aliases_of(category@),
{
    if str_equal(category, "error_label") {
        error_label_table()
    } else if str_equal(category, "division-by-zero") {
        division_by_zero_table()
    } else if str_equal(category, "enum-range-check") {
        enum_range_check_table()
    } else if str_equal(category, "undefined-shift") {
        undefined_shift_table()
    } else if str_equal(category, "overflow") {
        overflow_table()
    } else if str_equal(category, "NaN") {
        nan_table()
    } else if str_equal(category, "pointer") {
        pointer_table()
    } else if str_equal(category, "pointer_arithmetic") {
        pointer_arithmetic_table()
    } else if str_equal(category, "pointer_dereference") {
        pointer_dereference_table()
    } else if str_equal(category, "pointer_primitives") {
        pointer_primitives_table()
    } else if str_equal(category, "array_bounds") {
        array_bounds_table()
    } else if str_equal(category, "bit_count") {
        bit_count_table()
    } else if str_equal(category, "memory-leak") {
        memory_leak_table()
    } else {
        let table: Vec<Alias> = Vec::new();
        assert(table.deep_view() =~= Seq::<AliasView>::empty());
        table
    }
}

/// The wording that a line of the table shows.
pub open spec fn shown(alias: AliasView) -> Seq<char> {
    match alias.1 {
        Some(replacement) => replacement,
        None => alias.0,
    }
}

/// The wording shown for `description` by the first line of `table`, from
/// line `from` on, whose wording the description holds.
pub open spec fn first_alias(table: Seq<AliasView>, description: Seq<char>, from: int) -> Option<
    Seq<char>,
>
    decreases table.len() - from,
{
    if from < 0 || from >= table.len() {
        None
    } else if contains(description, table[from].0) {
        Some(shown(table[from]))
    } else {
        first_alias(table, description, from + 1)
    }
}

/// The description shown for a check of the category `category`: that of the
/// first matching line of the category's table, else the description itself.
pub open spec fn readable(category: Seq<char>, description: Seq<char>) -> Seq<char> {
    match first_alias(aliases_of(category), description, 0) {
        Some(alias) => alias,
        None => description,
    }
}

/// The description shown for the check; `None` where its id has no category.
pub open spec fn readable_description(p: PropertyView) -> Option<Seq<char>> {
    match category(p.property) {
        Some(c) => Some(readable(c, p.description)),
        None => None,
    }
}

/// The description shown for the check: the wording of the first line of its
/// category's table that the description matches, else the description as it
/// is. `None` where the id of the check has no category.
pub fn get_readable_description(property: &Property) -> (r: Option<String>)
    ensures
        r.deep_view() == readable_description(property@),
{
    let description = property.description.clone();
    let class_id = match extract_property_class(property) {
        Some(c) => c,
        None => {
            return None;
        },
    };
    let alt_descriptions = description_alternatives(class_id);
    let ghost table = aliases_of(class_id@);
    let mut i: usize = 0;
    while i < alt_descriptions.len()
        invariant
            i <= alt_descriptions.len(),
            alt_descriptions.deep_view() == table,
            table == aliases_of(class_id@),
            category(property@.property) == Some(class_id@),
            description@ == property@.description,
            first_alias(table, description@, 0) == first_alias(table, description@, i as int),
        decreases alt_descriptions.len() - i,
    {
        let (desc_to_match, opt_desc_to_replace) = alt_descriptions[i];
        assert(table[i as int] == (desc_to_match@, opt_desc_to_replace.deep_view()));
        if str_contains(description.as_str(), desc_to_match) {
            return match opt_desc_to_replace {
                Some(desc_to_replace) => Some(String::from_str(desc_to_replace)),
                None => Some(String::from_str(desc_to_match)),
            };
        }
        i += 1;
    }
    Some(description)
}

} // verus!
