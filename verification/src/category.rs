//! The category of a check: the second-to-last segment of its dotted id.

use vstd::prelude::*;
use vstd::string::*;
use crate::text::chars_of;
use crate::types::Property;

verus! {

/// Offset of the last `.` in `s`, if it holds one.
pub open spec fn last_dot(s: Seq<char>) -> Option<int>
    decreases s.len(),
{
    if s.len() == 0 {
        None
    } else if s.last() == '.' {
        Some(s.len() - 1)
    } else {
        last_dot(s.drop_last())
    }
}

/// The second-to-last of the segments that the dots of `id` delimit; `None`
/// where `id` has fewer than two segments.
pub open spec fn category(id: Seq<char>) -> Option<Seq<char>> {
    match last_dot(id) {
        None => None,
        Some(end) => {
            let head = id.take(end);
            match last_dot(head) {
                None => Some(head),
                Some(dot) => Some(head.skip(dot + 1)),
            }
        },
    }
}

/// Offset of the last `.` among the first `end` characters.
fn find_last_dot(chars: &Vec<char>, end: usize) -> (r: Option<usize>)
    requires
        end <= chars.len(),
    ensures
        match r {
            Some(d) => last_dot(chars@.take(end as int)) == Some(d as int) && d < end,
            None => last_dot(chars@.take(end as int)) is None,
        },
{
    let mut i: usize = end;
    while i > 0
        invariant
            i <= end <= chars.len(),
            last_dot(chars@.take(end as int)) == last_dot(chars@.take(i as int)),
        decreases i,
    {
        assert(chars@.take(i as int).drop_last() =~= chars@.take(i - 1));
        if chars[i - 1] == '.' {
            return Some(i - 1);
        }
        i -= 1;
    }
    None
}

/// The category of the check, taken from its id.
pub fn extract_property_class(property: &Property) -> (r: Option<&str>)
    ensures
        r.deep_view() == category(property@.property),
{
    let id = property.property.as_str();
    let chars = chars_of(id);
    assert(chars@.take(chars@.len() as int) =~= chars@);
    match find_last_dot(&chars, chars.len()) {
        None => None,
        Some(end) => {
            assert(chars@.take(end as int).take(end as int) =~= chars@.take(end as int));
            let start = match find_last_dot(&chars, end) {
                None => 0,
                Some(dot) => dot + 1,
            };
            proof {
                let head = id@.take(end as int);
                assert(id@.subrange(start as int, end as int) =~= head.skip(start as int));
                assert(head.skip(0) =~= head);
            }
            Some(id.substring_char(start, end))
        },
    }
}

} // verus!
