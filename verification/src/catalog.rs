//! The courses of the library, taken together.

use crate::course::CourseView;
use crate::graph::graph_of;
use crate::interval_comparison;
use crate::melody_singback;
use crate::namespace::{lemma_qualified_unique, qualified};
use crate::numbering::{canonical, lemma_canonical_without_colon, placed};
use vstd::prelude::*;

verus! {

/// The two courses qualify no two short identifiers alike.
proof fn lemma_courses_apart(first: Seq<char>, second: Seq<char>)
    requires
        canonical(first),
        canonical(second),
    ensures
        qualified(interval_comparison::COURSE_ID@, first) != qualified(
            melody_singback::COURSE_ID@,
            second,
        ),
{
    reveal_strlit("trane::music::earmaster::interval_comparison");
    reveal_strlit("trane::music::earmaster::melody_singback");
    lemma_canonical_without_colon(first);
    lemma_canonical_without_colon(second);
    if qualified(interval_comparison::COURSE_ID@, first) == qualified(
        melody_singback::COURSE_ID@,
        second,
    ) {
        lemma_qualified_unique(
            interval_comparison::COURSE_ID@,
            first,
            melody_singback::COURSE_ID@,
            second,
        );
        assert(interval_comparison::COURSE_ID@.len() == 44);
        assert(melody_singback::COURSE_ID@.len() == 40);
    }
}

/// No lesson of the course "Interval Comparison" has the global identifier
/// of a lesson of the course "Melody Singback".
pub proof fn lemma_graphs_apart(first: CourseView, second: CourseView, global_id: Seq<char>)
    requires
        interval_comparison::declared(first),
        melody_singback::declared(second),
    ensures
        !(graph_of(first).contains(global_id) && graph_of(second).contains(global_id)),
{
    let one = graph_of(first);
    let other = graph_of(second);
    if one.contains(global_id) && other.contains(global_id) {
        let i = choose|i: int|
            0 <= i < one.nodes.len() && (#[trigger] one.nodes[i]).global_id == global_id;
        let j = choose|j: int|
            0 <= j < other.nodes.len() && (#[trigger] other.nodes[j]).global_id == global_id;
        assert(placed(first.lessons[i], interval_comparison::numbering(), i));
        assert(placed(second.lessons[j], melody_singback::numbering(), j));
        lemma_courses_apart(first.lessons[i].short_id, second.lessons[j].short_id);
    }
}

} // verus!
