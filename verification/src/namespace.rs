//! Course-qualified lesson identifiers.
//!
//! A lesson is known inside its course by a short identifier. Outside the
//! course it is known by the course identifier, a separator and the short
//! identifier, joined in that order.

use crate::error::{BuildError, ErrorView};
use vstd::prelude::*;
use vstd::string::*;

verus! {

/// The text between a course identifier and a short identifier.
pub open spec fn separator() -> Seq<char> {
    seq![':', ':']
}

/// The global identifier of the lesson `short_id` of the course `course_id`.
pub open spec fn qualified(course_id: Seq<char>, short_id: Seq<char>) -> Seq<char> {
    course_id + separator() + short_id
}

/// Both parts of an identifier are present.
pub open spec fn well_formed(course_id: Seq<char>, short_id: Seq<char>) -> bool {
    course_id.len() > 0 && short_id.len() > 0
}

/// Within one course, two short identifiers with the same global identifier
/// are the same short identifier.
pub proof fn lemma_qualified_injective(course_id: Seq<char>, first: Seq<char>, second: Seq<char>)
    requires
        qualified(course_id, first) == qualified(course_id, second),
    ensures
        first == second,
{
    let prefix = course_id + separator();
    let a = qualified(course_id, first);
    let b = qualified(course_id, second);
    assert(a.len() == prefix.len() + first.len());
    assert(b.len() == prefix.len() + second.len());
    assert forall|i: int| 0 <= i < first.len() implies first[i] == second[i] by {
        assert(a[prefix.len() + i] == first[i]);
        assert(b[prefix.len() + i] == second[i]);
    }
    assert(first =~= second);
}

/// Short identifiers without a colon keep courses apart: two lessons with
/// the same global identifier are then the same lesson of the same course.
pub proof fn lemma_qualified_unique(
    first_course: Seq<char>,
    first: Seq<char>,
    second_course: Seq<char>,
    second: Seq<char>,
)
    requires
        !first.contains(':'),
        !second.contains(':'),
        qualified(first_course, first) == qualified(second_course, second),
    ensures
        first_course == second_course,
        first == second,
{
    let a = qualified(first_course, first);
    let b = qualified(second_course, second);
    assert(a.len() == first_course.len() + 2 + first.len());
    assert(b.len() == second_course.len() + 2 + second.len());
    if first.len() < second.len() {
        let at = first_course.len() as int + 1;
        assert(a[at] == ':');
        assert(b[at] == second[at - second_course.len() - 2]);
    } else if second.len() < first.len() {
        let at = second_course.len() as int + 1;
        assert(b[at] == ':');
        assert(a[at] == first[at - first_course.len() - 2]);
    } else {
        assert forall|i: int| 0 <= i < first_course.len() implies first_course[i]
            == second_course[i] by {
            assert(a[i] == first_course[i]);
            assert(b[i] == second_course[i]);
        }
        assert(first_course =~= second_course);
        lemma_qualified_injective(first_course, first, second);
    }
}

/// What qualifying gives: the global identifier where both parts are
/// present, and else the fault with the two parts.
pub open spec fn qualify_outcome(course_id: Seq<char>, short_id: Seq<char>) -> Result<
    Seq<char>,
    ErrorView,
> {
    if well_formed(course_id, short_id) {
        Ok(qualified(course_id, short_id))
    } else {
        Err(ErrorView::InvalidIdentifier(course_id, short_id))
    }
}

/// Within one course, qualifying gives different results for different
/// short identifiers.
pub proof fn lemma_qualify_injective(course_id: Seq<char>, first: Seq<char>, second: Seq<char>)
    requires
        qualify_outcome(course_id, first) == qualify_outcome(course_id, second),
    ensures
        first == second,
{
    if well_formed(course_id, first) {
        lemma_qualified_injective(course_id, first, second);
    }
}

/// Joins a course identifier and a short identifier into a global identifier.
///
/// Fails with [`BuildError::InvalidIdentifier`] exactly when one of the two is
/// empty. The result depends on the two identifiers only.
pub fn qualify(course_id: &str, short_id: &str) -> (result: Result<String, BuildError>)
    ensures
        match result {
            Ok(global_id) => qualify_outcome(course_id@, short_id@) == Ok::<Seq<char>, ErrorView>(
                global_id@,
            ),
            Err(error) => qualify_outcome(course_id@, short_id@) == Err::<Seq<char>, ErrorView>(
                error@,
            ),
        },
{
    if course_id.is_empty() || short_id.is_empty() {
        return Err(
            BuildError::InvalidIdentifier(String::from_str(course_id), String::from_str(short_id)),
        );
    }
    let mut global_id = String::from_str(course_id);
    global_id.append("::");
    global_id.append(short_id);
    proof {
        reveal_strlit("::");
        assert("::"@ =~= separator());
        assert(global_id@ =~= qualified(course_id@, short_id@));
    }
    Ok(global_id)
}

} // verus!
