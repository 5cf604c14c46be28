//! What building a course gives, and what follows from it.

use crate::course::CourseView;
use crate::error::{BuildError, ErrorView};
use crate::graph::{graph_of, CourseGraph, GraphView};
use crate::namespace::well_formed;
use vstd::prelude::*;

verus! {

/// What building `course` may give: the graph of the course where the
/// declaration is accepted, and else the first fault in the order in which
/// a declaration is examined. Lessons are registered first, in the order of
/// the declaration; then prerequisites are resolved, in that order; cycles
/// are looked for last. A cycle is reported lesson by lesson, each once.
pub open spec fn build_outcome(course: CourseView, outcome: Result<GraphView, ErrorView>) -> bool {
    match outcome {
        Ok(graph) => course.accepted() && graph == graph_of(course),
        Err(ErrorView::InvalidIdentifier(course_id, short_id)) => exists|i: int|
            #[trigger] course.first_registration_fault(i) && !well_formed(
                course.id,
                course.lessons[i].short_id,
            ) && course_id == course.id && short_id == course.lessons[i].short_id,
        Err(ErrorView::DuplicateLessonId(short_id)) => exists|i: int|
            #[trigger] course.first_registration_fault(i) && well_formed(
                course.id,
                course.lessons[i].short_id,
            ) && short_id == course.lessons[i].short_id,
        Err(ErrorView::UnknownDependency(short_id, referenced)) => course.registers() && exists|
            i: int,
            k: int,
        |
            #[trigger] course.first_unresolved(i, k) && short_id == course.lessons[i].short_id
                && referenced == course.lessons[i].dependencies[k],
        Err(ErrorView::DependencyCycle(path)) => course.registers() && course.resolves()
            && course.is_cycle(path) && path.no_duplicates(),
    }
}

/// The value of what building a course gave.
pub open spec fn outcome_of(result: Result<CourseGraph, BuildError>) -> Result<GraphView, ErrorView> {
    match result {
        Ok(graph) => Ok(graph@),
        Err(error) => Err(error@),
    }
}

/// A declaration with a fault is not accepted.
pub proof fn lemma_fault_rejects(course: CourseView, error: ErrorView)
    requires
        build_outcome(course, Err(error)),
    ensures
        !course.accepted(),
{
}

/// The lesson at which a fault of registration was found.
proof fn lemma_registration_fault_place(course: CourseView, error: ErrorView) -> (i: int)
    requires
        build_outcome(course, Err(error)),
        error is InvalidIdentifier || error is DuplicateLessonId,
    ensures
        course.first_registration_fault(i),
        error == (if well_formed(course.id, course.lessons[i].short_id) {
            ErrorView::DuplicateLessonId(course.lessons[i].short_id)
        } else {
            ErrorView::InvalidIdentifier(course.id, course.lessons[i].short_id)
        }),
{
    match error {
        ErrorView::InvalidIdentifier(course_id, short_id) => {
            choose|i: int| #[trigger]
                course.first_registration_fault(i) && !well_formed(
                    course.id,
                    course.lessons[i].short_id,
                ) && course_id == course.id && short_id == course.lessons[i].short_id
        },
        ErrorView::DuplicateLessonId(short_id) => {
            choose|i: int| #[trigger]
                course.first_registration_fault(i) && well_formed(
                    course.id,
                    course.lessons[i].short_id,
                ) && short_id == course.lessons[i].short_id
        },
        _ => 0,
    }
}

/// The prerequisite at which a fault of resolution was found.
proof fn lemma_unresolved_place(course: CourseView, error: ErrorView) -> (at: (int, int))
    requires
        build_outcome(course, Err(error)),
        error is UnknownDependency,
    ensures
        course.first_unresolved(at.0, at.1),
        error == ErrorView::UnknownDependency(
            course.lessons[at.0].short_id,
            course.lessons[at.0].dependencies[at.1],
        ),
{
    choose|i: int, k: int| #[trigger]
        course.first_unresolved(i, k) && error->UnknownDependency_0 == course.lessons[i].short_id
            && error->UnknownDependency_1 == course.lessons[i].dependencies[k]
}

/// At most one lesson is the first that cannot be registered.
proof fn lemma_one_first_fault(course: CourseView, first: int, second: int)
    requires
        course.first_registration_fault(first),
        course.first_registration_fault(second),
    ensures
        first == second,
{
}

/// At most one prerequisite is the first that names no lesson.
proof fn lemma_one_first_unresolved(course: CourseView, i: int, k: int, j: int, m: int)
    requires
        course.first_unresolved(i, k),
        course.first_unresolved(j, m),
    ensures
        i == j,
        k == m,
{
}

/// Building is a function of the declaration, but for the choice among
/// several cycles: two results for one declaration are equal, or both
/// report a cycle.
pub proof fn lemma_build_deterministic(
    course: CourseView,
    first: Result<GraphView, ErrorView>,
    second: Result<GraphView, ErrorView>,
)
    requires
        build_outcome(course, first),
        build_outcome(course, second),
    ensures
        first is Ok <==> second is Ok,
        first is Ok ==> first == second,
        first == second || (first matches Err(ErrorView::DependencyCycle(_))
            && second matches Err(ErrorView::DependencyCycle(_))),
{
    if first is Err {
        lemma_fault_rejects(course, first->Err_0);
    }
    if second is Err {
        lemma_fault_rejects(course, second->Err_0);
    }
    if first is Err && second is Err {
        let one = first->Err_0;
        let other = second->Err_0;
        if one is InvalidIdentifier || one is DuplicateLessonId {
            let i = lemma_registration_fault_place(course, one);
            if other is InvalidIdentifier || other is DuplicateLessonId {
                let j = lemma_registration_fault_place(course, other);
                lemma_one_first_fault(course, i, j);
            }
        } else if one is UnknownDependency {
            let (i, k) = lemma_unresolved_place(course, one);
            if other is UnknownDependency {
                let (j, m) = lemma_unresolved_place(course, other);
                lemma_one_first_unresolved(course, i, k, j, m);
            } else if other is InvalidIdentifier || other is DuplicateLessonId {
                lemma_registration_fault_place(course, other);
            }
        } else if other is InvalidIdentifier || other is DuplicateLessonId {
            lemma_registration_fault_place(course, other);
        } else if other is UnknownDependency {
            lemma_unresolved_place(course, other);
        }
    }
}

} // verus!
