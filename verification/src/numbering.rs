//! Courses whose lessons are numbered by unit and index.
//!
//! The short identifier of such a lesson is the number of its unit, a dot
//! and the index of the lesson in the unit, as in `3.12`. Where every
//! lesson of a course stands at the place that its unit and index give, and
//! requires only lessons that stand before it, the course is accepted.

use crate::course::{lesson_views, CourseView, Lesson, LessonView};
use vstd::prelude::*;

verus! {

/// `c` is one of the ten digits.
pub open spec fn is_digit(c: char) -> bool {
    '0' <= c && c <= '9'
}

/// The number that the digit `c` stands for.
pub open spec fn digit(c: char) -> int {
    c as int - '0' as int
}

/// The place of the dot in a short identifier whose unit has one or two
/// digits.
pub open spec fn dot_of(short_id: Seq<char>) -> int {
    if short_id[1] == '.' {
        1
    } else {
        2
    }
}

/// The short identifier is a unit, a dot and an index, each written with
/// one digit, or with two digits of which the first is not zero.
pub open spec fn canonical(short_id: Seq<char>) -> bool {
    let dot = dot_of(short_id);
    &&& short_id.len() == dot + 2 || short_id.len() == dot + 3
    &&& short_id[dot] == '.'
    &&& is_digit(short_id[0])
    &&& dot == 2 ==> short_id[0] != '0' && is_digit(short_id[1])
    &&& is_digit(short_id[dot + 1])
    &&& short_id.len() == dot + 3 ==> short_id[dot + 1] != '0' && is_digit(short_id[dot + 2])
}

/// The unit of a canonical short identifier.
pub open spec fn unit_of(short_id: Seq<char>) -> int {
    if dot_of(short_id) == 1 {
        digit(short_id[0])
    } else {
        10 * digit(short_id[0]) + digit(short_id[1])
    }
}

/// The index of a canonical short identifier.
pub open spec fn index_of(short_id: Seq<char>) -> int {
    let dot = dot_of(short_id);
    if short_id.len() == dot + 2 {
        digit(short_id[dot + 1])
    } else {
        10 * digit(short_id[dot + 1]) + digit(short_id[dot + 2])
    }
}

/// Two canonical short identifiers with the same unit and index are the
/// same text.
pub proof fn lemma_canonical_injective(first: Seq<char>, second: Seq<char>)
    requires
        canonical(first),
        canonical(second),
        unit_of(first) == unit_of(second),
        index_of(first) == index_of(second),
    ensures
        first == second,
{
    assert(dot_of(first) == dot_of(second));
    assert(first.len() == second.len());
    assert(first =~= second);
}

/// A canonical short identifier holds no colon.
pub proof fn lemma_canonical_without_colon(short_id: Seq<char>)
    requires
        canonical(short_id),
    ensures
        !short_id.contains(':'),
{
    if short_id.contains(':') {
        let at = choose|at: int| 0 <= at < short_id.len() && short_id[at] == ':';
        assert(at == 0 || at == 1 || at == 2 || at == 3 || at == 4);
    }
}

/// The place of the lesson with the canonical short identifier `short_id`
/// in a course numbered by `number`.
pub open spec fn place_of(number: spec_fn(int, int) -> int, short_id: Seq<char>) -> int {
    number(unit_of(short_id), index_of(short_id))
}

/// `number` gives different places to different lessons: where it is not
/// negative, it gives a place to one unit and index only.
pub open spec fn apart(number: spec_fn(int, int) -> int) -> bool {
    forall|unit: int, index: int, other_unit: int, other_index: int|
        0 <= #[trigger] number(unit, index) == #[trigger] number(other_unit, other_index) ==> unit
            == other_unit && index == other_index
}

/// The lesson is at `place`: its short identifier is canonical and has
/// that place, and each of its prerequisites is a canonical short
/// identifier with a place before it.
pub open spec fn placed(lesson: LessonView, number: spec_fn(int, int) -> int, place: int) -> bool {
    &&& canonical(lesson.short_id)
    &&& place_of(number, lesson.short_id) == place
    &&& forall|k: int|
        0 <= k < lesson.dependencies.len() ==> canonical(#[trigger] lesson.dependencies[k]) && 0
            <= place_of(number, lesson.dependencies[k]) < place
}

/// The first `count` lessons are at the places from `base` on.
pub open spec fn placed_from(
    lessons: Seq<LessonView>,
    number: spec_fn(int, int) -> int,
    base: int,
    count: int,
) -> bool
    decreases count,
{
    count <= 0 || (placed(lessons[count - 1], number, base + count - 1) && placed_from(
        lessons,
        number,
        base,
        count - 1,
    ))
}

/// Every lesson is at its place.
pub open spec fn all_placed(lessons: Seq<LessonView>, number: spec_fn(int, int) -> int) -> bool {
    forall|i: int| 0 <= i < lessons.len() ==> placed(#[trigger] lessons[i], number, i)
}

proof fn lemma_placed_from(
    lessons: Seq<LessonView>,
    number: spec_fn(int, int) -> int,
    base: int,
    count: int,
    i: int,
)
    requires
        placed_from(lessons, number, base, count),
        0 <= i < count,
    ensures
        placed(lessons[i], number, base + i),
    decreases count,
{
    if i < count - 1 {
        lemma_placed_from(lessons, number, base, count - 1, i);
    }
}

/// Adds the lessons of a unit to those of the units before it.
pub(crate) fn append_unit(
    lessons: &mut Vec<Lesson>,
    unit: Vec<Lesson>,
    Ghost(number): Ghost<spec_fn(int, int) -> int>,
)
    requires
        all_placed(lesson_views(old(lessons)@), number),
        placed_from(lesson_views(unit@), number, old(lessons)@.len() as int, unit@.len() as int),
    ensures
        all_placed(lesson_views(final(lessons)@), number),
        final(lessons)@.len() == old(lessons)@.len() + unit@.len(),
{
    let ghost before = lessons@;
    let ghost added = unit@;
    let mut unit = unit;
    lessons.append(&mut unit);
    proof {
        let after = lesson_views(lessons@);
        assert forall|i: int| 0 <= i < after.len() implies placed(
            #[trigger] after[i],
            number,
            i,
        ) by {
            if i < before.len() {
                assert(after[i] == lesson_views(before)[i]);
            } else {
                let at = i - before.len();
                lemma_placed_from(
                    lesson_views(added),
                    number,
                    before.len() as int,
                    added.len() as int,
                    at,
                );
                assert(after[i] == lesson_views(added)[at]);
            }
        }
    }
}

/// In a course numbered apart, a lesson stands after each lesson that it
/// requires.
proof fn lemma_required_before(
    course: CourseView,
    number: spec_fn(int, int) -> int,
    lesson: Seq<char>,
    required: Seq<char>,
)
    requires
        apart(number),
        all_placed(course.lessons, number),
        course.depends(lesson, required),
    ensures
        0 <= place_of(number, required) < place_of(number, lesson),
{
    let i = choose|i: int|
        0 <= i < course.lessons.len() && (#[trigger] course.lessons[i]).short_id == lesson
            && course.lessons[i].dependencies.contains(required);
    let k = choose|k: int|
        0 <= k < course.lessons[i].dependencies.len() && course.lessons[i].dependencies[k]
            == required;
    assert(placed(course.lessons[i], number, i));
    assert(canonical(course.lessons[i].dependencies[k]));
}

proof fn lemma_path_descends(
    course: CourseView,
    number: spec_fn(int, int) -> int,
    path: Seq<Seq<char>>,
    k: int,
)
    requires
        apart(number),
        all_placed(course.lessons, number),
        course.is_cycle(path),
        0 <= k < path.len(),
    ensures
        place_of(number, path[k]) + k <= place_of(number, path[0]),
    decreases k,
{
    if k > 0 {
        lemma_path_descends(course, number, path, k - 1);
        assert(course.links(path, k - 1));
        lemma_required_before(course, number, path[k - 1], path[k]);
    }
}

/// A course is accepted if its identifier is present and every lesson is
/// at its place under a numbering that keeps lessons apart.
pub proof fn lemma_numbered_accepted(course: CourseView, number: spec_fn(int, int) -> int)
    requires
        course.id.len() > 0,
        apart(number),
        all_placed(course.lessons, number),
    ensures
        course.accepted(),
{
    let n = course.lessons.len() as int;
    assert forall|i: int| 0 <= i < n implies !#[trigger] course.registration_fault(i) by {
        assert(placed(course.lessons[i], number, i));
        if course.repeats(i) {
            let j = choose|j: int|
                0 <= j < i && (#[trigger] course.lessons[j]).short_id == course.lessons[i].short_id;
            assert(placed(course.lessons[j], number, j));
        }
    }
    assert forall|i: int, k: int|
        0 <= i < n && 0 <= k < course.lessons[i].dependencies.len() implies !#[trigger] course.unresolved(
        i,
        k,
    ) by {
        assert(placed(course.lessons[i], number, i));
        let required = course.lessons[i].dependencies[k];
        assert(canonical(required));
        let j = place_of(number, required);
        assert(placed(course.lessons[j], number, j));
        lemma_canonical_injective(course.lessons[j].short_id, required);
    }
    assert forall|path: Seq<Seq<char>>| !course.is_cycle(path) by {
        if course.is_cycle(path) {
            lemma_path_descends(course, number, path, path.len() - 1);
            lemma_required_before(course, number, path.last(), path[0]);
        }
    }
}

} // verus!
