//! Course declarations, as an author writes them.
//!
//! A course lists its lessons in order. Each lesson has a short identifier,
//! which is to be unique within the course, a name, and the short
//! identifiers of the lessons that it requires.

use crate::metadata::Metadata;
use crate::text::{own_strings, slice_texts, texts};
use vstd::prelude::*;

verus! {

/// The declaration of one lesson.
#[derive(Debug)]
pub struct Lesson {
    /// The identifier of the lesson within its course.
    pub short_id: String,
    /// The name shown to the student.
    pub name: String,
    /// The short identifiers of the lessons that this one requires.
    pub dependencies: Vec<String>,
}

/// The mathematical value of a [`Lesson`].
pub struct LessonView {
    pub short_id: Seq<char>,
    pub name: Seq<char>,
    pub dependencies: Seq<Seq<char>>,
}

impl View for Lesson {
    type V = LessonView;

    open spec fn view(&self) -> LessonView {
        LessonView {
            short_id: self.short_id@,
            name: self.name@,
            dependencies: texts(self.dependencies@),
        }
    }
}

impl Lesson {
    /// The lesson `short_id`, called `name`, that requires `dependencies`.
    pub fn new(short_id: &str, name: &str, dependencies: Vec<&str>) -> (lesson: Lesson)
        ensures
            lesson@ == (LessonView {
                short_id: short_id@,
                name: name@,
                dependencies: slice_texts(dependencies@),
            }),
    {
        let owned = own_strings(&dependencies);
        Lesson { short_id: short_id.to_owned(), name: name.to_owned(), dependencies: owned }
    }
}

/// The values of a sequence of lessons, in order.
pub open spec fn lesson_views(lessons: Seq<Lesson>) -> Seq<LessonView> {
    Seq::new(lessons.len(), |i: int| lessons[i]@)
}

/// The declaration of a course.
#[derive(Debug)]
pub struct Course {
    /// The identifier of the course.
    pub id: String,
    /// The name shown to the student.
    pub name: String,
    /// The name of the directory in which the course is stored.
    pub directory_name: String,
    /// Keys and values that describe the course.
    pub metadata: Metadata,
    /// The lessons, in the order of the declaration.
    pub lessons: Vec<Lesson>,
}

/// The mathematical value of a [`Course`].
pub struct CourseView {
    pub id: Seq<char>,
    pub name: Seq<char>,
    pub directory_name: Seq<char>,
    pub metadata: Map<Seq<char>, Seq<Seq<char>>>,
    pub lessons: Seq<LessonView>,
}

impl View for Course {
    type V = CourseView;

    open spec fn view(&self) -> CourseView {
        CourseView {
            id: self.id@,
            name: self.name@,
            directory_name: self.directory_name@,
            metadata: self.metadata@,
            lessons: lesson_views(self.lessons@),
        }
    }
}

impl CourseView {
    /// Some lesson of the course has the short identifier `short_id`.
    pub open spec fn declares(self, short_id: Seq<char>) -> bool {
        exists|i: int|
            0 <= i < self.lessons.len() && (#[trigger] self.lessons[i]).short_id == short_id
    }

    /// The short identifier of lesson `i` is that of an earlier lesson.
    pub open spec fn repeats(self, i: int) -> bool {
        exists|j: int|
            0 <= j < i && (#[trigger] self.lessons[j]).short_id == self.lessons[i].short_id
    }

    /// Lesson `i` cannot be registered: an identifier is empty, or its short
    /// identifier is taken.
    pub open spec fn registration_fault(self, i: int) -> bool {
        self.id.len() == 0 || self.lessons[i].short_id.len() == 0 || self.repeats(i)
    }

    /// Lesson `i` is the first that cannot be registered.
    pub open spec fn first_registration_fault(self, i: int) -> bool {
        &&& 0 <= i < self.lessons.len()
        &&& self.registration_fault(i)
        &&& forall|j: int| 0 <= j < i ==> !#[trigger] self.registration_fault(j)
    }

    /// Every lesson can be registered: the identifiers are not empty and the
    /// short identifiers differ.
    pub open spec fn registers(self) -> bool {
        forall|i: int| 0 <= i < self.lessons.len() ==> !#[trigger] self.registration_fault(i)
    }

    /// The prerequisite `k` of lesson `i` names no lesson of the course.
    pub open spec fn unresolved(self, i: int, k: int) -> bool {
        !self.declares(self.lessons[i].dependencies[k])
    }

    /// The prerequisite `k` of lesson `i` is the first, in the order of the
    /// declaration, that names no lesson of the course.
    pub open spec fn first_unresolved(self, i: int, k: int) -> bool {
        &&& 0 <= i < self.lessons.len()
        &&& 0 <= k < self.lessons[i].dependencies.len()
        &&& self.unresolved(i, k)
        &&& forall|j: int, m: int|
            0 <= j < i && 0 <= m < self.lessons[j].dependencies.len() ==> !#[trigger] self.unresolved(
                j,
                m,
            )
        &&& forall|m: int| 0 <= m < k ==> !#[trigger] self.unresolved(i, m)
    }

    /// Every prerequisite names a lesson of the course.
    pub open spec fn resolves(self) -> bool {
        forall|i: int, k: int|
            0 <= i < self.lessons.len() && 0 <= k < self.lessons[i].dependencies.len()
                ==> !#[trigger] self.unresolved(i, k)
    }

    /// A lesson with the short identifier `lesson` lists `required` among
    /// its prerequisites.
    pub open spec fn depends(self, lesson: Seq<char>, required: Seq<char>) -> bool {
        exists|i: int|
            0 <= i < self.lessons.len() && (#[trigger] self.lessons[i]).short_id == lesson
                && self.lessons[i].dependencies.contains(required)
    }

    /// The lesson `path[k]` requires the lesson `path[k + 1]`.
    pub open spec fn links(self, path: Seq<Seq<char>>, k: int) -> bool {
        self.depends(path[k], path[k + 1])
    }

    /// Each lesson of `path` requires the next, and the last requires the
    /// first.
    pub open spec fn is_cycle(self, path: Seq<Seq<char>>) -> bool {
        &&& path.len() > 0
        &&& forall|k: int| 0 <= k < path.len() - 1 ==> #[trigger] self.links(path, k)
        &&& self.depends(path.last(), path[0])
    }

    /// No lesson requires itself, directly or through other lessons.
    pub open spec fn acyclic(self) -> bool {
        forall|path: Seq<Seq<char>>| !self.is_cycle(path)
    }

    /// The declaration can be built into a graph.
    pub open spec fn accepted(self) -> bool {
        self.registers() && self.resolves() && self.acyclic()
    }
}

} // verus!
