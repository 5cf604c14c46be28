//! The faults that stop a course declaration from becoming a graph.

use crate::text::{copy_strings, texts};
use vstd::prelude::*;

verus! {

/// Why a course declaration was rejected.
#[derive(Debug, PartialEq, Eq)]
pub enum BuildError {
    /// The course identifier or a lesson's short identifier is empty. Holds
    /// the course identifier and the short identifier that were to be joined.
    InvalidIdentifier(String, String),
    /// A short identifier is declared by more than one lesson.
    DuplicateLessonId(String),
    /// The lesson named first lists a prerequisite, named second, that no
    /// lesson of the course declares.
    UnknownDependency(String, String),
    /// The prerequisites form a cycle. Holds the short identifiers along it:
    /// each lesson lists the next as a prerequisite, and the last lists the
    /// first.
    DependencyCycle(Vec<String>),
}

/// The mathematical value of a [`BuildError`].
pub enum ErrorView {
    InvalidIdentifier(Seq<char>, Seq<char>),
    DuplicateLessonId(Seq<char>),
    UnknownDependency(Seq<char>, Seq<char>),
    DependencyCycle(Seq<Seq<char>>),
}

impl View for BuildError {
    type V = ErrorView;

    open spec fn view(&self) -> ErrorView {
        match self {
            BuildError::InvalidIdentifier(course_id, short_id) => ErrorView::InvalidIdentifier(
                course_id@,
                short_id@,
            ),
            BuildError::DuplicateLessonId(short_id) => ErrorView::DuplicateLessonId(short_id@),
            BuildError::UnknownDependency(short_id, referenced) => ErrorView::UnknownDependency(
                short_id@,
                referenced@,
            ),
            BuildError::DependencyCycle(path) => ErrorView::DependencyCycle(texts(path@)),
        }
    }
}

impl Clone for BuildError {
    /// A copy that reports the same fault.
    fn clone(&self) -> (copy: BuildError)
        ensures
            copy@ == self@,
    {
        match self {
            BuildError::InvalidIdentifier(course_id, short_id) => BuildError::InvalidIdentifier(
                course_id.clone(),
                short_id.clone(),
            ),
            BuildError::DuplicateLessonId(short_id) => BuildError::DuplicateLessonId(
                short_id.clone(),
            ),
            BuildError::UnknownDependency(short_id, referenced) => BuildError::UnknownDependency(
                short_id.clone(),
                referenced.clone(),
            ),
            BuildError::DependencyCycle(path) => BuildError::DependencyCycle(copy_strings(path)),
        }
    }
}

} // verus!
