//! The course "Interval Comparison".
//!
//! The lessons are declared unit by unit. Each lesson stands at the place
//! that its unit and index give, and requires only lessons declared
//! before it, so the declaration is accepted.

use crate::builder::build;
use crate::course::{lesson_views, Course, CourseView, Lesson};
use crate::graph::{graph_of, CourseGraph};
use crate::metadata::Metadata;
use crate::numbering::{
    all_placed, apart, append_unit, lemma_numbered_accepted, placed_from,
};
use crate::outcome::lemma_fault_rejects;
use crate::text::texts;
use trane::course_builder::music::MusicMetadata;
use vstd::pervasive::unreached;
use vstd::prelude::*;

verus! {

/// The identifier of the course.
pub const COURSE_ID: &'static str = "trane::music::earmaster::interval_comparison";

/// The key under which the musical concepts of a course are filed.
///
/// Calls `to_string` on `MusicMetadata::MusicalConcept` of trane. trane
/// derives `Display` for that enum with strum, in snake case, so the text is
/// the name of the variant in lower case with an underscore between its two
/// words. This is taken from trane's source and is not proved.
#[verifier::external_body]
fn musical_concept() -> (key: String)
    ensures
        key@ == "musical_concept"@,
{
    MusicMetadata::MusicalConcept.to_string()
}

/// The place in the declaration of the lesson `index` of the unit `unit`,
/// or -1 where the course has no such lesson.
pub open spec fn number(unit: int, index: int) -> int {
    if unit == 1 && 2 <= index <= 11 {
        index - 2
    } else if unit == 2 && 2 <= index <= 14 {
        index + 8
    } else if unit == 3 && 2 <= index <= 20 {
        index + 21
    } else if unit == 4 && 1 <= index <= 13 {
        index + 41
    } else if unit == 5 && 2 <= index <= 11 {
        index + 53
    } else if unit == 6 && 1 <= index <= 10 {
        index + 64
    } else if unit == 7 && 1 <= index <= 13 {
        index + 74
    } else if unit == 8 && 1 <= index <= 19 {
        index + 87
    } else if unit == 9 && 1 <= index <= 13 {
        index + 106
    } else if unit == 10 && 1 <= index <= 10 {
        index + 119
    } else if unit == 11 && 1 <= index <= 10 {
        index + 129
    } else if unit == 12 && 1 <= index <= 13 {
        index + 139
    } else if unit == 13 && 1 <= index <= 19 {
        index + 152
    } else if unit == 14 && 1 <= index <= 13 {
        index + 171
    } else if unit == 15 && 1 <= index <= 10 {
        index + 184
    } else if unit == 16 && 1 <= index <= 10 {
        index + 194
    } else if unit == 17 && 1 <= index <= 13 {
        index + 204
    } else if unit == 18 && 1 <= index <= 19 {
        index + 217
    } else if unit == 19 && 1 <= index <= 13 {
        index + 236
    } else if unit == 20 && 1 <= index <= 10 {
        index + 249
    } else {
        -1
    }
}

/// The numbering of the course.
pub open spec fn numbering() -> spec_fn(int, int) -> int {
    |unit: int, index: int| number(unit, index)
}

/// The numbering gives different places to different lessons.
pub proof fn lemma_numbering_apart()
    ensures
        apart(numbering()),
{
}

/// What the course declares: its identifier, names and metadata, and its
/// lessons, each at its place.
pub open spec fn declared(course: CourseView) -> bool {
    &&& course.id == COURSE_ID@
    &&& course.name == "Interval Comparison"@
    &&& course.directory_name == "interval_comparison"@
    &&& course.metadata == map!["musical_concept"@ => seq!["intervals"@]]
    &&& course.lessons.len() == 260
    &&& all_placed(course.lessons, numbering())
}

/// Unit 1 - Compare the perfect intervals - common 1st tone.
fn unit_1() -> (lessons: Vec<Lesson>)
    ensures
        lessons@.len() == 10,
        placed_from(lesson_views(lessons@), numbering(), 0, 10),
{
    proof {
        reveal_with_fuel(placed_from, 11);
        reveal_strlit("1.2");
        reveal_strlit("1.3");
        reveal_strlit("1.4");
        reveal_strlit("1.5");
        reveal_strlit("1.6");
        reveal_strlit("1.7");
        reveal_strlit("1.8");
        reveal_strlit("1.9");
        reveal_strlit("1.10");
        reveal_strlit("1.11");
    }
    vec![
        Lesson::new("1.2", "Perfect 4th & Octave  - Ascending", vec![]),
        Lesson::new("1.3", "Perfect 4th & Octave  - Descending", vec![]),
        Lesson::new("1.4", "Perfect 4th & Octave  - Harmonic", vec![]),
        Lesson::new("1.5", "Perfect 5th & Octave  - Ascending", vec![]),
        Lesson::new("1.6", "Perfect 5th & Octave  - Descending", vec![]),
        Lesson::new("1.7", "Perfect 5th & Octave  - Harmonic", vec![]),
        Lesson::new("1.8", "Perfect 4th & Perfect 5th  - Ascending", vec!["1.2", "1.5"]),
        Lesson::new("1.9", "Perfect 4th & Perfect 5th  - Descending", vec!["1.3", "1.6"]),
        Lesson::new("1.10", "Perfect 4th & Perfect 5th  - Harmonic", vec!["1.4", "1.7"]),
        Lesson::new(
            "1.11",
            "Test: Perfect intervals with a common 1st tone",
            vec!["1.8", "1.9", "1.10"],
        ),
    ]
}

/// Unit 2 - Compare the imperfect consonant intervals - common 1st tone.
fn unit_2() -> (lessons: Vec<Lesson>)
    ensures
        lessons@.len() == 13,
        placed_from(lesson_views(lessons@), numbering(), 10, 13),
{
    proof {
        reveal_with_fuel(placed_from, 14);
        reveal_strlit("2.2");
        reveal_strlit("2.3");
        reveal_strlit("2.4");
        reveal_strlit("2.5");
        reveal_strlit("2.6");
        reveal_strlit("2.7");
        reveal_strlit("2.8");
        reveal_strlit("2.9");
        reveal_strlit("2.10");
        reveal_strlit("2.11");
        reveal_strlit("2.12");
        reveal_strlit("2.13");
        reveal_strlit("2.14");
    }
    vec![
        Lesson::new("2.2", "Major 3rd & Minor 6th - Ascending", vec![]),
        Lesson::new("2.3", "Major 3rd & Minor 6th - Descending", vec![]),
        Lesson::new("2.4", "Major 3rd & Minor 6th - Harmonic", vec![]),
        Lesson::new("2.5", "Minor 3rd & Major 6th - Ascending", vec![]),
        Lesson::new("2.6", "Minor 3rd & Major 6th - Descending", vec![]),
        Lesson::new("2.7", "Minor 3rd & Major 6th - Harmonic", vec![]),
        Lesson::new("2.8", "Minor 3rd & Major 3rd - Ascending", vec!["2.2", "2.5"]),
        Lesson::new("2.9", "Minor 3rd & Major 3rd - Descending", vec!["2.3", "2.6"]),
        Lesson::new("2.10", "Minor 3rd & Major 3rd - Harmonic", vec!["2.4", "2.7"]),
        Lesson::new("2.11", "Minor 6th & Major 6th - Ascending", vec!["2.2", "2.5"]),
        Lesson::new("2.12", "Minor 6th & Major 6th - Descending", vec!["2.3", "2.6"]),
        Lesson::new("2.13", "Minor 6th & Major 6th - Harmonic", vec!["2.4", "2.7"]),
        Lesson::new(
            "2.14",
            "Test: Imperfect consonant intervals with a common 1st tone",
            vec!["2.8", "2.9", "2.10", "2.11", "2.12", "2.13"],
        ),
    ]
}

/// Unit 3 - Compare the dissonant intervals - common 1st tone.
fn unit_3() -> (lessons: Vec<Lesson>)
    ensures
        lessons@.len() == 19,
        placed_from(lesson_views(lessons@), numbering(), 23, 19),
{
    proof {
        reveal_with_fuel(placed_from, 20);
        reveal_strlit("3.2");
        reveal_strlit("3.3");
        reveal_strlit("3.4");
        reveal_strlit("3.5");
        reveal_strlit("3.6");
        reveal_strlit("3.7");
        reveal_strlit("3.8");
        reveal_strlit("3.9");
        reveal_strlit("3.10");
        reveal_strlit("3.11");
        reveal_strlit("3.12");
        reveal_strlit("3.13");
        reveal_strlit("3.14");
        reveal_strlit("3.15");
        reveal_strlit("3.16");
        reveal_strlit("3.17");
        reveal_strlit("3.18");
        reveal_strlit("3.19");
        reveal_strlit("3.20");
    }
    vec![
        Lesson::new("3.2", "Major 2nd & Minor 7th - Ascending", vec![]),
        Lesson::new("3.3", "Major 2nd & Minor 7th - Descending", vec![]),
        Lesson::new("3.4", "Major 2nd & Minor 7th - Harmonic", vec![]),
        Lesson::new("3.5", "Minor 2nd & Major 7th - Ascending", vec![]),
        Lesson::new("3.6", "Minor 2nd & Major 7th - Descending", vec![]),
        Lesson::new("3.7", "Minor 2nd & Major 7th - Harmonic", vec![]),
        Lesson::new("3.8", "Major 2nd, Dim 5th & Minor 7th - Ascending", vec!["3.2", "3.5"]),
        Lesson::new("3.9", "Major 2nd, Dim 5th & Minor 7th - Descending", vec!["3.3", "3.6"]),
        Lesson::new("3.10", "Major 2nd, Dim 5th & Minor 7th - Harmonic", vec!["3.4", "3.7"]),
        Lesson::new("3.11", "Minor 2nd, Dim 5th & Major 7th - Ascending", vec!["3.2", "3.5"]),
        Lesson::new("3.12", "Minor 2nd, Dim 5th & Major 7th - Descending", vec!["3.3", "3.6"]),
        Lesson::new("3.13", "Minor 2nd, Dim 5th & Major 7th - Harmonic", vec!["3.4", "3.7"]),
        Lesson::new("3.14", "Minor 2nd & Major 2nd - Ascending", vec!["3.8", "3.11"]),
        Lesson::new("3.15", "Minor 2nd & Major 2nd - Descending", vec!["3.9", "3.12"]),
        Lesson::new("3.16", "Minor 2nd & Major 2nd - Harmonic", vec!["3.10", "3.13"]),
        Lesson::new("3.17", "Minor 7th & Major 7th - Ascending", vec!["3.8", "3.11"]),
        Lesson::new("3.18", "Minor 7th & Major 7th - Descending", vec!["3.9", "3.12"]),
        Lesson::new("3.19", "Minor 7th & Major 7th - Harmonic", vec!["3.10", "3.13"]),
        Lesson::new(
            "3.20",
            "Test: Dissonant intervals with a common 1st tone",
            vec!["3.14", "3.15", "3.16", "3.17", "3.18", "3.19"],
        ),
    ]
}

/// Unit 4 - Compare all simple intervals - common 1st tone.
fn unit_4() -> (lessons: Vec<Lesson>)
    ensures
        lessons@.len() == 13,
        placed_from(lesson_views(lessons@), numbering(), 42, 13),
{
    proof {
        reveal_with_fuel(placed_from, 14);
        reveal_strlit("1.11");
        reveal_strlit("2.14");
        reveal_strlit("3.20");
        reveal_strlit("4.1");
        reveal_strlit("4.2");
        reveal_strlit("4.3");
        reveal_strlit("4.4");
        reveal_strlit("4.5");
        reveal_strlit("4.6");
        reveal_strlit("4.7");
        reveal_strlit("4.8");
        reveal_strlit("4.9");
        reveal_strlit("4.10");
        reveal_strlit("4.11");
        reveal_strlit("4.12");
        reveal_strlit("4.13");
    }
    vec![
        Lesson::new(
            "4.1",
            "All intervals from Minor 6th to Major 7th - Ascending",
            vec!["1.11", "2.14", "3.20"],
        ),
        Lesson::new(
            "4.2",
            "All intervals from Minor 6th to Major 7th - Descending",
            vec!["1.11", "2.14", "3.20"],
        ),
        Lesson::new(
            "4.3",
            "All intervals from Minor 6th to Major 7th - Harmonic",
            vec!["1.11", "2.14", "3.20"],
        ),
        Lesson::new("4.4", "All intervals from Perfect 5th to Octave - Ascending", vec!["4.1"]),
        Lesson::new("4.5", "All intervals from Perfect 5th to Octave - Descending", vec!["4.2"]),
        Lesson::new("4.6", "All intervals from Perfect 5th to Octave - Harmonic", vec!["4.3"]),
        Lesson::new(
            "4.7",
            "All intervals from Minor 2nd to Major 3rd - Ascending",
            vec!["1.11", "2.14", "3.20"],
        ),
        Lesson::new(
            "4.8",
            "All intervals from Minor 2nd to Major 3rd - Descending",
            vec!["1.11", "2.14", "3.20"],
        ),
        Lesson::new(
            "4.9",
            "All intervals from Minor 2nd to Major 3rd - Harmonic",
            vec!["1.11", "2.14", "3.20"],
        ),
        Lesson::new("4.10", "All intervals from Minor 2nd to Dim 5th - Ascending", vec!["4.7"]),
        Lesson::new("4.11", "All intervals from Minor 2nd to Dim 5th - Descending", vec!["4.8"]),
        Lesson::new("4.12", "All intervals from Minor 2nd to Dim 5th - Harmonic", vec!["4.9"]),
        Lesson::new(
            "4.13",
            "Test: Simple intervals with a common 1st tone",
            vec!["4.4", "4.5", "4.6", "4.10", "4.11", "4.12"],
        ),
    ]
}

/// Unit 5 - Compare compound intervals up to 2 octaves - common 1st tone.
fn unit_5() -> (lessons: Vec<Lesson>)
    ensures
        lessons@.len() == 10,
        placed_from(lesson_views(lessons@), numbering(), 55, 10),
{
    proof {
        reveal_with_fuel(placed_from, 11);
        reveal_strlit("4.13");
        reveal_strlit("5.2");
        reveal_strlit("5.3");
        reveal_strlit("5.4");
        reveal_strlit("5.5");
        reveal_strlit("5.6");
        reveal_strlit("5.7");
        reveal_strlit("5.8");
        reveal_strlit("5.9");
        reveal_strlit("5.10");
        reveal_strlit("5.11");
    }
    vec![
        Lesson::new("5.2", "Perfect 11th, Perfect 12th & Two Octaves - Ascending", vec!["4.13"]),
        Lesson::new("5.3", "Perfect 11th, Perfect 12th & Two Octaves - Descending", vec!["4.13"]),
        Lesson::new("5.4", "Perfect 11th, Perfect 12th & Two Octaves - Harmonic", vec!["4.13"]),
        Lesson::new(
            "5.5",
            "Minor 10th, Major 10th, Minor 13th & Major 13th - Ascending",
            vec!["5.2"],
        ),
        Lesson::new(
            "5.6",
            "Minor 10th, Major 10th, Minor 13th & Major 13th - Descending",
            vec!["5.3"],
        ),
        Lesson::new(
            "5.7",
            "Minor 10th, Major 10th, Minor 13th & Major 13th - Harmonic",
            vec!["5.4"],
        ),
        Lesson::new(
            "5.8",
            "Minor 9th, Major 9th, Perfect 12th, Minor 14th & Major 14th - Ascending",
            vec!["5.5"],
        ),
        Lesson::new(
            "5.9",
            "Minor 9th, Major 9th, Perfect 12th, Minor 14th & Major 14th - Descending",
            vec!["5.6"],
        ),
        Lesson::new(
            "5.10",
            "Minor 9th, Major 9th, Perfect 12th, Minor 14th & Major 14th - Harmonic",
            vec!["5.7"],
        ),
        Lesson::new(
            "5.11",
            "Test: Compound intervals with a common 1st tone",
            vec!["5.8", "5.9", "5.10"],
        ),
    ]
}

/// Unit 6: Compare the perfect intervals - common 1st or 2nd tone.
fn unit_6() -> (lessons: Vec<Lesson>)
    ensures
        lessons@.len() == 10,
        placed_from(lesson_views(lessons@), numbering(), 65, 10),
{
    proof {
        reveal_with_fuel(placed_from, 11);
        reveal_strlit("5.11");
        reveal_strlit("6.1");
        reveal_strlit("6.2");
        reveal_strlit("6.3");
        reveal_strlit("6.4");
        reveal_strlit("6.5");
        reveal_strlit("6.6");
        reveal_strlit("6.7");
        reveal_strlit("6.8");
        reveal_strlit("6.9");
        reveal_strlit("6.10");
    }
    vec![
        Lesson::new("6.1", "Perfect 4th & Octave  - Ascending", vec!["5.11"]),
        Lesson::new("6.2", "Perfect 4th & Octave  - Descending", vec!["5.11"]),
        Lesson::new("6.3", "Perfect 4th & Octave  - Harmonic", vec!["5.11"]),
        Lesson::new("6.4", "Perfect 5th & Octave  - Ascending", vec!["5.11"]),
        Lesson::new("6.5", "Perfect 5th & Octave  - Descending", vec!["5.11"]),
        Lesson::new("6.6", "Perfect 5th & Octave  - Harmonic", vec!["5.11"]),
        Lesson::new("6.7", "Perfect 4th & Perfect 5th - Ascending", vec!["6.1", "6.4"]),
        Lesson::new("6.8", "Perfect 4th & Perfect 5th - Descending", vec!["6.2", "6.5"]),
        Lesson::new("6.9", "Perfect 4th & Perfect 5th - Harmonic", vec!["6.3", "6.6"]),
        Lesson::new(
            "6.10",
            "Test: Perfect intervals with a common 1st or 2nd tone",
            vec!["6.7", "6.8", "6.9"],
        ),
    ]
}

/// Unit 7: Compare the imperfect consonant intervals - common 1st or 2nd tone.
fn unit_7() -> (lessons: Vec<Lesson>)
    ensures
        lessons@.len() == 13,
        placed_from(lesson_views(lessons@), numbering(), 75, 13),
{
    proof {
        reveal_with_fuel(placed_from, 14);
        reveal_strlit("5.11");
        reveal_strlit("7.1");
        reveal_strlit("7.2");
        reveal_strlit("7.3");
        reveal_strlit("7.4");
        reveal_strlit("7.5");
        reveal_strlit("7.6");
        reveal_strlit("7.7");
        reveal_strlit("7.8");
        reveal_strlit("7.9");
        reveal_strlit("7.10");
        reveal_strlit("7.11");
        reveal_strlit("7.12");
        reveal_strlit("7.13");
    }
    vec![
        Lesson::new("7.1", "Major 3rd & Minor 6th - Ascending", vec!["5.11"]),
        Lesson::new("7.2", "Major 3rd & Minor 6th - Descending", vec!["5.11"]),
        Lesson::new("7.3", "Major 3rd & Minor 6th - Harmonic", vec!["5.11"]),
        Lesson::new("7.4", "Minor 3rd & Major 6th - Ascending", vec!["5.11"]),
        Lesson::new("7.5", "Minor 3rd & Major 6th - Descending", vec!["5.11"]),
        Lesson::new("7.6", "Minor 3rd & Major 6th - Harmonic", vec!["5.11"]),
        Lesson::new("7.7", "Major 3rd & Minor 3rd - Ascending", vec!["7.1", "7.4"]),
        Lesson::new("7.8", "Major 3rd & Minor 3rd - Descending", vec!["7.2", "7.5"]),
        Lesson::new("7.9", "Major 3rd & Minor 3rd - Harmonic", vec!["7.3", "7.6"]),
        Lesson::new("7.10", "Minor 6th & Major 6th - Ascending", vec!["7.1", "7.4"]),
        Lesson::new("7.11", "Minor 6th & Major 6th - Descending", vec!["7.2", "7.5"]),
        Lesson::new("7.12", "Minor 6th & Major 6th - Harmonic", vec!["7.3", "7.6"]),
        Lesson::new(
            "7.13",
            "Test: Imperfect consonant intervals with a common 1st or 2nd tone",
            vec!["7.7", "7.8", "7.9", "7.10", "7.11", "7.12"],
        ),
    ]
}

/// Unit 8 - Compare all the dissonant intervals - common 1st or 2nd tone.
fn unit_8() -> (lessons: Vec<Lesson>)
    ensures
        lessons@.len() == 19,
        placed_from(lesson_views(lessons@), numbering(), 88, 19),
{
    proof {
        reveal_with_fuel(placed_from, 20);
        reveal_strlit("5.11");
        reveal_strlit("8.1");
        reveal_strlit("8.2");
        reveal_strlit("8.3");
        reveal_strlit("8.4");
        reveal_strlit("8.5");
        reveal_strlit("8.6");
        reveal_strlit("8.7");
        reveal_strlit("8.8");
        reveal_strlit("8.9");
        reveal_strlit("8.10");
        reveal_strlit("8.11");
        reveal_strlit("8.12");
        reveal_strlit("8.13");
        reveal_strlit("8.14");
        reveal_strlit("8.15");
        reveal_strlit("8.16");
        reveal_strlit("8.17");
        reveal_strlit("8.18");
        reveal_strlit("8.19");
    }
    vec![
        Lesson::new("8.1", "Major 2nd & Minor 7th - Ascending", vec!["5.11"]),
        Lesson::new("8.2", "Major 2nd & Minor 7th - Descending", vec!["5.11"]),
        Lesson::new("8.3", "Major 2nd & Minor 7th - Harmonic", vec!["5.11"]),
        Lesson::new("8.4", "Minor 2nd & Major 7th - Ascending", vec!["5.11"]),
        Lesson::new("8.5", "Minor 2nd & Major 7th - Descending", vec!["5.11"]),
        Lesson::new("8.6", "Minor 2nd & Major 7th - Harmonic", vec!["5.11"]),
        Lesson::new("8.7", "Major 2nd, Dim 5th & Minor 7th - Ascending", vec!["8.1", "8.4"]),
        Lesson::new("8.8", "Major 2nd, Dim 5th & Minor 7th - Descending", vec!["8.2", "8.5"]),
        Lesson::new("8.9", "Major 2nd, Dim 5th & Minor 7th - Harmonic", vec!["8.3", "8.6"]),
        Lesson::new("8.10", "Minor 2nd, Dim 5th & Major 7th - Ascending", vec!["8.1", "8.4"]),
        Lesson::new("8.11", "Minor 2nd, Dim 5th & Major 7th - Descending", vec!["8.2", "8.5"]),
        Lesson::new("8.12", "Minor 2nd, Dim 5th & Major 7th - Harmonic", vec!["8.3", "8.6"]),
        Lesson::new("8.13", "Minor 2nd & Major 2nd - Ascending", vec!["8.7", "8.10"]),
        Lesson::new("8.14", "Minor 2nd & Major 2nd - Descending", vec!["8.8", "8.11"]),
        Lesson::new("8.15", "Minor 2nd & Major 2nd - Harmonic", vec!["8.9", "8.12"]),
        Lesson::new("8.16", "Minor 7th & Major 7th - Ascending", vec!["8.7", "8.10"]),
        Lesson::new("8.17", "Minor 7th & Major 7th - Descending", vec!["8.8", "8.11"]),
        Lesson::new("8.18", "Minor 7th & Major 7th - Harmonic", vec!["8.9", "8.12"]),
        Lesson::new(
            "8.19",
            "Test: Dissonant intervals with a common 1st or 2nd tone",
            vec!["8.13", "8.14", "8.15", "8.16", "8.17", "8.18"],
        ),
    ]
}

/// Unit 9 - Compare all simple intervals - common 1st or 2nd tone.
fn unit_9() -> (lessons: Vec<Lesson>)
    ensures
        lessons@.len() == 13,
        placed_from(lesson_views(lessons@), numbering(), 107, 13),
{
    proof {
        reveal_with_fuel(placed_from, 14);
        reveal_strlit("6.10");
        reveal_strlit("7.13");
        reveal_strlit("8.19");
        reveal_strlit("9.1");
        reveal_strlit("9.2");
        reveal_strlit("9.3");
        reveal_strlit("9.4");
        reveal_strlit("9.5");
        reveal_strlit("9.6");
        reveal_strlit("9.7");
        reveal_strlit("9.8");
        reveal_strlit("9.9");
        reveal_strlit("9.10");
        reveal_strlit("9.11");
        reveal_strlit("9.12");
        reveal_strlit("9.13");
    }
    vec![
        Lesson::new(
            "9.1",
            "All intervals from Minor 6th to Major 7th - Ascending",
            vec!["6.10", "7.13", "8.19"],
        ),
        Lesson::new(
            "9.2",
            "All intervals from Minor 6th to Major 7th - Descending",
            vec!["6.10", "7.13", "8.19"],
        ),
        Lesson::new(
            "9.3",
            "All intervals from Minor 6th to Major 7th - Harmonic",
            vec!["6.10", "7.13", "8.19"],
        ),
        Lesson::new("9.4", "All intervals from Perfect 5th to Octave - Ascending", vec!["9.1"]),
        Lesson::new("9.5", "All intervals from Perfect 5th to Octave - Descending", vec!["9.2"]),
        Lesson::new("9.6", "All intervals from Perfect 5th to Octave - Harmonic", vec!["9.3"]),
        Lesson::new(
            "9.7",
            "All intervals from Minor 2nd to Major 3rd - Ascending",
            vec!["6.10", "7.13", "8.19"],
        ),
        Lesson::new(
            "9.8",
            "All intervals from Minor 2nd to Major 3rd - Descending",
            vec!["6.10", "7.13", "8.19"],
        ),
        Lesson::new(
            "9.9",
            "All intervals from Minor 2nd to Major 3rd - Harmonic",
            vec!["6.10", "7.13", "8.19"],
        ),
        Lesson::new("9.10", "All intervals from Minor 2nd to Dim 5th - Ascending", vec!["9.7"]),
        Lesson::new("9.11", "All intervals from Minor 2nd to Dim 5th - Descending", vec!["9.8"]),
        Lesson::new("9.12", "All intervals from Minor 2nd to Dim 5th - Harmonic", vec!["9.9"]),
        Lesson::new(
            "9.13",
            "Test: Simple intervals with a common 1st tone",
            vec!["9.4", "9.5", "9.6", "9.10", "9.11", "9.12"],
        ),
    ]
}

/// Unit 10 - Compare compound intervals up to 2 octaves - common 1st tone.
fn unit_10() -> (lessons: Vec<Lesson>)
    ensures
        lessons@.len() == 10,
        placed_from(lesson_views(lessons@), numbering(), 120, 10),
{
    proof {
        reveal_with_fuel(placed_from, 11);
        reveal_strlit("9.13");
        reveal_strlit("10.1");
        reveal_strlit("10.2");
        reveal_strlit("10.3");
        reveal_strlit("10.4");
        reveal_strlit("10.5");
        reveal_strlit("10.6");
        reveal_strlit("10.7");
        reveal_strlit("10.8");
        reveal_strlit("10.9");
        reveal_strlit("10.10");
    }
    vec![
        Lesson::new("10.1", "Perfect 11th, Perfect 12th & Two Octaves - Ascending", vec!["9.13"]),
        Lesson::new("10.2", "Perfect 11th, Perfect 12th & Two Octaves - Descending", vec!["9.13"]),
        Lesson::new("10.3", "Perfect 11th, Perfect 12th & Two Octaves - Harmonic", vec!["9.13"]),
        Lesson::new(
            "10.4",
            "Minor 10th, Major 10th, Minor 13th & Major 13th - Ascending",
            vec!["10.1"],
        ),
        Lesson::new(
            "10.5",
            "Minor 10th, Major 10th, Minor 13th & Major 13th - Descending",
            vec!["10.2"],
        ),
        Lesson::new(
            "10.6",
            "Minor 10th, Major 10th, Minor 13th & Major 13th - Harmonic",
            vec!["10.3"],
        ),
        Lesson::new(
            "10.7",
            "Minor 9th, Major 9th, Perfect 12th, Minor 14th & Major 14th - Ascending",
            vec!["10.4"],
        ),
        Lesson::new(
            "10.8",
            "Minor 9th, Major 9th, Perfect 12th, Minor 14th & Major 14th - Descending",
            vec!["10.5"],
        ),
        Lesson::new(
            "10.9",
            "Minor 9th, Major 9th, Perfect 12th, Minor 14th & Major 14th - Harmonic",
            vec!["10.6"],
        ),
        Lesson::new(
            "10.10",
            "Test: Compound intervals with a common 1st tone",
            vec!["10.7", "10.8", "10.9"],
        ),
    ]
}

/// Unit 11: Compare the perfect intervals - nearby 1st tones.
fn unit_11() -> (lessons: Vec<Lesson>)
    ensures
        lessons@.len() == 10,
        placed_from(lesson_views(lessons@), numbering(), 130, 10),
{
    proof {
        reveal_with_fuel(placed_from, 11);
        reveal_strlit("10.10");
        reveal_strlit("11.1");
        reveal_strlit("11.2");
        reveal_strlit("11.3");
        reveal_strlit("11.4");
        reveal_strlit("11.5");
        reveal_strlit("11.6");
        reveal_strlit("11.7");
        reveal_strlit("11.8");
        reveal_strlit("11.9");
        reveal_strlit("11.10");
    }
    vec![
        Lesson::new("11.1", "Perfect 4th & Octave  - Ascending", vec!["10.10"]),
        Lesson::new("11.2", "Perfect 4th & Octave  - Descending", vec!["10.10"]),
        Lesson::new("11.3", "Perfect 4th & Octave  - Harmonic", vec!["10.10"]),
        Lesson::new("11.4", "Perfect 5th & Octave  - Ascending", vec!["10.10"]),
        Lesson::new("11.5", "Perfect 5th & Octave  - Descending", vec!["10.10"]),
        Lesson::new("11.6", "Perfect 5th & Octave  - Harmonic", vec!["10.10"]),
        Lesson::new("11.7", "Perfect 4th & Perfect 5th - Ascending", vec!["11.1", "11.4"]),
        Lesson::new("11.8", "Perfect 4th & Perfect 5th - Descending", vec!["11.2", "11.5"]),
        Lesson::new("11.9", "Perfect 4th & Perfect 5th - Harmonic", vec!["11.3", "11.6"]),
        Lesson::new(
            "11.10",
            "Test: Perfect intervals with nearby first tones",
            vec!["11.7", "11.8", "11.9"],
        ),
    ]
}

/// Unit 12: Compare the imperfect consonant intervals - nearby 1st tones.
fn unit_12() -> (lessons: Vec<Lesson>)
    ensures
        lessons@.len() == 13,
        placed_from(lesson_views(lessons@), numbering(), 140, 13),
{
    proof {
        reveal_with_fuel(placed_from, 14);
        reveal_strlit("10.10");
        reveal_strlit("12.1");
        reveal_strlit("12.2");
        reveal_strlit("12.3");
        reveal_strlit("12.4");
        reveal_strlit("12.5");
        reveal_strlit("12.6");
        reveal_strlit("12.7");
        reveal_strlit("12.8");
        reveal_strlit("12.9");
        reveal_strlit("12.10");
        reveal_strlit("12.11");
        reveal_strlit("12.12");
        reveal_strlit("12.13");
    }
    vec![
        Lesson::new("12.1", "Major 3rd & Minor 6th - Ascending", vec!["10.10"]),
        Lesson::new("12.2", "Major 3rd & Minor 6th - Descending", vec!["10.10"]),
        Lesson::new("12.3", "Major 3rd & Minor 6th - Harmonic", vec!["10.10"]),
        Lesson::new("12.4", "Minor 3rd & Major 6th - Ascending", vec!["10.10"]),
        Lesson::new("12.5", "Minor 3rd & Major 6th - Descending", vec!["10.10"]),
        Lesson::new("12.6", "Minor 3rd & Major 6th - Harmonic", vec!["10.10"]),
        Lesson::new("12.7", "Major 3rd & Minor 3rd - Ascending", vec!["12.1", "12.4"]),
        Lesson::new("12.8", "Major 3rd & Minor 3rd - Descending", vec!["12.2", "12.5"]),
        Lesson::new("12.9", "Major 3rd & Minor 3rd - Harmonic", vec!["12.3", "12.6"]),
        Lesson::new("12.10", "Minor 6th & Major 6th - Ascending", vec!["12.1", "12.4"]),
        Lesson::new("12.11", "Minor 6th & Major 6th - Descending", vec!["12.2", "12.5"]),
        Lesson::new("12.12", "Minor 6th & Major 6th - Harmonic", vec!["12.3", "12.6"]),
        Lesson::new(
            "12.13",
            "Test: Imperfect consonant intervals with nearby first tones",
            vec!["12.7", "12.8", "12.9", "12.10", "12.11", "12.12"],
        ),
    ]
}

/// Unit 13 - Compare all the dissonant intervals - nearby 1st tones.
fn unit_13() -> (lessons: Vec<Lesson>)
    ensures
        lessons@.len() == 19,
        placed_from(lesson_views(lessons@), numbering(), 153, 19),
{
    proof {
        reveal_with_fuel(placed_from, 20);
        reveal_strlit("10.10");
        reveal_strlit("13.1");
        reveal_strlit("13.2");
        reveal_strlit("13.3");
        reveal_strlit("13.4");
        reveal_strlit("13.5");
        reveal_strlit("13.6");
        reveal_strlit("13.7");
        reveal_strlit("13.8");
        reveal_strlit("13.9");
        reveal_strlit("13.10");
        reveal_strlit("13.11");
        reveal_strlit("13.12");
        reveal_strlit("13.13");
        reveal_strlit("13.14");
        reveal_strlit("13.15");
        reveal_strlit("13.16");
        reveal_strlit("13.17");
        reveal_strlit("13.18");
        reveal_strlit("13.19");
    }
    vec![
        Lesson::new("13.1", "Major 2nd & Minor 7th - Ascending", vec!["10.10"]),
        Lesson::new("13.2", "Major 2nd & Minor 7th - Descending", vec!["10.10"]),
        Lesson::new("13.3", "Major 2nd & Minor 7th - Harmonic", vec!["10.10"]),
        Lesson::new("13.4", "Minor 2nd & Major 7th - Ascending", vec!["10.10"]),
        Lesson::new("13.5", "Minor 2nd & Major 7th - Descending", vec!["10.10"]),
        Lesson::new("13.6", "Minor 2nd & Major 7th - Harmonic", vec!["10.10"]),
        Lesson::new("13.7", "Major 2nd, Dim 5th & Minor 7th - Ascending", vec!["13.1", "13.4"]),
        Lesson::new("13.8", "Major 2nd, Dim 5th & Minor 7th - Descending", vec!["13.2", "13.5"]),
        Lesson::new("13.9", "Major 2nd, Dim 5th & Minor 7th - Harmonic", vec!["13.3", "13.6"]),
        Lesson::new("13.10", "Minor 2nd, Dim 5th & Major 7th - Ascending", vec!["13.1", "13.4"]),
        Lesson::new("13.11", "Minor 2nd, Dim 5th & Major 7th - Descending", vec!["13.2", "13.5"]),
        Lesson::new("13.12", "Minor 2nd, Dim 5th & Major 7th - Harmonic", vec!["13.3", "13.6"]),
        Lesson::new("13.13", "Minor 2nd & Major 2nd - Ascending", vec!["13.7", "13.10"]),
        Lesson::new("13.14", "Minor 2nd & Major 2nd - Descending", vec!["13.8", "13.11"]),
        Lesson::new("13.15", "Minor 2nd & Major 2nd - Harmonic", vec!["13.9", "13.12"]),
        Lesson::new("13.16", "Minor 7th & Major 7th - Ascending", vec!["13.7", "13.10"]),
        Lesson::new("13.17", "Minor 7th & Major 7th - Descending", vec!["13.8", "13.11"]),
        Lesson::new("13.18", "Minor 7th & Major 7th - Harmonic", vec!["13.9", "13.12"]),
        Lesson::new(
            "13.19",
            "Test: Dissonant intervals with nearby first tones",
            vec!["13.13", "13.14", "13.15", "13.16", "13.17", "13.18"],
        ),
    ]
}

/// Unit 14 - Compare all simple intervals - nearby 1st tones.
fn unit_14() -> (lessons: Vec<Lesson>)
    ensures
        lessons@.len() == 13,
        placed_from(lesson_views(lessons@), numbering(), 172, 13),
{
    proof {
        reveal_with_fuel(placed_from, 14);
        reveal_strlit("11.10");
        reveal_strlit("12.13");
        reveal_strlit("13.19");
        reveal_strlit("14.1");
        reveal_strlit("14.2");
        reveal_strlit("14.3");
        reveal_strlit("14.4");
        reveal_strlit("14.5");
        reveal_strlit("14.6");
        reveal_strlit("14.7");
        reveal_strlit("14.8");
        reveal_strlit("14.9");
        reveal_strlit("14.10");
        reveal_strlit("14.11");
        reveal_strlit("14.12");
        reveal_strlit("14.13");
    }
    vec![
        Lesson::new(
            "14.1",
            "All intervals from Minor 6th to Major 7th - Ascending",
            vec!["11.10", "12.13", "13.19"],
        ),
        Lesson::new(
            "14.2",
            "All intervals from Minor 6th to Major 7th - Descending",
            vec!["11.10", "12.13", "13.19"],
        ),
        Lesson::new(
            "14.3",
            "All intervals from Minor 6th to Major 7th - Harmonic",
            vec!["11.10", "12.13", "13.19"],
        ),
        Lesson::new("14.4", "All intervals from Perfect 5th to Octave - Ascending", vec!["14.1"]),
        Lesson::new("14.5", "All intervals from Perfect 5th to Octave - Descending", vec!["14.2"]),
        Lesson::new("14.6", "All intervals from Perfect 5th to Octave - Harmonic", vec!["14.3"]),
        Lesson::new(
            "14.7",
            "All intervals from Minor 2nd to Major 3rd - Ascending",
            vec!["11.10", "12.13", "13.19"],
        ),
        Lesson::new(
            "14.8",
            "All intervals from Minor 2nd to Major 3rd - Descending",
            vec!["11.10", "12.13", "13.19"],
        ),
        Lesson::new(
            "14.9",
            "All intervals from Minor 2nd to Major 3rd - Harmonic",
            vec!["11.10", "12.13", "13.19"],
        ),
        Lesson::new("14.10", "All intervals from Minor 2nd to Dim 5th - Ascending", vec!["14.7"]),
        Lesson::new("14.11", "All intervals from Minor 2nd to Dim 5th - Descending", vec!["14.8"]),
        Lesson::new("14.12", "All intervals from Minor 2nd to Dim 5th - Harmonic", vec!["14.9"]),
        Lesson::new(
            "14.13",
            "Test: Simple intervals with nearby first tones",
            vec!["14.4", "14.5", "14.6", "14.10", "14.11", "14.12"],
        ),
    ]
}

/// Unit 15 - Compare compound intervals up to 2 octaves - nearby 1st tones.
fn unit_15() -> (lessons: Vec<Lesson>)
    ensures
        lessons@.len() == 10,
        placed_from(lesson_views(lessons@), numbering(), 185, 10),
{
    proof {
        reveal_with_fuel(placed_from, 11);
        reveal_strlit("14.13");
        reveal_strlit("15.1");
        reveal_strlit("15.2");
        reveal_strlit("15.3");
        reveal_strlit("15.4");
        reveal_strlit("15.5");
        reveal_strlit("15.6");
        reveal_strlit("15.7");
        reveal_strlit("15.8");
        reveal_strlit("15.9");
        reveal_strlit("15.10");
    }
    vec![
        Lesson::new("15.1", "Perfect 11th, Perfect 12th & Two Octaves - Ascending", vec!["14.13"]),
        Lesson::new("15.2", "Perfect 11th, Perfect 12th & Two Octaves - Descending", vec!["14.13"]),
        Lesson::new("15.3", "Perfect 11th, Perfect 12th & Two Octaves - Harmonic", vec!["14.13"]),
        Lesson::new(
            "15.4",
            "Minor 10th, Major 10th, Minor 13th & Major 13th - Ascending",
            vec!["15.1"],
        ),
        Lesson::new(
            "15.5",
            "Minor 10th, Major 10th, Minor 13th & Major 13th - Descending",
            vec!["15.2"],
        ),
        Lesson::new(
            "15.6",
            "Minor 10th, Major 10th, Minor 13th & Major 13th - Harmonic",
            vec!["15.3"],
        ),
        Lesson::new(
            "15.7",
            "Minor 9th, Major 9th, Perfect 12th, Minor 14th & Major 14th - Ascending",
            vec!["15.4"],
        ),
        Lesson::new(
            "15.8",
            "Minor 9th, Major 9th, Perfect 12th, Minor 14th & Major 14th - Descending",
            vec!["15.5"],
        ),
        Lesson::new(
            "15.9",
            "Minor 9th, Major 9th, Perfect 12th, Minor 14th & Major 14th - Harmonic",
            vec!["15.6"],
        ),
        Lesson::new(
            "15.10",
            "Test: Compound intervals with nearby first tones",
            vec!["15.7", "15.8", "15.9"],
        ),
    ]
}

/// Unit 16: Compare the perfect intervals - no common tones.
fn unit_16() -> (lessons: Vec<Lesson>)
    ensures
        lessons@.len() == 10,
        placed_from(lesson_views(lessons@), numbering(), 195, 10),
{
    proof {
        reveal_with_fuel(placed_from, 11);
        reveal_strlit("15.10");
        reveal_strlit("16.1");
        reveal_strlit("16.2");
        reveal_strlit("16.3");
        reveal_strlit("16.4");
        reveal_strlit("16.5");
        reveal_strlit("16.6");
        reveal_strlit("16.7");
        reveal_strlit("16.8");
        reveal_strlit("16.9");
        reveal_strlit("16.10");
    }
    vec![
        Lesson::new("16.1", "Perfect 4th & Octave  - Ascending", vec!["15.10"]),
        Lesson::new("16.2", "Perfect 4th & Octave  - Descending", vec!["15.10"]),
        Lesson::new("16.3", "Perfect 4th & Octave  - Harmonic", vec!["15.10"]),
        Lesson::new("16.4", "Perfect 5th & Octave  - Ascending", vec!["15.10"]),
        Lesson::new("16.5", "Perfect 5th & Octave  - Descending", vec!["15.10"]),
        Lesson::new("16.6", "Perfect 5th & Octave  - Harmonic", vec!["15.10"]),
        Lesson::new("16.7", "Perfect 4th & Perfect 5th - Ascending", vec!["16.1", "16.4"]),
        Lesson::new("16.8", "Perfect 4th & Perfect 5th - Descending", vec!["16.2", "16.5"]),
        Lesson::new("16.9", "Perfect 4th & Perfect 5th - Harmonic", vec!["16.3", "16.6"]),
        Lesson::new(
            "16.10",
            "Test: Perfect intervals without common tone",
            vec!["16.7", "16.8", "16.9"],
        ),
    ]
}

/// Unit 17: Compare the imperfect consonant intervals - no common tones.
fn unit_17() -> (lessons: Vec<Lesson>)
    ensures
        lessons@.len() == 13,
        placed_from(lesson_views(lessons@), numbering(), 205, 13),
{
    proof {
        reveal_with_fuel(placed_from, 14);
        reveal_strlit("15.10");
        reveal_strlit("17.1");
        reveal_strlit("17.2");
        reveal_strlit("17.3");
        reveal_strlit("17.4");
        reveal_strlit("17.5");
        reveal_strlit("17.6");
        reveal_strlit("17.7");
        reveal_strlit("17.8");
        reveal_strlit("17.9");
        reveal_strlit("17.10");
        reveal_strlit("17.11");
        reveal_strlit("17.12");
        reveal_strlit("17.13");
    }
    vec![
        Lesson::new("17.1", "Major 3rd & Minor 6th - Ascending", vec!["15.10"]),
        Lesson::new("17.2", "Major 3rd & Minor 6th - Descending", vec!["15.10"]),
        Lesson::new("17.3", "Major 3rd & Minor 6th - Harmonic", vec!["15.10"]),
        Lesson::new("17.4", "Minor 3rd & Major 6th - Ascending", vec!["15.10"]),
        Lesson::new("17.5", "Minor 3rd & Major 6th - Descending", vec!["15.10"]),
        Lesson::new("17.6", "Minor 3rd & Major 6th - Harmonic", vec!["15.10"]),
        Lesson::new("17.7", "Major 3rd & Minor 3rd - Ascending", vec!["17.1", "17.4"]),
        Lesson::new("17.8", "Major 3rd & Minor 3rd - Descending", vec!["17.2", "17.5"]),
        Lesson::new("17.9", "Major 3rd & Minor 3rd - Harmonic", vec!["17.3", "17.6"]),
        Lesson::new("17.10", "Minor 6th & Major 6th - Ascending", vec!["17.1", "17.4"]),
        Lesson::new("17.11", "Minor 6th & Major 6th - Descending", vec!["17.2", "17.5"]),
        Lesson::new("17.12", "Minor 6th & Major 6th - Harmonic", vec!["17.3", "17.6"]),
        Lesson::new(
            "17.13",
            "Test: Imperfect consonant intervals without common tone",
            vec!["17.7", "17.8", "17.9", "17.10", "17.11", "17.12"],
        ),
    ]
}

/// Unit 18 - Compare all the dissonant intervals - no common tones.
fn unit_18() -> (lessons: Vec<Lesson>)
    ensures
        lessons@.len() == 19,
        placed_from(lesson_views(lessons@), numbering(), 218, 19),
{
    proof {
        reveal_with_fuel(placed_from, 20);
        reveal_strlit("15.10");
        reveal_strlit("18.1");
        reveal_strlit("18.2");
        reveal_strlit("18.3");
        reveal_strlit("18.4");
        reveal_strlit("18.5");
        reveal_strlit("18.6");
        reveal_strlit("18.7");
        reveal_strlit("18.8");
        reveal_strlit("18.9");
        reveal_strlit("18.10");
        reveal_strlit("18.11");
        reveal_strlit("18.12");
        reveal_strlit("18.13");
        reveal_strlit("18.14");
        reveal_strlit("18.15");
        reveal_strlit("18.16");
        reveal_strlit("18.17");
        reveal_strlit("18.18");
        reveal_strlit("18.19");
    }
    vec![
        Lesson::new("18.1", "Major 2nd & Minor 7th - Ascending", vec!["15.10"]),
        Lesson::new("18.2", "Major 2nd & Minor 7th - Descending", vec!["15.10"]),
        Lesson::new("18.3", "Major 2nd & Minor 7th - Harmonic", vec!["15.10"]),
        Lesson::new("18.4", "Minor 2nd & Major 7th - Ascending", vec!["15.10"]),
        Lesson::new("18.5", "Minor 2nd & Major 7th - Descending", vec!["15.10"]),
        Lesson::new("18.6", "Minor 2nd & Major 7th - Harmonic", vec!["15.10"]),
        Lesson::new("18.7", "Major 2nd, Dim 5th & Minor 7th - Ascending", vec!["18.1", "18.4"]),
        Lesson::new("18.8", "Major 2nd, Dim 5th & Minor 7th - Descending", vec!["18.2", "18.5"]),
        Lesson::new("18.9", "Major 2nd, Dim 5th & Minor 7th - Harmonic", vec!["18.3", "18.6"]),
        Lesson::new("18.10", "Minor 2nd, Dim 5th & Major 7th - Ascending", vec!["18.1", "18.4"]),
        Lesson::new("18.11", "Minor 2nd, Dim 5th & Major 7th - Descending", vec!["18.2", "18.5"]),
        Lesson::new("18.12", "Minor 2nd, Dim 5th & Major 7th - Harmonic", vec!["18.3", "18.6"]),
        Lesson::new("18.13", "Minor 2nd & Major 2nd - Ascending", vec!["18.7", "18.10"]),
        Lesson::new("18.14", "Minor 2nd & Major 2nd - Descending", vec!["18.8", "18.11"]),
        Lesson::new("18.15", "Minor 2nd & Major 2nd - Harmonic", vec!["18.9", "18.12"]),
        Lesson::new("18.16", "Minor 7th & Major 7th - Ascending", vec!["18.7", "18.10"]),
        Lesson::new("18.17", "Minor 7th & Major 7th - Descending", vec!["18.8", "18.11"]),
        Lesson::new("18.18", "Minor 7th & Major 7th - Harmonic", vec!["18.9", "18.12"]),
        Lesson::new(
            "18.19",
            "Test: Dissonant intervals without common tone",
            vec!["18.13", "18.14", "18.15", "18.16", "18.17", "18.18"],
        ),
    ]
}

/// Unit 19 - Compare all simple intervals - no common tones.
fn unit_19() -> (lessons: Vec<Lesson>)
    ensures
        lessons@.len() == 13,
        placed_from(lesson_views(lessons@), numbering(), 237, 13),
{
    proof {
        reveal_with_fuel(placed_from, 14);
        reveal_strlit("16.10");
        reveal_strlit("17.13");
        reveal_strlit("18.19");
        reveal_strlit("19.1");
        reveal_strlit("19.2");
        reveal_strlit("19.3");
        reveal_strlit("19.4");
        reveal_strlit("19.5");
        reveal_strlit("19.6");
        reveal_strlit("19.7");
        reveal_strlit("19.8");
        reveal_strlit("19.9");
        reveal_strlit("19.10");
        reveal_strlit("19.11");
        reveal_strlit("19.12");
        reveal_strlit("19.13");
    }
    vec![
        Lesson::new(
            "19.1",
            "All intervals from Minor 6th to Major 7th - Ascending",
            vec!["16.10", "17.13", "18.19"],
        ),
        Lesson::new(
            "19.2",
            "All intervals from Minor 6th to Major 7th - Descending",
            vec!["16.10", "17.13", "18.19"],
        ),
        Lesson::new(
            "19.3",
            "All intervals from Minor 6th to Major 7th - Harmonic",
            vec!["16.10", "17.13", "18.19"],
        ),
        Lesson::new("19.4", "All intervals from Perfect 5th to Octave - Ascending", vec!["19.1"]),
        Lesson::new("19.5", "All intervals from Perfect 5th to Octave - Descending", vec!["19.2"]),
        Lesson::new("19.6", "All intervals from Perfect 5th to Octave - Harmonic", vec!["19.3"]),
        Lesson::new(
            "19.7",
            "All intervals from Minor 2nd to Major 3rd - Ascending",
            vec!["16.10", "17.13", "18.19"],
        ),
        Lesson::new(
            "19.8",
            "All intervals from Minor 2nd to Major 3rd - Descending",
            vec!["16.10", "17.13", "18.19"],
        ),
        Lesson::new(
            "19.9",
            "All intervals from Minor 2nd to Major 3rd - Harmonic",
            vec!["16.10", "17.13", "18.19"],
        ),
        Lesson::new("19.10", "All intervals from Minor 2nd to Dim 5th - Ascending", vec!["19.7"]),
        Lesson::new("19.11", "All intervals from Minor 2nd to Dim 5th - Descending", vec!["19.8"]),
        Lesson::new("19.12", "All intervals from Minor 2nd to Dim 5th - Harmonic", vec!["19.9"]),
        Lesson::new(
            "19.13",
            "Test: Simple intervals without common tone",
            vec!["19.4", "19.5", "19.6", "19.10", "19.11", "19.12"],
        ),
    ]
}

/// Unit 20 - Compare compound intervals up to 2 octaves - no common tones.
fn unit_20() -> (lessons: Vec<Lesson>)
    ensures
        lessons@.len() == 10,
        placed_from(lesson_views(lessons@), numbering(), 250, 10),
{
    proof {
        reveal_with_fuel(placed_from, 11);
        reveal_strlit("19.13");
        reveal_strlit("20.1");
        reveal_strlit("20.2");
        reveal_strlit("20.3");
        reveal_strlit("20.4");
        reveal_strlit("20.5");
        reveal_strlit("20.6");
        reveal_strlit("20.7");
        reveal_strlit("20.8");
        reveal_strlit("20.9");
        reveal_strlit("20.10");
    }
    vec![
        Lesson::new("20.1", "Perfect 11th, Perfect 12th & Two Octaves - Ascending", vec!["19.13"]),
        Lesson::new("20.2", "Perfect 11th, Perfect 12th & Two Octaves - Descending", vec!["19.13"]),
        Lesson::new("20.3", "Perfect 11th, Perfect 12th & Two Octaves - Harmonic", vec!["19.13"]),
        Lesson::new(
            "20.4",
            "Minor 10th, Major 10th, Minor 13th & Major 13th - Ascending",
            vec!["20.1"],
        ),
        Lesson::new(
            "20.5",
            "Minor 10th, Major 10th, Minor 13th & Major 13th - Descending",
            vec!["20.2"],
        ),
        Lesson::new(
            "20.6",
            "Minor 10th, Major 10th, Minor 13th & Major 13th - Harmonic",
            vec!["20.3"],
        ),
        Lesson::new(
            "20.7",
            "Minor 9th, Major 9th, Perfect 12th, Minor 14th & Major 14th - Ascending",
            vec!["20.4"],
        ),
        Lesson::new(
            "20.8",
            "Minor 9th, Major 9th, Perfect 12th, Minor 14th & Major 14th - Descending",
            vec!["20.5"],
        ),
        Lesson::new(
            "20.9",
            "Minor 9th, Major 9th, Perfect 12th, Minor 14th & Major 14th - Harmonic",
            vec!["20.6"],
        ),
        Lesson::new(
            "20.10",
            "Test: Compound intervals without common tone",
            vec!["20.7", "20.8", "20.9"],
        ),
    ]
}

/// Builds the graph of the course "Interval Comparison".
///
/// The declaration is accepted, so there is a graph: one node for each of
/// the 260 lessons, in the order of the units.
pub fn course_builder() -> (graph: CourseGraph)
    ensures
        exists|course: CourseView| #[trigger]
            declared(course) && course.accepted() && graph@ == graph_of(course),
{
    let concepts = vec!["intervals".to_owned()];
    assert(texts(concepts@) =~= seq!["intervals"@]);
    let mut metadata = Metadata::new();
    metadata.insert(musical_concept(), concepts);
    let mut lessons: Vec<Lesson> = Vec::new();
    append_unit(&mut lessons, unit_1(), Ghost(numbering()));
    append_unit(&mut lessons, unit_2(), Ghost(numbering()));
    append_unit(&mut lessons, unit_3(), Ghost(numbering()));
    append_unit(&mut lessons, unit_4(), Ghost(numbering()));
    append_unit(&mut lessons, unit_5(), Ghost(numbering()));
    append_unit(&mut lessons, unit_6(), Ghost(numbering()));
    append_unit(&mut lessons, unit_7(), Ghost(numbering()));
    append_unit(&mut lessons, unit_8(), Ghost(numbering()));
    append_unit(&mut lessons, unit_9(), Ghost(numbering()));
    append_unit(&mut lessons, unit_10(), Ghost(numbering()));
    append_unit(&mut lessons, unit_11(), Ghost(numbering()));
    append_unit(&mut lessons, unit_12(), Ghost(numbering()));
    append_unit(&mut lessons, unit_13(), Ghost(numbering()));
    append_unit(&mut lessons, unit_14(), Ghost(numbering()));
    append_unit(&mut lessons, unit_15(), Ghost(numbering()));
    append_unit(&mut lessons, unit_16(), Ghost(numbering()));
    append_unit(&mut lessons, unit_17(), Ghost(numbering()));
    append_unit(&mut lessons, unit_18(), Ghost(numbering()));
    append_unit(&mut lessons, unit_19(), Ghost(numbering()));
    append_unit(&mut lessons, unit_20(), Ghost(numbering()));
    let course = Course {
        id: COURSE_ID.to_owned(),
        name: "Interval Comparison".to_owned(),
        directory_name: "interval_comparison".to_owned(),
        metadata,
        lessons,
    };
    proof {
        reveal_strlit("trane::music::earmaster::interval_comparison");
        lemma_numbering_apart();
        lemma_numbered_accepted(course@, numbering());
        assert(declared(course@));
    }
    match build(&course) {
        Ok(graph) => graph,
        Err(error) => {
            proof {
                lemma_fault_rejects(course@, error@);
            }
            unreached()
        },
    }
}

} // verus!
