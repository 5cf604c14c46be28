//! The course "Melody Singback".
//!
//! The lessons are declared unit by unit. Each lesson stands at the place
//! that its unit and index give, and requires only lessons declared
//! before it, so the declaration is accepted.

use crate::builder::build;
use crate::course::{lesson_views, Course, CourseView, Lesson};
use crate::graph::{graph_of, CourseGraph};
use crate::metadata::Metadata;
use crate::numbering::{
    all_placed, apart, append_unit, lemma_numbered_accepted, placed_from,
};
use crate::outcome::lemma_fault_rejects;
use vstd::pervasive::unreached;
use vstd::prelude::*;

verus! {

/// The identifier of the course.
pub const COURSE_ID: &'static str = "trane::music::earmaster::melody_singback";

/// The place in the declaration of the lesson `index` of the unit `unit`,
/// or -1 where the course has no such lesson.
pub open spec fn number(unit: int, index: int) -> int {
    if unit == 1 && 1 <= index <= 12 {
        index - 1
    } else if unit == 2 && 1 <= index <= 12 {
        index + 11
    } else if unit == 3 && 1 <= index <= 10 {
        index + 23
    } else if unit == 4 && 1 <= index <= 11 {
        index + 33
    } else if unit == 5 && 1 <= index <= 11 {
        index + 44
    } else if unit == 6 && 1 <= index <= 11 {
        index + 55
    } else if unit == 7 && 1 <= index <= 11 {
        index + 66
    } else if unit == 8 && 1 <= index <= 11 {
        index + 77
    } else if unit == 9 && 1 <= index <= 11 {
        index + 88
    } else if unit == 10 && 1 <= index <= 11 {
        index + 99
    } else if unit == 11 && 1 <= index <= 11 {
        index + 110
    } else if unit == 12 && 1 <= index <= 11 {
        index + 121
    } else if unit == 13 && 1 <= index <= 11 {
        index + 132
    } else if unit == 14 && 1 <= index <= 12 {
        index + 143
    } else if unit == 15 && 1 <= index <= 10 {
        index + 155
    } else if unit == 16 && 1 <= index <= 10 {
        index + 165
    } else if unit == 17 && 1 <= index <= 6 {
        index + 175
    } else {
        -1
    }
}

/// The numbering of the course.
pub open spec fn numbering() -> spec_fn(int, int) -> int {
    |unit: int, index: int| number(unit, index)
}

/// The numbering gives different places to different lessons.
pub proof fn lemma_numbering_apart()
    ensures
        apart(numbering()),
{
}

/// What the course declares: its identifier, names and metadata, and its
/// lessons, each at its place.
pub open spec fn declared(course: CourseView) -> bool {
    &&& course.id == COURSE_ID@
    &&& course.name == "Melody Singback"@
    &&& course.directory_name == "earmaster_melody_singback"@
    &&& course.metadata == Map::<Seq<char>, Seq<Seq<char>>>::empty()
    &&& course.lessons.len() == 182
    &&& all_placed(course.lessons, numbering())
}

/// Unit 1 - 3 to 4 tones from the C major scale
fn unit_1() -> (lessons: Vec<Lesson>)
    ensures
        lessons@.len() == 12,
        placed_from(lesson_views(lessons@), numbering(), 0, 12),
{
    proof {
        reveal_with_fuel(placed_from, 13);
        reveal_strlit("1.1");
        reveal_strlit("1.2");
        reveal_strlit("1.3");
        reveal_strlit("1.4");
        reveal_strlit("1.5");
        reveal_strlit("1.6");
        reveal_strlit("1.7");
        reveal_strlit("1.8");
        reveal_strlit("1.9");
        reveal_strlit("1.10");
        reveal_strlit("1.11");
        reveal_strlit("1.12");
    }
    vec![
        Lesson::new("1.1", "Do, Re - 3 tones", vec![]),
        Lesson::new("1.2", "Do, Re, Mi", vec!["1.1"]),
        Lesson::new("1.3", "Do, Re, Mi, Fa", vec!["1.2"]),
        Lesson::new("1.4", "Do, Re, Mi, Fa, So", vec!["1.3"]),
        Lesson::new("1.5", "Do, Re, Mi, Fa, So, La", vec!["1.4"]),
        Lesson::new("1.6", "Do, Re, Mi, Fa, So, La, Ti", vec!["1.5"]),
        Lesson::new("1.7", "Do, Re - 4 tones", vec!["1.1"]),
        Lesson::new("1.8", "Do, Re, Mi", vec!["1.7"]),
        Lesson::new("1.9", "Do, Re, Mi, Fa", vec!["1.8"]),
        Lesson::new("1.10", "Do, Re, Mi, Fa, So", vec!["1.9"]),
        Lesson::new("1.11", "Do, Re, Mi, Fa, So, La", vec!["1.10"]),
        Lesson::new("1.12", "Do, Re, Mi, Fa, So, La, Ti", vec!["1.11"]),
    ]
}

/// Unit 2 - 5 to 6 tones from the C major scale
fn unit_2() -> (lessons: Vec<Lesson>)
    ensures
        lessons@.len() == 12,
        placed_from(lesson_views(lessons@), numbering(), 12, 12),
{
    proof {
        reveal_with_fuel(placed_from, 13);
        reveal_strlit("1.7");
        reveal_strlit("2.1");
        reveal_strlit("2.2");
        reveal_strlit("2.3");
        reveal_strlit("2.4");
        reveal_strlit("2.5");
        reveal_strlit("2.6");
        reveal_strlit("2.7");
        reveal_strlit("2.8");
        reveal_strlit("2.9");
        reveal_strlit("2.10");
        reveal_strlit("2.11");
        reveal_strlit("2.12");
    }
    vec![
        Lesson::new("2.1", "Do, Re - 5 tones", vec!["1.7"]),
        Lesson::new("2.2", "Do, Re, Mi", vec!["2.1"]),
        Lesson::new("2.3", "Do, Re, Mi, Fa", vec!["2.2"]),
        Lesson::new("2.4", "Do, Re, Mi, Fa, So", vec!["2.3"]),
        Lesson::new("2.5", "Do, Re, Mi, Fa, So, La", vec!["2.4"]),
        Lesson::new("2.6", "Do, Re, Mi, Fa, So, La, Ti", vec!["2.5"]),
        Lesson::new("2.7", "Do, Re - 6 tones", vec!["2.1"]),
        Lesson::new("2.8", "Do, Re, Mi", vec!["2.7"]),
        Lesson::new("2.9", "Do, Re, Mi, Fa", vec!["2.8"]),
        Lesson::new("2.10", "Do, Re, Mi, Fa, So", vec!["2.9"]),
        Lesson::new("2.11", "Do, Re, Mi, Fa, So, La", vec!["2.10"]),
        Lesson::new("2.12", "Do, Re, Mi, Fa, So, La, Ti", vec!["2.11"]),
    ]
}

/// Unit 3 - 7 to 8 tones from the C major scale
fn unit_3() -> (lessons: Vec<Lesson>)
    ensures
        lessons@.len() == 10,
        placed_from(lesson_views(lessons@), numbering(), 24, 10),
{
    proof {
        reveal_with_fuel(placed_from, 11);
        reveal_strlit("2.7");
        reveal_strlit("3.1");
        reveal_strlit("3.2");
        reveal_strlit("3.3");
        reveal_strlit("3.4");
        reveal_strlit("3.5");
        reveal_strlit("3.6");
        reveal_strlit("3.7");
        reveal_strlit("3.8");
        reveal_strlit("3.9");
        reveal_strlit("3.10");
    }
    vec![
        Lesson::new("3.1", "Do, Re, Mi - 7 tones", vec!["2.7"]),
        Lesson::new("3.2", "Do, Re, Mi, Fa", vec!["3.1"]),
        Lesson::new("3.3", "Do, Re, Mi, Fa, So", vec!["3.2"]),
        Lesson::new("3.4", "Do, Re, Mi, Fa, So, La", vec!["3.3"]),
        Lesson::new("3.5", "Do, Re, Mi, Fa, So, La, Ti", vec!["3.4"]),
        Lesson::new("3.6", "Do, Re, Mi - 8 tones", vec!["3.1"]),
        Lesson::new("3.7", "Do, Re, Mi, Fa", vec!["3.6"]),
        Lesson::new("3.8", "Do, Re, Mi, Fa, So", vec!["3.7"]),
        Lesson::new("3.9", "Do, Re, Mi, Fa, So, La", vec!["3.8"]),
        Lesson::new("3.10", "Do, Re, Mi, Fa, So, La, Ti", vec!["3.9"]),
    ]
}

/// Unit 4 - Melodies in C major with rhythm. 4/4
fn unit_4() -> (lessons: Vec<Lesson>)
    ensures
        lessons@.len() == 11,
        placed_from(lesson_views(lessons@), numbering(), 34, 11),
{
    proof {
        reveal_with_fuel(placed_from, 12);
        reveal_strlit("3.10");
        reveal_strlit("4.1");
        reveal_strlit("4.2");
        reveal_strlit("4.3");
        reveal_strlit("4.4");
        reveal_strlit("4.5");
        reveal_strlit("4.6");
        reveal_strlit("4.7");
        reveal_strlit("4.8");
        reveal_strlit("4.9");
        reveal_strlit("4.10");
        reveal_strlit("4.11");
    }
    vec![
        Lesson::new("4.1", "Do, Re - 1 bar", vec!["3.10"]),
        Lesson::new("4.2", "Do, Re, Mi", vec!["4.1"]),
        Lesson::new("4.3", "Do, Re, Mi, Fa", vec!["4.2"]),
        Lesson::new("4.4", "Do, Re, Mi, Fa, So", vec!["4.3"]),
        Lesson::new("4.5", "Do, Re, Mi, Fa, So, La", vec!["4.4"]),
        Lesson::new("4.6", "Do, Re, Mi, Fa, So, La, Ti", vec!["4.5"]),
        Lesson::new("4.7", "Do, Re, Mi - 2 bars", vec!["4.2"]),
        Lesson::new("4.8", "Do, Re, Mi, Fa", vec!["4.7"]),
        Lesson::new("4.9", "Do, Re, Mi, Fa, So", vec!["4.8"]),
        Lesson::new("4.10", "Do, Re, Mi, Fa, So, La", vec!["4.9"]),
        Lesson::new("4.11", "Do, Re, Mi, Fa, So, La, Ti", vec!["4.10"]),
    ]
}

/// Unit 5 - Melodies in C major with rhythm. 3/4
fn unit_5() -> (lessons: Vec<Lesson>)
    ensures
        lessons@.len() == 11,
        placed_from(lesson_views(lessons@), numbering(), 45, 11),
{
    proof {
        reveal_with_fuel(placed_from, 12);
        reveal_strlit("3.10");
        reveal_strlit("5.1");
        reveal_strlit("5.2");
        reveal_strlit("5.3");
        reveal_strlit("5.4");
        reveal_strlit("5.5");
        reveal_strlit("5.6");
        reveal_strlit("5.7");
        reveal_strlit("5.8");
        reveal_strlit("5.9");
        reveal_strlit("5.10");
        reveal_strlit("5.11");
    }
    vec![
        Lesson::new("5.1", "Do, Re - 1 bar", vec!["3.10"]),
        Lesson::new("5.2", "Do, Re, Mi", vec!["5.1"]),
        Lesson::new("5.3", "Do, Re, Mi, Fa", vec!["5.2"]),
        Lesson::new("5.4", "Do, Re, Mi, Fa, So", vec!["5.3"]),
        Lesson::new("5.5", "Do, Re, Mi, Fa, So, La", vec!["5.4"]),
        Lesson::new("5.6", "Do, Re, Mi, Fa, So, La, Ti", vec!["5.5"]),
        Lesson::new("5.7", "Do, Re, Mi - 2 bars", vec!["5.2"]),
        Lesson::new("5.8", "Do, Re, Mi, Fa", vec!["5.7"]),
        Lesson::new("5.9", "Do, Re, Mi, Fa, So", vec!["5.8"]),
        Lesson::new("5.10", "Do, Re, Mi, Fa, So, La", vec!["5.9"]),
        Lesson::new("5.11", "Do, Re, Mi, Fa, So, La, Ti", vec!["5.10"]),
    ]
}

/// Unit 6 - Adding 8th Notes. 4/4
fn unit_6() -> (lessons: Vec<Lesson>)
    ensures
        lessons@.len() == 11,
        placed_from(lesson_views(lessons@), numbering(), 56, 11),
{
    proof {
        reveal_with_fuel(placed_from, 12);
        reveal_strlit("4.11");
        reveal_strlit("6.1");
        reveal_strlit("6.2");
        reveal_strlit("6.3");
        reveal_strlit("6.4");
        reveal_strlit("6.5");
        reveal_strlit("6.6");
        reveal_strlit("6.7");
        reveal_strlit("6.8");
        reveal_strlit("6.9");
        reveal_strlit("6.10");
        reveal_strlit("6.11");
    }
    vec![
        Lesson::new("6.1", "Do, Re - 1 bar", vec!["4.11"]),
        Lesson::new("6.2", "Do, Re, Mi", vec!["6.1"]),
        Lesson::new("6.3", "Do, Re, Mi, Fa", vec!["6.2"]),
        Lesson::new("6.4", "Do, Re, Mi, Fa, So", vec!["6.3"]),
        Lesson::new("6.5", "Do, Re, Mi, Fa, So, La", vec!["6.4"]),
        Lesson::new("6.6", "Do, Re, Mi, Fa, So, La, Ti", vec!["6.5"]),
        Lesson::new("6.7", "Do, Re, Mi - 2 bars", vec!["6.2"]),
        Lesson::new("6.8", "Do, Re, Mi, Fa", vec!["6.7"]),
        Lesson::new("6.9", "Do, Re, Mi, Fa, So", vec!["6.8"]),
        Lesson::new("6.10", "Do, Re, Mi, Fa, So, La", vec!["6.9"]),
        Lesson::new("6.11", "Do, Re, Mi, Fa, So, La, Ti", vec!["6.10"]),
    ]
}

/// Unit 7 - Adding 8th Notes. 3/4
fn unit_7() -> (lessons: Vec<Lesson>)
    ensures
        lessons@.len() == 11,
        placed_from(lesson_views(lessons@), numbering(), 67, 11),
{
    proof {
        reveal_with_fuel(placed_from, 12);
        reveal_strlit("5.11");
        reveal_strlit("7.1");
        reveal_strlit("7.2");
        reveal_strlit("7.3");
        reveal_strlit("7.4");
        reveal_strlit("7.5");
        reveal_strlit("7.6");
        reveal_strlit("7.7");
        reveal_strlit("7.8");
        reveal_strlit("7.9");
        reveal_strlit("7.10");
        reveal_strlit("7.11");
    }
    vec![
        Lesson::new("7.1", "Do, Re - 1 bar", vec!["5.11"]),
        Lesson::new("7.2", "Do, Re, Mi", vec!["7.1"]),
        Lesson::new("7.3", "Do, Re, Mi, Fa", vec!["7.2"]),
        Lesson::new("7.4", "Do, Re, Mi, Fa, So", vec!["7.3"]),
        Lesson::new("7.5", "Do, Re, Mi, Fa, So, La", vec!["7.4"]),
        Lesson::new("7.6", "Do, Re, Mi, Fa, So, La, Ti", vec!["7.5"]),
        Lesson::new("7.7", "Do, Re, Mi - 2 bars", vec!["7.2"]),
        Lesson::new("7.8", "Do, Re, Mi, Fa", vec!["7.7"]),
        Lesson::new("7.9", "Do, Re, Mi, Fa, So", vec!["7.8"]),
        Lesson::new("7.10", "Do, Re, Mi, Fa, So, La", vec!["7.9"]),
        Lesson::new("7.11", "Do, Re, Mi, Fa, So, La, Ti", vec!["7.10"]),
    ]
}

/// Unit 8 - Around the Circle of Fifths. 4/4
fn unit_8() -> (lessons: Vec<Lesson>)
    ensures
        lessons@.len() == 11,
        placed_from(lesson_views(lessons@), numbering(), 78, 11),
{
    proof {
        reveal_with_fuel(placed_from, 12);
        reveal_strlit("6.11");
        reveal_strlit("8.1");
        reveal_strlit("8.2");
        reveal_strlit("8.3");
        reveal_strlit("8.4");
        reveal_strlit("8.5");
        reveal_strlit("8.6");
        reveal_strlit("8.7");
        reveal_strlit("8.8");
        reveal_strlit("8.9");
        reveal_strlit("8.10");
        reveal_strlit("8.11");
    }
    vec![
        Lesson::new("8.1", "Do, Re - 1 bar", vec!["6.11"]),
        Lesson::new("8.2", "Do, Re, Mi", vec!["8.1"]),
        Lesson::new("8.3", "Do, Re, Mi, Fa", vec!["8.2"]),
        Lesson::new("8.4", "Do, Re, Mi, Fa, So", vec!["8.3"]),
        Lesson::new("8.5", "Do, Re, Mi, Fa, So, La", vec!["8.4"]),
        Lesson::new("8.6", "Do, Re, Mi, Fa, So, La, Ti", vec!["8.5"]),
        Lesson::new("8.7", "Do, Re, Mi - 2 bars", vec!["8.2"]),
        Lesson::new("8.8", "Do, Re, Mi, Fa", vec!["8.7"]),
        Lesson::new("8.9", "Do, Re, Mi, Fa, So", vec!["8.8"]),
        Lesson::new("8.10", "Do, Re, Mi, Fa, So, La", vec!["8.9"]),
        Lesson::new("8.11", "Do, Re, Mi, Fa, So, La, Ti", vec!["8.10"]),
    ]
}

/// Unit 9 - Around the Circle of Fifths. 3/4
fn unit_9() -> (lessons: Vec<Lesson>)
    ensures
        lessons@.len() == 11,
        placed_from(lesson_views(lessons@), numbering(), 89, 11),
{
    proof {
        reveal_with_fuel(placed_from, 12);
        reveal_strlit("7.11");
        reveal_strlit("9.1");
        reveal_strlit("9.2");
        reveal_strlit("9.3");
        reveal_strlit("9.4");
        reveal_strlit("9.5");
        reveal_strlit("9.6");
        reveal_strlit("9.7");
        reveal_strlit("9.8");
        reveal_strlit("9.9");
        reveal_strlit("9.10");
        reveal_strlit("9.11");
    }
    vec![
        Lesson::new("9.1", "Do, Re - 1 bar", vec!["7.11"]),
        Lesson::new("9.2", "Do, Re, Mi", vec!["9.1"]),
        Lesson::new("9.3", "Do, Re, Mi, Fa", vec!["9.2"]),
        Lesson::new("9.4", "Do, Re, Mi, Fa, So", vec!["9.3"]),
        Lesson::new("9.5", "Do, Re, Mi, Fa, So, La", vec!["9.4"]),
        Lesson::new("9.6", "Do, Re, Mi, Fa, So, La, Ti", vec!["9.5"]),
        Lesson::new("9.7", "Do, Re, Mi - 2 bars", vec!["9.2"]),
        Lesson::new("9.8", "Do, Re, Mi, Fa", vec!["9.7"]),
        Lesson::new("9.9", "Do, Re, Mi, Fa, So", vec!["9.8"]),
        Lesson::new("9.10", "Do, Re, Mi, Fa, So, La", vec!["9.9"]),
        Lesson::new("9.11", "Do, Re, Mi, Fa, So, La, Ti", vec!["9.10"]),
    ]
}

/// Unit 10 - Around the Circle of Fifths. 4/4 with 8th Notes
fn unit_10() -> (lessons: Vec<Lesson>)
    ensures
        lessons@.len() == 11,
        placed_from(lesson_views(lessons@), numbering(), 100, 11),
{
    proof {
        reveal_with_fuel(placed_from, 12);
        reveal_strlit("8.11");
        reveal_strlit("10.1");
        reveal_strlit("10.2");
        reveal_strlit("10.3");
        reveal_strlit("10.4");
        reveal_strlit("10.5");
        reveal_strlit("10.6");
        reveal_strlit("10.7");
        reveal_strlit("10.8");
        reveal_strlit("10.9");
        reveal_strlit("10.10");
        reveal_strlit("10.11");
    }
    vec![
        Lesson::new("10.1", "Do, Re - 1 bar", vec!["8.11"]),
        Lesson::new("10.2", "Do, Re, Mi", vec!["10.1"]),
        Lesson::new("10.3", "Do, Re, Mi, Fa", vec!["10.2"]),
        Lesson::new("10.4", "Do, Re, Mi, Fa, So", vec!["10.3"]),
        Lesson::new("10.5", "Do, Re, Mi, Fa, So, La", vec!["10.4"]),
        Lesson::new("10.6", "Do, Re, Mi, Fa, So, La, Ti", vec!["10.5"]),
        Lesson::new("10.7", "Do, Re, Mi - 2 bars", vec!["10.2"]),
        Lesson::new("10.8", "Do, Re, Mi, Fa", vec!["10.7"]),
        Lesson::new("10.9", "Do, Re, Mi, Fa, So", vec!["10.8"]),
        Lesson::new("10.10", "Do, Re, Mi, Fa, So, La", vec!["10.9"]),
        Lesson::new("10.11", "Do, Re, Mi, Fa, So, La, Ti", vec!["10.10"]),
    ]
}

/// Unit 11 - Around the Circle of Fifths. 3/4 with 8th Notes
fn unit_11() -> (lessons: Vec<Lesson>)
    ensures
        lessons@.len() == 11,
        placed_from(lesson_views(lessons@), numbering(), 111, 11),
{
    proof {
        reveal_with_fuel(placed_from, 12);
        reveal_strlit("9.11");
        reveal_strlit("11.1");
        reveal_strlit("11.2");
        reveal_strlit("11.3");
        reveal_strlit("11.4");
        reveal_strlit("11.5");
        reveal_strlit("11.6");
        reveal_strlit("11.7");
        reveal_strlit("11.8");
        reveal_strlit("11.9");
        reveal_strlit("11.10");
        reveal_strlit("11.11");
    }
    vec![
        Lesson::new("11.1", "Do, Re - 1 bar", vec!["9.11"]),
        Lesson::new("11.2", "Do, Re, Mi", vec!["11.1"]),
        Lesson::new("11.3", "Do, Re, Mi, Fa", vec!["11.2"]),
        Lesson::new("11.4", "Do, Re, Mi, Fa, So", vec!["11.3"]),
        Lesson::new("11.5", "Do, Re, Mi, Fa, So, La", vec!["11.4"]),
        Lesson::new("11.6", "Do, Re, Mi, Fa, So, La, Ti", vec!["11.5"]),
        Lesson::new("11.7", "Do, Re, Mi - 2 bars", vec!["11.2"]),
        Lesson::new("11.8", "Do, Re, Mi, Fa", vec!["11.7"]),
        Lesson::new("11.9", "Do, Re, Mi, Fa, So", vec!["11.8"]),
        Lesson::new("11.10", "Do, Re, Mi, Fa, So, La", vec!["11.9"]),
        Lesson::new("11.11", "Do, Re, Mi, Fa, So, La, Ti", vec!["11.10"]),
    ]
}

/// Unit 12 - Melodies in A minor. 4/4
fn unit_12() -> (lessons: Vec<Lesson>)
    ensures
        lessons@.len() == 11,
        placed_from(lesson_views(lessons@), numbering(), 122, 11),
{
    proof {
        reveal_with_fuel(placed_from, 12);
        reveal_strlit("10.11");
        reveal_strlit("12.1");
        reveal_strlit("12.2");
        reveal_strlit("12.3");
        reveal_strlit("12.4");
        reveal_strlit("12.5");
        reveal_strlit("12.6");
        reveal_strlit("12.7");
        reveal_strlit("12.8");
        reveal_strlit("12.9");
        reveal_strlit("12.10");
        reveal_strlit("12.11");
    }
    vec![
        Lesson::new("12.1", "Do, Re - 1 bar", vec!["10.11"]),
        Lesson::new("12.2", "Do, Re, Me", vec!["12.1"]),
        Lesson::new("12.3", "Do, Re, Me, Fa", vec!["12.2"]),
        Lesson::new("12.4", "Do, Re, Me, Fa, So", vec!["12.3"]),
        Lesson::new("12.5", "Do, Re, Me, Fa, So, La", vec!["12.4"]),
        Lesson::new("12.6", "Do, Re, Me, Fa, So, La, Te", vec!["12.5"]),
        Lesson::new("12.7", "Do, Re, Me - 2 bars", vec!["12.2"]),
        Lesson::new("12.8", "Do, Re, Me, Fa", vec!["12.7"]),
        Lesson::new("12.9", "Do, Re, Me, Fa, So", vec!["12.8"]),
        Lesson::new("12.10", "Do, Re, Me, Fa, So, La", vec!["12.9"]),
        Lesson::new("12.11", "Do, Re, Me, Fa, So, La, Te", vec!["12.10"]),
    ]
}

/// Unit 13 - Melodies in A minor. 3/4
fn unit_13() -> (lessons: Vec<Lesson>)
    ensures
        lessons@.len() == 11,
        placed_from(lesson_views(lessons@), numbering(), 133, 11),
{
    proof {
        reveal_with_fuel(placed_from, 12);
        reveal_strlit("11.11");
        reveal_strlit("13.1");
        reveal_strlit("13.2");
        reveal_strlit("13.3");
        reveal_strlit("13.4");
        reveal_strlit("13.5");
        reveal_strlit("13.6");
        reveal_strlit("13.7");
        reveal_strlit("13.8");
        reveal_strlit("13.9");
        reveal_strlit("13.10");
        reveal_strlit("13.11");
    }
    vec![
        Lesson::new("13.1", "Do, Re - 1 bar", vec!["11.11"]),
        Lesson::new("13.2", "Do, Re, Me", vec!["13.1"]),
        Lesson::new("13.3", "Do, Re, Me, Fa", vec!["13.2"]),
        Lesson::new("13.4", "Do, Re, Me, Fa, So", vec!["13.3"]),
        Lesson::new("13.5", "Do, Re, Me, Fa, So, La", vec!["13.4"]),
        Lesson::new("13.6", "Do, Re, Me, Fa, So, La, Te", vec!["13.5"]),
        Lesson::new("13.7", "Do, Re, Me - 2 bars", vec!["13.2"]),
        Lesson::new("13.8", "Do, Re, Me, Fa", vec!["13.7"]),
        Lesson::new("13.9", "Do, Re, Me, Fa, So", vec!["13.8"]),
        Lesson::new("13.10", "Do, Re, Me, Fa, So, La", vec!["13.9"]),
        Lesson::new("13.11", "Do, Re, Me, Fa, So, La, Te", vec!["13.10"]),
    ]
}

/// Unit 14 - Melodies in A minor. 4/4 with 8th Notes.
fn unit_14() -> (lessons: Vec<Lesson>)
    ensures
        lessons@.len() == 12,
        placed_from(lesson_views(lessons@), numbering(), 144, 12),
{
    proof {
        reveal_with_fuel(placed_from, 13);
        reveal_strlit("12.11");
        reveal_strlit("14.1");
        reveal_strlit("14.2");
        reveal_strlit("14.3");
        reveal_strlit("14.4");
        reveal_strlit("14.5");
        reveal_strlit("14.6");
        reveal_strlit("14.7");
        reveal_strlit("14.8");
        reveal_strlit("14.9");
        reveal_strlit("14.10");
        reveal_strlit("14.11");
        reveal_strlit("14.12");
    }
    vec![
        Lesson::new("14.1", "Do, Re - 1 bar", vec!["12.11"]),
        Lesson::new("14.2", "Do, Re, Me", vec!["14.1"]),
        Lesson::new("14.3", "Do, Re, Me, Fa", vec!["14.2"]),
        Lesson::new("14.4", "Do, Re, Me, Fa, So", vec!["14.3"]),
        Lesson::new("14.5", "Do, Re, Me, Fa, So, La", vec!["14.4"]),
        Lesson::new("14.6", "Do, Re, Me, Fa, So, La, Te", vec!["14.5"]),
        Lesson::new("14.7", "Do, Re - 2 bars", vec!["14.1"]),
        Lesson::new("14.8", "Do, Re, Me", vec!["14.7"]),
        Lesson::new("14.9", "Do, Re, Me, Fa", vec!["14.8"]),
        Lesson::new("14.10", "Do, Re, Me, Fa, So", vec!["14.9"]),
        Lesson::new("14.11", "Do, Re, Me, Fa, So, La", vec!["14.10"]),
        Lesson::new("14.12", "Do, Re, Me, Fa, So, La, Te", vec!["14.11"]),
    ]
}

/// Unit 15 - Melodies in A minor. 3/4 with 8th Notes.
fn unit_15() -> (lessons: Vec<Lesson>)
    ensures
        lessons@.len() == 10,
        placed_from(lesson_views(lessons@), numbering(), 156, 10),
{
    proof {
        reveal_with_fuel(placed_from, 11);
        reveal_strlit("13.11");
        reveal_strlit("15.1");
        reveal_strlit("15.2");
        reveal_strlit("15.3");
        reveal_strlit("15.4");
        reveal_strlit("15.5");
        reveal_strlit("15.6");
        reveal_strlit("15.7");
        reveal_strlit("15.8");
        reveal_strlit("15.9");
        reveal_strlit("15.10");
    }
    vec![
        Lesson::new("15.1", "Do, Re, Me - 1 bar", vec!["13.11"]),
        Lesson::new("15.2", "Do, Re, Me, Fa", vec!["15.1"]),
        Lesson::new("15.3", "Do, Re, Me, Fa, So", vec!["15.2"]),
        Lesson::new("15.4", "Do, Re, Me, Fa, So, La", vec!["15.3"]),
        Lesson::new("15.5", "Do, Re, Me, Fa, So, La, Te", vec!["15.4"]),
        Lesson::new("15.6", "Do, Re, Me - 2 bars", vec!["15.1"]),
        Lesson::new("15.7", "Do, Re, Me, Fa", vec!["15.6"]),
        Lesson::new("15.8", "Do, Re, Me, Fa, So", vec!["15.7"]),
        Lesson::new("15.9", "Do, Re, Me, Fa, So, La", vec!["15.8"]),
        Lesson::new("15.10", "Do, Re, Me, Fa, So, La, Te", vec!["15.9"]),
    ]
}

/// Unit 16 - All Minor Keys. 4/4 with 8th Notes.
fn unit_16() -> (lessons: Vec<Lesson>)
    ensures
        lessons@.len() == 10,
        placed_from(lesson_views(lessons@), numbering(), 166, 10),
{
    proof {
        reveal_with_fuel(placed_from, 11);
        reveal_strlit("14.12");
        reveal_strlit("15.10");
        reveal_strlit("16.1");
        reveal_strlit("16.2");
        reveal_strlit("16.3");
        reveal_strlit("16.4");
        reveal_strlit("16.5");
        reveal_strlit("16.6");
        reveal_strlit("16.7");
        reveal_strlit("16.8");
        reveal_strlit("16.9");
        reveal_strlit("16.10");
    }
    vec![
        Lesson::new("16.1", "Do, Re, Me - 1 bar", vec!["14.12", "15.10"]),
        Lesson::new("16.2", "Do, Re, Me, Fa", vec!["16.1"]),
        Lesson::new("16.3", "Do, Re, Me, Fa, So", vec!["16.2"]),
        Lesson::new("16.4", "Do, Re, Me, Fa, So, La", vec!["16.3"]),
        Lesson::new("16.5", "Do, Re, Me, Fa, So, La, Te", vec!["16.4"]),
        Lesson::new("16.6", "Do, Re, Me - 2 bars", vec!["16.1"]),
        Lesson::new("16.7", "Do, Re, Me, Fa", vec!["16.6"]),
        Lesson::new("16.8", "Do, Re, Me, Fa, So", vec!["16.7"]),
        Lesson::new("16.9", "Do, Re, Me, Fa, So, La", vec!["16.8"]),
        Lesson::new("16.10", "Do, Re, Me, Fa, So, La, Te", vec!["16.9"]),
    ]
}

/// Unit 17 - Harmonic Minor. 4/4 with 8th Notes.
fn unit_17() -> (lessons: Vec<Lesson>)
    ensures
        lessons@.len() == 6,
        placed_from(lesson_views(lessons@), numbering(), 176, 6),
{
    proof {
        reveal_with_fuel(placed_from, 7);
        reveal_strlit("16.10");
        reveal_strlit("17.1");
        reveal_strlit("17.2");
        reveal_strlit("17.3");
        reveal_strlit("17.4");
        reveal_strlit("17.5");
        reveal_strlit("17.6");
    }
    vec![
        Lesson::new("17.1", "A minor harmonic. 1 bar", vec!["16.10"]),
        Lesson::new("17.2", "A minor harmonic. 2 bars", vec!["17.1"]),
        Lesson::new("17.3", "A minor harmonic. 4 bars", vec!["17.2"]),
        Lesson::new("17.4", "Harmonic minor (all keys). 1 bar", vec!["17.3"]),
        Lesson::new("17.5", "Harmonic minor (all keys). 2 bars", vec!["17.4"]),
        Lesson::new("17.6", "Harmonic minor (all keys). 4 bars", vec!["17.5"]),
    ]
}

/// Builds the graph of the course "Melody Singback".
///
/// The declaration is accepted, so there is a graph: one node for each of
/// the 182 lessons, in the order of the units.
pub fn course_builder() -> (graph: CourseGraph)
    ensures
        exists|course: CourseView| #[trigger]
            declared(course) && course.accepted() && graph@ == graph_of(course),
{
    let metadata = Metadata::new();
    let mut lessons: Vec<Lesson> = Vec::new();
    append_unit(&mut lessons, unit_1(), Ghost(numbering()));
    append_unit(&mut lessons, unit_2(), Ghost(numbering()));
    append_unit(&mut lessons, unit_3(), Ghost(numbering()));
    append_unit(&mut lessons, unit_4(), Ghost(numbering()));
    append_unit(&mut lessons, unit_5(), Ghost(numbering()));
    append_unit(&mut lessons, unit_6(), Ghost(numbering()));
    append_unit(&mut lessons, unit_7(), Ghost(numbering()));
    append_unit(&mut lessons, unit_8(), Ghost(numbering()));
    append_unit(&mut lessons, unit_9(), Ghost(numbering()));
    append_unit(&mut lessons, unit_10(), Ghost(numbering()));
    append_unit(&mut lessons, unit_11(), Ghost(numbering()));
    append_unit(&mut lessons, unit_12(), Ghost(numbering()));
    append_unit(&mut lessons, unit_13(), Ghost(numbering()));
    append_unit(&mut lessons, unit_14(), Ghost(numbering()));
    append_unit(&mut lessons, unit_15(), Ghost(numbering()));
    append_unit(&mut lessons, unit_16(), Ghost(numbering()));
    append_unit(&mut lessons, unit_17(), Ghost(numbering()));
    let course = Course {
        id: COURSE_ID.to_owned(),
        name: "Melody Singback".to_owned(),
        directory_name: "earmaster_melody_singback".to_owned(),
        metadata,
        lessons,
    };
    proof {
        reveal_strlit("trane::music::earmaster::melody_singback");
        lemma_numbering_apart();
        lemma_numbered_accepted(course@, numbering());
        assert(declared(course@));
    }
    match build(&course) {
        Ok(graph) => graph,
        Err(error) => {
            proof {
                lemma_fault_rejects(course@, error@);
            }
            unreached()
        },
    }
}

} // verus!
