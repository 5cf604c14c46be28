use earmaster::builder::build;
use earmaster::course::{Course, Lesson};
use earmaster::error::BuildError;
use earmaster::graph::CourseGraph;
use earmaster::metadata::Metadata;

fn course_of(id: &str, lessons: Vec<Lesson>) -> Course {
    Course {
        id: id.to_string(),
        name: "Course".to_string(),
        directory_name: "course".to_string(),
        metadata: Metadata::new(),
        lessons,
    }
}

fn graph_of(id: &str, lessons: Vec<Lesson>) -> CourseGraph {
    match build(&course_of(id, lessons)) {
        Ok(graph) => graph,
        Err(error) => panic!("the course was rejected: {:?}", error),
    }
}

fn error_of(id: &str, lessons: Vec<Lesson>) -> BuildError {
    match build(&course_of(id, lessons)) {
        Ok(_) => panic!("the course was accepted"),
        Err(error) => error,
    }
}

fn rotations(path: &[&str]) -> Vec<Vec<String>> {
    let mut all = Vec::new();
    for start in 0..path.len() {
        let mut one = Vec::new();
        for k in 0..path.len() {
            one.push(path[(start + k) % path.len()].to_string());
        }
        all.push(one);
    }
    all
}

#[test]
fn duplicate_short_id_is_rejected() {
    let error = error_of(
        "c",
        vec![Lesson::new("1.1", "First", vec![]), Lesson::new("1.1", "Second", vec![])],
    );
    assert_eq!(error, BuildError::DuplicateLessonId("1.1".to_string()));
}

#[test]
fn duplicate_short_id_gives_no_graph() {
    let course = course_of(
        "c",
        vec![Lesson::new("1.1", "First", vec![]), Lesson::new("1.1", "Second", vec![])],
    );
    assert!(build(&course).is_err());
}

#[test]
fn unknown_dependency_is_rejected() {
    let error = error_of("c", vec![Lesson::new("1.2", "Lesson", vec!["9.9"])]);
    assert_eq!(error, BuildError::UnknownDependency("1.2".to_string(), "9.9".to_string()));
}

#[test]
fn cycle_of_two_names_both_lessons() {
    let error = error_of(
        "c",
        vec![Lesson::new("A", "First", vec!["B"]), Lesson::new("B", "Second", vec!["A"])],
    );
    match error {
        BuildError::DependencyCycle(path) => {
            assert!(path.contains(&"A".to_string()));
            assert!(path.contains(&"B".to_string()));
            assert!(rotations(&["A", "B"]).contains(&path));
        }
        other => panic!("not a cycle: {:?}", other),
    }
}

#[test]
fn self_dependency_is_a_cycle() {
    let error = error_of("c", vec![Lesson::new("A", "Alone", vec!["A"])]);
    assert_eq!(error, BuildError::DependencyCycle(vec!["A".to_string()]));
}

#[test]
fn diamond_is_accepted_and_not_flattened() {
    let graph = graph_of(
        "c",
        vec![
            Lesson::new("1", "One", vec![]),
            Lesson::new("2", "Two", vec!["1"]),
            Lesson::new("3", "Three", vec!["1"]),
            Lesson::new("4", "Four", vec!["2", "3"]),
        ],
    );
    assert_eq!(graph.len(), 4);
    let four = graph.get("c::4").unwrap();
    assert_eq!(four.dependencies, vec!["c::2".to_string(), "c::3".to_string()]);
    assert!(!four.dependencies.contains(&"c::1".to_string()));
    assert_eq!(graph.get("c::2").unwrap().dependencies, vec!["c::1".to_string()]);
    assert_eq!(graph.get("c::3").unwrap().dependencies, vec!["c::1".to_string()]);
    assert!(graph.get("c::1").unwrap().dependencies.is_empty());
}

#[test]
fn every_lesson_becomes_one_node_in_order() {
    let graph = graph_of(
        "music::ear",
        vec![
            Lesson::new("1.1", "Seconds", vec![]),
            Lesson::new("1.2", "Thirds", vec!["1.1"]),
            Lesson::new("2.1", "Fourths", vec!["1.2", "1.1"]),
        ],
    );
    let nodes = graph.nodes();
    assert_eq!(nodes.len(), 3);
    assert_eq!(nodes[0].global_id, "music::ear::1.1");
    assert_eq!(nodes[1].global_id, "music::ear::1.2");
    assert_eq!(nodes[2].global_id, "music::ear::2.1");
    assert_eq!(nodes[0].name, "Seconds");
    assert_eq!(nodes[1].name, "Thirds");
    assert_eq!(nodes[2].name, "Fourths");
    assert_eq!(
        nodes[2].dependencies,
        vec!["music::ear::1.2".to_string(), "music::ear::1.1".to_string()]
    );
}

#[test]
fn building_twice_gives_equal_graphs() {
    let mut metadata = Metadata::new();
    metadata.insert("genre".to_string(), vec!["jazz".to_string(), "blues".to_string()]);
    let course = Course {
        id: "c".to_string(),
        name: "Course".to_string(),
        directory_name: "course".to_string(),
        metadata,
        lessons: vec![
            Lesson::new("1", "One", vec![]),
            Lesson::new("2", "Two", vec!["1"]),
            Lesson::new("3", "Three", vec!["1", "2"]),
        ],
    };
    let first = build(&course).unwrap();
    let second = build(&course).unwrap();
    assert_eq!(first.len(), second.len());
    for (a, b) in first.nodes().iter().zip(second.nodes().iter()) {
        assert_eq!(a.global_id, b.global_id);
        assert_eq!(a.name, b.name);
        assert_eq!(a.dependencies, b.dependencies);
        assert_eq!(a.metadata.keys().len(), b.metadata.keys().len());
        for key in a.metadata.keys() {
            assert!(a.metadata.get(&key).is_some());
            assert_eq!(a.metadata.get(&key), b.metadata.get(&key));
        }
    }
}

#[test]
fn a_course_without_lessons_gives_an_empty_graph() {
    let graph = graph_of("c", vec![]);
    assert_eq!(graph.len(), 0);
    assert!(graph.nodes().is_empty());
    assert!(graph.get("c::1").is_none());
}

#[test]
fn a_course_without_lessons_needs_no_identifier() {
    let graph = graph_of("", vec![]);
    assert_eq!(graph.len(), 0);
    assert_eq!(graph.id(), "");
}

#[test]
fn the_course_is_copied_through() {
    let mut metadata = Metadata::new();
    metadata.insert("musical_concept".to_string(), vec!["intervals".to_string()]);
    let course = Course {
        id: "trane::ear".to_string(),
        name: "Ear Training".to_string(),
        directory_name: "ear_training".to_string(),
        metadata,
        lessons: vec![Lesson::new("1", "One", vec![])],
    };
    let graph = build(&course).unwrap();
    assert_eq!(graph.id(), "trane::ear");
    assert_eq!(graph.name(), "Ear Training");
    assert_eq!(graph.directory_name(), "ear_training");
    assert_eq!(graph.metadata().keys(), vec!["musical_concept".to_string()]);
    assert_eq!(graph.metadata().get("musical_concept"), Some(&vec!["intervals".to_string()]));
    let node = &graph.nodes()[0];
    assert_eq!(node.metadata.get("musical_concept"), Some(&vec!["intervals".to_string()]));
    assert_eq!(node.metadata.get("genre"), None);
}

#[test]
fn an_empty_course_id_is_rejected_at_the_first_lesson() {
    let error = error_of("", vec![Lesson::new("1", "One", vec![]), Lesson::new("2", "Two", vec![])]);
    assert_eq!(error, BuildError::InvalidIdentifier("".to_string(), "1".to_string()));
}

#[test]
fn an_empty_short_id_is_rejected() {
    let error = error_of("c", vec![Lesson::new("1", "One", vec![]), Lesson::new("", "Two", vec![])]);
    assert_eq!(error, BuildError::InvalidIdentifier("c".to_string(), "".to_string()));
}

#[test]
fn the_first_registration_fault_is_reported() {
    let error = error_of(
        "c",
        vec![
            Lesson::new("1", "One", vec![]),
            Lesson::new("1", "One again", vec![]),
            Lesson::new("", "Nameless", vec![]),
        ],
    );
    assert_eq!(error, BuildError::DuplicateLessonId("1".to_string()));
    let error = error_of(
        "c",
        vec![
            Lesson::new("1", "One", vec![]),
            Lesson::new("", "Nameless", vec![]),
            Lesson::new("1", "One again", vec![]),
        ],
    );
    assert_eq!(error, BuildError::InvalidIdentifier("c".to_string(), "".to_string()));
}

#[test]
fn a_duplicate_is_found_before_an_unknown_dependency() {
    let error = error_of(
        "c",
        vec![
            Lesson::new("1", "One", vec!["9"]),
            Lesson::new("2", "Two", vec![]),
            Lesson::new("2", "Two again", vec![]),
        ],
    );
    assert_eq!(error, BuildError::DuplicateLessonId("2".to_string()));
}

#[test]
fn a_duplicate_is_found_before_a_cycle() {
    let error = error_of(
        "c",
        vec![
            Lesson::new("1", "One", vec!["1"]),
            Lesson::new("2", "Two", vec![]),
            Lesson::new("2", "Two again", vec![]),
        ],
    );
    assert_eq!(error, BuildError::DuplicateLessonId("2".to_string()));
}

#[test]
fn an_unknown_dependency_is_found_before_a_cycle() {
    let error = error_of(
        "c",
        vec![
            Lesson::new("1", "One", vec!["2"]),
            Lesson::new("2", "Two", vec!["1"]),
            Lesson::new("3", "Three", vec!["4"]),
        ],
    );
    assert_eq!(error, BuildError::UnknownDependency("3".to_string(), "4".to_string()));
}

#[test]
fn the_first_unknown_dependency_is_reported() {
    let error = error_of(
        "c",
        vec![
            Lesson::new("1", "One", vec![]),
            Lesson::new("2", "Two", vec!["1", "8", "9"]),
            Lesson::new("3", "Three", vec!["7"]),
        ],
    );
    assert_eq!(error, BuildError::UnknownDependency("2".to_string(), "8".to_string()));
}

#[test]
fn a_global_id_is_no_dependency() {
    let error = error_of(
        "c",
        vec![Lesson::new("1", "One", vec![]), Lesson::new("2", "Two", vec!["c::1"])],
    );
    assert_eq!(error, BuildError::UnknownDependency("2".to_string(), "c::1".to_string()));
}

#[test]
fn a_lesson_may_require_a_later_lesson() {
    let graph = graph_of(
        "c",
        vec![Lesson::new("1", "One", vec!["2"]), Lesson::new("2", "Two", vec![])],
    );
    assert_eq!(graph.nodes()[0].dependencies, vec!["c::2".to_string()]);
    assert!(graph.nodes()[1].dependencies.is_empty());
}

#[test]
fn a_cycle_of_three_is_reported_in_order() {
    let error = error_of(
        "c",
        vec![
            Lesson::new("0", "Zero", vec![]),
            Lesson::new("A", "First", vec!["0", "B"]),
            Lesson::new("B", "Second", vec!["C"]),
            Lesson::new("C", "Third", vec!["0", "A"]),
            Lesson::new("D", "Fourth", vec!["A"]),
        ],
    );
    match error {
        BuildError::DependencyCycle(path) => {
            assert!(rotations(&["A", "B", "C"]).contains(&path));
        }
        other => panic!("not a cycle: {:?}", other),
    }
}

#[test]
fn a_cycle_behind_a_chain_is_found() {
    let error = error_of(
        "c",
        vec![
            Lesson::new("1", "One", vec!["2"]),
            Lesson::new("2", "Two", vec!["3"]),
            Lesson::new("3", "Three", vec!["4"]),
            Lesson::new("4", "Four", vec!["3"]),
        ],
    );
    match error {
        BuildError::DependencyCycle(path) => {
            assert!(rotations(&["3", "4"]).contains(&path));
        }
        other => panic!("not a cycle: {:?}", other),
    }
}

#[test]
fn a_self_dependency_among_others_is_found() {
    let error = error_of(
        "c",
        vec![
            Lesson::new("1", "One", vec![]),
            Lesson::new("2", "Two", vec!["1", "2"]),
            Lesson::new("3", "Three", vec!["2"]),
        ],
    );
    assert_eq!(error, BuildError::DependencyCycle(vec!["2".to_string()]));
}

#[test]
fn a_repeated_dependency_is_kept() {
    let graph = graph_of(
        "c",
        vec![Lesson::new("1", "One", vec![]), Lesson::new("2", "Two", vec!["1", "1"])],
    );
    assert_eq!(graph.nodes()[1].dependencies, vec!["c::1".to_string(), "c::1".to_string()]);
}

#[test]
fn shared_dependencies_are_no_cycle() {
    let graph = graph_of(
        "c",
        vec![
            Lesson::new("a", "A", vec!["b", "c", "d"]),
            Lesson::new("b", "B", vec!["c", "d"]),
            Lesson::new("c", "C", vec!["d"]),
            Lesson::new("d", "D", vec![]),
            Lesson::new("e", "E", vec!["a", "d"]),
        ],
    );
    assert_eq!(graph.len(), 5);
    assert_eq!(
        graph.get("c::a").unwrap().dependencies,
        vec!["c::b".to_string(), "c::c".to_string(), "c::d".to_string()]
    );
}

#[test]
fn a_long_chain_is_accepted() {
    let count = 50_000;
    let ids: Vec<String> = (0..count).map(|i| i.to_string()).collect();
    let mut lessons = Vec::new();
    for i in 0..count {
        let dependencies = if i + 1 < count { vec![ids[i + 1].as_str()] } else { vec![] };
        lessons.push(Lesson::new(&ids[i], "Lesson", dependencies));
    }
    let graph = graph_of("c", lessons);
    assert_eq!(graph.len(), count);
    assert_eq!(graph.nodes()[0].dependencies, vec!["c::1".to_string()]);
    assert_eq!(graph.get("c::49998").unwrap().dependencies, vec!["c::49999".to_string()]);
}

#[test]
fn a_long_cycle_is_reported_whole() {
    let count = 20_000;
    let ids: Vec<String> = (0..count).map(|i| i.to_string()).collect();
    let mut lessons = Vec::new();
    for i in 0..count {
        lessons.push(Lesson::new(&ids[i], "Lesson", vec![ids[(i + 1) % count].as_str()]));
    }
    match error_of("c", lessons) {
        BuildError::DependencyCycle(path) => {
            assert_eq!(path, ids);
        }
        other => panic!("not a cycle: {:?}", other),
    }
}

#[test]
fn lesson_new_copies_its_arguments() {
    let lesson = Lesson::new("1.8", "Perfect 4th & Perfect 5th", vec!["1.2", "1.5"]);
    assert_eq!(lesson.short_id, "1.8");
    assert_eq!(lesson.name, "Perfect 4th & Perfect 5th");
    assert_eq!(lesson.dependencies, vec!["1.2".to_string(), "1.5".to_string()]);
}
