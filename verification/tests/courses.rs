use earmaster::interval_comparison;
use earmaster::melody_singback;

#[test]
fn interval_comparison_is_accepted() {
    let graph = interval_comparison::course_builder();
    assert_eq!(graph.len(), 260);
    assert_eq!(graph.id(), "trane::music::earmaster::interval_comparison");
    assert_eq!(graph.id(), interval_comparison::COURSE_ID);
    assert_eq!(graph.name(), "Interval Comparison");
    assert_eq!(graph.directory_name(), "interval_comparison");
}

#[test]
fn interval_comparison_files_its_musical_concept() {
    let graph = interval_comparison::course_builder();
    assert_eq!(graph.metadata().keys(), vec!["musical_concept".to_string()]);
    assert_eq!(graph.metadata().get("musical_concept"), Some(&vec!["intervals".to_string()]));
    let node = graph.get("trane::music::earmaster::interval_comparison::1.2").unwrap();
    assert_eq!(node.metadata.get("musical_concept"), Some(&vec!["intervals".to_string()]));
}

#[test]
fn interval_comparison_starts_and_ends_as_declared() {
    let graph = interval_comparison::course_builder();
    let nodes = graph.nodes();
    assert_eq!(nodes[0].global_id, "trane::music::earmaster::interval_comparison::1.2");
    assert_eq!(nodes[0].name, "Perfect 4th & Octave  - Ascending");
    assert!(nodes[0].dependencies.is_empty());
    assert_eq!(nodes[259].global_id, "trane::music::earmaster::interval_comparison::20.10");
    assert_eq!(nodes[259].name, "Test: Compound intervals without common tone");
    assert_eq!(
        nodes[259].dependencies,
        vec![
            "trane::music::earmaster::interval_comparison::20.7".to_string(),
            "trane::music::earmaster::interval_comparison::20.8".to_string(),
            "trane::music::earmaster::interval_comparison::20.9".to_string(),
        ]
    );
}

#[test]
fn interval_comparison_resolves_a_unit_test_lesson() {
    let graph = interval_comparison::course_builder();
    assert_eq!(
        graph.dependencies("trane::music::earmaster::interval_comparison::1.11"),
        Some(&vec![
            "trane::music::earmaster::interval_comparison::1.8".to_string(),
            "trane::music::earmaster::interval_comparison::1.9".to_string(),
            "trane::music::earmaster::interval_comparison::1.10".to_string(),
        ])
    );
    assert_eq!(
        graph.dependencies("trane::music::earmaster::interval_comparison::20.1"),
        Some(&vec!["trane::music::earmaster::interval_comparison::19.13".to_string()])
    );
}

#[test]
fn interval_comparison_requires_only_its_own_lessons() {
    let graph = interval_comparison::course_builder();
    let mut edges = 0;
    for node in graph.nodes() {
        for required in &node.dependencies {
            assert!(graph.get(required).is_some());
            edges += 1;
        }
    }
    assert_eq!(edges, 450);
}

#[test]
fn melody_singback_is_accepted() {
    let graph = melody_singback::course_builder();
    assert_eq!(graph.len(), 182);
    assert_eq!(graph.id(), "trane::music::earmaster::melody_singback");
    assert_eq!(graph.id(), melody_singback::COURSE_ID);
    assert_eq!(graph.name(), "Melody Singback");
    assert_eq!(graph.directory_name(), "earmaster_melody_singback");
    assert!(graph.metadata().keys().is_empty());
}

#[test]
fn melody_singback_starts_and_ends_as_declared() {
    let graph = melody_singback::course_builder();
    let nodes = graph.nodes();
    assert_eq!(nodes[0].global_id, "trane::music::earmaster::melody_singback::1.1");
    assert_eq!(nodes[0].name, "Do, Re - 3 tones");
    assert!(nodes[0].dependencies.is_empty());
    assert_eq!(nodes[1].dependencies, vec!["trane::music::earmaster::melody_singback::1.1".to_string()]);
    assert_eq!(
        graph.dependencies("trane::music::earmaster::melody_singback::2.1"),
        Some(&vec!["trane::music::earmaster::melody_singback::1.7".to_string()])
    );
}

#[test]
fn melody_singback_requires_only_its_own_lessons() {
    let graph = melody_singback::course_builder();
    let mut edges = 0;
    for node in graph.nodes() {
        for required in &node.dependencies {
            assert!(graph.get(required).is_some());
            edges += 1;
        }
    }
    assert_eq!(edges, 182);
}

#[test]
fn the_courses_are_built_alike_each_time() {
    let first = melody_singback::course_builder();
    let second = melody_singback::course_builder();
    assert_eq!(first.len(), second.len());
    for (a, b) in first.nodes().iter().zip(second.nodes().iter()) {
        assert_eq!(a.global_id, b.global_id);
        assert_eq!(a.name, b.name);
        assert_eq!(a.dependencies, b.dependencies);
    }
}

fn assert_numbered(nodes: &[earmaster::graph::LessonNode], course_id: &str, units: &[(usize, usize)]) {
    let mut place = 0;
    for (unit, (first, last)) in units.iter().enumerate() {
        for index in *first..=*last {
            assert_eq!(nodes[place].global_id, format!("{}::{}.{}", course_id, unit + 1, index));
            place += 1;
        }
    }
    assert_eq!(place, nodes.len());
}

#[test]
fn interval_comparison_is_numbered_by_unit_and_index() {
    let graph = interval_comparison::course_builder();
    let units = [
        (2, 11),
        (2, 14),
        (2, 20),
        (1, 13),
        (2, 11),
        (1, 10),
        (1, 13),
        (1, 19),
        (1, 13),
        (1, 10),
        (1, 10),
        (1, 13),
        (1, 19),
        (1, 13),
        (1, 10),
        (1, 10),
        (1, 13),
        (1, 19),
        (1, 13),
        (1, 10),
    ];
    assert_numbered(graph.nodes(), interval_comparison::COURSE_ID, &units);
}

#[test]
fn melody_singback_is_numbered_by_unit_and_index() {
    let graph = melody_singback::course_builder();
    let units = [
        (1, 12),
        (1, 12),
        (1, 10),
        (1, 11),
        (1, 11),
        (1, 11),
        (1, 11),
        (1, 11),
        (1, 11),
        (1, 11),
        (1, 11),
        (1, 11),
        (1, 11),
        (1, 12),
        (1, 10),
        (1, 10),
        (1, 6),
    ];
    assert_numbered(graph.nodes(), melody_singback::COURSE_ID, &units);
}

#[test]
fn every_lesson_requires_only_lessons_before_it() {
    for graph in [interval_comparison::course_builder(), melody_singback::course_builder()] {
        let nodes = graph.nodes();
        for (place, node) in nodes.iter().enumerate() {
            for required in &node.dependencies {
                let before = nodes.iter().position(|other| &other.global_id == required);
                assert!(before.unwrap() < place);
            }
        }
    }
}

#[test]
fn the_two_courses_share_no_global_id() {
    let intervals = interval_comparison::course_builder();
    let melodies = melody_singback::course_builder();
    for node in intervals.nodes() {
        assert!(melodies.get(&node.global_id).is_none());
    }
    for node in melodies.nodes() {
        assert!(intervals.get(&node.global_id).is_none());
    }
}
