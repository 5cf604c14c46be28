use earmaster::builder::build;
use earmaster::course::{Course, Lesson};
use earmaster::graph::CourseGraph;
use earmaster::metadata::Metadata;

fn sample() -> CourseGraph {
    let course = Course {
        id: "ear".to_string(),
        name: "Ear".to_string(),
        directory_name: "ear".to_string(),
        metadata: Metadata::new(),
        lessons: vec![
            Lesson::new("1.1", "Seconds", vec![]),
            Lesson::new("1.2", "Thirds", vec!["1.1"]),
            Lesson::new("1.3", "Test", vec!["1.1", "1.2"]),
        ],
    };
    build(&course).unwrap()
}

#[test]
fn get_finds_a_node_by_its_global_id() {
    let graph = sample();
    let node = graph.get("ear::1.2").unwrap();
    assert_eq!(node.global_id, "ear::1.2");
    assert_eq!(node.name, "Thirds");
    assert_eq!(node.dependencies, vec!["ear::1.1".to_string()]);
}

#[test]
fn get_does_not_find_a_short_id() {
    let graph = sample();
    assert!(graph.get("1.2").is_none());
    assert!(graph.get("ear::1.4").is_none());
    assert!(graph.get("").is_none());
    assert!(graph.get("ear::").is_none());
}

#[test]
fn dependencies_lists_the_direct_requirements() {
    let graph = sample();
    assert_eq!(
        graph.dependencies("ear::1.3"),
        Some(&vec!["ear::1.1".to_string(), "ear::1.2".to_string()])
    );
    assert_eq!(graph.dependencies("ear::1.1"), Some(&vec![]));
    assert_eq!(graph.dependencies("ear::2.1"), None);
}

#[test]
fn every_dependency_is_a_node() {
    let graph = sample();
    for node in graph.nodes() {
        for required in &node.dependencies {
            assert!(graph.get(required).is_some());
        }
    }
}

#[test]
fn global_ids_are_unique() {
    let graph = sample();
    let nodes = graph.nodes();
    for i in 0..nodes.len() {
        for j in 0..nodes.len() {
            assert_eq!(nodes[i].global_id == nodes[j].global_id, i == j);
        }
    }
}

#[test]
fn len_counts_the_nodes() {
    let graph = sample();
    assert_eq!(graph.len(), 3);
    assert_eq!(graph.nodes().len(), 3);
}
