//! Course graphs: the lessons of a course under their global identifiers,
//! each with the global identifiers of the lessons that it requires.

use crate::course::{CourseView, LessonView};
use crate::text::texts;
use crate::metadata::Metadata;
use crate::namespace::{lemma_qualified_injective, qualified};
use vstd::hash_map::StringHashMap;
use vstd::prelude::*;

verus! {

/// A lesson of a course graph.
#[derive(Debug)]
pub struct LessonNode {
    /// The global identifier of the lesson.
    pub global_id: String,
    /// The name shown to the student.
    pub name: String,
    /// The metadata of the course that the lesson belongs to.
    pub metadata: Metadata,
    /// The global identifiers of the lessons that this one requires, in the
    /// order of the declaration.
    pub dependencies: Vec<String>,
}

/// The mathematical value of a [`LessonNode`].
pub struct NodeView {
    pub global_id: Seq<char>,
    pub name: Seq<char>,
    pub metadata: Map<Seq<char>, Seq<Seq<char>>>,
    pub dependencies: Seq<Seq<char>>,
}

impl View for LessonNode {
    type V = NodeView;

    open spec fn view(&self) -> NodeView {
        NodeView {
            global_id: self.global_id@,
            name: self.name@,
            metadata: self.metadata@,
            dependencies: texts(self.dependencies@),
        }
    }
}

/// The mathematical value of a [`CourseGraph`].
pub struct GraphView {
    pub id: Seq<char>,
    pub name: Seq<char>,
    pub directory_name: Seq<char>,
    pub metadata: Map<Seq<char>, Seq<Seq<char>>>,
    pub nodes: Seq<NodeView>,
}

impl GraphView {
    /// Some node has the global identifier `global_id`.
    pub open spec fn contains(self, global_id: Seq<char>) -> bool {
        exists|i: int|
            0 <= i < self.nodes.len() && (#[trigger] self.nodes[i]).global_id == global_id
    }

    /// No two nodes have the same global identifier.
    pub open spec fn unique_ids(self) -> bool {
        forall|i: int, j: int|
            0 <= i < j < self.nodes.len() ==> (#[trigger] self.nodes[i]).global_id != (
            #[trigger] self.nodes[j]).global_id
    }

    /// Every node requires nodes of this graph only.
    pub open spec fn closed(self) -> bool {
        forall|i: int, k: int|
            0 <= i < self.nodes.len() && 0 <= k < self.nodes[i].dependencies.len()
                ==> self.contains(#[trigger] self.nodes[i].dependencies[k])
    }

    /// A node with the global identifier `node` requires `required`.
    pub open spec fn depends(self, node: Seq<char>, required: Seq<char>) -> bool {
        exists|i: int|
            0 <= i < self.nodes.len() && (#[trigger] self.nodes[i]).global_id == node
                && self.nodes[i].dependencies.contains(required)
    }

    /// The node `path[k]` requires the node `path[k + 1]`.
    pub open spec fn links(self, path: Seq<Seq<char>>, k: int) -> bool {
        self.depends(path[k], path[k + 1])
    }

    /// Each node of `path` requires the next, and the last requires the
    /// first.
    pub open spec fn is_cycle(self, path: Seq<Seq<char>>) -> bool {
        &&& path.len() > 0
        &&& forall|k: int| 0 <= k < path.len() - 1 ==> #[trigger] self.links(path, k)
        &&& self.depends(path.last(), path[0])
    }

    /// No node requires itself, directly or through other nodes.
    pub open spec fn acyclic(self) -> bool {
        forall|path: Seq<Seq<char>>| !self.is_cycle(path)
    }

    /// The identifiers are unique, every requirement is a node of the graph,
    /// and the requirements form no cycle.
    pub open spec fn well_formed(self) -> bool {
        self.unique_ids() && self.closed() && self.acyclic()
    }
}

/// The node that the lesson `lesson` of `course` becomes.
pub open spec fn node_of(course: CourseView, lesson: LessonView) -> NodeView {
    NodeView {
        global_id: qualified(course.id, lesson.short_id),
        name: lesson.name,
        metadata: course.metadata,
        dependencies: Seq::new(
            lesson.dependencies.len(),
            |k: int| qualified(course.id, lesson.dependencies[k]),
        ),
    }
}

/// The graph of a course: one node for each lesson, in the order of the
/// declaration.
pub open spec fn graph_of(course: CourseView) -> GraphView {
    GraphView {
        id: course.id,
        name: course.name,
        directory_name: course.directory_name,
        metadata: course.metadata,
        nodes: Seq::new(course.lessons.len(), |i: int| node_of(course, course.lessons[i])),
    }
}

/// The lesson behind a node of the graph of `course`.
spec fn lesson_at(course: CourseView, global_id: Seq<char>) -> int {
    choose|i: int|
        0 <= i < course.lessons.len() && qualified(course.id, (#[trigger] course.lessons[i]).short_id)
            == global_id
}

/// If a node of the graph of `course` requires another, then the lesson
/// of the first requires the lesson of the second.
proof fn lemma_graph_edge(course: CourseView, node: Seq<char>, required: Seq<char>)
    requires
        graph_of(course).depends(node, required),
        graph_of(course).contains(required),
    ensures
        0 <= lesson_at(course, node) < course.lessons.len(),
        0 <= lesson_at(course, required) < course.lessons.len(),
        qualified(course.id, course.lessons[lesson_at(course, node)].short_id) == node,
        qualified(course.id, course.lessons[lesson_at(course, required)].short_id) == required,
        course.depends(
            course.lessons[lesson_at(course, node)].short_id,
            course.lessons[lesson_at(course, required)].short_id,
        ),
{
    let graph = graph_of(course);
    let i = choose|i: int|
        0 <= i < graph.nodes.len() && (#[trigger] graph.nodes[i]).global_id == node
            && graph.nodes[i].dependencies.contains(required);
    let k = choose|k: int|
        0 <= k < graph.nodes[i].dependencies.len() && graph.nodes[i].dependencies[k] == required;
    let j = choose|j: int|
        0 <= j < graph.nodes.len() && (#[trigger] graph.nodes[j]).global_id == required;
    assert(qualified(course.id, course.lessons[i].short_id) == node);
    assert(qualified(course.id, course.lessons[j].short_id) == required);
    let from = lesson_at(course, node);
    let to = lesson_at(course, required);
    lemma_qualified_injective(course.id, course.lessons[i].short_id, course.lessons[from].short_id);
    lemma_qualified_injective(
        course.id,
        course.lessons[i].dependencies[k],
        course.lessons[to].short_id,
    );
    assert(course.lessons[i].dependencies[k] == course.lessons[to].short_id);
}

/// The graph of an accepted course has unique identifiers, requires only
/// its own nodes, and has no cycle.
pub proof fn lemma_graph_well_formed(course: CourseView)
    requires
        course.accepted(),
    ensures
        graph_of(course).well_formed(),
{
    let graph = graph_of(course);
    assert forall|i: int, j: int| 0 <= i < j < graph.nodes.len() implies (
    #[trigger] graph.nodes[i]).global_id != (#[trigger] graph.nodes[j]).global_id by {
        if graph.nodes[i].global_id == graph.nodes[j].global_id {
            lemma_qualified_injective(
                course.id,
                course.lessons[i].short_id,
                course.lessons[j].short_id,
            );
            assert(course.repeats(j));
            assert(course.registration_fault(j));
        }
    }
    assert forall|i: int, k: int|
        0 <= i < graph.nodes.len() && 0 <= k
            < graph.nodes[i].dependencies.len() implies graph.contains(
        #[trigger] graph.nodes[i].dependencies[k],
    ) by {
        assert(!course.unresolved(i, k));
        let j = choose|j: int|
            0 <= j < course.lessons.len() && (#[trigger] course.lessons[j]).short_id
                == course.lessons[i].dependencies[k];
        assert(graph.nodes[j].global_id == graph.nodes[i].dependencies[k]);
    }
    assert(graph.closed());
    assert forall|path: Seq<Seq<char>>| !graph.is_cycle(path) by {
        if graph.is_cycle(path) {
            let shorts = Seq::new(
                path.len(),
                |k: int| course.lessons[lesson_at(course, path[k])].short_id,
            );
            assert forall|k: int| 0 <= k < path.len() implies graph.contains(#[trigger] path[k]) by {
                if k < path.len() - 1 {
                    assert(graph.links(path, k));
                } else {
                    assert(graph.depends(path.last(), path[0]));
                }
            }
            assert forall|k: int| 0 <= k < shorts.len() - 1 implies #[trigger] course.links(
                shorts,
                k,
            ) by {
                assert(graph.links(path, k));
                assert(graph.contains(path[k + 1]));
                lemma_graph_edge(course, path[k], path[k + 1]);
            }
            assert(graph.contains(path[0]));
            lemma_graph_edge(course, path.last(), path[0]);
            assert(course.is_cycle(shorts));
        }
    }
}

/// The values of a sequence of nodes, in order.
pub open spec fn node_views(nodes: Seq<LessonNode>) -> Seq<NodeView> {
    Seq::new(nodes.len(), |i: int| nodes[i]@)
}

/// The table holds the global identifiers of the first `count` nodes, each
/// with its place, and nothing else.
spec fn indexes(nodes: Seq<NodeView>, table: Map<Seq<char>, usize>, count: int) -> bool {
    &&& forall|j: int|
        0 <= j < count ==> table.contains_key((#[trigger] nodes[j]).global_id)
            && table[nodes[j].global_id] == j
    &&& forall|key: Seq<char>| #[trigger]
        table.contains_key(key) ==> table[key] < count && nodes[table[key] as int].global_id
            == key
}

/// The lessons of one course with their requirements: a graph without a
/// cycle, in which every requirement is a lesson of the graph.
pub struct CourseGraph {
    id: String,
    name: String,
    directory_name: String,
    metadata: Metadata,
    nodes: Vec<LessonNode>,
    places: StringHashMap<usize>,
}

impl View for CourseGraph {
    type V = GraphView;

    closed spec fn view(&self) -> GraphView {
        GraphView {
            id: self.id@,
            name: self.name@,
            directory_name: self.directory_name@,
            metadata: self.metadata@,
            nodes: node_views(self.nodes@),
        }
    }
}

impl CourseGraph {
    #[verifier::type_invariant]
    spec fn sound(&self) -> bool {
        self@.well_formed() && indexes(self@.nodes, self.places@, self.nodes@.len() as int)
    }

    /// The graph of the accepted course `course`, from its parts.
    pub(crate) fn new(
        id: String,
        name: String,
        directory_name: String,
        metadata: Metadata,
        nodes: Vec<LessonNode>,
        Ghost(course): Ghost<CourseView>,
    ) -> (graph: CourseGraph)
        requires
            course.accepted(),
            graph_of(course) == (GraphView {
                id: id@,
                name: name@,
                directory_name: directory_name@,
                metadata: metadata@,
                nodes: node_views(nodes@),
            }),
        ensures
            graph@ == graph_of(course),
    {
        let ghost views = node_views(nodes@);
        proof {
            lemma_graph_well_formed(course);
        }
        let mut places: StringHashMap<usize> = StringHashMap::new();
        let mut i: usize = 0;
        while i < nodes.len()
            invariant
                views == node_views(nodes@),
                graph_of(course).nodes == views,
                graph_of(course).unique_ids(),
                i <= nodes@.len(),
                indexes(views, places@, i as int),
            decreases nodes@.len() - i,
        {
            let ghost key = nodes@[i as int].global_id@;
            proof {
                assert(views[i as int].global_id == key);
                if places@.contains_key(key) {
                    let j = places@[key] as int;
                    assert(views[j].global_id == views[i as int].global_id);
                }
            }
            places.insert(nodes[i].global_id.clone(), i);
            i += 1;
        }
        CourseGraph { id, name, directory_name, metadata, nodes, places }
    }

    /// The identifier of the course.
    pub fn id(&self) -> (id: &str)
        ensures
            id@ == self@.id,
    {
        self.id.as_str()
    }

    /// The name of the course.
    pub fn name(&self) -> (name: &str)
        ensures
            name@ == self@.name,
    {
        self.name.as_str()
    }

    /// The name of the directory in which the course is stored.
    pub fn directory_name(&self) -> (directory_name: &str)
        ensures
            directory_name@ == self@.directory_name,
    {
        self.directory_name.as_str()
    }

    /// The metadata of the course.
    pub fn metadata(&self) -> (metadata: &Metadata)
        ensures
            metadata@ == self@.metadata,
    {
        &self.metadata
    }

    /// The number of lessons.
    pub fn len(&self) -> (len: usize)
        ensures
            len == self@.nodes.len(),
    {
        self.nodes.len()
    }

    /// The lessons, in the order of the declaration. Their identifiers are
    /// unique, every requirement is a lesson of the graph, and no lesson
    /// requires itself, directly or through others.
    pub fn nodes(&self) -> (nodes: &Vec<LessonNode>)
        ensures
            node_views(nodes@) == self@.nodes,
            self@.well_formed(),
    {
        proof {
            use_type_invariant(self);
        }
        &self.nodes
    }

    /// The lesson with the global identifier `global_id`, if the graph has
    /// one.
    pub fn get(&self, global_id: &str) -> (found: Option<&LessonNode>)
        ensures
            match found {
                Some(node) => node@.global_id == global_id@ && self@.nodes.contains(node@),
                None => !self@.contains(global_id@),
            },
    {
        proof {
            use_type_invariant(self);
        }
        match self.places.get(global_id) {
            Some(place) => {
                let node = &self.nodes[*place];
                proof {
                    assert(self@.nodes[*place as int] == node@);
                }
                Some(node)
            },
            None => {
                proof {
                    if self@.contains(global_id@) {
                        let i = choose|i: int|
                            0 <= i < self@.nodes.len() && (#[trigger] self@.nodes[i]).global_id
                                == global_id@;
                        assert(self.places@.contains_key(self@.nodes[i].global_id));
                    }
                }
                None
            },
        }
    }

    /// The global identifiers of the lessons that the lesson `global_id`
    /// requires, if the graph has that lesson.
    pub fn dependencies(&self, global_id: &str) -> (found: Option<&Vec<String>>)
        ensures
            match found {
                Some(required) => exists|i: int|
                    0 <= i < self@.nodes.len() && (#[trigger] self@.nodes[i]).global_id
                        == global_id@ && self@.nodes[i].dependencies == texts(required@),
                None => !self@.contains(global_id@),
            },
    {
        match self.get(global_id) {
            Some(node) => {
                proof {
                    let i = choose|i: int|
                        0 <= i < self@.nodes.len() && self@.nodes[i] == node@;
                    assert(self@.nodes[i].global_id == global_id@);
                }
                Some(&node.dependencies)
            },
            None => None,
        }
    }
}

} // verus!
