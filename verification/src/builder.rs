//! Building a course graph from a course declaration.
//!
//! The lessons are registered first, in the order of the declaration: each
//! short identifier is qualified and entered in a table from short
//! identifiers to places. Then every prerequisite is looked up in that
//! table, which gives the edges of the graph by place. A search for a cycle
//! among those edges comes last.

use crate::course::{Course, CourseView};
use crate::cycle::{acyclic, find_cycle, follows, is_cycle, lists};
use crate::error::BuildError;
use crate::text::texts;
use crate::graph::{
    graph_of, lemma_graph_well_formed, node_of, node_views, CourseGraph, LessonNode,
};
use crate::namespace::{qualified, qualify};
use crate::outcome::{build_outcome, lemma_fault_rejects, outcome_of};
use vstd::hash_map::StringHashMap;
use vstd::prelude::*;

verus! {

/// The table holds the short identifiers of the first `count` lessons of
/// `course`, each with its place, and nothing else.
spec fn tabulates(
    course: CourseView,
    table: Map<Seq<char>, usize>,
    count: int,
) -> bool {
    &&& forall|j: int|
        0 <= j < count ==> table.contains_key((#[trigger] course.lessons[j]).short_id)
            && table[course.lessons[j].short_id] == j
    &&& forall|key: Seq<char>| #[trigger]
        table.contains_key(key) ==> table[key] < count && course.lessons[table[key] as int].short_id
            == key
}

/// The first `count` global identifiers of the lessons of `course`.
spec fn qualifies(course: CourseView, ids: Seq<String>, count: int) -> bool {
    &&& ids.len() == count
    &&& forall|j: int|
        0 <= j < count ==> (#[trigger] ids[j])@ == qualified(
            course.id,
            course.lessons[j].short_id,
        )
}

/// What registering the lessons of `course` gives.
struct Registry {
    /// The place of each lesson, by its short identifier.
    table: StringHashMap<usize>,
    /// The global identifier of each lesson, by its place.
    ids: Vec<String>,
}

/// Registers the lessons of `course` in the order of the declaration, and
/// stops at the first that cannot be registered.
fn register(course: &Course) -> (result: Result<Registry, BuildError>)
    ensures
        match result {
            Ok(registry) => {
                &&& course@.registers()
                &&& tabulates(course@, registry.table@, course@.lessons.len() as int)
                &&& qualifies(course@, registry.ids@, course@.lessons.len() as int)
            },
            Err(error) => !(error@ is UnknownDependency) && !(error@ is DependencyCycle)
                && build_outcome(course@, Err(error@)),
        },
{
    let ghost declared = course@;
    let n = course.lessons.len();
    let mut table: StringHashMap<usize> = StringHashMap::new();
    let mut ids: Vec<String> = Vec::new();
    let mut i: usize = 0;
    while i < n
        invariant
            declared == course@,
            n == course.lessons@.len(),
            i <= n,
            tabulates(declared, table@, i as int),
            qualifies(declared, ids@, i as int),
            forall|j: int| 0 <= j < i ==> !#[trigger] declared.registration_fault(j),
        decreases n - i,
    {
        let lesson = &course.lessons[i];
        assert(declared.lessons[i as int] == lesson@);
        match qualify(course.id.as_str(), lesson.short_id.as_str()) {
            Err(error) => {
                proof {
                    assert(declared.first_registration_fault(i as int));
                }
                return Err(error);
            },
            Ok(global_id) => {
                if table.contains_key(lesson.short_id.as_str()) {
                    proof {
                        let j = table@[lesson.short_id@] as int;
                        assert(declared.lessons[j].short_id == lesson.short_id@);
                        assert(declared.repeats(i as int));
                        assert(declared.first_registration_fault(i as int));
                    }
                    return Err(BuildError::DuplicateLessonId(lesson.short_id.clone()));
                }
                proof {
                    if declared.repeats(i as int) {
                        let j = choose|j: int|
                            0 <= j < i && (#[trigger] declared.lessons[j]).short_id
                                == declared.lessons[i as int].short_id;
                        assert(table@.contains_key(declared.lessons[j].short_id));
                    }
                }
                table.insert(lesson.short_id.clone(), i);
                ids.push(global_id);
            },
        }
        i += 1;
    }
    Ok(Registry { table, ids })
}

/// The first `count` lists of `edges` hold, for each prerequisite of the
/// lesson at that place, the place of the lesson that it names.
spec fn resolves_by(
    course: CourseView,
    edges: Seq<Seq<usize>>,
    count: int,
) -> bool {
    &&& edges.len() == count
    &&& forall|i: int|
        0 <= i < count ==> (#[trigger] edges[i]).len() == course.lessons[i].dependencies.len()
    &&& forall|i: int, k: int|
        0 <= i < count && 0 <= k < edges[i].len() ==> (#[trigger] edges[i][k])
            < course.lessons.len() && course.lessons[edges[i][k] as int].short_id
            == course.lessons[i].dependencies[k]
}

/// Looks up every prerequisite of `course` in `table`, in the order of the
/// declaration, and stops at the first that is not there.
fn resolve(course: &Course, table: &StringHashMap<usize>) -> (result: Result<
    Vec<Vec<usize>>,
    BuildError,
>)
    requires
        course@.registers(),
        tabulates(course@, table@, course@.lessons.len() as int),
    ensures
        match result {
            Ok(edges) => course@.resolves() && resolves_by(
                course@,
                lists(edges@),
                course@.lessons.len() as int,
            ),
            Err(error) => error@ is UnknownDependency && build_outcome(course@, Err(error@)),
        },
{
    let ghost declared = course@;
    let n = course.lessons.len();
    let mut edges: Vec<Vec<usize>> = Vec::new();
    let mut i: usize = 0;
    while i < n
        invariant
            declared == course@,
            n == course.lessons@.len(),
            i <= n,
            declared.registers(),
            tabulates(declared, table@, n as int),
            resolves_by(declared, lists(edges@), i as int),
            forall|j: int, m: int|
                0 <= j < i && 0 <= m < declared.lessons[j].dependencies.len()
                    ==> !#[trigger] declared.unresolved(j, m),
        decreases n - i,
    {
        let lesson = &course.lessons[i];
        assert(declared.lessons[i as int] == lesson@);
        let mut targets: Vec<usize> = Vec::new();
        let mut k: usize = 0;
        while k < lesson.dependencies.len()
            invariant
                declared == course@,
                n == course.lessons@.len(),
                i < n,
                declared.lessons[i as int] == lesson@,
                declared.registers(),
                tabulates(declared, table@, n as int),
                k <= lesson.dependencies@.len(),
                targets@.len() == k,
                forall|m: int|
                    0 <= m < k ==> (#[trigger] targets@[m]) < n
                        && declared.lessons[targets@[m] as int].short_id
                        == lesson@.dependencies[m],
                forall|m: int| 0 <= m < k ==> !#[trigger] declared.unresolved(i as int, m),
                forall|j: int, m: int|
                    0 <= j < i && 0 <= m < declared.lessons[j].dependencies.len()
                        ==> !#[trigger] declared.unresolved(j, m),
            decreases lesson.dependencies@.len() - k,
        {
            let referenced = &lesson.dependencies[k];
            assert(lesson@.dependencies[k as int] == referenced@);
            match table.get(referenced.as_str()) {
                None => {
                    proof {
                        if declared.declares(referenced@) {
                            let j = choose|j: int|
                                0 <= j < declared.lessons.len() && (
                                #[trigger] declared.lessons[j]).short_id == referenced@;
                            assert(table@.contains_key(declared.lessons[j].short_id));
                        }
                        assert(declared.unresolved(i as int, k as int));
                        assert(declared.first_unresolved(i as int, k as int));
                    }
                    return Err(
                        BuildError::UnknownDependency(lesson.short_id.clone(), referenced.clone()),
                    );
                },
                Some(place) => {
                    proof {
                        assert(declared.lessons[*place as int].short_id == referenced@);
                        assert(declared.declares(referenced@));
                    }
                    targets.push(*place);
                },
            }
            k += 1;
        }
        let ghost before = lists(edges@);
        edges.push(targets);
        proof {
            let after = lists(edges@);
            assert forall|j: int| 0 <= j < i implies #[trigger] after[j] == before[j] by {}
            assert(after[i as int] == targets@);
        }
        i += 1;
    }
    Ok(edges)
}

/// Where every lesson can be registered, a short identifier belongs to one
/// lesson only.
proof fn lemma_one_place(course: CourseView, first: int, second: int)
    requires
        course.registers(),
        0 <= first < course.lessons.len(),
        0 <= second < course.lessons.len(),
        course.lessons[first].short_id == course.lessons[second].short_id,
    ensures
        first == second,
{
    if first < second {
        assert(course.repeats(second));
        assert(course.registration_fault(second));
    } else if second < first {
        assert(course.repeats(first));
        assert(course.registration_fault(first));
    }
}

/// The place of the lesson with the short identifier `short_id`.
spec fn place_of(course: CourseView, short_id: Seq<char>) -> int {
    choose|i: int| 0 <= i < course.lessons.len() && (#[trigger] course.lessons[i]).short_id == short_id
}

/// Where one lesson requires another, there is an edge between their
/// places.
proof fn lemma_edge_by_place(
    course: CourseView,
    edges: Seq<Seq<usize>>,
    lesson: Seq<char>,
    required: Seq<char>,
)
    requires
        course.registers(),
        resolves_by(course, edges, course.lessons.len() as int),
        course.depends(lesson, required),
    ensures
        0 <= place_of(course, lesson) < course.lessons.len(),
        0 <= place_of(course, required) < course.lessons.len(),
        place_of(course, required) <= usize::MAX,
        edges[place_of(course, lesson)].contains(place_of(course, required) as usize),
{
    let i = choose|i: int|
        0 <= i < course.lessons.len() && (#[trigger] course.lessons[i]).short_id == lesson
            && course.lessons[i].dependencies.contains(required);
    let k = choose|k: int|
        0 <= k < course.lessons[i].dependencies.len() && course.lessons[i].dependencies[k]
            == required;
    let j = edges[i][k] as int;
    assert(course.lessons[j].short_id == required);
    lemma_one_place(course, i, place_of(course, lesson));
    lemma_one_place(course, j, place_of(course, required));
    assert(edges[i][k] == place_of(course, required) as usize);
}

/// Where the edges between places form no cycle, the lessons require one
/// another in no cycle.
proof fn lemma_acyclic_by_place(course: CourseView, edges: Seq<Seq<usize>>)
    requires
        course.registers(),
        resolves_by(course, edges, course.lessons.len() as int),
        acyclic(edges),
    ensures
        course.acyclic(),
{
    assert forall|path: Seq<Seq<char>>| !course.is_cycle(path) by {
        if course.is_cycle(path) {
            let places = Seq::new(path.len(), |k: int| place_of(course, path[k]) as usize);
            assert forall|k: int| 0 <= k < path.len() implies 0 <= place_of(course, path[k])
                < course.lessons.len() && #[trigger] places[k] == place_of(course, path[k]) by {
                if k == 0 {
                    lemma_edge_by_place(course, edges, path.last(), path[0]);
                } else {
                    assert(course.links(path, k - 1));
                    lemma_edge_by_place(course, edges, path[k - 1], path[k]);
                }
            }
            assert forall|k: int| 0 <= k < places.len() - 1 implies #[trigger] follows(
                edges,
                places,
                k,
            ) by {
                assert(course.links(path, k));
                lemma_edge_by_place(course, edges, path[k], path[k + 1]);
                assert(places[k] == place_of(course, path[k]));
                assert(places[k + 1] == place_of(course, path[k + 1]));
            }
            lemma_edge_by_place(course, edges, path.last(), path[0]);
            assert(places[path.len() - 1] == place_of(course, path.last()));
            assert(places[0] == place_of(course, path[0]));
            assert(is_cycle(edges, places));
        }
    }
}

/// The short identifiers of the lessons at the places of `path`.
fn name_cycle(course: &Course, edges: &Vec<Vec<usize>>, path: &Vec<usize>) -> (names:
    Vec<String>)
    requires
        course@.registers(),
        resolves_by(course@, lists(edges@), course@.lessons.len() as int),
        is_cycle(lists(edges@), path@),
        path@.no_duplicates(),
    ensures
        course@.is_cycle(texts(names@)),
        texts(names@).no_duplicates(),
{
    let ghost declared = course@;
    let ghost graph = lists(edges@);
    let mut names: Vec<String> = Vec::new();
    let mut k: usize = 0;
    while k < path.len()
        invariant
            declared == course@,
            graph.len() == declared.lessons.len(),
            is_cycle(graph, path@),
            k <= path@.len(),
            names@.len() == k,
            forall|m: int|
                0 <= m < k ==> (#[trigger] names@[m])@ == declared.lessons[path@[m] as int].short_id,
        decreases path@.len() - k,
    {
        assert(path@[k as int] < graph.len());
        names.push(course.lessons[path[k]].short_id.clone());
        k += 1;
    }
    proof {
        let shorts = texts(names@);
        assert forall|m: int| 0 <= m < shorts.len() implies #[trigger] shorts[m]
            == declared.lessons[path@[m] as int].short_id by {
            assert(names@[m]@ == declared.lessons[path@[m] as int].short_id);
        }
        assert forall|m: int| 0 <= m < shorts.len() - 1 implies #[trigger] declared.links(
            shorts,
            m,
        ) by {
            assert(follows(graph, path@, m));
            lemma_edge_named(declared, graph, path@[m] as int, path@[m + 1]);
            assert(shorts[m] == declared.lessons[path@[m] as int].short_id);
            assert(shorts[m + 1] == declared.lessons[path@[m + 1] as int].short_id);
        }
        assert forall|a: int, b: int|
            0 <= a < shorts.len() && 0 <= b < shorts.len() && a != b implies shorts[a]
            != shorts[b] by {
            if shorts[a] == shorts[b] {
                lemma_one_place(declared, path@[a] as int, path@[b] as int);
            }
        }
        let last = path@.len() - 1;
        lemma_edge_named(declared, graph, path@[last] as int, path@[0]);
        assert(shorts[last] == declared.lessons[path@[last] as int].short_id);
        assert(shorts[0] == declared.lessons[path@[0] as int].short_id);
    }
    names
}

/// Where there is an edge between two places, the lesson at the first
/// requires the lesson at the second.
proof fn lemma_edge_named(course: CourseView, edges: Seq<Seq<usize>>, from: int, to: usize)
    requires
        resolves_by(course, edges, course.lessons.len() as int),
        0 <= from < course.lessons.len(),
        edges[from].contains(to),
    ensures
        to < course.lessons.len(),
        course.depends(course.lessons[from].short_id, course.lessons[to as int].short_id),
{
    let k = choose|k: int| 0 <= k < edges[from].len() && edges[from][k] == to;
    assert(edges[from][k] < course.lessons.len());
    assert(course.lessons[from].dependencies[k] == course.lessons[to as int].short_id);
}

/// The global identifiers of the lessons at the places of `targets`.
fn name_targets(ids: &Vec<String>, targets: &Vec<usize>) -> (names: Vec<String>)
    requires
        forall|k: int| 0 <= k < targets@.len() ==> (#[trigger] targets@[k]) < ids@.len(),
    ensures
        names@.len() == targets@.len(),
        forall|k: int|
            0 <= k < targets@.len() ==> (#[trigger] names@[k])@ == ids@[targets@[k] as int]@,
{
    let mut names: Vec<String> = Vec::new();
    let mut k: usize = 0;
    while k < targets.len()
        invariant
            forall|m: int| 0 <= m < targets@.len() ==> (#[trigger] targets@[m]) < ids@.len(),
            k <= targets@.len(),
            names@.len() == k,
            forall|m: int| 0 <= m < k ==> (#[trigger] names@[m])@ == ids@[targets@[m] as int]@,
        decreases targets@.len() - k,
    {
        assert(targets@[k as int] < ids@.len());
        names.push(ids[targets[k]].clone());
        k += 1;
    }
    names
}

/// The nodes of the graph of `course`.
fn make_nodes(course: &Course, ids: &Vec<String>, edges: &Vec<Vec<usize>>) -> (nodes: Vec<
    LessonNode,
>)
    requires
        qualifies(course@, ids@, course@.lessons.len() as int),
        resolves_by(course@, lists(edges@), course@.lessons.len() as int),
    ensures
        node_views(nodes@) == graph_of(course@).nodes,
{
    let ghost declared = course@;
    let ghost graph = lists(edges@);
    let n = course.lessons.len();
    let mut nodes: Vec<LessonNode> = Vec::new();
    let mut i: usize = 0;
    while i < n
        invariant
            declared == course@,
            graph == lists(edges@),
            n == course.lessons@.len(),
            qualifies(declared, ids@, n as int),
            resolves_by(declared, graph, n as int),
            i <= n,
            nodes@.len() == i,
            forall|j: int|
                0 <= j < i ==> (#[trigger] nodes@[j])@ == node_of(declared, declared.lessons[j]),
        decreases n - i,
    {
        let lesson = &course.lessons[i];
        assert(declared.lessons[i as int] == lesson@);
        assert(graph[i as int] == edges@[i as int]@);
        proof {
            assert forall|k: int| 0 <= k < edges@[i as int]@.len() implies (
            #[trigger] edges@[i as int]@[k]) < ids@.len() by {
                assert(graph[i as int][k] < declared.lessons.len());
            }
        }
        let dependencies = name_targets(ids, &edges[i]);
        let node = LessonNode {
            global_id: ids[i].clone(),
            name: lesson.name.clone(),
            metadata: course.metadata.clone(),
            dependencies,
        };
        proof {
            let expected = node_of(declared, declared.lessons[i as int]);
            assert(node@.dependencies.len() == expected.dependencies.len());
            assert forall|k: int| 0 <= k < expected.dependencies.len() implies (
            #[trigger] node@.dependencies[k]) == expected.dependencies[k] by {
                let target = graph[i as int][k];
                assert(target < declared.lessons.len());
                assert(dependencies@[k]@ == ids@[target as int]@);
            }
            assert(node@.dependencies =~= expected.dependencies);
            assert(node@ == expected);
        }
        nodes.push(node);
        i += 1;
    }
    assert(node_views(nodes@) =~= graph_of(declared).nodes);
    nodes
}

/// Builds the graph of `course`.
///
/// Gives the graph exactly when the declaration is accepted: every
/// identifier is present, no short identifier is declared twice, every
/// prerequisite names a lesson of the course, and no lesson requires
/// itself, directly or through others. A course without lessons is
/// accepted. The graph has one node for each lesson, in the order of the
/// declaration; its identifiers are unique, its requirements are nodes of
/// the graph and form no cycle. Otherwise gives the first fault, as
/// [`build_outcome`] orders them.
pub fn build(course: &Course) -> (result: Result<CourseGraph, BuildError>)
    ensures
        build_outcome(course@, outcome_of(result)),
        result is Ok <==> course@.accepted(),
        result matches Ok(graph) ==> graph@.nodes.len() == course@.lessons.len()
            && graph@.well_formed(),
{
    let registry = match register(course) {
        Ok(registry) => registry,
        Err(error) => {
            proof {
                lemma_fault_rejects(course@, error@);
            }
            return Err(error);
        },
    };
    let edges = match resolve(course, &registry.table) {
        Ok(edges) => edges,
        Err(error) => {
            proof {
                lemma_fault_rejects(course@, error@);
            }
            return Err(error);
        },
    };
    match find_cycle(&edges) {
        Some(path) => {
            let error = BuildError::DependencyCycle(name_cycle(course, &edges, &path));
            proof {
                lemma_fault_rejects(course@, error@);
            }
            Err(error)
        },
        None => {
            proof {
                lemma_acyclic_by_place(course@, lists(edges@));
                lemma_graph_well_formed(course@);
            }
            let nodes = make_nodes(course, &registry.ids, &edges);
            Ok(
                CourseGraph::new(
                    course.id.clone(),
                    course.name.clone(),
                    course.directory_name.clone(),
                    course.metadata.clone(),
                    nodes,
                    Ghost(course@),
                ),
            )
        },
    }
}

} // verus!
