//! The list of dependencies that is embedded in an auditable binary.
use crate::error::SonicError;
use crate::metadata::{CrateKind, DependencyKind, Metadata, Node, NodeDependency, Package};
use crate::sorted::{self, add_number};
use crate::text::{self, list_contains, str_eq, str_less};
use cargo_metadata::semver::Version;
use crate::text_laws;
use vstd::prelude::*;

verus! {

// ---------------------------------------------------------------------------
// How strongly a package is needed

/// How strongly one package needs another. A stronger need has the greater rank.
#[derive(Clone, Copy, Debug, PartialEq, Eq, Structural)]
pub enum AuditDepKind {
    Development,
    Build,
    Runtime,
}

impl AuditDepKind {
    /// The rank of the need: 1 for development, 2 for the build, 3 at run time.
    pub open spec fn rank(self) -> int {
        match self {
            AuditDepKind::Development => 1,
            AuditDepKind::Build => 2,
            AuditDepKind::Runtime => 3,
        }
    }

    /// The rank of the need.
    fn level(self) -> (r: u8)
        ensures
            r == self.rank(),
    {
        match self {
            AuditDepKind::Development => 1,
            AuditDepKind::Build => 2,
            AuditDepKind::Runtime => 3,
        }
    }
}

/// The need that one reason for a dependency stands for.
pub open spec fn need_of(kind: DependencyKind) -> AuditDepKind {
    match kind {
        DependencyKind::Development => AuditDepKind::Development,
        DependencyKind::Build => AuditDepKind::Build,
        _ => AuditDepKind::Runtime,
    }
}

/// Whether `need` is the strongest need among the reasons; without a reason the
/// dependency is needed at run time.
pub open spec fn strongest(kinds: Seq<DependencyKind>, need: AuditDepKind) -> bool {
    if kinds.len() == 0 {
        need is Runtime
    } else {
        &&& exists|i: int| 0 <= i < kinds.len() && need_of(#[trigger] kinds[i]) == need
        &&& forall|i: int| 0 <= i < kinds.len() ==> need_of(#[trigger] kinds[i]).rank() <= need.rank()
    }
}

/// The strongest need among the reasons for a dependency.
pub fn strongest_audit_dep_kind(kinds: &Vec<DependencyKind>) -> (need: AuditDepKind)
    ensures
        strongest(kinds@, need),
{
    let mut best: Option<AuditDepKind> = None;
    let mut i: usize = 0;
    while i < kinds.len()
        invariant
            i <= kinds@.len(),
            match best {
                None => i == 0,
                Some(b) => {
                    &&& exists|j: int| 0 <= j < i && need_of(#[trigger] kinds@[j]) == b
                    &&& forall|j: int|
                        0 <= j < i ==> need_of(#[trigger] kinds@[j]).rank() <= b.rank()
                },
            },
        decreases kinds@.len() - i,
    {
        let need = match kinds[i] {
            DependencyKind::Development => AuditDepKind::Development,
            DependencyKind::Build => AuditDepKind::Build,
            _ => AuditDepKind::Runtime,
        };
        assert(need_of(kinds@[i as int]) == need);
        best = match best {
            None => Some(need),
            Some(b) => {
                if need.level() > b.level() {
                    Some(need)
                } else {
                    Some(b)
                }
            },
        };
        i += 1;
    }
    match best {
        Some(b) => b,
        None => AuditDepKind::Runtime,
    }
}

/// The strongest need among the reasons, as a function.
pub open spec fn need_rank(kinds: Seq<DependencyKind>) -> int {
    if exists|need: AuditDepKind| #[trigger] strongest(kinds, need) {
        (choose|need: AuditDepKind| #[trigger] strongest(kinds, need)).rank()
    } else {
        0
    }
}

proof fn strongest_is_unique(kinds: Seq<DependencyKind>, a: AuditDepKind)
    requires
        strongest(kinds, a),
    ensures
        need_rank(kinds) == a.rank(),
        1 <= need_rank(kinds) <= 3,
{
    let b = choose|need: AuditDepKind| #[trigger] strongest(kinds, need);
    assert(strongest(kinds, b));
    if kinds.len() > 0 {
        let i = choose|i: int| 0 <= i < kinds.len() && need_of(#[trigger] kinds[i]) == a;
        let j = choose|j: int| 0 <= j < kinds.len() && need_of(#[trigger] kinds[j]) == b;
        assert(need_of(kinds[i]).rank() <= b.rank());
        assert(need_of(kinds[j]).rank() <= a.rank());
    }
}

/// The rank of the strongest need among the reasons for a dependency.
fn need_level(kinds: &Vec<DependencyKind>) -> (r: u8)
    ensures
        r == need_rank(kinds@),
        1 <= r <= 3,
{
    let need = strongest_audit_dep_kind(kinds);
    proof {
        strongest_is_unique(kinds@, need);
    }
    need.level()
}

// ---------------------------------------------------------------------------
// The dependency graph

/// Whether a package consists of one procedural macro and nothing else.
pub open spec fn is_proc_macro(package: Package) -> bool {
    &&& package.targets@.len() == 1
    &&& package.targets@[0].kinds@.len() == 1
    &&& package.targets@[0].kinds@[0] is ProcMacro
}

/// Whether the identifier is that of a procedural macro.
pub open spec fn names_proc_macro(packages: Seq<Package>, id: Seq<char>) -> bool {
    exists|i: int|
        0 <= i < packages.len() && (#[trigger] packages[i]).id@ == id && is_proc_macro(packages[i])
}

/// Whether the identifier is that of a procedural macro.
pub fn proc_macro_named(packages: &Vec<Package>, id: &str) -> (r: bool)
    ensures
        r == names_proc_macro(packages@, id@),
{
    let mut i: usize = 0;
    while i < packages.len()
        invariant
            i <= packages@.len(),
            forall|j: int|
                0 <= j < i ==> !((#[trigger] packages@[j]).id@ == id@ && is_proc_macro(
                    packages@[j],
                )),
        decreases packages@.len() - i,
    {
        let p = &packages[i];
        if p.targets.len() == 1 && p.targets[0].kinds.len() == 1 && p.targets[0].kinds[0]
            == CrateKind::ProcMacro && str_eq(p.id.as_str(), id) {
            return true;
        }
        i += 1;
    }
    false
}

/// Whether node `i` stands for its identifier: no later node has the same.
pub open spec fn stands(nodes: Seq<Node>, i: int) -> bool {
    &&& 0 <= i < nodes.len()
    &&& forall|j: int| i < j < nodes.len() ==> (#[trigger] nodes[j]).id@ != nodes[i].id@
}

/// How strong a need the dependency passes on: that of its strongest reason, and no
/// more than a need for the build to a procedural macro.
pub open spec fn passes_on(packages: Seq<Package>, dep: NodeDependency) -> int {
    let need = need_rank(dep.kinds@);
    if names_proc_macro(packages, dep.id@) && need > 2 {
        2
    } else {
        need
    }
}

/// Whether a set of packages holds with each one every package to which that one
/// passes on a need of at least rank `k`.
pub open spec fn closed_under(
    packages: Seq<Package>,
    nodes: Seq<Node>,
    k: int,
    ids: Set<Seq<char>>,
) -> bool {
    forall|i: int, d: int|
        #![trigger nodes[i].deps@[d]]
        stands(nodes, i) && 0 <= d < nodes[i].deps@.len() && ids.contains(nodes[i].id@)
            && passes_on(packages, nodes[i].deps@[d]) >= k ==> ids.contains(nodes[i].deps@[d].id@)
}

/// Whether `root` needs the package with at least rank `k`: it lies in every set that
/// holds `root` and is closed under needs of that rank.
pub open spec fn needed(
    packages: Seq<Package>,
    nodes: Seq<Node>,
    root: Seq<char>,
    k: int,
    id: Seq<char>,
) -> bool {
    forall|ids: Set<Seq<char>>|
        ids.contains(root) && #[trigger] closed_under(packages, nodes, k, ids) ==> ids.contains(id)
}

/// A package needs itself with every rank.
pub proof fn root_is_needed(packages: Seq<Package>, nodes: Seq<Node>, root: Seq<char>, k: int)
    ensures
        needed(packages, nodes, root, k, root),
{
}

/// What is needed with some rank is needed with every lesser rank.
pub proof fn needs_weaken(
    packages: Seq<Package>,
    nodes: Seq<Node>,
    root: Seq<char>,
    k: int,
    less: int,
    id: Seq<char>,
)
    requires
        needed(packages, nodes, root, k, id),
        less <= k,
    ensures
        needed(packages, nodes, root, less, id),
{
    assert forall|ids: Set<Seq<char>>|
        ids.contains(root) && #[trigger] closed_under(packages, nodes, less, ids) implies ids.contains(
        id,
    ) by {
        assert(closed_under(packages, nodes, k, ids));
    }
}

/// Needs compose: what a needed package passes a need on to is needed as well.
pub proof fn needs_compose(
    packages: Seq<Package>,
    nodes: Seq<Node>,
    root: Seq<char>,
    k: int,
    i: int,
    d: int,
)
    requires
        stands(nodes, i),
        0 <= d < nodes[i].deps@.len(),
        needed(packages, nodes, root, k, nodes[i].id@),
        passes_on(packages, nodes[i].deps@[d]) >= k,
    ensures
        needed(packages, nodes, root, k, nodes[i].deps@[d].id@),
{
    assert forall|ids: Set<Seq<char>>|
        ids.contains(root) && #[trigger] closed_under(packages, nodes, k, ids) implies ids.contains(
        nodes[i].deps@[d].id@,
    ) by {
        assert(ids.contains(nodes[i].id@));
    }
}

// ---------------------------------------------------------------------------
// The graph over positions

/// A dependency between two positions of a list of identifiers.
#[derive(Clone, Copy, Debug)]
struct Edge {
    from: usize,
    to: usize,
    cap: u8,
}

/// Whether every edge of the list joins positions below `n` and passes on a need.
spec fn edges_fit(edges: Seq<Edge>, n: int) -> bool {
    forall|e: int|
        0 <= e < edges.len() ==> (#[trigger] edges[e]).from < n && edges[e].to < n && 1
            <= edges[e].cap <= 3
}

/// The smaller of two ranks.
spec fn lesser(a: int, b: int) -> int {
    if a < b {
        a
    } else {
        b
    }
}

/// Whether a set of positions is closed under edges of at least rank `k`.
spec fn positions_closed(edges: Seq<Edge>, k: int, set: Set<int>) -> bool {
    forall|e: int|
        0 <= e < edges.len() && set.contains((#[trigger] edges[e]).from as int) && edges[e].cap >= k
            ==> set.contains(edges[e].to as int)
}

/// Whether no position has a greater level than the edges from position 0 give it.
spec fn levels_sound(edges: Seq<Edge>, levels: Seq<u8>) -> bool {
    forall|k: int, set: Set<int>, p: int|
        #![trigger positions_closed(edges, k, set), levels[p]]
        k >= 1 && set.contains(0) && positions_closed(edges, k, set) && 0 <= p < levels.len()
            && levels[p] >= k ==> set.contains(p)
}

/// How far the levels are from the greatest possible ones.
spec fn slack(levels: Seq<u8>) -> int
    decreases levels.len(),
{
    if levels.len() == 0 {
        0
    } else {
        slack(levels.drop_last()) + 3 - levels.last()
    }
}

proof fn slack_is_positive(levels: Seq<u8>)
    requires
        forall|i: int| 0 <= i < levels.len() ==> levels[i] <= 3,
    ensures
        slack(levels) >= 0,
    decreases levels.len(),
{
    if levels.len() > 0 {
        slack_is_positive(levels.drop_last());
    }
}

proof fn slack_after_update(levels: Seq<u8>, i: int, v: u8)
    requires
        0 <= i < levels.len(),
    ensures
        slack(levels.update(i, v)) == slack(levels) + levels[i] - v,
    decreases levels.len(),
{
    let after = levels.update(i, v);
    if i == levels.len() - 1 {
        assert(after.drop_last() =~= levels.drop_last());
    } else {
        slack_after_update(levels.drop_last(), i, v);
        assert(after.drop_last() =~= levels.drop_last().update(i, v));
    }
}

/// Passes needs on along every edge once. Tells whether a level has risen.
fn pass_once(edges: &Vec<Edge>, levels: &mut Vec<u8>) -> (risen: bool)
    requires
        edges_fit(edges@, old(levels)@.len() as int),
        levels_sound(edges@, old(levels)@),
        old(levels)@.len() > 0,
        old(levels)@[0] == 3,
        forall|i: int| 0 <= i < old(levels)@.len() ==> old(levels)@[i] <= 3,
    ensures
        final(levels)@.len() == old(levels)@.len(),
        levels_sound(edges@, final(levels)@),
        final(levels)@[0] == 3,
        forall|i: int| 0 <= i < final(levels)@.len() ==> final(levels)@[i] <= 3,
        risen ==> slack(final(levels)@) < slack(old(levels)@),
        !risen ==> final(levels)@ == old(levels)@ && forall|e: int|
            0 <= e < edges@.len() ==> lesser(
                (#[trigger] edges@[e]).cap as int,
                final(levels)@[edges@[e].from as int] as int,
            ) <= final(levels)@[edges@[e].to as int],
{
    let mut risen = false;
    let mut e: usize = 0;
    while e < edges.len()
        invariant
            e <= edges@.len(),
            edges_fit(edges@, levels@.len() as int),
            levels@.len() == old(levels)@.len(),
            levels@.len() > 0,
            levels_sound(edges@, levels@),
            levels@[0] == 3,
            forall|i: int| 0 <= i < levels@.len() ==> levels@[i] <= 3,
            risen ==> slack(levels@) < slack(old(levels)@),
            !risen ==> levels@ == old(levels)@ && forall|f: int|
                0 <= f < e ==> lesser(
                    (#[trigger] edges@[f]).cap as int,
                    levels@[edges@[f].from as int] as int,
                ) <= levels@[edges@[f].to as int],
        decreases edges@.len() - e,
    {
        let edge = edges[e];
        let from = levels[edge.from];
        let level = if from < edge.cap {
            from
        } else {
            edge.cap
        };
        if level > levels[edge.to] {
            let ghost before = levels@;
            levels.set(edge.to, level);
            proof {
                slack_after_update(before, edge.to as int, level);
                assert forall|k: int, set: Set<int>, p: int|
                    #![trigger positions_closed(edges@, k, set), levels@[p]]
                    k >= 1 && set.contains(0) && positions_closed(edges@, k, set) && 0 <= p
                        < levels@.len() && levels@[p] >= k implies set.contains(p) by {
                    if p == edge.to {
                        assert(before[edge.from as int] >= k);
                        assert(set.contains(edge.from as int));
                        assert(set.contains(edges@[e as int].to as int));
                    } else {
                        assert(before[p] >= k);
                    }
                }
            }
            risen = true;
        }
        e += 1;
    }
    risen
}

/// The rank with which position 0 needs each position, 0 where it does not.
fn spread(edges: &Vec<Edge>, n: usize) -> (levels: Vec<u8>)
    requires
        n > 0,
        edges_fit(edges@, n as int),
    ensures
        levels@.len() == n,
        levels_sound(edges@, levels@),
        levels@[0] == 3,
        forall|i: int| 0 <= i < n ==> levels@[i] <= 3,
        forall|e: int|
            0 <= e < edges@.len() ==> lesser(
                (#[trigger] edges@[e]).cap as int,
                levels@[edges@[e].from as int] as int,
            ) <= levels@[edges@[e].to as int],
{
    let mut levels: Vec<u8> = Vec::new();
    levels.push(3);
    while levels.len() < n
        invariant
            1 <= levels@.len() <= n,
            levels@[0] == 3,
            forall|i: int| 1 <= i < levels@.len() ==> levels@[i] == 0,
        decreases n - levels@.len(),
    {
        levels.push(0);
    }
    loop
        invariant
            levels@.len() == n,
            n > 0,
            edges_fit(edges@, n as int),
            levels_sound(edges@, levels@),
            levels@[0] == 3,
            forall|i: int| 0 <= i < n ==> levels@[i] <= 3,
        decreases slack(levels@),
    {
        let ghost before = levels@;
        let risen = pass_once(edges, &mut levels);
        proof {
            slack_is_positive(before);
            slack_is_positive(levels@);
        }
        if !risen {
            return levels;
        }
    }
}

// ---------------------------------------------------------------------------
// From identifiers to positions

/// Whether a list of identifiers holds none twice.
spec fn distinct(ids: Seq<String>) -> bool {
    forall|a: int, b: int| 0 <= a < b < ids.len() ==> (#[trigger] ids[a])@ != (#[trigger] ids[b])@
}

/// The root and every package that another one depends on.
fn collect_ids(root: &str, nodes: &Vec<Node>) -> (ids: Vec<String>)
    ensures
        ids@.len() > 0,
        ids@[0]@ == root@,
        distinct(ids@),
        forall|i: int, d: int|
            #![trigger nodes@[i].deps@[d]]
            0 <= i < nodes@.len() && 0 <= d < nodes@[i].deps@.len() ==> text::texts(ids@).contains(
                nodes@[i].deps@[d].id@,
            ),
{
    let mut ids: Vec<String> = Vec::new();
    ids.push(root.to_owned());
    let mut i: usize = 0;
    while i < nodes.len()
        invariant
            i <= nodes@.len(),
            ids@.len() > 0,
            ids@[0]@ == root@,
            distinct(ids@),
            forall|a: int, d: int|
                #![trigger nodes@[a].deps@[d]]
                0 <= a < i && 0 <= d < nodes@[a].deps@.len() ==> text::texts(ids@).contains(
                    nodes@[a].deps@[d].id@,
                ),
        decreases nodes@.len() - i,
    {
        let mut d: usize = 0;
        while d < nodes[i].deps.len()
            invariant
                i < nodes@.len(),
                d <= nodes@[i as int].deps@.len(),
                ids@.len() > 0,
                ids@[0]@ == root@,
                distinct(ids@),
                forall|a: int, b: int|
                    #![trigger nodes@[a].deps@[b]]
                    0 <= a < i && 0 <= b < nodes@[a].deps@.len() ==> text::texts(ids@).contains(
                        nodes@[a].deps@[b].id@,
                    ),
                forall|b: int|
                    #![trigger nodes@[i as int].deps@[b]]
                    0 <= b < d ==> text::texts(ids@).contains(nodes@[i as int].deps@[b].id@),
            decreases nodes@[i as int].deps@.len() - d,
        {
            let ghost before = ids@;
            if !list_contains(&ids, nodes[i].deps[d].id.as_str()) {
                let id = nodes[i].deps[d].id.clone();
                ids.push(id);
                proof {
                    let was = text::texts(before);
                    let now = text::texts(ids@);
                    assert(now =~= was.push(id@));
                    assert forall|t: Seq<char>| was.contains(t) implies now.contains(t) by {
                        let k = choose|k: int| 0 <= k < was.len() && was[k] == t;
                        assert(now[k] == t);
                    }
                    assert(now[was.len() as int] == id@);
                    assert forall|a: int, b: int| 0 <= a < b < ids@.len() implies (
                    #[trigger] ids@[a])@ != (#[trigger] ids@[b])@ by {
                        if b == before.len() {
                            assert(was[a] == before[a]@);
                            assert(was.contains(was[a]));
                        } else {
                            assert(ids@[a] == before[a] && ids@[b] == before[b]);
                        }
                    }
                }
            }
            d += 1;
        }
        i += 1;
    }
    ids
}

/// The position of an identifier in a list.
fn position(ids: &Vec<String>, id: &str) -> (r: Option<usize>)
    ensures
        match r {
            Some(p) => p < ids@.len() && ids@[p as int]@ == id@,
            None => !text::texts(ids@).contains(id@),
        },
{
    let mut p: usize = 0;
    while p < ids.len()
        invariant
            p <= ids@.len(),
            forall|q: int| 0 <= q < p ==> (#[trigger] ids@[q])@ != id@,
        decreases ids@.len() - p,
    {
        if str_eq(ids[p].as_str(), id) {
            return Some(p);
        }
        p += 1;
    }
    assert forall|q: int| 0 <= q < text::texts(ids@).len() implies text::texts(ids@)[q] != id@ by {
        assert(ids@[q]@ != id@);
    }
    None
}

/// Whether no later node has the identifier of node `i`.
fn node_stands(nodes: &Vec<Node>, i: usize) -> (r: bool)
    requires
        i < nodes@.len(),
    ensures
        r == stands(nodes@, i as int),
{
    let n: usize = nodes.len();
    let mut j: usize = i + 1;
    while j < n
        invariant
            i < j <= n,
            n == nodes@.len(),
            forall|k: int| i < k < j ==> (#[trigger] nodes@[k]).id@ != nodes@[i as int].id@,
        decreases nodes@.len() - j,
    {
        if str_eq(nodes[j].id.as_str(), nodes[i].id.as_str()) {
            return false;
        }
        j += 1;
    }
    true
}

/// How strong a need the dependency passes on.
fn passed_on(packages: &Vec<Package>, dep: &NodeDependency) -> (r: u8)
    ensures
        r == passes_on(packages@, *dep),
        1 <= r <= 3,
{
    let need = need_level(&dep.kinds);
    if need > 2 && proc_macro_named(packages, dep.id.as_str()) {
        2
    } else {
        need
    }
}

/// Whether the edge is dependency `d` of node `i`.
spec fn edge_is(
    packages: Seq<Package>,
    nodes: Seq<Node>,
    ids: Seq<String>,
    edge: Edge,
    i: int,
    d: int,
) -> bool {
    &&& stands(nodes, i)
    &&& 0 <= d < nodes[i].deps@.len()
    &&& nodes[i].id@ == ids[edge.from as int]@
    &&& nodes[i].deps@[d].id@ == ids[edge.to as int]@
    &&& edge.cap == passes_on(packages, nodes[i].deps@[d])
}

/// Whether the edge is a dependency of the graph.
spec fn is_a_dependency(
    packages: Seq<Package>,
    nodes: Seq<Node>,
    ids: Seq<String>,
    edge: Edge,
) -> bool {
    exists|i: int, d: int| edge_is(packages, nodes, ids, edge, i, d)
}

/// Whether the edges are dependencies of the graph.
spec fn edges_are_dependencies(
    packages: Seq<Package>,
    nodes: Seq<Node>,
    ids: Seq<String>,
    edges: Seq<Edge>,
) -> bool {
    forall|e: int|
        0 <= e < edges.len() ==> is_a_dependency(packages, nodes, ids, #[trigger] edges[e])
}

/// Whether dependency `d` of node `i` is an edge.
spec fn is_an_edge(
    packages: Seq<Package>,
    nodes: Seq<Node>,
    ids: Seq<String>,
    edges: Seq<Edge>,
    i: int,
    d: int,
) -> bool {
    exists|e: int|
        0 <= e < edges.len() && edge_is(packages, nodes, ids, #[trigger] edges[e], i, d)
}

/// Whether the dependencies of the first `n` nodes, as far as the list holds the nodes,
/// are edges.
spec fn dependencies_are_edges(
    packages: Seq<Package>,
    nodes: Seq<Node>,
    ids: Seq<String>,
    edges: Seq<Edge>,
    n: int,
) -> bool {
    forall|i: int, d: int|
        i < n && stands(nodes, i) && 0 <= d < nodes[i].deps@.len() && text::texts(ids).contains(
            nodes[i].id@,
        ) ==> #[trigger] is_an_edge(packages, nodes, ids, edges, i, d)
}

/// The dependencies of the graph, as edges between positions.
fn edges_of(packages: &Vec<Package>, nodes: &Vec<Node>, ids: &Vec<String>) -> (edges: Vec<Edge>)
    requires
        distinct(ids@),
        forall|i: int, d: int|
            #![trigger nodes@[i].deps@[d]]
            0 <= i < nodes@.len() && 0 <= d < nodes@[i].deps@.len() ==> text::texts(ids@).contains(
                nodes@[i].deps@[d].id@,
            ),
    ensures
        edges_fit(edges@, ids@.len() as int),
        edges_are_dependencies(packages@, nodes@, ids@, edges@),
        dependencies_are_edges(packages@, nodes@, ids@, edges@, nodes@.len() as int),
{
    let mut edges: Vec<Edge> = Vec::new();
    let mut i: usize = 0;
    while i < nodes.len()
        invariant
            i <= nodes@.len(),
            forall|a: int, d: int|
                #![trigger nodes@[a].deps@[d]]
                0 <= a < nodes@.len() && 0 <= d < nodes@[a].deps@.len() ==> text::texts(
                    ids@,
                ).contains(nodes@[a].deps@[d].id@),
            edges_fit(edges@, ids@.len() as int),
            edges_are_dependencies(packages@, nodes@, ids@, edges@),
            dependencies_are_edges(packages@, nodes@, ids@, edges@, i as int),
        decreases nodes@.len() - i,
    {
        let at = position(ids, nodes[i].id.as_str());
        if node_stands(nodes, i) && at.is_some() {
            let from = at.unwrap();
            let mut d: usize = 0;
            while d < nodes[i].deps.len()
                invariant
                    i < nodes@.len(),
                    d <= nodes@[i as int].deps@.len(),
                    stands(nodes@, i as int),
                    from < ids@.len(),
                    ids@[from as int]@ == nodes@[i as int].id@,
                    forall|a: int, b: int|
                        #![trigger nodes@[a].deps@[b]]
                        0 <= a < nodes@.len() && 0 <= b < nodes@[a].deps@.len() ==> text::texts(
                            ids@,
                        ).contains(nodes@[a].deps@[b].id@),
                    edges_fit(edges@, ids@.len() as int),
                    edges_are_dependencies(packages@, nodes@, ids@, edges@),
                    dependencies_are_edges(packages@, nodes@, ids@, edges@, i as int),
                    forall|b: int|
                        0 <= b < d ==> #[trigger] is_an_edge(
                            packages@,
                            nodes@,
                            ids@,
                            edges@,
                            i as int,
                            b,
                        ),
                decreases nodes@[i as int].deps@.len() - d,
            {
                let ghost before = edges@;
                let dep = &nodes[i].deps[d];
                assert(text::texts(ids@).contains(nodes@[i as int].deps@[d as int].id@));
                let to = position(ids, dep.id.as_str()).unwrap();
                let cap = passed_on(packages, dep);
                let edge = Edge { from, to, cap };
                edges.push(edge);
                proof {
                    assert(edge_is(packages@, nodes@, ids@, edge, i as int, d as int));
                    assert forall|e: int| 0 <= e < edges@.len() implies is_a_dependency(
                        packages@,
                        nodes@,
                        ids@,
                        #[trigger] edges@[e],
                    ) by {
                        if e < before.len() {
                            assert(edges@[e] == before[e]);
                        } else {
                            assert(edge_is(packages@, nodes@, ids@, edges@[e], i as int, d as int));
                        }
                    }
                    assert forall|a: int, b: int|
                        is_an_edge(packages@, nodes@, ids@, before, a, b) implies #[trigger] is_an_edge(
                        packages@,
                        nodes@,
                        ids@,
                        edges@,
                        a,
                        b,
                    ) by {
                        let e = choose|e: int|
                            0 <= e < before.len() && edge_is(
                                packages@,
                                nodes@,
                                ids@,
                                #[trigger] before[e],
                                a,
                                b,
                            );
                        assert(edges@[e] == before[e]);
                    }
                    assert(edges@[before.len() as int] == edge);
                    assert(is_an_edge(packages@, nodes@, ids@, edges@, i as int, d as int));
                }
                d += 1;
            }
        }
        i += 1;
    }
    edges
}

/// The rank with which `root` needs a package: 3 at run time, 2 for the build, 1 for
/// development, and 0 if it does not need the package.
pub open spec fn rank_of(
    packages: Seq<Package>,
    nodes: Seq<Node>,
    root: Seq<char>,
    id: Seq<char>,
) -> int {
    if needed(packages, nodes, root, 3, id) {
        3
    } else if needed(packages, nodes, root, 2, id) {
        2
    } else if needed(packages, nodes, root, 1, id) {
        1
    } else {
        0
    }
}

/// Whether the levels are the ranks with which `root` needs the packages of the list,
/// and it needs no other.
spec fn levels_are_ranks(
    packages: Seq<Package>,
    nodes: Seq<Node>,
    root: Seq<char>,
    ids: Seq<String>,
    levels: Seq<u8>,
) -> bool {
    &&& levels.len() == ids.len()
    &&& forall|p: int|
        0 <= p < ids.len() ==> #[trigger] levels[p] == rank_of(packages, nodes, root, ids[p]@)
    &&& forall|id: Seq<char>|
        !text::texts(ids).contains(id) ==> #[trigger] rank_of(packages, nodes, root, id) == 0
}

/// The set of the identifiers whose level is at least `k`.
spec fn at_least(ids: Seq<String>, levels: Seq<u8>, k: int) -> Set<Seq<char>> {
    Set::new(
        |id: Seq<char>|
            exists|p: int| 0 <= p < ids.len() && (#[trigger] ids[p])@ == id && levels[p] >= k,
    )
}

proof fn fixpoint_gives_ranks(
    packages: Seq<Package>,
    nodes: Seq<Node>,
    root: Seq<char>,
    ids: Seq<String>,
    edges: Seq<Edge>,
    levels: Seq<u8>,
)
    requires
        ids.len() > 0,
        ids[0]@ == root,
        distinct(ids),
        edges_fit(edges, ids.len() as int),
        edges_are_dependencies(packages, nodes, ids, edges),
        dependencies_are_edges(packages, nodes, ids, edges, nodes.len() as int),
        levels.len() == ids.len(),
        levels_sound(edges, levels),
        levels[0] == 3,
        forall|i: int| 0 <= i < levels.len() ==> levels[i] <= 3,
        forall|e: int|
            0 <= e < edges.len() ==> lesser(
                (#[trigger] edges[e]).cap as int,
                levels[edges[e].from as int] as int,
            ) <= levels[edges[e].to as int],
    ensures
        levels_are_ranks(packages, nodes, root, ids, levels),
{
    // A level is no greater than the need.
    assert forall|p: int, k: int| 0 <= p < ids.len() && k >= 1 && #[trigger] levels[p] >= k implies
        #[trigger] needed(packages, nodes, root, k, ids[p]@) by {
        assert forall|set: Set<Seq<char>>|
            set.contains(root) && #[trigger] closed_under(packages, nodes, k, set) implies set.contains(
            ids[p]@,
        ) by {
            let places = Set::new(|q: int| 0 <= q < ids.len() && set.contains(ids[q]@));
            assert forall|e: int|
                0 <= e < edges.len() && places.contains((#[trigger] edges[e]).from as int)
                    && edges[e].cap >= k implies places.contains(edges[e].to as int) by {
                let (i, d) = choose|i: int, d: int|
                    edge_is(packages, nodes, ids, edges[e], i, d);
                assert(set.contains(nodes[i].id@));
                assert(set.contains(nodes[i].deps@[d].id@));
            }
            assert(positions_closed(edges, k, places));
            assert(places.contains(0));
            assert(levels[p] >= k);
            assert(places.contains(p));
        }
    }
    // The need is no greater than the level.
    assert forall|id: Seq<char>, k: int| 1 <= k <= 3 && #[trigger] needed(packages, nodes, root, k, id) implies
        at_least(ids, levels, k).contains(id) by {
        let set = at_least(ids, levels, k);
        assert(ids[0]@ == root && levels[0] >= k);
        assert(set.contains(root));
        assert forall|i: int, d: int|
            #![trigger nodes[i].deps@[d]]
            stands(nodes, i) && 0 <= d < nodes[i].deps@.len() && set.contains(nodes[i].id@)
                && passes_on(packages, nodes[i].deps@[d]) >= k implies set.contains(
            nodes[i].deps@[d].id@,
        ) by {
            let p = choose|p: int|
                0 <= p < ids.len() && (#[trigger] ids[p])@ == nodes[i].id@ && levels[p] >= k;
            assert(text::texts(ids)[p] == nodes[i].id@);
            assert(text::texts(ids).contains(nodes[i].id@));
            assert(is_an_edge(packages, nodes, ids, edges, i, d));
            let e = choose|e: int|
                0 <= e < edges.len() && edge_is(packages, nodes, ids, #[trigger] edges[e], i, d);
            assert(ids[edges[e].from as int]@ == ids[p]@);
            assert(edges[e].from == p);
            assert(levels[edges[e].to as int] >= k);
            assert(ids[edges[e].to as int]@ == nodes[i].deps@[d].id@);
        }
        assert(closed_under(packages, nodes, k, set));
    }
    assert forall|p: int| 0 <= p < ids.len() implies #[trigger] levels[p] == rank_of(
        packages,
        nodes,
        root,
        ids[p]@,
    ) by {
        assert forall|k: int| 1 <= k <= 3 && #[trigger] needed(packages, nodes, root, k, ids[p]@) implies
            levels[p] >= k by {
            assert(at_least(ids, levels, k).contains(ids[p]@));
            let q = choose|q: int|
                0 <= q < ids.len() && (#[trigger] ids[q])@ == ids[p]@ && levels[q] >= k;
            assert(q == p);
        }
        if levels[p] >= 3 {
            assert(needed(packages, nodes, root, 3, ids[p]@));
        }
        if levels[p] >= 2 {
            assert(needed(packages, nodes, root, 2, ids[p]@));
        }
        if levels[p] >= 1 {
            assert(needed(packages, nodes, root, 1, ids[p]@));
        }
        if needed(packages, nodes, root, 3, ids[p]@) {
        }
        if needed(packages, nodes, root, 2, ids[p]@) {
        }
        if needed(packages, nodes, root, 1, ids[p]@) {
        }
    }
    assert forall|id: Seq<char>| !text::texts(ids).contains(id) implies #[trigger] rank_of(
        packages,
        nodes,
        root,
        id,
    ) == 0 by {
        assert forall|k: int| 1 <= k <= 3 implies !#[trigger] needed(packages, nodes, root, k, id) by {
            if needed(packages, nodes, root, k, id) {
                assert(at_least(ids, levels, k).contains(id));
                let q = choose|q: int|
                    0 <= q < ids.len() && (#[trigger] ids[q])@ == id && levels[q] >= k;
                assert(text::texts(ids)[q] == id);
            }
        }
    }
}

/// The ranks with which the root needs the packages of the graph.
struct Ranks {
    ids: Vec<String>,
    levels: Vec<u8>,
}

impl Ranks {
    /// The ranks with which `root` needs the packages of the graph.
    fn new(packages: &Vec<Package>, nodes: &Vec<Node>, root: &str) -> (r: Ranks)
        ensures
            levels_are_ranks(packages@, nodes@, root@, r.ids@, r.levels@),
    {
        let ids = collect_ids(root, nodes);
        let edges = edges_of(packages, nodes, &ids);
        let levels = spread(&edges, ids.len());
        proof {
            fixpoint_gives_ranks(packages@, nodes@, root@, ids@, edges@, levels@);
        }
        Ranks { ids, levels }
    }

    /// The rank with which the root needs the package.
    fn get(&self, id: &str) -> (r: u8)
        requires
            self.ids@.len() == self.levels@.len(),
        ensures
            forall|packages: Seq<Package>, nodes: Seq<Node>, root: Seq<char>|
                #![trigger levels_are_ranks(packages, nodes, root, self.ids@, self.levels@)]
                levels_are_ranks(packages, nodes, root, self.ids@, self.levels@) ==> r == rank_of(
                    packages,
                    nodes,
                    root,
                    id@,
                ),
    {
        match position(&self.ids, id) {
            Some(p) => self.levels[p],
            None => 0,
        }
    }
}

// ---------------------------------------------------------------------------
// The order of the list

/// Whether version `a` comes before version `b` in the order of the `semver` crate.
pub uninterp spec fn version_precedes(a: Seq<char>, b: Seq<char>) -> bool;

/// Compares two versions with `semver::Version`: parses both with `Version::parse` and tells
/// whether the first is less in the order of its `Ord`; text that is no version precedes
/// every version. The order is total: where `a` precedes `b`, `b` does not precede `a`, every
/// version precedes `b` or is preceded by `a`, and what precedes `a` precedes `b`; where it
/// does not, what `a` precedes `b` precedes, and what precedes `b` precedes `a`.
#[verifier::external_body]
fn version_less(a: &str, b: &str) -> (r: bool)
    ensures
        r == version_precedes(a@, b@),
        r ==> !version_precedes(b@, a@),
        r ==> forall|c: Seq<char>| #[trigger] version_precedes(a@, c) || version_precedes(c, b@),
        r ==> forall|c: Seq<char>| #[trigger]
            version_precedes(c, a@) ==> version_precedes(c, b@),
        !r ==> forall|c: Seq<char>| #[trigger]
            version_precedes(a@, c) ==> version_precedes(b@, c),
        !r ==> forall|c: Seq<char>|
            version_precedes(c, b@) ==> #[trigger] version_precedes(c, a@),
{
    Version::parse(a).ok() < Version::parse(b).ok()
}

/// Whether package `a` is listed before package `b`: by name, then by version, then by
/// identifier.
pub open spec fn listed_before(a: Package, b: Package) -> bool {
    ||| text::text_less(a.name@, b.name@)
    ||| a.name@ == b.name@ && {
        ||| version_precedes(a.version@, b.version@)
        ||| !version_precedes(b.version@, a.version@) && text::text_less(a.id@, b.id@)
    }
}

/// Whether package `a` is listed before package `c` unless `c` is listed before `b`.
pub open spec fn stands_before_the_rest(a: Package, b: Package, c: Package) -> bool {
    !listed_before(c, b) ==> listed_before(a, c) && !listed_before(c, a)
}

/// Whether package `a` is listed before package `b`. What is listed before a package is
/// listed before everything that is not.
fn is_listed_before(a: &Package, b: &Package) -> (r: bool)
    ensures
        r == listed_before(*a, *b),
        r ==> !listed_before(*b, *a),
        r ==> forall|c: Package| #[trigger] stands_before_the_rest(*a, *b, c),
{
    proof {
        text::text_less_irreflexive(a.name@);
        text::text_less_irreflexive(a.id@);
        if text::text_less(a.name@, b.name@) && text::text_less(b.name@, a.name@) {
            text::text_less_transitive(a.name@, b.name@, a.name@);
        }
        if text::text_less(a.id@, b.id@) && text::text_less(b.id@, a.id@) {
            text::text_less_transitive(a.id@, b.id@, a.id@);
        }
    }
    let r = if !str_eq(a.name.as_str(), b.name.as_str()) {
        str_less(a.name.as_str(), b.name.as_str())
    } else if version_less(a.version.as_str(), b.version.as_str()) {
        true
    } else if version_less(b.version.as_str(), a.version.as_str()) {
        false
    } else {
        str_less(a.id.as_str(), b.id.as_str())
    };
    proof {
        if r {
            assert forall|c: Package| #[trigger] stands_before_the_rest(*a, *b, c) by {
                text::text_less_total(c.name@, b.name@);
                text::text_less_total(c.id@, b.id@);
                if text::text_less(c.name@, a.name@) && text::text_less(a.name@, b.name@) {
                    text::text_less_transitive(c.name@, a.name@, b.name@);
                }
                if text::text_less(c.id@, a.id@) && text::text_less(a.id@, b.id@) {
                    text::text_less_transitive(c.id@, a.id@, b.id@);
                }
                if text::text_less(a.name@, b.name@) && text::text_less(b.name@, c.name@) {
                    text::text_less_transitive(a.name@, b.name@, c.name@);
                }
                if text::text_less(a.id@, b.id@) && text::text_less(b.id@, c.id@) {
                    text::text_less_transitive(a.id@, b.id@, c.id@);
                }
            }
        }
    }
    r
}

/// Whether `order` lists the positions of the packages that `root` needs for the build or
/// at run time, each once and sorted.
pub open spec fn audit_order(
    packages: Seq<Package>,
    nodes: Seq<Node>,
    root: Seq<char>,
    order: Seq<usize>,
) -> bool {
    &&& order.no_duplicates()
    &&& forall|i: usize| #[trigger]
        order.contains(i) == (i < packages.len() && rank_of(packages, nodes, root, packages[i as int].id@)
            >= 2)
    &&& in_order(packages, order)
}

/// Whether no package of the list stands after one that it is listed before.
pub open spec fn in_order(packages: Seq<Package>, order: Seq<usize>) -> bool {
    forall|p: int, q: int|
        #![trigger order[p], order[q]]
        0 <= p < q < order.len() ==> !listed_before(
            packages[order[q] as int],
            packages[order[p] as int],
        )
}

/// The positions of the packages that the root needs for the build or at run time, in
/// the order of the list.
fn ordered_packages(packages: &Vec<Package>, nodes: &Vec<Node>, root: &str) -> (order: Vec<usize>)
    ensures
        audit_order(packages@, nodes@, root@, order@),
{
    let ranks = Ranks::new(packages, nodes, root);
    let mut order: Vec<usize> = Vec::new();
    let mut i: usize = 0;
    while i < packages.len()
        invariant
            i <= packages@.len(),
            levels_are_ranks(packages@, nodes@, root@, ranks.ids@, ranks.levels@),
            order@.no_duplicates(),
            forall|k: usize| #[trigger]
                order@.contains(k) == (k < i && rank_of(
                    packages@,
                    nodes@,
                    root@,
                    packages@[k as int].id@,
                ) >= 2),
            in_order(packages@, order@),
        decreases packages@.len() - i,
    {
        let rank = ranks.get(packages[i].id.as_str());
        if rank >= 2 {
            let mut at: usize = 0;
            assert forall|p: int| 0 <= p < order@.len() implies (#[trigger] order@[p]) < i by {
                assert(order@.contains(order@[p]));
            }
            while at < order.len() && !is_listed_before(&packages[i], &packages[order[at]])
                invariant
                    i < packages@.len(),
                    at <= order@.len(),
                    forall|p: int| 0 <= p < order@.len() ==> (#[trigger] order@[p]) < i,
                    forall|p: int|
                        0 <= p < at ==> !listed_before(
                            packages@[i as int],
                            packages@[#[trigger] order@[p] as int],
                        ),
                ensures
                    at <= order@.len(),
                    forall|p: int|
                        0 <= p < at ==> !listed_before(
                            packages@[i as int],
                            packages@[#[trigger] order@[p] as int],
                        ),
                    at < order@.len() ==> !listed_before(
                        packages@[order@[at as int] as int],
                        packages@[i as int],
                    ) && forall|c: Package| #[trigger]
                        stands_before_the_rest(
                            packages@[i as int],
                            packages@[order@[at as int] as int],
                            c,
                        ),
                decreases order@.len() - at,
            {
                at += 1;
            }
            let ghost before = order@;
            order.insert(at, i);
            proof {
                assert(order@[at as int] == i);
                assert forall|k: usize| #[trigger]
                    order@.contains(k) == (before.contains(k) || k == i) by {
                    if before.contains(k) {
                        let p = choose|p: int| 0 <= p < before.len() && before[p] == k;
                        if p < at {
                            assert(order@[p] == k);
                        } else {
                            assert(order@[p + 1] == k);
                        }
                    }
                    if order@.contains(k) && k != i {
                        let p = choose|p: int| 0 <= p < order@.len() && order@[p] == k;
                        if p < at {
                            assert(before[p] == k);
                        } else {
                            assert(before[p - 1] == k);
                        }
                    }
                }
                assert forall|p: int, q: int|
                    0 <= p < order@.len() && 0 <= q < order@.len() && p != q implies order@[p]
                    != order@[q] by {
                    let old_of = |k: int| if k < at { k } else { k - 1 };
                    if p != at {
                        assert(order@[p] == before[old_of(p)]);
                    }
                    if q != at {
                        assert(order@[q] == before[old_of(q)]);
                    }
                }
                assert forall|p: int, q: int|
                    #![trigger order@[p], order@[q]]
                    0 <= p < q < order@.len() implies !listed_before(
                    packages@[order@[q] as int],
                    packages@[order@[p] as int],
                ) by {
                    let new = packages@[i as int];
                    if q < at {
                        assert(order@[p] == before[p] && order@[q] == before[q]);
                    } else if q == at {
                        assert(order@[p] == before[p]);
                    } else if p == at {
                        assert(order@[q] == before[q - 1]);
                        let next = packages@[before[at as int] as int];
                        let other = packages@[before[q - 1] as int];
                        if q - 1 > at {
                            assert(!listed_before(other, next));
                            assert(stands_before_the_rest(new, next, other));
                        }
                    } else if p < at {
                        assert(order@[p] == before[p] && order@[q] == before[q - 1]);
                    } else {
                        assert(order@[p] == before[p - 1] && order@[q] == before[q - 1]);
                    }
                }
            }
        }
        i += 1;
    }
    order
}

// ---------------------------------------------------------------------------
// The list

/// Whether `p` is the place of the package in the list: the last one with the
/// identifier.
pub open spec fn is_place(
    packages: Seq<Package>,
    order: Seq<usize>,
    id: Seq<char>,
    p: int,
) -> bool {
    &&& 0 <= p < order.len()
    &&& packages[order[p] as int].id@ == id
    &&& forall|q: int| p < q < order.len() ==> packages[#[trigger] order[q] as int].id@ != id
}

/// The place of a package in the list.
fn place_of(packages: &Vec<Package>, order: &Vec<usize>, id: &str) -> (r: Option<usize>)
    requires
        forall|p: int| 0 <= p < order@.len() ==> (#[trigger] order@[p]) < packages@.len(),
    ensures
        match r {
            Some(p) => is_place(packages@, order@, id@, p as int),
            None => forall|p: int| !is_place(packages@, order@, id@, p),
        },
        forall|p: int, q: int|
            is_place(packages@, order@, id@, p) && is_place(packages@, order@, id@, q) ==> p == q,
{
    assert forall|p: int, q: int|
        is_place(packages@, order@, id@, p) && is_place(packages@, order@, id@, q) implies p == q by {
        if p < q {
            assert(packages@[order@[q] as int].id@ == id@);
        } else if q < p {
            assert(packages@[order@[p] as int].id@ == id@);
        }
    }
    let mut n: usize = order.len();
    while n > 0
        invariant
            n <= order@.len(),
            forall|p: int| 0 <= p < order@.len() ==> (#[trigger] order@[p]) < packages@.len(),
            forall|q: int|
                n <= q < order@.len() ==> packages@[#[trigger] order@[q] as int].id@ != id@,
        decreases n,
    {
        n -= 1;
        if str_eq(packages[order[n]].id.as_str(), id) {
            return Some(n);
        }
    }
    None
}

/// Whether place `to` is to be listed among the dependencies of place `from`: a node of
/// the package depends on the other package, not only for development.
pub open spec fn depends(
    packages: Seq<Package>,
    nodes: Seq<Node>,
    order: Seq<usize>,
    from: int,
    to: int,
) -> bool {
    exists|i: int, d: int|
        #![trigger nodes[i].deps@[d]]
        0 <= i < nodes.len() && is_place(packages, order, nodes[i].id@, from) && 0 <= d
            < nodes[i].deps@.len() && need_rank(nodes[i].deps@[d].kinds@) != 1 && is_place(
            packages,
            order,
            nodes[i].deps@[d].id@,
            to,
        )
}

/// Whether one of the first `n` dependencies of node `i` is at place `to`.
spec fn node_depends(
    packages: Seq<Package>,
    nodes: Seq<Node>,
    order: Seq<usize>,
    i: int,
    n: int,
    to: int,
) -> bool {
    exists|d: int|
        #![trigger nodes[i].deps@[d]]
        0 <= d < n && need_rank(nodes[i].deps@[d].kinds@) != 1 && is_place(
            packages,
            order,
            nodes[i].deps@[d].id@,
            to,
        )
}

/// The places of the dependencies of node `i` that are in the list, together with those
/// that were found before.
fn add_node_dependencies(
    packages: &Vec<Package>,
    nodes: &Vec<Node>,
    order: &Vec<usize>,
    i: usize,
    found: &mut Vec<usize>,
)
    requires
        i < nodes@.len(),
        forall|p: int| 0 <= p < order@.len() ==> (#[trigger] order@[p]) < packages@.len(),
        sorted::rising(old(found)@),
    ensures
        sorted::rising(final(found)@),
        forall|to: usize| #[trigger]
            final(found)@.contains(to) == (old(found)@.contains(to) || node_depends(
                packages@,
                nodes@,
                order@,
                i as int,
                nodes@[i as int].deps@.len() as int,
                to as int,
            )),
{
    let mut d: usize = 0;
    while d < nodes[i].deps.len()
        invariant
            i < nodes@.len(),
            d <= nodes@[i as int].deps@.len(),
            forall|p: int| 0 <= p < order@.len() ==> (#[trigger] order@[p]) < packages@.len(),
            sorted::rising(found@),
            forall|to: usize| #[trigger]
                found@.contains(to) == (old(found)@.contains(to) || node_depends(
                    packages@,
                    nodes@,
                    order@,
                    i as int,
                    d as int,
                    to as int,
                )),
        decreases nodes@[i as int].deps@.len() - d,
    {
        let dep = &nodes[i].deps[d];
        let ghost before = found@;
        let need = need_level(&dep.kinds);
        let place = place_of(packages, order, dep.id.as_str());
        let ghost hit = |to: int|
            need_rank(nodes@[i as int].deps@[d as int].kinds@) != 1 && is_place(
                packages@,
                order@,
                nodes@[i as int].deps@[d as int].id@,
                to,
            );
        if need != 1 {
            if let Some(p) = place {
                add_number(found, p);
            }
        }
        proof {
            assert forall|to: usize| #[trigger]
                found@.contains(to) == (old(found)@.contains(to) || node_depends(
                    packages@,
                    nodes@,
                    order@,
                    i as int,
                    d + 1,
                    to as int,
                )) by {
                assert(found@.contains(to) == (before.contains(to) || hit(to as int)));
                let was = node_depends(packages@, nodes@, order@, i as int, d as int, to as int);
                let is = node_depends(packages@, nodes@, order@, i as int, d + 1, to as int);
                if hit(to as int) {
                    assert(nodes@[i as int].deps@[d as int] == dep);
                    assert(is);
                }
            }
        }
        d += 1;
    }
}

/// The places of the packages that the package at place `p` depends on.
fn dependencies_of(
    packages: &Vec<Package>,
    nodes: &Vec<Node>,
    order: &Vec<usize>,
    places: &Vec<Option<usize>>,
    p: usize,
) -> (found: Vec<usize>)
    requires
        p < order@.len(),
        forall|q: int| 0 <= q < order@.len() ==> (#[trigger] order@[q]) < packages@.len(),
        places_of_nodes(packages@, nodes@, order@, places@),
        places@.len() == nodes@.len(),
    ensures
        sorted::rising(found@),
        forall|to: usize| #[trigger]
            found@.contains(to) == depends(packages@, nodes@, order@, p as int, to as int),
{
    let mut found: Vec<usize> = Vec::new();
    let mut i: usize = 0;
    let ghost reach = |n: int, to: int|
        exists|k: int|
            0 <= k < n && is_place(packages@, order@, (#[trigger] nodes@[k]).id@, p as int)
                && node_depends(
                packages@,
                nodes@,
                order@,
                k,
                nodes@[k].deps@.len() as int,
                to,
            );
    while i < nodes.len()
        invariant
            i <= nodes@.len(),
            p < order@.len(),
            forall|q: int| 0 <= q < order@.len() ==> (#[trigger] order@[q]) < packages@.len(),
            places_of_nodes(packages@, nodes@, order@, places@),
            places@.len() == nodes@.len(),
            sorted::rising(found@),
            reach == (|n: int, to: int|
                exists|k: int|
                    0 <= k < n && is_place(packages@, order@, (#[trigger] nodes@[k]).id@, p as int)
                        && node_depends(
                        packages@,
                        nodes@,
                        order@,
                        k,
                        nodes@[k].deps@.len() as int,
                        to,
                    )),
            forall|to: usize| #[trigger] found@.contains(to) == reach(i as int, to as int),
        decreases nodes@.len() - i,
    {
        let ghost before = found@;
        let ghost mine = is_place(packages@, order@, nodes@[i as int].id@, p as int);
        let here = match places[i] {
            Some(at) => at == p,
            None => false,
        };
        assert(here == mine) by {
            assert(place_known(packages@, order@, nodes@[i as int].id@, places@[i as int]));
        }
        if here {
            add_node_dependencies(packages, nodes, order, i, &mut found);
        }
        proof {
            assert forall|to: usize| #[trigger]
                found@.contains(to) == reach(i + 1, to as int) by {
                let adds = mine && node_depends(
                    packages@,
                    nodes@,
                    order@,
                    i as int,
                    nodes@[i as int].deps@.len() as int,
                    to as int,
                );
                assert(found@.contains(to) == (before.contains(to) || adds));
                assert(before.contains(to) == reach(i as int, to as int));
                if adds {
                    assert(nodes@[i as int].id@ == nodes@[i as int].id@);
                    assert(reach(i + 1, to as int));
                }
                if reach(i + 1, to as int) && !adds {
                    let k = choose|k: int|
                        0 <= k < i + 1 && is_place(
                            packages@,
                            order@,
                            (#[trigger] nodes@[k]).id@,
                            p as int,
                        ) && node_depends(
                            packages@,
                            nodes@,
                            order@,
                            k,
                            nodes@[k].deps@.len() as int,
                            to as int,
                        );
                    assert(k < i);
                    assert(nodes@[k].id@ == nodes@[k].id@);
                }
            }
        }
        i += 1;
    }
    proof {
        assert forall|to: usize| #[trigger]
            found@.contains(to) == depends(packages@, nodes@, order@, p as int, to as int) by {
            assert(found@.contains(to) == reach(nodes@.len() as int, to as int));
            if depends(packages@, nodes@, order@, p as int, to as int) {
                let (k, d) = choose|k: int, d: int|
                    #![trigger nodes@[k].deps@[d]]
                    0 <= k < nodes@.len() && is_place(packages@, order@, nodes@[k].id@, p as int)
                        && 0 <= d < nodes@[k].deps@.len() && need_rank(nodes@[k].deps@[d].kinds@)
                        != 1 && is_place(
                        packages@,
                        order@,
                        nodes@[k].deps@[d].id@,
                        to as int,
                    );
                assert(node_depends(
                    packages@,
                    nodes@,
                    order@,
                    k,
                    nodes@[k].deps@.len() as int,
                    to as int,
                ));
            }
        }
    }
    found
}

/// Whether `place` is the place of the package, if it has one.
spec fn place_known(
    packages: Seq<Package>,
    order: Seq<usize>,
    id: Seq<char>,
    place: Option<usize>,
) -> bool {
    forall|p: int| #[trigger]
        is_place(packages, order, id, p) == (place matches Some(at) && at == p)
}

/// Whether the places are those of the nodes.
spec fn places_of_nodes(
    packages: Seq<Package>,
    nodes: Seq<Node>,
    order: Seq<usize>,
    places: Seq<Option<usize>>,
) -> bool {
    forall|i: int|
        0 <= i < places.len() ==> place_known(
            packages,
            order,
            nodes[i].id@,
            #[trigger] places[i],
        )
}

/// A package in the list.
#[derive(Debug)]
pub struct AuditPackage {
    pub name: String,
    pub version: String,
    pub source: String,
    /// `build` for a package that is only needed for the build.
    pub kind: Option<&'static str>,
    /// The places of the packages that this one depends on.
    pub dependencies: Vec<usize>,
    pub root: bool,
}

/// The list of dependencies.
#[derive(Debug)]
pub struct AuditVersionInfo {
    pub format: u32,
    pub packages: Vec<AuditPackage>,
}

/// The name under which the list gives a source: that of the public registry, else the
/// part before the first plus sign.
pub open spec fn source_name(source: Seq<char>) -> Seq<char> {
    if source == "registry+https://github.com/rust-lang/crates.io-index"@ {
        "crates.io"@
    } else {
        source.take(text::before(source, '+') as int)
    }
}

/// The name under which the list gives a source.
pub fn audit_source(source: &str) -> (r: String)
    ensures
        r@ == source_name(source@),
{
    if str_eq(source, "registry+https://github.com/rust-lang/crates.io-index") {
        return "crates.io".to_owned();
    }
    let chars = text::chars_of(source);
    assert(chars@.skip(0) == chars@);
    let end = text::find_from(&chars, 0, '+');
    let r = text::string_from(&chars, 0, end);
    assert(r@ == source@.take(end as int));
    r
}

/// Whether an entry of the list describes the package at place `p` of the order.
pub open spec fn describes(
    packages: Seq<Package>,
    nodes: Seq<Node>,
    root: Seq<char>,
    order: Seq<usize>,
    p: int,
    entry: AuditPackage,
) -> bool {
    let package = packages[order[p] as int];
    &&& entry.name@ == package.name@
    &&& entry.version@ == package.version@
    &&& entry.source@ == (match package.source {
        Some(source) => source_name(source@),
        None => "local"@,
    })
    &&& match entry.kind {
        Some(kind) => kind@ == "build"@ && rank_of(packages, nodes, root, package.id@) == 2,
        None => rank_of(packages, nodes, root, package.id@) == 3,
    }
    &&& sorted::rising(entry.dependencies@)
    &&& forall|to: usize| #[trigger]
        entry.dependencies@.contains(to) == depends(packages, nodes, order, p, to as int)
    &&& entry.root == (package.id@ == root)
}

/// Whether a list has an entry for each place of the order.
pub open spec fn lists(
    packages: Seq<Package>,
    nodes: Seq<Node>,
    root: Seq<char>,
    order: Seq<usize>,
    entries: Seq<AuditPackage>,
) -> bool {
    &&& entries.len() == order.len()
    &&& forall|p: int|
        0 <= p < order.len() ==> describes(packages, nodes, root, order, p, #[trigger] entries[p])
}

/// Whether a node of the graph has the identifier.
pub open spec fn has_node(nodes: Seq<Node>, id: Seq<char>) -> bool {
    exists|i: int| 0 <= i < nodes.len() && (#[trigger] nodes[i]).id@ == id
}

/// Whether a node of the graph has the identifier.
fn node_exists(nodes: &Vec<Node>, id: &str) -> (r: bool)
    ensures
        r == has_node(nodes@, id@),
{
    let mut i: usize = 0;
    while i < nodes.len()
        invariant
            i <= nodes@.len(),
            forall|j: int| 0 <= j < i ==> (#[trigger] nodes@[j]).id@ != id@,
        decreases nodes@.len() - i,
    {
        if str_eq(nodes[i].id.as_str(), id) {
            return true;
        }
        i += 1;
    }
    false
}

/// The places of the nodes in the list.
fn places_in_order(packages: &Vec<Package>, nodes: &Vec<Node>, order: &Vec<usize>) -> (places: Vec<
    Option<usize>,
>)
    requires
        forall|p: int| 0 <= p < order@.len() ==> (#[trigger] order@[p]) < packages@.len(),
    ensures
        places@.len() == nodes@.len(),
        places_of_nodes(packages@, nodes@, order@, places@),
{
    let mut places: Vec<Option<usize>> = Vec::new();
    while places.len() < nodes.len()
        invariant
            places@.len() <= nodes@.len(),
            forall|p: int| 0 <= p < order@.len() ==> (#[trigger] order@[p]) < packages@.len(),
            places_of_nodes(packages@, nodes@, order@, places@),
        decreases nodes@.len() - places@.len(),
    {
        let place = place_of(packages, order, nodes[places.len()].id.as_str());
        assert(place_known(packages@, order@, nodes@[places@.len() as int].id@, place));
        places.push(place);
    }
    places
}

/// The list of dependencies of a package: what it needs for the build and at run time,
/// itself included, sorted, with the dependencies between the entries.
pub fn auditable_from_metadata(metadata: &Metadata, root_package: &Package) -> (r: Result<
    AuditVersionInfo,
    SonicError,
>)
    ensures
        match metadata.resolve {
            None => r matches Err(e) && e is NoResolution,
            Some(nodes) => if has_node(nodes@, root_package.id@) {
                r matches Ok(info) && info.format == 1 && exists|order: Seq<usize>| #[trigger]
                    audit_order(metadata.packages@, nodes@, root_package.id@, order) && lists(
                        metadata.packages@,
                        nodes@,
                        root_package.id@,
                        order,
                        info.packages@,
                    )
            } else {
                r matches Err(SonicError::MissingFromGraph { package }) && package@
                    == root_package.name@
            },
        },
{
    let nodes = match &metadata.resolve {
        Some(nodes) => nodes,
        None => {
            return Err(SonicError::NoResolution);
        },
    };
    let packages = &metadata.packages;
    let root = root_package.id.as_str();
    if !node_exists(nodes, root) {
        return Err(SonicError::MissingFromGraph { package: root_package.name.clone() });
    }
    let order = ordered_packages(packages, nodes, root);
    assert forall|p: int| 0 <= p < order@.len() implies (#[trigger] order@[p]) < packages@.len()
        && rank_of(packages@, nodes@, root@, packages@[order@[p] as int].id@) >= 2 by {
        assert(order@.contains(order@[p]));
    }
    let places = places_in_order(packages, nodes, &order);
    let ranks = Ranks::new(packages, nodes, root);
    let mut entries: Vec<AuditPackage> = Vec::new();
    while entries.len() < order.len()
        invariant
            entries@.len() <= order@.len(),
            root@ == root_package.id@,
            forall|p: int|
                0 <= p < order@.len() ==> (#[trigger] order@[p]) < packages@.len() && rank_of(
                    packages@,
                    nodes@,
                    root@,
                    packages@[order@[p] as int].id@,
                ) >= 2,
            places@.len() == nodes@.len(),
            places_of_nodes(packages@, nodes@, order@, places@),
            levels_are_ranks(packages@, nodes@, root@, ranks.ids@, ranks.levels@),
            forall|p: int|
                0 <= p < entries@.len() ==> describes(
                    packages@,
                    nodes@,
                    root@,
                    order@,
                    p,
                    #[trigger] entries@[p],
                ),
        decreases order@.len() - entries@.len(),
    {
        let p: usize = entries.len();
        let package = &packages[order[p]];
        let rank = ranks.get(package.id.as_str());
        let source = match &package.source {
            Some(source) => audit_source(source.as_str()),
            None => "local".to_owned(),
        };
        let dependencies = dependencies_of(packages, nodes, &order, &places, p);
        let entry = AuditPackage {
            name: package.name.clone(),
            version: package.version.clone(),
            source,
            kind: if rank == 2 {
                Some("build")
            } else {
                None
            },
            dependencies,
            root: str_eq(package.id.as_str(), root),
        };
        entries.push(entry);
    }
    assert(lists(packages@, nodes@, root@, order@, entries@));
    Ok(AuditVersionInfo { format: 1, packages: entries })
}

/// Every dependency of a list is the place of an entry of the list.
pub proof fn dependencies_are_listed(
    packages: Seq<Package>,
    nodes: Seq<Node>,
    root: Seq<char>,
    order: Seq<usize>,
    entries: Seq<AuditPackage>,
    p: int,
    to: usize,
)
    requires
        lists(packages, nodes, root, order, entries),
        0 <= p < entries.len(),
        entries[p].dependencies@.contains(to),
    ensures
        to < entries.len(),
{
    assert(describes(packages, nodes, root, order, p, entries[p]));
    assert(depends(packages, nodes, order, p, to as int));
}

/// The root is listed as the root, and as needed at run time.
pub proof fn root_is_listed(
    packages: Seq<Package>,
    nodes: Seq<Node>,
    root: Seq<char>,
    order: Seq<usize>,
    entries: Seq<AuditPackage>,
    i: usize,
)
    requires
        audit_order(packages, nodes, root, order),
        lists(packages, nodes, root, order, entries),
        i < packages.len(),
        packages[i as int].id@ == root,
    ensures
        exists|p: int|
            0 <= p < entries.len() && (#[trigger] entries[p]).root && entries[p].kind is None
                && entries[p].name@ == packages[i as int].name@,
{
    root_is_needed(packages, nodes, root, 3);
    assert(order.contains(i));
    let p = choose|p: int| 0 <= p < order.len() && order[p] == i;
    assert(describes(packages, nodes, root, order, p, entries[p]));
}

/// A package that the root needs for development alone, or not at all, is not listed.
pub proof fn development_is_not_listed(
    packages: Seq<Package>,
    nodes: Seq<Node>,
    root: Seq<char>,
    order: Seq<usize>,
    i: usize,
)
    requires
        audit_order(packages, nodes, root, order),
        i < packages.len(),
        !needed(packages, nodes, root, 2, packages[i as int].id@),
    ensures
        !order.contains(i),
{
    if needed(packages, nodes, root, 3, packages[i as int].id@) {
        needs_weaken(packages, nodes, root, 3, 2, packages[i as int].id@);
    }
}

// ---------------------------------------------------------------------------
// What reasons and sources mean

/// A dependency counts for what its strongest reason says: at run time if one reason is neither
/// the build nor development, else for the build if one is the build, else for development.
/// Without a reason it counts at run time.
pub proof fn one_reason_is_enough(kinds: &Vec<DependencyKind>, need: AuditDepKind, i: int)
    requires
        call_ensures(strongest_audit_dep_kind, (kinds,), need),
    ensures
        kinds@.len() == 0 ==> need is Runtime,
        0 <= i < kinds@.len() && !(kinds@[i] is Build) && !(kinds@[i] is Development) ==> need
            is Runtime,
        0 <= i < kinds@.len() && kinds@[i] is Build ==> !(need is Development),
        need is Runtime && kinds@.len() > 0 ==> exists|k: int|
            0 <= k < kinds@.len() && !((#[trigger] kinds@[k]) is Build) && !(kinds@[k]
                is Development),
        need is Build ==> exists|k: int| 0 <= k < kinds@.len() && (#[trigger] kinds@[k]) is Build,
        need is Development ==> kinds@.len() > 0 && forall|k: int|
            0 <= k < kinds@.len() ==> (#[trigger] kinds@[k]) is Development,
{
    let args = (kinds,);
    let all = args.0@;
    assert(strongest(all, need));
    if all.len() > 0 {
        let k = choose|k: int| 0 <= k < all.len() && need_of(#[trigger] all[k]) == need;
        assert(need_of(kinds@[k]) == need);
        if 0 <= i < all.len() {
            assert(need_of(all[i]).rank() <= need.rank());
        }
        if need is Development {
            assert forall|j: int| 0 <= j < kinds@.len() implies (#[trigger] kinds@[j])
                is Development by {
                assert(need_of(all[j]).rank() <= need.rank());
            }
        }
    }
}

/// The public registry is listed as `crates.io`, any other source under what comes before its
/// first plus sign.
pub proof fn sources_are_cut_at_the_plus(source: &str, kind: Seq<char>, rest: Seq<char>, r: String)
    requires
        call_ensures(audit_source, (source,), r),
        !kind.contains('+'),
    ensures
        source@ == "registry+https://github.com/rust-lang/crates.io-index"@ ==> r@ == "crates.io"@,
        source@ != "registry+https://github.com/rust-lang/crates.io-index"@ && source@ == kind
            + seq!['+'] + rest ==> r@ == kind,
        source@ == kind ==> r@ == kind,
{
    reveal_strlit("registry+https://github.com/rust-lang/crates.io-index");
    text_laws::before_the_first(kind, '+', rest);
    if source@ == kind + seq!['+'] + rest {
        assert(source@ =~= kind.push('+') + rest);
        assert(source@.take(kind.len() as int) =~= kind);
    }
    if source@ == kind {
        if kind == "registry+https://github.com/rust-lang/crates.io-index"@ {
            assert(kind[8] == '+');
            assert(kind.contains(kind[8]));
        }
        assert(source@.take(kind.len() as int) =~= kind);
    }
}

/// The list is closed: what a listed package needs at run time other than procedural macros is
/// listed as needed at run time if that package is, and the root is listed so.
pub proof fn the_list_is_closed(
    metadata: &Metadata,
    root_package: &Package,
    info: AuditVersionInfo,
    nodes: Seq<Node>,
    n: int,
    d: int,
    a: usize,
    b: usize,
) -> (places: (int, int))
    requires
        call_ensures(auditable_from_metadata, (metadata, root_package), Ok(info)),
        metadata.resolve matches Some(v) && v@ == nodes,
        0 <= n < nodes.len(),
        forall|j: int| n < j < nodes.len() ==> (#[trigger] nodes[j]).id@ != nodes[n].id@,
        0 <= d < nodes[n].deps@.len(),
        exists|k: int|
            0 <= k < nodes[n].deps@[d].kinds@.len() && !((#[trigger] nodes[n].deps@[d].kinds@[k])
                is Build) && !(nodes[n].deps@[d].kinds@[k] is Development),
        a < metadata.packages@.len(),
        metadata.packages@[a as int].id@ == nodes[n].id@,
        b < metadata.packages@.len(),
        metadata.packages@[b as int].id@ == nodes[n].deps@[d].id@,
        !names_proc_macro(metadata.packages@, nodes[n].deps@[d].id@),
        nodes[n].id@ == root_package.id@ || needed(
            metadata.packages@,
            nodes,
            root_package.id@,
            3,
            nodes[n].id@,
        ),
    ensures
        0 <= places.0 < info.packages@.len(),
        info.packages@[places.0].name@ == metadata.packages@[a as int].name@,
        info.packages@[places.0].kind is None,
        0 <= places.1 < info.packages@.len(),
        info.packages@[places.1].name@ == metadata.packages@[b as int].name@,
        info.packages@[places.1].version@ == metadata.packages@[b as int].version@,
        info.packages@[places.1].kind is None,
        needed(metadata.packages@, nodes, root_package.id@, 3, nodes[n].deps@[d].id@),
{
    let args = (metadata, root_package);
    let packages = args.0.packages@;
    let root = args.1.id@;
    let dep = nodes[n].deps@[d];
    assert(stands(nodes, n));
    strongest_exists(dep.kinds@);
    let k = choose|k: int|
        0 <= k < dep.kinds@.len() && !((#[trigger] dep.kinds@[k]) is Build) && !(dep.kinds@[k]
            is Development);
    let need = choose|need: AuditDepKind| #[trigger] strongest(dep.kinds@, need);
    assert(need_of(dep.kinds@[k]).rank() <= need.rank());
    assert(need_rank(dep.kinds@) == 3);
    assert(passes_on(packages, dep) == 3);
    root_is_needed(packages, nodes, root, 3);
    needs_compose(packages, nodes, root, 3, n, d);
    let order = choose|order: Seq<usize>| #[trigger]
        audit_order(packages, nodes, root, order) && lists(
            packages,
            nodes,
            root,
            order,
            info.packages@,
        );
    assert(order.contains(a));
    assert(order.contains(b));
    let p = choose|p: int| 0 <= p < order.len() && order[p] == a;
    let q = choose|q: int| 0 <= q < order.len() && order[q] == b;
    assert(describes(packages, nodes, root, order, p, info.packages@[p]));
    assert(describes(packages, nodes, root, order, q, info.packages@[q]));
    (p, q)
}

proof fn strongest_exists(kinds: Seq<DependencyKind>)
    ensures
        exists|need: AuditDepKind| #[trigger] strongest(kinds, need),
    decreases kinds.len(),
{
    if kinds.len() == 0 {
        assert(strongest(kinds, AuditDepKind::Runtime));
    } else {
        let before = kinds.drop_last();
        let last = need_of(kinds.last());
        assert(kinds[kinds.len() - 1] == kinds.last());
        strongest_exists(before);
        let was = choose|need: AuditDepKind| #[trigger] strongest(before, need);
        if before.len() == 0 || last.rank() > was.rank() {
            assert(need_of(kinds[kinds.len() - 1]) == last);
            assert forall|i: int| 0 <= i < kinds.len() implies need_of(#[trigger] kinds[i]).rank()
                <= last.rank() by {
                if i < before.len() {
                    assert(before[i] == kinds[i]);
                }
            }
            assert(strongest(kinds, last));
        } else {
            let i = choose|i: int| 0 <= i < before.len() && need_of(#[trigger] before[i]) == was;
            assert(need_of(kinds[i]) == was);
            assert forall|j: int| 0 <= j < kinds.len() implies need_of(#[trigger] kinds[j]).rank()
                <= was.rank() by {
                if j < before.len() {
                    assert(before[j] == kinds[j]);
                }
            }
            assert(strongest(kinds, was));
        }
    }
}

} // verus!
