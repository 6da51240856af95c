//! What the crate reads of a Cargo workspace: its packages, their targets, and the
//! resolved dependency graph.
use crate::error::SonicError;
use crate::text::{self, str_eq};
use vstd::prelude::*;

verus! {

/// Why one package depends on another.
#[derive(Clone, Copy, Debug, PartialEq, Eq, Structural)]
pub enum DependencyKind {
    Normal,
    Build,
    Development,
    Unknown,
}

/// What a target of a package is built into.
#[derive(Clone, Copy, Debug, PartialEq, Eq, Structural)]
pub enum CrateKind {
    Bin,
    ProcMacro,
    Other,
}

/// A target of a package.
#[derive(Debug)]
pub struct PackageTarget {
    pub name: String,
    pub kinds: Vec<CrateKind>,
}

/// A package.
#[derive(Debug)]
pub struct Package {
    pub id: String,
    pub name: String,
    pub version: String,
    /// Where the package comes from; `None` for one that lies in the workspace.
    pub source: Option<String>,
    pub targets: Vec<PackageTarget>,
}

/// A dependency of a package, with the reasons for it.
#[derive(Debug)]
pub struct NodeDependency {
    pub id: String,
    pub kinds: Vec<DependencyKind>,
}

/// A package in the resolved dependency graph.
#[derive(Debug)]
pub struct Node {
    pub id: String,
    pub deps: Vec<NodeDependency>,
}

/// A workspace.
#[derive(Debug)]
pub struct Metadata {
    pub packages: Vec<Package>,
    /// The identifiers of the packages that belong to the workspace.
    pub workspace_members: Vec<String>,
    /// The identifier of the package at the root of the workspace, if there is one.
    pub root: Option<String>,
    /// The nodes of the dependency graph, if it was resolved.
    pub resolve: Option<Vec<Node>>,
    pub target_directory: String,
}

/// Whether the package at position `i` is the first with the given name.
pub open spec fn first_named(packages: Seq<Package>, name: Seq<char>, i: int) -> bool {
    &&& 0 <= i < packages.len()
    &&& packages[i].name@ == name
    &&& forall|j: int| 0 <= j < i ==> (#[trigger] packages[j]).name@ != name
}

/// Whether the package at position `i` is the first with the given identifier.
pub open spec fn first_with_id(packages: Seq<Package>, id: Seq<char>, i: int) -> bool {
    &&& 0 <= i < packages.len()
    &&& packages[i].id@ == id
    &&& forall|j: int| 0 <= j < i ==> (#[trigger] packages[j]).id@ != id
}

/// Whether a package has the given name.
pub open spec fn some_named(packages: Seq<Package>, name: Seq<char>) -> bool {
    exists|i: int| 0 <= i < packages.len() && (#[trigger] packages[i]).name@ == name
}

/// Whether a package has the given identifier.
pub open spec fn some_with_id(packages: Seq<Package>, id: Seq<char>) -> bool {
    exists|i: int| 0 <= i < packages.len() && (#[trigger] packages[i]).id@ == id
}

/// The position of the first package with the given name.
fn find_by_name(packages: &Vec<Package>, name: &str) -> (r: Option<usize>)
    ensures
        match r {
            Some(i) => first_named(packages@, name@, i as int),
            None => !some_named(packages@, name@),
        },
{
    let mut i: usize = 0;
    while i < packages.len()
        invariant
            i <= packages@.len(),
            forall|j: int| 0 <= j < i ==> (#[trigger] packages@[j]).name@ != name@,
        decreases packages@.len() - i,
    {
        if str_eq(packages[i].name.as_str(), name) {
            return Some(i);
        }
        i += 1;
    }
    None
}

/// The position of the first package with the given identifier.
fn find_by_id(packages: &Vec<Package>, id: &str) -> (r: Option<usize>)
    ensures
        match r {
            Some(i) => first_with_id(packages@, id@, i as int),
            None => !some_with_id(packages@, id@),
        },
{
    let mut i: usize = 0;
    while i < packages.len()
        invariant
            i <= packages@.len(),
            forall|j: int| 0 <= j < i ==> (#[trigger] packages@[j]).id@ != id@,
        decreases packages@.len() - i,
    {
        if str_eq(packages[i].id.as_str(), id) {
            return Some(i);
        }
        i += 1;
    }
    None
}

/// Whether the workspace has a package at its root.
pub open spec fn has_root(metadata: Metadata) -> bool {
    metadata.root matches Some(root) && some_with_id(metadata.packages@, root@)
}

/// The package to build: the one that was named; else the one at the root of the
/// workspace; else the only member of the workspace.
pub fn select_package<'a>(metadata: &'a Metadata, package: Option<&str>) -> (r: Result<
    &'a Package,
    SonicError,
>)
    ensures
        match package {
            Some(name) => match r {
                Ok(p) => exists|i: int| #[trigger]
                    first_named(metadata.packages@, name@, i) && *p == metadata.packages@[i],
                Err(e) => !some_named(metadata.packages@, name@) && (e matches
                    SonicError::PackageNotFound { package: n } && n@ == name@),
            },
            None => if has_root(*metadata) {
                r matches Ok(p) && exists|i: int| #[trigger]
                    first_with_id(metadata.packages@, metadata.root->0@, i) && *p
                        == metadata.packages@[i]
            } else if metadata.workspace_members@.len() == 1 {
                let member = metadata.workspace_members@[0]@;
                match r {
                    Ok(p) => exists|i: int| #[trigger]
                        first_with_id(metadata.packages@, member, i) && *p
                            == metadata.packages@[i],
                    Err(e) => !some_with_id(metadata.packages@, member) && e
                        is WorkspacePackageNotFound,
                }
            } else {
                r matches Err(e) && e is AmbiguousPackage
            },
        },
{
    if let Some(name) = package {
        return match find_by_name(&metadata.packages, name) {
            Some(i) => Ok(&metadata.packages[i]),
            None => Err(SonicError::PackageNotFound { package: name.to_owned() }),
        };
    }
    if let Some(root) = &metadata.root {
        if let Some(i) = find_by_id(&metadata.packages, root.as_str()) {
            assert(metadata.packages@[i as int].id@ == root@);
            return Ok(&metadata.packages[i]);
        }
    }
    if metadata.workspace_members.len() == 1 {
        return match find_by_id(&metadata.packages, metadata.workspace_members[0].as_str()) {
            Some(i) => Ok(&metadata.packages[i]),
            None => Err(SonicError::WorkspacePackageNotFound),
        };
    }
    Err(SonicError::AmbiguousPackage)
}

/// The package to build is one of the packages. One that was named has that name; else it is
/// the one at the root of the workspace, else the workspace's only member.
pub proof fn the_package_is_the_one_asked_for(
    metadata: &Metadata,
    package: Option<&str>,
    r: Result<&Package, SonicError>,
)
    requires
        call_ensures(select_package, (metadata, package), r),
    ensures
        r matches Ok(p) ==> metadata.packages@.contains(*p),
        package matches Some(name) ==> (r matches Ok(p) ==> p.name@ == name@),
        package matches Some(name) ==> (r is Err <==> forall|i: int|
            0 <= i < metadata.packages@.len() ==> (#[trigger] metadata.packages@[i]).name@
                != name@),
        package is None ==> (r matches Ok(p) ==> (metadata.root matches Some(root) && p.id@ == root@)
            || metadata.workspace_members@.len() == 1 && p.id@
            == metadata.workspace_members@[0]@),
        package is None && metadata.root is None && metadata.workspace_members@.len() != 1 ==> r
            is Err,
        package is None && metadata.root is Some && (exists|i: int|
            0 <= i < metadata.packages@.len() && (#[trigger] metadata.packages@[i]).id@
                == metadata.root->0@) ==> (r matches Ok(p) && p.id@ == metadata.root->0@),
{
    let args = (metadata, package);
    let packages = args.0.packages@;
    match package {
        Some(name) => {
            if r is Ok {
                let i = choose|i: int| #[trigger]
                    first_named(packages, name@, i) && *r->Ok_0 == packages[i];
                assert(packages.contains(packages[i]));
                assert(metadata.packages@[i].name@ == name@);
            } else {
                assert(!some_named(packages, name@));
            }
        },
        None => {
            if r is Ok {
                if has_root(*args.0) {
                    let i = choose|i: int| #[trigger]
                        first_with_id(packages, metadata.root->0@, i) && *r->Ok_0 == packages[i];
                    assert(packages.contains(packages[i]));
                } else {
                    let i = choose|i: int| #[trigger]
                        first_with_id(packages, metadata.workspace_members@[0]@, i) && *r->Ok_0
                            == packages[i];
                    assert(packages.contains(packages[i]));
                }
            }
        },
    }
}

} // verus!
