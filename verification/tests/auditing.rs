//! The list of dependencies that a build embeds.
use cargo_sonic::audit::{
    AuditDepKind, auditable_from_metadata, proc_macro_named, strongest_audit_dep_kind,
};
use cargo_sonic::audit_section::{auditable_object, auditable_section};
use cargo_sonic::metadata::{
    CrateKind, DependencyKind, Metadata, Node, NodeDependency, Package, PackageTarget,
};

fn package(id: &str, name: &str, version: &str, source: Option<&str>, kind: CrateKind) -> Package {
    Package {
        id: id.to_string(),
        name: name.to_string(),
        version: version.to_string(),
        source: source.map(str::to_string),
        targets: vec![PackageTarget {
            name: name.to_string(),
            kinds: vec![kind],
        }],
    }
}

fn dependency(id: &str, kinds: &[DependencyKind]) -> NodeDependency {
    NodeDependency {
        id: id.to_string(),
        kinds: kinds.to_vec(),
    }
}

fn node(id: &str, deps: Vec<NodeDependency>) -> Node {
    Node {
        id: id.to_string(),
        deps,
    }
}

const CRATES_IO: &str = "registry+https://github.com/rust-lang/crates.io-index";

fn workspace() -> Metadata {
    Metadata {
        packages: vec![
            package("root", "app", "0.1.0", None, CrateKind::Bin),
            package("z10", "zed", "0.10.0", Some(CRATES_IO), CrateKind::Other),
            package("z9", "zed", "0.9.0", Some(CRATES_IO), CrateKind::Other),
            package("mac", "mac", "1.0.0", Some("git+https://host/mac"), CrateKind::ProcMacro),
            package("dev", "dev", "1.0.0", Some(CRATES_IO), CrateKind::Other),
            package("bld", "bld", "1.0.0", Some(CRATES_IO), CrateKind::Other),
        ],
        workspace_members: vec!["root".to_string()],
        root: Some("root".to_string()),
        resolve: Some(vec![
            node(
                "root",
                vec![
                    dependency("z9", &[DependencyKind::Normal]),
                    dependency("mac", &[DependencyKind::Normal]),
                    dependency("dev", &[DependencyKind::Development]),
                    dependency("bld", &[DependencyKind::Build]),
                ],
            ),
            node("z9", vec![]),
            node("z10", vec![]),
            node("mac", vec![dependency("z10", &[DependencyKind::Normal])]),
            node("dev", vec![]),
            node(
                "bld",
                vec![
                    dependency("z9", &[DependencyKind::Normal]),
                    dependency("z10", &[DependencyKind::Development, DependencyKind::Build]),
                    dependency("z9", &[DependencyKind::Build]),
                ],
            ),
        ]),
        target_directory: "/t".to_string(),
    }
}

#[test]
fn the_list_is_sorted_by_name_and_version() {
    let metadata = workspace();
    let info = auditable_from_metadata(&metadata, &metadata.packages[0]).unwrap();
    assert_eq!(info.format, 1);
    let listed: Vec<(&str, &str)> = info
        .packages
        .iter()
        .map(|package| (package.name.as_str(), package.version.as_str()))
        .collect();
    assert_eq!(
        listed,
        vec![
            ("app", "0.1.0"),
            ("bld", "1.0.0"),
            ("mac", "1.0.0"),
            ("zed", "0.9.0"),
            ("zed", "0.10.0"),
        ]
    );
}

#[test]
fn the_list_tells_kinds_sources_and_dependencies() {
    let metadata = workspace();
    let info = auditable_from_metadata(&metadata, &metadata.packages[0]).unwrap();
    let kinds: Vec<Option<&str>> = info.packages.iter().map(|package| package.kind).collect();
    assert_eq!(
        kinds,
        vec![None, Some("build"), Some("build"), None, Some("build")]
    );
    let sources: Vec<&str> = info
        .packages
        .iter()
        .map(|package| package.source.as_str())
        .collect();
    assert_eq!(
        sources,
        vec!["local", "crates.io", "git", "crates.io", "crates.io"]
    );
    let roots: Vec<bool> = info.packages.iter().map(|package| package.root).collect();
    assert_eq!(roots, vec![true, false, false, false, false]);
    assert_eq!(info.packages[0].dependencies, vec![1, 2, 3]);
    assert_eq!(info.packages[1].dependencies, vec![3, 4]);
    assert_eq!(info.packages[2].dependencies, vec![4]);
    assert!(info.packages[3].dependencies.is_empty());
}

#[test]
fn cycles_of_dependencies_are_listed_once() {
    let mut metadata = workspace();
    if let Some(nodes) = &mut metadata.resolve {
        nodes[1].deps.push(dependency("root", &[DependencyKind::Normal]));
    }
    let info = auditable_from_metadata(&metadata, &metadata.packages[0]).unwrap();
    assert_eq!(info.packages.len(), 5);
    assert_eq!(info.packages[3].dependencies, vec![0]);
}

#[test]
fn a_graph_is_needed() {
    let mut metadata = workspace();
    metadata.resolve = None;
    assert_eq!(
        auditable_from_metadata(&metadata, &metadata.packages[0])
            .unwrap_err()
            .message(),
        "cargo metadata did not include dependency resolution"
    );
    metadata.resolve = Some(vec![node("z9", vec![])]);
    assert_eq!(
        auditable_from_metadata(&metadata, &metadata.packages[0])
            .unwrap_err()
            .message(),
        "selected package `app` is missing from dependency graph"
    );
}

#[test]
fn the_strongest_reason_for_a_dependency_counts() {
    assert_eq!(strongest_audit_dep_kind(&vec![]), AuditDepKind::Runtime);
    assert_eq!(
        strongest_audit_dep_kind(&vec![DependencyKind::Development]),
        AuditDepKind::Development
    );
    assert_eq!(
        strongest_audit_dep_kind(&vec![DependencyKind::Development, DependencyKind::Build]),
        AuditDepKind::Build
    );
    assert_eq!(
        strongest_audit_dep_kind(&vec![DependencyKind::Build, DependencyKind::Unknown]),
        AuditDepKind::Runtime
    );
}

#[test]
fn procedural_macros_have_one_target_of_that_kind() {
    let mut packages = workspace().packages;
    assert!(proc_macro_named(&packages, "mac"));
    assert!(!proc_macro_named(&packages, "z9"));
    assert!(!proc_macro_named(&packages, "nowhere"));
    packages[3].targets.push(PackageTarget {
        name: "more".to_string(),
        kinds: vec![CrateKind::Bin],
    });
    assert!(!proc_macro_named(&packages, "mac"));
}

#[test]
fn the_section_is_zlib_data() {
    let json = b"{\"packages\":[]}".repeat(20);
    let section = auditable_section(&json);
    assert!(section.len() < json.len());
    assert_eq!(
        miniz_oxide::inflate::decompress_to_vec_zlib(&section).unwrap(),
        json
    );
}

#[test]
fn the_object_is_elf_and_holds_the_section() {
    let object = auditable_object("aarch64-unknown-linux-musl", b"dependency list").unwrap();
    assert_eq!(&object[..4], b"\x7fELF");
    assert_eq!(object[18], 183);
    let holds = |part: &[u8]| object.windows(part.len()).any(|window| window == part);
    assert!(holds(b"dependency list"));
    assert!(holds(b".dep-v0"));
    assert!(holds(b"__cargo_sonic_auditable_dep_v0"));
    // The section header that holds the contents has no flags, so the section is not loaded.
    let number = |at: usize, len: usize| {
        object[at..at + len]
            .iter()
            .rev()
            .fold(0u64, |sum, byte| sum << 8 | u64::from(*byte))
    };
    let headers = number(40, 8) as usize;
    let found = (0..number(60, 2) as usize)
        .map(|index| headers + 64 * index)
        .find(|header| {
            let start = number(header + 24, 8) as usize;
            object[start..].starts_with(b"dependency list") && number(header + 32, 8) == 15
        })
        .unwrap();
    assert_eq!(number(found + 8, 8), 0);
    assert_eq!(number(found + 48, 8), 1);
    let x86 = auditable_object("x86_64-unknown-linux-gnu", b"x").unwrap();
    assert_eq!(x86[18], 62);
}

#[test]
fn other_targets_have_no_object() {
    assert_eq!(
        auditable_object("riscv64gc-unknown-linux-gnu", b"x")
            .unwrap_err()
            .message(),
        "auditable section is only supported for x86_64 and aarch64 targets"
    );
}
