use module_graph::deno::info::{
    BuiltInNodeModule, DenoInfo, EsmDependency, EsmDependencyCode, EsmModule, ExternalModule,
    Module, NpmModule, NpmPackage,
};
use module_graph::deno::media_type::MediaType;
use module_graph::graph::diagnostics::Diagnostic;
use module_graph::graph::{
    declares_global_import, path_is_rooted, subpath_of, GraphModule, ModuleGraph,
};
use module_graph::specifier::{MediaType as Kind, ModuleSpecifier};
use std::path::PathBuf;
use std::sync::Arc;

fn spec(text: &str) -> ModuleSpecifier {
    ModuleSpecifier::parse(text).unwrap()
}

fn dep(import: &str, target: Option<&str>) -> EsmDependency {
    EsmDependency {
        specifier: import.to_string(),
        code: target.map(|t| EsmDependencyCode { specifier: spec(t) }),
    }
}

fn esm(specifier: &str, dependencies: Vec<EsmDependency>) -> Module {
    Module::Esm(EsmModule {
        specifier: spec(specifier),
        media_type: MediaType { media_type: Kind::TypeScript },
        local: PathBuf::from("/unused"),
        dependencies,
    })
}

fn package(name: &str, version: &str, dependencies: &[&str]) -> NpmPackage {
    NpmPackage {
        name: name.to_string(),
        version: version.to_string(),
        dependencies: dependencies.iter().map(|d| d.to_string()).collect(),
        registry_url: spec("https://registry.npmjs.org/"),
    }
}

fn info(
    root: &str,
    modules: Vec<Module>,
    npm_packages: Vec<(String, NpmPackage)>,
    redirects: Vec<(&str, &str)>,
) -> DenoInfo {
    DenoInfo {
        version: 1,
        roots: vec![spec(root)],
        modules,
        npm_packages,
        packages: Vec::new(),
        redirects: redirects.into_iter().map(|(a, b)| (spec(a), spec(b))).collect(),
    }
}

fn built(info: DenoInfo) -> ModuleGraph {
    let mut graph = ModuleGraph::new();
    graph.build(info, PathBuf::from("/srv/app"));
    graph
}

#[test]
fn interning_is_idempotent() {
    let mut graph = ModuleGraph::new();
    let first = graph.as_arc(spec("file:///a.ts"));
    let other = graph.as_arc(spec("file:///b.ts"));
    let second = graph.as_arc(spec("file:///a.ts"));
    assert!(Arc::ptr_eq(&first, &second));
    assert!(!Arc::ptr_eq(&first, &other));
    assert_eq!(second.as_str(), "file:///a.ts");
}

#[test]
fn interning_the_specifier_of_a_module_yields_its_instance() {
    let mut graph = built(info("file:///srv/app/main.ts", vec![esm("file:///srv/app/main.ts", vec![])], vec![], vec![]));
    let root = graph.root_specifier().unwrap();
    let again = graph.as_arc(spec("file:///srv/app/main.ts"));
    assert_eq!(root.as_str(), again.as_str());
}

#[test]
fn new_graph_is_empty() {
    let graph = ModuleGraph::new();
    assert!(graph.root_specifier().is_none());
    assert!(graph.root().is_none());
    assert!(graph.get_module(&spec("file:///a.ts")).is_none());
    assert!(graph.get_npm_package("a@1").is_none());
    assert_eq!(graph.global_package_imports().len(), 0);
    assert_eq!(graph.root_dir(), &PathBuf::new());
}

#[test]
fn build_sets_root_and_root_dir() {
    let graph = built(info(
        "file:///srv/app/main.ts",
        vec![esm("file:///srv/app/main.ts", vec![])],
        vec![],
        vec![],
    ));
    assert_eq!(graph.root_dir(), &PathBuf::from("/srv/app"));
    assert_eq!(graph.root_specifier().unwrap().as_str(), "file:///srv/app/main.ts");
    let root = graph.root().unwrap();
    assert_eq!(root.specifier().as_str(), "file:///srv/app/main.ts");
    assert_eq!(root.local(), &PathBuf::from("/unused"));
    assert_eq!(root.lookup_table().unwrap().len(), 0);
}

#[test]
fn root_that_is_no_esm_module_is_absent() {
    let graph = built(info(
        "node:fs",
        vec![Module::Node(BuiltInNodeModule {
            specifier: spec("node:fs"),
            module_name: "fs".to_string(),
        })],
        vec![],
        vec![],
    ));
    assert_eq!(graph.root_specifier().unwrap().as_str(), "node:fs");
    assert!(graph.root().is_none());
    let unknown = built(info("file:///missing.ts", vec![], vec![], vec![]));
    assert!(unknown.root().is_none());
}

#[test]
fn modules_keep_their_kind() {
    let graph = built(info(
        "file:///srv/app/main.ts",
        vec![
            esm("file:///srv/app/main.ts", vec![]),
            Module::Npm(NpmModule {
                specifier: spec("npm:/react@18.2.0/index.js"),
                npm_package: "react@18.2.0".to_string(),
            }),
            Module::Npm(NpmModule {
                specifier: spec("npm:/missing@1.0.0"),
                npm_package: "missing@1.0.0".to_string(),
            }),
            Module::Node(BuiltInNodeModule {
                specifier: spec("node:fs"),
                module_name: "fs".to_string(),
            }),
            Module::External(ExternalModule { specifier: spec("https://x.test/y.js") }),
        ],
        vec![("react@18.2.0".to_string(), package("react", "18.2.0", &[]))],
        vec![],
    ));
    let main = graph.get_module(&spec("file:///srv/app/main.ts")).unwrap();
    assert!(main.esm().is_some());
    assert!(main.npm().is_none());
    assert!(main.virtual_module().is_none());
    assert_eq!(main.specifier().as_str(), "file:///srv/app/main.ts");
    let react = graph.get_module(&spec("npm:/react@18.2.0/index.js")).unwrap();
    let import = react.npm().unwrap();
    assert_eq!(import.package().name, "react");
    assert_eq!(import.package().version, "18.2.0");
    assert_eq!(import.specifier().as_str(), "npm:/react@18.2.0/index.js");
    assert!(react.esm().is_none());
    assert!(graph.get_module(&spec("npm:/missing@1.0.0")).is_none());
    let fs = graph.get_module(&spec("node:fs")).unwrap();
    assert_eq!(fs.virtual_module().unwrap().specifier().as_str(), "node:fs");
    assert!(matches!(fs, GraphModule::Virtual(_)));
    let external = graph.get_module(&spec("https://x.test/y.js")).unwrap();
    assert!(external.virtual_module().is_some());
}

#[test]
fn later_module_replaces_earlier_one_with_the_same_specifier() {
    let graph = built(info(
        "file:///a.ts",
        vec![
            esm("file:///a.ts", vec![]),
            Module::External(ExternalModule { specifier: spec("file:///a.ts") }),
        ],
        vec![],
        vec![],
    ));
    assert!(graph.get_module(&spec("file:///a.ts")).unwrap().virtual_module().is_some());
}

#[test]
fn redirects_are_followed_to_a_module() {
    let graph = built(info(
        "file:///a.ts",
        vec![esm("file:///a.ts", vec![])],
        vec![],
        vec![("https://x.test/one", "https://x.test/two"), ("https://x.test/two", "file:///a.ts")],
    ));
    assert!(graph.get_module(&spec("https://x.test/one")).is_none());
    let found = graph.get_module_with_redirect(&spec("https://x.test/one"), 0).unwrap();
    assert_eq!(found.specifier().as_str(), "file:///a.ts");
    assert!(graph.get_module_with_redirect(&spec("https://x.test/none"), 0).is_none());
    assert!(graph.get_module_with_redirect(&spec("file:///a.ts"), 10).is_some());
}

#[test]
fn redirect_cycle_reports_not_found() {
    let graph = built(info(
        "file:///a.ts",
        vec![esm("file:///a.ts", vec![])],
        vec![],
        vec![
            ("https://x.test/1", "https://x.test/2"),
            ("https://x.test/2", "https://x.test/3"),
            ("https://x.test/3", "https://x.test/1"),
            ("https://x.test/self", "https://x.test/self"),
        ],
    ));
    assert!(graph.get_module_with_redirect(&spec("https://x.test/1"), 0).is_none());
    assert!(graph.get_module_with_redirect(&spec("https://x.test/2"), 0).is_none());
    assert!(graph.get_module_with_redirect(&spec("https://x.test/self"), 0).is_none());
}

fn chain(length: usize) -> ModuleGraph {
    let mut redirects: Vec<(String, String)> = Vec::new();
    for i in 0..length {
        let to = if i + 1 == length {
            "file:///end.ts".to_string()
        } else {
            format!("https://x.test/{}", i + 1)
        };
        redirects.push((format!("https://x.test/{}", i), to));
    }
    let mut graph = ModuleGraph::new();
    graph.build(
        DenoInfo {
            version: 1,
            roots: vec![spec("file:///end.ts")],
            modules: vec![esm("file:///end.ts", vec![])],
            npm_packages: Vec::new(),
            packages: Vec::new(),
            redirects: redirects.iter().map(|(a, b)| (spec(a), spec(b))).collect(),
        },
        PathBuf::new(),
    );
    graph
}

#[test]
fn ten_redirects_are_followed_and_no_more() {
    let ten = chain(10);
    assert!(ten.get_module_with_redirect(&spec("https://x.test/0"), 0).is_some());
    assert!(ten.get_module_with_redirect(&spec("https://x.test/0"), 1).is_none());
    let eleven = chain(11);
    assert!(eleven.get_module_with_redirect(&spec("https://x.test/0"), 0).is_none());
    assert!(eleven.get_module_with_redirect(&spec("https://x.test/1"), 0).is_some());
}

#[test]
fn linking_resolves_declared_dependencies() {
    let graph = built(info(
        "file:///srv/app/main.ts",
        vec![
            esm(
                "file:///srv/app/main.ts",
                vec![
                    dep("./a.ts", Some("file:///srv/app/a.ts")),
                    dep("./types.d.ts", None),
                    dep("./gone.ts", Some("file:///srv/app/gone.ts")),
                    dep("old", Some("https://x.test/old")),
                ],
            ),
            esm("file:///srv/app/a.ts", vec![dep("./main.ts", Some("file:///srv/app/main.ts"))]),
            esm("https://x.test/new", vec![]),
        ],
        vec![],
        vec![("https://x.test/old", "https://x.test/new")],
    ));
    let main = graph.root().unwrap();
    assert_eq!(main.lookup_import("./a.ts").unwrap().as_str(), "file:///srv/app/a.ts");
    assert_eq!(main.lookup_import("old").unwrap().as_str(), "https://x.test/new");
    assert!(main.lookup_import("./types.d.ts").is_none());
    assert!(main.lookup_import("./gone.ts").is_none());
    assert!(main.lookup_import("./other.ts").is_none());
    let table = main.lookup_table().unwrap();
    assert_eq!(table.len(), 2);
    assert_eq!(table.key_at(0), "./a.ts");
    assert_eq!(table.key_at(1), "old");
    let a = graph.get_module(&spec("file:///srv/app/a.ts")).unwrap().esm().unwrap();
    assert_eq!(a.lookup_import("./main.ts").unwrap().as_str(), "file:///srv/app/main.ts");
}

#[test]
fn bare_imports_of_local_modules_become_global() {
    let graph = built(info(
        "file:///srv/app/main.ts",
        vec![
            esm(
                "file:///srv/app/main.ts",
                vec![
                    dep("react", Some("npm:/react@18.2.0")),
                    dep("./a.ts", Some("file:///srv/app/a.ts")),
                    dep("../up.ts", Some("file:///srv/app/a.ts")),
                    dep("unknown", Some("npm:/unknown@1.0.0")),
                ],
            ),
            esm("file:///srv/app/a.ts", vec![]),
            esm("https://x.test/remote.ts", vec![dep("preact", Some("file:///srv/app/a.ts"))]),
            Module::Npm(NpmModule {
                specifier: spec("npm:/react@18.2.0"),
                npm_package: "react@18.2.0".to_string(),
            }),
        ],
        vec![("react@18.2.0".to_string(), package("react", "18.2.0", &[]))],
        vec![],
    ));
    let globals = graph.global_package_imports();
    assert_eq!(globals.len(), 1);
    assert_eq!(globals.get("react").unwrap().as_str(), "npm:/react@18.2.0");
    assert!(globals.get("./a.ts").is_none());
    assert!(globals.get("../up.ts").is_none());
    assert!(globals.get("preact").is_none());
    assert!(globals.get("unknown").is_none());
}

#[test]
fn registry_resolves_known_dependencies_only() {
    let graph = built(info(
        "file:///main.ts",
        vec![],
        vec![
            ("root@1.0.0".to_string(), package("root", "1.0.0", &["a", "b"])),
            ("a".to_string(), package("a", "2.0.0", &[])),
        ],
        vec![],
    ));
    let root = graph.get_npm_package("root@1.0.0").unwrap();
    let dependencies = root.dependencies();
    assert_eq!(dependencies.len(), 1);
    assert_eq!(dependencies[0].name, "a");
    assert_eq!(dependencies[0].version, "2.0.0");
    assert_eq!(root.id().name, "root");
    assert_eq!(root.id().version, "1.0.0");
    assert_eq!(root.registry_url().as_str(), "https://registry.npmjs.org/");
    assert!(graph.get_npm_package("b").is_none());
}

#[test]
fn registry_keeps_a_package_under_both_keys() {
    let graph = built(info(
        "file:///main.ts",
        vec![],
        vec![
            ("react@18.2.0_peer".to_string(), package("react", "18.2.0", &["loose-envify@1.4.0"])),
            ("loose-envify@1.4.0".to_string(), package("loose-envify", "1.4.0", &[])),
        ],
        vec![],
    ));
    let long = graph.get_npm_package("react@18.2.0_peer").unwrap();
    let short = graph.get_npm_package("react@18.2.0").unwrap();
    assert_eq!(long.id().to_string(), "react@18.2.0");
    assert_eq!(short.id().to_string(), "react@18.2.0");
    assert_eq!(long.dependencies().len(), 1);
    assert_eq!(short.dependencies().len(), 1);
    assert_eq!(short.dependencies()[0].to_string(), "loose-envify@1.4.0");
    assert!(graph.get_npm_package("react").is_none());
}

#[test]
fn single_steps_match_build() {
    let mut graph = ModuleGraph::new();
    graph.register_package("a@1.0.0".to_string(), package("a", "1.0.0", &["a@1.0.0"]));
    assert!(graph.get_npm_package("a@1.0.0").unwrap().dependencies().is_empty());
    graph.link_packages();
    assert_eq!(graph.get_npm_package("a@1.0.0").unwrap().dependencies().len(), 1);
    graph.insert_module(esm("file:///srv/app/main.ts", vec![dep("x", Some("https://x.test/x"))]));
    graph.set_root(spec("file:///srv/app/main.ts"));
    graph.insert_redirect(spec("https://x.test/x"), spec("file:///srv/app/main.ts"));
    assert!(graph.root().unwrap().lookup_table().is_none());
    assert!(graph.root().unwrap().lookup_import("x").is_none());
    assert!(!graph.root().unwrap().is_linked());
    assert!(!graph.is_linked());
    graph.link_modules();
    assert!(graph.is_linked());
    assert!(graph.root().unwrap().is_linked());
    assert_eq!(graph.root().unwrap().lookup_import("x").unwrap().as_str(), "file:///srv/app/main.ts");
    assert_eq!(graph.global_package_imports().get("x").unwrap().as_str(), "file:///srv/app/main.ts");
    graph.link_modules();
    assert_eq!(graph.root().unwrap().lookup_table().unwrap().len(), 1);
}

fn import_of(path: &str) -> String {
    let graph = built(info(
        "file:///main.ts",
        vec![Module::Npm(NpmModule {
            specifier: spec(&format!("npm:{}", path)),
            npm_package: "p".to_string(),
        })],
        vec![("p".to_string(), package("pkg", "1.0.0", &[]))],
        vec![],
    ));
    let module = graph.get_module(&spec(&format!("npm:{}", path))).unwrap();
    let import = module.npm().unwrap();
    assert!(import.has_rooted_path());
    import.subpath()
}

#[test]
fn subpath_skips_the_package_name() {
    assert_eq!(import_of("/@scope/pkg/lib/x.js"), "lib/x.js");
    assert_eq!(import_of("/pkg/lib/x.js"), "lib/x.js");
    assert_eq!(import_of("/@scope/pkg"), "");
    assert_eq!(import_of("/pkg"), "");
    assert_eq!(import_of("/pkg/"), "");
    assert_eq!(import_of("/pkg@1.0.0/index.js"), "index.js");
    assert_eq!(import_of("/@scope/pkg@1.0.0/a/b/c.js"), "a/b/c.js");
    assert_eq!(import_of("/pkg//x"), "/x");
}

#[test]
fn unrooted_package_path_is_told_apart() {
    let graph = built(info(
        "file:///main.ts",
        vec![Module::Npm(NpmModule {
            specifier: spec("npm:react@18.2.0"),
            npm_package: "p".to_string(),
        })],
        vec![("p".to_string(), package("react", "18.2.0", &[]))],
        vec![],
    ));
    let module = graph.get_module(&spec("npm:react@18.2.0")).unwrap();
    assert!(!module.npm().unwrap().has_rooted_path());
}

#[test]
fn subpath_of_a_plain_path() {
    assert_eq!(subpath_of("/@scope/pkg/lib/x.js"), "lib/x.js");
    assert_eq!(subpath_of("/pkg/lib/x.js"), "lib/x.js");
    assert_eq!(subpath_of("/@scope/pkg"), "");
    assert_eq!(subpath_of(""), "");
    assert_eq!(subpath_of("/"), "");
    assert_eq!(subpath_of("/@"), "");
    assert_eq!(subpath_of("/a/@b/c"), "@b/c");
    assert!(path_is_rooted(""));
    assert!(path_is_rooted("/a"));
    assert!(!path_is_rooted("a/b"));
}

#[test]
fn only_bare_imports_of_files_are_global() {
    assert!(declares_global_import("file", "react"));
    assert!(declares_global_import("file", "@scope/pkg"));
    assert!(declares_global_import("file", "/abs.ts"));
    assert!(declares_global_import("file", ""));
    assert!(!declares_global_import("file", "./a.ts"));
    assert!(!declares_global_import("file", "../a.ts"));
    assert!(!declares_global_import("file", ".hidden"));
    assert!(!declares_global_import("https", "react"));
    assert!(!declares_global_import("File", "react"));
}

#[test]
fn build_reports_what_it_could_not_resolve() {
    let mut graph = ModuleGraph::new();
    let report = graph.build(
        info(
            "file:///srv/app/main.ts",
            vec![
                Module::Npm(NpmModule {
                    specifier: spec("npm:/missing@1.0.0"),
                    npm_package: "missing@1.0.0".to_string(),
                }),
                esm(
                    "file:///srv/app/main.ts",
                    vec![
                        dep("./a.ts", Some("file:///srv/app/a.ts")),
                        dep("./gone.ts", Some("file:///srv/app/gone.ts")),
                        dep("./types.d.ts", None),
                    ],
                ),
                esm("file:///srv/app/a.ts", vec![]),
            ],
            vec![
                ("root@1.0.0".to_string(), package("root", "1.0.0", &["a", "b"])),
                ("a".to_string(), package("a", "2.0.0", &[])),
            ],
            vec![],
        ),
        PathBuf::from("/srv/app"),
    );
    let lines: Vec<String> = report.iter().map(|d| d.message()).collect();
    assert_eq!(
        lines,
        vec![
            "Failed to resolve dependency b from root@1.0.0".to_string(),
            "Failed to resolve NPM module missing@1.0.0 for npm:/missing@1.0.0, unknown reference"
                .to_string(),
            "Failed to resolve dependency source file:///srv/app/gone.ts for ./gone.ts of file:///srv/app/main.ts"
                .to_string(),
        ]
    );
    assert!(matches!(
        &report[0],
        Diagnostic::UnresolvedPackageDependency { dependency, package }
            if dependency == "b" && package.name == "root" && package.version == "1.0.0"
    ));
    assert_eq!(graph.get_npm_package("root@1.0.0").unwrap().dependencies().len(), 1);
}

#[test]
fn build_without_gaps_reports_nothing() {
    let mut graph = ModuleGraph::new();
    let report = graph.build(
        info(
            "file:///a.ts",
            vec![esm("file:///a.ts", vec![dep("./a.ts", Some("file:///a.ts"))])],
            vec![("a@1.0.0".to_string(), package("a", "1.0.0", &["a@1.0.0"]))],
            vec![],
        ),
        PathBuf::from("/"),
    );
    assert!(report.is_empty());
}

#[test]
fn redirect_limit_is_reported() {
    let eleven = chain(11);
    assert_eq!(
        eleven.redirect_limit_reached(&spec("https://x.test/0"), 0),
        Some("https://x.test/10".to_string())
    );
    assert_eq!(eleven.redirect_limit_reached(&spec("https://x.test/1"), 0), None);
    assert_eq!(eleven.redirect_limit_reached(&spec("https://x.test/none"), 0), None);
    assert_eq!(eleven.redirect_limit_reached(&spec("file:///end.ts"), 10), None);
    let mut graph = ModuleGraph::new();
    let report = graph.build(
        info(
            "file:///a.ts",
            vec![esm("file:///a.ts", vec![dep("loop", Some("https://x.test/self"))])],
            vec![],
            vec![("https://x.test/self", "https://x.test/self")],
        ),
        PathBuf::from("/"),
    );
    let lines: Vec<String> = report.iter().map(|d| d.message()).collect();
    assert_eq!(
        lines,
        vec![
            "Redirect limit reached for https://x.test/self".to_string(),
            "Failed to resolve dependency source https://x.test/self for loop of file:///a.ts"
                .to_string(),
        ]
    );
}

#[test]
fn interned_instance_names_the_url_asked_for() {
    let mut graph = built(info(
        "file:///srv/app/main.ts",
        vec![esm("file:///srv/app/main.ts", vec![])],
        vec![],
        vec![("https://x.test/a", "https://x.test/b")],
    ));
    for url in ["file:///srv/app/main.ts", "https://x.test/a", "https://x.test/b", "https://x.test/c"] {
        let first = graph.as_arc(spec(url));
        let second = graph.as_arc(spec(url));
        assert_eq!(first.as_str(), url);
        assert!(Arc::ptr_eq(&first, &second));
    }
}

#[test]
fn entering_an_unknown_package_is_reported() {
    let mut graph = ModuleGraph::new();
    let report = graph.insert_module(Module::Npm(NpmModule {
        specifier: spec("npm:/x@1.0.0"),
        npm_package: "x@1.0.0".to_string(),
    }));
    assert_eq!(report.len(), 1);
    assert_eq!(
        report[0].message(),
        "Failed to resolve NPM module x@1.0.0 for npm:/x@1.0.0, unknown reference"
    );
    assert!(graph.insert_module(esm("file:///a.ts", vec![])).is_empty());
}
