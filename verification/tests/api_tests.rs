use module_graph::api::{
    find_esm_module, get_module_lookup_table, get_npm_metadata, transform_outcome,
    unreadable_module, BAD_REQUEST, INTERNAL_SERVER_ERROR, NOT_FOUND,
};
use module_graph::deno::info::{
    BuiltInNodeModule, DenoInfo, EsmDependency, EsmDependencyCode, EsmModule, Module, NpmPackage,
};
use module_graph::deno::media_type::MediaType;
use module_graph::graph::ModuleGraph;
use module_graph::npm::id::NPMPackageId;
use module_graph::specifier::{MediaType as Kind, ModuleSpecifier};
use module_graph::transpiler::transform::TransformResult;
use std::path::PathBuf;

fn spec(text: &str) -> ModuleSpecifier {
    ModuleSpecifier::parse(text).unwrap()
}

fn graph() -> ModuleGraph {
    let mut graph = ModuleGraph::new();
    graph.build(
        DenoInfo {
            version: 1,
            roots: vec![spec("file:///srv/main.ts")],
            modules: vec![
                Module::Esm(EsmModule {
                    specifier: spec("file:///srv/main.ts"),
                    media_type: MediaType { media_type: Kind::TypeScript },
                    local: PathBuf::from("/srv/main.ts"),
                    dependencies: vec![
                        EsmDependency {
                            specifier: "node:fs".to_string(),
                            code: Some(EsmDependencyCode { specifier: spec("node:fs") }),
                        },
                        EsmDependency {
                            specifier: "./main.ts".to_string(),
                            code: Some(EsmDependencyCode { specifier: spec("file:///srv/main.ts") }),
                        },
                    ],
                }),
                Module::Node(BuiltInNodeModule {
                    specifier: spec("node:fs"),
                    module_name: "fs".to_string(),
                }),
            ],
            npm_packages: vec![
                (
                    "a@1.0.0".to_string(),
                    NpmPackage {
                        name: "a".to_string(),
                        version: "1.0.0".to_string(),
                        dependencies: vec!["b@2.0.0".to_string(), "c@3.0.0".to_string()],
                        registry_url: spec("https://registry.npmjs.org/"),
                    },
                ),
                (
                    "b@2.0.0".to_string(),
                    NpmPackage {
                        name: "b".to_string(),
                        version: "2.0.0".to_string(),
                        dependencies: Vec::new(),
                        registry_url: spec("https://registry.npmjs.org/"),
                    },
                ),
            ],
            packages: Vec::new(),
            redirects: Vec::new(),
        },
        PathBuf::from("/srv"),
    );
    graph
}

#[test]
fn lookup_table_names_targets_by_url() {
    let graph = graph();
    let response = get_module_lookup_table(&graph, Some("file:///srv/main.ts")).unwrap();
    assert_eq!(response.table.len(), 2);
    assert_eq!(response.table.key_at(0), "node:fs");
    assert_eq!(response.table.get("node:fs"), Some(&"node:fs".to_string()));
    assert_eq!(response.table.get("./main.ts"), Some(&"file:///srv/main.ts".to_string()));
}

#[test]
fn lookup_table_needs_a_module_name() {
    let failure = get_module_lookup_table(&graph(), None).unwrap_err();
    assert_eq!(failure.status, BAD_REQUEST);
    assert_eq!(failure.status, 400);
    assert_eq!(failure.body.error, "No module specified");
    assert_eq!(failure.body.description, None);
}

#[test]
fn lookup_table_refuses_a_malformed_name() {
    let failure = get_module_lookup_table(&graph(), Some("no url")).unwrap_err();
    assert_eq!(failure.status, 400);
    assert_eq!(failure.body.error, "Invalid module specifier");
    assert_eq!(failure.body.description, Some("relative URL without a base".to_string()));
}

#[test]
fn lookup_table_of_an_unknown_module_is_not_found() {
    let failure = get_module_lookup_table(&graph(), Some("file:///srv/other.ts")).unwrap_err();
    assert_eq!(failure.status, NOT_FOUND);
    assert_eq!(failure.status, 404);
    assert_eq!(failure.body.error, "Module not found");
    assert_eq!(failure.body.description, Some("file:///srv/other.ts".to_string()));
}

#[test]
fn lookup_table_of_a_virtual_module_is_not_found() {
    let failure = get_module_lookup_table(&graph(), Some("node:fs")).unwrap_err();
    assert_eq!(failure.status, 404);
    assert_eq!(failure.body.error, "Specifier exists, but points to a non-esm module");
    assert_eq!(failure.body.description, Some("node:fs".to_string()));
}

#[test]
fn transform_finds_esm_modules_only() {
    let graph = graph();
    let found = find_esm_module(&graph, &spec("file:///srv/main.ts")).unwrap();
    assert_eq!(found.local(), &PathBuf::from("/srv/main.ts"));
    let missing = find_esm_module(&graph, &spec("file:///srv/other.ts")).unwrap_err();
    assert_eq!(missing.status, 404);
    assert_eq!(missing.body.error, "Module not found");
    assert_eq!(missing.body.description, Some("file:///srv/other.ts".to_string()));
    let wrong = find_esm_module(&graph, &spec("node:fs")).unwrap_err();
    assert_eq!(wrong.status, 404);
    assert_eq!(wrong.body.error, "Module is not an ESM module");
    assert_eq!(wrong.body.description, Some("node:fs".to_string()));
}

#[test]
fn unreadable_module_is_a_bad_request() {
    let failure = unreadable_module("No such file".to_string());
    assert_eq!(failure.status, 400);
    assert_eq!(failure.body.error, "Failed to read module file");
    assert_eq!(failure.body.description, Some("No such file".to_string()));
}

#[test]
fn transform_without_result_is_a_server_error() {
    let failure = transform_outcome(None).unwrap_err();
    assert_eq!(failure.status, INTERNAL_SERVER_ERROR);
    assert_eq!(failure.status, 500);
    assert_eq!(failure.body.error, "Failed to transform module");
    assert_eq!(failure.body.description, None);
    let output = transform_outcome(Some(TransformResult {
        code: "a".to_string(),
        source_map: "b".to_string(),
    }))
    .unwrap();
    assert_eq!(output.result.code, "a");
    assert_eq!(output.result.source_map, "b");
}

#[test]
fn metadata_lists_resolved_dependencies() {
    let graph = graph();
    let id = NPMPackageId { name: "a".to_string(), version: "1.0.0".to_string() };
    let response = get_npm_metadata(&graph, &id).unwrap();
    assert_eq!(response.registry_url.as_str(), "https://registry.npmjs.org/");
    assert_eq!(response.dependencies.len(), 1);
    assert_eq!(response.dependencies[0].to_string(), "b@2.0.0");
    let unknown = NPMPackageId { name: "c".to_string(), version: "3.0.0".to_string() };
    let failure = get_npm_metadata(&graph, &unknown).unwrap_err();
    assert_eq!(failure.status, 404);
    assert_eq!(failure.body.error, "Package not found");
    assert_eq!(failure.body.description, None);
}
