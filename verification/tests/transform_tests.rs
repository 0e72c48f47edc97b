use module_graph::deno::info::{
    BuiltInNodeModule, DenoInfo, EsmDependency, EsmDependencyCode, EsmModule, Module, NpmModule,
    NpmPackage,
};
use module_graph::deno::media_type::MediaType;
use module_graph::graph::ModuleGraph;
use module_graph::specifier::{MediaType as Kind, ModuleSpecifier};
use module_graph::transpiler::transform::{
    error_import_path, file_module_path, locate_file, module_import_path, package_import_path,
    safe_strip_prefix, scheme_kind, served_path, FileTarget, SchemeKind, ImportResolver, ModuleDecl, Pass,
    TransformOptions, TransformResult, JSX_IMPORT_SOURCE, SOURCE_MAP_MARKER,
};
use std::path::PathBuf;
use std::sync::Arc;

fn spec(text: &str) -> ModuleSpecifier {
    ModuleSpecifier::parse(text).unwrap()
}

fn dep(import: &str, target: &str) -> EsmDependency {
    EsmDependency {
        specifier: import.to_string(),
        code: Some(EsmDependencyCode { specifier: spec(target) }),
    }
}

fn esm(specifier: &str, dependencies: Vec<EsmDependency>) -> Module {
    Module::Esm(EsmModule {
        specifier: spec(specifier),
        media_type: MediaType { media_type: Kind::TypeScript },
        local: PathBuf::from("/unused"),
        dependencies,
    })
}

fn npm(specifier: &str, package: &str) -> Module {
    Module::Npm(NpmModule { specifier: spec(specifier), npm_package: package.to_string() })
}

fn package(name: &str, version: &str) -> NpmPackage {
    NpmPackage {
        name: name.to_string(),
        version: version.to_string(),
        dependencies: Vec::new(),
        registry_url: spec("https://registry.npmjs.org/"),
    }
}

fn sample_graph() -> Arc<ModuleGraph> {
    let mut graph = ModuleGraph::new();
    graph.build(
        DenoInfo {
            version: 1,
            roots: vec![spec("file:///srv/app/src/main.ts")],
            modules: vec![
                esm(
                    "file:///srv/app/src/main.ts",
                    vec![
                        dep("./a.ts", "file:///srv/app/src/a.ts"),
                        dep("react", "npm:/react@18.2.0"),
                        dep("@preact/signals/hooks", "npm:/@preact/signals@1.2.3/dist/hooks.js"),
                        dep("/etc/outside.ts", "file:///etc/outside.ts"),
                        dep("https://x.test/lib.ts", "https://x.test/lib.ts"),
                        dep("http://x.test/lib.ts", "http://x.test/lib.ts"),
                        dep("node:fs", "node:fs"),
                        dep("data", "data:text/javascript,export%20default%201"),
                        dep("./gone.ts", "file:///srv/app/src/gone.ts"),
                        dep("remote-host", "file://remote.test/srv/x.ts"),
                    ],
                ),
                esm("file:///srv/app/src/a.ts", vec![]),
                esm("file:///etc/outside.ts", vec![]),
                esm("https://x.test/lib.ts", vec![]),
                esm("http://x.test/lib.ts", vec![]),
                esm("data:text/javascript,export%20default%201", vec![]),
                esm("file://remote.test/srv/x.ts", vec![]),
                npm("npm:/react@18.2.0", "react@18.2.0"),
                npm("npm:/@preact/signals@1.2.3/dist/hooks.js", "@preact/signals@1.2.3"),
                Module::Node(BuiltInNodeModule {
                    specifier: spec("node:fs"),
                    module_name: "fs".to_string(),
                }),
            ],
            npm_packages: vec![
                ("react@18.2.0".to_string(), package("react", "18.2.0")),
                ("@preact/signals@1.2.3".to_string(), package("@preact/signals", "1.2.3")),
            ],
            packages: Vec::new(),
            redirects: Vec::new(),
        },
        PathBuf::from("/srv/app"),
    );
    Arc::new(graph)
}

fn resolver_for(module: &str) -> ImportResolver {
    ImportResolver { graph: sample_graph(), module: Arc::new(spec(module)) }
}

#[test]
fn relative_import_becomes_root_relative_path() {
    let resolver = resolver_for("file:///srv/app/src/main.ts");
    assert!(resolver.accepts("./a.ts"));
    let rewrite = resolver.resolve_import("./a.ts");
    assert_eq!(rewrite.specifier, "/src/a.ts");
    assert_eq!(rewrite.comment, " import \"./a.ts\";");
}

#[test]
fn separators_of_a_relative_path_are_normalized() {
    let specifier = spec("file:///srv/app/src/a.ts");
    let inside = FileTarget::Inside("frontend\\app\\App.tsx".to_string());
    assert_eq!(file_module_path(&inside, &specifier), "/frontend/app/App.tsx");
    assert_eq!(
        file_module_path(&FileTarget::Outside, &specifier),
        "/@module/file%3A%2F%2F%2Fsrv%2Fapp%2Fsrc%2Fa.ts"
    );
    assert_eq!(file_module_path(&FileTarget::Invalid, &specifier), "/@module/error/invalid-file-url");
}

#[test]
fn file_outside_the_root_is_served_by_its_specifier() {
    let resolver = resolver_for("file:///srv/app/src/main.ts");
    assert_eq!(
        resolver.resolve_import("/etc/outside.ts").specifier,
        "/@module/file%3A%2F%2F%2Fetc%2Foutside.ts"
    );
}

#[test]
fn file_on_a_remote_host_is_an_invalid_file_url() {
    let resolver = resolver_for("file:///srv/app/src/main.ts");
    assert_eq!(resolver.resolve_import("remote-host").specifier, "/@module/error/invalid-file-url");
}

#[test]
fn remote_module_is_served_by_its_specifier() {
    let resolver = resolver_for("file:///srv/app/src/main.ts");
    assert_eq!(
        resolver.resolve_import("https://x.test/lib.ts").specifier,
        "/@module/https%3A%2F%2Fx.test%2Flib.ts"
    );
    assert_eq!(
        resolver.resolve_import("http://x.test/lib.ts").specifier,
        "/@module/http%3A%2F%2Fx.test%2Flib.ts"
    );
}

#[test]
fn esm_module_of_another_scheme_is_an_error() {
    let resolver = resolver_for("file:///srv/app/src/main.ts");
    assert_eq!(
        resolver.resolve_import("data").specifier,
        "/@module/error/Unsupported%20scheme%20for%20ESM%20Import"
    );
}

#[test]
fn package_import_names_package_version_and_subpath() {
    let resolver = resolver_for("file:///srv/app/src/main.ts");
    assert_eq!(resolver.resolve_import("react").specifier, "/@npm/react/18.2.0");
    assert_eq!(
        resolver.resolve_import("@preact/signals/hooks").specifier,
        "/@npm/%40preact%2Fsignals/1.2.3/dist%2Fhooks.js"
    );
    assert_eq!(package_import_path("a b", "1.0.0", ""), "/@npm/a%20b/1.0.0");
    assert_eq!(package_import_path("a", "1.0.0", "x/y.js"), "/@npm/a/1.0.0/x%2Fy.js");
}

#[test]
fn virtual_module_is_served_by_its_specifier() {
    let resolver = resolver_for("file:///srv/app/src/main.ts");
    assert_eq!(resolver.resolve_import("node:fs").specifier, "/@module/node%3Afs");
}

#[test]
fn bare_import_falls_back_to_global_imports() {
    let resolver = resolver_for("file:///srv/app/src/a.ts");
    let found = resolver.resolve("react").unwrap();
    assert_eq!(found.specifier().as_str(), "npm:/react@18.2.0");
    let rewrite = resolver.resolve_import("react");
    assert_eq!(rewrite.specifier, "/@npm/react/18.2.0");
    assert_eq!(rewrite.comment, " import \"react\";");
    assert!(rewrite.tried_fallback);
    assert!(resolver.resolve_own("react").is_none());
    let own = resolver_for("file:///srv/app/src/main.ts");
    assert!(!own.resolve_import("react").tried_fallback);
    assert!(own.resolve_own("react").is_some());
    assert!(own.resolve_import("./gone.ts").tried_fallback);
    let stranger = resolver_for("file:///not/in/graph.ts");
    assert_eq!(stranger.resolve_import("react").specifier, "/@npm/react/18.2.0");
}

#[test]
fn relative_import_does_not_fall_back() {
    let resolver = resolver_for("file:///srv/app/src/a.ts");
    assert!(resolver.resolve("./a.ts").is_none());
}

#[test]
fn unresolved_import_becomes_an_error_path() {
    let resolver = resolver_for("file:///srv/app/src/main.ts");
    assert!(resolver.accepts("./gone.ts"));
    let rewrite = resolver.resolve_import("./gone.ts");
    assert_eq!(
        rewrite.specifier,
        "/@module/error/Failed%20to%20resolve%20import%20.%2Fgone.ts"
    );
    assert_eq!(rewrite.comment, " import \"./gone.ts\";");
    let unknown = resolver.resolve_import("never \"declared\"");
    assert_eq!(
        unknown.specifier,
        "/@module/error/Failed%20to%20resolve%20import%20never%20%22declared%22"
    );
    assert_eq!(unknown.comment, " import \"never \"declared\"\";");
}

#[test]
fn encoding_keeps_unreserved_bytes_only() {
    assert_eq!(module_import_path("AZaz09-._~"), "/@module/AZaz09-._~");
    assert_eq!(module_import_path(" /:@%\\"), "/@module/%20%2F%3A%40%25%5C");
    assert_eq!(module_import_path("\u{e9}\u{20ac}"), "/@module/%C3%A9%E2%82%AC");
    assert_eq!(module_import_path(""), "/@module/");
    assert_eq!(error_import_path("a b"), "/@module/error/a%20b");
}

#[test]
fn unrooted_package_import_is_not_accepted() {
    let mut graph = ModuleGraph::new();
    graph.build(
        DenoInfo {
            version: 1,
            roots: vec![spec("file:///main.ts")],
            modules: vec![
                esm("file:///main.ts", vec![dep("react", "npm:react@18.2.0")]),
                npm("npm:react@18.2.0", "react@18.2.0"),
            ],
            npm_packages: vec![("react@18.2.0".to_string(), package("react", "18.2.0"))],
            packages: Vec::new(),
            redirects: Vec::new(),
        },
        PathBuf::from("/"),
    );
    let resolver = ImportResolver { graph: Arc::new(graph), module: Arc::new(spec("file:///main.ts")) };
    assert!(!resolver.accepts("react"));
    assert!(resolver.accepts("./other.ts"));
}

#[test]
fn served_path_of_a_module() {
    let graph = sample_graph();
    let module = graph.get_module(&spec("file:///srv/app/src/a.ts")).unwrap();
    assert_eq!(served_path(module, &PathBuf::from("/srv/app")), "/src/a.ts");
    assert_eq!(served_path(module, &PathBuf::from("/srv/app/src/../src")), "/a.ts");
    assert_eq!(
        served_path(module, &PathBuf::from("/other")),
        "/@module/file%3A%2F%2F%2Fsrv%2Fapp%2Fsrc%2Fa.ts"
    );
}

#[test]
fn safe_strip_prefix_cleans_both_paths() {
    assert_eq!(
        safe_strip_prefix(&PathBuf::from("/a/b/../c/d.ts"), &PathBuf::from("/a/./c")),
        Some(PathBuf::from("d.ts"))
    );
    assert_eq!(safe_strip_prefix(&PathBuf::from("/a/b/../c"), &PathBuf::from("/a/b")), None);
    assert_eq!(
        safe_strip_prefix(&PathBuf::from("/a/b"), &PathBuf::from("/a/b")),
        Some(PathBuf::from(""))
    );
    assert_eq!(safe_strip_prefix(&PathBuf::from("/ab/c"), &PathBuf::from("/a")), None);
}

#[test]
fn locate_file_tells_inside_from_outside() {
    let root = PathBuf::from("/srv/app");
    assert!(matches!(
        locate_file(&spec("file:///srv/app/x/y.ts"), &root),
        FileTarget::Inside(relative) if relative == "x/y.ts"
    ));
    assert!(matches!(locate_file(&spec("file:///srv/other/y.ts"), &root), FileTarget::Outside));
    assert!(matches!(locate_file(&spec("file://host.test/srv/app/y.ts"), &root), FileTarget::Invalid));
}

#[test]
fn declarations_with_a_source_are_rewritten() {
    let resolver = resolver_for("file:///srv/app/src/main.ts");
    let import = resolver.fold_module_decl(&ModuleDecl::Import("./a.ts".to_string())).unwrap();
    assert_eq!(import.specifier, "/src/a.ts");
    assert_eq!(import.comment, " import \"./a.ts\";");
    let export_all = resolver.fold_module_decl(&ModuleDecl::ExportAll("react".to_string())).unwrap();
    assert_eq!(export_all.specifier, "/@npm/react/18.2.0");
    let named = resolver
        .fold_module_decl(&ModuleDecl::ExportNamed(Some("node:fs".to_string())))
        .unwrap();
    assert_eq!(named.specifier, "/@module/node%3Afs");
    assert!(resolver.fold_module_decl(&ModuleDecl::ExportNamed(None)).is_none());
    assert!(resolver.fold_module_decl(&ModuleDecl::ExportDecl).is_none());
    assert!(resolver.fold_module_decl(&ModuleDecl::ExportDefaultDecl).is_none());
    assert!(resolver.fold_module_decl(&ModuleDecl::Other).is_none());
}

fn options(hmr: bool) -> TransformOptions {
    TransformOptions {
        code: "export {}".to_string(),
        hmr,
        graph: sample_graph(),
        module: Arc::new(spec("file:///srv/app/src/main.ts")),
    }
}

#[test]
fn passes_run_in_a_fixed_order() {
    assert_eq!(
        options(false).passes(),
        vec![
            Pass::ResolveScopes,
            Pass::StripTypes,
            Pass::Jsx { development: false, refresh: false },
            Pass::RefreshRegistration,
            Pass::RewriteSpecifiers,
            Pass::Hygiene,
            Pass::Fixer,
        ]
    );
    assert_eq!(options(true).passes()[2], Pass::Jsx { development: true, refresh: true });
    assert_eq!(options(true).passes().len(), 7);
    assert_eq!(JSX_IMPORT_SOURCE, "preact");
}

#[test]
fn resolver_of_options_rewrites_for_their_module() {
    let resolver = options(false).resolver();
    assert_eq!(resolver.module.as_str(), "file:///srv/app/src/main.ts");
    assert_eq!(resolver.resolve_import("./a.ts").specifier, "/src/a.ts");
}

#[test]
fn result_appends_the_source_map() {
    let result = TransformResult::assemble(
        "let a = 1;\n".to_string(),
        "data:application/json;base64,e30=".to_string(),
    );
    assert_eq!(
        result.code,
        "let a = 1;\n\n//# sourceMappingURL=data:application/json;base64,e30="
    );
    assert_eq!(result.source_map, "data:application/json;base64,e30=");
    assert_eq!(SOURCE_MAP_MARKER, "\n//# sourceMappingURL=");
}

#[test]
fn schemes_fall_into_three_kinds() {
    assert_eq!(scheme_kind("file"), SchemeKind::File);
    assert_eq!(scheme_kind("http"), SchemeKind::Remote);
    assert_eq!(scheme_kind("https"), SchemeKind::Remote);
    assert_eq!(scheme_kind("data"), SchemeKind::Other);
    assert_eq!(scheme_kind("npm"), SchemeKind::Other);
    assert_eq!(scheme_kind(""), SchemeKind::Other);
}
