use module_graph::deno::info::{
    describe_failed_command, describe_failed_start, describe_unreadable, read_descriptor, BuiltInNodeModule,
    DenoInfo, EsmModule, ExternalModule, Module, NpmModule,
};
use module_graph::deno::info_preflight::{
    PreflightInfo, PreflightModule, PreflightModuleDependency, PreflightModuleDependencyCode,
};
use module_graph::deno::media_type::MediaType;
use module_graph::specifier::{MediaType as Kind, ModuleSpecifier};
use std::path::PathBuf;

fn spec(text: &str) -> ModuleSpecifier {
    ModuleSpecifier::parse(text).unwrap()
}

fn broken_dependency(specifier: &str, error: Option<&str>) -> PreflightModuleDependency {
    PreflightModuleDependency {
        specifier: specifier.to_string(),
        code: Some(PreflightModuleDependencyCode {
            specifier: None,
            error: error.map(|e| e.to_string()),
        }),
    }
}

#[test]
fn media_type_reads_every_known_name() {
    let expected = [
        ("JavaScript", Kind::JavaScript),
        ("JSX", Kind::Jsx),
        ("Mjs", Kind::Mjs),
        ("Cjs", Kind::Cjs),
        ("TypeScript", Kind::TypeScript),
        ("Mts", Kind::Mts),
        ("Cts", Kind::Cts),
        ("Dts", Kind::Dts),
        ("Dmts", Kind::Dmts),
        ("Dcts", Kind::Dcts),
        ("TSX", Kind::Tsx),
        ("Css", Kind::Css),
        ("Json", Kind::Json),
        ("Html", Kind::Html),
        ("Sql", Kind::Sql),
        ("Wasm", Kind::Wasm),
        ("SourceMap", Kind::SourceMap),
        ("Unknown", Kind::Unknown),
    ];
    for (name, kind) in expected {
        assert_eq!(MediaType::from_name(name).unwrap().media_type, kind);
        assert_eq!(MediaType::from_name(name).unwrap().kind(), kind);
    }
    let names = MediaType::known_names();
    assert_eq!(names.len(), 18);
    for (i, (name, _)) in expected.iter().enumerate() {
        assert_eq!(names[i], *name);
    }
}

#[test]
fn media_type_refuses_other_names() {
    assert!(MediaType::from_name("javascript").is_none());
    assert!(MediaType::from_name("Jsx").is_none());
    assert!(MediaType::from_name("").is_none());
}

#[test]
fn dependency_diagnostics_need_an_error() {
    let with_error = broken_dependency("./a.ts", Some("Module not found"));
    assert_eq!(with_error.specifier(), "./a.ts");
    assert_eq!(
        with_error.diagnostics(),
        Some("Dependency ./a.ts:\nModule not found".to_string())
    );
    assert_eq!(broken_dependency("./a.ts", None).diagnostics(), None);
    let without_code = PreflightModuleDependency { specifier: "./b.ts".to_string(), code: None };
    assert_eq!(without_code.diagnostics(), None);
}

#[test]
fn module_diagnostics_list_dependencies_then_the_module() {
    let module = PreflightModule {
        kind: "esm".to_string(),
        specifier: Some("file:///main.ts".to_string()),
        error: Some("boom".to_string()),
        dependencies: vec![
            broken_dependency("./a.ts", Some("first")),
            broken_dependency("./b.ts", None),
            broken_dependency("./c.ts", Some("third")),
        ],
    };
    assert_eq!(
        module.diagnostics(),
        vec![
            "Dependency ./a.ts:\nfirst".to_string(),
            "Dependency ./c.ts:\nthird".to_string(),
            "esm: file:///main.ts boom".to_string(),
        ]
    );
}

#[test]
fn module_diagnostics_note_a_missing_specifier() {
    let module = PreflightModule {
        kind: "error".to_string(),
        specifier: None,
        error: Some("boom".to_string()),
        dependencies: Vec::new(),
    };
    assert_eq!(module.diagnostics(), vec!["error: <no specifier available> boom".to_string()]);
    let fine = PreflightModule {
        kind: "esm".to_string(),
        specifier: None,
        error: None,
        dependencies: Vec::new(),
    };
    assert!(fine.diagnostics().is_empty());
}

#[test]
fn unreadable_descriptor_lists_complaints() {
    let info = PreflightInfo {
        modules: vec![
            PreflightModule {
                kind: "esm".to_string(),
                specifier: Some("file:///a.ts".to_string()),
                error: None,
                dependencies: vec![broken_dependency("./x.ts", Some("missing"))],
            },
            PreflightModule {
                kind: "esm".to_string(),
                specifier: Some("file:///b.ts".to_string()),
                error: Some("bad".to_string()),
                dependencies: Vec::new(),
            },
        ],
    };
    assert_eq!(
        info.diagnostics(),
        vec!["Dependency ./x.ts:\nmissing".to_string(), "esm: file:///b.ts bad".to_string()]
    );
    assert_eq!(
        describe_unreadable(Some(&info), "EOF"),
        "Failed to parse deno info output:\nDependency ./x.ts:\nmissing\nesm: file:///b.ts bad\nOriginal error:\nEOF"
    );
}

#[test]
fn unreadable_descriptor_without_complaints() {
    let info = PreflightInfo { modules: Vec::new() };
    assert_eq!(describe_unreadable(Some(&info), "EOF"), "Failed to parse deno info output: EOF");
    assert_eq!(describe_unreadable(None, "EOF"), "Failed to parse deno info output: EOF");
}

#[test]
fn failed_command_messages() {
    assert_eq!(describe_failed_command("no such file"), "Deno info command failed: no such file");
    assert_eq!(describe_failed_start("not found"), "Failed to execute deno info: not found");
}

fn info_of_version(version: u8) -> DenoInfo {
    DenoInfo {
        version,
        roots: Vec::new(),
        modules: Vec::new(),
        npm_packages: Vec::new(),
        packages: Vec::new(),
        redirects: Vec::new(),
    }
}

#[test]
fn only_the_supported_version_is_accepted() {
    assert!(info_of_version(1).check_version().is_ok());
    assert_eq!(
        info_of_version(2).check_version().unwrap_err(),
        "Unsupported deno info schema version: 2"
    );
    assert_eq!(
        info_of_version(0).check_version().unwrap_err(),
        "Unsupported deno info schema version: 0"
    );
    assert_eq!(
        info_of_version(255).check_version().unwrap_err(),
        "Unsupported deno info schema version: 255"
    );
}

#[test]
fn raw_modules_know_specifier_and_media_type() {
    let esm = Module::Esm(EsmModule {
        specifier: spec("file:///a.tsx"),
        media_type: MediaType { media_type: Kind::Tsx },
        local: PathBuf::from("/a.tsx"),
        dependencies: Vec::new(),
    });
    let npm = Module::Npm(NpmModule {
        specifier: spec("npm:/react@18.2.0"),
        npm_package: "react@18.2.0".to_string(),
    });
    let node = Module::Node(BuiltInNodeModule {
        specifier: spec("node:fs"),
        module_name: "fs".to_string(),
    });
    let external = Module::External(ExternalModule { specifier: spec("https://x.test/y.js") });
    assert_eq!(esm.specifier().as_str(), "file:///a.tsx");
    assert_eq!(npm.specifier().as_str(), "npm:/react@18.2.0");
    assert_eq!(node.specifier().as_str(), "node:fs");
    assert_eq!(external.specifier().as_str(), "https://x.test/y.js");
    assert_eq!(esm.media_type().media_type, Kind::Tsx);
    assert_eq!(npm.media_type().media_type, Kind::Unknown);
    assert_eq!(node.media_type().media_type, Kind::JavaScript);
    assert_eq!(external.media_type().media_type, Kind::Unknown);
}

#[test]
fn specifier_parts_come_from_the_url() {
    let specifier = spec("HTTPS://Example.com/a/b.ts?x=1#frag");
    assert_eq!(specifier.as_str(), "https://example.com/a/b.ts?x=1#frag");
    assert_eq!(specifier.to_string(), "https://example.com/a/b.ts?x=1#frag");
    assert_eq!(specifier.scheme(), "https");
    assert_eq!(specifier.path(), "/a/b.ts");
    assert!(specifier.same_module(&spec("https://example.com/a/b.ts?x=1#frag")));
    assert!(!specifier.same_module(&spec("https://example.com/a/b.ts")));
    assert!(ModuleSpecifier::parse("not a url").is_none());
    assert!(ModuleSpecifier::parse("./relative.ts").is_none());
    let copy = specifier.clone();
    assert_eq!(copy.as_str(), specifier.as_str());
    assert_eq!(copy.scheme(), "https");
    assert_eq!(copy.path(), "/a/b.ts");
}

#[test]
fn file_specifier_has_a_file_path() {
    assert_eq!(spec("file:///srv/app/main.ts").to_file_path(), Some(PathBuf::from("/srv/app/main.ts")));
    assert_eq!(spec("file://remote.test/srv/main.ts").to_file_path(), None);
}

#[test]
fn descriptor_of_a_failed_tool_is_refused() {
    let result = read_descriptor(false, "boom", Ok(info_of_version(1)), None);
    assert_eq!(result.unwrap_err(), "Deno info command failed: boom");
}

#[test]
fn descriptor_that_was_read_is_checked_for_its_version() {
    assert_eq!(read_descriptor(true, "", Ok(info_of_version(1)), None).unwrap().version, 1);
    assert_eq!(
        read_descriptor(true, "", Ok(info_of_version(3)), None).unwrap_err(),
        "Unsupported deno info schema version: 3"
    );
}

#[test]
fn descriptor_that_was_not_read_is_explained() {
    let lenient = PreflightInfo {
        modules: vec![PreflightModule {
            kind: "esm".to_string(),
            specifier: None,
            error: Some("bad".to_string()),
            dependencies: Vec::new(),
        }],
    };
    assert_eq!(
        read_descriptor(true, "ignored", Err("EOF".to_string()), Some(&lenient)).unwrap_err(),
        "Failed to parse deno info output:\nesm: <no specifier available> bad\nOriginal error:\nEOF"
    );
    assert_eq!(
        read_descriptor(true, "ignored", Err("EOF".to_string()), None).unwrap_err(),
        "Failed to parse deno info output: EOF"
    );
}
