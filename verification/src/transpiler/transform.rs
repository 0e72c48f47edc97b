//! Rewriting the import strings of one module into paths that the server can
//! serve, and the plan of passes that a transform of a module follows.
use crate::encoding::{encode, percent_encoded};
use crate::graph::view::{GraphView, ModuleView};
use crate::graph::{GraphModule, ModuleGraph, is_rooted, package_subpath};
use crate::model::option_view;
use crate::npm::id::PackageIdView;
use crate::paths::{
    clean, cleaned_path, path_behind, path_text, starts_with, strip_prefix, to_text,
};
use crate::specifier::{ModuleSpecifier, SpecifierView, file_path_of};
use crate::text::{concat2, concat3, replace_char, replaced};
use std::path::PathBuf;
use std::sync::Arc;
use vstd::prelude::*;
use vstd::string::*;

verus! {

/// Where the file of a local module lies, as seen from the root directory.
pub enum FileTargetView {
    /// Below the root directory, at this relative path.
    Inside(Seq<char>),
    /// Somewhere else.
    Outside,
    /// The specifier names no file of this platform.
    Invalid,
}

/// Where the file of a local module lies, as seen from the root directory.
#[derive(Debug)]
pub enum FileTarget {
    /// Below the root directory, at this relative path.
    Inside(String),
    /// Somewhere else.
    Outside,
    /// The specifier names no file of this platform.
    Invalid,
}

impl View for FileTarget {
    type V = FileTargetView;

    open spec fn view(&self) -> FileTargetView {
        match self {
            FileTarget::Inside(relative) => FileTargetView::Inside(relative@),
            FileTarget::Outside => FileTargetView::Outside,
            FileTarget::Invalid => FileTargetView::Invalid,
        }
    }
}

/// What the scheme of an ECMAScript module means for serving it.
#[derive(Debug, Clone, Copy, PartialEq, Eq, Structural)]
pub enum SchemeKind {
    /// `file`: a file of this machine.
    File,
    /// `http` or `https`: a module of another server.
    Remote,
    /// Any other scheme, which cannot be served.
    Other,
}

/// What `scheme` means for serving a module.
pub open spec fn scheme_kind_of(scheme: Seq<char>) -> SchemeKind {
    if scheme == "file"@ {
        SchemeKind::File
    } else if scheme == "http"@ || scheme == "https"@ {
        SchemeKind::Remote
    } else {
        SchemeKind::Other
    }
}

/// The path under which a module is served by its specifier alone.
pub open spec fn specifier_path(href: Seq<char>) -> Seq<char> {
    "/@module/"@ + percent_encoded(href)
}

/// The path that stands for an import that cannot be served, with the reason.
pub open spec fn error_path(reason: Seq<char>) -> Seq<char> {
    "/@module/error/"@ + percent_encoded(reason)
}

/// The path under which a local module is served: its path relative to the
/// root directory where it lies below it, with every backslash turned into a
/// slash; else the path by its specifier.
pub open spec fn file_import_path(target: FileTargetView, href: Seq<char>) -> Seq<char> {
    match target {
        FileTargetView::Inside(relative) => "/"@ + replaced(relative, '\\', '/'),
        FileTargetView::Outside => specifier_path(replaced(href, '\\', '/')),
        FileTargetView::Invalid => "/@module/error/invalid-file-url"@,
    }
}

/// The path under which an import from a package is served: the package's
/// name and version and, where it is not empty, the path inside the package.
pub open spec fn npm_import_path(package: PackageIdView, subpath: Seq<char>) -> Seq<char> {
    let base = "/@npm/"@ + percent_encoded(package.name) + "/"@ + package.version;
    if subpath.len() == 0 {
        base
    } else {
        base + "/"@ + percent_encoded(subpath)
    }
}

/// `path` relative to `base`, both cleaned first. There is none where the
/// cleaned `base` is no prefix of the cleaned `path`.
pub open spec fn relative_to(path: PathBuf, base: PathBuf) -> Option<PathBuf> {
    path_behind(cleaned_path(path), cleaned_path(base))
}

/// Where the file of the local module `href` lies, as seen from `root_dir`.
pub open spec fn located(href: Seq<char>, root_dir: PathBuf) -> FileTargetView {
    match file_path_of(href) {
        Some(path) => match relative_to(path, root_dir) {
            Some(relative) => FileTargetView::Inside(path_text(relative)),
            None => FileTargetView::Outside,
        },
        None => FileTargetView::Invalid,
    }
}

/// The path under which `module` is served by a server whose root directory
/// is `root_dir`.
pub open spec fn served_path_of(module: ModuleView, root_dir: PathBuf) -> Seq<char> {
    match module {
        ModuleView::Esm(esm) => match scheme_kind_of(esm.specifier.scheme) {
            SchemeKind::File => file_import_path(
                located(esm.specifier.href, root_dir),
                esm.specifier.href,
            ),
            SchemeKind::Remote => specifier_path(esm.specifier.href),
            SchemeKind::Other => error_path("Unsupported scheme for ESM Import"@),
        },
        ModuleView::Npm(npm) => npm_import_path(npm.package, package_subpath(npm.specifier.path)),
        ModuleView::Virtual(specifier) => specifier_path(replaced(specifier.href, '\\', '/')),
    }
}

/// The module that `specifier` stands for in the module table.
pub open spec fn target_module(graph: GraphView, specifier: Option<SpecifierView>)
    -> Option<ModuleView> {
    match specifier {
        Some(specifier) => graph.modules.get(specifier.href),
        None => None,
    }
}

/// The module that the own table of the module under `importer` resolves
/// `import` to.
pub open spec fn own_resolution(graph: GraphView, importer: Seq<char>, import: Seq<char>)
    -> Option<ModuleView> {
    match graph.modules.get(importer) {
        Some(module) => match module.lookup_table() {
            Some(table) => target_module(graph, table.get(import)),
            None => None,
        },
        None => None,
    }
}

/// The module that `import` means inside the module under `importer`: what
/// the importer's own table resolves it to or, where that gives nothing, what
/// the fallback table of the graph resolves it to.
pub open spec fn resolution(graph: GraphView, importer: Seq<char>, import: Seq<char>) -> Option<
    ModuleView,
> {
    match own_resolution(graph, importer, import) {
        Some(module) => Some(module),
        None => target_module(graph, graph.global_package_imports.get(import)),
    }
}

/// The comment that keeps the import string as it was written.
pub open spec fn import_comment(import: Seq<char>) -> Seq<char> {
    " import \""@ + import + "\";"@
}

/// The path that the import string `import` of the module under `importer`
/// is rewritten to: the served path of the module it means, or an error path
/// with the diagnostic where it means none.
pub open spec fn rewritten_path(graph: GraphView, importer: Seq<char>, import: Seq<char>) -> Seq<
    char,
> {
    match resolution(graph, importer, import) {
        Some(module) => served_path_of(module, graph.root_dir),
        None => error_path("Failed to resolve import "@ + import),
    }
}

/// Whether `path` and `comment` are what the import string `import` of the
/// module under `importer` is rewritten to.
pub open spec fn is_rewrite(
    graph: GraphView,
    importer: Seq<char>,
    import: Seq<char>,
    path: Seq<char>,
    comment: Seq<char>,
) -> bool {
    &&& comment == import_comment(import)
    &&& path == rewritten_path(graph, importer, import)
}

/// Whether `import` can be rewritten: where it resolves to an import from a
/// package, the path of that import's specifier is empty or begins with a
/// slash.
pub open spec fn is_rewritable(graph: GraphView, importer: Seq<char>, import: Seq<char>) -> bool {
    match resolution(graph, importer, import) {
        Some(ModuleView::Npm(npm)) => is_rooted(npm.specifier.path),
        _ => true,
    }
}

/// An import that the importer's own table does not resolve is resolved by
/// the fallback table of the graph, where that knows the import string.
pub proof fn lemma_fallback_resolves(graph: GraphView, importer: Seq<char>, import: Seq<char>)
    requires
        !(graph.modules.get(importer) matches Some(module) && module.lookup_table() matches Some(
            table,
        ) && table.map.contains_key(import)),
        graph.global_package_imports.map.contains_key(import),
    ensures
        resolution(graph, importer, import) == graph.modules.get(
            graph.global_package_imports.map[import].href,
        ),
{
}

/// An import that resolves to nothing is rewritten to an error path that
/// carries the percent-encoded diagnostic, and the comment keeps the import
/// string as it was written.
pub proof fn lemma_unresolved_is_error_path(
    graph: GraphView,
    importer: Seq<char>,
    import: Seq<char>,
    path: Seq<char>,
    comment: Seq<char>,
)
    requires
        resolution(graph, importer, import) is None,
        is_rewrite(graph, importer, import, path, comment),
    ensures
        path == "/@module/error/"@ + percent_encoded("Failed to resolve import "@ + import),
        path.subrange(0, 15) == "/@module/error/"@,
        comment == " import \""@ + import + "\";"@,
{
    reveal_strlit("/@module/error/");
    assert(path.subrange(0, 15) =~= "/@module/error/"@);
}

/// An import that means a local module whose file lies below the root
/// directory is rewritten to a slash and the file's path relative to the
/// root directory, with every backslash turned into a slash.
pub proof fn lemma_file_inside_root(
    graph: GraphView,
    importer: Seq<char>,
    import: Seq<char>,
    file: PathBuf,
    relative: PathBuf,
)
    requires
        resolution(graph, importer, import) matches Some(ModuleView::Esm(esm))
            && esm.specifier.scheme == "file"@ && file_path_of(esm.specifier.href) == Some(file),
        relative_to(file, graph.root_dir) == Some(relative),
    ensures
        rewritten_path(graph, importer, import) == "/"@ + replaced(
            path_text(relative),
            '\\',
            '/',
        ),
{
}

/// An import that means a local module whose file does not lie below the
/// root directory is rewritten to the path by its specifier, never to a
/// path relative to the root directory.
pub proof fn lemma_file_outside_root(
    graph: GraphView,
    importer: Seq<char>,
    import: Seq<char>,
    file: PathBuf,
)
    requires
        resolution(graph, importer, import) matches Some(ModuleView::Esm(esm))
            && esm.specifier.scheme == "file"@ && file_path_of(esm.specifier.href) == Some(file),
        relative_to(file, graph.root_dir) is None,
    ensures
        resolution(graph, importer, import) matches Some(ModuleView::Esm(esm)) && rewritten_path(
            graph,
            importer,
            import,
        ) == specifier_path(replaced(esm.specifier.href, '\\', '/')),
{
}

/// The path of a local module below the root directory begins with a slash
/// and holds no backslash: every separator is a slash.
pub proof fn lemma_inside_path_is_normalized(relative: Seq<char>, href: Seq<char>)
    ensures
        file_import_path(FileTargetView::Inside(relative), href).len() == relative.len() + 1,
        file_import_path(FileTargetView::Inside(relative), href)[0] == '/',
        forall|i: int|
            0 <= i < relative.len() ==> #[trigger] file_import_path(
                FileTargetView::Inside(relative),
                href,
            )[i + 1] == (if relative[i] == '\\' {
                '/'
            } else {
                relative[i]
            }),
{
    reveal_strlit("/");
}

/// Tells what `scheme` means for serving a module.
pub fn scheme_kind(scheme: &str) -> (r: SchemeKind)
    ensures
        r == scheme_kind_of(scheme@),
{
    if *scheme == *"file" {
        SchemeKind::File
    } else if *scheme == *"http" || *scheme == *"https" {
        SchemeKind::Remote
    } else {
        SchemeKind::Other
    }
}

/// `path` relative to `base`, both taken without `.` and `..` components.
/// There is none where `base` is no prefix of `path`, component by component.
pub fn safe_strip_prefix(path: &PathBuf, base: &PathBuf) -> (r: Option<PathBuf>)
    ensures
        r == relative_to(*path, *base),
{
    let clean_path = clean(path);
    let clean_base = clean(base);
    if !starts_with(&clean_path, &clean_base) {
        return None;
    }
    strip_prefix(&clean_path, &clean_base)
}

/// Finds the file of a local module, as seen from `root_dir`.
pub fn locate_file(specifier: &ModuleSpecifier, root_dir: &PathBuf) -> (r: FileTarget)
    ensures
        r@ == located(specifier@.href, *root_dir),
{
    match specifier.to_file_path() {
        Some(path) => match safe_strip_prefix(&path, root_dir) {
            Some(relative) => FileTarget::Inside(to_text(&relative)),
            None => FileTarget::Outside,
        },
        None => FileTarget::Invalid,
    }
}

/// The path under which a module is served by its specifier `href`.
pub fn module_import_path(href: &str) -> (r: String)
    ensures
        r@ == specifier_path(href@),
{
    let encoded = encode(href);
    concat2("/@module/", encoded.as_str())
}

/// The path that stands for an import that cannot be served.
pub fn error_import_path(reason: &str) -> (r: String)
    ensures
        r@ == error_path(reason@),
{
    let encoded = encode(reason);
    concat2("/@module/error/", encoded.as_str())
}

/// The path under which the local module `specifier` is served, given where
/// its file lies.
pub fn file_module_path(target: &FileTarget, specifier: &ModuleSpecifier) -> (r: String)
    ensures
        r@ == file_import_path(target@, specifier@.href),
{
    match target {
        FileTarget::Inside(relative) => {
            let slashed = replace_char(relative.as_str(), '\\', '/');
            concat2("/", slashed.as_str())
        },
        FileTarget::Outside => {
            let slashed = replace_char(specifier.as_str(), '\\', '/');
            module_import_path(slashed.as_str())
        },
        FileTarget::Invalid => String::from_str("/@module/error/invalid-file-url"),
    }
}

/// The path under which an import from `package` is served.
pub fn package_import_path(name: &str, version: &str, subpath: &str) -> (r: String)
    ensures
        r@ == npm_import_path(PackageIdView { name: name@, version: version@ }, subpath@),
{
    let encoded_name = encode(name);
    let mut path = concat3("/@npm/", encoded_name.as_str(), "/");
    path.append(version);
    if subpath.unicode_len() > 0 {
        let encoded_subpath = encode(subpath);
        path.append("/");
        path.append(encoded_subpath.as_str());
    }
    path
}

/// The path under which `module` is served. An import from a package has to
/// have a specifier whose path is empty or begins with a slash.
pub fn served_path(module: &GraphModule, root_dir: &PathBuf) -> (r: String)
    requires
        module@ matches ModuleView::Npm(npm) ==> is_rooted(npm.specifier.path),
    ensures
        r@ == served_path_of(module@, *root_dir),
{
    match module {
        GraphModule::Esm(esm) => {
            let specifier = esm.specifier();
            assert(module@ == ModuleView::Esm(esm@));
            match scheme_kind(specifier.scheme()) {
                SchemeKind::File => {
                    let target = locate_file(&specifier, root_dir);
                    file_module_path(&target, &specifier)
                },
                SchemeKind::Remote => module_import_path(specifier.as_str()),
                SchemeKind::Other => error_import_path("Unsupported scheme for ESM Import"),
            }
        },
        GraphModule::Npm(npm) => {
            assert(module@ == ModuleView::Npm(npm@));
            let subpath = npm.subpath();
            package_import_path(
                npm.package().name.as_str(),
                npm.package().version.as_str(),
                subpath.as_str(),
            )
        },
        GraphModule::Virtual(inner) => {
            assert(module@ == ModuleView::Virtual(inner@));
            let specifier = inner.specifier();
            let slashed = replace_char(specifier.as_str(), '\\', '/');
            module_import_path(slashed.as_str())
        },
    }
}

/// What an import string is rewritten to.
#[derive(Debug)]
pub struct ImportRewrite {
    /// The path that takes the place of the import string.
    pub specifier: String,
    /// The line comment that goes behind the declaration.
    pub comment: String,
    /// Whether the importer's own table gave nothing, so that the fallback
    /// table of the graph was asked.
    pub tried_fallback: bool,
}

/// Rewrites the import strings of one module of the graph.
#[derive(Debug)]
pub struct ImportResolver {
    pub graph: Arc<ModuleGraph>,
    pub module: Arc<ModuleSpecifier>,
}

/// A declaration of a module as far as its import string goes.
#[derive(Debug)]
pub enum ModuleDecl {
    /// `import ... from "src"`
    Import(String),
    /// `export * from "src"`
    ExportAll(String),
    /// `export { ... }`, with or without `from "src"`
    ExportNamed(Option<String>),
    /// `export const ...` and the like
    ExportDecl,
    /// `export default ...`
    ExportDefaultDecl,
    /// Any other declaration.
    Other,
}

/// The import string that a declaration carries, if it carries one.
pub open spec fn import_source(node: ModuleDecl) -> Option<Seq<char>> {
    match node {
        ModuleDecl::Import(src) => Some(src@),
        ModuleDecl::ExportAll(src) => Some(src@),
        ModuleDecl::ExportNamed(Some(src)) => Some(src@),
        _ => None,
    }
}

impl ImportResolver {
    /// The module that the own table of the module of this resolver resolves
    /// `import_path` to.
    pub fn resolve_own(&self, import_path: &str) -> (r: Option<&GraphModule>)
        requires
            self.graph.wf(),
        ensures
            option_view(r) == own_resolution(self.graph@, self.module@.href, import_path@),
            r matches Some(module) ==> module.wf(),
    {
        match self.graph.get_module(&self.module) {
            Some(importer) => match importer.esm() {
                Some(esm) => {
                    assert(importer@ == ModuleView::Esm(esm@));
                    assert(importer@.lookup_table() == esm@.dependencies.resolved);
                    match esm.lookup_import(import_path) {
                        Some(target) => self.graph.get_module(&target),
                        None => None,
                    }
                },
                None => {
                    assert(importer@.lookup_table() is None);
                    None
                },
            },
            None => None,
        }
    }

    /// The module that `import_path` means inside the module of this
    /// resolver.
    pub fn resolve(&self, import_path: &str) -> (r: Option<&GraphModule>)
        requires
            self.graph.wf(),
        ensures
            option_view(r) == resolution(self.graph@, self.module@.href, import_path@),
    {
        match self.resolve_own(import_path) {
            Some(module) => Some(module),
            None => match self.graph.global_package_imports().get(import_path) {
                Some(target) => self.graph.get_module(target),
                None => None,
            },
        }
    }

    /// Whether `import_path` can be rewritten.
    pub fn accepts(&self, import_path: &str) -> (r: bool)
        requires
            self.graph.wf(),
        ensures
            r == is_rewritable(self.graph@, self.module@.href, import_path@),
    {
        match self.resolve(import_path) {
            Some(module) => match module.npm() {
                Some(npm) => npm.has_rooted_path(),
                None => true,
            },
            None => true,
        }
    }

    /// Rewrites one import string: the path under which the module it means
    /// is served, or an error path where it means none, and the comment that
    /// keeps the import string as written. The result also says whether the
    /// fallback table had to be asked.
    pub fn resolve_import(&self, import_path: &str) -> (r: ImportRewrite)
        requires
            self.graph.wf(),
            is_rewritable(self.graph@, self.module@.href, import_path@),
        ensures
            is_rewrite(
                self.graph@,
                self.module@.href,
                import_path@,
                r.specifier@,
                r.comment@,
            ),
            r.tried_fallback == (own_resolution(self.graph@, self.module@.href, import_path@)
                is None),
    {
        let comment = concat3(" import \"", import_path, "\";");
        let tried_fallback = self.resolve_own(import_path).is_none();
        let specifier = match self.resolve(import_path) {
            Some(module) => served_path(module, self.graph.root_dir()),
            None => {
                let reason = concat2("Failed to resolve import ", import_path);
                error_import_path(reason.as_str())
            },
        };
        ImportRewrite { specifier, comment, tried_fallback }
    }

    /// Rewrites the import string of a declaration that carries one. Any
    /// other declaration is left alone.
    pub fn fold_module_decl(&self, node: &ModuleDecl) -> (r: Option<ImportRewrite>)
        requires
            self.graph.wf(),
            import_source(*node) matches Some(import) ==> is_rewritable(
                self.graph@,
                self.module@.href,
                import,
            ),
        ensures
            match import_source(*node) {
                Some(import) => r matches Some(rewrite) && is_rewrite(
                    self.graph@,
                    self.module@.href,
                    import,
                    rewrite.specifier@,
                    rewrite.comment@,
                ) && rewrite.tried_fallback == (own_resolution(
                    self.graph@,
                    self.module@.href,
                    import,
                ) is None),
                None => r is None,
            },
    {
        match node {
            ModuleDecl::Import(src) => Some(self.resolve_import(src.as_str())),
            ModuleDecl::ExportAll(src) => Some(self.resolve_import(src.as_str())),
            ModuleDecl::ExportNamed(Some(src)) => Some(self.resolve_import(src.as_str())),
            _ => None,
        }
    }
}

/// The package that JSX is compiled against.
pub const JSX_IMPORT_SOURCE: &'static str = "preact";

/// The text that separates the emitted code from its source map.
pub const SOURCE_MAP_MARKER: &'static str = "\n//# sourceMappingURL=";

/// One pass over the syntax tree of a module.
#[derive(Debug, Clone, Copy, PartialEq, Eq, Structural)]
pub enum Pass {
    /// Binds every identifier to its scope and marks top-level and
    /// unresolved ones apart.
    ResolveScopes,
    /// Removes what only the type checker reads.
    StripTypes,
    /// Compiles JSX against the automatic runtime of `JSX_IMPORT_SOURCE`.
    Jsx { development: bool, refresh: bool },
    /// Registers components for fast refresh, keyed by a hash of the source.
    RefreshRegistration,
    /// Rewrites every import string to a served path.
    RewriteSpecifiers,
    /// Renames identifiers that earlier passes made collide.
    Hygiene,
    /// Adds the parentheses that printing needs.
    Fixer,
}

/// The passes of a transform, first to last. With `hmr` the JSX pass runs in
/// development mode with fast refresh.
pub open spec fn planned_passes(hmr: bool) -> Seq<Pass> {
    seq![
        Pass::ResolveScopes,
        Pass::StripTypes,
        Pass::Jsx { development: hmr, refresh: hmr },
        Pass::RefreshRegistration,
        Pass::RewriteSpecifiers,
        Pass::Hygiene,
        Pass::Fixer,
    ]
}

/// What a transform is asked to do.
#[derive(Debug)]
pub struct TransformOptions {
    /// The source text of the module.
    pub code: String,
    /// Whether fast refresh is wired in.
    pub hmr: bool,
    pub graph: Arc<ModuleGraph>,
    /// The specifier of the module that `code` belongs to.
    pub module: Arc<ModuleSpecifier>,
}

/// What a transform hands back.
#[derive(Debug)]
pub struct TransformResult {
    /// The rewritten code, with the source map appended as a comment.
    pub code: String,
    /// The source map as a data URL.
    pub source_map: String,
}

impl TransformOptions {
    /// The passes that this transform runs after parsing, first to last.
    pub fn passes(&self) -> (r: Vec<Pass>)
        ensures
            r@ == planned_passes(self.hmr),
    {
        let passes = vec![
            Pass::ResolveScopes,
            Pass::StripTypes,
            Pass::Jsx { development: self.hmr, refresh: self.hmr },
            Pass::RefreshRegistration,
            Pass::RewriteSpecifiers,
            Pass::Hygiene,
            Pass::Fixer,
        ];
        assert(passes@ =~= planned_passes(self.hmr));
        passes
    }

    /// The resolver for the import strings of the module.
    pub fn resolver(&self) -> (r: ImportResolver)
        ensures
            r.graph == self.graph,
            r.module == self.module,
    {
        ImportResolver { graph: self.graph.clone(), module: self.module.clone() }
    }
}

impl TransformResult {
    /// Puts the emitted code and its source map together: the code, the
    /// marker and the source map make the code of the result.
    pub fn assemble(emitted: String, source_map: String) -> (r: TransformResult)
        ensures
            r.code@ == emitted@ + SOURCE_MAP_MARKER@ + source_map@,
            r.source_map@ == source_map@,
    {
        let mut code = emitted;
        code.append(SOURCE_MAP_MARKER);
        code.append(source_map.as_str());
        TransformResult { code, source_map }
    }
}

} // verus!
