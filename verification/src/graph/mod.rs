//! The module graph: every module of the application under its specifier, the
//! redirects between specifiers, the registry of packages, and the imports
//! that any module may fall back to.
pub mod builder;
pub mod dependencies;
pub mod diagnostics;
pub mod table;
pub mod view;

use crate::deno::info::{EsmDependency, EsmDependencyView, EsmModule, NpmPackage};
use crate::graph::dependencies::{DependencyLink, LinkView};
use crate::graph::table::LookupTable;
use crate::graph::view::{
    EsmView, GraphView, ModuleView, NpmImportView, PackageView, REDIRECT_LIMIT, exhausted_at,
    found_module, targets_of,
    is_global_import_of, package_of,
};
use crate::model::{option_view, views};
use crate::npm::id::NPMPackageId;
use crate::paths::empty;
use crate::specifier::{ModuleSpecifier, SpecifierView};
use crate::text::starts_with_char;
use std::path::PathBuf;
use std::sync::Arc;
use vstd::prelude::*;
use vstd::string::*;

verus! {

/// The text of `path` after its `count`-th slash, or nothing where `path`
/// has fewer slashes.
pub open spec fn after_slashes(path: Seq<char>, count: nat) -> Seq<char>
    decreases path.len(),
{
    if count == 0 {
        path
    } else if path.len() == 0 {
        Seq::empty()
    } else if path[0] == '/' {
        after_slashes(path.drop_first(), (count - 1) as nat)
    } else {
        after_slashes(path.drop_first(), count)
    }
}

/// How many leading segments of a package path name the package: two for a
/// scoped name, which begins with `@`, and one for any other.
pub open spec fn package_segments(path: Seq<char>) -> nat {
    if path.len() > 1 && path[1] == '@' {
        2
    } else {
        1
    }
}

/// The part of a package path that lies inside the package: what follows the
/// segments that name the package.
pub open spec fn package_subpath(path: Seq<char>) -> Seq<char> {
    after_slashes(path, package_segments(path) + 1)
}

/// Whether a path is empty or begins with a slash.
pub open spec fn is_rooted(path: Seq<char>) -> bool {
    path.len() == 0 || path[0] == '/'
}

/// The views of the names that an option holds.
pub open spec fn option_names(names: Option<Vec<String>>) -> Option<Seq<Seq<char>>> {
    match names {
        Some(names) => Some(views(names@)),
        None => None,
    }
}

/// The views of the dependencies that an option holds.
pub open spec fn option_dependencies(dependencies: Option<Vec<EsmDependency>>) -> Option<
    Seq<EsmDependencyView>,
> {
    match dependencies {
        Some(dependencies) => Some(views(dependencies@)),
        None => None,
    }
}

/// A module that is known by its specifier alone: a built-in of the platform
/// or a module left to the outside.
#[derive(Debug)]
pub struct VirtualModule {
    specifier: Arc<ModuleSpecifier>,
}

/// A package of the registry.
#[derive(Debug)]
pub struct NPMPackage {
    id: NPMPackageId,
    dependencies: DependencyLink<String, NPMPackageId>,
    registry_url: ModuleSpecifier,
}

/// A specifier that is bound to a package of the registry.
#[derive(Debug)]
pub struct NPMImportSpecifier {
    specifier: Arc<ModuleSpecifier>,
    package: NPMPackageId,
}

/// A local or remote ECMAScript module with its declared dependencies.
#[derive(Debug)]
pub struct ESMGraphModule {
    specifier: Arc<ModuleSpecifier>,
    dependencies: DependencyLink<EsmDependency, Arc<ModuleSpecifier>>,
    local: PathBuf,
}

/// A module of the graph.
#[derive(Debug)]
pub enum GraphModule {
    Esm(ESMGraphModule),
    Npm(NPMImportSpecifier),
    Virtual(VirtualModule),
}

/// The graph itself.
#[derive(Debug)]
pub struct ModuleGraph {
    modules: LookupTable<GraphModule>,
    redirects: LookupTable<Arc<ModuleSpecifier>>,
    specifiers: LookupTable<Arc<ModuleSpecifier>>,
    root_specifier: Option<Arc<ModuleSpecifier>>,
    npm_packages: LookupTable<NPMPackage>,
    global_package_imports: LookupTable<Arc<ModuleSpecifier>>,
    root_dir: PathBuf,
}

impl View for VirtualModule {
    type V = SpecifierView;

    closed spec fn view(&self) -> SpecifierView {
        self.specifier@
    }
}

impl View for NPMPackage {
    type V = PackageView;

    closed spec fn view(&self) -> PackageView {
        PackageView {
            id: self.id@,
            dependencies: self.dependencies@,
            registry_url: self.registry_url@,
        }
    }
}

impl View for NPMImportSpecifier {
    type V = NpmImportView;

    closed spec fn view(&self) -> NpmImportView {
        NpmImportView { specifier: self.specifier@, package: self.package@ }
    }
}

impl View for ESMGraphModule {
    type V = EsmView;

    closed spec fn view(&self) -> EsmView {
        EsmView {
            specifier: self.specifier@,
            dependencies: self.dependencies@,
            local: self.local,
        }
    }
}

impl View for GraphModule {
    type V = ModuleView;

    open spec fn view(&self) -> ModuleView {
        match self {
            GraphModule::Esm(module) => ModuleView::Esm(module@),
            GraphModule::Npm(module) => ModuleView::Npm(module@),
            GraphModule::Virtual(module) => ModuleView::Virtual(module@),
        }
    }
}

impl View for ModuleGraph {
    type V = GraphView;

    closed spec fn view(&self) -> GraphView {
        GraphView {
            modules: self.modules@,
            redirects: self.redirects@,
            specifiers: self.specifiers@,
            root_specifier: option_view(self.root_specifier),
            npm_packages: self.npm_packages@,
            global_package_imports: self.global_package_imports@,
            root_dir: self.root_dir,
        }
    }
}

impl VirtualModule {
    /// The virtual module of `specifier`.
    pub fn new(specifier: ModuleSpecifier) -> (r: Self)
        ensures
            r@ == specifier@,
    {
        Self { specifier: Arc::new(specifier) }
    }

    /// The specifier of the module.
    pub fn specifier(&self) -> (r: Arc<ModuleSpecifier>)
        ensures
            r@ == self@,
    {
        self.specifier.clone()
    }
}

impl NPMImportSpecifier {
    /// The specifier of the import.
    pub fn specifier(&self) -> (r: Arc<ModuleSpecifier>)
        ensures
            r@ == self@.specifier,
    {
        self.specifier.clone()
    }

    /// The package that the import is bound to.
    pub fn package(&self) -> (r: &NPMPackageId)
        ensures
            r@ == self@.package,
    {
        &self.package
    }

    /// Whether the path of the specifier is empty or begins with a slash, as
    /// `subpath` asks.
    pub fn has_rooted_path(&self) -> (r: bool)
        ensures
            r == is_rooted(self@.specifier.path),
    {
        path_is_rooted(self.specifier.path())
    }

    /// The path inside the package: the path of the specifier without the
    /// slash it begins with and without the segments that name the package.
    /// A scoped name takes two segments, any other takes one.
    pub fn subpath(&self) -> (r: String)
        requires
            is_rooted(self@.specifier.path),
        ensures
            r@ == package_subpath(self@.specifier.path),
    {
        subpath_of(self.specifier.path())
    }
}

/// Whether `path` is empty or begins with a slash.
pub fn path_is_rooted(path: &str) -> (r: bool)
    ensures
        r == is_rooted(path@),
{
    let mut it = path.chars();
    match it.next() {
        Some(first) => first == '/',
        None => true,
    }
}

/// The part of the package path `path` that lies inside the package.
pub fn subpath_of(path: &str) -> (r: String)
    requires
        is_rooted(path@),
    ensures
        r@ == package_subpath(path@),
{
    let length = path.unicode_len();
    let scoped = length > 1 && path.get_char(1) == '@';
    let mut remaining: usize = if scoped {
        3
    } else {
        2
    };
    let mut start: usize = length;
    let mut index: usize = 0;
    assert(path@.skip(0) == path@);
    for c in it: path.chars()
        invariant
            it.seq() == path@,
            index == it.index(),
            index <= path@.len(),
            length == path@.len(),
            start <= length,
            remaining > 0 ==> start == length,
            remaining > 0 ==> package_subpath(path@) == after_slashes(
                path@.skip(index as int),
                remaining as nat,
            ),
            remaining == 0 ==> package_subpath(path@) == path@.skip(start as int),
    {
        assert(path@.skip(index as int).drop_first() == path@.skip(index + 1));
        assert(path@.skip(index as int)[0] == c);
        assert(after_slashes(path@.skip(index + 1), 0) == path@.skip(index + 1));
        if remaining > 0 && c == '/' {
            remaining = remaining - 1;
            if remaining == 0 {
                start = index + 1;
            }
        }
        index = index + 1;
    }
    proof {
        if remaining > 0 {
            assert(path@.skip(length as int).len() == 0);
            assert(path@.skip(start as int) == Seq::<char>::empty());
        }
    }
    let rest = path.substring_char(start, length);
    assert(rest@ == path@.skip(start as int));
    String::from_str(rest)
}

/// Whether an import string declared by a module of the scheme
/// `importer_scheme` also serves as a fallback for every other module.
pub fn declares_global_import(importer_scheme: &str, import: &str) -> (r: bool)
    ensures
        r == is_global_import_of(importer_scheme@, import@),
{
    *importer_scheme == *"file" && !starts_with_char(import, '.')
}

impl NPMPackage {
    /// The table of resolved dependencies, where there is one, is well-formed.
    pub closed spec fn wf(&self) -> bool {
        self.dependencies.wf()
    }

    /// The package that a raw package of the descriptor becomes.
    pub fn from_package(package: NpmPackage) -> (r: Self)
        ensures
            r.wf(),
            r@ == package_of(package@),
    {
        Self {
            id: NPMPackageId { name: package.name, version: package.version },
            dependencies: DependencyLink::new(package.dependencies),
            registry_url: package.registry_url,
        }
    }

    /// Takes the dependency names out of the package, once.
    fn take_dependencies(&mut self) -> (r: Option<Vec<String>>)
        ensures
            option_names(r) == old(self)@.dependencies.raw,
            final(self)@ == (PackageView {
                dependencies: old(self)@.dependencies.after_take(),
                ..old(self)@
            }),
            final(self).wf() == old(self).wf(),
    {
        self.dependencies.take_raw()
    }

    /// Publishes the resolved dependencies of the package, once.
    fn set_dependencies(&mut self, resolved: LookupTable<NPMPackageId>)
        requires
            resolved.wf(),
        ensures
            final(self)@ == (PackageView {
                dependencies: old(self)@.dependencies.after_set(resolved@),
                ..old(self)@
            }),
            old(self).wf() ==> final(self).wf(),
    {
        let _ = self.dependencies.set_resolved(resolved);
    }

    /// The identifier of the package.
    pub fn id(&self) -> (r: &NPMPackageId)
        ensures
            r@ == self@.id,
    {
        &self.id
    }

    /// The import of `specifier` from this package.
    pub fn import_specifier(&self, specifier: Arc<ModuleSpecifier>) -> (r: NPMImportSpecifier)
        ensures
            r@ == (NpmImportView { specifier: specifier@, package: self@.id }),
    {
        NPMImportSpecifier { specifier, package: self.id.clone() }
    }

    /// Where the registry serves the package from.
    pub fn registry_url(&self) -> (r: &ModuleSpecifier)
        ensures
            r@ == self@.registry_url,
    {
        &self.registry_url
    }

    /// The identifiers of the packages that this one depends on, in the order
    /// of its resolved table. There are none before the package was linked.
    pub fn dependencies(&self) -> (r: Vec<NPMPackageId>)
        requires
            self.wf(),
        ensures
            match self@.dependencies.resolved {
                Some(table) => r@.len() == table.order.len() && forall|i: int|
                    0 <= i < r@.len() ==> (#[trigger] r@[i])@ == table.value_at(i),
                None => r@.len() == 0,
            },
    {
        let mut found: Vec<NPMPackageId> = Vec::new();
        match self.dependencies.try_resolved() {
            Some(table) => {
                let mut i: usize = 0;
                while i < table.len()
                    invariant
                        table.wf(),
                        i <= table@.order.len(),
                        found@.len() == i,
                        forall|j: int| 0 <= j < i ==> (#[trigger] found@[j])@ == table@.value_at(j),
                    decreases table@.order.len() - i,
                {
                    found.push(table.value_at(i).clone());
                    i = i + 1;
                }
            },
            None => {},
        }
        found
    }
}

impl ESMGraphModule {
    /// The table of resolved dependencies, where there is one, is well-formed.
    pub closed spec fn wf(&self) -> bool {
        self.dependencies.wf()
    }

    /// The module that a raw ECMAScript module of the descriptor becomes.
    pub fn from_esm(esm: EsmModule) -> (r: Self)
        ensures
            r.wf(),
            r@ == (EsmView {
                specifier: esm.specifier@,
                dependencies: LinkView::fresh(views(esm.dependencies@)),
                local: esm.local,
            }),
    {
        Self {
            specifier: Arc::new(esm.specifier),
            dependencies: DependencyLink::new(esm.dependencies),
            local: esm.local,
        }
    }

    /// The specifier of the module.
    pub fn specifier(&self) -> (r: Arc<ModuleSpecifier>)
        ensures
            r@ == self@.specifier,
    {
        self.specifier.clone()
    }

    /// Takes the declared dependencies out of the module, once.
    fn take_dependencies(&mut self) -> (r: Option<Vec<EsmDependency>>)
        ensures
            option_dependencies(r) == old(self)@.dependencies.raw,
            final(self)@ == (EsmView {
                dependencies: old(self)@.dependencies.after_take(),
                ..old(self)@
            }),
            final(self).wf() == old(self).wf(),
    {
        self.dependencies.take_raw()
    }

    /// Publishes the resolved dependencies of the module, once.
    fn set_dependencies(&mut self, resolved: LookupTable<Arc<ModuleSpecifier>>)
        requires
            resolved.wf(),
        ensures
            final(self)@ == (EsmView {
                dependencies: old(self)@.dependencies.after_set(resolved@),
                ..old(self)@
            }),
            old(self).wf() ==> final(self).wf(),
    {
        let _ = self.dependencies.set_resolved(resolved);
    }

    /// The file that holds the source of the module.
    pub fn local(&self) -> (r: &PathBuf)
        ensures
            *r == self@.local,
    {
        &self.local
    }

    /// The specifier that `import` was resolved to. There is none before the
    /// module was linked, nor for an import string that the module does not
    /// declare or whose target was not found.
    pub fn lookup_import(&self, import: &str) -> (r: Option<Arc<ModuleSpecifier>>)
        requires
            self.wf(),
        ensures
            option_view(r) == match self@.dependencies.resolved {
                Some(table) => table.get(import@),
                None => None,
            },
    {
        match self.dependencies.try_resolved() {
            Some(table) => match table.get(import) {
                Some(target) => Some(target.clone()),
                None => None,
            },
            None => None,
        }
    }

    /// Whether the module was linked.
    pub fn is_linked(&self) -> (r: bool)
        ensures
            r == self@.dependencies.resolved is Some,
    {
        self.dependencies.try_resolved().is_some()
    }

    /// The table from import string to resolved specifier, once the module
    /// was linked.
    pub fn lookup_table(&self) -> (r: Option<&LookupTable<Arc<ModuleSpecifier>>>)
        requires
            self.wf(),
        ensures
            match r {
                Some(table) => table.wf() && self@.dependencies.resolved == Some(table@),
                None => self@.dependencies.resolved is None,
            },
    {
        self.dependencies.try_resolved()
    }
}

impl GraphModule {
    /// The tables inside the module are well-formed.
    pub open spec fn wf(&self) -> bool {
        match self {
            GraphModule::Esm(module) => module.wf(),
            _ => true,
        }
    }

    /// The specifier of the module, whatever its kind.
    pub fn specifier(&self) -> (r: Arc<ModuleSpecifier>)
        ensures
            r@ == self@.specifier(),
    {
        match self {
            GraphModule::Esm(module) => module.specifier(),
            GraphModule::Npm(module) => module.specifier(),
            GraphModule::Virtual(module) => module.specifier(),
        }
    }

    /// The module as an ECMAScript module, if it is one.
    pub fn esm(&self) -> (r: Option<&ESMGraphModule>)
        ensures
            match r {
                Some(module) => *self == GraphModule::Esm(*module),
                None => !(self is Esm),
            },
    {
        match self {
            GraphModule::Esm(module) => Some(module),
            _ => None,
        }
    }

    /// The module as an import from a package, if it is one.
    pub fn npm(&self) -> (r: Option<&NPMImportSpecifier>)
        ensures
            match r {
                Some(module) => *self == GraphModule::Npm(*module),
                None => !(self is Npm),
            },
    {
        match self {
            GraphModule::Npm(module) => Some(module),
            _ => None,
        }
    }

    /// The module as a virtual module, if it is one.
    pub fn virtual_module(&self) -> (r: Option<&VirtualModule>)
        ensures
            match r {
                Some(module) => *self == GraphModule::Virtual(*module),
                None => !(self is Virtual),
            },
    {
        match self {
            GraphModule::Virtual(module) => Some(module),
            _ => None,
        }
    }
}

impl ModuleGraph {
    /// Every table of the graph is well-formed, and so are the tables inside
    /// its modules and packages.
    pub closed spec fn wf(&self) -> bool {
        &&& self.modules.wf()
        &&& self.redirects.wf()
        &&& self.specifiers.wf()
        &&& self.npm_packages.wf()
        &&& self.global_package_imports.wf()
        &&& forall|module: GraphModule| #[trigger] self.modules.holds(module) ==> module.wf()
        &&& forall|package: NPMPackage| #[trigger]
            self.npm_packages.holds(package) ==> package.wf()
        &&& self@.is_sound()
        &&& self@.is_interned_by_url()
    }

    /// What well-formedness says of the contents of the graph.
    pub proof fn lemma_wf(&self)
        requires
            self.wf(),
        ensures
            self@.modules.wf(),
            self@.redirects.wf(),
            self@.specifiers.wf(),
            self@.npm_packages.wf(),
            self@.global_package_imports.wf(),
            self@.is_sound(),
            self@.is_interned_by_url(),
    {
        self.modules.lemma_view_wf();
        self.redirects.lemma_view_wf();
        self.specifiers.lemma_view_wf();
        self.npm_packages.lemma_view_wf();
        self.global_package_imports.lemma_view_wf();
    }

    /// The graph that holds nothing yet. Its root directory is the empty
    /// path until the graph is built.
    pub fn new() -> (r: Self)
        ensures
            r.wf(),
            r@ == GraphView::empty(r@.root_dir),
    {
        ModuleGraph {
            modules: LookupTable::new(),
            redirects: LookupTable::new(),
            specifiers: LookupTable::new(),
            root_specifier: None,
            npm_packages: LookupTable::new(),
            global_package_imports: LookupTable::new(),
            root_dir: empty(),
        }
    }

    /// The specifier that the application starts from, once the graph is
    /// built.
    pub fn root_specifier(&self) -> (r: Option<Arc<ModuleSpecifier>>)
        ensures
            option_view(r) == self@.root_specifier,
    {
        match &self.root_specifier {
            Some(root) => Some(root.clone()),
            None => None,
        }
    }

    /// The directory that local files are served relative to.
    pub fn root_dir(&self) -> (r: &PathBuf)
        ensures
            *r == self@.root_dir,
    {
        &self.root_dir
    }

    /// The imports that any module may fall back to, by import string.
    pub fn global_package_imports(&self) -> (r: &LookupTable<Arc<ModuleSpecifier>>)
        ensures
            r@ == self@.global_package_imports,
            self.wf() ==> r.wf(),
    {
        &self.global_package_imports
    }

    /// The module that the application starts from: the ECMAScript module
    /// under the root specifier, if there is one.
    pub fn root(&self) -> (r: Option<&ESMGraphModule>)
        requires
            self.wf(),
        ensures
            option_view(r) == self@.root_module(),
            r matches Some(module) ==> module.wf(),
    {
        match &self.root_specifier {
            Some(root) => match self.modules.get(root.as_str()) {
                Some(module) => module.esm(),
                None => None,
            },
            None => None,
        }
    }

    /// The one shared instance that stands for `spec`: the instance interned
    /// before under the same URL or, where there is none, `spec` itself, which
    /// is kept for later calls.
    pub fn as_arc(&mut self, spec: ModuleSpecifier) -> (r: Arc<ModuleSpecifier>)
        requires
            old(self).wf(),
        ensures
            final(self).wf(),
            r@ == old(self)@.interned(spec@),
            r@.href == spec@.href,
            final(self)@ == old(self)@.with_interned(spec@),
    {
        let known = match self.specifiers.get(spec.as_str()) {
            Some(shared) => Some(shared.clone()),
            None => None,
        };
        match known {
            Some(shared) => shared,
            None => {
                let shared = Arc::new(spec);
                self.specifiers.insert(shared.to_string(), shared.clone());
                shared
            },
        }
    }

    /// The module that stands under `specifier` itself.
    pub fn get_module(&self, specifier: &ModuleSpecifier) -> (r: Option<&GraphModule>)
        requires
            self.wf(),
        ensures
            option_view(r) == self@.modules.get(specifier@.href),
            r matches Some(module) ==> module.wf(),
    {
        self.modules.get(specifier.as_str())
    }

    /// The module that a lookup of `specifier` ends at: the module under
    /// `specifier` or, where there is none, the module that its redirect leads
    /// to in the same way. `redirects` counts the redirects followed so far; at
    /// `REDIRECT_LIMIT` no further one is followed.
    pub fn get_module_with_redirect(&self, specifier: &ModuleSpecifier, redirects: usize) -> (r:
        Option<&GraphModule>)
        requires
            self.wf(),
        ensures
            option_view(r) == self@.follow(specifier@.href, redirects as nat),
            r matches Some(module) ==> module.wf(),
    {
        find_module(&self.modules, &self.redirects, specifier, redirects)
    }

    /// Whether every module has its lookup table, as after `build`.
    pub fn is_linked(&self) -> (r: bool)
        requires
            self.wf(),
        ensures
            r == self@.is_linked(),
    {
        let count = self.modules.len();
        let mut i: usize = 0;
        proof {
            self.modules.lemma_view_wf();
        }
        while i < count
            invariant
                self.wf(),
                self@.modules.wf(),
                count == self@.modules.order.len(),
                i <= count,
                forall|j: int| 0 <= j < i ==> (#[trigger] self@.modules.value_at(j)).is_linked(),
            decreases count - i,
        {
            let linked = match self.modules.value_at(i) {
                GraphModule::Esm(module) => module.is_linked(),
                _ => true,
            };
            if !linked {
                proof {
                    let key = self@.modules.order[i as int];
                    assert(self@.modules.order.contains(key));
                    assert(!self@.modules.map[key].is_linked());
                }
                return false;
            }
            i = i + 1;
        }
        proof {
            assert forall|key: Seq<char>| #[trigger]
                self@.modules.map.contains_key(key) implies self@.modules.map[key].is_linked() by {
                assert(self@.modules.order.contains(key));
                let j = choose|j: int|
                    0 <= j < self@.modules.order.len() && self@.modules.order[j] == key;
                assert(self@.modules.value_at(j).is_linked());
            }
        }
        true
    }

    /// The specifier at which `get_module_with_redirect` gives up for having
    /// followed `REDIRECT_LIMIT` redirects, if that is why it finds nothing.
    pub fn redirect_limit_reached(&self, specifier: &ModuleSpecifier, redirects: usize) -> (r:
        Option<String>)
        requires
            self.wf(),
        ensures
            option_view(r) == self@.exhausted(specifier@.href, redirects as nat),
    {
        find_exhausted(&self.modules, &self.redirects, specifier, redirects)
    }

    /// The package that the registry holds under `id`.
    pub fn get_npm_package(&self, id: &str) -> (r: Option<&NPMPackage>)
        requires
            self.wf(),
        ensures
            option_view(r) == self@.npm_packages.get(id@),
            r matches Some(package) ==> package.wf(),
    {
        self.npm_packages.get(id)
    }
}

/// The specifier at which a lookup of `specifier` in the given tables gives
/// up at the redirect limit, after `hops` redirects were followed already.
fn find_exhausted(
    modules: &LookupTable<GraphModule>,
    redirects: &LookupTable<Arc<ModuleSpecifier>>,
    specifier: &ModuleSpecifier,
    hops: usize,
) -> (r: Option<String>)
    requires
        modules.wf(),
        redirects.wf(),
    ensures
        option_view(r) == exhausted_at(
            modules@.map.dom(),
            targets_of(redirects@.map),
            specifier@.href,
            hops as nat,
        ),
    decreases REDIRECT_LIMIT - hops,
{
    if modules.contains_key(specifier.as_str()) {
        return None;
    }
    match redirects.get(specifier.as_str()) {
        Some(target) => {
            if hops < REDIRECT_LIMIT {
                find_exhausted(modules, redirects, target, hops + 1)
            } else {
                Some(specifier.to_string())
            }
        },
        None => None,
    }
}

/// The module that a lookup of `specifier` ends at in the given tables, after
/// `hops` redirects were followed already.
fn find_module<'a>(
    modules: &'a LookupTable<GraphModule>,
    redirects: &LookupTable<Arc<ModuleSpecifier>>,
    specifier: &ModuleSpecifier,
    hops: usize,
) -> (r: Option<&'a GraphModule>)
    requires
        modules.wf(),
        redirects.wf(),
    ensures
        option_view(r) == found_module(
            modules@.map,
            redirects@.map,
            specifier@.href,
            hops as nat,
        ),
        r matches Some(module) ==> modules.holds(*module),
    decreases REDIRECT_LIMIT - hops,
{
    match modules.get(specifier.as_str()) {
        Some(module) => {
            return Some(module);
        },
        None => {},
    }
    match redirects.get(specifier.as_str()) {
        Some(target) => {
            if hops < REDIRECT_LIMIT {
                return find_module(modules, redirects, target, hops + 1);
            }
        },
        None => {},
    }
    None
}

} // verus!
