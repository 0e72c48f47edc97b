//! The mathematical model of the module graph: what the graph holds, how a
//! specifier is looked up in it, and what building it from a descriptor means.
use crate::deno::info::{EsmDependencyView, RawModuleView, RawPackageView};
use crate::graph::dependencies::LinkView;
use crate::graph::diagnostics::DiagnosticView;
use crate::graph::table::TableView;
use crate::npm::id::{PackageIdView, qualified_name};
use crate::specifier::SpecifierView;
use crate::text::begins_with;
use std::path::PathBuf;
use vstd::prelude::*;

verus! {

/// How many redirects a lookup follows at most.
pub const REDIRECT_LIMIT: usize = 10;

/// What an ECMAScript module of the graph holds.
pub struct EsmView {
    pub specifier: SpecifierView,
    pub dependencies: LinkView<EsmDependencyView, SpecifierView>,
    pub local: PathBuf,
}

/// What an import from a registry package holds.
pub struct NpmImportView {
    pub specifier: SpecifierView,
    pub package: PackageIdView,
}

/// What a module of the graph holds.
pub enum ModuleView {
    Esm(EsmView),
    Npm(NpmImportView),
    Virtual(SpecifierView),
}

/// What a registry package of the graph holds.
pub struct PackageView {
    pub id: PackageIdView,
    pub dependencies: LinkView<Seq<char>, PackageIdView>,
    pub registry_url: SpecifierView,
}

/// What the graph holds. The tables of modules, redirects and interned
/// specifiers are keyed by the whole URL of a specifier.
pub struct GraphView {
    pub modules: TableView<ModuleView>,
    pub redirects: TableView<SpecifierView>,
    pub specifiers: TableView<SpecifierView>,
    pub root_specifier: Option<SpecifierView>,
    pub npm_packages: TableView<PackageView>,
    pub global_package_imports: TableView<SpecifierView>,
    pub root_dir: PathBuf,
}

impl ModuleView {
    /// The specifier of the module, whatever its kind.
    pub open spec fn specifier(self) -> SpecifierView {
        match self {
            ModuleView::Esm(module) => module.specifier,
            ModuleView::Npm(module) => module.specifier,
            ModuleView::Virtual(specifier) => specifier,
        }
    }

    /// Whether the declared dependencies of the module are still to be taken
    /// or were resolved already. Every module of a graph is so.
    pub open spec fn is_sound(self) -> bool {
        match self {
            ModuleView::Esm(module) => module.dependencies.raw is Some
                || module.dependencies.resolved is Some,
            _ => true,
        }
    }

    /// Whether the module has its lookup table, if it is one that gets one.
    pub open spec fn is_linked(self) -> bool {
        match self {
            ModuleView::Esm(module) => module.dependencies.resolved is Some,
            _ => true,
        }
    }

    /// The table from import string to resolved specifier, for an ECMAScript
    /// module whose dependencies were resolved.
    pub open spec fn lookup_table(self) -> Option<TableView<SpecifierView>> {
        match self {
            ModuleView::Esm(module) => module.dependencies.resolved,
            _ => None,
        }
    }
}

/// The key under which a lookup of `href` ends: `href` itself where it is
/// known, else what the redirect of `href` leads to, as long as fewer than
/// `REDIRECT_LIMIT` redirects were followed before. `hops` counts those.
pub open spec fn found_key(
    known: Set<Seq<char>>,
    redirects: Map<Seq<char>, Seq<char>>,
    href: Seq<char>,
    hops: nat,
) -> Option<Seq<char>>
    decreases REDIRECT_LIMIT - hops,
{
    if known.contains(href) {
        Some(href)
    } else if redirects.contains_key(href) && hops < REDIRECT_LIMIT {
        found_key(known, redirects, redirects[href], hops + 1)
    } else {
        None
    }
}

/// The specifier at which a lookup of `href` gives up for having followed
/// `REDIRECT_LIMIT` redirects: one that is not known and is redirected
/// further. `None` where the lookup ends for another reason.
pub open spec fn exhausted_at(
    known: Set<Seq<char>>,
    redirects: Map<Seq<char>, Seq<char>>,
    href: Seq<char>,
    hops: nat,
) -> Option<Seq<char>>
    decreases REDIRECT_LIMIT - hops,
{
    if known.contains(href) {
        None
    } else if redirects.contains_key(href) {
        if hops < REDIRECT_LIMIT {
            exhausted_at(known, redirects, redirects[href], hops + 1)
        } else {
            Some(href)
        }
    } else {
        None
    }
}

/// Where `steps` redirects lead from `href`, whether or not anything is known
/// on the way. `None` where the chain of redirects ends before.
pub open spec fn redirected(redirects: Map<Seq<char>, Seq<char>>, href: Seq<char>, steps: nat)
    -> Option<Seq<char>>
    decreases steps,
{
    if steps == 0 {
        Some(href)
    } else if redirects.contains_key(href) {
        redirected(redirects, redirects[href], (steps - 1) as nat)
    } else {
        None
    }
}

/// The table that the declared dependencies resolve to. A dependency without
/// a code section is passed over, and so is one whose target is not found.
/// Every other one binds its import string to the specifier of the module
/// found, a later one in place of an earlier one with the same import string.
pub open spec fn resolved_dependencies(
    directory: Map<Seq<char>, SpecifierView>,
    redirects: Map<Seq<char>, Seq<char>>,
    dependencies: Seq<EsmDependencyView>,
) -> TableView<SpecifierView>
    decreases dependencies.len(),
{
    if dependencies.len() == 0 {
        TableView::empty()
    } else {
        let earlier = resolved_dependencies(directory, redirects, dependencies.drop_last());
        match resolved_target(directory, redirects, dependencies.last()) {
            Some(target) => earlier.insert(dependencies.last().specifier, target),
            None => earlier,
        }
    }
}

/// The specifier of the module that one declared dependency resolves to.
pub open spec fn resolved_target(
    directory: Map<Seq<char>, SpecifierView>,
    redirects: Map<Seq<char>, Seq<char>>,
    dependency: EsmDependencyView,
) -> Option<SpecifierView> {
    match dependency.code {
        Some(code) => match found_key(directory.dom(), redirects, code.href, 0) {
            Some(key) => Some(directory[key]),
            None => None,
        },
        None => None,
    }
}

/// Whether a binding of `import` declared by a module of the scheme
/// `importer_scheme` also serves as a fallback for every other module: the
/// importer is a local file and the import string is bare, that is not
/// relative.
pub open spec fn is_global_import_of(importer_scheme: Seq<char>, import: Seq<char>) -> bool {
    importer_scheme == "file"@ && !begins_with(import, '.')
}

/// Whether a binding of `import` declared by `importer` also serves as a
/// fallback for every other module.
pub open spec fn is_global_import(importer: SpecifierView, import: Seq<char>) -> bool {
    is_global_import_of(importer.scheme, import)
}

/// The fallback table after the dependencies of `importer` were resolved:
/// `globals` with every resolved global import of `importer` entered.
pub open spec fn collected_global_imports(
    directory: Map<Seq<char>, SpecifierView>,
    redirects: Map<Seq<char>, Seq<char>>,
    importer: SpecifierView,
    dependencies: Seq<EsmDependencyView>,
    globals: TableView<SpecifierView>,
) -> TableView<SpecifierView>
    decreases dependencies.len(),
{
    if dependencies.len() == 0 {
        globals
    } else {
        let earlier = collected_global_imports(
            directory,
            redirects,
            importer,
            dependencies.drop_last(),
            globals,
        );
        match resolved_target(directory, redirects, dependencies.last()) {
            Some(target) => if is_global_import(importer, dependencies.last().specifier) {
                earlier.insert(dependencies.last().specifier, target)
            } else {
                earlier
            },
            None => earlier,
        }
    }
}

/// The table that the dependency names of a package resolve to: each name
/// that the registry knows is bound to the identifier of the package found;
/// the others are left out.
pub open spec fn resolved_package_dependencies(
    registry: Map<Seq<char>, PackageIdView>,
    names: Seq<Seq<char>>,
) -> TableView<PackageIdView>
    decreases names.len(),
{
    if names.len() == 0 {
        TableView::empty()
    } else {
        let earlier = resolved_package_dependencies(registry, names.drop_last());
        if registry.contains_key(names.last()) {
            earlier.insert(names.last(), registry[names.last()])
        } else {
            earlier
        }
    }
}

/// The dependency names of `package` that the registry does not know, each
/// as a diagnostic, in the order of the names.
pub open spec fn unresolved_package_dependencies(
    registry: Map<Seq<char>, PackageIdView>,
    package: PackageIdView,
    names: Seq<Seq<char>>,
) -> Seq<DiagnosticView>
    decreases names.len(),
{
    if names.len() == 0 {
        Seq::empty()
    } else {
        let earlier = unresolved_package_dependencies(registry, package, names.drop_last());
        if registry.contains_key(names.last()) {
            earlier
        } else {
            earlier.push(
                DiagnosticView::UnresolvedPackageDependency { dependency: names.last(), package },
            )
        }
    }
}

/// The declared dependencies of `importer` that bring code whose target is
/// not found, each as a diagnostic, in the order of the declarations. Where
/// the lookup of the target gave up at the redirect limit, a diagnostic of
/// that comes first.
pub open spec fn unresolved_dependencies(
    directory: Map<Seq<char>, SpecifierView>,
    redirects: Map<Seq<char>, Seq<char>>,
    importer: SpecifierView,
    dependencies: Seq<EsmDependencyView>,
) -> Seq<DiagnosticView>
    decreases dependencies.len(),
{
    if dependencies.len() == 0 {
        Seq::empty()
    } else {
        let earlier = unresolved_dependencies(
            directory,
            redirects,
            importer,
            dependencies.drop_last(),
        );
        match dependencies.last().code {
            Some(code) => if resolved_target(directory, redirects, dependencies.last()) is None {
                let unresolved = DiagnosticView::UnresolvedDependency {
                    target: code.href,
                    import: dependencies.last().specifier,
                    importer: importer.href,
                };
                match exhausted_at(directory.dom(), redirects, code.href, 0) {
                    Some(specifier) => earlier.push(
                        DiagnosticView::RedirectLimit { specifier },
                    ).push(unresolved),
                    None => earlier.push(unresolved),
                }
            } else {
                earlier
            },
            None => earlier,
        }
    }
}

/// The package that a raw package becomes.
pub open spec fn package_of(raw: RawPackageView) -> PackageView {
    PackageView {
        id: PackageIdView { name: raw.name, version: raw.version },
        dependencies: LinkView::fresh(raw.dependencies),
        registry_url: raw.registry_url,
    }
}

/// For every key of a module table, the specifier of the module there.
pub open spec fn directory_of(modules: Map<Seq<char>, ModuleView>) -> Map<
    Seq<char>,
    SpecifierView,
> {
    modules.map_values(|module: ModuleView| module.specifier())
}

/// For every redirected key, the key it is redirected to.
pub open spec fn targets_of(redirects: Map<Seq<char>, SpecifierView>) -> Map<
    Seq<char>,
    Seq<char>,
> {
    redirects.map_values(|target: SpecifierView| target.href)
}

/// For every key of a registry, the identifier of the package there.
pub open spec fn ids_of(packages: Map<Seq<char>, PackageView>) -> Map<Seq<char>, PackageIdView> {
    packages.map_values(|package: PackageView| package.id)
}

/// The module that a lookup of `href` ends at, after `hops` redirects were
/// followed already.
pub open spec fn found_module(
    modules: Map<Seq<char>, ModuleView>,
    redirects: Map<Seq<char>, SpecifierView>,
    href: Seq<char>,
    hops: nat,
) -> Option<ModuleView> {
    match found_key(modules.dom(), targets_of(redirects), href, hops) {
        Some(key) => Some(modules[key]),
        None => None,
    }
}

impl GraphView {
    /// The graph that holds nothing, with `root_dir` as its root directory.
    pub open spec fn empty(root_dir: PathBuf) -> Self {
        GraphView {
            modules: TableView::empty(),
            redirects: TableView::empty(),
            specifiers: TableView::empty(),
            root_specifier: None,
            npm_packages: TableView::empty(),
            global_package_imports: TableView::empty(),
            root_dir,
        }
    }

    /// Whether every interned specifier stands under its own URL.
    pub open spec fn is_interned_by_url(self) -> bool {
        forall|key: Seq<char>| #[trigger]
            self.specifiers.map.contains_key(key) ==> self.specifiers.map[key].href == key
    }

    /// Whether every module of the graph is sound.
    pub open spec fn is_sound(self) -> bool {
        forall|key: Seq<char>| #[trigger]
            self.modules.map.contains_key(key) ==> self.modules.map[key].is_sound()
    }

    /// Whether every module of the graph is linked.
    pub open spec fn is_linked(self) -> bool {
        forall|key: Seq<char>| #[trigger]
            self.modules.map.contains_key(key) ==> self.modules.map[key].is_linked()
    }

    /// For every key of the module table, the specifier of the module there.
    pub open spec fn directory(self) -> Map<Seq<char>, SpecifierView> {
        directory_of(self.modules.map)
    }

    /// For every redirected key, the key it is redirected to.
    pub open spec fn redirect_targets(self) -> Map<Seq<char>, Seq<char>> {
        targets_of(self.redirects.map)
    }

    /// For every key of the registry, the identifier of the package there.
    pub open spec fn package_ids(self) -> Map<Seq<char>, PackageIdView> {
        ids_of(self.npm_packages.map)
    }

    /// The module that a lookup of `href` ends at, after `hops` redirects
    /// were followed already.
    pub open spec fn follow(self, href: Seq<char>, hops: nat) -> Option<ModuleView> {
        found_module(self.modules.map, self.redirects.map, href, hops)
    }

    /// The module that the application starts from: the ECMAScript module
    /// under the root specifier, if there is one.
    pub open spec fn root_module(self) -> Option<EsmView> {
        match self.root_specifier {
            Some(root) => match self.modules.get(root.href) {
                Some(ModuleView::Esm(module)) => Some(module),
                _ => None,
            },
            None => None,
        }
    }

    /// The specifier at which a lookup of `href` gives up at the redirect
    /// limit, after `hops` redirects were followed already.
    pub open spec fn exhausted(self, href: Seq<char>, hops: nat) -> Option<Seq<char>> {
        exhausted_at(self.modules.map.dom(), self.redirect_targets(), href, hops)
    }

    /// The shared instance that stands for `specifier`: the one interned
    /// before under the same URL, or else `specifier` itself.
    pub open spec fn interned(self, specifier: SpecifierView) -> SpecifierView {
        if self.specifiers.map.contains_key(specifier.href) {
            self.specifiers.map[specifier.href]
        } else {
            specifier
        }
    }

    /// The graph after `specifier` was interned.
    pub open spec fn with_interned(self, specifier: SpecifierView) -> Self {
        if self.specifiers.map.contains_key(specifier.href) {
            self
        } else {
            GraphView { specifiers: self.specifiers.insert(specifier.href, specifier), ..self }
        }
    }

    /// The graph after one raw package was entered in the registry: under the
    /// key that the descriptor gives it and, where that differs, under its
    /// qualified name too.
    pub open spec fn with_package(self, key: Seq<char>, raw: RawPackageView) -> Self {
        let package = package_of(raw);
        let short = qualified_name(package.id);
        let first = if short != key {
            self.npm_packages.insert(short, package)
        } else {
            self.npm_packages
        };
        GraphView { npm_packages: first.insert(key, package), ..self }
    }

    /// The graph after the raw packages were entered, first to last.
    pub open spec fn with_packages(self, raws: Seq<(Seq<char>, RawPackageView)>) -> Self
        decreases raws.len(),
    {
        if raws.len() == 0 {
            self
        } else {
            self.with_packages(raws.drop_last()).with_package(raws.last().0, raws.last().1)
        }
    }

    /// A package after its dependency names were resolved against the
    /// registry. A package whose names were taken before stays as it is.
    pub open spec fn linked_package(self, package: PackageView) -> PackageView {
        match package.dependencies.raw {
            Some(names) => PackageView {
                dependencies: package.dependencies.after_take().after_set(
                    resolved_package_dependencies(self.package_ids(), names),
                ),
                ..package
            },
            None => package,
        }
    }

    /// What linking `package` leaves unresolved.
    pub open spec fn package_diagnostics(self, package: PackageView) -> Seq<DiagnosticView> {
        match package.dependencies.raw {
            Some(names) => unresolved_package_dependencies(self.package_ids(), package.id, names),
            None => Seq::empty(),
        }
    }

    /// What linking the first `count` packages, in the order of the
    /// registry, leaves unresolved.
    pub open spec fn package_diagnostics_after(self, count: nat) -> Seq<DiagnosticView>
        decreases count,
    {
        if count == 0 {
            Seq::empty()
        } else {
            self.package_diagnostics_after((count - 1) as nat) + self.package_diagnostics(
                self.npm_packages.value_at(count - 1),
            )
        }
    }

    /// The graph after every package of the registry was linked.
    pub open spec fn with_linked_packages(self) -> Self {
        GraphView {
            npm_packages: TableView {
                order: self.npm_packages.order,
                map: self.npm_packages.map.map_values(
                    |package: PackageView| self.linked_package(package),
                ),
            },
            ..self
        }
    }

    /// The module that a raw module becomes, or `None` for an import from a
    /// package that the registry does not know.
    pub open spec fn module_of(self, raw: RawModuleView) -> Option<ModuleView> {
        match raw {
            RawModuleView::Esm { specifier, local, dependencies, .. } => Some(
                ModuleView::Esm(
                    EsmView { specifier, dependencies: LinkView::fresh(dependencies), local },
                ),
            ),
            RawModuleView::Npm { specifier, npm_package } => if self.npm_packages.map.contains_key(
                npm_package,
            ) {
                Some(
                    ModuleView::Npm(
                        NpmImportView { specifier, package: self.npm_packages.map[npm_package].id },
                    ),
                )
            } else {
                None
            },
            RawModuleView::Node { specifier, .. } => Some(ModuleView::Virtual(specifier)),
            RawModuleView::External { specifier } => Some(ModuleView::Virtual(specifier)),
        }
    }

    /// What entering one raw module reports: an import from a package that
    /// the registry does not know.
    pub open spec fn entering_diagnostic(self, raw: RawModuleView) -> Seq<DiagnosticView> {
        match raw {
            RawModuleView::Npm { specifier, npm_package } => if self.npm_packages.map.contains_key(
                npm_package,
            ) {
                Seq::empty()
            } else {
                seq![DiagnosticView::UnknownPackage { npm_package, specifier: specifier.href }]
            },
            _ => Seq::empty(),
        }
    }

    /// What entering the raw modules reports, first to last.
    pub open spec fn entering_diagnostics(self, raws: Seq<RawModuleView>) -> Seq<DiagnosticView>
        decreases raws.len(),
    {
        if raws.len() == 0 {
            Seq::empty()
        } else {
            self.entering_diagnostics(raws.drop_last()) + self.with_modules(
                raws.drop_last(),
            ).entering_diagnostic(raws.last())
        }
    }

    /// The graph after one raw module was entered: its specifier is interned
    /// and the module stands under the URL of its specifier. An import from
    /// an unknown package changes nothing.
    pub open spec fn with_module(self, raw: RawModuleView) -> Self {
        match self.module_of(raw) {
            Some(module) => GraphView {
                modules: self.modules.insert(module.specifier().href, module),
                ..self.with_interned(module.specifier())
            },
            None => self,
        }
    }

    /// The graph after the raw modules were entered, first to last.
    pub open spec fn with_modules(self, raws: Seq<RawModuleView>) -> Self
        decreases raws.len(),
    {
        if raws.len() == 0 {
            self
        } else {
            self.with_modules(raws.drop_last()).with_module(raws.last())
        }
    }

    /// The graph after `root` was made its root specifier.
    pub open spec fn with_root(self, root: SpecifierView) -> Self {
        GraphView { root_specifier: Some(self.interned(root)), ..self.with_interned(root) }
    }

    /// The graph after one redirect was entered, both ends interned.
    pub open spec fn with_redirect(self, from: SpecifierView, to: SpecifierView) -> Self {
        let first = self.with_interned(from);
        let second = first.with_interned(to);
        GraphView {
            redirects: second.redirects.insert(first.interned(from).href, second.interned(to)),
            ..second
        }
    }

    /// The graph after the redirects were entered, first to last.
    pub open spec fn with_redirects(self, pairs: Seq<(SpecifierView, SpecifierView)>) -> Self
        decreases pairs.len(),
    {
        if pairs.len() == 0 {
            self
        } else {
            self.with_redirects(pairs.drop_last()).with_redirect(pairs.last().0, pairs.last().1)
        }
    }

    /// A module after its declared dependencies were resolved against the
    /// module table and the redirects. Only an ECMAScript module whose
    /// dependencies were not taken before changes.
    pub open spec fn linked_module(self, module: ModuleView) -> ModuleView {
        match module {
            ModuleView::Esm(esm) => match esm.dependencies.raw {
                Some(dependencies) => ModuleView::Esm(
                    EsmView {
                        dependencies: esm.dependencies.after_take().after_set(
                            resolved_dependencies(
                                self.directory(),
                                self.redirect_targets(),
                                dependencies,
                            ),
                        ),
                        ..esm
                    },
                ),
                None => module,
            },
            _ => module,
        }
    }

    /// What linking `module` leaves unresolved.
    pub open spec fn module_diagnostics(self, module: ModuleView) -> Seq<DiagnosticView> {
        match module {
            ModuleView::Esm(esm) => match esm.dependencies.raw {
                Some(dependencies) => unresolved_dependencies(
                    self.directory(),
                    self.redirect_targets(),
                    esm.specifier,
                    dependencies,
                ),
                None => Seq::empty(),
            },
            _ => Seq::empty(),
        }
    }

    /// What linking the first `count` modules, in the order of the module
    /// table, leaves unresolved.
    pub open spec fn module_diagnostics_after(self, count: nat) -> Seq<DiagnosticView>
        decreases count,
    {
        if count == 0 {
            Seq::empty()
        } else {
            self.module_diagnostics_after((count - 1) as nat) + self.module_diagnostics(
                self.modules.value_at(count - 1),
            )
        }
    }

    /// The fallback table after `module` was linked, where it stood at
    /// `globals` before.
    pub open spec fn global_imports_with(
        self,
        module: ModuleView,
        globals: TableView<SpecifierView>,
    ) -> TableView<SpecifierView> {
        match module {
            ModuleView::Esm(esm) => match esm.dependencies.raw {
                Some(dependencies) => collected_global_imports(
                    self.directory(),
                    self.redirect_targets(),
                    esm.specifier,
                    dependencies,
                    globals,
                ),
                None => globals,
            },
            _ => globals,
        }
    }

    /// The fallback table after the first `count` modules, in the order of
    /// the module table, were linked.
    pub open spec fn global_imports_after(self, count: nat) -> TableView<SpecifierView>
        decreases count,
    {
        if count == 0 {
            self.global_package_imports
        } else {
            self.global_imports_with(
                self.modules.value_at(count - 1),
                self.global_imports_after((count - 1) as nat),
            )
        }
    }

    /// The graph after every module was linked, in the order of the module
    /// table.
    pub open spec fn with_linked_modules(self) -> Self {
        GraphView {
            modules: TableView {
                order: self.modules.order,
                map: self.modules.map.map_values(|module: ModuleView| self.linked_module(module)),
            },
            global_package_imports: self.global_imports_after(self.modules.order.len()),
            ..self
        }
    }

    /// What building the graph from the parts of a descriptor leaves
    /// unresolved: first what linking the packages reports, then what
    /// entering the modules reports, then what linking the modules reports.
    pub open spec fn build_diagnostics(
        self,
        root_dir: PathBuf,
        packages: Seq<(Seq<char>, RawPackageView)>,
        modules: Seq<RawModuleView>,
        root: SpecifierView,
        redirects: Seq<(SpecifierView, SpecifierView)>,
    ) -> Seq<DiagnosticView> {
        let registered = GraphView { root_dir, ..self }.with_packages(packages);
        let linked = registered.with_linked_packages();
        let complete = linked.with_modules(modules).with_root(root).with_redirects(redirects);
        registered.package_diagnostics_after(registered.npm_packages.order.len())
            + linked.entering_diagnostics(modules) + complete.module_diagnostics_after(
            complete.modules.order.len(),
        )
    }

    /// The graph after it was built from the parts of a descriptor.
    pub open spec fn built(
        self,
        root_dir: PathBuf,
        packages: Seq<(Seq<char>, RawPackageView)>,
        modules: Seq<RawModuleView>,
        root: SpecifierView,
        redirects: Seq<(SpecifierView, SpecifierView)>,
    ) -> Self {
        GraphView { root_dir, ..self }.with_packages(packages).with_linked_packages().with_modules(
            modules,
        ).with_root(root).with_redirects(redirects).with_linked_modules()
    }
}

/// The resolved dependencies of a package are exactly the names that the
/// registry knows, each bound to the identifier of the package found there.
/// A name that the registry does not know is left out and hinders no other.
pub proof fn lemma_resolved_names_are_known(
    registry: Map<Seq<char>, PackageIdView>,
    names: Seq<Seq<char>>,
)
    ensures
        forall|name: Seq<char>|
            resolved_package_dependencies(registry, names).map.contains_key(name) <==> (
            names.contains(name) && registry.contains_key(name)),
        forall|name: Seq<char>|
            names.contains(name) && registry.contains_key(name) ==> #[trigger]
            resolved_package_dependencies(registry, names).map[name] == registry[name],
    decreases names.len(),
{
    if names.len() > 0 {
        let earlier = names.drop_last();
        lemma_resolved_names_are_known(registry, earlier);
        assert forall|name: Seq<char>| names.contains(name) <==> (earlier.contains(name) || name
            == names.last()) by {
            if names.contains(name) {
                let i = choose|i: int| 0 <= i < names.len() && names[i] == name;
                if i < names.len() - 1 {
                    assert(earlier[i] == name);
                }
            }
            if earlier.contains(name) {
                let i = choose|i: int| 0 <= i < earlier.len() && earlier[i] == name;
                assert(names[i] == name);
            }
            if name == names.last() {
                assert(names[names.len() - 1] == name);
            }
        }
    }
}

/// Whether `dependencies` holds a declaration of `import` that resolves.
pub open spec fn declares_resolved(
    directory: Map<Seq<char>, SpecifierView>,
    redirects: Map<Seq<char>, Seq<char>>,
    dependencies: Seq<EsmDependencyView>,
    import: Seq<char>,
) -> bool {
    exists|i: int|
        0 <= i < dependencies.len() && (#[trigger] dependencies[i]).specifier == import
            && resolved_target(directory, redirects, dependencies[i]) is Some
}

/// Linking a module adds to the fallback table exactly the import strings
/// that the module declares and resolves while it is a local file and the
/// import string is bare. A module of another scheme adds nothing, and a
/// relative import is never added.
pub proof fn lemma_global_imports_are_bare(
    directory: Map<Seq<char>, SpecifierView>,
    redirects: Map<Seq<char>, Seq<char>>,
    importer: SpecifierView,
    dependencies: Seq<EsmDependencyView>,
    globals: TableView<SpecifierView>,
    import: Seq<char>,
)
    ensures
        collected_global_imports(
            directory,
            redirects,
            importer,
            dependencies,
            globals,
        ).map.contains_key(import) <==> globals.map.contains_key(import) || (is_global_import(
            importer,
            import,
        ) && declares_resolved(directory, redirects, dependencies, import)),
    decreases dependencies.len(),
{
    if dependencies.len() > 0 {
        let earlier = dependencies.drop_last();
        let last = dependencies.last();
        lemma_global_imports_are_bare(directory, redirects, importer, earlier, globals, import);
        if declares_resolved(directory, redirects, earlier, import) {
            let i = choose|i: int|
                0 <= i < earlier.len() && (#[trigger] earlier[i]).specifier == import
                    && resolved_target(directory, redirects, earlier[i]) is Some;
            assert(dependencies[i] == earlier[i]);
        }
        if declares_resolved(directory, redirects, dependencies, import) {
            let i = choose|i: int|
                0 <= i < dependencies.len() && (#[trigger] dependencies[i]).specifier == import
                    && resolved_target(directory, redirects, dependencies[i]) is Some;
            if i < earlier.len() {
                assert(earlier[i] == dependencies[i]);
            } else {
                assert(dependencies[i] == last);
            }
        }
        if last.specifier == import && resolved_target(directory, redirects, last) is Some {
            assert(dependencies[dependencies.len() - 1] == last);
        }
    }
}

/// Linking leaves no module without its lookup table.
pub proof fn lemma_linked_modules_are_linked(graph: GraphView)
    requires
        graph.is_sound(),
    ensures
        graph.with_linked_modules().is_linked(),
        graph.with_linked_modules().is_sound(),
{
    let linked = graph.with_linked_modules();
    assert forall|key: Seq<char>| #[trigger] linked.modules.map.contains_key(key) implies
        linked.modules.map[key].is_linked() && linked.modules.map[key].is_sound() by {
        assert(graph.modules.map.contains_key(key));
        assert(graph.modules.map[key].is_sound());
    }
}

/// What one declared dependency resolves to, said over the module table
/// itself: the specifier of the module that the lookup of its target ends at.
pub proof fn lemma_resolved_target(
    modules: Map<Seq<char>, ModuleView>,
    redirects: Map<Seq<char>, SpecifierView>,
    dependency: EsmDependencyView,
)
    ensures
        resolved_target(directory_of(modules), targets_of(redirects), dependency) == (
        match dependency.code {
            Some(code) => match found_module(modules, redirects, code.href, 0) {
                Some(module) => Some(module.specifier()),
                None => None,
            },
            None => None,
        }),
{
    assert(directory_of(modules).dom() =~= modules.dom());
    if dependency.code is Some {
        lemma_lookup_within_limit(
            modules.dom(),
            targets_of(redirects),
            dependency.code.unwrap().href,
            0,
        );
    }
}

/// A lookup follows at most `REDIRECT_LIMIT` redirects in all, those counted
/// by `hops` included: where it finds a key, the key is known and some number
/// of redirects within that bound leads from `href` to it.
pub proof fn lemma_lookup_within_limit(
    known: Set<Seq<char>>,
    redirects: Map<Seq<char>, Seq<char>>,
    href: Seq<char>,
    hops: nat,
)
    ensures
        found_key(known, redirects, href, hops) matches Some(key) ==> known.contains(key)
            && exists|steps: nat|
            (steps == 0 || hops + steps <= REDIRECT_LIMIT) && #[trigger] redirected(
                redirects,
                href,
                steps,
            ) == Some(key),
    decreases REDIRECT_LIMIT - hops,
{
    if known.contains(href) {
        let steps: nat = 0;
        assert(redirected(redirects, href, steps) == Some(href));
    } else if redirects.contains_key(href) && hops < REDIRECT_LIMIT {
        lemma_lookup_within_limit(known, redirects, redirects[href], hops + 1);
        if found_key(known, redirects, href, hops) is Some {
            let key = found_key(known, redirects, href, hops).unwrap();
            assert(found_key(known, redirects, redirects[href], hops + 1) == Some(key));
            let inner = choose|steps: nat|
                (steps == 0 || hops + 1 + steps <= REDIRECT_LIMIT) && #[trigger] redirected(
                    redirects,
                    redirects[href],
                    steps,
                ) == Some(key);
            let steps: nat = inner + 1;
            assert((steps - 1) as nat == inner);
            assert(redirected(redirects, href, steps) == Some(key));
            assert(hops + steps <= REDIRECT_LIMIT);
        }
    }
}

/// A lookup that gives up at the redirect limit finds nothing.
pub proof fn lemma_exhausted_lookup_finds_nothing(
    known: Set<Seq<char>>,
    redirects: Map<Seq<char>, Seq<char>>,
    href: Seq<char>,
    hops: nat,
)
    ensures
        exhausted_at(known, redirects, href, hops) is Some ==> found_key(
            known,
            redirects,
            href,
            hops,
        ) is None,
    decreases REDIRECT_LIMIT - hops,
{
    if !known.contains(href) && redirects.contains_key(href) && hops < REDIRECT_LIMIT {
        lemma_exhausted_lookup_finds_nothing(known, redirects, redirects[href], hops + 1);
    }
}

/// A lookup that starts inside a set of specifiers which redirects never
/// leave and of which none is known finds nothing. A cycle of redirects is
/// such a set, whatever its length.
pub proof fn lemma_redirect_cycle_not_found(
    known: Set<Seq<char>>,
    redirects: Map<Seq<char>, Seq<char>>,
    cycle: Set<Seq<char>>,
    href: Seq<char>,
    hops: nat,
)
    requires
        cycle.contains(href),
        forall|member: Seq<char>| cycle.contains(member) ==> !known.contains(member),
        forall|member: Seq<char>|
            cycle.contains(member) && redirects.contains_key(member) ==> cycle.contains(
                redirects[member],
            ),
    ensures
        found_key(known, redirects, href, hops) is None,
    decreases REDIRECT_LIMIT - hops,
{
    if redirects.contains_key(href) && hops < REDIRECT_LIMIT {
        lemma_redirect_cycle_not_found(known, redirects, cycle, redirects[href], hops + 1);
    }
}

/// Interning is idempotent: once `specifier` was interned, interning it again
/// changes nothing and yields the same shared instance, and so does
/// interning after any other specifier was interned in between. In a graph
/// whose interned specifiers stand under their own URLs, as in every graph
/// that is well-formed, that instance names the URL asked for.
pub proof fn lemma_interning_idempotent(
    graph: GraphView,
    specifier: SpecifierView,
    other: SpecifierView,
)
    ensures
        graph.with_interned(specifier).with_interned(specifier) == graph.with_interned(specifier),
        graph.with_interned(specifier).interned(specifier) == graph.interned(specifier),
        graph.with_interned(specifier).with_interned(other).interned(specifier) == graph.interned(
            specifier,
        ),
        graph.interned(specifier).href == specifier.href ==> graph.with_interned(
            specifier,
        ).specifiers.map[specifier.href] == graph.interned(specifier),
        graph.is_interned_by_url() ==> graph.interned(specifier).href == specifier.href
            && graph.with_interned(specifier).is_interned_by_url(),
{
}

} // verus!
