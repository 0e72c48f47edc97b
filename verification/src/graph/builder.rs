//! Building the graph from a descriptor: entering packages, modules, the root
//! and redirects, and linking packages and modules against the finished
//! tables.
use crate::deno::info::{DenoInfo, EsmDependency, Module, NpmPackage};
use crate::graph::diagnostics::Diagnostic;
use crate::graph::table::LookupTable;
use crate::graph::view::{
    EsmView, GraphView, ModuleView, collected_global_imports, directory_of, ids_of,
    lemma_linked_modules_are_linked, lemma_resolved_target, resolved_dependencies,
    resolved_package_dependencies, targets_of, unresolved_dependencies,
    unresolved_package_dependencies,
};
use crate::graph::{
    ESMGraphModule, GraphModule, ModuleGraph, NPMPackage, VirtualModule, declares_global_import,
    find_exhausted, find_module, option_dependencies,
};
use crate::model::views;
use crate::npm::id::NPMPackageId;
use crate::specifier::ModuleSpecifier;
use std::path::PathBuf;
use std::sync::Arc;
use vstd::prelude::*;
use vstd::string::*;

verus! {

/// The table that the dependency names of `package` resolve to in the
/// registry, and a diagnostic for each name that the registry does not know.
fn resolve_package_names(
    packages: &LookupTable<NPMPackage>,
    package: &NPMPackageId,
    names: &Vec<String>,
) -> (r: (LookupTable<NPMPackageId>, Vec<Diagnostic>))
    requires
        packages.wf(),
    ensures
        r.0.wf(),
        r.0@ == resolved_package_dependencies(ids_of(packages@.map), views(names@)),
        views(r.1@) == unresolved_package_dependencies(
            ids_of(packages@.map),
            package@,
            views(names@),
        ),
{
    let mut resolved: LookupTable<NPMPackageId> = LookupTable::new();
    let mut missing: Vec<Diagnostic> = Vec::new();
    let mut i: usize = 0;
    while i < names.len()
        invariant
            i <= names.len(),
            packages.wf(),
            resolved.wf(),
            resolved@ == resolved_package_dependencies(
                ids_of(packages@.map),
                views(names@).take(i as int),
            ),
            views(missing@) == unresolved_package_dependencies(
                ids_of(packages@.map),
                package@,
                views(names@).take(i as int),
            ),
        decreases names.len() - i,
    {
        proof {
            let upto = views(names@).take(i + 1);
            assert(upto.drop_last() == views(names@).take(i as int));
            assert(upto.last() == names@[i as int]@);
        }
        match packages.get(names[i].as_str()) {
            Some(found) => {
                resolved.insert(names[i].clone(), found.id().clone());
            },
            None => {
                let ghost before = views(missing@);
                let diagnostic = Diagnostic::UnresolvedPackageDependency {
                    dependency: names[i].clone(),
                    package: package.clone(),
                };
                missing.push(diagnostic);
                assert(views(missing@) =~= before.push(diagnostic@));
            },
        }
        i = i + 1;
    }
    assert(views(names@).take(names.len() as int) == views(names@));
    (resolved, missing)
}

/// The table that the declared dependencies of `importer` resolve to in the
/// given tables, and a diagnostic for each that brings code whose target is
/// not found. Every resolved global import is entered in `globals` on the
/// way.
fn resolve_dependencies(
    modules: &LookupTable<GraphModule>,
    redirects: &LookupTable<Arc<ModuleSpecifier>>,
    globals: &mut LookupTable<Arc<ModuleSpecifier>>,
    importer: &ModuleSpecifier,
    dependencies: &Vec<EsmDependency>,
) -> (r: (LookupTable<Arc<ModuleSpecifier>>, Vec<Diagnostic>))
    requires
        modules.wf(),
        redirects.wf(),
        old(globals).wf(),
    ensures
        r.0.wf(),
        final(globals).wf(),
        r.0@ == resolved_dependencies(
            directory_of(modules@.map),
            targets_of(redirects@.map),
            views(dependencies@),
        ),
        views(r.1@) == unresolved_dependencies(
            directory_of(modules@.map),
            targets_of(redirects@.map),
            importer@,
            views(dependencies@),
        ),
        final(globals)@ == collected_global_imports(
            directory_of(modules@.map),
            targets_of(redirects@.map),
            importer@,
            views(dependencies@),
            old(globals)@,
        ),
{
    let mut resolved: LookupTable<Arc<ModuleSpecifier>> = LookupTable::new();
    let mut missing: Vec<Diagnostic> = Vec::new();
    let mut i: usize = 0;
    while i < dependencies.len()
        invariant
            i <= dependencies.len(),
            modules.wf(),
            redirects.wf(),
            resolved.wf(),
            globals.wf(),
            views(missing@) == unresolved_dependencies(
                directory_of(modules@.map),
                targets_of(redirects@.map),
                importer@,
                views(dependencies@).take(i as int),
            ),
            resolved@ == resolved_dependencies(
                directory_of(modules@.map),
                targets_of(redirects@.map),
                views(dependencies@).take(i as int),
            ),
            globals@ == collected_global_imports(
                directory_of(modules@.map),
                targets_of(redirects@.map),
                importer@,
                views(dependencies@).take(i as int),
                old(globals)@,
            ),
        decreases dependencies.len() - i,
    {
        proof {
            let upto = views(dependencies@).take(i + 1);
            assert(upto.drop_last() == views(dependencies@).take(i as int));
            assert(upto.last() == dependencies@[i as int]@);
            lemma_resolved_target(
                modules@.map,
                redirects@.map,
                dependencies@[i as int]@,
            );
        }
        let dependency = &dependencies[i];
        match &dependency.code {
            Some(code) => {
                match find_module(modules, redirects, &code.specifier, 0) {
                    Some(module) => {
                        let target = module.specifier();
                        if declares_global_import(
                            importer.scheme(),
                            dependency.specifier.as_str(),
                        ) {
                            globals.insert(dependency.specifier.clone(), target.clone());
                        }
                        resolved.insert(dependency.specifier.clone(), target);
                    },
                    None => {
                        proof {
                            assert(directory_of(modules@.map).dom() =~= modules@.map.dom());
                        }
                        match find_exhausted(modules, redirects, &code.specifier, 0) {
                            Some(specifier) => {
                                let ghost before = views(missing@);
                                let limit = Diagnostic::RedirectLimit { specifier };
                                missing.push(limit);
                                assert(views(missing@) =~= before.push(limit@));
                            },
                            None => {},
                        }
                        let ghost before = views(missing@);
                        let diagnostic = Diagnostic::UnresolvedDependency {
                            target: code.specifier.to_string(),
                            import: dependency.specifier.clone(),
                            importer: importer.to_string(),
                        };
                        missing.push(diagnostic);
                        assert(views(missing@) =~= before.push(diagnostic@));
                    },
                }
            },
            None => {},
        }
        i = i + 1;
    }
    assert(views(dependencies@).take(dependencies.len() as int) == views(dependencies@));
    (resolved, missing)
}

/// A copy of the names, one by one.
fn copy_names(names: &Vec<String>) -> (r: Vec<String>)
    ensures
        views(r@) == views(names@),
{
    let mut copy: Vec<String> = Vec::new();
    let mut i: usize = 0;
    while i < names.len()
        invariant
            i <= names.len(),
            copy@.len() == i,
            forall|j: int| 0 <= j < i ==> copy@[j]@ == names@[j]@,
        decreases names.len() - i,
    {
        copy.push(names[i].clone());
        i = i + 1;
    }
    assert(views(copy@) =~= views(names@));
    copy
}

/// A copy of a raw package.
fn copy_package(package: &NpmPackage) -> (r: NpmPackage)
    ensures
        r@ == package@,
{
    NpmPackage {
        name: package.name.clone(),
        version: package.version.clone(),
        dependencies: copy_names(&package.dependencies),
        registry_url: package.registry_url.clone(),
    }
}

impl ModuleGraph {
    /// Enters one raw package in the registry: under `key` and, where that
    /// differs, under the qualified name of the package as well.
    pub fn register_package(&mut self, key: String, package: NpmPackage)
        requires
            old(self).wf(),
        ensures
            final(self).wf(),
            final(self)@ == old(self)@.with_package(key@, package@),
    {
        let twin = NPMPackage::from_package(copy_package(&package));
        let entered = NPMPackage::from_package(package);
        let short = entered.id().to_string();
        if short != key {
            self.npm_packages.insert(short, twin);
        }
        self.npm_packages.insert(key, entered);
    }

    /// Enters one raw module in the module table, under the URL of its
    /// specifier, and interns that specifier. An import from a package that
    /// the registry does not know is passed over and reported.
    pub fn insert_module(&mut self, module: Module) -> (r: Vec<Diagnostic>)
        requires
            old(self).wf(),
        ensures
            final(self).wf(),
            final(self)@ == old(self)@.with_module(module@),
            views(r@) == old(self)@.entering_diagnostic(module@),
    {
        let mut report: Vec<Diagnostic> = Vec::new();
        assert(views(report@) =~= Seq::empty());
        let entered = match module {
            Module::Esm(esm) => Some(GraphModule::Esm(ESMGraphModule::from_esm(esm))),
            Module::Npm(npm) => {
                match self.npm_packages.get(npm.npm_package.as_str()) {
                    Some(package) => Some(
                        GraphModule::Npm(package.import_specifier(Arc::new(npm.specifier))),
                    ),
                    None => {
                        let diagnostic = Diagnostic::UnknownPackage {
                            npm_package: npm.npm_package,
                            specifier: npm.specifier.to_string(),
                        };
                        report.push(diagnostic);
                        assert(views(report@) =~= seq![diagnostic@]);
                        None
                    },
                }
            },
            Module::Node(builtin) => Some(GraphModule::Virtual(VirtualModule::new(builtin.specifier))),
            Module::External(external) => Some(
                GraphModule::Virtual(VirtualModule::new(external.specifier)),
            ),
        };
        match entered {
            Some(entered) => {
                let specifier = entered.specifier();
                if !self.specifiers.contains_key(specifier.as_str()) {
                    self.specifiers.insert(specifier.to_string(), specifier.clone());
                }
                self.modules.insert(specifier.to_string(), entered);
            },
            None => {},
        }
        report
    }

    /// Makes `root` the root specifier of the graph.
    pub fn set_root(&mut self, root: ModuleSpecifier)
        requires
            old(self).wf(),
        ensures
            final(self).wf(),
            final(self)@ == old(self)@.with_root(root@),
    {
        let shared = self.as_arc(root);
        self.root_specifier = Some(shared);
    }

    /// Enters one redirect, with both of its ends interned.
    pub fn insert_redirect(&mut self, from: ModuleSpecifier, to: ModuleSpecifier)
        requires
            old(self).wf(),
        ensures
            final(self).wf(),
            final(self)@ == old(self)@.with_redirect(from@, to@),
    {
        let from = self.as_arc(from);
        let to = self.as_arc(to);
        self.redirects.insert(from.to_string(), to);
    }
}

impl ModuleGraph {
    /// Links the package at place `i` of the registry: its dependency names
    /// are taken, resolved against the registry and published.
    fn link_package_at(&mut self, i: usize) -> (r: Vec<Diagnostic>)
        requires
            old(self).wf(),
            i < old(self)@.npm_packages.order.len(),
        ensures
            views(r@) == old(self)@.package_diagnostics(old(self)@.npm_packages.value_at(i as int)),
            final(self).wf(),
            final(self)@ == (GraphView {
                npm_packages: old(self)@.npm_packages.with_value_at(
                    i as int,
                    old(self)@.linked_package(old(self)@.npm_packages.value_at(i as int)),
                ),
                ..old(self)@
            }),
    {
        let ghost first = self.npm_packages;
        proof {
            first.lemma_len();
        }
        let package = self.npm_packages.entries[i].1.id().clone();
        let names = self.npm_packages.entries[i].1.take_dependencies();
        let ghost second = self.npm_packages;
        proof {
            LookupTable::lemma_changed_at(&first, &second, i as int);
            first.lemma_view_wf();
            assert(first@.order.contains(first@.order[i as int]));
            assert(ids_of(second@.map) =~= ids_of(first@.map));
            second.lemma_len();
        }
        match names {
            Some(names) => {
                let (resolved, missing) = resolve_package_names(
                    &self.npm_packages,
                    &package,
                    &names,
                );
                self.npm_packages.entries[i].1.set_dependencies(resolved);
                proof {
                    LookupTable::lemma_changed_at(&second, &self.npm_packages, i as int);
                    assert(self@.npm_packages.map =~= old(self)@.npm_packages.with_value_at(
                        i as int,
                        old(self)@.linked_package(old(self)@.npm_packages.value_at(i as int)),
                    ).map);
                }
                missing
            },
            None => {
                proof {
                    assert(self@.npm_packages.map =~= old(self)@.npm_packages.with_value_at(
                        i as int,
                        old(self)@.linked_package(old(self)@.npm_packages.value_at(i as int)),
                    ).map);
                }
                let nothing: Vec<Diagnostic> = Vec::new();
                assert(views(nothing@) =~= Seq::empty());
                nothing
            },
        }
    }

    /// Links every package of the registry and reports each dependency name
    /// that the registry does not know, package by package.
    pub fn link_packages(&mut self) -> (r: Vec<Diagnostic>)
        requires
            old(self).wf(),
        ensures
            final(self).wf(),
            final(self)@ == old(self)@.with_linked_packages(),
            views(r@) == old(self)@.package_diagnostics_after(
                old(self)@.npm_packages.order.len(),
            ),
    {
        let ghost start = self@;
        let count = self.npm_packages.len();
        let mut report: Vec<Diagnostic> = Vec::new();
        assert(views(report@) =~= Seq::empty());
        let mut i: usize = 0;
        proof {
            self.npm_packages.lemma_view_wf();
        }
        while i < count
            invariant
                self.wf(),
                start.npm_packages.wf(),
                count == start.npm_packages.order.len(),
                i <= count,
                self@ == (GraphView { npm_packages: self@.npm_packages, ..start }),
                self@.npm_packages.order == start.npm_packages.order,
                self@.npm_packages.map.dom() == start.npm_packages.map.dom(),
                self@.package_ids() == start.package_ids(),
                views(report@) == start.package_diagnostics_after(i as nat),
                forall|j: int|
                    0 <= j < i ==> #[trigger] self@.npm_packages.value_at(j)
                        == start.linked_package(start.npm_packages.value_at(j)),
                forall|j: int|
                    i <= j < count ==> #[trigger] self@.npm_packages.value_at(j)
                        == start.npm_packages.value_at(j),
            decreases count - i,
        {
            let ghost before = self@;
            let ghost reported = views(report@);
            let mut missing = self.link_package_at(i);
            let ghost added = views(missing@);
            report.append(&mut missing);
            proof {
                assert(views(report@) =~= reported + added);
                assert(before.npm_packages.value_at(i as int) == start.npm_packages.value_at(
                    i as int,
                ));
                assert(start.package_diagnostics_after((i + 1) as nat)
                    == start.package_diagnostics_after(i as nat) + start.package_diagnostics(
                    start.npm_packages.value_at(i as int),
                ));
                let key = start.npm_packages.order[i as int];
                assert(start.npm_packages.order.contains(key));
                assert(before.linked_package(before.npm_packages.value_at(i as int))
                    == start.linked_package(start.npm_packages.value_at(i as int)));
                assert(self@.npm_packages.map.dom() =~= start.npm_packages.map.dom());
                assert(self@.package_ids() =~= start.package_ids());
                assert forall|j: int| 0 <= j < count && j != i implies #[trigger]
                    self@.npm_packages.value_at(j) == before.npm_packages.value_at(j) by {
                    assert(start.npm_packages.order[j] != key);
                }
            }
            i = i + 1;
        }
        proof {
            let goal = start.with_linked_packages();
            assert(self@.npm_packages.map =~= goal.npm_packages.map) by {
                assert forall|key: Seq<char>| start.npm_packages.map.contains_key(key) implies
                    #[trigger] self@.npm_packages.map[key] == goal.npm_packages.map[key] by {
                    assert(start.npm_packages.order.contains(key));
                    let j = choose|j: int|
                        0 <= j < start.npm_packages.order.len() && start.npm_packages.order[j]
                            == key;
                    assert(self@.npm_packages.value_at(j) == start.linked_package(
                        start.npm_packages.value_at(j),
                    ));
                }
            }
        }
        report
    }
}

impl GraphModule {
    /// Takes the declared dependencies out of an ECMAScript module, once.
    /// Any other module has none.
    fn take_dependencies(&mut self) -> (r: Option<Vec<EsmDependency>>)
        ensures
            option_dependencies(r) == (match old(self)@ {
                ModuleView::Esm(esm) => esm.dependencies.raw,
                _ => None,
            }),
            final(self)@ == (match old(self)@ {
                ModuleView::Esm(esm) => ModuleView::Esm(
                    EsmView { dependencies: esm.dependencies.after_take(), ..esm },
                ),
                other => other,
            }),
            final(self).wf() == old(self).wf(),
    {
        match self {
            GraphModule::Esm(module) => module.take_dependencies(),
            _ => None,
        }
    }

    /// Publishes the resolved dependencies of an ECMAScript module, once.
    fn set_dependencies(&mut self, resolved: LookupTable<Arc<ModuleSpecifier>>)
        requires
            resolved.wf(),
        ensures
            final(self)@ == (match old(self)@ {
                ModuleView::Esm(esm) => ModuleView::Esm(
                    EsmView { dependencies: esm.dependencies.after_set(resolved@), ..esm },
                ),
                other => other,
            }),
            old(self).wf() ==> final(self).wf(),
    {
        match self {
            GraphModule::Esm(module) => module.set_dependencies(resolved),
            _ => {},
        }
    }
}

impl ModuleGraph {
    /// Links the module at place `i` of the module table: its declared
    /// dependencies are taken, resolved against the module table and the
    /// redirects, and published; its global imports go to the fallback table.
    fn link_module_at(&mut self, i: usize) -> (r: Vec<Diagnostic>)
        requires
            old(self).wf(),
            i < old(self)@.modules.order.len(),
        ensures
            views(r@) == old(self)@.module_diagnostics(old(self)@.modules.value_at(i as int)),
            final(self).wf(),
            final(self)@ == (GraphView {
                modules: old(self)@.modules.with_value_at(
                    i as int,
                    old(self)@.linked_module(old(self)@.modules.value_at(i as int)),
                ),
                global_package_imports: old(self)@.global_imports_with(
                    old(self)@.modules.value_at(i as int),
                    old(self)@.global_package_imports,
                ),
                ..old(self)@
            }),
    {
        let ghost first = self.modules;
        proof {
            first.lemma_len();
        }
        let importer = self.modules.entries[i].1.specifier();
        let dependencies = self.modules.entries[i].1.take_dependencies();
        let ghost second = self.modules;
        proof {
            LookupTable::lemma_changed_at(&first, &second, i as int);
            first.lemma_view_wf();
            assert(first@.order.contains(first@.order[i as int]));
            assert(directory_of(second@.map) =~= directory_of(first@.map));
            second.lemma_len();
        }
        match dependencies {
            Some(dependencies) => {
                let (resolved, missing) = resolve_dependencies(
                    &self.modules,
                    &self.redirects,
                    &mut self.global_package_imports,
                    &importer,
                    &dependencies,
                );
                self.modules.entries[i].1.set_dependencies(resolved);
                proof {
                    LookupTable::lemma_changed_at(&second, &self.modules, i as int);
                    assert(self@.modules.map =~= old(self)@.modules.with_value_at(
                        i as int,
                        old(self)@.linked_module(old(self)@.modules.value_at(i as int)),
                    ).map);
                }
                missing
            },
            None => {
                proof {
                    assert(self@.modules.map =~= old(self)@.modules.with_value_at(
                        i as int,
                        old(self)@.linked_module(old(self)@.modules.value_at(i as int)),
                    ).map);
                }
                let nothing: Vec<Diagnostic> = Vec::new();
                assert(views(nothing@) =~= Seq::empty());
                nothing
            },
        }
    }

    /// Links every module of the module table, in the order of the table,
    /// and reports each declared dependency whose target is not found.
    pub fn link_modules(&mut self) -> (r: Vec<Diagnostic>)
        requires
            old(self).wf(),
        ensures
            final(self).wf(),
            final(self)@ == old(self)@.with_linked_modules(),
            final(self)@.is_linked(),
            views(r@) == old(self)@.module_diagnostics_after(old(self)@.modules.order.len()),
    {
        let ghost start = self@;
        let count = self.modules.len();
        let mut report: Vec<Diagnostic> = Vec::new();
        assert(views(report@) =~= Seq::empty());
        let mut i: usize = 0;
        proof {
            self.modules.lemma_view_wf();
        }
        while i < count
            invariant
                self.wf(),
                start.modules.wf(),
                count == start.modules.order.len(),
                i <= count,
                self@ == (GraphView {
                    modules: self@.modules,
                    global_package_imports: self@.global_package_imports,
                    ..start
                }),
                self@.modules.order == start.modules.order,
                self@.modules.map.dom() == start.modules.map.dom(),
                self@.directory() == start.directory(),
                self@.global_package_imports == start.global_imports_after(i as nat),
                views(report@) == start.module_diagnostics_after(i as nat),
                forall|j: int|
                    0 <= j < i ==> #[trigger] self@.modules.value_at(j) == start.linked_module(
                        start.modules.value_at(j),
                    ),
                forall|j: int|
                    i <= j < count ==> #[trigger] self@.modules.value_at(j)
                        == start.modules.value_at(j),
            decreases count - i,
        {
            let ghost before = self@;
            let ghost reported = views(report@);
            let mut missing = self.link_module_at(i);
            let ghost added = views(missing@);
            report.append(&mut missing);
            proof {
                assert(views(report@) =~= reported + added);
                assert(start.module_diagnostics_after((i + 1) as nat)
                    == start.module_diagnostics_after(i as nat) + start.module_diagnostics(
                    start.modules.value_at(i as int),
                ));
                let key = start.modules.order[i as int];
                assert(start.modules.order.contains(key));
                assert(before.modules.value_at(i as int) == start.modules.value_at(i as int));
                assert(before.linked_module(before.modules.value_at(i as int))
                    == start.linked_module(start.modules.value_at(i as int)));
                assert(self@.modules.map.dom() =~= start.modules.map.dom());
                assert(self@.directory() =~= start.directory());
                assert forall|j: int| 0 <= j < count && j != i implies #[trigger]
                    self@.modules.value_at(j) == before.modules.value_at(j) by {
                    assert(start.modules.order[j] != key);
                }
                assert(start.global_imports_after((i + 1) as nat) == start.global_imports_with(
                    start.modules.value_at(i as int),
                    start.global_imports_after(i as nat),
                ));
            }
            i = i + 1;
        }
        proof {
            let goal = start.with_linked_modules();
            assert(self@.modules.map =~= goal.modules.map) by {
                assert forall|key: Seq<char>| start.modules.map.contains_key(key) implies
                    #[trigger] self@.modules.map[key] == goal.modules.map[key] by {
                    assert(start.modules.order.contains(key));
                    let j = choose|j: int|
                        0 <= j < start.modules.order.len() && start.modules.order[j] == key;
                    assert(self@.modules.value_at(j) == start.linked_module(
                        start.modules.value_at(j),
                    ));
                }
            }
            lemma_linked_modules_are_linked(start);
        }
        report
    }
}

impl ModuleGraph {
    /// Builds the graph from a descriptor. The packages are entered in the
    /// registry and linked; the modules are entered in the module table; the
    /// first root of the descriptor becomes the root specifier; the redirects
    /// are entered; and at last every module is linked against the finished
    /// tables.
    ///
    /// What could not be resolved on the way stops nothing and comes back as
    /// diagnostics, in the order in which it was met.
    ///
    /// The descriptor has to name a root.
    pub fn build(&mut self, info: DenoInfo, root_dir: PathBuf) -> (r: Vec<Diagnostic>)
        requires
            old(self).wf(),
            info.roots@.len() > 0,
        ensures
            final(self).wf(),
            final(self)@ == old(self)@.built(
                root_dir,
                views(info.npm_packages@),
                views(info.modules@),
                info.roots@[0]@,
                views(info.redirects@),
            ),
            final(self)@.is_linked(),
            views(r@) == old(self)@.build_diagnostics(
                root_dir,
                views(info.npm_packages@),
                views(info.modules@),
                info.roots@[0]@,
                views(info.redirects@),
            ),
    {
        self.root_dir = root_dir;
        let root = info.roots[0].clone();

        let ghost start = self@;
        let ghost packages = views(info.npm_packages@);
        for entry in it: info.npm_packages
            invariant
                self.wf(),
                views(it.seq()) == packages,
                self@ == start.with_packages(packages.take(it.index() as int)),
        {
            proof {
                let upto = packages.take(it.index() + 1);
                assert(upto.drop_last() == packages.take(it.index() as int));
                assert(upto.last() == entry@);
            }
            let (key, package) = entry;
            self.register_package(key, package);
        }
        assert(packages.take(packages.len() as int) == packages);

        let mut report = self.link_packages();

        let ghost start = self@;
        let ghost modules = views(info.modules@);
        let ghost linking = views(report@);
        for module in it: info.modules
            invariant
                self.wf(),
                views(it.seq()) == modules,
                self@ == start.with_modules(modules.take(it.index() as int)),
                views(report@) == linking + start.entering_diagnostics(
                    modules.take(it.index() as int),
                ),
        {
            proof {
                let upto = modules.take(it.index() + 1);
                assert(upto.drop_last() == modules.take(it.index() as int));
                assert(upto.last() == module@);
            }
            let ghost reported = views(report@);
            let mut unknown = self.insert_module(module);
            let ghost added = views(unknown@);
            report.append(&mut unknown);
            assert(views(report@) =~= reported + added);
        }
        assert(modules.take(modules.len() as int) == modules);

        self.set_root(root);

        let ghost start = self@;
        let ghost redirects = views(info.redirects@);
        for entry in it: info.redirects
            invariant
                self.wf(),
                views(it.seq()) == redirects,
                self@ == start.with_redirects(redirects.take(it.index() as int)),
        {
            proof {
                let upto = redirects.take(it.index() + 1);
                assert(upto.drop_last() == redirects.take(it.index() as int));
                assert(upto.last() == entry@);
            }
            let (from, to) = entry;
            self.insert_redirect(from, to);
        }
        assert(redirects.take(redirects.len() as int) == redirects);

        let ghost reported = views(report@);
        let mut missing = self.link_modules();
        let ghost added = views(missing@);
        report.append(&mut missing);
        assert(views(report@) =~= reported + added);
        report
    }
}

} // verus!
