//! The dependency descriptor that the graph is built from.
use crate::deno::info_preflight::{PreflightInfo, PreflightModuleView, module_diagnostics};
use crate::deno::media_type::MediaType;
use crate::model::views;
use crate::specifier::{MediaType as DenoMediaType, ModuleSpecifier, SpecifierView};
use crate::text::{concat2, decimal, decimal_u8, join, joined};
use std::path::PathBuf;
use vstd::prelude::*;
use vstd::string::*;

verus! {

/// The one version of the descriptor's layout that is understood.
pub const SUPPORTED_VERSION: u8 = 1;

/// What a declared dependency holds: the import string as written, and the
/// specifier of the code it stands for, where the import brings code.
pub struct EsmDependencyView {
    pub specifier: Seq<char>,
    pub code: Option<SpecifierView>,
}

/// What a raw package holds.
pub struct RawPackageView {
    pub name: Seq<char>,
    pub version: Seq<char>,
    pub dependencies: Seq<Seq<char>>,
    pub registry_url: SpecifierView,
}

/// What a raw module holds.
pub enum RawModuleView {
    Esm {
        specifier: SpecifierView,
        media_type: DenoMediaType,
        local: PathBuf,
        dependencies: Seq<EsmDependencyView>,
    },
    Npm { specifier: SpecifierView, npm_package: Seq<char> },
    Node { specifier: SpecifierView, module_name: Seq<char> },
    External { specifier: SpecifierView },
}

/// The code section of a declared dependency.
#[derive(Debug)]
pub struct EsmDependencyCode {
    pub specifier: ModuleSpecifier,
}

/// One declared dependency of an ECMAScript module.
#[derive(Debug)]
pub struct EsmDependency {
    pub specifier: String,
    pub code: Option<EsmDependencyCode>,
}

/// A local or remote ECMAScript module.
#[derive(Debug)]
pub struct EsmModule {
    pub specifier: ModuleSpecifier,
    pub media_type: MediaType,
    pub local: PathBuf,
    pub dependencies: Vec<EsmDependency>,
}

/// A specifier that belongs to a registry package.
#[derive(Debug)]
pub struct NpmModule {
    pub specifier: ModuleSpecifier,
    pub npm_package: String,
}

/// A module that the platform brings along.
#[derive(Debug)]
pub struct BuiltInNodeModule {
    /// Specifier (ex. "node:fs")
    pub specifier: ModuleSpecifier,
    /// Module name (ex. "fs")
    pub module_name: String,
}

/// A module that is left to the outside.
#[derive(Debug)]
pub struct ExternalModule {
    pub specifier: ModuleSpecifier,
}

/// A module of the descriptor.
#[derive(Debug)]
pub enum Module {
    Esm(EsmModule),
    Npm(NpmModule),
    Node(BuiltInNodeModule),
    External(ExternalModule),
}

/// A registry package of the descriptor.
#[derive(Debug)]
pub struct NpmPackage {
    pub name: String,
    pub version: String,
    pub dependencies: Vec<String>,
    pub registry_url: ModuleSpecifier,
}

/// The whole descriptor. The packages and the redirects are lists of pairs, in
/// the order in which they are to be entered.
#[derive(Debug)]
pub struct DenoInfo {
    pub version: u8,
    pub roots: Vec<ModuleSpecifier>,
    pub modules: Vec<Module>,
    pub npm_packages: Vec<(String, NpmPackage)>,
    pub packages: Vec<(String, String)>,
    pub redirects: Vec<(ModuleSpecifier, ModuleSpecifier)>,
}

impl View for EsmDependency {
    type V = EsmDependencyView;

    open spec fn view(&self) -> EsmDependencyView {
        EsmDependencyView {
            specifier: self.specifier@,
            code: match self.code {
                Some(code) => Some(code.specifier@),
                None => None,
            },
        }
    }
}

impl View for NpmPackage {
    type V = RawPackageView;

    open spec fn view(&self) -> RawPackageView {
        RawPackageView {
            name: self.name@,
            version: self.version@,
            dependencies: views(self.dependencies@),
            registry_url: self.registry_url@,
        }
    }
}

impl View for Module {
    type V = RawModuleView;

    open spec fn view(&self) -> RawModuleView {
        match self {
            Module::Esm(module) => RawModuleView::Esm {
                specifier: module.specifier@,
                media_type: module.media_type.media_type,
                local: module.local,
                dependencies: views(module.dependencies@),
            },
            Module::Npm(module) => RawModuleView::Npm {
                specifier: module.specifier@,
                npm_package: module.npm_package@,
            },
            Module::Node(module) => RawModuleView::Node {
                specifier: module.specifier@,
                module_name: module.module_name@,
            },
            Module::External(module) => RawModuleView::External { specifier: module.specifier@ },
        }
    }
}

impl RawModuleView {
    /// The specifier of the module, whatever its kind.
    pub open spec fn specifier(self) -> SpecifierView {
        match self {
            RawModuleView::Esm { specifier, .. } => specifier,
            RawModuleView::Npm { specifier, .. } => specifier,
            RawModuleView::Node { specifier, .. } => specifier,
            RawModuleView::External { specifier } => specifier,
        }
    }

    /// The media type of the module: its own for an ECMAScript module,
    /// JavaScript for a built-in, unknown for the rest.
    pub open spec fn media_type(self) -> DenoMediaType {
        match self {
            RawModuleView::Esm { media_type, .. } => media_type,
            RawModuleView::Node { .. } => DenoMediaType::JavaScript,
            RawModuleView::Npm { .. } => DenoMediaType::Unknown,
            RawModuleView::External { .. } => DenoMediaType::Unknown,
        }
    }
}

impl Module {
    /// The specifier of the module, whatever its kind.
    pub fn specifier(&self) -> (r: &ModuleSpecifier)
        ensures
            r@ == self@.specifier(),
    {
        match self {
            Module::Esm(module) => &module.specifier,
            Module::Npm(module) => &module.specifier,
            Module::Node(module) => &module.specifier,
            Module::External(module) => &module.specifier,
        }
    }

    /// The media type of the module.
    pub fn media_type(&self) -> (r: MediaType)
        ensures
            r.media_type == self@.media_type(),
    {
        match self {
            Module::Esm(module) => module.media_type,
            Module::Node(_) => MediaType { media_type: DenoMediaType::JavaScript },
            Module::Npm(_) => MediaType { media_type: DenoMediaType::Unknown },
            Module::External(_) => MediaType { media_type: DenoMediaType::Unknown },
        }
    }
}

/// The message for a descriptor of another layout version.
pub open spec fn unsupported_version_message(version: u8) -> Seq<char> {
    "Unsupported deno info schema version: "@ + decimal(version as nat)
}

/// All complaints about the modules, module by module.
pub open spec fn all_diagnostics(modules: Seq<PreflightModuleView>) -> Seq<Seq<char>>
    decreases modules.len(),
{
    if modules.len() == 0 {
        Seq::empty()
    } else {
        all_diagnostics(modules.drop_last()) + module_diagnostics(modules.last())
    }
}

/// The message for a descriptor that could not be read. It lists the
/// complaints found by the lenient reading, one per line, where there are any
/// that are not all empty, and ends with the error of the strict reading.
pub open spec fn unreadable_message(complaints: Seq<Seq<char>>, error: Seq<char>) -> Seq<char> {
    let listing = joined(complaints, "\n"@);
    if listing.len() > 0 {
        "Failed to parse deno info output:\n"@ + listing + "\nOriginal error:\n"@ + error
    } else {
        "Failed to parse deno info output: "@ + error
    }
}

impl DenoInfo {
    /// Accepts a descriptor of the supported layout version and refuses any
    /// other with a message that names its version.
    pub fn check_version(self) -> (r: Result<DenoInfo, String>)
        ensures
            match r {
                Ok(info) => self.version == SUPPORTED_VERSION && info == self,
                Err(message) => self.version != SUPPORTED_VERSION && message@
                    == unsupported_version_message(self.version),
            },
    {
        if self.version != SUPPORTED_VERSION {
            let number = decimal_u8(self.version);
            Err(concat2("Unsupported deno info schema version: ", number.as_str()))
        } else {
            Ok(self)
        }
    }
}

impl PreflightInfo {
    /// All complaints about the modules of the descriptor, module by module.
    pub fn diagnostics(&self) -> (r: Vec<String>)
        ensures
            views(r@) == all_diagnostics(views(self.modules@)),
    {
        let mut all: Vec<String> = Vec::new();
        let mut i: usize = 0;
        while i < self.modules.len()
            invariant
                i <= self.modules.len(),
                views(all@) == all_diagnostics(views(self.modules@).take(i as int)),
            decreases self.modules.len() - i,
        {
            let ghost upto = views(self.modules@).take(i + 1);
            assert(upto.drop_last() == views(self.modules@).take(i as int));
            assert(upto.last() == self.modules[i as int]@);
            let ghost before = views(all@);
            let mut found = self.modules[i].diagnostics();
            let ghost added = views(found@);
            all.append(&mut found);
            assert(views(all@) == before + added);
            i = i + 1;
        }
        assert(views(self.modules@).take(self.modules.len() as int) == views(self.modules@));
        all
    }
}

/// The message for a descriptor that the strict reading refused with `error`.
/// `preflight` is the lenient reading of the same text, where that succeeded.
pub fn describe_unreadable(preflight: Option<&PreflightInfo>, error: &str) -> (r: String)
    ensures
        r@ == unreadable_message(
            match preflight {
                Some(info) => all_diagnostics(views(info.modules@)),
                None => Seq::empty(),
            },
            error@,
        ),
{
    let listing = match preflight {
        Some(info) => {
            let complaints = info.diagnostics();
            join(&complaints, "\n")
        },
        None => {
            assert(joined(Seq::<Seq<char>>::empty(), "\n"@) == Seq::<char>::empty());
            String::new()
        },
    };
    if listing.as_str().unicode_len() > 0 {
        let mut message = concat2("Failed to parse deno info output:\n", listing.as_str());
        message.append("\nOriginal error:\n");
        message.append(error);
        message
    } else {
        concat2("Failed to parse deno info output: ", error)
    }
}

/// What the run of the discovery tool comes to. `success` says whether the
/// tool reported success, `stderr` is what it wrote to its error stream,
/// `parsed` is the strict reading of its output or the error of that reading,
/// and `preflight` is the lenient reading, where that succeeded.
///
/// A tool that failed is reported with its error stream. A descriptor that
/// was read is accepted if it has the supported layout version. One that was
/// not read is reported with the complaints of the lenient reading.
pub fn read_descriptor(
    success: bool,
    stderr: &str,
    parsed: Result<DenoInfo, String>,
    preflight: Option<&PreflightInfo>,
) -> (r: Result<DenoInfo, String>)
    ensures
        match r {
            Ok(info) => success && parsed == Ok::<DenoInfo, String>(info) && info.version
                == SUPPORTED_VERSION,
            Err(message) => if !success {
                message@ == "Deno info command failed: "@ + stderr@
            } else {
                match parsed {
                    Ok(info) => info.version != SUPPORTED_VERSION && message@
                        == unsupported_version_message(info.version),
                    Err(error) => message@ == unreadable_message(
                        match preflight {
                            Some(lenient) => all_diagnostics(views(lenient.modules@)),
                            None => Seq::empty(),
                        },
                        error@,
                    ),
                }
            },
        },
{
    if !success {
        return Err(describe_failed_command(stderr));
    }
    match parsed {
        Ok(info) => info.check_version(),
        Err(error) => Err(describe_unreadable(preflight, error.as_str())),
    }
}

/// The message for a discovery tool that ran and reported failure, with what
/// it wrote to its error stream.
pub fn describe_failed_command(stderr: &str) -> (r: String)
    ensures
        r@ == "Deno info command failed: "@ + stderr@,
{
    concat2("Deno info command failed: ", stderr)
}

/// The message for a discovery tool that could not be started.
pub fn describe_failed_start(error: &str) -> (r: String)
    ensures
        r@ == "Failed to execute deno info: "@ + error@,
{
    concat2("Failed to execute deno info: ", error)
}

} // verus!
