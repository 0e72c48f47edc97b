//! A lenient reading of a dependency descriptor, used to explain why the
//! strict reading failed.
use crate::model::views;
use crate::text::concat3;
use vstd::prelude::*;
use vstd::string::*;

verus! {

/// What the code section of a dependency holds.
pub struct PreflightCodeView {
    pub specifier: Option<Seq<char>>,
    pub error: Option<Seq<char>>,
}

/// What a dependency of a module holds.
pub struct PreflightDependencyView {
    pub specifier: Seq<char>,
    pub code: Option<PreflightCodeView>,
}

/// What a module of the descriptor holds.
pub struct PreflightModuleView {
    pub kind: Seq<char>,
    pub specifier: Option<Seq<char>>,
    pub error: Option<Seq<char>>,
    pub dependencies: Seq<PreflightDependencyView>,
}

/// The complaint about one dependency: its import string and, on the next
/// line, the error of its code section. There is none where the code section
/// or its error is missing.
pub open spec fn dependency_diagnostic(dependency: PreflightDependencyView) -> Option<Seq<char>> {
    match dependency.code {
        Some(code) => match code.error {
            Some(error) => Some("Dependency "@ + dependency.specifier + ":\n"@ + error),
            None => None,
        },
        None => None,
    }
}

/// The complaints about the dependencies that have one, in their order.
pub open spec fn dependency_diagnostics(dependencies: Seq<PreflightDependencyView>) -> Seq<
    Seq<char>,
>
    decreases dependencies.len(),
{
    if dependencies.len() == 0 {
        Seq::empty()
    } else {
        let earlier = dependency_diagnostics(dependencies.drop_last());
        match dependency_diagnostic(dependencies.last()) {
            Some(text) => earlier.push(text),
            None => earlier,
        }
    }
}

/// The complaint about a module itself: its kind, its specifier (or a note
/// that there is none) and its error. There is none where the module has no
/// error.
pub open spec fn module_diagnostic(module: PreflightModuleView) -> Option<Seq<char>> {
    match module.error {
        Some(error) => Some(
            module.kind + ": "@ + (match module.specifier {
                Some(specifier) => specifier,
                None => "<no specifier available>"@,
            }) + " "@ + error,
        ),
        None => None,
    }
}

/// All complaints about a module: those of its dependencies, then its own.
pub open spec fn module_diagnostics(module: PreflightModuleView) -> Seq<Seq<char>> {
    let earlier = dependency_diagnostics(module.dependencies);
    match module_diagnostic(module) {
        Some(text) => earlier.push(text),
        None => earlier,
    }
}

/// A descriptor of which only the modules are read.
#[derive(Debug)]
pub struct PreflightInfo {
    pub modules: Vec<PreflightModule>,
}

/// A module of the descriptor, with every field optional that may be missing
/// in a broken descriptor.
#[derive(Debug)]
pub struct PreflightModule {
    pub kind: String,
    pub specifier: Option<String>,
    pub error: Option<String>,
    pub dependencies: Vec<PreflightModuleDependency>,
}

/// A dependency of a module.
#[derive(Debug)]
pub struct PreflightModuleDependency {
    pub specifier: String,
    pub code: Option<PreflightModuleDependencyCode>,
}

/// The code section of a dependency.
#[derive(Debug)]
pub struct PreflightModuleDependencyCode {
    pub specifier: Option<String>,
    pub error: Option<String>,
}

impl View for PreflightModuleDependencyCode {
    type V = PreflightCodeView;

    open spec fn view(&self) -> PreflightCodeView {
        PreflightCodeView {
            specifier: match self.specifier {
                Some(text) => Some(text@),
                None => None,
            },
            error: match self.error {
                Some(text) => Some(text@),
                None => None,
            },
        }
    }
}

impl View for PreflightModuleDependency {
    type V = PreflightDependencyView;

    open spec fn view(&self) -> PreflightDependencyView {
        PreflightDependencyView {
            specifier: self.specifier@,
            code: match self.code {
                Some(code) => Some(code@),
                None => None,
            },
        }
    }
}

impl View for PreflightModule {
    type V = PreflightModuleView;

    open spec fn view(&self) -> PreflightModuleView {
        PreflightModuleView {
            kind: self.kind@,
            specifier: match self.specifier {
                Some(text) => Some(text@),
                None => None,
            },
            error: match self.error {
                Some(text) => Some(text@),
                None => None,
            },
            dependencies: views(self.dependencies@),
        }
    }
}

impl PreflightModule {
    /// Everything that is wrong with this module, one text per complaint.
    pub fn diagnostics(&self) -> (r: Vec<String>)
        ensures
            views(r@) == module_diagnostics(self@),
    {
        let mut diagnostics: Vec<String> = Vec::new();
        let mut i: usize = 0;
        while i < self.dependencies.len()
            invariant
                i <= self.dependencies.len(),
                views(diagnostics@) == dependency_diagnostics(
                    views(self.dependencies@).take(i as int),
                ),
            decreases self.dependencies.len() - i,
        {
            let ghost before = views(diagnostics@);
            let ghost upto = views(self.dependencies@).take(i + 1);
            assert(upto.drop_last() == views(self.dependencies@).take(i as int));
            assert(upto.last() == self.dependencies[i as int]@);
            match self.dependencies[i].diagnostics() {
                Some(text) => {
                    diagnostics.push(text);
                    assert(views(diagnostics@) == before.push(text@));
                },
                None => {},
            }
            i = i + 1;
        }
        assert(views(self.dependencies@).take(self.dependencies.len() as int) == views(
            self.dependencies@,
        ));
        match &self.error {
            Some(error) => {
                let ghost before = views(diagnostics@);
                let specifier = match &self.specifier {
                    Some(text) => text.as_str(),
                    None => "<no specifier available>",
                };
                let mut text = concat3(self.kind.as_str(), ": ", specifier);
                text.append(" ");
                text.append(error.as_str());
                diagnostics.push(text);
                assert(views(diagnostics@) == before.push(text@));
            },
            None => {},
        }
        diagnostics
    }
}

impl PreflightModuleDependency {
    /// The import string of this dependency.
    pub fn specifier(&self) -> (r: &str)
        ensures
            r@ == self@.specifier,
    {
        self.specifier.as_str()
    }

    /// What is wrong with this dependency, if anything.
    pub fn diagnostics(&self) -> (r: Option<String>)
        ensures
            match r {
                Some(text) => dependency_diagnostic(self@) == Some(text@),
                None => dependency_diagnostic(self@) is None,
            },
    {
        match &self.code {
            Some(code) => match &code.error {
                Some(error) => {
                    let mut text = concat3("Dependency ", self.specifier.as_str(), ":\n");
                    text.append(error.as_str());
                    Some(text)
                },
                None => None,
            },
            None => None,
        }
    }
}

} // verus!
