//! What building the graph could not resolve. Nothing of it stops the build;
//! the caller may print it.
use crate::npm::id::{NPMPackageId, PackageIdView, qualified_name};
use crate::text::concat3;
use vstd::prelude::*;
use vstd::string::*;

verus! {

/// What a diagnostic holds.
pub enum DiagnosticView {
    UnknownPackage { npm_package: Seq<char>, specifier: Seq<char> },
    UnresolvedPackageDependency { dependency: Seq<char>, package: PackageIdView },
    UnresolvedDependency { target: Seq<char>, import: Seq<char>, importer: Seq<char> },
    RedirectLimit { specifier: Seq<char> },
}

/// Something that building the graph could not resolve.
#[derive(Debug)]
pub enum Diagnostic {
    /// A module refers to a package that the registry does not hold; the
    /// module was passed over.
    UnknownPackage { npm_package: String, specifier: String },
    /// A package names a dependency that the registry does not hold; the
    /// dependency was left out.
    UnresolvedPackageDependency { dependency: String, package: NPMPackageId },
    /// A module declares a dependency whose target is no module of the
    /// graph; the dependency was left out.
    UnresolvedDependency { target: String, import: String, importer: String },
    /// A lookup gave up at this specifier, which is redirected further, since
    /// it had followed as many redirects as it may.
    RedirectLimit { specifier: String },
}

impl View for Diagnostic {
    type V = DiagnosticView;

    open spec fn view(&self) -> DiagnosticView {
        match self {
            Diagnostic::UnknownPackage { npm_package, specifier } => DiagnosticView::UnknownPackage {
                npm_package: npm_package@,
                specifier: specifier@,
            },
            Diagnostic::UnresolvedPackageDependency {
                dependency,
                package,
            } => DiagnosticView::UnresolvedPackageDependency {
                dependency: dependency@,
                package: package@,
            },
            Diagnostic::UnresolvedDependency {
                target,
                import,
                importer,
            } => DiagnosticView::UnresolvedDependency {
                target: target@,
                import: import@,
                importer: importer@,
            },
            Diagnostic::RedirectLimit { specifier } => DiagnosticView::RedirectLimit {
                specifier: specifier@,
            },
        }
    }
}

/// The line that tells a reader of the diagnostic.
pub open spec fn message_of(diagnostic: DiagnosticView) -> Seq<char> {
    match diagnostic {
        DiagnosticView::UnknownPackage { npm_package, specifier } => "Failed to resolve NPM module "@
            + npm_package + " for "@ + specifier + ", unknown reference"@,
        DiagnosticView::UnresolvedPackageDependency {
            dependency,
            package,
        } => "Failed to resolve dependency "@ + dependency + " from "@ + qualified_name(package),
        DiagnosticView::UnresolvedDependency {
            target,
            import,
            importer,
        } => "Failed to resolve dependency source "@ + target + " for "@ + import + " of "@
            + importer,
        DiagnosticView::RedirectLimit { specifier } => "Redirect limit reached for "@ + specifier,
    }
}

impl Diagnostic {
    /// The line that tells a reader of the diagnostic.
    pub fn message(&self) -> (r: String)
        ensures
            r@ == message_of(self@),
    {
        match self {
            Diagnostic::UnknownPackage { npm_package, specifier } => {
                let mut line = concat3("Failed to resolve NPM module ", npm_package.as_str(), " for ");
                line.append(specifier.as_str());
                line.append(", unknown reference");
                line
            },
            Diagnostic::UnresolvedPackageDependency { dependency, package } => {
                let mut line = concat3(
                    "Failed to resolve dependency ",
                    dependency.as_str(),
                    " from ",
                );
                let name = package.to_string();
                line.append(name.as_str());
                line
            },
            Diagnostic::UnresolvedDependency { target, import, importer } => {
                let mut line = concat3(
                    "Failed to resolve dependency source ",
                    target.as_str(),
                    " for ",
                );
                line.append(import.as_str());
                line.append(" of ");
                line.append(importer.as_str());
                line
            },
            Diagnostic::RedirectLimit { specifier } => crate::text::concat2(
                "Redirect limit reached for ",
                specifier.as_str(),
            ),
        }
    }
}

} // verus!
