//! What the server answers to the three questions it is asked: the lookup
//! table of a module, the transform of a module, and the metadata of a
//! package. Receiving the question and sending the answer is left to the
//! caller.
use crate::graph::table::{LookupTable, TableView};
use crate::graph::view::{GraphView, ModuleView};
use crate::graph::{ESMGraphModule, ModuleGraph};
use crate::model::option_view;
use crate::npm::id::{NPMPackageId, qualified_name};
use crate::specifier::{ModuleSpecifier, SpecifierView, url_serialization};
use crate::transpiler::transform::TransformResult;
use std::sync::Arc;
use vstd::prelude::*;
use vstd::string::*;

verus! {

/// The status of a question that was put wrongly.
pub const BAD_REQUEST: u16 = 400;

/// The status of a question about something that is not there.
pub const NOT_FOUND: u16 = 404;

/// The status of a failure inside the server.
pub const INTERNAL_SERVER_ERROR: u16 = 500;

/// The body of a refusal: what kind of failure it is and, where there is
/// more to say, a description for the reader.
#[derive(Debug)]
pub struct ErrorResponse {
    pub error: String,
    pub description: Option<String>,
}

/// A refusal with its status.
#[derive(Debug)]
pub struct Failure {
    pub status: u16,
    pub body: ErrorResponse,
}

/// The lookup table of a module: for each import string the URL of the
/// module it means.
#[derive(Debug)]
pub struct ModuleLookupTableResponse {
    pub table: LookupTable<String>,
}

/// The result of a transform.
#[derive(Debug)]
pub struct TranslateModuleOutput {
    pub result: TransformResult,
}

/// The metadata of a package.
#[derive(Debug)]
pub struct NPMMetadataResponse {
    pub registry_url: ModuleSpecifier,
    pub dependencies: Vec<NPMPackageId>,
}

/// Whether `failure` has the given status and kind, and a description with
/// the given text if any.
pub open spec fn is_failure(
    failure: Failure,
    status: u16,
    error: Seq<char>,
    description: Option<Seq<char>>,
) -> bool {
    &&& failure.status == status
    &&& failure.body.error@ == error
    &&& option_view(failure.body.description) == description
}

/// The table that names each resolved module by its whole URL.
pub open spec fn urls_of(table: TableView<SpecifierView>) -> TableView<Seq<char>> {
    TableView {
        order: table.order,
        map: table.map.map_values(|target: SpecifierView| target.href),
    }
}

/// Calls `Url::parse` and hands back the text of the error where it fails.
/// There is an error exactly where the text does not parse; nothing is
/// claimed of its wording.
#[verifier::external_body]
fn parse_error(text: &str) -> (r: Option<String>)
    ensures
        r is Some <==> url_serialization(text@) is None,
{
    match url::Url::parse(text) {
        Ok(_) => None,
        Err(error) => Some(error.to_string()),
    }
}

/// A refusal made of its parts.
fn refuse(status: u16, error: &str, description: Option<String>) -> (r: Failure)
    ensures
        is_failure(r, status, error@, option_view(description)),
{
    Failure { status, body: ErrorResponse { error: String::from_str(error), description } }
}

/// Copies a lookup table with each target named by its URL.
fn table_of_urls(table: &LookupTable<Arc<ModuleSpecifier>>) -> (r: LookupTable<String>)
    requires
        table.wf(),
    ensures
        r.wf(),
        r@ == urls_of(table@),
{
    let mut urls: LookupTable<String> = LookupTable::new();
    let count = table.len();
    let mut i: usize = 0;
    proof {
        table.lemma_view_wf();
    }
    let ghost order = table@.order;
    while i < count
        invariant
            table.wf(),
            table@.wf(),
            order == table@.order,
            urls.wf(),
            count == order.len(),
            i <= count,
            urls@.order == order.take(i as int),
            forall|key: Seq<char>|
                urls@.map.contains_key(key) <==> exists|j: int|
                    0 <= j < i && #[trigger] order[j] == key,
            forall|key: Seq<char>| #[trigger]
                urls@.map.contains_key(key) ==> urls@.map[key] == table@.map[key].href,
        decreases count - i,
    {
        let ghost key = order[i as int];
        let ghost before = urls@;
        proof {
            assert(order.take(i + 1) == order.take(i as int).push(key));
            assert(!before.map.contains_key(key));
        }
        urls.insert(String::from_str(table.key_at(i)), table.value_at(i).to_string());
        proof {
            assert forall|other: Seq<char>|
                urls@.map.contains_key(other) <==> exists|j: int|
                    0 <= j < i + 1 && #[trigger] order[j] == other by {
                if other == key {
                    assert(order[i as int] == other);
                }
                if before.map.contains_key(other) {
                    let j = choose|j: int| 0 <= j < i && #[trigger] order[j] == other;
                    assert(0 <= j < i + 1 && order[j] == other);
                }
            }
        }
        i = i + 1;
    }
    proof {
        assert(order.take(count as int) == order);
        assert forall|key: Seq<char>| urls@.map.contains_key(key) <==> table@.map.contains_key(
            key,
        ) by {
            if table@.map.contains_key(key) {
                assert(order.contains(key));
                let j = choose|j: int| 0 <= j < order.len() && order[j] == key;
                assert(order[j] == key);
            }
            if urls@.map.contains_key(key) {
                let j = choose|j: int| 0 <= j < i && #[trigger] order[j] == key;
                assert(order.contains(key));
            }
        }
        assert(urls@.map =~= urls_of(table@).map);
    }
    urls
}

/// Answers the question for the lookup table of the module that `module`
/// names. A missing or malformed name is a bad request; an unknown module and
/// a module that is no ECMAScript module are not found.
///
/// The graph has to be linked, as it is once it is built.
pub fn get_module_lookup_table(graph: &ModuleGraph, module: Option<&str>) -> (r: Result<
    ModuleLookupTableResponse,
    Failure,
>)
    requires
        graph.wf(),
        graph@.is_linked(),
    ensures
        match r {
            Ok(response) => module matches Some(text) && lookup_table_of(graph@, text@)
                matches Some(table) && response.table@ == urls_of(table),
            Err(failure) => match module {
                None => is_failure(failure, BAD_REQUEST, "No module specified"@, None),
                Some(text) => match url_serialization(text@) {
                    None => failure.status == BAD_REQUEST && failure.body.error@
                        == "Invalid module specifier"@ && failure.body.description is Some,
                    Some(href) => match graph@.modules.get(href) {
                        None => is_failure(failure, NOT_FOUND, "Module not found"@, Some(href)),
                        Some(found) => !(found is Esm) && is_failure(
                            failure,
                            NOT_FOUND,
                            "Specifier exists, but points to a non-esm module"@,
                            Some(href),
                        ),
                    },
                },
            },
        },
{
    let text = match module {
        Some(text) => text,
        None => {
            return Err(refuse(BAD_REQUEST, "No module specified", None));
        },
    };
    let specifier = match ModuleSpecifier::parse(text) {
        Some(specifier) => specifier,
        None => {
            return Err(refuse(BAD_REQUEST, "Invalid module specifier", parse_error(text)));
        },
    };
    let found = match graph.get_module(&specifier) {
        Some(found) => found,
        None => {
            return Err(refuse(NOT_FOUND, "Module not found", Some(specifier.to_string())));
        },
    };
    let esm = match found.esm() {
        Some(esm) => esm,
        None => {
            return Err(
                refuse(
                    NOT_FOUND,
                    "Specifier exists, but points to a non-esm module",
                    Some(specifier.to_string()),
                ),
            );
        },
    };
    assert(found@ == ModuleView::Esm(esm@));
    assert(graph@.modules.map.contains_key(specifier@.href));
    let table = esm.lookup_table().unwrap();
    Ok(ModuleLookupTableResponse { table: table_of_urls(table) })
}

/// The module that `text` names, where `text` is a URL.
pub open spec fn named_module(graph: GraphView, text: Seq<char>) -> Option<ModuleView> {
    match url_serialization(text) {
        Some(href) => graph.modules.get(href),
        None => None,
    }
}

/// The lookup table of the ECMAScript module that `text` names, where there
/// is such a module and it is linked.
pub open spec fn lookup_table_of(graph: GraphView, text: Seq<char>) -> Option<
    TableView<SpecifierView>,
> {
    match named_module(graph, text) {
        Some(module) => module.lookup_table(),
        None => None,
    }
}

/// Finds the ECMAScript module that is to be transformed. An unknown module
/// and a module of another kind are not found.
pub fn find_esm_module<'a>(graph: &'a ModuleGraph, module_id: &ModuleSpecifier) -> (r: Result<
    &'a ESMGraphModule,
    Failure,
>)
    requires
        graph.wf(),
    ensures
        match r {
            Ok(esm) => esm.wf() && graph@.modules.get(module_id@.href) == Some(
                ModuleView::Esm(esm@),
            ),
            Err(failure) => match graph@.modules.get(module_id@.href) {
                None => is_failure(
                    failure,
                    NOT_FOUND,
                    "Module not found"@,
                    Some(module_id@.href),
                ),
                Some(found) => !(found is Esm) && is_failure(
                    failure,
                    NOT_FOUND,
                    "Module is not an ESM module"@,
                    Some(module_id@.href),
                ),
            },
        },
{
    match graph.get_module(module_id) {
        Some(found) => match found.esm() {
            Some(esm) => {
                assert(found@ == ModuleView::Esm(esm@));
                Ok(esm)
            },
            None => Err(
                refuse(NOT_FOUND, "Module is not an ESM module", Some(module_id.to_string())),
            ),
        },
        None => Err(refuse(NOT_FOUND, "Module not found", Some(module_id.to_string()))),
    }
}

/// The refusal for a module whose source could not be read, with the reason.
pub fn unreadable_module(reason: String) -> (r: Failure)
    ensures
        is_failure(r, BAD_REQUEST, "Failed to read module file"@, Some(reason@)),
{
    refuse(BAD_REQUEST, "Failed to read module file", Some(reason))
}

/// The answer to a transform that ended: its result, or a refusal where it
/// gave none.
pub fn transform_outcome(result: Option<TransformResult>) -> (r: Result<
    TranslateModuleOutput,
    Failure,
>)
    ensures
        match r {
            Ok(output) => result == Some(output.result),
            Err(failure) => result is None && is_failure(
                failure,
                INTERNAL_SERVER_ERROR,
                "Failed to transform module"@,
                None,
            ),
        },
{
    match result {
        Some(result) => Ok(TranslateModuleOutput { result }),
        None => Err(refuse(INTERNAL_SERVER_ERROR, "Failed to transform module", None)),
    }
}

/// Answers the question for the metadata of a package: where the registry
/// serves it from and which packages it depends on. A package that the
/// registry does not hold under its qualified name is not found.
pub fn get_npm_metadata(graph: &ModuleGraph, package_id: &NPMPackageId) -> (r: Result<
    NPMMetadataResponse,
    Failure,
>)
    requires
        graph.wf(),
    ensures
        match r {
            Ok(response) => graph@.npm_packages.get(qualified_name(package_id@)) matches Some(
                package,
            ) && response.registry_url@ == package.registry_url && (
            match package.dependencies.resolved {
                Some(table) => response.dependencies@.len() == table.order.len() && forall|
                    i: int,
                |
                    0 <= i < table.order.len() ==> (#[trigger] response.dependencies@[i])@
                        == table.value_at(i),
                None => response.dependencies@.len() == 0,
            }),
            Err(failure) => graph@.npm_packages.get(qualified_name(package_id@)) is None
                && is_failure(failure, NOT_FOUND, "Package not found"@, None),
        },
{
    let key = package_id.to_string();
    match graph.get_npm_package(key.as_str()) {
        Some(package) => Ok(
            NPMMetadataResponse {
                registry_url: package.registry_url().clone(),
                dependencies: package.dependencies(),
            },
        ),
        None => Err(refuse(NOT_FOUND, "Package not found", None)),
    }
}

} // verus!
