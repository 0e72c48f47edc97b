//! Module specifiers: absolute URLs that name modules.
use std::path::PathBuf;
use vstd::prelude::*;
use vstd::string::*;

verus! {

/// The serialization that the `url` crate gives to `text` when it parses it as
/// an absolute URL, or `None` where it refuses `text`.
pub uninterp spec fn url_serialization(text: Seq<char>) -> Option<Seq<char>>;

/// The scheme that the `url` crate finds in `text`, without the colon.
pub uninterp spec fn url_scheme(text: Seq<char>) -> Seq<char>;

/// The path that the `url` crate finds in `text`.
pub uninterp spec fn url_path(text: Seq<char>) -> Seq<char>;

/// The file that the `url` crate finds for the URL `href`: the path of a
/// `file` URL as a path of the platform, or `None` where the URL names a
/// remote host or its path cannot be a path here.
pub uninterp spec fn file_path_of(href: Seq<char>) -> Option<PathBuf>;

/// Calls `Url::parse` and hands back the URL's serialization, as
/// `String::from` gives it. The result depends on `text` alone.
#[verifier::external_body]
fn parse_serialization(text: &str) -> (r: Option<String>)
    ensures
        r is Some <==> url_serialization(text@) is Some,
        r matches Some(href) ==> url_serialization(text@) == Some(href@),
{
    match url::Url::parse(text) {
        Ok(parsed) => Some(String::from(parsed)),
        Err(_) => None,
    }
}

/// Calls `Url::parse` and then `Url::scheme`. There is a scheme exactly where
/// `text` parses, and it depends on `text` alone.
#[verifier::external_body]
fn parse_scheme(text: &str) -> (r: Option<String>)
    ensures
        r is Some <==> url_serialization(text@) is Some,
        r matches Some(scheme) ==> scheme@ == url_scheme(text@),
{
    match url::Url::parse(text) {
        Ok(parsed) => Some(parsed.scheme().to_string()),
        Err(_) => None,
    }
}

/// Calls `Url::parse` and then `Url::path`. There is a path exactly where
/// `text` parses, and it depends on `text` alone.
#[verifier::external_body]
fn parse_path(text: &str) -> (r: Option<String>)
    ensures
        r is Some <==> url_serialization(text@) is Some,
        r matches Some(path) ==> path@ == url_path(text@),
{
    match url::Url::parse(text) {
        Ok(parsed) => Some(parsed.path().to_string()),
        Err(_) => None,
    }
}

/// Calls `Url::parse` and then `Url::to_file_path`, which turns the path of a
/// `file` URL into a path of the platform and fails where the URL names a
/// remote host or its path cannot be a path here. The result depends on
/// `href` alone.
#[verifier::external_body]
fn parse_file_path(href: &str) -> (r: Option<PathBuf>)
    ensures
        r == file_path_of(href@),
{
    match url::Url::parse(href) {
        Ok(parsed) => parsed.to_file_path().ok(),
        Err(_) => None,
    }
}

/// What a specifier is made of.
pub struct SpecifierView {
    /// The whole URL. Two specifiers with the same `href` name the same module.
    pub href: Seq<char>,
    pub scheme: Seq<char>,
    pub path: Seq<char>,
}

/// A canonical absolute URL that names a module.
#[derive(Debug)]
pub struct ModuleSpecifier {
    href: String,
    scheme: String,
    path: String,
}

impl View for ModuleSpecifier {
    type V = SpecifierView;

    closed spec fn view(&self) -> SpecifierView {
        SpecifierView { href: self.href@, scheme: self.scheme@, path: self.path@ }
    }
}

impl Clone for ModuleSpecifier {
    fn clone(&self) -> (r: Self)
        ensures
            r == *self,
    {
        ModuleSpecifier {
            href: self.href.clone(),
            scheme: self.scheme.clone(),
            path: self.path.clone(),
        }
    }
}

impl ModuleSpecifier {
    /// Reads `text` as an absolute URL. The specifier holds the URL's
    /// serialization, scheme and path; there is none where `text` is no
    /// absolute URL.
    pub fn parse(text: &str) -> (r: Option<Self>)
        ensures
            match r {
                Some(specifier) => {
                    &&& url_serialization(text@) == Some(specifier@.href)
                    &&& specifier@.scheme == url_scheme(text@)
                    &&& specifier@.path == url_path(text@)
                },
                None => url_serialization(text@) is None,
            },
    {
        match parse_serialization(text) {
            Some(href) => {
                match parse_scheme(text) {
                    Some(scheme) => {
                        match parse_path(text) {
                            Some(path) => Some(ModuleSpecifier { href, scheme, path }),
                            None => None,
                        }
                    },
                    None => None,
                }
            },
            None => None,
        }
    }

    /// The whole URL as text.
    pub fn as_str(&self) -> (r: &str)
        ensures
            r@ == self@.href,
    {
        self.href.as_str()
    }

    /// The whole URL as an owned text.
    pub fn to_string(&self) -> (r: String)
        ensures
            r@ == self@.href,
    {
        self.href.clone()
    }

    /// The scheme, lower-cased and without the colon.
    pub fn scheme(&self) -> (r: &str)
        ensures
            r@ == self@.scheme,
    {
        self.scheme.as_str()
    }

    /// The path of the URL.
    pub fn path(&self) -> (r: &str)
        ensures
            r@ == self@.path,
    {
        self.path.as_str()
    }

    /// Whether both name the same module.
    pub fn same_module(&self, other: &ModuleSpecifier) -> (r: bool)
        ensures
            r == (self@.href == other@.href),
    {
        self.href == other.href
    }

    /// The file that a `file` URL points to, as a path of this platform.
    pub fn to_file_path(&self) -> (r: Option<PathBuf>)
        ensures
            r == file_path_of(self@.href),
    {
        parse_file_path(self.href.as_str())
    }
}

/// The kinds of content that a module can hold.
#[derive(Debug, Clone, Copy, PartialEq, Eq, Structural)]
pub enum MediaType {
    JavaScript,
    Jsx,
    Mjs,
    Cjs,
    TypeScript,
    Mts,
    Cts,
    Dts,
    Dmts,
    Dcts,
    Tsx,
    Css,
    Json,
    Html,
    Sql,
    Wasm,
    SourceMap,
    Unknown,
}

} // verus!
