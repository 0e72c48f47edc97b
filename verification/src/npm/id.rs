//! Identifiers of registry packages.
use crate::text::concat3;
use vstd::prelude::*;
use vstd::string::*;

verus! {

/// What a package identifier is made of.
pub struct PackageIdView {
    pub name: Seq<char>,
    pub version: Seq<char>,
}

/// The text `name@version`.
pub open spec fn qualified_name(id: PackageIdView) -> Seq<char> {
    id.name + seq!['@'] + id.version
}

/// Whether `at` is where `text` splits into name and version: the first `@`
/// that is not the first character.
pub open spec fn is_split_point(text: Seq<char>, at: int) -> bool {
    &&& 1 <= at < text.len()
    &&& text[at] == '@'
    &&& forall|j: int| 1 <= j < at ==> text[j] != '@'
}

/// Whether `text` has a place to split at.
pub open spec fn has_split_point(text: Seq<char>) -> bool {
    exists|at: int| is_split_point(text, at)
}

/// The name and version that `text` splits into at `at`.
pub open spec fn split_at(text: Seq<char>, at: int) -> PackageIdView {
    PackageIdView { name: text.take(at), version: text.skip(at + 1) }
}

/// A package of the registry: its name and its version.
#[derive(Debug)]
pub struct NPMPackageId {
    pub name: String,
    pub version: String,
}

impl View for NPMPackageId {
    type V = PackageIdView;

    open spec fn view(&self) -> PackageIdView {
        PackageIdView { name: self.name@, version: self.version@ }
    }
}

impl Clone for NPMPackageId {
    fn clone(&self) -> (r: Self)
        ensures
            r == *self,
    {
        NPMPackageId { name: self.name.clone(), version: self.version.clone() }
    }
}

impl NPMPackageId {
    /// The qualified form `name@version`.
    pub fn to_string(&self) -> (r: String)
        ensures
            r@ == qualified_name(self@),
    {
        proof {
            reveal_strlit("@");
            assert("@"@ =~= seq!['@']);
        }
        concat3(self.name.as_str(), "@", self.version.as_str())
    }

    /// Whether `from_string` takes `id`: it is not empty and its first
    /// character is a single byte.
    pub fn is_splittable(id: &str) -> (r: bool)
        ensures
            r == (id@.len() > 0 && (id@[0] as u32) < 0x80),
    {
        let mut it = id.chars();
        match it.next() {
            Some(first) => (first as u32) < 0x80,
            None => false,
        }
    }

    /// As `from_string`, for any text: a text that `from_string` does not
    /// take, or that has no place to split at, is refused.
    pub fn try_from_str(value: &str) -> (r: Result<Self, ()>)
        ensures
            match r {
                Ok(package) => value@.len() > 0 && (value@[0] as u32) < 0x80 && exists|at: int|
                    is_split_point(value@, at) && package@ == split_at(value@, at),
                Err(_) => !(value@.len() > 0 && (value@[0] as u32) < 0x80) || !has_split_point(
                    value@,
                ),
            },
    {
        if !Self::is_splittable(value) {
            return Err(());
        }
        match Self::from_string(value) {
            Some(package) => Ok(package),
            None => Err(()),
        }
    }

    /// Splits `id` at its first `@` after the first character, so that a
    /// leading `@` of a scoped name stays in the name. There is no identifier
    /// where no such `@` exists.
    ///
    /// The first character has to be a single byte.
    pub fn from_string(id: &str) -> (r: Option<Self>)
        requires
            id@.len() > 0,
            (id@[0] as u32) < 0x80,
        ensures
            match r {
                Some(package) => exists|at: int|
                    is_split_point(id@, at) && package@ == split_at(id@, at),
                None => !has_split_point(id@),
            },
    {
        let length = id.unicode_len();
        let mut found: Option<usize> = None;
        let mut index: usize = 0;
        for c in it: id.chars()
            invariant
                it.seq() == id@,
                index == it.index(),
                index <= id@.len(),
                length == id@.len(),
                match found {
                    Some(at) => is_split_point(id@, at as int),
                    None => forall|j: int| 1 <= j < index ==> id@[j] != '@',
                },
        {
            if found.is_none() && index >= 1 && c == '@' {
                found = Some(index);
            }
            index = index + 1;
        }
        match found {
            Some(at) => {
                let name = id.substring_char(0, at);
                let version = id.substring_char(at + 1, length);
                assert(name@ == id@.take(at as int));
                assert(version@ == id@.skip(at + 1));
                Some(NPMPackageId { name: String::from_str(name), version: String::from_str(version) })
            },
            None => {
                assert forall|at: int| !is_split_point(id@, at) by {}
                None
            },
        }
    }
}

} // verus!
