//! The media type of a module as the dependency descriptor spells it.
use crate::specifier::MediaType as DenoMediaType;
use vstd::prelude::*;
use vstd::string::*;

verus! {

/// The media type that a descriptor means by `name`, if it is one of the
/// eighteen known spellings.
pub open spec fn media_type_named(name: Seq<char>) -> Option<DenoMediaType> {
    if name == "JavaScript"@ {
        Some(DenoMediaType::JavaScript)
    } else if name == "JSX"@ {
        Some(DenoMediaType::Jsx)
    } else if name == "Mjs"@ {
        Some(DenoMediaType::Mjs)
    } else if name == "Cjs"@ {
        Some(DenoMediaType::Cjs)
    } else if name == "TypeScript"@ {
        Some(DenoMediaType::TypeScript)
    } else if name == "Mts"@ {
        Some(DenoMediaType::Mts)
    } else if name == "Cts"@ {
        Some(DenoMediaType::Cts)
    } else if name == "Dts"@ {
        Some(DenoMediaType::Dts)
    } else if name == "Dmts"@ {
        Some(DenoMediaType::Dmts)
    } else if name == "Dcts"@ {
        Some(DenoMediaType::Dcts)
    } else if name == "TSX"@ {
        Some(DenoMediaType::Tsx)
    } else if name == "Css"@ {
        Some(DenoMediaType::Css)
    } else if name == "Json"@ {
        Some(DenoMediaType::Json)
    } else if name == "Html"@ {
        Some(DenoMediaType::Html)
    } else if name == "Sql"@ {
        Some(DenoMediaType::Sql)
    } else if name == "Wasm"@ {
        Some(DenoMediaType::Wasm)
    } else if name == "SourceMap"@ {
        Some(DenoMediaType::SourceMap)
    } else if name == "Unknown"@ {
        Some(DenoMediaType::Unknown)
    } else {
        None
    }
}

/// The spellings of the known media types, in the order in which
/// `media_type_named` tries them.
pub open spec fn media_type_names() -> Seq<Seq<char>> {
    seq![
        "JavaScript"@,
        "JSX"@,
        "Mjs"@,
        "Cjs"@,
        "TypeScript"@,
        "Mts"@,
        "Cts"@,
        "Dts"@,
        "Dmts"@,
        "Dcts"@,
        "TSX"@,
        "Css"@,
        "Json"@,
        "Html"@,
        "Sql"@,
        "Wasm"@,
        "SourceMap"@,
        "Unknown"@,
    ]
}

/// A media type read from a descriptor.
#[derive(Debug, Clone, Copy)]
pub struct MediaType {
    pub media_type: DenoMediaType,
}

impl MediaType {
    /// Reads the spelling that a descriptor uses. There is no media type for
    /// any other text.
    pub fn from_name(name: &str) -> (r: Option<MediaType>)
        ensures
            match r {
                Some(found) => media_type_named(name@) == Some(found.media_type),
                None => media_type_named(name@) is None,
            },
    {
        let media_type = if *name == *"JavaScript" {
            DenoMediaType::JavaScript
        } else if *name == *"JSX" {
            DenoMediaType::Jsx
        } else if *name == *"Mjs" {
            DenoMediaType::Mjs
        } else if *name == *"Cjs" {
            DenoMediaType::Cjs
        } else if *name == *"TypeScript" {
            DenoMediaType::TypeScript
        } else if *name == *"Mts" {
            DenoMediaType::Mts
        } else if *name == *"Cts" {
            DenoMediaType::Cts
        } else if *name == *"Dts" {
            DenoMediaType::Dts
        } else if *name == *"Dmts" {
            DenoMediaType::Dmts
        } else if *name == *"Dcts" {
            DenoMediaType::Dcts
        } else if *name == *"TSX" {
            DenoMediaType::Tsx
        } else if *name == *"Css" {
            DenoMediaType::Css
        } else if *name == *"Json" {
            DenoMediaType::Json
        } else if *name == *"Html" {
            DenoMediaType::Html
        } else if *name == *"Sql" {
            DenoMediaType::Sql
        } else if *name == *"Wasm" {
            DenoMediaType::Wasm
        } else if *name == *"SourceMap" {
            DenoMediaType::SourceMap
        } else if *name == *"Unknown" {
            DenoMediaType::Unknown
        } else {
            return None;
        };
        Some(MediaType { media_type })
    }

    /// The spellings that `from_name` knows.
    pub fn known_names() -> (r: Vec<&'static str>)
        ensures
            r@.map_values(|name: &'static str| name@) == media_type_names(),
    {
        let names = vec![
            "JavaScript",
            "JSX",
            "Mjs",
            "Cjs",
            "TypeScript",
            "Mts",
            "Cts",
            "Dts",
            "Dmts",
            "Dcts",
            "TSX",
            "Css",
            "Json",
            "Html",
            "Sql",
            "Wasm",
            "SourceMap",
            "Unknown",
        ];
        assert(names@.map_values(|name: &'static str| name@) =~= media_type_names());
        names
    }

    /// The media type itself.
    pub fn kind(&self) -> (r: DenoMediaType)
        ensures
            r == self.media_type,
    {
        self.media_type
    }
}

} // verus!
