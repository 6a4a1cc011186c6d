//! The encodings of the template filters `format` and `parse`.
use vstd::prelude::*;
use vstd::string::*;

verus! {

/// How the `format` filter writes a value out.
#[derive(PartialEq, Eq, Structural, Clone, Copy, Debug)]
pub enum Encoding {
    Form,
    Json,
    Toml,
    Debug,
    Raw,
}

/// The encoding that `format` writes under a name.
pub open spec fn format_encoding(name: Seq<char>) -> Option<Encoding> {
    if name == "form"@ {
        Some(Encoding::Form)
    } else if name == "json"@ {
        Some(Encoding::Json)
    } else if name == "toml"@ {
        Some(Encoding::Toml)
    } else if name == "debug"@ {
        Some(Encoding::Debug)
    } else if name == "raw"@ {
        Some(Encoding::Raw)
    } else {
        None
    }
}

/// How the `parse` filter reads text.
#[derive(PartialEq, Eq, Structural, Clone, Copy, Debug)]
pub enum Parsing {
    Form,
    Json,
    Toml,
    Text,
    /// Form data, else JSON, else TOML, else the text itself.
    Guess,
}

/// The way `parse` reads text under an encoding name, or by guessing without one.
pub open spec fn parse_encoding(name: Option<Seq<char>>) -> Option<Parsing> {
    match name {
        None => Some(Parsing::Guess),
        Some(n) => if n == "form"@ {
            Some(Parsing::Form)
        } else if n == "json"@ {
            Some(Parsing::Json)
        } else if n == "toml"@ {
            Some(Parsing::Toml)
        } else if n == "text"@ {
            Some(Parsing::Text)
        } else {
            None
        },
    }
}

/// The message for a `format` encoding that does not exist.
pub open spec fn unknown_format(name: Seq<char>) -> Seq<char> {
    "Format "@ + name + " not implemented!"@
}

/// The message for a `parse` encoding that does not exist.
pub open spec fn unknown_parse(name: Seq<char>) -> Seq<char> {
    name + " encoding not implemented!"@
}

/// The encoding that `format` writes under `name`.
pub fn format_encoding_of(name: &str) -> (r: Result<Encoding, String>)
    ensures
        match format_encoding(name@) {
            Some(e) => r == Ok::<Encoding, String>(e),
            None => r matches Err(m) && m@ == unknown_format(name@),
        },
{
    let n = String::from_str(name);
    if n.eq(&String::from_str("form")) {
        Ok(Encoding::Form)
    } else if n.eq(&String::from_str("json")) {
        Ok(Encoding::Json)
    } else if n.eq(&String::from_str("toml")) {
        Ok(Encoding::Toml)
    } else if n.eq(&String::from_str("debug")) {
        Ok(Encoding::Debug)
    } else if n.eq(&String::from_str("raw")) {
        Ok(Encoding::Raw)
    } else {
        Err(String::from_str("Format ").concat(name).concat(" not implemented!"))
    }
}

/// The way `parse` reads text under the encoding `name`.
pub fn parse_encoding_of(name: Option<&str>) -> (r: Result<Parsing, String>)
    ensures
        match parse_encoding(
            match name {
                Some(n) => Some(n@),
                None => None,
            },
        ) {
            Some(p) => r == Ok::<Parsing, String>(p),
            None => r matches Err(m) && m@ == unknown_parse(name->Some_0@),
        },
{
    match name {
        None => Ok(Parsing::Guess),
        Some(name) => {
            let n = String::from_str(name);
            if n.eq(&String::from_str("form")) {
                Ok(Parsing::Form)
            } else if n.eq(&String::from_str("json")) {
                Ok(Parsing::Json)
            } else if n.eq(&String::from_str("toml")) {
                Ok(Parsing::Toml)
            } else if n.eq(&String::from_str("text")) {
                Ok(Parsing::Text)
            } else {
                Err(String::from_str(name).concat(" encoding not implemented!"))
            }
        },
    }
}

} // verus!
