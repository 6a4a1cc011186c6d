//! Why a request fails, and the text it then answers with.
use vstd::prelude::*;
use vstd::string::*;
use crate::engine::Directive;
use crate::directive::{DecodeIssue, field_key, field_text};

verus! {

/// Why a request cannot be answered.
pub enum EngineError {
    /// The request body is not valid UTF-8 where text is needed.
    BodyDecode,
    /// The template could not be rendered; the message holds each cause in turn.
    Render(String),
    /// A `proxy` or `redirect` value is there but does not have the required shape.
    DirectiveDecode(Directive, DecodeIssue),
    /// The outbound request of a `proxy` could not be built or sent.
    ProxyDispatch(String),
    /// The outbound request of a `redirect` could not be built or sent.
    RedirectDispatch(String),
}

/// The first line of the message of a render error.
pub open spec fn render_heading() -> Seq<char> {
    "Fail to render template!\n"@
}

/// The message of a render error: a heading, the error itself, then each underlying
/// cause in turn, separated by a blank line.
pub open spec fn render_message(outer: Seq<char>, causes: Seq<String>) -> Seq<char>
    decreases causes.len(),
{
    if causes.len() == 0 {
        render_heading() + outer
    } else {
        render_message(outer, causes.drop_last()) + "\n\n"@ + causes.last()@
    }
}

/// The name of a directive in messages.
pub open spec fn directive_name(k: Directive) -> Seq<char> {
    match k {
        Directive::Proxy => "proxy"@,
        Directive::Redirect => "redirect"@,
    }
}

/// What a decode issue says.
pub open spec fn issue_text(i: DecodeIssue) -> Seq<char> {
    match i {
        DecodeIssue::NotAnObject => "it is not an object"@,
        DecodeIssue::MissingField(f) => "missing field "@ + field_key(f),
        DecodeIssue::WrongType(f) => "wrong type of field "@ + field_key(f),
    }
}

/// The text that a failed request answers with.
pub open spec fn error_message(e: EngineError) -> Seq<char> {
    match e {
        EngineError::BodyDecode => "Request body is not valid UTF-8!"@,
        EngineError::Render(m) => m@,
        EngineError::DirectiveDecode(k, i) => "Invalid "@ + directive_name(k) + " directive: "@ + issue_text(i),
        EngineError::ProxyDispatch(m) => "Proxy request failed!\n"@ + m@,
        EngineError::RedirectDispatch(m) => "Redirect request failed!\n"@ + m@,
    }
}

fn directive_text(k: Directive) -> (r: &'static str)
    ensures
        r@ == directive_name(k),
{
    match k {
        Directive::Proxy => "proxy",
        Directive::Redirect => "redirect",
    }
}

fn issue_string(i: DecodeIssue) -> (r: String)
    ensures
        r@ == issue_text(i),
{
    match i {
        DecodeIssue::NotAnObject => String::from_str("it is not an object"),
        DecodeIssue::MissingField(f) => String::from_str("missing field ").concat(field_text(f)),
        DecodeIssue::WrongType(f) => String::from_str("wrong type of field ").concat(field_text(f)),
    }
}

impl EngineError {
    /// The error of a failed render, from the error and its chain of causes.
    pub fn render(outer: &str, causes: &Vec<String>) -> (r: EngineError)
        ensures
            r matches EngineError::Render(m) && m@ == render_message(outer@, causes@),
    {
        let mut m = String::from_str("Fail to render template!\n").concat(outer);
        let mut i: usize = 0;
        while i < causes.len()
            invariant
                i <= causes@.len(),
                m@ == render_message(outer@, causes@.subrange(0, i as int)),
            decreases causes.len() - i,
        {
            assert(causes@.subrange(0, i + 1).drop_last() =~= causes@.subrange(0, i as int));
            m = m.concat("\n\n").concat(causes[i].as_str());
            i = i + 1;
        }
        assert(causes@.subrange(0, causes@.len() as int) =~= causes@);
        EngineError::Render(m)
    }

    /// The text that a request failed with this error answers with.
    pub fn message(&self) -> (r: String)
        ensures
            r@ == error_message(*self),
    {
        match self {
            EngineError::BodyDecode => String::from_str("Request body is not valid UTF-8!"),
            EngineError::Render(m) => m.clone(),
            EngineError::DirectiveDecode(k, i) => String::from_str("Invalid ").concat(directive_text(*k)).concat(
                " directive: ",
            ).concat(issue_string(*i).as_str()),
            EngineError::ProxyDispatch(m) => String::from_str("Proxy request failed!\n").concat(m.as_str()),
            EngineError::RedirectDispatch(m) => String::from_str("Redirect request failed!\n").concat(m.as_str()),
        }
    }
}

} // verus!
