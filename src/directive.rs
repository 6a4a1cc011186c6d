use vstd::prelude::*;
use vstd::utf8::encode_utf8;
use vstd::string::*;
use crate::value::{Val, find, is_absent, lookup};

verus! {

/// A field of a directive.
#[derive(PartialEq, Eq, Structural, Clone, Copy, Debug)]
pub enum Field {
    Method,
    Url,
    Headers,
    Body,
    Status,
}

/// Why a directive value does not have the shape its key asks for.
#[derive(PartialEq, Eq, Structural, Clone, Copy, Debug)]
pub enum DecodeIssue {
    NotAnObject,
    MissingField(Field),
    WrongType(Field),
}

/// The key under which each field is written.
pub open spec fn field_key(f: Field) -> Seq<char> {
    match f {
        Field::Method => "method"@,
        Field::Url => "url"@,
        Field::Headers => "headers"@,
        Field::Body => "body"@,
        Field::Status => "status"@,
    }
}

pub(crate) fn field_text(f: Field) -> (r: &'static str)
    ensures
        r@ == field_key(f),
{
    match f {
        Field::Method => "method",
        Field::Url => "url",
        Field::Headers => "headers",
        Field::Body => "body",
        Field::Status => "status",
    }
}

fn field_name(f: Field) -> (r: String)
    ensures
        r@ == field_key(f),
{
    String::from_str(field_text(f))
}

/// A text field: `None` when it holds something else than text, `Some(None)` when absent.
pub open spec fn text_field(m: Seq<(String, Val)>, f: Field) -> Option<Option<String>> {
    let v = find(m, field_key(f));
    if is_absent(v) {
        Some(None)
    } else {
        match v {
            Some(Val::Str(s)) => Some(Some(s)),
            _ => None,
        }
    }
}

/// Every item of a list is an integer that fits in a byte.
pub open spec fn all_bytes(items: Seq<Val>) -> bool {
    forall|i: int| 0 <= i < items.len() ==> ((#[trigger] items[i]) matches Val::Int(n) && 0 <= n <= 255)
}

/// The bytes of a list of byte-sized integers.
pub open spec fn list_bytes(items: Seq<Val>) -> Seq<u8> {
    items.map_values(|v: Val| v->Int_0 as u8)
}

/// A body field: raw bytes, text taken as its UTF-8 encoding, or a list of bytes.
pub open spec fn bytes_field(m: Seq<(String, Val)>, f: Field) -> Option<Option<Seq<u8>>> {
    let v = find(m, field_key(f));
    if is_absent(v) {
        Some(None)
    } else {
        match v {
            Some(Val::Str(s)) => Some(Some(encode_utf8(s@))),
            Some(Val::Bytes(b)) => Some(Some(b@)),
            Some(Val::List(items)) => if all_bytes(items@) {
                Some(Some(list_bytes(items@)))
            } else {
                None
            },
            _ => None,
        }
    }
}

/// The bytes of a list of byte-sized integers; `None` if some item is not one.
fn bytes_of_list(items: &Vec<Val>) -> (r: Option<Vec<u8>>)
    ensures
        r is Some <==> all_bytes(items@),
        r matches Some(b) ==> b@ == list_bytes(items@),
{
    let mut out: Vec<u8> = Vec::new();
    let mut i: usize = 0;
    while i < items.len()
        invariant
            i <= items@.len(),
            all_bytes(items@.subrange(0, i as int)),
            out@ == list_bytes(items@.subrange(0, i as int)),
        decreases items.len() - i,
    {
        match &items[i] {
            Val::Int(n) => {
                if 0 <= *n && *n <= 255 {
                    out.push(*n as u8);
                } else {
                    assert(!all_bytes(items@));
                    return None;
                }
            },
            _ => {
                assert(!all_bytes(items@));
                return None;
            },
        }
        proof {
            assert(items@.subrange(0, i + 1) =~= items@.subrange(0, i as int).push(items@[i as int]));
            assert(out@ =~= list_bytes(items@.subrange(0, i + 1)));
        }
        i = i + 1;
    }
    assert(items@.subrange(0, items@.len() as int) =~= items@);
    Some(out)
}

/// Every entry of a map holds text.
pub open spec fn all_text(es: Seq<(String, Val)>) -> bool {
    forall|i: int| 0 <= i < es.len() ==> (#[trigger] es[i]).1 is Str
}

/// The entries of a map of text, as name and text.
pub open spec fn texts(es: Seq<(String, Val)>) -> Seq<(String, String)> {
    es.map_values(|e: (String, Val)| (e.0, e.1->Str_0))
}

/// A header map field: a map whose every value is text.
pub open spec fn headers_field(m: Seq<(String, Val)>, f: Field) -> Option<Option<Seq<(String, String)>>> {
    let v = find(m, field_key(f));
    if is_absent(v) {
        Some(None)
    } else {
        match v {
            Some(Val::Object(es)) => if all_text(es@) {
                Some(Some(texts(es@)))
            } else {
                None
            },
            _ => None,
        }
    }
}

/// A status field: an integer that fits in 16 bits.
pub open spec fn status_field(m: Seq<(String, Val)>, f: Field) -> Option<Option<u16>> {
    let v = find(m, field_key(f));
    if is_absent(v) {
        Some(None)
    } else {
        match v {
            Some(Val::Int(n)) => if 0 <= n <= 65535 {
                Some(Some(n as u16))
            } else {
                None
            },
            _ => None,
        }
    }
}

pub open spec fn headers_view(h: Option<Vec<(String, String)>>) -> Option<Seq<(String, String)>> {
    match h {
        Some(v) => Some(v@),
        None => None,
    }
}

pub open spec fn body_view(b: Option<Vec<u8>>) -> Option<Seq<u8>> {
    match b {
        Some(v) => Some(v@),
        None => None,
    }
}

/// The first thing wrong with a `proxy` or `redirect` value, if anything is.
pub open spec fn forward_issue(v: Val) -> Option<DecodeIssue> {
    match v {
        Val::Object(es) => {
            let m = es@;
            if text_field(m, Field::Method) is None {
                Some(DecodeIssue::WrongType(Field::Method))
            } else if text_field(m, Field::Url) is None {
                Some(DecodeIssue::WrongType(Field::Url))
            } else if text_field(m, Field::Url) == Some(None::<String>) {
                Some(DecodeIssue::MissingField(Field::Url))
            } else if headers_field(m, Field::Headers) is None {
                Some(DecodeIssue::WrongType(Field::Headers))
            } else if bytes_field(m, Field::Body) is None {
                Some(DecodeIssue::WrongType(Field::Body))
            } else {
                None
            }
        },
        _ => Some(DecodeIssue::NotAnObject),
    }
}

/// The first thing wrong with a `modify` value, if anything is.
pub open spec fn modify_issue(v: Val) -> Option<DecodeIssue> {
    match v {
        Val::Object(es) => {
            let m = es@;
            if status_field(m, Field::Status) is None {
                Some(DecodeIssue::WrongType(Field::Status))
            } else if headers_field(m, Field::Headers) is None {
                Some(DecodeIssue::WrongType(Field::Headers))
            } else {
                None
            }
        },
        _ => Some(DecodeIssue::NotAnObject),
    }
}

/// The entries of a decoded object; meaningful only where `v` is one.
pub open spec fn object_entries(v: Val) -> Seq<(String, Val)> {
    match v {
        Val::Object(es) => es@,
        _ => Seq::empty(),
    }
}

fn decode_text(m: &Vec<(String, Val)>, f: Field) -> (r: Result<Option<String>, DecodeIssue>)
    ensures
        match text_field(m@, f) {
            Some(t) => r == Ok::<Option<String>, DecodeIssue>(t),
            None => r == Err::<Option<String>, DecodeIssue>(DecodeIssue::WrongType(f)),
        },
{
    let key = field_name(f);
    match lookup(m, &key) {
        None => Ok(None),
        Some(Val::Null) => Ok(None),
        Some(Val::Undefined) => Ok(None),
        Some(Val::Str(s)) => Ok(Some(s.clone())),
        Some(_) => Err(DecodeIssue::WrongType(f)),
    }
}

fn decode_bytes(m: &Vec<(String, Val)>, f: Field) -> (r: Result<Option<Vec<u8>>, DecodeIssue>)
    ensures
        match bytes_field(m@, f) {
            Some(t) => r is Ok && body_view(r->Ok_0) == t,
            None => r == Err::<Option<Vec<u8>>, DecodeIssue>(DecodeIssue::WrongType(f)),
        },
{
    let key = field_name(f);
    match lookup(m, &key) {
        None => Ok(None),
        Some(Val::Null) => Ok(None),
        Some(Val::Undefined) => Ok(None),
        Some(Val::Str(s)) => Ok(Some(s.as_str().as_bytes_vec())),
        Some(Val::Bytes(b)) => {
            let c = b.clone();
            assert(c@ =~= b@);
            Ok(Some(c))
        },
        Some(Val::List(items)) => match bytes_of_list(items) {
            Some(b) => Ok(Some(b)),
            None => Err(DecodeIssue::WrongType(f)),
        },
        Some(_) => Err(DecodeIssue::WrongType(f)),
    }
}

fn decode_status(m: &Vec<(String, Val)>, f: Field) -> (r: Result<Option<u16>, DecodeIssue>)
    ensures
        match status_field(m@, f) {
            Some(t) => r == Ok::<Option<u16>, DecodeIssue>(t),
            None => r == Err::<Option<u16>, DecodeIssue>(DecodeIssue::WrongType(f)),
        },
{
    let key = field_name(f);
    match lookup(m, &key) {
        None => Ok(None),
        Some(Val::Null) => Ok(None),
        Some(Val::Undefined) => Ok(None),
        Some(Val::Int(n)) => if 0 <= *n && *n <= 65535 {
            Ok(Some(*n as u16))
        } else {
            Err(DecodeIssue::WrongType(f))
        },
        Some(_) => Err(DecodeIssue::WrongType(f)),
    }
}

/// Copies the entries of a map of text; `None` if some value is not text.
fn text_entries(es: &Vec<(String, Val)>) -> (r: Option<Vec<(String, String)>>)
    ensures
        r is Some <==> all_text(es@),
        r matches Some(v) ==> v@ == texts(es@),
{
    let mut out: Vec<(String, String)> = Vec::new();
    let mut i: usize = 0;
    while i < es.len()
        invariant
            i <= es@.len(),
            all_text(es@.subrange(0, i as int)),
            out@ == texts(es@.subrange(0, i as int)),
        decreases es.len() - i,
    {
        match &es[i].1 {
            Val::Str(s) => {
                out.push((es[i].0.clone(), s.clone()));
            },
            _ => {
                assert(!all_text(es@));
                return None;
            },
        }
        proof {
            assert(es@.subrange(0, i + 1) =~= es@.subrange(0, i as int).push(es@[i as int]));
            assert(out@ =~= texts(es@.subrange(0, i + 1)));
        }
        i = i + 1;
    }
    assert(es@.subrange(0, es@.len() as int) =~= es@);
    Some(out)
}

fn decode_headers(m: &Vec<(String, Val)>, f: Field) -> (r: Result<Option<Vec<(String, String)>>, DecodeIssue>)
    ensures
        match headers_field(m@, f) {
            Some(t) => r is Ok && headers_view(r->Ok_0) == t,
            None => r == Err::<Option<Vec<(String, String)>>, DecodeIssue>(DecodeIssue::WrongType(f)),
        },
{
    let key = field_name(f);
    match lookup(m, &key) {
        None => Ok(None),
        Some(Val::Null) => Ok(None),
        Some(Val::Undefined) => Ok(None),
        Some(Val::Object(es)) => match text_entries(es) {
            Some(h) => Ok(Some(h)),
            None => Err(DecodeIssue::WrongType(f)),
        },
        Some(_) => Err(DecodeIssue::WrongType(f)),
    }
}

/// The fields of a `proxy` or `redirect` value, once read.
pub struct Target {
    pub method: Option<String>,
    pub url: String,
    pub headers: Option<Vec<(String, String)>>,
    pub body: Option<Vec<u8>>,
}

impl Target {
    /// This target holds what the object `v` writes.
    pub open spec fn read_from(&self, v: Val) -> bool {
        let m = object_entries(v);
        &&& text_field(m, Field::Method) == Some(self.method)
        &&& text_field(m, Field::Url) == Some(Some(self.url))
        &&& headers_field(m, Field::Headers) == Some(headers_view(self.headers))
        &&& bytes_field(m, Field::Body) == Some(body_view(self.body))
    }

    /// Reads a `proxy` or `redirect` value.
    pub fn decode(v: &Val) -> (r: Result<Target, DecodeIssue>)
        ensures
            match forward_issue(*v) {
                Some(e) => r == Err::<Target, DecodeIssue>(e),
                None => r matches Ok(t) && t.read_from(*v),
            },
    {
        match v {
            Val::Object(m) => {
                let method = decode_text(m, Field::Method)?;
                let url = match decode_text(m, Field::Url)? {
                    Some(u) => u,
                    None => {
                        return Err(DecodeIssue::MissingField(Field::Url));
                    },
                };
                let headers = decode_headers(m, Field::Headers)?;
                let body = decode_bytes(m, Field::Body)?;
                Ok(Target { method, url, headers, body })
            },
            _ => Err(DecodeIssue::NotAnObject),
        }
    }
}

/// What a `modify` value asks of a direct reply, as read.
pub struct Modify {
    pub status: Option<u16>,
    pub headers: Option<Vec<(String, String)>>,
}

/// A `modify` value in terms of its status and the text of its headers.
pub ghost struct ModifyModel {
    pub status: Option<u16>,
    pub headers: Option<Seq<(String, String)>>,
}

/// The request a `modify` value makes, where it is well formed.
pub open spec fn modify_model(v: Val) -> Option<ModifyModel> {
    if modify_issue(v) is None {
        let m = object_entries(v);
        Some(ModifyModel {
            status: status_field(m, Field::Status)->Some_0,
            headers: headers_field(m, Field::Headers)->Some_0,
        })
    } else {
        None
    }
}

impl View for Modify {
    type V = ModifyModel;

    open spec fn view(&self) -> ModifyModel {
        ModifyModel { status: self.status, headers: headers_view(self.headers) }
    }
}

impl Modify {
    /// Reads a `modify` value.
    pub fn new(v: &Val) -> (r: Result<Modify, DecodeIssue>)
        ensures
            match modify_issue(*v) {
                Some(e) => r == Err::<Modify, DecodeIssue>(e),
                None => r matches Ok(md) && Some(md@) == modify_model(*v),
            },
    {
        match v {
            Val::Object(m) => {
                let status = decode_status(m, Field::Status)?;
                let headers = decode_headers(m, Field::Headers)?;
                Ok(Modify { status, headers })
            },
            _ => Err(DecodeIssue::NotAnObject),
        }
    }
}

} // verus!
