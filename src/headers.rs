use vstd::prelude::*;
use axum::http::{HeaderName, HeaderValue};

verus! {

/// A header set as names and values, seen as text.
pub type HeaderModel = Seq<(Seq<char>, Seq<char>)>;

/// The text of a header list.
pub open spec fn header_model(h: Seq<(String, String)>) -> HeaderModel {
    h.map_values(|e: (String, String)| (e.0@, e.1@))
}

/// The value of the first header named `name`.
pub open spec fn header_value(h: HeaderModel, name: Seq<char>) -> Option<Seq<char>>
    decreases h.len(),
{
    if h.len() == 0 {
        None
    } else if h[0].0 == name {
        Some(h[0].1)
    } else {
        header_value(h.drop_first(), name)
    }
}

/// No two headers share a name.
pub open spec fn unique_names(h: HeaderModel) -> bool {
    forall|i: int, j: int| 0 <= i < j < h.len() ==> (#[trigger] h[i]).0 != (#[trigger] h[j]).0
}

/// Sets header `name` to `value`: an existing header of that name takes the new
/// value in its place, else the header is added at the end.
pub open spec fn set_header(h: HeaderModel, name: Seq<char>, value: Seq<char>) -> HeaderModel {
    if exists|i: int| 0 <= i < h.len() && (#[trigger] h[i]).0 == name {
        let i = choose|i: int| 0 <= i < h.len() && (#[trigger] h[i]).0 == name;
        h.update(i, (name, value))
    } else {
        h.push((name, value))
    }
}

/// The name that a text takes as an HTTP header name, or `None` if it is not one.
pub uninterp spec fn header_name_of(name: Seq<char>) -> Option<Seq<char>>;

/// A character that may stand in an HTTP header value.
pub open spec fn header_value_char(c: char) -> bool {
    (c >= ' ' && c != '\x7f') || c == '\t'
}

/// A text that may stand as an HTTP header value.
pub open spec fn header_value_ok(v: Seq<char>) -> bool {
    forall|i: int| 0 <= i < v.len() ==> header_value_char(#[trigger] v[i])
}

/// Relies on `http::HeaderName::from_bytes`: it accepts a name or refuses it, and
/// gives the accepted name in its canonical (lower case) form, from the text alone.
#[verifier::external_body]
pub(crate) fn canonical_header_name(name: &str) -> (r: Option<String>)
    ensures
        match r {
            Some(s) => header_name_of(name@) == Some(s@),
            None => header_name_of(name@) is None,
        },
{
    HeaderName::from_bytes(name.as_bytes()).ok().map(|n| n.as_str().to_string())
}

/// Relies on `http::HeaderValue::from_str`: it accepts exactly the texts whose every
/// byte is a tab or at least 0x20 and not 0x7f. The bytes of a character outside
/// ASCII are all at least 0x80, so this is a condition on the characters.
#[verifier::external_body]
pub(crate) fn valid_header_value(value: &str) -> (r: bool)
    ensures
        r == header_value_ok(value@),
{
    HeaderValue::from_str(value).is_ok()
}

proof fn lemma_header_value_update(h: HeaderModel, i: int, name: Seq<char>, value: Seq<char>, m: Seq<char>)
    requires
        0 <= i < h.len(),
        h[i].0 == name,
        unique_names(h),
    ensures
        header_value(h.update(i, (name, value)), m) == if m == name {
            Some(value)
        } else {
            header_value(h, m)
        },
    decreases h.len(),
{
    if i == 0 {
        assert(h.update(i, (name, value)).drop_first() =~= h.drop_first());
        if m != name {
        } else {
        }
    } else {
        assert(h.update(i, (name, value)).drop_first() =~= h.drop_first().update(i - 1, (name, value)));
        assert(h[0].0 != name);
        lemma_header_value_update(h.drop_first(), i - 1, name, value, m);
    }
}

proof fn lemma_header_value_push(h: HeaderModel, name: Seq<char>, value: Seq<char>, m: Seq<char>)
    requires
        forall|i: int| 0 <= i < h.len() ==> (#[trigger] h[i]).0 != name,
    ensures
        header_value(h.push((name, value)), m) == if m == name {
            Some(value)
        } else {
            header_value(h, m)
        },
    decreases h.len(),
{
    if h.len() == 0 {
        assert(h.push((name, value)).drop_first() =~= h);
    } else {
        assert(h.push((name, value)).drop_first() =~= h.drop_first().push((name, value)));
        assert(h[0].0 != name);
        lemma_header_value_push(h.drop_first(), name, value, m);
    }
}

/// After setting a header, it reads back the new value, and every other name reads as before.
pub proof fn lemma_set_header(h: HeaderModel, name: Seq<char>, value: Seq<char>, m: Seq<char>)
    requires
        unique_names(h),
    ensures
        unique_names(set_header(h, name, value)),
        header_value(set_header(h, name, value), m) == if m == name {
            Some(value)
        } else {
            header_value(h, m)
        },
{
    if exists|i: int| 0 <= i < h.len() && (#[trigger] h[i]).0 == name {
        let i = choose|i: int| 0 <= i < h.len() && (#[trigger] h[i]).0 == name;
        lemma_header_value_update(h, i, name, value, m);
        let r = h.update(i, (name, value));
        assert forall|a: int, b: int| 0 <= a < b < r.len() implies (#[trigger] r[a]).0 != (#[trigger] r[b]).0 by {
            assert(h[a].0 != h[b].0);
        }
    } else {
        lemma_header_value_push(h, name, value, m);
    }
}

/// Sets header `name` to `value` in a list of headers whose names are unique.
pub fn insert_header(h: &mut Vec<(String, String)>, name: String, value: String)
    requires
        unique_names(header_model(old(h)@)),
    ensures
        header_model(final(h)@) == set_header(header_model(old(h)@), name@, value@),
        unique_names(header_model(final(h)@)),
{
    let ghost m0 = header_model(h@);
    proof {
        lemma_set_header(m0, name@, value@, name@);
    }
    let mut i: usize = 0;
    while i < h.len()
        invariant
            i <= h@.len(),
            h@ == old(h)@,
            m0 == header_model(h@),
            unique_names(m0),
            forall|k: int| 0 <= k < i ==> (#[trigger] m0[k]).0 != name@,
        decreases h.len() - i,
    {
        if h[i].0.eq(&name) {
            proof {
                assert(m0[i as int].0 == name@);
                let j = choose|j: int| 0 <= j < m0.len() && (#[trigger] m0[j]).0 == name@;
                if j != i as int {
                    if j < i {
                    } else {
                        assert(m0[i as int].0 != m0[j].0);
                    }
                }
                assert(j == i);
            }
            h.set(i, (name, value));
            proof {
                assert(header_model(h@) =~= m0.update(i as int, (name@, value@)));
            }
            return;
        }
        i = i + 1;
    }
    h.push((name, value));
    proof {
        assert(header_model(h@) =~= m0.push((name@, value@)));
    }
}

/// The header that a written entry stands for: its canonical name and its value,
/// or `None` where the name or the value cannot be sent.
pub open spec fn header_entry(e: (Seq<char>, Seq<char>)) -> Option<(Seq<char>, Seq<char>)> {
    match header_name_of(e.0) {
        Some(n) => if header_value_ok(e.1) {
            Some((n, e.1))
        } else {
            None
        },
        None => None,
    }
}

/// Every entry can be sent as a header.
pub open spec fn all_valid(es: HeaderModel) -> bool {
    forall|i: int| 0 <= i < es.len() ==> (#[trigger] header_entry(es[i])) is Some
}

/// Sets each entry of `es` in turn on `h`; entries that cannot be sent are passed over.
pub open spec fn apply_headers(h: HeaderModel, es: HeaderModel) -> HeaderModel
    decreases es.len(),
{
    if es.len() == 0 {
        h
    } else {
        let prev = apply_headers(h, es.drop_last());
        match header_entry(es.last()) {
            Some(e) => set_header(prev, e.0, e.1),
            None => prev,
        }
    }
}

/// The value of the last entry of `es` that sets header `name`.
pub open spec fn last_header(es: HeaderModel, name: Seq<char>) -> Option<Seq<char>>
    decreases es.len(),
{
    if es.len() == 0 {
        None
    } else {
        match header_entry(es.last()) {
            Some(e) => if e.0 == name {
                Some(e.1)
            } else {
                last_header(es.drop_last(), name)
            },
            None => last_header(es.drop_last(), name),
        }
    }
}

/// Entries applied later win: after `es` is applied on `h`, a header reads as the last
/// entry of `es` that sets it, and as in `h` where none does.
pub proof fn lemma_apply_headers(h: HeaderModel, es: HeaderModel, name: Seq<char>)
    requires
        unique_names(h),
    ensures
        unique_names(apply_headers(h, es)),
        header_value(apply_headers(h, es), name) == match last_header(es, name) {
            Some(v) => Some(v),
            None => header_value(h, name),
        },
    decreases es.len(),
{
    if es.len() > 0 {
        lemma_apply_headers(h, es.drop_last(), name);
        let prev = apply_headers(h, es.drop_last());
        match header_entry(es.last()) {
            Some(e) => {
                lemma_set_header(prev, e.0, e.1, name);
            },
            None => {},
        }
    }
}

/// Applies each entry of `es` in turn, with its name made canonical; entries that
/// cannot be sent are passed over.
pub fn apply_header_list(h: &mut Vec<(String, String)>, es: &Vec<(String, String)>)
    requires
        unique_names(header_model(old(h)@)),
    ensures
        header_model(final(h)@) == apply_headers(header_model(old(h)@), header_model(es@)),
        unique_names(header_model(final(h)@)),
{
    let ghost m0 = header_model(h@);
    let ghost all = header_model(es@);
    let mut i: usize = 0;
    assert(all.subrange(0, 0) =~= Seq::<(Seq<char>, Seq<char>)>::empty());
    while i < es.len()
        invariant
            i <= es@.len(),
            all == header_model(es@),
            header_model(h@) == apply_headers(m0, all.subrange(0, i as int)),
            unique_names(header_model(h@)),
        decreases es.len() - i,
    {
        let ghost pre = all.subrange(0, i as int);
        assert(all.subrange(0, i + 1).drop_last() =~= pre);
        assert(all.subrange(0, i + 1).last() == all[i as int]);
        if let Some(name) = canonical_header_name(es[i].0.as_str()) {
            if valid_header_value(es[i].1.as_str()) {
                insert_header(h, name, es[i].1.clone());
            }
        }
        i = i + 1;
    }
    assert(all.subrange(0, es@.len() as int) =~= all);
}

/// Whether every entry can be sent as a header.
pub fn headers_sendable(es: &Vec<(String, String)>) -> (r: bool)
    ensures
        r == all_valid(header_model(es@)),
{
    let ghost all = header_model(es@);
    let mut i: usize = 0;
    while i < es.len()
        invariant
            i <= es@.len(),
            all == header_model(es@),
            forall|k: int| 0 <= k < i ==> (#[trigger] header_entry(all[k])) is Some,
        decreases es.len() - i,
    {
        let ok = match canonical_header_name(es[i].0.as_str()) {
            Some(_) => valid_header_value(es[i].1.as_str()),
            None => false,
        };
        if !ok {
            assert(header_entry(all[i as int]) is None);
            return false;
        }
        i = i + 1;
    }
    true
}

} // verus!
