use vstd::prelude::*;

verus! {

/// A dynamically typed value produced by a template run.
///
/// Maps keep the order in which the template wrote their entries; a key that
/// occurs twice is looked up at its first occurrence.
pub enum Val {
    Undefined,
    Null,
    Bool(bool),
    Int(i128),
    Str(String),
    Bytes(Vec<u8>),
    List(Vec<Val>),
    Object(Vec<(String, Val)>),
    /// A value of a kind that no directive accepts (a number with a fraction, a callable).
    Other,
}

/// The first entry of `entries` whose key is `key`.
pub open spec fn find(entries: Seq<(String, Val)>, key: Seq<char>) -> Option<Val>
    decreases entries.len(),
{
    if entries.len() == 0 {
        None
    } else if entries[0].0@ == key {
        Some(entries[0].1)
    } else {
        find(entries.drop_first(), key)
    }
}

/// A value that stands for nothing: missing, `none` or undefined.
pub open spec fn is_absent(v: Option<Val>) -> bool {
    match v {
        None => true,
        Some(Val::Null) => true,
        Some(Val::Undefined) => true,
        _ => false,
    }
}

/// Looks `key` up in the entries of a map.
pub fn lookup<'a>(entries: &'a Vec<(String, Val)>, key: &String) -> (r: Option<&'a Val>)
    ensures
        r matches Some(v) ==> find(entries@, key@) == Some(*v),
        r is None ==> find(entries@, key@) is None,
{
    let mut i: usize = 0;
    assert(entries@.subrange(0, entries@.len() as int) =~= entries@);
    while i < entries.len()
        invariant
            i <= entries@.len(),
            find(entries@, key@) == find(entries@.subrange(i as int, entries@.len() as int), key@),
        decreases entries.len() - i,
    {
        let ghost rest = entries@.subrange(i as int, entries@.len() as int);
        assert(rest.drop_first() =~= entries@.subrange(i + 1, entries@.len() as int));
        assert(rest[0] == entries@[i as int]);
        if entries[i].0.eq(key) {
            return Some(&entries[i].1);
        }
        i = i + 1;
    }
    None
}

/// The values that a template left behind besides its body, by name.
pub struct StateBag {
    pub entries: Vec<(String, Val)>,
}

impl StateBag {
    /// A bag in which the template set nothing.
    pub fn new() -> (r: StateBag)
        ensures
            r.entries@.len() == 0,
    {
        StateBag { entries: Vec::new() }
    }

    /// What the template set under `key`, if anything.
    pub open spec fn get(&self, key: Seq<char>) -> Option<Val> {
        find(self.entries@, key)
    }
}

} // verus!
