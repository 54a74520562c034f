//! The output mapping of a successful parse: option names to their supplied
//! values (or the marker `present`). The entries live in a
//! `hashbrown::HashMap` held behind an opaque struct; the contents of a map
//! value are named by `map_contents`, and each operation the parser needs
//! states over that name what the crate's documentation promises of it.

use vstd::prelude::*;

verus! {

/// A mapping from option names to their values, backed by
/// `hashbrown::HashMap<String, String>`.
#[verifier::external_body]
#[derive(Debug)]
pub struct ArgMap {
    inner: hashbrown::HashMap<String, String>,
}

/// The contents of an `ArgMap`, as a mathematical map from the characters of
/// each key to the characters of its value.
pub uninterp spec fn map_contents(m: ArgMap) -> Map<Seq<char>, Seq<char>>;

impl ArgMap {
    /// Relies on `hashbrown::HashMap::new`: the new map is empty.
    #[verifier::external_body]
    pub(crate) fn new() -> (m: ArgMap)
        ensures
            forall|k: Seq<char>| !map_contents(m).contains_key(k),
    {
        ArgMap { inner: hashbrown::HashMap::new() }
    }

    /// Relies on `hashbrown::HashMap::insert`: the map afterwards holds `v`
    /// under `k` and is otherwise unchanged; keys are compared as their
    /// characters, which is `String` equality.
    #[verifier::external_body]
    pub(crate) fn insert(&mut self, k: String, v: String)
        ensures
            map_contents(*final(self)) == map_contents(*old(self)).insert(k@, v@),
    {
        self.inner.insert(k, v);
    }

    /// Relies on `hashbrown::HashMap::contains_key`, with `&str` standing for
    /// a `String` key of the same characters.
    #[verifier::external_body]
    pub(crate) fn contains_key(&self, k: &str) -> (r: bool)
        ensures
            r == map_contents(*self).contains_key(k@),
    {
        self.inner.contains_key(k)
    }

    /// Relies on `hashbrown::HashMap::get`, with `&str` standing for a
    /// `String` key of the same characters.
    #[verifier::external_body]
    pub fn get<'a>(&'a self, k: &str) -> (r: Option<&'a String>)
        ensures
            match r {
                Some(v) => map_contents(*self).contains_key(k@) && v@ == map_contents(*self)[k@],
                None => !map_contents(*self).contains_key(k@),
            },
    {
        self.inner.get(k)
    }

    /// Relies on `hashbrown::HashMap::clone`: the clone holds the same keys
    /// and values.
    #[verifier::external_body]
    pub fn duplicate(&self) -> (r: ArgMap)
        ensures
            map_contents(r) == map_contents(*self),
    {
        ArgMap { inner: self.inner.clone() }
    }
}

} // verus!
