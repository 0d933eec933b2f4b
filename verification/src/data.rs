//! The documents that the reader builds.

use vstd::prelude::*;
use vstd::hash_map::StringHashMap;
use crate::model::{DocumentView, IniDataView};

verus! {

/// The entries of one section: a map from keys to values.
pub struct IniSection {
    map: StringHashMap<String>,
}

impl View for IniSection {
    type V = Map<Seq<char>, Seq<char>>;

    closed spec fn view(&self) -> Map<Seq<char>, Seq<char>> {
        self.map@.map_values(|v: String| v@)
    }
}

impl IniSection {
    /// A section without entries.
    pub fn new() -> (section: Self)
        ensures
            section@ == Map::<Seq<char>, Seq<char>>::empty(),
    {
        let section = IniSection { map: StringHashMap::new() };
        assert(section@ =~= Map::<Seq<char>, Seq<char>>::empty());
        section
    }

    /// Stores `value` under `key`, in place of what was stored there.
    pub fn insert(&mut self, key: String, value: String)
        ensures
            final(self)@ == old(self)@.insert(key@, value@),
    {
        self.map.insert(key, value);
        assert(self@ =~= old(self)@.insert(key@, value@));
    }

    /// The value stored under `key`, if there is one.
    pub fn get(&self, key: &str) -> (found: Option<&String>)
        ensures
            match found {
                Some(value) => self@.contains_key(key@) && value@ == self@[key@],
                None => !self@.contains_key(key@),
            },
    {
        self.map.get(key)
    }

    /// Whether a value is stored under `key`.
    pub fn contains_key(&self, key: &str) -> (found: bool)
        ensures
            found == self@.contains_key(key@),
    {
        self.map.contains_key(key)
    }

    /// The number of entries.
    pub fn len(&self) -> (count: usize)
        ensures
            count == self@.len(),
    {
        assert(self@.dom() =~= self.map@.dom());
        self.map.len()
    }

    /// Whether the section has no entries.
    pub fn is_empty(&self) -> (empty: bool)
        ensures
            empty == (self@.len() == 0),
    {
        assert(self@.dom() =~= self.map@.dom());
        self.map.len() == 0
    }
}

/// One entry of a document.
pub enum IniData {
    /// A scalar: the text between `=` and the end of the line.
    Value(String),
    /// A section: the keys and values that followed its header.
    Section(IniSection),
}

impl View for IniData {
    type V = IniDataView;

    open spec fn view(&self) -> IniDataView {
        match self {
            IniData::Value(value) => IniDataView::Value(value@),
            IniData::Section(section) => IniDataView::Section(section@),
        }
    }
}

/// A document: a map from keys to entries.
pub struct IniDataMap {
    map: StringHashMap<IniData>,
}

impl View for IniDataMap {
    type V = DocumentView;

    closed spec fn view(&self) -> DocumentView {
        self.map@.map_values(|entry: IniData| entry@)
    }
}

impl IniDataMap {
    /// A document without entries.
    pub fn new() -> (doc: Self)
        ensures
            doc@ == DocumentView::empty(),
    {
        let doc = IniDataMap { map: StringHashMap::new() };
        assert(doc@ =~= DocumentView::empty());
        doc
    }

    /// Stores `entry` under `key`, in place of what was stored there.
    pub fn insert(&mut self, key: String, entry: IniData)
        ensures
            final(self)@ == old(self)@.insert(key@, entry@),
    {
        self.map.insert(key, entry);
        assert(self@ =~= old(self)@.insert(key@, entry@));
    }

    /// The entry stored under `key`, if there is one.
    pub fn get(&self, key: &str) -> (found: Option<&IniData>)
        ensures
            match found {
                Some(entry) => self@.contains_key(key@) && entry@ == self@[key@],
                None => !self@.contains_key(key@),
            },
    {
        self.map.get(key)
    }

    /// Whether an entry is stored under `key`.
    pub fn contains_key(&self, key: &str) -> (found: bool)
        ensures
            found == self@.contains_key(key@),
    {
        self.map.contains_key(key)
    }

    /// The number of entries at the top level.
    pub fn len(&self) -> (count: usize)
        ensures
            count == self@.len(),
    {
        assert(self@.dom() =~= self.map@.dom());
        self.map.len()
    }

    /// Whether the document has no entries.
    pub fn is_empty(&self) -> (empty: bool)
        ensures
            empty == (self@.len() == 0),
    {
        assert(self@.dom() =~= self.map@.dom());
        self.map.len() == 0
    }
}

} // verus!
