//! A key space without expiration: each key holds a string, a list or a
//! set.
use vstd::prelude::*;

use crate::database::TypeSavedView;
use crate::string_map::{StringMap, StringSet};

verus! {

/// A value of the key space.
#[derive(Debug, PartialEq)]
pub enum TypeSaved {
    String(String),
    Lists(Vec<String>),
    Sets(StringSet),
}

impl View for TypeSaved {
    type V = TypeSavedView;

    open spec fn view(&self) -> TypeSavedView {
        match self {
            TypeSaved::String(s) => TypeSavedView::String(s@),
            TypeSaved::Lists(l) => TypeSavedView::List(l@.map_values(|s: String| s@)),
            TypeSaved::Sets(s) => TypeSavedView::Sets(s@),
        }
    }
}

impl TypeSaved {
    /// A set value holds no member twice.
    pub open spec fn wf(&self) -> bool {
        match self {
            TypeSaved::Sets(s) => s.wf(),
            _ => true,
        }
    }
}

pub struct DatabaseMock2 {
    pub elements: StringMap<TypeSaved>,
}

impl View for DatabaseMock2 {
    type V = Map<Seq<char>, TypeSavedView>;

    open spec fn view(&self) -> Map<Seq<char>, TypeSavedView> {
        self.elements@.map_values(|v: TypeSaved| v@)
    }
}

impl DatabaseMock2 {
    /// No key occurs twice and no set holds a member twice.
    pub open spec fn wf(&self) -> bool {
        &&& self.elements.wf()
        &&& forall|k: Seq<char>| #[trigger] self.elements@.contains_key(k) ==> self.elements@[k].wf()
    }

    pub fn new() -> (d: Self)
        ensures
            d.wf(),
            d@ == Map::<Seq<char>, TypeSavedView>::empty(),
    {
        let d = DatabaseMock2 { elements: StringMap::new() };
        assert(d@ =~= Map::<Seq<char>, TypeSavedView>::empty());
        d
    }

    /// Sets `key` to `value`; returns the value it replaces.
    pub fn insert(&mut self, key: String, value: TypeSaved) -> (r: Option<TypeSaved>)
        requires
            old(self).wf(),
            value.wf(),
        ensures
            final(self).wf(),
            final(self)@ == old(self)@.insert(key@, value@),
            match r {
                Some(v) => old(self)@.contains_key(key@) && v@ == old(self)@[key@],
                None => !old(self)@.contains_key(key@),
            },
    {
        let ghost value_view = value@;
        let r = self.elements.insert(key, value);
        assert(self@ =~= old(self)@.insert(key@, value_view));
        r
    }

    /// The value of `key`.
    pub fn get(&mut self, key: &str) -> (r: Option<&TypeSaved>)
        requires
            old(self).wf(),
        ensures
            *final(self) == *old(self),
            match r {
                Some(v) => old(self)@.contains_key(key@) && v@ == old(self)@[key@] && v.wf(),
                None => !old(self)@.contains_key(key@),
            },
    {
        self.elements.get(key)
    }

    /// The value of `key` for update.
    pub fn get_mut(&mut self, key: &str) -> (r: Option<&mut TypeSaved>)
        requires
            old(self).wf(),
        ensures
            match r {
                Some(v) => old(self)@.contains_key(key@) && v@ == old(self)@[key@] && v.wf()
                    && final(self)@ == old(self)@.insert(key@, final(v)@) && (final(v).wf()
                    ==> final(self).wf()),
                None => !old(self)@.contains_key(key@) && *final(self) == *old(self),
            },
    {
        self.elements.get_mut(key)
    }
}

impl Default for DatabaseMock2 {
    fn default() -> (d: Self)
        ensures
            d.wf(),
            d@ == Map::<Seq<char>, TypeSavedView>::empty(),
    {
        Self::new()
    }
}

} // verus!
