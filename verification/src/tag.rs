//! Resource tags.

use vstd::prelude::*;

verus! {

/// The mathematical value of a [`Tag`].
pub ghost struct TagView {
    pub key: Seq<char>,
    pub value: Seq<char>,
}

/// A resource tag.
#[derive(Debug, PartialEq, Eq)]
pub struct Tag {
    /// The tag key.
    pub key: String,

    /// The tag value.
    pub value: String,
}

impl View for Tag {
    type V = TagView;

    open spec fn view(&self) -> TagView {
        TagView { key: self.key@, value: self.value@ }
    }
}

impl Clone for Tag {
    fn clone(&self) -> (r: Self)
        ensures
            r@ == self@,
    {
        Tag { key: self.key.clone(), value: self.value.clone() }
    }
}

} // verus!
