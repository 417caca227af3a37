//! Child lists: the small vectors that hold a component's children.
//!
//! A child is identified by a key (`u64`); the renderer keeps the element
//! that each key stands for.

use vstd::prelude::*;
use smallvec::SmallVec;

verus! {

/// A list of child keys, stored inline up to two and on the heap beyond.
#[verifier::external_body]
pub struct ChildList {
    keys: SmallVec<[u64; 2]>,
}

/// The keys a child list holds, in order.
pub uninterp spec fn child_keys(list: ChildList) -> Seq<u64>;

impl View for ChildList {
    type V = Seq<u64>;

    open spec fn view(&self) -> Seq<u64> {
        child_keys(*self)
    }
}

/// Whether a list of `len` keys can take `more` further keys: growing the
/// list rounds its capacity up to a power of two, and the list panics with
/// "capacity overflow" when that many keys would not fit in `isize::MAX`
/// bytes.
pub open spec fn has_room(len: int, more: int) -> bool {
    16 * (len + more + 1) <= isize::MAX
}

impl ChildList {
    /// `SmallVec::new`: an empty list.
    #[verifier::external_body]
    pub(crate) fn new() -> (list: ChildList)
        ensures
            child_keys(list) == Seq::<u64>::empty(),
    {
        ChildList { keys: SmallVec::new() }
    }

    /// `SmallVec::push`: appends one key at the end.
    #[verifier::external_body]
    fn push_key(&mut self, key: u64)
        requires
            has_room(child_keys(*old(self)).len() as int, 1),
        ensures
            child_keys(*final(self)) == child_keys(*old(self)).push(key),
    {
        self.keys.push(key)
    }

    /// `Extend::extend` of `SmallVec`: appends the keys in order.
    #[verifier::external_body]
    fn extend_keys(&mut self, keys: Vec<u64>)
        requires
            has_room(child_keys(*old(self)).len() as int, keys@.len() as int),
        ensures
            child_keys(*final(self)) == child_keys(*old(self)) + keys@,
    {
        self.keys.extend(keys)
    }

    /// `SmallVec::is_empty`: whether the list holds no key.
    #[verifier::external_body]
    fn holds_none(&self) -> (empty: bool)
        ensures
            empty == (child_keys(*self).len() == 0),
    {
        self.keys.is_empty()
    }

    /// `SmallVec::as_slice`, copied out: the keys in order.
    #[verifier::external_body]
    fn copy_keys(&self) -> (keys: Vec<u64>)
        ensures
            keys@ == child_keys(*self),
    {
        self.keys.as_slice().to_vec()
    }
}


impl ChildList {
    /// Appends one child at the end.
    pub fn push(&mut self, key: u64)
        requires
            has_room(old(self)@.len() as int, 1),
        ensures
            final(self)@ == old(self)@.push(key),
    {
        self.push_key(key)
    }

    /// Appends children at the end, in order.
    pub fn extend(&mut self, keys: Vec<u64>)
        requires
            has_room(old(self)@.len() as int, keys@.len() as int),
        ensures
            final(self)@ == old(self)@ + keys@,
    {
        self.extend_keys(keys)
    }

    /// Whether the list holds no child.
    pub fn is_empty(&self) -> (empty: bool)
        ensures
            empty == (self@.len() == 0),
    {
        self.holds_none()
    }

    /// The children, in order.
    pub fn to_vec(&self) -> (keys: Vec<u64>)
        ensures
            keys@ == self@,
    {
        self.copy_keys()
    }
}

} // verus!
