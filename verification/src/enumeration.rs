//! Reading out an array that lives in the host: every element, in the order
//! of the array, one call at a time.

use vstd::prelude::*;

verus! {

/// The number of elements an array of the reported `length` holds: a length
/// below zero is the length of an empty array.
pub open spec fn element_count(length: i32) -> nat {
    if length > 0 {
        length as nat
    } else {
        0
    }
}

/// An array of the host on its way into a list. It names the index to fetch
/// next, and takes the element that was fetched.
#[derive(Debug)]
pub struct Enumeration<T> {
    length: i32,
    items: Vec<T>,
}

impl<T> Enumeration<T> {
    #[verifier::type_invariant]
    spec fn within_length(self) -> bool {
        self.items.len() <= element_count(self.length)
    }

    /// The length the host reported for the array.
    pub closed spec fn length(&self) -> i32 {
        self.length
    }

    /// The elements fetched so far, in the order of the array.
    pub closed spec fn items(&self) -> Seq<T> {
        self.items@
    }

    /// The index to fetch next, where an element is missing yet.
    pub open spec fn pending(&self) -> Option<i32> {
        if self.items().len() < element_count(self.length()) {
            Some(self.items().len() as i32)
        } else {
            None
        }
    }

    /// The enumeration of an array of the reported `length`, no element of
    /// it fetched yet.
    pub fn new(length: i32) -> (walk: Self)
        ensures
            walk.length() == length,
            walk.items() == Seq::<T>::empty(),
    {
        Enumeration { length, items: Vec::new() }
    }

    /// The index to fetch next, or nothing when every element is there. An
    /// index that is named lies within the array and is the number of
    /// elements fetched before.
    pub fn next_index(&self) -> (index: Option<i32>)
        ensures
            index == self.pending(),
            index matches Some(i) ==> 0 <= i < self.length() && i == self.items().len(),
    {
        proof {
            use_type_invariant(self);
        }
        let fetched = self.items.len();
        if self.length > 0 && fetched < self.length as usize {
            Some(fetched as i32)
        } else {
            None
        }
    }

    /// The enumeration with the element fetched at the pending index added.
    /// Without a pending index the element is dropped and nothing changes.
    pub fn push(self, item: T) -> (walk: Self)
        ensures
            walk.length() == self.length(),
            walk.items() == if self.pending() is Some {
                self.items().push(item)
            } else {
                self.items()
            },
    {
        proof {
            use_type_invariant(&self);
        }
        let length = self.length;
        let mut items = self.items;
        if length > 0 && items.len() < length as usize {
            items.push(item);
        }
        Enumeration { length, items }
    }

    /// The elements fetched so far, in the order of the array: all of them
    /// once no index is pending.
    pub fn into_items(self) -> (items: Vec<T>)
        ensures
            items@ == self.items(),
            self.pending() is None ==> items@.len() == element_count(self.length()),
    {
        proof {
            use_type_invariant(&self);
        }
        self.items
    }
}

} // verus!
