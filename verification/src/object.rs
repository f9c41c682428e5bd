//! The owned heap value that a slot holds.

use std::collections::TryReserveError;
use vstd::prelude::*;

verus! {

/// The number a freshly made object holds.
pub const FRESH_VALUE: i32 = 42;

/// One integer in heap storage of its own. The storage belongs to the object
/// and is given back when the object goes out of scope.
pub struct TLSObject {
    cell: Vec<i32>,
}

impl View for TLSObject {
    type V = i32;

    closed spec fn view(&self) -> i32 {
        self.cell@[0]
    }
}

impl TLSObject {
    #[verifier::type_invariant]
    spec fn holds_one(self) -> bool {
        self.cell@.len() == 1
    }

    /// Reserves heap storage for one integer and puts `FRESH_VALUE` there.
    /// `None` means that the allocator had no storage to give. Which of the
    /// two comes back is the allocator's to decide: see `from_storage`.
    pub fn new() -> (made: Option<TLSObject>)
        ensures
            made matches Some(object) ==> object@ == FRESH_VALUE,
    {
        let mut cell: Vec<i32> = Vec::new();
        let reserved = cell.try_reserve(1);
        TLSObject::from_storage(cell, reserved)
    }

    /// Makes the object out of storage that was asked for. `reserved` is the
    /// allocator's answer: where it gave the storage, the object holds
    /// `FRESH_VALUE` there and nothing else; where it refused, there is no
    /// object.
    pub fn from_storage(storage: Vec<i32>, reserved: Result<(), TryReserveError>) -> (made: Option<
        TLSObject,
    >)
        ensures
            reserved is Ok ==> (made matches Some(object) && object@ == FRESH_VALUE),
            reserved is Err ==> made is None,
    {
        match reserved {
            Ok(_) => {
                let mut cell = storage;
                cell.clear();
                cell.push(FRESH_VALUE);
                Some(TLSObject { cell })
            },
            Err(_) => None,
        }
    }

    /// The integer held.
    pub fn get_value(&self) -> (value: i32)
        ensures
            value == self@,
    {
        proof {
            use_type_invariant(self);
        }
        self.cell[0]
    }
}

} // verus!
