//! A typed field element: a field element paired with its circuit mode.

use vstd::prelude::*;
use crate::field::Fe;
use crate::mode::Mode;

verus! {

/// A field element together with the mode it enters a circuit in.
pub struct Field {
    /// The underlying field element.
    field: Fe,
    /// The input mode for the field element.
    mode: Mode,
}

impl Field {
    /// The mode the element carries.
    pub closed spec fn spec_mode(self) -> Mode {
        self.mode
    }

    /// The element itself.
    pub closed spec fn spec_field(self) -> Fe {
        self.field
    }

    /// Initializes a new field with the given mode.
    pub fn new(mode: Mode, field: Fe) -> (r: Field)
        ensures
            r.spec_mode() == mode,
            r.spec_field() == field,
    {
        Field { field, mode }
    }

    /// Returns the mode of the field element.
    pub fn mode(&self) -> (m: Mode)
        ensures
            m == self.spec_mode(),
    {
        self.mode
    }

    /// Returns the underlying field element.
    pub fn value(&self) -> (f: Fe)
        ensures
            f == self.spec_field(),
    {
        self.field
    }
}

} // verus!
