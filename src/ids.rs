use vstd::prelude::*;

verus! {

/// A loom-unit index: a non-negative integer of one kind (shaft, treadle, warp
/// thread, weft thread, or a plain table index).
pub trait Id: Copy + Sized {
    spec fn id(&self) -> u32;

    fn from_index(i: u32) -> (r: Self)
        ensures
            r.id() == i,
    ;

    fn index(&self) -> (r: u32)
        ensures
            r == self.id(),
    ;
}

impl Id for u32 {
    open spec fn id(&self) -> u32 {
        *self
    }

    fn from_index(i: u32) -> (r: Self) {
        i
    }

    fn index(&self) -> (r: u32) {
        *self
    }
}

/// A treadle of the loom.
#[derive(Debug, Clone, Copy, PartialEq, Eq, PartialOrd, Ord, Hash)]
pub struct Treadle(pub u32);

/// A shaft of the loom.
#[derive(Debug, Clone, Copy, PartialEq, Eq, PartialOrd, Ord, Hash)]
pub struct Shaft(pub u32);

/// A warp thread, counted across the cloth's width.
#[derive(Debug, Clone, Copy, PartialEq, Eq, PartialOrd, Ord, Hash)]
pub struct Warp(pub u32);

/// A weft row, counted along the cloth's length.
#[derive(Debug, Clone, Copy, PartialEq, Eq, PartialOrd, Ord, Hash)]
pub struct Weft(pub u32);

impl Id for Treadle {
    open spec fn id(&self) -> u32 {
        self.0
    }

    fn from_index(i: u32) -> (r: Self) {
        Treadle(i)
    }

    fn index(&self) -> (r: u32) {
        self.0
    }
}

impl Id for Shaft {
    open spec fn id(&self) -> u32 {
        self.0
    }

    fn from_index(i: u32) -> (r: Self) {
        Shaft(i)
    }

    fn index(&self) -> (r: u32) {
        self.0
    }
}

impl Id for Warp {
    open spec fn id(&self) -> u32 {
        self.0
    }

    fn from_index(i: u32) -> (r: Self) {
        Warp(i)
    }

    fn index(&self) -> (r: u32) {
        self.0
    }
}

impl Id for Weft {
    open spec fn id(&self) -> u32 {
        self.0
    }

    fn from_index(i: u32) -> (r: Self) {
        Weft(i)
    }

    fn index(&self) -> (r: u32) {
        self.0
    }
}

impl From<u32> for Treadle {
    fn from(value: u32) -> (r: Self) {
        Treadle(value)
    }
}

impl vstd::std_specs::convert::FromSpecImpl<u32> for Treadle {
    open spec fn obeys_from_spec() -> bool {
        true
    }

    open spec fn from_spec(v: u32) -> Self {
        Treadle(v)
    }
}

impl From<u32> for Shaft {
    fn from(value: u32) -> (r: Self) {
        Shaft(value)
    }
}

impl vstd::std_specs::convert::FromSpecImpl<u32> for Shaft {
    open spec fn obeys_from_spec() -> bool {
        true
    }

    open spec fn from_spec(v: u32) -> Self {
        Shaft(v)
    }
}

impl From<u32> for Warp {
    fn from(value: u32) -> (r: Self) {
        Warp(value)
    }
}

impl vstd::std_specs::convert::FromSpecImpl<u32> for Warp {
    open spec fn obeys_from_spec() -> bool {
        true
    }

    open spec fn from_spec(v: u32) -> Self {
        Warp(v)
    }
}

impl From<u32> for Weft {
    fn from(value: u32) -> (r: Self) {
        Weft(value)
    }
}

impl vstd::std_specs::convert::FromSpecImpl<u32> for Weft {
    open spec fn obeys_from_spec() -> bool {
        true
    }

    open spec fn from_spec(v: u32) -> Self {
        Weft(v)
    }
}

} // verus!
