//! The register file: sixteen byte registers V0 to VF and the index
//! register I.

use vstd::prelude::*;

verus! {

/// The number of byte registers.
pub const REGISTER_COUNT: usize = 16;

/// The registers. The view is the sequence V0..VF; `index()` is I.
#[derive(Debug)]
pub struct Registers {
    data: [u8; REGISTER_COUNT],
    i: usize,
}

impl View for Registers {
    type V = Seq<u8>;

    open spec fn view(&self) -> Seq<u8> {
        Seq::new(REGISTER_COUNT as nat, |k: int| self.value_at(k))
    }
}

impl Registers {
    /// The value of register V`k`.
    pub closed spec fn value_at(&self, k: int) -> u8 {
        self.data@[k]
    }

    /// The index register I.
    pub closed spec fn index(&self) -> usize {
        self.i
    }

    /// All registers zero.
    pub fn new() -> (r: Registers)
        ensures
            r@ == Seq::new(REGISTER_COUNT as nat, |k: int| 0u8),
            r.index() == 0,
    {
        Registers { data: [0; REGISTER_COUNT], i: 0 }
    }

    /// The value of register V`index`.
    pub fn get(&self, index: usize) -> (value: u8)
        requires
            index < REGISTER_COUNT,
        ensures
            value == self@[index as int],
    {
        self.data[index]
    }

    /// Sets register V`index` to `value`.
    pub fn set(&mut self, index: usize, value: u8)
        requires
            index < REGISTER_COUNT,
        ensures
            final(self)@ == old(self)@.update(index as int, value),
            final(self).index() == old(self).index(),
    {
        self.data[index] = value;
    }

    /// The value of the index register I.
    pub fn i(&self) -> (value: usize)
        ensures
            value == self.index(),
    {
        self.i
    }

    /// Sets the index register I to `value`.
    pub fn set_i(&mut self, value: usize)
        ensures
            final(self)@ == old(self)@,
            final(self).index() == value,
    {
        self.i = value;
    }
}

} // verus!
