//! Axis parameters and the capabilities they carry.
//!
//! An instruction that reads a parameter is built only over a type that is
//! `ReadableAxisParameter`, one that writes, stores or restores it only over
//! a type that is `WriteableAxisParameter`: a violation does not compile.
use vstd::prelude::*;
use crate::instructions::Return;

verus! {

/// A per-motor value identified by a fixed number.
pub trait AxisParameter {
    spec fn spec_number() -> u8;

    fn number() -> (r: u8)
        ensures
            r == Self::spec_number(),
    ;
}

/// A parameter that a module can report.
pub trait ReadableAxisParameter: AxisParameter + Return {

}

/// A parameter that a module can be set to, and store or restore.
pub trait WriteableAxisParameter: AxisParameter {
    /// The four operand bytes, most significant first.
    spec fn spec_operand(&self) -> Seq<u8>;

    fn operand(&self) -> (r: [u8; 4])
        ensures
            r@ == self.spec_operand(),
    ;
}

/// A parameter that can be both written and read: every value reads back
/// as itself from the operand it is written with.
pub trait ReadWriteAxisParameter: ReadableAxisParameter + WriteableAxisParameter {
    proof fn lemma_round_trip(v: Self, op: [u8; 4])
        requires
            op@ == v.spec_operand(),
        ensures
            Self::spec_from_operand(op) == Some(v),
    ;
}

} // verus!
