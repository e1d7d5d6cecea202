//! The structured operations that the byte stream is parsed into.

use vstd::prelude::*;

verus! {

/// One action of the escape-sequence parser, with what it carries. A
/// parameter is a group of values: the first is the parameter itself, the
/// rest are its subparameters.
#[derive(Debug)]
pub enum Operation {
    /// A printable character.
    Print(char),
    /// A C0 or C1 control code.
    Execute(u8),
    /// A control sequence: parameters, intermediates and the final letter.
    Csi { params: Vec<Vec<u16>>, intermediates: Vec<u8>, ignore: bool, action: char },
    /// An operating system command with its `;`-separated fields.
    Osc { fields: Vec<Vec<u8>>, bell_terminated: bool },
    /// An escape sequence that is none of the others.
    Esc { intermediates: Vec<u8>, ignore: bool, byte: u8 },
    /// The start of a device control string.
    Hook { params: Vec<Vec<u16>>, intermediates: Vec<u8>, ignore: bool, action: char },
    /// One byte of a device control string.
    Put(u8),
    /// The end of a device control string.
    Unhook,
}

/// The parameter groups that a vector of groups holds.
pub open spec fn groups_of(params: Seq<Vec<u16>>) -> Seq<Seq<u16>> {
    Seq::new(params.len(), |i: int| params[i]@)
}

} // verus!
