use vstd::prelude::*;

verus! {

/// A diagnostic hook that is handed every instruction word the interpreter
/// executes. It only observes: it has no access to the machine state, so it
/// cannot change what the machine does.
pub trait Disassembler {
    fn disassemble(&self, opcode: u16);
}

/// The silent hook: ignores every instruction.
#[derive(Debug)]
pub struct NullDisassembler {}

impl Disassembler for NullDisassembler {
    fn disassemble(&self, _opcode: u16) {
    }
}

} // verus!
