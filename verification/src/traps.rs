//! The trap table: a fixed-size, vector-indexed table of hardware fault
//! handlers. Only two vectors are ever populated: the breakpoint trap, whose
//! handler returns to the interrupted code, and the double fault, whose
//! handler halts the machine. Building the table is modelled here as an
//! explicit step of the boot sequence; loading it into the processor is a
//! hardware act that the binary around this crate performs.

use vstd::prelude::*;

verus! {

/// Interrupt vector of the breakpoint trap.
pub const BREAKPOINT_VECTOR: usize = 3;

/// Interrupt vector of the double-fault trap.
pub const DOUBLE_FAULT_VECTOR: usize = 8;

/// Number of entries of the trap-dispatch table.
pub const TRAP_VECTOR_COUNT: usize = 256;

/// What a single trap-table entry dispatches to.
#[derive(Clone, Copy, PartialEq, Eq, Structural, Debug)]
pub enum TrapHandler {
    /// No handler installed for this vector.
    Missing,
    /// The informational breakpoint handler; control returns to the
    /// interrupted instruction stream.
    Breakpoint,
    /// The double-fault handler; it never returns, the only legal response
    /// being to halt.
    DoubleFault,
}

/// The table of trap handlers, indexed by interrupt vector.
pub struct TrapTable {
    /// One entry per interrupt vector.
    pub entries: Vec<TrapHandler>,
}

impl TrapTable {
    /// A fully built table: every vector present, the breakpoint and
    /// double-fault vectors populated and nothing else.
    pub open spec fn wf(self) -> bool {
        &&& self.entries@.len() == TRAP_VECTOR_COUNT
        &&& self.entries@[BREAKPOINT_VECTOR as int] is Breakpoint
        &&& self.entries@[DOUBLE_FAULT_VECTOR as int] is DoubleFault
        &&& forall|i: int|
            0 <= i < TRAP_VECTOR_COUNT && i != BREAKPOINT_VECTOR && i != DOUBLE_FAULT_VECTOR
                ==> self.entries@[i] is Missing
    }
}

/// Builds the trap table with exactly the breakpoint and double-fault
/// handlers installed and every other vector left empty.
pub fn init_idt() -> (t: TrapTable)
    ensures
        t.wf(),
{
    let mut entries: Vec<TrapHandler> = Vec::new();
    let mut i: usize = 0;
    while i < TRAP_VECTOR_COUNT
        invariant
            i <= TRAP_VECTOR_COUNT,
            entries@.len() == i,
            forall|j: int| 0 <= j < i ==> entries@[j] is Missing,
        decreases TRAP_VECTOR_COUNT - i,
    {
        entries.push(TrapHandler::Missing);
        i = i + 1;
    }
    entries.set(BREAKPOINT_VECTOR, TrapHandler::Breakpoint);
    entries.set(DOUBLE_FAULT_VECTOR, TrapHandler::DoubleFault);
    TrapTable { entries }
}

} // verus!
