use vstd::prelude::*;

verus! {

/// Why a fetch, a decode or an instruction failed.
#[derive(Clone, Copy, Debug, PartialEq, Eq, Structural)]
pub enum EmuError {
    /// The word is no instruction of RV32I with Zicsr.
    Decode(u32),
    /// The address lies in no memory segment and is no port.
    BadMemoryAccess(u32),
    /// A memory access whose width in bits is not 8, 16 or 32.
    BadSize(u32),
    /// A CSR address other than the four that the core keeps.
    BadCsr(u32),
    /// `mret`, `sret` or `uret` ran: the trap handler is done.
    EretStop,
}

} // verus!
