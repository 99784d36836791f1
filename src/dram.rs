use crate::bytes::{lemma_put_le_then_le_value, le_value, low_bytes, put_le, read_le, write_le};
use crate::error::EmuError;
use vstd::prelude::*;

verus! {

/// The input port: a load from here reads the switches.
pub const SWITCH_ADDR: u32 = 0xffff_f070;

/// What the switch port reads.
pub const SWITCH_VALUE: u32 = 0x00a0_0000;

/// The output port: a store to here drives the LEDs.
pub const DIG_ADDR: u32 = 0xffff_f000;

/// A width in bits that a data access may have.
pub open spec fn valid_size(size: u32) -> bool {
    size == 8 || size == 16 || size == 32
}

/// The `n` bytes from `addr` all lie among the `len` bytes from `base`.
pub open spec fn within(base: u32, len: nat, addr: u32, n: nat) -> bool {
    base <= addr && addr + n <= base + len
}

/// What a [`DRAM`] holds: the stack segment and the data segment, each with
/// the address of its first byte.
pub struct DramState {
    pub stack: Seq<u8>,
    pub stack_base: u32,
    pub data: Seq<u8>,
    pub data_base: u32,
}

impl DramState {
    /// The value of a load of `size` bits from `addr`: from the data segment
    /// if the access lies wholly in it, else from the stack segment, else the
    /// switch port. Where the two segments overlap, the program image in the
    /// data segment is the one seen.
    pub open spec fn load(self, addr: u32, size: u32) -> Result<u32, EmuError> {
        let n = (size / 8) as nat;
        if !valid_size(size) {
            Err(EmuError::BadSize(size))
        } else if within(self.data_base, self.data.len(), addr, n) {
            Ok(le_value(self.data, addr - self.data_base, n))
        } else if within(self.stack_base, self.stack.len(), addr, n) {
            Ok(le_value(self.stack, addr - self.stack_base, n))
        } else if addr == SWITCH_ADDR {
            Ok(SWITCH_VALUE)
        } else {
            Err(EmuError::BadMemoryAccess(addr))
        }
    }

    /// The memory after a store of the low `size` bits of `v` to `addr`, with
    /// the value sent to the LED port, if that is where it went.
    pub open spec fn store(self, addr: u32, v: u32, size: u32) -> Result<
        (DramState, Option<u32>),
        EmuError,
    > {
        let n = (size / 8) as nat;
        if !valid_size(size) {
            Err(EmuError::BadSize(size))
        } else if within(self.data_base, self.data.len(), addr, n) {
            Ok((DramState { data: put_le(self.data, addr - self.data_base, n, v), ..self }, None))
        } else if within(self.stack_base, self.stack.len(), addr, n) {
            Ok((DramState { stack: put_le(self.stack, addr - self.stack_base, n, v), ..self }, None))
        } else if addr == DIG_ADDR {
            Ok((self, Some(v)))
        } else {
            Err(EmuError::BadMemoryAccess(addr))
        }
    }
}

/// `x` rounded up to a multiple of `align`.
pub open spec fn align_up_spec(x: int, align: int) -> int {
    (x + align - 1) / align * align
}

/// The memory as it starts: a zero-filled stack of `stack_size` bytes
/// rounded up to a multiple of 4 at `stack_base`, and the data segment
/// holding `img` at `img_base`.
pub open spec fn initial_dram(img: Seq<u8>, img_base: u32, stack_base: u32, stack_size: u32) -> DramState {
    DramState {
        stack: Seq::new(align_up_spec(stack_size as int, 4) as nat, |i: int| 0u8),
        stack_base,
        data: img,
        data_base: img_base,
    }
}

/// Data memory: a zero-filled stack segment, a data segment that starts as a
/// copy of a program image, and two ports.
#[allow(clippy::upper_case_acronyms)]
pub struct DRAM {
    stack: Vec<u8>,
    stack_base: u32,
    data: Vec<u8>,
    data_base: u32,
}

impl View for DRAM {
    type V = DramState;

    closed spec fn view(&self) -> DramState {
        DramState {
            stack: self.stack@,
            stack_base: self.stack_base,
            data: self.data@,
            data_base: self.data_base,
        }
    }
}

/// The offset in `seg` (based at `base`) of an access of `n` bytes from
/// `addr`, if the access lies wholly in it.
fn offset_in(seg: &Vec<u8>, base: u32, addr: u32, n: usize) -> (r: Option<usize>)
    ensures
        within(base, seg@.len(), addr, n as nat) <==> r is Some,
        r is Some ==> r->0 == addr - base,
{
    if addr < base {
        return None;
    }
    let off = (addr - base) as usize;
    if off > seg.len() || seg.len() - off < n {
        return None;
    }
    Some(off)
}

impl DRAM {
    fn align_up(x: u32, align: u32) -> (r: u32)
        requires
            align > 0,
            x + align - 1 <= u32::MAX,
        ensures
            r == align_up_spec(x as int, align as int),
    {
        let s = x + (align - 1);
        assert(s / align * align <= s) by (nonlinear_arith)
            requires
                align > 0,
        ;
        s / align * align
    }

    /// A stack of `stack_size` bytes rounded up to a multiple of 4, all zero,
    /// at `stack_base`, and a data segment holding `img` at `img_base`.
    pub fn new(img: &[u8], img_base: u32, stack_base: u32, stack_size: u32) -> (r: DRAM)
        requires
            stack_size <= u32::MAX - 3,
        ensures
            r@ == initial_dram(img@, img_base, stack_base, stack_size),
    {
        let len = DRAM::align_up(stack_size, 4);
        let stack: Vec<u8> = vec![0u8; len as usize];
        assert(stack@ =~= Seq::new(align_up_spec(stack_size as int, 4) as nat, |i: int| 0u8));
        DRAM { stack, stack_base, data: vstd::slice::slice_to_vec(img), data_base: img_base }
    }

    /// Loads `size` bits (8, 16 or 32) from `addr`, little-endian; narrower
    /// values come back zero-extended.
    pub fn load(&self, addr: u32, size: u32) -> (r: Result<u32, EmuError>)
        ensures
            r == self@.load(addr, size),
    {
        if size != 8 && size != 16 && size != 32 {
            return Err(EmuError::BadSize(size));
        }
        let n = (size / 8) as usize;
        if let Some(off) = offset_in(&self.data, self.data_base, addr, n) {
            Ok(read_le(&self.data, off, n))
        } else if let Some(off) = offset_in(&self.stack, self.stack_base, addr, n) {
            Ok(read_le(&self.stack, off, n))
        } else if addr == SWITCH_ADDR {
            Ok(SWITCH_VALUE)
        } else {
            Err(EmuError::BadMemoryAccess(addr))
        }
    }

    /// Stores the low `size` bits (8, 16 or 32) of `data` at `addr`,
    /// little-endian. A store to the LED port changes no memory and returns
    /// the value sent there.
    pub fn store(&mut self, addr: u32, data: u32, size: u32) -> (r: Result<Option<u32>, EmuError>)
        ensures
            match old(self)@.store(addr, data, size) {
                Ok((m, led)) => r == Ok::<Option<u32>, EmuError>(led) && final(self)@ == m,
                Err(e) => r == Err::<Option<u32>, EmuError>(e) && final(self)@ == old(self)@,
            },
    {
        if size != 8 && size != 16 && size != 32 {
            return Err(EmuError::BadSize(size));
        }
        let n = (size / 8) as usize;
        if let Some(off) = offset_in(&self.data, self.data_base, addr, n) {
            write_le(&mut self.data, off, n, data);
            Ok(None)
        } else if let Some(off) = offset_in(&self.stack, self.stack_base, addr, n) {
            write_le(&mut self.stack, off, n, data);
            Ok(None)
        } else if addr == DIG_ADDR {
            Ok(Some(data))
        } else {
            Err(EmuError::BadMemoryAccess(addr))
        }
    }
}

/// A store into a memory segment followed by a load of the same width from
/// the same address gives back the low bits of the value stored.
pub proof fn lemma_store_then_load(d: DramState, addr: u32, v: u32, size: u32)
    requires
        d.store(addr, v, size) is Ok,
        d.store(addr, v, size)->Ok_0.1 is None,
    ensures
        d.store(addr, v, size)->Ok_0.0.load(addr, size) == Ok::<u32, EmuError>(
            low_bytes(v, (size / 8) as nat),
        ),
{
    let n = (size / 8) as nat;
    if within(d.data_base, d.data.len(), addr, n) {
        lemma_put_le_then_le_value(d.data, addr - d.data_base, n, v);
    } else {
        lemma_put_le_then_le_value(d.stack, addr - d.stack_base, n, v);
    }
}

} // verus!
