use crate::bytes::{le_value, read_le};
use crate::error::EmuError;
use vstd::prelude::*;

verus! {

/// What an [`IROM`] holds: the user image and the trap-handler image, each
/// with the address of its first byte.
pub struct IromState {
    pub user: Seq<u8>,
    pub user_base: u32,
    pub kernel: Seq<u8>,
    pub kernel_base: u32,
}

/// `addr` is the address of one of the `len` bytes from `base`.
pub open spec fn starts_in(base: u32, len: nat, addr: u32) -> bool {
    base <= addr < base + len
}

impl IromState {
    /// The word at `addr`: read from the segment in which `addr` lies, which
    /// must hold all four of its bytes.
    pub open spec fn fetch(self, addr: u32) -> Result<u32, EmuError> {
        if starts_in(self.user_base, self.user.len(), addr) {
            if addr + 4 <= self.user_base + self.user.len() {
                Ok(le_value(self.user, addr - self.user_base, 4))
            } else {
                Err(EmuError::BadMemoryAccess(addr))
            }
        } else if starts_in(self.kernel_base, self.kernel.len(), addr) {
            if addr + 4 <= self.kernel_base + self.kernel.len() {
                Ok(le_value(self.kernel, addr - self.kernel_base, 4))
            } else {
                Err(EmuError::BadMemoryAccess(addr))
            }
        } else {
            Err(EmuError::BadMemoryAccess(addr))
        }
    }
}

/// Instruction memory: two read-only code segments, the user program and
/// the trap handler.
#[allow(clippy::upper_case_acronyms)]
pub struct IROM {
    user: Vec<u8>,
    user_base: u32,
    kernel: Vec<u8>,
    kernel_base: u32,
}

impl View for IROM {
    type V = IromState;

    closed spec fn view(&self) -> IromState {
        IromState {
            user: self.user@,
            user_base: self.user_base,
            kernel: self.kernel@,
            kernel_base: self.kernel_base,
        }
    }
}

/// Reads the word at `addr` of the segment of `len` bytes from `base` that
/// `seg` holds, if `addr` lies in it.
fn fetch_from(seg: &Vec<u8>, base: u32, addr: u32) -> (r: Option<Result<u32, EmuError>>)
    ensures
        starts_in(base, seg@.len(), addr) <==> r is Some,
        r is Some ==> r->0 == (if addr + 4 <= base + seg@.len() {
            Ok(le_value(seg@, addr - base, 4))
        } else {
            Err(EmuError::BadMemoryAccess(addr))
        }),
{
    if addr < base {
        return None;
    }
    let off = (addr - base) as usize;
    if off >= seg.len() {
        return None;
    }
    if seg.len() - off < 4 {
        return Some(Err(EmuError::BadMemoryAccess(addr)));
    }
    Some(Ok(read_le(seg, off, 4)))
}

impl IROM {
    /// Copies the two code images.
    pub fn new(user: &[u8], user_base: u32, kernel: &[u8], kernel_base: u32) -> (r: IROM)
        ensures
            r@ == (IromState { user: user@, user_base, kernel: kernel@, kernel_base }),
    {
        IROM {
            user: vstd::slice::slice_to_vec(user),
            user_base,
            kernel: vstd::slice::slice_to_vec(kernel),
            kernel_base,
        }
    }

    /// The little-endian word at `addr`.
    pub fn fetch(&self, addr: u32) -> (r: Result<u32, EmuError>)
        ensures
            r == self@.fetch(addr),
    {
        match fetch_from(&self.user, self.user_base, addr) {
            Some(r) => r,
            None => match fetch_from(&self.kernel, self.kernel_base, addr) {
                Some(r) => r,
                None => Err(EmuError::BadMemoryAccess(addr)),
            },
        }
    }
}

} // verus!
