//! Register sets of a 32-bit x86 processor, as plain records.
use vstd::prelude::*;

verus! {

/// A 32-bit register.
pub type Reg32 = u32;
/// A 16-bit register.
pub type Reg16 = u16;

/// The general-purpose registers.
#[derive(Clone, Copy, Debug, PartialEq, Eq, Structural)]
pub struct GpRegs {
    pub eax: Reg32,
    pub ebx: Reg32,
    pub ecx: Reg32,
    pub edx: Reg32,
    pub edi: Reg32,
    pub ebp: Reg32,
    pub esi: Reg32,
    pub esp: Reg32,
}

/// The segment registers.
#[derive(Clone, Copy, Debug, PartialEq, Eq, Structural)]
pub struct SgReg {
    pub ss: Reg16,
    pub es: Reg16,
    pub ds: Reg16,
    pub fs: Reg16,
    pub gs: Reg16,
    pub cs: Reg16,
}

/// What saving a CPU identification string into a caller's buffer produced.
#[derive(Clone, Copy, Debug, PartialEq, Eq, Structural)]
pub enum IdCopy {
    /// The buffer is shorter than the length asked for; it is untouched.
    BufferTooSmall,
    /// The CPU reports no such string; the buffer starts with `?` and a zero
    /// byte.
    Unavailable,
    /// The first `n` bytes of the string were copied, followed by a zero
    /// byte.
    Copied(usize),
}

/// Saves the identification string `id` into `out` as a zero-terminated
/// string, truncated to leave room for the terminator, provided `out` holds
/// at least `min_len` bytes.
pub fn save_id_string(id: Option<&[u8]>, out: &mut Vec<u8>, min_len: usize) -> (r: IdCopy)
    requires
        min_len >= 2,
    ensures
        old(out).len() < min_len ==> r == IdCopy::BufferTooSmall && final(out)@ == old(out)@,
        old(out).len() >= min_len ==> match id {
            None => r == IdCopy::Unavailable && final(out)@ == seq![63u8, 0u8] + old(out)@.subrange(
                2,
                old(out)@.len() as int,
            ),
            Some(s) => {
                let n = if s@.len() < old(out)@.len() - 1 {
                    s@.len() as int
                } else {
                    old(out)@.len() - 1
                };
                &&& r == IdCopy::Copied(n as usize)
                &&& final(out)@ == s@.take(n) + seq![0u8] + old(out)@.subrange(
                    n + 1,
                    old(out)@.len() as int,
                )
            },
        },
{
    let len = out.len();
    if len < min_len {
        return IdCopy::BufferTooSmall;
    }
    match id {
        None => {
            out[0] = 63u8;
            out[1] = 0;
            assert(out@ =~= seq![63u8, 0u8] + old(out)@.subrange(2, len as int));
            IdCopy::Unavailable
        },
        Some(s) => {
            let n = if s.len() < len - 1 {
                s.len()
            } else {
                len - 1
            };
            let mut i: usize = 0;
            while i < n
                invariant
                    i <= n,
                    n <= s@.len(),
                    n < len,
                    out@.len() == len,
                    len == old(out)@.len(),
                    forall|k: int| 0 <= k < i ==> #[trigger] out@[k] == s@[k],
                    forall|k: int| i <= k < len ==> #[trigger] out@[k] == old(out)@[k],
                decreases n - i,
            {
                out[i] = s[i];
                i = i + 1;
            }
            out[n] = 0;
            assert(out@ =~= s@.take(n as int) + seq![0u8] + old(out)@.subrange(
                n + 1,
                len as int,
            ));
            IdCopy::Copied(n)
        },
    }
}

} // verus!
