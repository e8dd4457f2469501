use vstd::prelude::*;

verus! {

/// Length of the analysis and synthesis windows, in samples (32 ms at 16 kHz).
pub const DTLN_BLOCK_LEN: usize = 512;

/// Hop between successive blocks (8 ms at 16 kHz); input is consumed and
/// output is emitted in chunks whose length is a multiple of this.
pub const DTLN_BLOCK_SHIFT: usize = 128;

/// Number of complex bins produced by the real-valued forward transform.
pub const DTLN_FFT_OUT_SIZE: usize = DTLN_BLOCK_LEN / 2 + 1;

/// IEEE-754 bit pattern of 512.0, the divisor that undoes the scaling
/// convention of the inverse transform.
pub const F32_BLOCK_LEN_BITS: u32 = 0x4400_0000;

} // verus!
