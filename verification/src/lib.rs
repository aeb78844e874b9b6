//! A minimal GPU command-submission core, modelled and verified.
//!
//! The crate selects a compute-capable queue family, hands out buffer and
//! image resources with declared usage and access patterns, records ordered
//! command units (copy, clear, dispatch, draw), and submits them against a
//! device context, returning a completion token the host waits on before it
//! reads results back.
//!
//! Everything the device itself decides (driver presence, enumeration,
//! rejection of a creation request, loss of the device) enters through plain
//! values describing the host, so the rules of the layer are verified for
//! every answer the device can give.

use vstd::prelude::*;

pub mod device;
pub mod error;
pub mod fence;
pub mod laws;
pub mod memory;
pub mod pipeline;
pub mod recorder;

verus! {

/// Multiplication on 32-bit words as a device performs it: modulo 2^32.
pub open spec fn mul_wrap_spec(a: u32, b: u32) -> u32 {
    (((a as int) * (b as int)) % 0x1_0000_0000) as u32
}

/// Wrapping product of two 32-bit words, as a compute unit leaves it.
pub fn mul_wrap(a: u32, b: u32) -> (r: u32)
    ensures
        r == mul_wrap_spec(a, b),
{
    proof {
        assert((a as int) * (b as int) <= 0xffff_ffff * 0xffff_ffff) by (nonlinear_arith)
            requires
                0 <= a as int <= 0xffff_ffff,
                0 <= b as int <= 0xffff_ffff,
        ;
    }
    let wide: u64 = (a as u64) * (b as u64);
    (wide % 0x1_0000_0000u64) as u32
}

} // verus!
