//! Simulation parameters: the grid's width and height, and the byte layout
//! under which they are uploaded to the GPU as a uniform buffer.

use vstd::prelude::*;

verus! {

/// The grid dimensions, fixed once the simulation is constructed and shared
/// read-only with every GPU stage.
#[derive(Clone, Copy, PartialEq, Eq, Structural, Debug)]
pub struct SimulationParams {
    pub width: u32,
    pub height: u32,
}

impl SimulationParams {
    /// The number of cells the grid holds.
    pub open spec fn spec_cell_count(self) -> nat {
        (self.width * self.height) as nat
    }

    pub fn new(width: u32, height: u32) -> (r: SimulationParams)
        ensures
            r.width == width,
            r.height == height,
    {
        SimulationParams { width, height }
    }

    /// The number of cells, as a value a buffer allocation can use. Two
    /// `u32` factors always fit in a `u64`.
    pub fn cell_count(&self) -> (r: u64)
        ensures
            r == self.spec_cell_count(),
    {
        let w: u64 = self.width as u64;
        let h: u64 = self.height as u64;
        proof {
            assert(w * h <= 0xffff_ffff_0000_0001u64) by (nonlinear_arith)
                requires
                    w <= 0xffff_ffffu64,
                    h <= 0xffff_ffffu64,
            ;
        }
        w * h
    }

    /// The bytes of the parameter uniform buffer: `width` then `height`,
    /// each as four little-endian bytes, padded with zeros to the 16-byte
    /// minimum uniform alignment.
    pub fn uniform_bytes(&self) -> (r: Vec<u8>)
        ensures
            r@ == uniform_layout(*self),
            r@.len() == UNIFORM_SIZE,
    {
        let mut out: Vec<u8> = Vec::new();
        push_u32_le(&mut out, self.width);
        push_u32_le(&mut out, self.height);
        let mut i: usize = 0;
        while i < 8
            invariant
                i <= 8,
                out@ == u32_le_bytes(self.width) + u32_le_bytes(self.height)
                    + Seq::new(i as nat, |j: int| 0u8),
            decreases 8 - i,
        {
            out.push(0u8);
            i = i + 1;
            proof {
                assert(out@ =~= u32_le_bytes(self.width) + u32_le_bytes(self.height)
                    + Seq::new(i as nat, |j: int| 0u8));
            }
        }
        out
    }
}

/// How many bytes the parameter uniform occupies on the GPU.
pub const UNIFORM_SIZE: usize = 16;

/// The four little-endian bytes of a 32-bit value.
pub open spec fn u32_le_bytes(x: u32) -> Seq<u8> {
    seq![
        (x % 256) as u8,
        ((x / 256) % 256) as u8,
        ((x / 65536) % 256) as u8,
        ((x / 16777216) % 256) as u8,
    ]
}

/// The full uniform image of the parameters: both dimensions, then zero
/// padding up to [`UNIFORM_SIZE`].
pub open spec fn uniform_layout(p: SimulationParams) -> Seq<u8> {
    u32_le_bytes(p.width) + u32_le_bytes(p.height) + Seq::new(8, |j: int| 0u8)
}

fn push_u32_le(out: &mut Vec<u8>, x: u32)
    ensures
        final(out)@ == old(out)@ + u32_le_bytes(x),
{
    out.push((x % 256) as u8);
    out.push(((x / 256) % 256) as u8);
    out.push(((x / 65536) % 256) as u8);
    out.push(((x / 16777216) % 256) as u8);
    proof {
        assert(out@ =~= old(out)@ + u32_le_bytes(x));
    }
}

} // verus!
