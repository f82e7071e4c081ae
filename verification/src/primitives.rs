//! Mesh data for the primitive shapes: plain vertex and index tables
//! that the rendering side uploads unchanged.

use crate::float32::ONE_BITS;
use crate::float32::POS_ZERO;
use vstd::prelude::*;

verus! {

/// Bit pattern of 0.5, the cube's half edge length.
pub const HALF_BITS: u32 = 0x3F00_0000;

/// Bit pattern of -0.5.
pub const NEG_HALF_BITS: u32 = 0xBF00_0000;

/// One mesh vertex: a position and a color, both as binary32 patterns.
#[derive(Clone, Copy, Debug)]
pub struct Vertex {
    pub position: [u32; 3],
    pub color: [u32; 4],
}

/// Builders for primitive shapes.
pub struct Primitive {}

impl Primitive {
    /// The unit cube: twenty-four vertices, four per face with one color
    /// each, and thirty-six indices forming twelve triangles. Every index
    /// points into the vertex table.
    pub fn cube() -> (r: (Vec<Vertex>, Vec<u16>))
        ensures
            r.0@.len() == 24,
            r.1@.len() == 36,
            forall|i: int| 0 <= i < 36 ==> (#[trigger] r.1@[i]) < 24,
    {
        let red: [u32; 4] = [ONE_BITS, POS_ZERO, POS_ZERO, ONE_BITS];
        let green: [u32; 4] = [POS_ZERO, ONE_BITS, POS_ZERO, ONE_BITS];
        let blue: [u32; 4] = [POS_ZERO, POS_ZERO, ONE_BITS, ONE_BITS];
        let cyan: [u32; 4] = [POS_ZERO, ONE_BITS, ONE_BITS, ONE_BITS];
        let magenta: [u32; 4] = [ONE_BITS, POS_ZERO, ONE_BITS, ONE_BITS];
        let yellow: [u32; 4] = [ONE_BITS, ONE_BITS, POS_ZERO, ONE_BITS];
        let shape: Vec<Vertex> = vec![
            Vertex { position: [HALF_BITS, HALF_BITS, HALF_BITS], color: red },
            Vertex { position: [HALF_BITS, NEG_HALF_BITS, HALF_BITS], color: red },
            Vertex { position: [NEG_HALF_BITS, HALF_BITS, HALF_BITS], color: red },
            Vertex { position: [NEG_HALF_BITS, NEG_HALF_BITS, HALF_BITS], color: red },
            Vertex { position: [HALF_BITS, HALF_BITS, NEG_HALF_BITS], color: green },
            Vertex { position: [HALF_BITS, NEG_HALF_BITS, NEG_HALF_BITS], color: green },
            Vertex { position: [NEG_HALF_BITS, HALF_BITS, NEG_HALF_BITS], color: green },
            Vertex { position: [NEG_HALF_BITS, NEG_HALF_BITS, NEG_HALF_BITS], color: green },
            Vertex { position: [NEG_HALF_BITS, HALF_BITS, HALF_BITS], color: blue },
            Vertex { position: [NEG_HALF_BITS, HALF_BITS, NEG_HALF_BITS], color: blue },
            Vertex { position: [NEG_HALF_BITS, NEG_HALF_BITS, HALF_BITS], color: blue },
            Vertex { position: [NEG_HALF_BITS, NEG_HALF_BITS, NEG_HALF_BITS], color: blue },
            Vertex { position: [HALF_BITS, HALF_BITS, HALF_BITS], color: cyan },
            Vertex { position: [HALF_BITS, HALF_BITS, NEG_HALF_BITS], color: cyan },
            Vertex { position: [HALF_BITS, NEG_HALF_BITS, HALF_BITS], color: cyan },
            Vertex { position: [HALF_BITS, NEG_HALF_BITS, NEG_HALF_BITS], color: cyan },
            Vertex { position: [HALF_BITS, HALF_BITS, HALF_BITS], color: magenta },
            Vertex { position: [NEG_HALF_BITS, HALF_BITS, HALF_BITS], color: magenta },
            Vertex { position: [HALF_BITS, HALF_BITS, NEG_HALF_BITS], color: magenta },
            Vertex { position: [NEG_HALF_BITS, HALF_BITS, NEG_HALF_BITS], color: magenta },
            Vertex { position: [HALF_BITS, NEG_HALF_BITS, HALF_BITS], color: yellow },
            Vertex { position: [NEG_HALF_BITS, NEG_HALF_BITS, HALF_BITS], color: yellow },
            Vertex { position: [HALF_BITS, NEG_HALF_BITS, NEG_HALF_BITS], color: yellow },
            Vertex { position: [NEG_HALF_BITS, NEG_HALF_BITS, NEG_HALF_BITS], color: yellow },
        ];
        let indices: Vec<u16> = vec![
            0, 2, 1, 1, 2, 3, 4, 5, 6, 5, 7, 6, 8, 9, 10, 9, 11, 10, 12, 14, 13, 13, 14, 15, 16,
            18, 17, 17, 18, 19, 20, 21, 22, 21, 23, 22,
        ];
        (shape, indices)
    }
}

} // verus!
