//! The frame store: a color buffer and a depth buffer, row-major.
//!
//! The depth buffer holds quantized inverse-depth weights (larger means
//! nearer); it starts at zero, which stands for farthest/empty.

use vstd::prelude::*;
use crate::lemma_mul_le;

verus! {

/// One 8-bit RGB pixel.
#[derive(Clone, Copy, PartialEq, Eq, Structural, Debug)]
pub struct Rgb {
    pub r: u8,
    pub g: u8,
    pub b: u8,
}

/// Black, the color the buffer starts from.
pub open spec fn black() -> Rgb {
    Rgb { r: 0, g: 0, b: 0 }
}

/// The color and depth buffers for one output image, indexed by
/// `x + y * width`.
pub struct FrameStore {
    pub width: usize,
    pub height: usize,
    pub color: Vec<Rgb>,
    pub depth: Vec<i128>,
}

impl FrameStore {
    /// Both buffers cover exactly `width * height` pixels and the
    /// resolution is within the rasterizer's range.
    pub open spec fn wf(self) -> bool {
        &&& self.width <= 4096
        &&& self.height <= 4096
        &&& self.color@.len() == self.width * self.height
        &&& self.depth@.len() == self.width * self.height
    }

    /// A freshly zeroed store: every pixel black, every depth zero.
    pub open spec fn zeroed(self) -> bool {
        &&& forall|k: int| 0 <= k < self.color@.len() ==> self.color@[k] == black()
        &&& forall|k: int| 0 <= k < self.depth@.len() ==> self.depth@[k] == 0
    }

    /// Make a frame store of the given resolution, color
    /// default-initialized to black and depth to zero.
    pub fn new(width: usize, height: usize) -> (fb: FrameStore)
        requires
            width <= 4096,
            height <= 4096,
        ensures
            fb.wf(),
            fb.zeroed(),
            fb.width == width,
            fb.height == height,
    {
        proof {
            lemma_mul_le(width as int, height as int, 4096, 4096);
        }
        let n = width * height;
        let mut color: Vec<Rgb> = Vec::new();
        let mut depth: Vec<i128> = Vec::new();
        let mut i: usize = 0;
        while i < n
            invariant
                i <= n,
                color@.len() == i,
                depth@.len() == i,
                forall|k: int| 0 <= k < i ==> color@[k] == black(),
                forall|k: int| 0 <= k < i ==> depth@[k] == 0,
            decreases n - i,
        {
            color.push(Rgb { r: 0, g: 0, b: 0 });
            depth.push(0);
            i = i + 1;
        }
        FrameStore { width, height, color, depth }
    }
}

} // verus!
