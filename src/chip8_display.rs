use vstd::prelude::*;

verus! {

/// Where the machine shows its framebuffer.
pub trait CHIP8Display {
    /// Blanks the screen.
    fn clear(&mut self);

    /// Paints the framebuffer `video_memory`.
    fn update(&mut self, video_memory: &[[u8; 4]; 8]);
}

/// A display that shows nothing, for running the machine without a screen.
pub struct DummyCHIP8Display {}

impl DummyCHIP8Display {
    pub fn new() -> (r: DummyCHIP8Display)
        ensures
            r == (DummyCHIP8Display {}),
    {
        DummyCHIP8Display {  }
    }
}

impl CHIP8Display for DummyCHIP8Display {
    fn clear(&mut self) {
    }

    fn update(&mut self, _video_memory: &[[u8; 4]; 8]) {
    }
}

} // verus!
