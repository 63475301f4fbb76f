use vstd::prelude::*;

verus! {

/// The host-side sink for finished frames. The core never draws; a
/// host implements this trait around whatever window or encoder it
/// uses and consumes each 256 x 240 pixel buffer the machine yields.
pub trait VideoDriver {
    /// Whether the sink still accepts frames.
    fn is_open(&self) -> bool;

    /// Consume one finished frame, one `0x00RRGGBB` pixel per entry,
    /// row-major from the top-left corner.
    fn output_frame(&mut self, frame: &Vec<u32>);
}

} // verus!
