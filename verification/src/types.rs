use vstd::prelude::*;

verus! {

/// One frame as text: the rasterized lines, and once the frame has been placed
/// on the screen, the single string that draws it there.
#[derive(Debug, PartialEq, Eq)]
pub struct StrFrame {
    /// The rasterized lines, top to bottom, not yet positioned.
    pub raw_frame: Vec<String>,
    /// Width and height in terminal cells.
    pub size: (usize, usize),
    /// The positioned text; `None` until the frame is first placed.
    pub final_frame: Option<String>,
    /// How long the frame stays on the screen, in milliseconds.
    pub delay: u64,
}

/// What a [`StrFrame`] holds, with each string as its characters.
pub struct StrFrameView {
    pub raw_frame: Seq<Seq<char>>,
    pub size: (usize, usize),
    pub final_frame: Option<Seq<char>>,
    pub delay: u64,
}

/// The characters of each string of `lines`.
pub open spec fn lines_view(lines: Seq<String>) -> Seq<Seq<char>> {
    Seq::new(lines.len(), |i: int| lines[i]@)
}

impl View for StrFrame {
    type V = StrFrameView;

    open spec fn view(&self) -> StrFrameView {
        StrFrameView {
            raw_frame: lines_view(self.raw_frame@),
            size: self.size,
            final_frame: match self.final_frame {
                Some(s) => Some(s@),
                None => None,
            },
            delay: self.delay,
        }
    }
}

} // verus!
