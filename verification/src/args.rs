use vstd::prelude::*;

verus! {

/// What the user asked for.
pub struct DisplayArgs {
    /// GIF file to display.
    pub file: String,
    /// Width to display.
    pub width: Option<u32>,
    /// Height to display.
    pub height: Option<u32>,
    /// Text to display next to the animation.
    pub text: Option<String>,
    /// Fit the animation to the terminal screen.
    pub fit: bool,
    /// Loop the animation until it is interrupted.
    pub loop_animation: bool,
    /// Center the animation on the terminal screen.
    pub center: bool,
}

/// How the size of the displayed image is chosen.
#[derive(Clone, Copy, Debug, PartialEq, Eq, Structural)]
pub enum DisplaySize {
    /// The given width and height, in pixels; a missing one follows from the
    /// other and the source's aspect ratio.
    Size(Option<u32>, Option<u32>),
    /// The whole terminal, whatever the aspect ratio.
    Fill,
    /// The largest size of the source's aspect ratio that the terminal holds.
    Fit,
}

impl DisplayArgs {
    /// The sizing policy that the arguments select: `Fit` where it is asked
    /// for, `Fill` where neither width nor height is given, else the given
    /// dimensions.
    pub open spec fn spec_desired_size(&self) -> DisplaySize {
        if self.fit {
            DisplaySize::Fit
        } else if self.width is None && self.height is None {
            DisplaySize::Fill
        } else {
            DisplaySize::Size(self.width, self.height)
        }
    }

    /// The sizing policy that the arguments select.
    pub fn desired_size(&self) -> (policy: DisplaySize)
        ensures
            policy == self.spec_desired_size(),
    {
        if self.fit {
            DisplaySize::Fit
        } else if self.width.is_none() && self.height.is_none() {
            DisplaySize::Fill
        } else {
            DisplaySize::Size(self.width, self.height)
        }
    }
}

} // verus!
