use vstd::prelude::*;
use crate::args::DisplayArgs;
use crate::display::{
    finalized, frames_view, reads_terminal, step, stepped, text_view, Action, Playhead, Stage,
};
use crate::screen::teardown_text;
use crate::terminal::terminal_size;
use crate::text::{lines, longest, longest_line, place, placed, split_lines};
use crate::types::StrFrame;

verus! {

/// An animation and the state of its playback.
pub struct Animation {
    args: DisplayArgs,
    frames: Vec<StrFrame>,
    head: Playhead,
}

impl Animation {
    /// What the user asked for.
    pub closed spec fn args(&self) -> DisplayArgs {
        self.args
    }

    /// The frames, in the order in which they are shown.
    pub closed spec fn frames(&self) -> Seq<StrFrame> {
        self.frames@
    }

    /// The state of the playback.
    pub closed spec fn head(&self) -> Playhead {
        self.head
    }

    /// The playback's state names no frame that the animation lacks.
    pub open spec fn wf(&self) -> bool {
        self.head().wf(self.frames().len())
    }

    /// An animation of `frames`, played as `args` ask for it, with nothing
    /// written yet.
    pub fn new(args: DisplayArgs, frames: Vec<StrFrame>) -> (anim: Self)
        ensures
            anim.args() == args,
            anim.frames() == frames@,
            anim.head() == Playhead::spec_start(),
            anim.wf(),
    {
        Self { args, frames, head: Playhead::start() }
    }

    /// The state of the playback.
    pub fn playhead(&self) -> (head: Playhead)
        ensures
            head == self.head(),
    {
        self.head
    }

    /// Takes one step of the playback and says what to do before the next:
    /// write a text, sleep, or stop. `elapsed` is the time in nanoseconds that
    /// the last write took. The first step of a centered playback asks the
    /// terminal for its size; no other step does.
    pub fn display(&mut self, elapsed: u128) -> (action: Action)
        requires
            old(self).wf(),
        ensures
            final(self).wf(),
            final(self).args() == old(self).args(),
            !reads_terminal(old(self).args().center, old(self).head()) ==> (
                frames_view(final(self).frames()),
                final(self).head(),
                action@,
            ) == stepped(
                frames_view(old(self).frames()),
                text_view(old(self).args().text),
                old(self).args().center,
                old(self).args().loop_animation,
                old(self).head(),
                None,
                elapsed,
            ),
            exists|terminal: Option<(u16, u16)>|
                (frames_view(final(self).frames()), final(self).head(), action@)
                    == #[trigger] stepped(
                    frames_view(old(self).frames()),
                    text_view(old(self).args().text),
                    old(self).args().center,
                    old(self).args().loop_animation,
                    old(self).head(),
                    terminal,
                    elapsed,
                ),
    {
        let terminal = match self.head.stage {
            Stage::Setup => if self.args.center {
                terminal_size()
            } else {
                None
            },
            _ => None,
        };
        let text: Option<&str> = match &self.args.text {
            Some(t) => Some(t.as_str()),
            None => None,
        };
        let (head, action) = step(
            &mut self.frames,
            text,
            self.args.center,
            self.args.loop_animation,
            self.head,
            terminal,
            elapsed,
        );
        self.head = head;
        assert((frames_view(self.frames()), self.head(), action@) == stepped(
            frames_view(old(self).frames()),
            text_view(old(self).args().text),
            old(self).args().center,
            old(self).args().loop_animation,
            old(self).head(),
            terminal,
            elapsed,
        ));
        action
    }

    /// The length in bytes of the longest line of the text beside the
    /// animation; zero where there is no text.
    pub fn longest_text_line(&self) -> (len: usize)
        ensures
            len == match self.args().text {
                Some(t) => longest_line(split_lines(t@)),
                None => 0,
            },
    {
        if let Some(text) = &self.args.text {
            return longest(&lines(text.as_str()));
        }
        0
    }

    /// The text that writes the lines of `text` beside a frame of
    /// `frame_width` cells whose top-left cell is at `offset` (column and row,
    /// counted from one): each line in its own row, from the frame's first row
    /// down, one blank cell to the right of the frame.
    pub fn finalize_text(text: &str, offset: &(usize, usize), frame_width: usize) -> (out: String)
        ensures
            out@ == placed(split_lines(text@), *offset, frame_width),
    {
        place(&lines(text), offset, frame_width)
    }

    /// Places `f` at `offset`; see [`crate::display::finalize_frame`].
    pub fn finalize_frame(f: &mut StrFrame, offset: &(usize, usize))
        ensures
            final(f)@ == finalized(old(f)@, *offset),
    {
        crate::display::finalize_frame(f, offset)
    }

    /// The text that puts the terminal back; see [`crate::display::clean`].
    pub fn clean() -> (text: String)
        ensures
            text@ == teardown_text(),
    {
        crate::display::clean()
    }
}

} // verus!
