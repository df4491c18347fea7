use vstd::prelude::*;
use crate::args::DisplayArgs;
use crate::escape::{move_to, push_move_to, push_reset};
use crate::layout::{centered, resolve_offset, LayoutError};
use crate::screen::{setup_text, teardown_text};
use crate::terminal::terminal_size;
use crate::terminal_consts::{
    cls_color, lemma_terminal_consts, CLS_SCREEN, HIDE_CURSOR, MOVE_CORNER, SHOW_CURSOR,
};
use crate::text::{lines, longest, longest_line, place, placed, split_lines};
use crate::types::{lines_view, StrFrame, StrFrameView};

verus! {

/// The first `n` of `lines`, each behind the cursor move that puts it in its
/// row and followed by the attribute reset. `offset` is the column and row of
/// the first line, counted from one.
pub open spec fn positioned_first(lines: Seq<Seq<char>>, offset: (usize, usize), n: nat) -> Seq<char>
    decreases n,
{
    if n == 0 {
        Seq::empty()
    } else {
        positioned_first(lines, offset, (n - 1) as nat) + move_to(
            (offset.1 + (n - 1)) as nat,
            offset.0 as nat,
        ) + lines[n - 1] + cls_color()
    }
}

/// The text that draws `lines` with their top-left cell at `offset`.
pub open spec fn positioned(lines: Seq<Seq<char>>, offset: (usize, usize)) -> Seq<char> {
    positioned_first(lines, offset, lines.len())
}

/// `frame` after it has been placed at `offset`: a frame that already holds
/// its positioned text is left as it is.
pub open spec fn finalized(frame: StrFrameView, offset: (usize, usize)) -> StrFrameView {
    if frame.final_frame is Some {
        frame
    } else {
        StrFrameView { final_frame: Some(positioned(frame.raw_frame, offset)), ..frame }
    }
}

/// Places `f` at `offset` (column and row of its top-left cell, counted from
/// one): computes the positioned text and keeps it in the frame. The text is
/// computed once; on a frame that holds it already nothing changes.
pub fn finalize_frame(f: &mut StrFrame, offset: &(usize, usize))
    ensures
        final(f)@ == finalized(old(f)@, *offset),
{
    if f.final_frame.is_some() {
        return ;
    }
    let mut final_frame = String::new();
    let (off_x, off_y) = (offset.0, offset.1);
    let count: usize = f.raw_frame.len();
    let mut i: usize = 0;
    while i < count
        invariant
            i <= count,
            count == f.raw_frame@.len(),
            *f == *old(f),
            off_x == offset.0,
            off_y == offset.1,
            final_frame@ == positioned_first(lines_view(f.raw_frame@), *offset, i as nat),
        decreases count - i,
    {
        let ghost before = final_frame@;
        let line_pos: u128 = off_y as u128 + i as u128;
        let column_pos: u128 = off_x as u128;
        push_move_to(&mut final_frame, line_pos, column_pos);
        final_frame.append(f.raw_frame[i].as_str());
        push_reset(&mut final_frame);
        assert(final_frame@ =~= before + move_to((offset.1 + i) as nat, offset.0 as nat)
            + lines_view(f.raw_frame@)[i as int] + cls_color());
        i += 1;
    }
    f.final_frame = Some(final_frame);
}

/// The text that puts the terminal back: clear the screen, show the cursor,
/// move it to the corner. It may be written at any time, and more than once.
pub fn clean() -> (text: String)
    ensures
        text@ == teardown_text(),
{
    proof {
        lemma_terminal_consts();
    }
    let mut out = String::new();
    out.append(CLS_SCREEN);
    out.append(SHOW_CURSOR);
    out.append(MOVE_CORNER);
    out
}

/// Where playback stands.
#[derive(Clone, Copy, Debug, PartialEq, Eq, Structural)]
pub enum Stage {
    /// Nothing has been written yet.
    Setup,
    /// The frame of this index is the next to be written.
    Frame(usize),
    /// The frame of this index has been written and its delay is running.
    Wait(usize),
    /// The last frame has been shown; the screen is still to be put back.
    Teardown,
    /// The screen has been put back, or playback could not start.
    Finished,
}

/// The state of a playback: its stage, and the column and row of the frames'
/// top-left cell, counted from one.
#[derive(Clone, Copy, Debug)]
pub struct Playhead {
    pub stage: Stage,
    pub anchor: (usize, usize),
}

/// What the caller is to do before it asks for the next step.
#[derive(Debug, PartialEq, Eq)]
pub enum Action {
    /// Write the text to the terminal and flush. After a frame, report how
    /// long that took.
    Write(String),
    /// Sleep for so many nanoseconds.
    Sleep(u128),
    /// Stop: playback is over.
    Quit,
    /// Stop: playback cannot start.
    Fail(LayoutError),
}

/// An [`Action`] with its text as characters.
pub enum ActionView {
    Write(Seq<char>),
    Sleep(u128),
    Quit,
    Fail(LayoutError),
}

impl View for Action {
    type V = ActionView;

    open spec fn view(&self) -> ActionView {
        match self {
            Action::Write(text) => ActionView::Write(text@),
            Action::Sleep(nanos) => ActionView::Sleep(*nanos),
            Action::Quit => ActionView::Quit,
            Action::Fail(e) => ActionView::Fail(*e),
        }
    }
}

/// Each frame of `frames` as its view.
pub open spec fn frames_view(frames: Seq<StrFrame>) -> Seq<StrFrameView> {
    Seq::new(frames.len(), |i: int| frames[i]@)
}

impl Playhead {
    /// The state before anything has been written.
    pub open spec fn spec_start() -> Playhead {
        Playhead { stage: Stage::Setup, anchor: (1, 1) }
    }

    /// The state before anything has been written.
    pub fn start() -> (head: Playhead)
        ensures
            head == Playhead::spec_start(),
    {
        Playhead { stage: Stage::Setup, anchor: (1, 1) }
    }

    /// A stage that names a frame names one of the `count` frames there are.
    pub open spec fn wf(&self, count: nat) -> bool {
        match self.stage {
            Stage::Frame(i) => i < count,
            Stage::Wait(i) => i < count,
            _ => true,
        }
    }
}

/// The size in cells by which frames are placed: that of the first frame, and
/// nothing where there is none.
pub open spec fn cell_size(frames: Seq<StrFrameView>) -> (usize, usize) {
    if frames.len() > 0 {
        frames[0].size
    } else {
        (0, 0)
    }
}

/// The column and row, counted from one, of the frames' top-left cell: the
/// corner, or where `terminal` (columns, rows) is given the place that centers
/// the frame together with `text` beside it. The text takes one blank cell and
/// its longest line.
pub open spec fn anchor_of(
    frames: Seq<StrFrameView>,
    text: Option<Seq<char>>,
    terminal: Option<(u16, u16)>,
) -> (usize, usize) {
    match terminal {
        None => (1, 1),
        Some((cols, rows)) => {
            let beside = match text {
                Some(t) => 1 + longest_line(split_lines(t)),
                None => 0,
            };
            (
                (centered(cell_size(frames).0 + beside, cols as int) + 1) as usize,
                (centered(cell_size(frames).1 as int, rows as int) + 1) as usize,
            )
        },
    }
}

/// The first step of a playback, from the `Setup` stage. Where centering is
/// asked for and the terminal's size is not known, playback fails before
/// anything is written. Else the setup is written, and `text` beside the place
/// of the frames; the first frame comes next, or with no frame the teardown.
pub open spec fn opened(
    frames: Seq<StrFrameView>,
    text: Option<Seq<char>>,
    center: bool,
    terminal: Option<(u16, u16)>,
) -> (Playhead, ActionView) {
    if center && terminal is None {
        (
            Playhead { stage: Stage::Finished, anchor: (1, 1) },
            ActionView::Fail(LayoutError::TerminalUnavailable),
        )
    } else {
        let anchor = anchor_of(frames, text, if center { terminal } else { None });
        let beside = match text {
            Some(t) => placed(split_lines(t), anchor, cell_size(frames).0),
            None => Seq::empty(),
        };
        (
            Playhead {
                stage: if frames.len() > 0 {
                    Stage::Frame(0)
                } else {
                    Stage::Teardown
                },
                anchor,
            },
            ActionView::Write(setup_text() + beside),
        )
    }
}

/// How long to sleep after a frame of `delay_ms` milliseconds whose writing
/// took `elapsed` nanoseconds: what is left of the delay, and nothing where
/// the writing took longer.
pub open spec fn wait_nanos(delay_ms: u64, elapsed: u128) -> u128 {
    if delay_ms * 1_000_000 >= elapsed {
        (delay_ms * 1_000_000 - elapsed) as u128
    } else {
        0
    }
}

/// The stage after the wait of frame `i` of `count`: the next frame; after the
/// last one the first again where playback loops, else the teardown.
pub open spec fn after_wait(i: usize, count: nat, looping: bool) -> Stage {
    if i + 1 < count {
        Stage::Frame((i + 1) as usize)
    } else if looping {
        Stage::Frame(0)
    } else {
        Stage::Teardown
    }
}

/// One step of a playback past its setup: the frames, the state and the action
/// that follow from `frames` and `head`. `elapsed` is the time in nanoseconds
/// that the last write took; only the `Wait` stage reads it.
pub open spec fn advanced(
    frames: Seq<StrFrameView>,
    looping: bool,
    head: Playhead,
    elapsed: u128,
) -> (Seq<StrFrameView>, Playhead, ActionView) {
    match head.stage {
        Stage::Frame(i) => {
            let placed_frame = finalized(frames[i as int], head.anchor);
            (
                frames.update(i as int, placed_frame),
                Playhead { stage: Stage::Wait(i), ..head },
                ActionView::Write(placed_frame.final_frame->0),
            )
        },
        Stage::Wait(i) => (
            frames,
            Playhead { stage: after_wait(i, frames.len(), looping), ..head },
            ActionView::Sleep(wait_nanos(frames[i as int].delay, elapsed)),
        ),
        Stage::Teardown => (
            frames,
            Playhead { stage: Stage::Finished, ..head },
            ActionView::Write(teardown_text()),
        ),
        _ => (frames, Playhead { stage: Stage::Finished, ..head }, ActionView::Quit),
    }
}

/// Takes the first step of a playback of `frames`, with `text` beside them
/// where there is one, in a terminal of `terminal` (columns, rows).
pub fn open_screen(
    frames: &Vec<StrFrame>,
    text: Option<&str>,
    center: bool,
    terminal: Option<(u16, u16)>,
) -> (out: (Playhead, Action))
    ensures
        (out.0, out.1@) == opened(
            frames_view(frames@),
            match text {
                Some(t) => Some(t@),
                None => None,
            },
            center,
            terminal,
        ),
        out.0.wf(frames@.len()),
{
    if center && terminal.is_none() {
        return (
            Playhead { stage: Stage::Finished, anchor: (1, 1) },
            Action::Fail(LayoutError::TerminalUnavailable),
        );
    }
    let size: (usize, usize) = if frames.len() > 0 {
        frames[0].size
    } else {
        (0, 0)
    };
    let text_lines: Option<Vec<String>> = match text {
        Some(t) => Some(lines(t)),
        None => None,
    };
    let mut anchor: (usize, usize) = (1, 1);
    if center {
        if let Some(dims) = terminal {
            let beside: usize = match &text_lines {
                Some(l) => longest(l).saturating_add(1),
                None => 0,
            };
            let offset = resolve_offset((size.0.saturating_add(beside), size.1), dims, true);
            anchor = (offset.0 + 1, offset.1 + 1);
        }
    }
    proof {
        lemma_terminal_consts();
    }
    let mut out = String::new();
    out.append(CLS_SCREEN);
    out.append(HIDE_CURSOR);
    if let Some(l) = &text_lines {
        let beside = place(l, &anchor, size.0);
        out.append(beside.as_str());
    }
    let stage = if frames.len() > 0 {
        Stage::Frame(0)
    } else {
        Stage::Teardown
    };
    assert(out@ =~= setup_text() + match text {
        Some(t) => placed(split_lines(t@), anchor, size.0),
        None => Seq::empty(),
    });
    (Playhead { stage, anchor }, Action::Write(out))
}

/// Takes one step of a playback of `frames` past its setup. A frame is placed
/// when it is first written, and keeps its text from then on.
pub fn advance(frames: &mut Vec<StrFrame>, looping: bool, head: Playhead, elapsed: u128) -> (out: (
    Playhead,
    Action,
))
    requires
        head.wf(old(frames)@.len()),
    ensures
        (frames_view(final(frames)@), out.0, out.1@) == advanced(
            frames_view(old(frames)@),
            looping,
            head,
            elapsed,
        ),
        final(frames)@.len() == old(frames)@.len(),
        out.0.wf(final(frames)@.len()),
{
    match head.stage {
        Stage::Frame(i) => {
            finalize_frame(&mut frames[i], &head.anchor);
            let text = match &frames[i].final_frame {
                Some(t) => t.clone(),
                None => String::new(),
            };
            assert(frames_view(frames@) =~= frames_view(old(frames)@).update(
                i as int,
                finalized(old(frames)@[i as int]@, head.anchor),
            ));
            (Playhead { stage: Stage::Wait(i), anchor: head.anchor }, Action::Write(text))
        },
        Stage::Wait(i) => {
            let delay: u128 = frames[i].delay as u128 * 1_000_000;
            let count: usize = frames.len();
            let next = if i + 1 < count {
                Stage::Frame(i + 1)
            } else if looping {
                Stage::Frame(0)
            } else {
                Stage::Teardown
            };
            (
                Playhead { stage: next, anchor: head.anchor },
                Action::Sleep(delay.saturating_sub(elapsed)),
            )
        },
        Stage::Teardown => (
            Playhead { stage: Stage::Finished, anchor: head.anchor },
            Action::Write(clean()),
        ),
        _ => (Playhead { stage: Stage::Finished, anchor: head.anchor }, Action::Quit),
    }
}

/// The characters of an optional text.
pub open spec fn text_view(text: Option<String>) -> Option<Seq<char>> {
    match text {
        Some(t) => Some(t@),
        None => None,
    }
}

/// One step of a playback: from the `Setup` stage the first step, which
/// leaves the frames as they are, and from every other stage the step past
/// the setup.
pub open spec fn stepped(
    frames: Seq<StrFrameView>,
    text: Option<Seq<char>>,
    center: bool,
    looping: bool,
    head: Playhead,
    terminal: Option<(u16, u16)>,
    elapsed: u128,
) -> (Seq<StrFrameView>, Playhead, ActionView) {
    if head.stage is Setup {
        let first = opened(frames, text, center, terminal);
        (frames, first.0, first.1)
    } else {
        advanced(frames, looping, head, elapsed)
    }
}

/// Whether the step reads the terminal's size: only the first step of a
/// centered playback does.
pub open spec fn reads_terminal(center: bool, head: Playhead) -> bool {
    center && head.stage is Setup
}

/// Takes one step of a playback of `frames` in a terminal of `terminal`
/// (columns, rows), with `text` beside the frames where there is one.
/// `elapsed` is the time in nanoseconds that the last write took.
pub fn step(
    frames: &mut Vec<StrFrame>,
    text: Option<&str>,
    center: bool,
    looping: bool,
    head: Playhead,
    terminal: Option<(u16, u16)>,
    elapsed: u128,
) -> (out: (Playhead, Action))
    requires
        head.wf(old(frames)@.len()),
    ensures
        (frames_view(final(frames)@), out.0, out.1@) == stepped(
            frames_view(old(frames)@),
            match text {
                Some(t) => Some(t@),
                None => None,
            },
            center,
            looping,
            head,
            terminal,
            elapsed,
        ),
        final(frames)@.len() == old(frames)@.len(),
        out.0.wf(final(frames)@.len()),
{
    match head.stage {
        Stage::Setup => open_screen(frames, text, center, terminal),
        _ => advance(frames, looping, head, elapsed),
    }
}

/// Takes one step of a playback of `str_frames` as `args` ask for it, without
/// text beside the frames. The first step of a centered playback asks the
/// terminal for its size; no other step does.
///
/// Start from [`Playhead::start`], do what the returned action says, and call
/// again with the returned state, until the action is `Quit` or `Fail`.
pub fn display_anim(
    str_frames: &mut Vec<StrFrame>,
    args: &DisplayArgs,
    head: Playhead,
    elapsed: u128,
) -> (out: (Playhead, Action))
    requires
        head.wf(old(str_frames)@.len()),
    ensures
        !reads_terminal(args.center, head) ==> (frames_view(final(str_frames)@), out.0, out.1@)
            == stepped(
            frames_view(old(str_frames)@),
            None,
            args.center,
            args.loop_animation,
            head,
            None,
            elapsed,
        ),
        exists|terminal: Option<(u16, u16)>|
            (frames_view(final(str_frames)@), out.0, out.1@) == #[trigger] stepped(
                frames_view(old(str_frames)@),
                None,
                args.center,
                args.loop_animation,
                head,
                terminal,
                elapsed,
            ),
        final(str_frames)@.len() == old(str_frames)@.len(),
        out.0.wf(final(str_frames)@.len()),
{
    let terminal = match head.stage {
        Stage::Setup => if args.center {
            terminal_size()
        } else {
            None
        },
        _ => None,
    };
    let out = step(str_frames, None, args.center, args.loop_animation, head, terminal, elapsed);
    assert((frames_view(str_frames@), out.0, out.1@) == stepped(
        frames_view(old(str_frames)@),
        None,
        args.center,
        args.loop_animation,
        head,
        terminal,
        elapsed,
    ));
    out
}

/// Placing a frame twice is placing it once: the text of the first placing
/// stays, whatever the second offset.
pub proof fn lemma_finalized_once(
    frame: StrFrameView,
    offset: (usize, usize),
    again: (usize, usize),
)
    ensures
        finalized(finalized(frame, offset), again) == finalized(frame, offset),
{
}

} // verus!
