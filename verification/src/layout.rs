use vstd::prelude::*;
use crate::args::DisplaySize;

verus! {

/// Why no target size or placement could be chosen.
#[derive(Clone, Copy, Debug, PartialEq, Eq, Structural)]
pub enum LayoutError {
    /// The terminal's size is needed and is not known.
    TerminalUnavailable,
    /// An explicit size names neither a width nor a height.
    MissingSize,
    /// The target would have no columns or no rows.
    DegenerateSize,
    /// The target is more than can be held: its width or height does not fit
    /// in 32 bits, or its pixels do not fit in one allocation.
    Oversized,
}

/// `a / b` rounded to the nearest integer, halves upwards.
pub open spec fn rounded_div(a: int, b: int) -> int
    recommends
        a >= 0,
        b > 0,
{
    (2 * a + b) / (2 * b)
}

/// The width and height in pixels that `policy` asks for, before they are
/// checked. `source` is the source's width and height, `terminal` the
/// terminal's columns and rows. A terminal row holds two rows of pixels.
pub open spec fn wanted_size(
    source: (u32, u32),
    policy: DisplaySize,
    terminal: Option<(u16, u16)>,
) -> Result<(int, int), LayoutError> {
    let (w, h) = (source.0 as int, source.1 as int);
    match policy {
        DisplaySize::Size(Some(tw), Some(th)) => Ok((tw as int, th as int)),
        DisplaySize::Size(Some(tw), None) => Ok((tw as int, rounded_div(h * tw, w))),
        DisplaySize::Size(None, Some(th)) => Ok((rounded_div(w * th, h), th as int)),
        DisplaySize::Size(None, None) => Err(LayoutError::MissingSize),
        DisplaySize::Fill => match terminal {
            Some((cols, rows)) => Ok((cols as int, 2 * rows)),
            None => Err(LayoutError::TerminalUnavailable),
        },
        DisplaySize::Fit => match terminal {
            Some((cols, rows)) => if cols * h <= (2 * rows) * w {
                Ok((cols as int, (h * cols) / w))
            } else {
                Ok(((w * (2 * rows)) / h, 2 * rows))
            },
            None => Err(LayoutError::TerminalUnavailable),
        },
    }
}

/// The target size in pixels, or why there is none: the size that
/// [`wanted_size`] gives, refused where a dimension is zero or too large.
pub open spec fn target_size(
    source: (u32, u32),
    policy: DisplaySize,
    terminal: Option<(u16, u16)>,
) -> Result<(u32, u32), LayoutError> {
    match wanted_size(source, policy, terminal) {
        Err(e) => Err(e),
        Ok((tw, th)) => if tw == 0 || th == 0 {
            Err(LayoutError::DegenerateSize)
        } else if tw > u32::MAX || th > u32::MAX {
            Err(LayoutError::Oversized)
        } else {
            Ok((tw as u32, th as u32))
        },
    }
}

fn product(a: u32, b: u32) -> (p: u128)
    ensures
        p == a * b,
        p <= 0xffff_ffff * 0xffff_ffff,
{
    assert(a * b <= 0xffff_ffff * 0xffff_ffff) by (nonlinear_arith)
        requires
            a <= 0xffff_ffff,
            b <= 0xffff_ffff,
    ;
    let p: u64 = a as u64 * b as u64;
    p as u128
}

fn checked_size(tw: u128, th: u128) -> (r: Result<(u32, u32), LayoutError>)
    ensures
        r == if tw == 0 || th == 0 {
            Err::<(u32, u32), LayoutError>(LayoutError::DegenerateSize)
        } else if tw > u32::MAX || th > u32::MAX {
            Err(LayoutError::Oversized)
        } else {
            Ok((tw as u32, th as u32))
        },
{
    if tw == 0 || th == 0 {
        Err(LayoutError::DegenerateSize)
    } else if tw > 0xffff_ffff || th > 0xffff_ffff {
        Err(LayoutError::Oversized)
    } else {
        Ok((tw as u32, th as u32))
    }
}

/// Chooses the size in pixels to which a source of `source_dims` (width,
/// height) is resampled under `policy`, in a terminal of `terminal_dims`
/// (columns, rows) where that is known.
pub fn resolve_target_size(
    source_dims: (u32, u32),
    policy: &DisplaySize,
    terminal_dims: Option<(u16, u16)>,
) -> (r: Result<(u32, u32), LayoutError>)
    requires
        source_dims.0 >= 1,
        source_dims.1 >= 1,
    ensures
        r == target_size(source_dims, *policy, terminal_dims),
{
    let (w, h) = source_dims;
    match policy {
        DisplaySize::Size(Some(tw), Some(th)) => checked_size(*tw as u128, *th as u128),
        DisplaySize::Size(Some(tw), None) => {
            let th: u128 = (2 * product(h, *tw) + w as u128) / (2 * (w as u128));
            checked_size(*tw as u128, th)
        },
        DisplaySize::Size(None, Some(th)) => {
            let tw: u128 = (2 * product(w, *th) + h as u128) / (2 * (h as u128));
            checked_size(tw, *th as u128)
        },
        DisplaySize::Size(None, None) => Err(LayoutError::MissingSize),
        DisplaySize::Fill => match terminal_dims {
            Some((cols, rows)) => checked_size(cols as u128, 2 * (rows as u128)),
            None => Err(LayoutError::TerminalUnavailable),
        },
        DisplaySize::Fit => match terminal_dims {
            Some((cols, rows)) => {
                let pixel_rows: u32 = 2 * (rows as u32);
                if product(cols as u32, h) <= product(pixel_rows, w) {
                    checked_size(cols as u128, product(h, cols as u32) / (w as u128))
                } else {
                    checked_size(product(w, pixel_rows) / (h as u128), pixel_rows as u128)
                }
            },
            None => Err(LayoutError::TerminalUnavailable),
        },
    }
}

/// How many cells are left free before a run of `extent` cells that is
/// centered in `room` cells: half of what the run leaves over, rounded down,
/// and nothing where the run is longer than the room.
pub open spec fn centered(extent: int, room: int) -> int {
    if room >= extent {
        (room - extent) / 2
    } else {
        0
    }
}

/// Where the top-left cell of a frame of `frame_cell_size` (width, height)
/// goes in a terminal of `terminal_dims` (columns, rows), counted from zero:
/// the origin, or with `center` the offset that centers the frame on each
/// axis.
pub open spec fn offset_of(
    frame_cell_size: (usize, usize),
    terminal_dims: (u16, u16),
    center: bool,
) -> (usize, usize) {
    if center {
        (
            centered(frame_cell_size.0 as int, terminal_dims.0 as int) as usize,
            centered(frame_cell_size.1 as int, terminal_dims.1 as int) as usize,
        )
    } else {
        (0, 0)
    }
}

/// Computes the zero-based offset (column, row) of a frame's top-left cell.
pub fn resolve_offset(
    frame_cell_size: (usize, usize),
    terminal_dims: (u16, u16),
    center: bool,
) -> (offset: (usize, usize))
    ensures
        offset == offset_of(frame_cell_size, terminal_dims, center),
{
    if !center {
        return (0, 0);
    }
    let (w, h) = frame_cell_size;
    let cols: usize = terminal_dims.0 as usize;
    let rows: usize = terminal_dims.1 as usize;
    let col: usize = if cols >= w { (cols - w) / 2 } else { 0 };
    let row: usize = if rows >= h { (rows - h) / 2 } else { 0 };
    (col, row)
}

/// What `Fit` chooses fits: the target is no wider than the terminal and no
/// taller than the two rows of pixels that each of its rows holds.
pub proof fn lemma_fit_within_terminal(source: (u32, u32), terminal: (u16, u16))
    requires
        source.0 >= 1,
        source.1 >= 1,
    ensures
        target_size(source, DisplaySize::Fit, Some(terminal)) matches Ok((w, h)) ==> w
            <= terminal.0 && h <= 2 * terminal.1,
{
    let (w, h) = (source.0 as int, source.1 as int);
    let (cols, rows) = (terminal.0 as int, terminal.1 as int);
    if cols * h <= (2 * rows) * w {
        assert((h * cols) / w <= 2 * rows) by (nonlinear_arith)
            requires
                cols * h <= (2 * rows) * w,
                w >= 1,
                h >= 1,
                cols >= 0,
                rows >= 0,
        ;
    } else {
        assert((w * (2 * rows)) / h <= cols) by (nonlinear_arith)
            requires
                cols * h > (2 * rows) * w,
                w >= 1,
                h >= 1,
                cols >= 0,
                rows >= 0,
        ;
    }
}

/// An explicit width and height are taken as they are.
pub proof fn lemma_explicit_size_verbatim(source: (u32, u32), w: u32, h: u32, terminal: Option<(u16, u16)>)
    requires
        w >= 1,
        h >= 1,
    ensures
        target_size(source, DisplaySize::Size(Some(w), Some(h)), terminal) == Ok::<
            (u32, u32),
            LayoutError,
        >((w, h)),
{
}

} // verus!
