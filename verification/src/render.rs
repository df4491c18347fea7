use vstd::prelude::*;
use crate::args::DisplaySize;
use crate::escape::{bg_escape, fg_escape, push_bg, push_fg, push_reset, Rgb};
use crate::layout::{resolve_target_size, target_size, LayoutError};
use crate::pixels::{resample_fits, PixelBuffer, SourceFrame};
use crate::terminal::terminal_size;
use crate::terminal_consts::{cls_color, half_block, lemma_terminal_consts, HALF_BLOCK};
use crate::types::{lines_view, StrFrame, StrFrameView};

verus! {

/// The text of one cell: column `x` of the row pair that starts at row `y`.
///
/// The colour of the upper pixel is set as foreground, and with `render_bottom`
/// the colour of the lower pixel as background, each only in column 0 or where
/// it differs from the column before; then comes the half-block glyph.
pub open spec fn cell_text(buffer: &PixelBuffer, x: int, y: int, render_bottom: bool) -> Seq<char> {
    let fg = if x == 0 || buffer.pixel(x, y) != buffer.pixel(x - 1, y) {
        fg_escape(buffer.pixel(x, y))
    } else {
        Seq::empty()
    };
    let bg = if render_bottom && (x == 0 || buffer.pixel(x, y + 1) != buffer.pixel(x - 1, y + 1)) {
        bg_escape(buffer.pixel(x, y + 1))
    } else {
        Seq::empty()
    };
    fg + bg + half_block()
}

/// The text of the first `n` cells of the row pair that starts at row `y`.
pub open spec fn cells_text(buffer: &PixelBuffer, n: nat, y: int, render_bottom: bool) -> Seq<char>
    decreases n,
{
    if n == 0 {
        Seq::empty()
    } else {
        cells_text(buffer, (n - 1) as nat, y, render_bottom) + cell_text(
            buffer,
            n - 1,
            y,
            render_bottom,
        )
    }
}

/// One rasterized line: `width` cells, then the attribute reset.
pub open spec fn image_line(buffer: &PixelBuffer, width: nat, y: int, render_bottom: bool) -> Seq<char> {
    cells_text(buffer, width, y, render_bottom) + cls_color()
}

/// Rasterizes the first `width` columns of row `y`, together with row `y + 1`
/// when `render_bottom` is set, into one line of text.
pub fn render_image_line(buffer: &PixelBuffer, width: usize, y: usize, render_bottom: bool) -> (line: String)
    requires
        buffer.wf(),
        width <= buffer.spec_width(),
        y < buffer.spec_height(),
        render_bottom ==> y + 1 < buffer.spec_height(),
    ensures
        line@ == image_line(buffer, width as nat, y as int, render_bottom),
{
    let mut last_fg = Rgb { r: 0, g: 0, b: 0 };
    let mut last_bg = Rgb { r: 0, g: 0, b: 0 };

    let mut line: String = String::new();
    let mut x: usize = 0;
    while x < width
        invariant
            buffer.wf(),
            x <= width <= buffer.spec_width(),
            y < buffer.spec_height(),
            render_bottom ==> y + 1 < buffer.spec_height(),
            line@ == cells_text(buffer, x as nat, y as int, render_bottom),
            x > 0 ==> last_fg == buffer.pixel(x - 1, y as int),
            x > 0 && render_bottom ==> last_bg == buffer.pixel(x - 1, y + 1),
        decreases width - x,
    {
        let ghost before = line@;
        let top = buffer.get_pixel(x as u32, y as u32);
        if top != last_fg || x == 0 {
            push_fg(&mut line, top);
        }
        last_fg = top;

        if render_bottom {
            let bottom = buffer.get_pixel(x as u32, (y + 1) as u32);
            if bottom != last_bg || x == 0 {
                push_bg(&mut line, bottom);
            }
            last_bg = bottom;
        }

        proof {
            lemma_terminal_consts();
        }
        line.append(HALF_BLOCK);
        assert(line@ =~= before + cell_text(buffer, x as int, y as int, render_bottom));
        x += 1;
    }
    push_reset(&mut line);
    line
}

/// The rasterized lines of `buffer`, top to bottom: one for each pair of rows,
/// and for an odd height a last one that sets no background.
pub open spec fn raster_lines(buffer: &PixelBuffer) -> Seq<Seq<char>> {
    Seq::new(
        ((buffer.spec_height() + 1) / 2) as nat,
        |i: int|
            image_line(buffer, buffer.spec_width() as nat, 2 * i, 2 * i + 1 < buffer.spec_height()),
    )
}

/// Rasterizes `buffer`, two rows of pixels to each line of text.
pub fn rasterize(buffer: &PixelBuffer) -> (lines: Vec<String>)
    requires
        buffer.wf(),
    ensures
        lines_view(lines@) == raster_lines(buffer),
        lines@.len() == (buffer.spec_height() + 1) / 2,
{
    let width: usize = buffer.width() as usize;
    let height: usize = buffer.height() as usize;

    let mut result: Vec<String> = Vec::new();
    let mut y: usize = 0;
    while y < height - 1
        invariant
            buffer.wf(),
            width == buffer.spec_width(),
            height == buffer.spec_height(),
            y % 2 == 0,
            y <= height,
            result@.len() == y / 2,
            forall|i: int|
                0 <= i < result@.len() ==> (#[trigger] result@[i])@ == image_line(
                    buffer,
                    width as nat,
                    2 * i,
                    true,
                ),
        decreases height - y,
    {
        let line = render_image_line(buffer, width, y, true);
        result.push(line);
        y += 2;
    }

    if height % 2 == 1 {
        let line = render_image_line(buffer, width, height - 1, false);
        result.push(line);
    }
    assert(lines_view(result@) =~= raster_lines(buffer));
    result
}

/// The frame that shows `buffer` for `delay` milliseconds: its rasterized lines,
/// not yet positioned, its width in cells and the number of whole cell rows
/// that its pixel rows fill.
pub open spec fn frame_of(buffer: &PixelBuffer, delay: u64) -> StrFrameView {
    StrFrameView {
        raw_frame: raster_lines(buffer),
        size: (buffer.spec_width() as usize, (buffer.spec_height() / 2) as usize),
        final_frame: None,
        delay,
    }
}

/// Rasterizes `buffer` into a frame that is shown for `delay` milliseconds.
pub fn render_buffer(buffer: &PixelBuffer, delay: u64) -> (frame: StrFrame)
    requires
        buffer.wf(),
    ensures
        frame@ == frame_of(buffer, delay),
{
    let result = rasterize(buffer);
    StrFrame {
        raw_frame: result,
        final_frame: None,
        size: (buffer.width() as usize, buffer.height() as usize / 2),
        delay,
    }
}

/// Whether `r` is a right answer to resampling `buffer` under `policy` in a
/// terminal of `terminal` (columns, rows): the error of [`target_size`] where
/// it has one; `Oversized` where the target is more than an allocation holds;
/// else a well-formed buffer of exactly the target size, which is a copy of
/// `buffer` where the target size is `buffer`'s own.
pub open spec fn resized_as(
    buffer: &PixelBuffer,
    policy: DisplaySize,
    terminal: Option<(u16, u16)>,
    r: Result<PixelBuffer, LayoutError>,
) -> bool {
    match target_size((buffer.spec_width(), buffer.spec_height()), policy, terminal) {
        Err(e) => r == Err::<PixelBuffer, LayoutError>(e),
        Ok((w, h)) => if !resample_fits(buffer.spec_width(), (w, h)) {
            r == Err::<PixelBuffer, LayoutError>(LayoutError::Oversized)
        } else {
            &&& r matches Ok(out)
            &&& out.wf()
            &&& out.spec_width() == w
            &&& out.spec_height() == h
            &&& (w == buffer.spec_width() && h == buffer.spec_height() ==> out.samples()
                == buffer.samples())
        },
    }
}

fn check_resample_fits(source_width: u32, target: (u32, u32)) -> (fits: bool)
    ensures
        fits == resample_fits(source_width, target),
{
    assert(source_width * target.1 <= 0xffff_ffff * 0xffff_ffff) by (nonlinear_arith)
        requires
            source_width <= 0xffff_ffff,
            target.1 <= 0xffff_ffff,
    ;
    assert(target.0 * target.1 <= 0xffff_ffff * 0xffff_ffff) by (nonlinear_arith)
        requires
            target.0 <= 0xffff_ffff,
            target.1 <= 0xffff_ffff,
    ;
    let limit: u128 = isize::MAX as u128;
    let between: u128 = 16 * (source_width as u128 * target.1 as u128);
    let after: u128 = 4 * (target.0 as u128 * target.1 as u128);
    between <= limit && after <= limit
}

/// Resamples `buffer` to the size that `desired_size` asks for in a terminal
/// of `terminal` (columns, rows).
pub fn to_resized_buffer(
    buffer: &PixelBuffer,
    desired_size: &DisplaySize,
    terminal: Option<(u16, u16)>,
) -> (r: Result<PixelBuffer, LayoutError>)
    requires
        buffer.wf(),
    ensures
        resized_as(buffer, *desired_size, terminal, r),
{
    let (new_w, new_h) = match resolve_target_size(
        (buffer.width(), buffer.height()),
        desired_size,
        terminal,
    ) {
        Ok(target) => target,
        Err(e) => {
            return Err(e);
        },
    };
    if !check_resample_fits(buffer.width(), (new_w, new_h)) {
        return Err(LayoutError::Oversized);
    }
    Ok(buffer.resized(new_w, new_h))
}

/// Whether `r` is a right answer to rendering `frame` under `policy` in a
/// terminal of `terminal`: the error of the resampling where it has one, else
/// the frame rasterized from a right answer of the resampling.
pub open spec fn rendered_as(
    frame: &SourceFrame,
    policy: DisplaySize,
    terminal: Option<(u16, u16)>,
    r: Result<StrFrame, LayoutError>,
) -> bool {
    match r {
        Err(e) => resized_as(&frame.buffer, policy, terminal, Err(e)),
        Ok(f) => exists|resized: PixelBuffer|
            {
                &&& resized_as(&frame.buffer, policy, terminal, Ok(resized))
                &&& f@ == #[trigger] frame_of(&resized, frame.spec_delay_ms())
            },
    }
}

/// Renders `frame` at the size that `desired_size` asks for in a terminal of
/// `terminal` (columns, rows).
pub fn render_sized(
    frame: &SourceFrame,
    desired_size: &DisplaySize,
    terminal: Option<(u16, u16)>,
) -> (r: Result<StrFrame, LayoutError>)
    requires
        frame.wf(),
    ensures
        rendered_as(frame, *desired_size, terminal, r),
{
    let delay = frame.delay_ms();
    match to_resized_buffer(&frame.buffer, desired_size, terminal) {
        Ok(buffer) => {
            let rendered = render_buffer(&buffer, delay);
            assert(rendered@ == frame_of(&buffer, frame.spec_delay_ms()));
            Ok(rendered)
        },
        Err(e) => Err(e),
    }
}

/// Renders `frame` at the size that `desired_size` asks for. The terminal is
/// asked for its size where the policy is `Fill` or `Fit`, and only there.
pub fn render_frame(frame: SourceFrame, desired_size: &DisplaySize) -> (r: Result<
    StrFrame,
    LayoutError,
>)
    requires
        frame.wf(),
    ensures
        desired_size is Size ==> rendered_as(&frame, *desired_size, None, r),
        exists|terminal: Option<(u16, u16)>| rendered_as(&frame, *desired_size, terminal, r),
{
    let terminal = match desired_size {
        DisplaySize::Size(_, _) => None,
        _ => terminal_size(),
    };
    render_sized(&frame, desired_size, terminal)
}

proof fn lemma_same_pixels_same_cells(
    a: &PixelBuffer,
    b: &PixelBuffer,
    n: nat,
    y: int,
    render_bottom: bool,
)
    requires
        a.spec_width() == b.spec_width(),
        a.samples() == b.samples(),
    ensures
        cells_text(a, n, y, render_bottom) == cells_text(b, n, y, render_bottom),
    decreases n,
{
    if n > 0 {
        lemma_same_pixels_same_cells(a, b, (n - 1) as nat, y, render_bottom);
        assert(cell_text(a, n - 1, y, render_bottom) == cell_text(b, n - 1, y, render_bottom));
    }
}

/// Buffers of the same size and samples rasterize to the same lines.
pub proof fn lemma_same_pixels_same_lines(a: &PixelBuffer, b: &PixelBuffer)
    requires
        a.spec_width() == b.spec_width(),
        a.spec_height() == b.spec_height(),
        a.samples() == b.samples(),
    ensures
        raster_lines(a) == raster_lines(b),
{
    assert forall|i: int| 0 <= i < raster_lines(a).len() implies raster_lines(a)[i]
        == raster_lines(b)[i] by {
        lemma_same_pixels_same_cells(
            a,
            b,
            a.spec_width() as nat,
            2 * i,
            2 * i + 1 < a.spec_height(),
        );
    }
    assert(raster_lines(a) =~= raster_lines(b));
}

/// Where the size asked for is the source's own, rendering does not resample:
/// the frame is rasterized from the source's pixels as they are.
pub proof fn lemma_own_size_renders_the_source(
    frame: &SourceFrame,
    policy: DisplaySize,
    terminal: Option<(u16, u16)>,
    r: Result<StrFrame, LayoutError>,
)
    requires
        frame.wf(),
        rendered_as(frame, policy, terminal, r),
        target_size((frame.buffer.spec_width(), frame.buffer.spec_height()), policy, terminal)
            == Ok::<(u32, u32), LayoutError>(
            (frame.buffer.spec_width(), frame.buffer.spec_height()),
        ),
        resample_fits(
            frame.buffer.spec_width(),
            (frame.buffer.spec_width(), frame.buffer.spec_height()),
        ),
    ensures
        r matches Ok(f) && f@ == frame_of(&frame.buffer, frame.spec_delay_ms()),
{
    match r {
        Ok(f) => {
            let resized = choose|resized: PixelBuffer|
                {
                    &&& resized_as(&frame.buffer, policy, terminal, Ok(resized))
                    &&& f@ == #[trigger] frame_of(&resized, frame.spec_delay_ms())
                };
            lemma_same_pixels_same_lines(&resized, &frame.buffer);
        },
        Err(e) => {},
    }
}

/// `n` half-block glyphs in a row.
pub open spec fn glyphs(n: nat) -> Seq<char> {
    Seq::new(n, |i: int| '\u{2580}')
}

/// Each of the first `width` pixels of row `y` has the colour `c`.
pub open spec fn uniform_row(buffer: &PixelBuffer, width: nat, y: int, c: Rgb) -> bool {
    forall|x: int| 0 <= x < width ==> buffer.pixel(x, y) == c
}

/// The text of a line whose upper pixels all have the colour `top`, and with
/// `render_bottom` its lower pixels the colour `bottom`: each colour is set
/// once, then come `width` glyphs and the reset.
pub open spec fn uniform_line(width: nat, render_bottom: bool, top: Rgb, bottom: Rgb) -> Seq<char> {
    fg_escape(top) + (if render_bottom {
        bg_escape(bottom)
    } else {
        Seq::empty()
    }) + glyphs(width) + cls_color()
}

proof fn lemma_uniform_cells(
    buffer: &PixelBuffer,
    n: nat,
    y: int,
    render_bottom: bool,
    top: Rgb,
    bottom: Rgb,
)
    requires
        n >= 1,
        uniform_row(buffer, n, y, top),
        render_bottom ==> uniform_row(buffer, n, y + 1, bottom),
    ensures
        cells_text(buffer, n, y, render_bottom) == fg_escape(top) + (if render_bottom {
            bg_escape(bottom)
        } else {
            Seq::empty()
        }) + glyphs(n),
    decreases n,
{
    let colours = fg_escape(top) + (if render_bottom {
        bg_escape(bottom)
    } else {
        Seq::empty()
    });
    if n == 1 {
        assert(cells_text(buffer, 0, y, render_bottom) =~= Seq::<char>::empty());
        assert(cells_text(buffer, 1, y, render_bottom) =~= colours + glyphs(1));
    } else {
        lemma_uniform_cells(buffer, (n - 1) as nat, y, render_bottom, top, bottom);
        assert(cell_text(buffer, n - 1, y, render_bottom) =~= half_block());
        assert(cells_text(buffer, n, y, render_bottom) =~= colours + glyphs(n));
    }
}

/// A line of one colour sets that colour once, whatever its width: a row pair
/// whose upper pixels all have the colour `top`, and whose lower pixels where
/// they are drawn all have the colour `bottom`, becomes one foreground escape,
/// with a lower row one background escape, then `width` glyphs and the reset.
pub proof fn lemma_uniform_line(
    buffer: &PixelBuffer,
    width: nat,
    y: int,
    render_bottom: bool,
    top: Rgb,
    bottom: Rgb,
)
    requires
        width >= 1,
        uniform_row(buffer, width, y, top),
        render_bottom ==> uniform_row(buffer, width, y + 1, bottom),
    ensures
        image_line(buffer, width, y, render_bottom) == uniform_line(
            width,
            render_bottom,
            top,
            bottom,
        ),
{
    lemma_uniform_cells(buffer, width, y, render_bottom, top, bottom);
}

/// A buffer of the single colour `c` rasterizes to lines that each set `c`
/// once as foreground, and as background too where the line has a lower row.
pub proof fn lemma_uniform_buffer(buffer: &PixelBuffer, c: Rgb, i: int)
    requires
        buffer.wf(),
        forall|x: int, y: int|
            0 <= x < buffer.spec_width() && 0 <= y < buffer.spec_height() ==> buffer.pixel(x, y)
                == c,
        0 <= i < raster_lines(buffer).len(),
    ensures
        raster_lines(buffer)[i] == uniform_line(
            buffer.spec_width() as nat,
            2 * i + 1 < buffer.spec_height(),
            c,
            c,
        ),
{
    lemma_uniform_line(
        buffer,
        buffer.spec_width() as nat,
        2 * i,
        2 * i + 1 < buffer.spec_height(),
        c,
        c,
    );
}

/// Column 0 always sets its colour: a line of at least one cell opens with the
/// foreground escape of its first upper pixel, whatever was drawn before it.
pub proof fn lemma_line_opens_with_foreground(
    buffer: &PixelBuffer,
    width: nat,
    y: int,
    render_bottom: bool,
)
    requires
        width >= 1,
    ensures
        fg_escape(buffer.pixel(0, y)).is_prefix_of(image_line(buffer, width, y, render_bottom)),
{
    let opening = fg_escape(buffer.pixel(0, y));
    lemma_cells_hold_opening(buffer, width, y, render_bottom);
    assert(opening =~= image_line(buffer, width, y, render_bottom).subrange(
        0,
        opening.len() as int,
    ));
}

proof fn lemma_cells_hold_opening(buffer: &PixelBuffer, n: nat, y: int, render_bottom: bool)
    requires
        n >= 1,
    ensures
        fg_escape(buffer.pixel(0, y)).is_prefix_of(cells_text(buffer, n, y, render_bottom)),
    decreases n,
{
    let opening = fg_escape(buffer.pixel(0, y));
    if n == 1 {
        assert(cells_text(buffer, 0, y, render_bottom) =~= Seq::<char>::empty());
        assert(opening =~= cells_text(buffer, 1, y, render_bottom).subrange(
            0,
            opening.len() as int,
        ));
    } else {
        lemma_cells_hold_opening(buffer, (n - 1) as nat, y, render_bottom);
        assert(opening =~= cells_text(buffer, n, y, render_bottom).subrange(
            0,
            opening.len() as int,
        ));
    }
}

/// Every rasterized line of a buffer opens with the foreground escape of the
/// first pixel of its upper row.
pub proof fn lemma_lines_open_with_foreground(buffer: &PixelBuffer, i: int)
    requires
        buffer.wf(),
        0 <= i < raster_lines(buffer).len(),
    ensures
        fg_escape(buffer.pixel(0, 2 * i)).is_prefix_of(raster_lines(buffer)[i]),
{
    lemma_line_opens_with_foreground(
        buffer,
        buffer.spec_width() as nat,
        2 * i,
        2 * i + 1 < buffer.spec_height(),
    );
}

} // verus!
