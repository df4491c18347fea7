use vstd::prelude::*;
use crate::terminal_consts::{cls_color, esc, lemma_terminal_consts, CLS_COLOR};

verus! {

/// The character that writes the decimal digit `d`.
pub open spec fn digit_char(d: nat) -> char
    recommends
        d < 10,
{
    seq!['0', '1', '2', '3', '4', '5', '6', '7', '8', '9'][d as int]
}

/// `n` in decimal: most significant digit first, no leading zero, `"0"` for zero.
pub open spec fn decimal(n: nat) -> Seq<char>
    decreases n,
{
    if n < 10 {
        seq![digit_char(n)]
    } else {
        decimal(n / 10).push(digit_char(n % 10))
    }
}

fn digit_str(d: u8) -> (r: &'static str)
    requires
        d < 10,
    ensures
        r@ == seq![digit_char(d as nat)],
{
    proof {
        reveal_strlit("0");
        reveal_strlit("1");
        reveal_strlit("2");
        reveal_strlit("3");
        reveal_strlit("4");
        reveal_strlit("5");
        reveal_strlit("6");
        reveal_strlit("7");
        reveal_strlit("8");
        reveal_strlit("9");
    }
    let r = match d {
        0 => "0",
        1 => "1",
        2 => "2",
        3 => "3",
        4 => "4",
        5 => "5",
        6 => "6",
        7 => "7",
        8 => "8",
        _ => "9",
    };
    assert(r@ =~= seq![digit_char(d as nat)]);
    r
}

/// Appends `n` in decimal to `out`.
pub fn push_decimal(out: &mut String, n: u128)
    ensures
        final(out)@ == old(out)@ + decimal(n as nat),
    decreases n,
{
    if n >= 10 {
        push_decimal(out, n / 10);
    }
    let d: u8 = (n % 10) as u8;
    out.append(digit_str(d));
    assert(final(out)@ =~= old(out)@ + decimal(n as nat));
}

/// One colour sample: the red, green and blue channels of a pixel.
#[derive(Clone, Copy, Debug, PartialEq, Eq, Structural)]
pub struct Rgb {
    pub r: u8,
    pub g: u8,
    pub b: u8,
}

/// The three channels of a colour, separated by semicolons.
pub open spec fn channels(c: Rgb) -> Seq<char> {
    decimal(c.r as nat) + seq![';'] + decimal(c.g as nat) + seq![';'] + decimal(c.b as nat)
}

/// The sequence that sets the foreground to the truecolor `c`.
pub open spec fn fg_escape(c: Rgb) -> Seq<char> {
    seq![esc(), '[', '3', '8', ';', '2', ';'] + channels(c) + seq!['m']
}

/// The sequence that sets the background to the truecolor `c`.
pub open spec fn bg_escape(c: Rgb) -> Seq<char> {
    seq![esc(), '[', '4', '8', ';', '2', ';'] + channels(c) + seq!['m']
}

/// The sequence that moves the cursor to `row` and `col`, both counted from one.
pub open spec fn move_to(row: nat, col: nat) -> Seq<char> {
    seq![esc(), '['] + decimal(row) + seq![';'] + decimal(col) + seq!['H']
}

fn push_channels(out: &mut String, c: Rgb)
    ensures
        final(out)@ == old(out)@ + channels(c),
{
    proof {
        reveal_strlit(";");
    }
    push_decimal(out, c.r as u128);
    out.append(";");
    push_decimal(out, c.g as u128);
    out.append(";");
    push_decimal(out, c.b as u128);
    assert(out@ =~= old(out)@ + channels(c));
}

/// Appends the foreground escape of `c` to `out`.
pub fn push_fg(out: &mut String, c: Rgb)
    ensures
        final(out)@ == old(out)@ + fg_escape(c),
{
    proof {
        reveal_strlit("\x1b[38;2;");
        reveal_strlit("m");
    }
    out.append("\x1b[38;2;");
    push_channels(out, c);
    out.append("m");
    assert(out@ =~= old(out)@ + fg_escape(c));
}

/// Appends the background escape of `c` to `out`.
pub fn push_bg(out: &mut String, c: Rgb)
    ensures
        final(out)@ == old(out)@ + bg_escape(c),
{
    proof {
        reveal_strlit("\x1b[48;2;");
        reveal_strlit("m");
    }
    out.append("\x1b[48;2;");
    push_channels(out, c);
    out.append("m");
    assert(out@ =~= old(out)@ + bg_escape(c));
}

/// Appends the cursor move to `row` and `col` to `out`.
pub fn push_move_to(out: &mut String, row: u128, col: u128)
    ensures
        final(out)@ == old(out)@ + move_to(row as nat, col as nat),
{
    proof {
        reveal_strlit("\x1B[");
        reveal_strlit(";");
        reveal_strlit("H");
    }
    out.append("\x1B[");
    push_decimal(out, row);
    out.append(";");
    push_decimal(out, col);
    out.append("H");
    assert(out@ =~= old(out)@ + move_to(row as nat, col as nat));
}

/// Appends the attribute reset to `out`.
pub fn push_reset(out: &mut String)
    ensures
        final(out)@ == old(out)@ + cls_color(),
{
    proof {
        lemma_terminal_consts();
    }
    out.append(CLS_COLOR);
}

} // verus!
