use vstd::prelude::*;

verus! {

/// Resets every rendering attribute.
pub const CLS_COLOR: &'static str = "\x1B[0m";

/// Clears the whole screen.
pub const CLS_SCREEN: &'static str = "\x1B[2J";

/// Hides the cursor.
pub const HIDE_CURSOR: &'static str = "\x1B[?25l";

/// Shows the cursor.
pub const SHOW_CURSOR: &'static str = "\x1B[?25h";

/// Moves the cursor to the top-left corner.
pub const MOVE_CORNER: &'static str = "\x1B[H";

/// The half-block glyph: its upper half takes the foreground colour, its lower
/// half the background colour.
pub const HALF_BLOCK: &'static str = "\u{2580}";

/// The escape character that opens every control sequence.
pub open spec fn esc() -> char {
    '\x1b'
}

/// The characters of [`CLS_COLOR`].
pub open spec fn cls_color() -> Seq<char> {
    seq![esc(), '[', '0', 'm']
}

/// The characters of [`CLS_SCREEN`].
pub open spec fn cls_screen() -> Seq<char> {
    seq![esc(), '[', '2', 'J']
}

/// The characters of [`HIDE_CURSOR`].
pub open spec fn hide_cursor() -> Seq<char> {
    seq![esc(), '[', '?', '2', '5', 'l']
}

/// The characters of [`SHOW_CURSOR`].
pub open spec fn show_cursor() -> Seq<char> {
    seq![esc(), '[', '?', '2', '5', 'h']
}

/// The characters of [`MOVE_CORNER`].
pub open spec fn move_corner() -> Seq<char> {
    seq![esc(), '[', 'H']
}

/// The characters of [`HALF_BLOCK`].
pub open spec fn half_block() -> Seq<char> {
    seq!['\u{2580}']
}

/// Each constant holds exactly the characters that its spec function lists.
pub proof fn lemma_terminal_consts()
    ensures
        CLS_COLOR@ == cls_color(),
        CLS_SCREEN@ == cls_screen(),
        HIDE_CURSOR@ == hide_cursor(),
        SHOW_CURSOR@ == show_cursor(),
        MOVE_CORNER@ == move_corner(),
        HALF_BLOCK@ == half_block(),
{
    reveal_strlit("\x1B[0m");
    reveal_strlit("\x1B[2J");
    reveal_strlit("\x1B[?25l");
    reveal_strlit("\x1B[?25h");
    reveal_strlit("\x1B[H");
    reveal_strlit("\u{2580}");
    assert(CLS_COLOR@ =~= cls_color());
    assert(CLS_SCREEN@ =~= cls_screen());
    assert(HIDE_CURSOR@ =~= hide_cursor());
    assert(SHOW_CURSOR@ =~= show_cursor());
    assert(MOVE_CORNER@ =~= move_corner());
    assert(HALF_BLOCK@ =~= half_block());
}

} // verus!
