use vstd::prelude::*;
use crate::terminal_consts::{cls_screen, hide_cursor, move_corner, show_cursor};

verus! {

/// The controls that set the screen up and put it back.
pub enum Control {
    ClearScreen,
    HideCursor,
    ShowCursor,
    MoveCorner,
}

/// What the controls change of a terminal: whether the screen is blank,
/// whether the cursor shows, and the cursor's row and column, counted from
/// one.
pub struct Screen {
    pub blank: bool,
    pub cursor_visible: bool,
    pub cursor: (nat, nat),
}

/// The characters that send `control`.
pub open spec fn encode(control: Control) -> Seq<char> {
    match control {
        Control::ClearScreen => cls_screen(),
        Control::HideCursor => hide_cursor(),
        Control::ShowCursor => show_cursor(),
        Control::MoveCorner => move_corner(),
    }
}

/// The characters that send `controls` one after another.
pub open spec fn encode_all(controls: Seq<Control>) -> Seq<char>
    decreases controls.len(),
{
    if controls.len() == 0 {
        Seq::empty()
    } else {
        encode_all(controls.drop_last()) + encode(controls.last())
    }
}

/// The screen after `control` has reached it.
pub open spec fn apply(screen: Screen, control: Control) -> Screen {
    match control {
        Control::ClearScreen => Screen { blank: true, ..screen },
        Control::HideCursor => Screen { cursor_visible: false, ..screen },
        Control::ShowCursor => Screen { cursor_visible: true, ..screen },
        Control::MoveCorner => Screen { cursor: (1, 1), ..screen },
    }
}

/// The screen after `controls` have reached it in order.
pub open spec fn run(screen: Screen, controls: Seq<Control>) -> Screen
    decreases controls.len(),
{
    if controls.len() == 0 {
        screen
    } else {
        apply(run(screen, controls.drop_last()), controls.last())
    }
}

/// What playback sends first: clear the screen, hide the cursor.
pub open spec fn setup_controls() -> Seq<Control> {
    seq![Control::ClearScreen, Control::HideCursor]
}

/// What playback sends last, and an interrupt at any time: clear the screen,
/// show the cursor, move it to the corner.
pub open spec fn teardown_controls() -> Seq<Control> {
    seq![Control::ClearScreen, Control::ShowCursor, Control::MoveCorner]
}

/// The characters of the setup.
pub open spec fn setup_text() -> Seq<char> {
    cls_screen() + hide_cursor()
}

/// The characters of the teardown.
pub open spec fn teardown_text() -> Seq<char> {
    cls_screen() + show_cursor() + move_corner()
}

/// The screen as the teardown leaves it.
pub open spec fn restored() -> Screen {
    Screen { blank: true, cursor_visible: true, cursor: (1, 1) }
}

/// The setup and teardown texts are their controls, encoded in order.
pub proof fn lemma_control_texts()
    ensures
        encode_all(setup_controls()) == setup_text(),
        encode_all(teardown_controls()) == teardown_text(),
{
    reveal_with_fuel(encode_all, 4);
    let s = setup_controls();
    assert(s.drop_last() =~= seq![Control::ClearScreen]);
    assert(s.drop_last().drop_last() =~= Seq::<Control>::empty());
    assert(encode_all(s) =~= setup_text());
    let t = teardown_controls();
    assert(t.drop_last() =~= seq![Control::ClearScreen, Control::ShowCursor]);
    assert(t.drop_last().drop_last() =~= seq![Control::ClearScreen]);
    assert(t.drop_last().drop_last().drop_last() =~= Seq::<Control>::empty());
    assert(encode_all(t) =~= teardown_text());
}

/// Whatever state the screen is in, the teardown leaves it blank, with the
/// cursor showing in the corner.
pub proof fn lemma_teardown_restores(screen: Screen)
    ensures
        run(screen, teardown_controls()) == restored(),
{
    reveal_with_fuel(run, 4);
    let t = teardown_controls();
    assert(t.drop_last() =~= seq![Control::ClearScreen, Control::ShowCursor]);
    assert(t.drop_last().drop_last() =~= seq![Control::ClearScreen]);
    assert(t.drop_last().drop_last().drop_last() =~= Seq::<Control>::empty());
}

/// The teardown is idempotent: sent twice in a row, it leaves the screen as
/// it does when sent once.
pub proof fn lemma_teardown_idempotent(screen: Screen)
    ensures
        run(run(screen, teardown_controls()), teardown_controls()) == run(
            screen,
            teardown_controls(),
        ),
{
    lemma_teardown_restores(screen);
    lemma_teardown_restores(run(screen, teardown_controls()));
}

/// The setup is idempotent too: sent twice, it leaves the screen as it does
/// when sent once.
pub proof fn lemma_setup_idempotent(screen: Screen)
    ensures
        run(run(screen, setup_controls()), setup_controls()) == run(screen, setup_controls()),
{
    reveal_with_fuel(run, 3);
    let s = setup_controls();
    assert(s.drop_last() =~= seq![Control::ClearScreen]);
    assert(s.drop_last().drop_last() =~= Seq::<Control>::empty());
}

} // verus!
