use termgif::animation::Animation;
use termgif::args::DisplayArgs;
use termgif::display::{advance, display_anim, open_screen, step, Action, Playhead, Stage};
use termgif::layout::LayoutError;
use termgif::types::StrFrame;

fn frame(line: &str, delay: u64) -> StrFrame {
    StrFrame { raw_frame: vec![line.to_string()], final_frame: None, delay, size: (line.len(), 1) }
}

fn args(text: Option<&str>, looping: bool, center: bool) -> DisplayArgs {
    DisplayArgs {
        file: String::new(),
        width: None,
        height: None,
        text: text.map(|t| t.to_string()),
        fit: false,
        loop_animation: looping,
        center,
    }
}

const SETUP: &str = "\x1B[2J\x1B[?25l";
const TEARDOWN: &str = "\x1B[2J\x1B[?25h\x1B[H";

#[test]
fn one_pass_without_looping() {
    let mut anim = Animation::new(args(None, false, false), vec![frame("ab", 10), frame("cd", 20)]);
    assert_eq!(anim.playhead().stage, Stage::Setup);
    assert_eq!(anim.display(0), Action::Write(SETUP.to_string()));
    assert_eq!(anim.playhead().stage, Stage::Frame(0));
    assert_eq!(anim.playhead().anchor, (1, 1));
    assert_eq!(anim.display(0), Action::Write("\x1B[1;1Hab\x1B[0m".to_string()));
    assert_eq!(anim.display(4_000_000), Action::Sleep(6_000_000));
    assert_eq!(anim.display(0), Action::Write("\x1B[1;1Hcd\x1B[0m".to_string()));
    assert_eq!(anim.display(0), Action::Sleep(20_000_000));
    assert_eq!(anim.playhead().stage, Stage::Teardown);
    assert_eq!(anim.display(0), Action::Write(TEARDOWN.to_string()));
    assert_eq!(anim.playhead().stage, Stage::Finished);
    assert_eq!(anim.display(0), Action::Quit);
    assert_eq!(anim.display(0), Action::Quit);
    assert_eq!(anim.playhead().stage, Stage::Finished);
}

#[test]
fn sleeps_of_a_pass_add_up_to_the_delays() {
    let count = 5u128;
    let delay = 30u64;
    let frames = (0..count).map(|_| frame("x", delay)).collect();
    let mut anim = Animation::new(args(None, false, false), frames);
    let mut slept = 0u128;
    loop {
        match anim.display(0) {
            Action::Sleep(nanos) => slept += nanos,
            Action::Write(_) => {}
            _ => break,
        }
    }
    assert_eq!(slept, count * (delay as u128) * 1_000_000);
}

#[test]
fn a_slow_write_waits_nothing() {
    let mut frames = vec![frame("x", 10)];
    let head = Playhead { stage: Stage::Wait(0), anchor: (1, 1) };
    let (_, action) = advance(&mut frames, false, head, 10_000_000);
    assert_eq!(action, Action::Sleep(0));
    let (_, action) = advance(&mut frames, false, head, 10_000_001);
    assert_eq!(action, Action::Sleep(0));
    let (_, action) = advance(&mut frames, false, head, u128::MAX);
    assert_eq!(action, Action::Sleep(0));
    let (_, action) = advance(&mut frames, false, head, 9_999_999);
    assert_eq!(action, Action::Sleep(1));
}

#[test]
fn the_longest_delay_does_not_overflow() {
    let mut frames = vec![frame("x", u64::MAX)];
    let head = Playhead { stage: Stage::Wait(0), anchor: (1, 1) };
    let (_, action) = advance(&mut frames, false, head, 1);
    assert_eq!(action, Action::Sleep(u64::MAX as u128 * 1_000_000 - 1));
}

#[test]
fn looping_goes_back_to_the_first_frame() {
    let mut anim = Animation::new(args(None, true, false), vec![frame("ab", 1), frame("cd", 1)]);
    let mut writes = Vec::new();
    for _ in 0..9 {
        if let Action::Write(text) = anim.display(0) {
            writes.push(text);
        }
    }
    assert_eq!(
        writes,
        vec![
            SETUP,
            "\x1B[1;1Hab\x1B[0m",
            "\x1B[1;1Hcd\x1B[0m",
            "\x1B[1;1Hab\x1B[0m",
            "\x1B[1;1Hcd\x1B[0m"
        ]
    );
    assert_eq!(anim.playhead().stage, Stage::Frame(0));
}

#[test]
fn no_frame_goes_straight_to_the_teardown() {
    let mut anim = Animation::new(args(None, true, false), vec![]);
    assert_eq!(anim.display(0), Action::Write(SETUP.to_string()));
    assert_eq!(anim.display(0), Action::Write(TEARDOWN.to_string()));
    assert_eq!(anim.display(0), Action::Quit);
}

#[test]
fn text_is_written_with_the_setup() {
    let mut anim = Animation::new(args(Some("hi\nyou"), false, false), vec![frame("abc", 1)]);
    assert_eq!(anim.display(0), Action::Write(format!("{}\x1B[1;5Hhi\x1B[2;5Hyou", SETUP)));
}

#[test]
fn centering_without_a_terminal_fails_before_any_write() {
    let frames = vec![frame("abc", 1)];
    let (head, action) = open_screen(&frames, None, true, None);
    assert_eq!(action, Action::Fail(LayoutError::TerminalUnavailable));
    assert_eq!(head.stage, Stage::Finished);
}

#[test]
fn centering_places_the_anchor() {
    let frames = vec![StrFrame {
        raw_frame: vec![],
        final_frame: None,
        delay: 0,
        size: (10, 5),
    }];
    let (head, action) = open_screen(&frames, None, true, Some((40, 20)));
    assert_eq!(head.anchor, (16, 8));
    assert_eq!(head.stage, Stage::Frame(0));
    assert_eq!(action, Action::Write(SETUP.to_string()));
}

#[test]
fn centering_counts_the_text_beside_the_frame() {
    let frames = vec![StrFrame {
        raw_frame: vec![],
        final_frame: None,
        delay: 0,
        size: (10, 5),
    }];
    let (head, action) = open_screen(&frames, Some("hello\nyou"), true, Some((40, 20)));
    assert_eq!(head.anchor, (13, 8));
    assert_eq!(action, Action::Write(format!("{}\x1B[8;24Hhello\x1B[9;24Hyou", SETUP)));
}

#[test]
fn a_terminal_is_not_read_without_centering() {
    let frames = vec![frame("abc", 1)];
    let (head, _) = open_screen(&frames, None, false, Some((40, 20)));
    assert_eq!(head.anchor, (1, 1));
}

#[test]
fn frames_are_placed_at_the_anchor_once() {
    let mut frames = vec![frame("ab", 1)];
    let head = Playhead { stage: Stage::Frame(0), anchor: (16, 8) };
    let (head, action) = advance(&mut frames, true, head, 0);
    assert_eq!(action, Action::Write("\x1B[8;16Hab\x1B[0m".to_string()));
    assert_eq!(head.stage, Stage::Wait(0));
    assert_eq!(frames[0].final_frame, Some("\x1B[8;16Hab\x1B[0m".to_string()));
    let head = Playhead { stage: Stage::Frame(0), anchor: (1, 1) };
    let (_, action) = advance(&mut frames, true, head, 0);
    assert_eq!(action, Action::Write("\x1B[8;16Hab\x1B[0m".to_string()));
}

#[test]
fn step_takes_the_first_step_from_setup() {
    let mut frames = vec![frame("ab", 1)];
    let (head, action) = step(&mut frames, None, true, false, Playhead::start(), Some((4, 3)), 0);
    assert_eq!(head.anchor, (2, 2));
    assert_eq!(action, Action::Write(SETUP.to_string()));
    let (head, action) = step(&mut frames, None, true, false, head, None, 0);
    assert_eq!(head.stage, Stage::Wait(0));
    assert_eq!(action, Action::Write("\x1B[2;2Hab\x1B[0m".to_string()));
}

#[test]
fn display_anim_plays_without_text() {
    let mut frames = vec![frame("ab", 2)];
    let args = args(Some("ignored"), false, false);
    let mut head = Playhead::start();
    let mut actions = Vec::new();
    loop {
        let (next, action) = display_anim(&mut frames, &args, head, 500_000);
        head = next;
        let last = action == Action::Quit;
        actions.push(action);
        if last {
            break;
        }
    }
    assert_eq!(
        actions,
        vec![
            Action::Write(SETUP.to_string()),
            Action::Write("\x1B[1;1Hab\x1B[0m".to_string()),
            Action::Sleep(1_500_000),
            Action::Write(TEARDOWN.to_string()),
            Action::Quit,
        ]
    );
}
