use pong::render::{render_frame, FrameContent};
use pong::state::Mode;

#[test]
fn menu_frame_holds_title_and_instructions() {
    match render_frame(Mode::Menu, 80, 24) {
        FrameContent::Menu { title, body } => {
            assert_eq!(title, "Pong Game");
            assert_eq!(
                body,
                "Press Esc, Ctrl-C or q to stop running.\nPress Enter to start game"
            );
        }
        other => panic!("expected a menu frame, got {:?}", other),
    }
}

#[test]
fn game_frame_degenerate_width_is_empty() {
    assert_eq!(render_frame(Mode::Game, 0, 3), FrameContent::Nothing);
}

#[test]
fn game_frame_degenerate_height_is_empty() {
    assert_eq!(render_frame(Mode::Game, 10, 0), FrameContent::Nothing);
}

#[test]
fn game_frame_degenerate_both_is_empty() {
    assert_eq!(render_frame(Mode::Game, 0, 0), FrameContent::Nothing);
}

#[test]
fn game_frame_bar_is_centered() {
    match render_frame(Mode::Game, 10, 3) {
        FrameContent::Bar { text } => {
            assert_eq!(text, "    █\n    █\n    █");
        }
        other => panic!("expected a bar frame, got {:?}", other),
    }
}

#[test]
fn game_frame_smallest_viewport() {
    match render_frame(Mode::Game, 1, 1) {
        FrameContent::Bar { text } => assert_eq!(text, "█"),
        other => panic!("expected a bar frame, got {:?}", other),
    }
}

#[test]
fn game_frame_odd_width() {
    match render_frame(Mode::Game, 5, 2) {
        FrameContent::Bar { text } => assert_eq!(text, "  █\n  █"),
        other => panic!("expected a bar frame, got {:?}", other),
    }
}

#[test]
fn render_is_deterministic() {
    assert_eq!(
        render_frame(Mode::Menu, 40, 12),
        render_frame(Mode::Menu, 40, 12)
    );
    assert_eq!(
        render_frame(Mode::Game, 37, 11),
        render_frame(Mode::Game, 37, 11)
    );
    assert_eq!(
        render_frame(Mode::Game, 0, 11),
        render_frame(Mode::Game, 0, 11)
    );
}
