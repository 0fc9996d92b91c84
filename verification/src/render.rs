//! The render dispatcher: a pure function from the current mode and the
//! viewport dimensions to the frame content.
//!
//! On the menu screen the content is a titled panel with two lines of
//! instructions. On the game screen it is a single vertical bar: one block
//! glyph per row, indented so the bar sits at the horizontal centre of the
//! viewport, the rows joined by newlines. A degenerate viewport (zero width
//! or zero height) yields no content at all.

use vstd::prelude::*;
use vstd::string::StringExecFns;

use crate::state::Mode;

verus! {

/// The content of one frame, ready to be drawn: a menu panel, the game bar,
/// or nothing.
#[derive(Debug, PartialEq, Eq)]
pub enum FrameContent {
    Menu { title: String, body: String },
    Bar { text: String },
    Nothing,
}

/// The mathematical value of a `FrameContent`: the same shape with each
/// string replaced by its character sequence.
pub enum FrameView {
    Menu { title: Seq<char>, body: Seq<char> },
    Bar { text: Seq<char> },
    Nothing,
}

impl View for FrameContent {
    type V = FrameView;

    open spec fn view(&self) -> FrameView {
        match self {
            FrameContent::Menu { title, body } => FrameView::Menu {
                title: title@,
                body: body@,
            },
            FrameContent::Bar { text } => FrameView::Bar { text: text@ },
            FrameContent::Nothing => FrameView::Nothing,
        }
    }
}

/// The menu panel's title.
pub open spec fn menu_title() -> Seq<char> {
    "Pong Game"@
}

/// The menu panel's instructional text, two lines joined by a newline.
pub open spec fn menu_body() -> Seq<char> {
    "Press Esc, Ctrl-C or q to stop running.\nPress Enter to start game"@
}

/// The column of the bar in a viewport of width `w`: half the width, rounded
/// down after leaving room for the glyph, and clamped to the width itself.
pub open spec fn bar_col(w: int) -> int {
    let half = (w - 1) / 2;
    if half < w {
        half
    } else {
        w
    }
}

/// A sequence of `n` blank characters.
pub open spec fn spaces(n: nat) -> Seq<char> {
    Seq::new(n, |i: int| ' ')
}

/// One row of the game screen: `col` blanks followed by one block glyph.
pub open spec fn game_line(col: int) -> Seq<char> {
    spaces(col as nat).push('█')
}

/// The full text of the game screen: `rows` copies of `game_line(col)`
/// joined by newlines.
pub open spec fn game_text(col: int, rows: int) -> Seq<char>
    decreases rows,
{
    if rows <= 0 {
        Seq::empty()
    } else if rows == 1 {
        game_line(col)
    } else {
        game_text(col, rows - 1) + seq!['\n'] + game_line(col)
    }
}

/// The content owed for each mode and viewport: the menu panel whatever the
/// viewport, the bar text for a usable game viewport, and nothing for a
/// degenerate one.
pub open spec fn spec_frame(mode: Mode, w: u16, h: u16) -> FrameView {
    match mode {
        Mode::Menu => FrameView::Menu { title: menu_title(), body: menu_body() },
        Mode::Game => if w == 0 || h == 0 {
            FrameView::Nothing
        } else {
            FrameView::Bar { text: game_text(bar_col(w as int), h as int) }
        },
    }
}

/// Build the game screen's text for a viewport of `w` by `h` cells.
pub fn render_game_text(w: u16, h: u16) -> (r: String)
    requires
        1 <= w,
        1 <= h,
    ensures
        r@ == game_text(bar_col(w as int), h as int),
{
    let half: u16 = (w - 1) / 2;
    let col: u16 = if half < w {
        half
    } else {
        w
    };
    assert(col as int == bar_col(w as int));
    let mut s = String::new();
    let mut row: u16 = 0;
    while row < h
        invariant
            row <= h,
            col as int == bar_col(w as int),
            s@ == game_text(col as int, row as int),
        decreases h - row,
    {
        if row > 0 {
            s.append("\n");
        }
        let ghost pre: Seq<char> = s@;
        proof {
            assert(s@ =~= pre + spaces(0));
        }
        let mut c: u16 = 0;
        while c < col
            invariant
                c <= col,
                s@ == pre + spaces(c as nat),
            decreases col - c,
        {
            s.append(" ");
            proof {
                reveal_strlit(" ");
                assert(pre + spaces(c as nat) + " "@ =~= pre + spaces((c + 1) as nat));
            }
            c = c + 1;
        }
        s.append("█");
        proof {
            reveal_strlit("█");
            reveal_strlit("\n");
            assert(s@ =~= pre + game_line(col as int));
            if row == 0 {
                assert(s@ =~= game_text(col as int, 1));
            } else {
                assert(pre =~= game_text(col as int, row as int) + seq!['\n']);
                assert(s@ =~= game_text(col as int, row as int + 1));
            }
        }
        row = row + 1;
    }
    s
}

/// Produce the frame content for the given mode and viewport dimensions.
/// The result is a function of the arguments alone.
pub fn render_frame(mode: Mode, w: u16, h: u16) -> (r: FrameContent)
    ensures
        r@ == spec_frame(mode, w, h),
{
    match mode {
        Mode::Menu => FrameContent::Menu {
            title: "Pong Game".to_owned(),
            body: "Press Esc, Ctrl-C or q to stop running.\nPress Enter to start game".to_owned(),
        },
        Mode::Game => if w == 0 || h == 0 {
            FrameContent::Nothing
        } else {
            FrameContent::Bar { text: render_game_text(w, h) }
        },
    }
}

/// The renderer is deterministic: any two frame contents that meet its
/// contract for the same mode and viewport have the same value.
pub proof fn lemma_render_deterministic(
    mode: Mode,
    w: u16,
    h: u16,
    a: FrameContent,
    b: FrameContent,
)
    requires
        a@ == spec_frame(mode, w, h),
        b@ == spec_frame(mode, w, h),
    ensures
        a@ == b@,
{
}

} // verus!
