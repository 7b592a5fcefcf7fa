//! Composition of board state and geometry into a list of drawing commands.
//!
//! Nothing here touches a real drawing surface: each function returns the
//! exact sequence of primitive commands an immediate-mode backend should
//! replay, so the composition itself is verified and the host shell only
//! forwards commands.

use crate::game::{board_full, winner_spec, CellState, GameState};
use crate::geometry::{
    board_origin_spec, cell_padding, cell_stroke_thickness, get_center_of_cell,
    get_top_left_corner_of_cell, lemma_board_proportions, pad_spec, scaled, scaled_spec,
    third_spec, Viewport,
};
use crate::state::AppState;
use vstd::arithmetic::div_mod::{
    lemma_div_is_ordered, lemma_div_multiples_vanish, lemma_fundamental_div_mod, lemma_mod_bound,
};
use vstd::arithmetic::mul::{lemma_mul_inequality, lemma_mul_nonnegative};
use vstd::prelude::*;

verus! {

/// A color as packed 32-bit RGBA, one byte per channel, red highest.
#[derive(Clone, Copy, PartialEq, Eq, Structural, Debug)]
pub struct Color(pub u64);

/// The packed color with the given channel bytes.
pub open spec fn rgba_spec(r: u8, g: u8, b: u8, a: u8) -> Color {
    Color(((r as u64) << 24) | ((g as u64) << 16) | ((b as u64) << 8) | (a as u64))
}

/// The packed color with the given channel bytes and full opacity.
pub open spec fn rgb_spec(r: u8, g: u8, b: u8) -> Color {
    rgba_spec(r, g, b, 255)
}

impl Color {
    /// Packs four channel bytes into a color.
    pub fn rgba(r: u8, g: u8, b: u8, a: u8) -> (c: Color)
        ensures
            c == rgba_spec(r, g, b, a),
    {
        Color(((r as u64) << 24) | ((g as u64) << 16) | ((b as u64) << 8) | (a as u64))
    }

    /// Packs three channel bytes into a fully opaque color.
    pub fn rgb(r: u8, g: u8, b: u8) -> (c: Color)
        ensures
            c == rgb_spec(r, g, b),
    {
        Color::rgba(r, g, b, 255)
    }

    /// Unpacks the four channel bytes, red first.
    pub fn to_bytes(&self) -> (r: (u8, u8, u8, u8))
        ensures
            r.0 == ((self.0 >> 24) & 0xff) as u8,
            r.1 == ((self.0 >> 16) & 0xff) as u8,
            r.2 == ((self.0 >> 8) & 0xff) as u8,
            r.3 == (self.0 & 0xff) as u8,
    {
        proof {
            let v = self.0;
            assert((v >> 24) & 0xff <= 0xff) by (bit_vector);
            assert((v >> 16) & 0xff <= 0xff) by (bit_vector);
            assert((v >> 8) & 0xff <= 0xff) by (bit_vector);
            assert(v & 0xff <= 0xff) by (bit_vector);
        }
        (
            ((self.0 >> 24) & 0xFF) as u8,
            ((self.0 >> 16) & 0xFF) as u8,
            ((self.0 >> 8) & 0xFF) as u8,
            (self.0 & 0xFF) as u8,
        )
    }
}

/// The color each mark is drawn with: black crosses, red rings.
pub open spec fn mark_color(m: CellState) -> Color {
    match m {
        CellState::X => rgb_spec(0, 0, 0),
        CellState::O => rgb_spec(255, 0, 0),
    }
}

impl CellState {
    /// The color this mark is drawn with.
    pub fn get_color(&self) -> (c: Color)
        ensures
            c == mark_color(*self),
    {
        match self {
            CellState::X => Color::rgb(0, 0, 0),
            CellState::O => Color::rgb(255, 0, 0),
        }
    }
}

/// How the backend joins consecutive stroked segments.
#[derive(Clone, Copy, PartialEq, Eq, Structural, Debug)]
pub enum LineJoin {
    Miter,
    Round,
    Bevel,
}

/// A dialog message; the host shell maps it to the displayed text via
/// [`message_text`].
#[derive(Clone, Copy, PartialEq, Eq, Structural, Debug)]
pub enum Message {
    XWon,
    OWon,
    Drawn,
    Error,
}

/// The text shown for each dialog message.
pub fn message_text(m: Message) -> (r: &'static str)
    ensures
        m is XWon ==> r@ == "X has won"@,
        m is OWon ==> r@ == "O has won"@,
        m is Drawn ==> r@ == "a draw occurred"@,
        m is Error ==> r@ == "Error"@,
{
    match m {
        Message::XWon => "X has won",
        Message::OWon => "O has won",
        Message::Drawn => "a draw occurred",
        Message::Error => "Error",
    }
}

/// One primitive command for an immediate-mode drawing backend, with
/// whole-pixel coordinates.
#[derive(Clone, Copy, PartialEq, Eq, Structural, Debug)]
pub enum DrawCmd {
    /// Stroke a straight segment.
    Line { x1: u32, y1: u32, x2: u32, y2: u32 },
    /// Set the stroke thickness, in pixels.
    StrokeThickness { px: u32 },
    /// Fill an axis-aligned rectangle.
    FillRect { x: u32, y: u32, w: u32, h: u32 },
    /// Stroke an axis-aligned rectangle.
    StrokeRect { x: u32, y: u32, w: u32, h: u32 },
    /// Stroke a full circle around `(x, y)` with radius `r`.
    Circle { x: u32, y: u32, r: u32 },
    /// Set the stroke color.
    StrokeColor { color: Color },
    /// Set the fill color.
    FillColor { color: Color },
    /// Set the font, given by its pixel size (the face is the backend's
    /// monospace face).
    Font { px: u32 },
    /// Fill a dialog message at `(x, y)`, squeezed into `max_width`.
    Text { message: Message, x: u32, y: u32, max_width: u32 },
    /// Set the join style for stroked segments.
    Join { style: LineJoin },
}

/// A segment command from int coordinates (which the callers keep in range).
pub open spec fn line_cmd(x1: int, y1: int, x2: int, y2: int) -> DrawCmd {
    DrawCmd::Line { x1: x1 as u32, y1: y1 as u32, x2: x2 as u32, y2: y2 as u32 }
}

/// A circle command from int coordinates (which the callers keep in range).
pub open spec fn circle_cmd(x: int, y: int, r: int) -> DrawCmd {
    DrawCmd::Circle { x: x as u32, y: y as u32, r: r as u32 }
}

/// The set-up commands issued once at start: round joins for strokes.
pub fn init_commands() -> (r: Vec<DrawCmd>)
    ensures
        r@ == seq![DrawCmd::Join { style: LineJoin::Round }],
{
    let mut cmds: Vec<DrawCmd> = Vec::new();
    cmds.push(DrawCmd::Join { style: LineJoin::Round });
    proof {
        assert(cmds@ =~= seq![DrawCmd::Join { style: LineJoin::Round }]);
    }
    cmds
}

/// The four internal grid segments: two vertical, two horizontal, the
/// verticals spanning the board square and the horizontals the full width.
pub open spec fn grid_cmds(vp: Viewport) -> Seq<DrawCmd> {
    let w = vp.width as int;
    let h = vp.height as int;
    let t = third_spec(vp);
    let o = board_origin_spec(vp);
    seq![
        line_cmd(t, o, t, h),
        line_cmd(0, t + o, w, t + o),
        line_cmd(2 * t, o, 2 * t, h),
        line_cmd(0, 2 * t + o, w, 2 * t + o),
    ]
}

/// Emits the internal grid lines of the board square.
pub fn draw_grid(vp: Viewport) -> (r: Vec<DrawCmd>)
    requires
        vp.width <= vp.height,
    ensures
        r@ == grid_cmds(vp),
{
    proof {
        lemma_board_proportions(vp.width as int);
    }
    let w = vp.width;
    let h = vp.height;
    let t = vp.width / 3;
    let o = h - w;
    let mut cmds: Vec<DrawCmd> = Vec::new();
    cmds.push(DrawCmd::Line { x1: t, y1: o, x2: t, y2: h });
    cmds.push(DrawCmd::Line { x1: 0, y1: t + o, x2: w, y2: t + o });
    cmds.push(DrawCmd::Line { x1: 2 * t, y1: o, x2: 2 * t, y2: h });
    cmds.push(DrawCmd::Line { x1: 0, y1: 2 * t + o, x2: w, y2: 2 * t + o });
    proof {
        assert(cmds@ =~= grid_cmds(vp));
    }
    cmds
}

/// The current-turn indicator drawn in the header: the next mark to move,
/// inset by the cell padding, one cell to the right of the left edge.
pub open spec fn current_player_cmds(player: CellState, vp: Viewport) -> Seq<DrawCmd> {
    let t = third_spec(vp);
    let p = pad_spec(vp);
    let head = seq![DrawCmd::StrokeThickness { px: scaled_spec(10, vp) as u32 }];
    match player {
        CellState::X => head + seq![
            DrawCmd::StrokeColor { color: Color(0x000000ff) },
            line_cmd(t + p, p, t + t - p, t - p),
            line_cmd(t + t - p, p, t + p, t - p),
        ],
        CellState::O => head + seq![
            DrawCmd::StrokeColor { color: Color(0xff0000ff) },
            circle_cmd(t + t / 2, t / 2, t / 2 - p),
        ],
    }
}

/// Emits the current-turn indicator glyph for the header region.
pub fn draw_current_player(player: CellState, vp: Viewport) -> (r: Vec<DrawCmd>)
    ensures
        r@ == current_player_cmds(player, vp),
{
    proof {
        lemma_board_proportions(vp.width as int);
    }
    let t = vp.width / 3;
    let p = cell_padding(vp);
    let mut cmds: Vec<DrawCmd> = Vec::new();
    cmds.push(DrawCmd::StrokeThickness { px: cell_stroke_thickness(vp) });
    match player {
        CellState::X => {
            cmds.push(DrawCmd::StrokeColor { color: Color(0x000000ff) });
            cmds.push(DrawCmd::Line { x1: t + p, y1: p, x2: t + t - p, y2: t - p });
            cmds.push(DrawCmd::Line { x1: t + t - p, y1: p, x2: t + p, y2: t - p });
        },
        CellState::O => {
            cmds.push(DrawCmd::StrokeColor { color: Color(0xff0000ff) });
            cmds.push(DrawCmd::Circle { x: t + t / 2, y: t / 2, r: t / 2 - p });
        },
    }
    proof {
        assert(cmds@ =~= current_player_cmds(player, vp));
    }
    cmds
}

/// The dialog panel: a translucent white plate with a black border, and the
/// message centered vertically inside the board square.
pub open spec fn dialog_cmds(message: Message, vp: Viewport) -> Seq<DrawCmd> {
    let w = vp.width as int;
    let h = vp.height as int;
    let font_h = scaled_spec(80, vp);
    let dw = w - scaled_spec(100, vp);
    let dh = font_h * 3 / 2;
    let dx = scaled_spec(50, vp);
    let dy = h - w + w / 2 - dh / 2;
    seq![
        DrawCmd::FillColor { color: rgba_spec(255, 255, 255, 189) },
        DrawCmd::FillRect { x: dx as u32, y: dy as u32, w: dw as u32, h: dh as u32 },
        DrawCmd::StrokeThickness { px: scaled_spec(2, vp) as u32 },
        DrawCmd::StrokeColor { color: rgb_spec(0, 0, 0) },
        DrawCmd::StrokeRect { x: dx as u32, y: dy as u32, w: dw as u32, h: dh as u32 },
        DrawCmd::Font { px: scaled_spec(80, vp) as u32 },
        DrawCmd::FillColor { color: Color(0x000000ff) },
        DrawCmd::Text {
            message,
            x: (dx + scaled_spec(10, vp)) as u32,
            y: (dy + font_h) as u32,
            max_width: (dw - scaled_spec(20, vp)) as u32,
        },
    ]
}

/// Emits the dialog panel with the given message.
pub fn draw_message_dialog(message: Message, vp: Viewport) -> (r: Vec<DrawCmd>)
    requires
        vp.width <= vp.height,
    ensures
        r@ == dialog_cmds(message, vp),
{
    let w = vp.width;
    let h = vp.height;
    let font_h = scaled(80, vp);
    let s100 = scaled(100, vp);
    let s50 = scaled(50, vp);
    let s20 = scaled(20, vp);
    let s10 = scaled(10, vp);
    let s2 = scaled(2, vp);
    proof {
        let wi = w as int;
        assert(3 * font_h <= wi);
        assert(s100 + s20 <= wi);
        assert(s50 + s10 <= wi);
        lemma_fundamental_div_mod(wi, 2);
        lemma_mod_bound(wi, 2);
        assert(font_h <= wi / 2);
        lemma_div_is_ordered(3 * font_h, wi, 2);
        lemma_div_is_ordered(2 * font_h, 3 * font_h, 2);
        lemma_div_multiples_vanish(font_h as int, 2);
        lemma_div_is_ordered((3 * font_h) as int / 2, wi, 2);
    }
    let dw = w - s100;
    let dh = font_h * 3 / 2;
    let dx = s50;
    let dy = (h - w) + w / 2 - dh / 2;
    let mut cmds: Vec<DrawCmd> = Vec::new();
    cmds.push(DrawCmd::FillColor { color: Color::rgba(255, 255, 255, 255 / 4 * 3) });
    cmds.push(DrawCmd::FillRect { x: dx, y: dy, w: dw, h: dh });
    cmds.push(DrawCmd::StrokeThickness { px: s2 });
    cmds.push(DrawCmd::StrokeColor { color: Color::rgb(0, 0, 0) });
    cmds.push(DrawCmd::StrokeRect { x: dx, y: dy, w: dw, h: dh });
    cmds.push(DrawCmd::Font { px: font_h });
    cmds.push(DrawCmd::FillColor { color: Color(0x000000ff) });
    cmds.push(
        DrawCmd::Text { message, x: dx + s10, y: dy + font_h, max_width: dw - s20 },
    );
    proof {
        assert(cmds@ =~= dialog_cmds(message, vp));
    }
    cmds
}

/// The horizontal center of the cell at `i`.
pub open spec fn cell_center_x(i: int, vp: Viewport) -> int {
    (i % 3) * third_spec(vp) + third_spec(vp) / 2
}

/// The vertical center of the cell at `i`.
pub open spec fn cell_center_y(i: int, vp: Viewport) -> int {
    board_origin_spec(vp) + (i / 3) * third_spec(vp) + third_spec(vp) / 2
}

/// The overlay for a won game: a stroke in the winner's color connecting the
/// centers of the two endpoint cells of the winning line.
pub open spec fn winner_line_cmds(winner: CellState, start: int, end: int, vp: Viewport) -> Seq<
    DrawCmd,
> {
    seq![
        DrawCmd::StrokeColor { color: mark_color(winner) },
        DrawCmd::StrokeThickness { px: scaled_spec(10, vp) as u32 },
        line_cmd(
            cell_center_x(start, vp),
            cell_center_y(start, vp),
            cell_center_x(end, vp),
            cell_center_y(end, vp),
        ),
    ]
}

/// Emits the winning-line overlay between the endpoint cells.
pub fn draw_winner_line(winner: CellState, start: usize, end: usize, vp: Viewport) -> (r: Vec<
    DrawCmd,
>)
    requires
        start < 9,
        end < 9,
        vp.width <= vp.height,
    ensures
        r@ == winner_line_cmds(winner, start as int, end as int, vp),
{
    let color = winner.get_color();
    let (sx, sy) = get_center_of_cell(start, vp);
    let (ex, ey) = get_center_of_cell(end, vp);
    let mut cmds: Vec<DrawCmd> = Vec::new();
    cmds.push(DrawCmd::StrokeColor { color });
    cmds.push(DrawCmd::StrokeThickness { px: cell_stroke_thickness(vp) });
    cmds.push(DrawCmd::Line { x1: sx, y1: sy, x2: ex, y2: ey });
    proof {
        assert(cmds@ =~= winner_line_cmds(winner, start as int, end as int, vp));
    }
    cmds
}

/// The glyph of one cell's stored mark: a cross as two diagonals or a ring,
/// inset by the cell padding; an empty cell draws nothing.
pub open spec fn cell_mark_cmds(cell: Option<CellState>, i: int, vp: Viewport) -> Seq<DrawCmd> {
    let t = third_spec(vp);
    let p = pad_spec(vp);
    let o = board_origin_spec(vp);
    let x = (i % 3) * t + p;
    let y = (i / 3) * t + o + p;
    match cell {
        Some(CellState::X) => seq![
            DrawCmd::StrokeColor { color: rgb_spec(0, 0, 0) },
            line_cmd(x, y, x + t - 2 * p, y + t - 2 * p),
            line_cmd(x + t - 2 * p, y, x, y + t - 2 * p),
        ],
        Some(CellState::O) => seq![
            DrawCmd::StrokeColor { color: rgb_spec(255, 0, 0) },
            circle_cmd(x + t / 2 - p, y + t / 2 - p, t / 2 - p),
        ],
        None => Seq::empty(),
    }
}

/// The glyphs of the first `n` cells, in cell order.
pub open spec fn marks_cmds(cells: Seq<Option<CellState>>, vp: Viewport, n: int) -> Seq<DrawCmd>
    decreases n,
{
    if n <= 0 {
        Seq::empty()
    } else {
        marks_cmds(cells, vp, n - 1) + cell_mark_cmds(cells[n - 1], n - 1, vp)
    }
}

/// Emits the stored mark glyph of every occupied cell.
pub fn draw_cell_marks(game: &GameState, vp: Viewport) -> (r: Vec<DrawCmd>)
    requires
        game.wf(),
        vp.width <= vp.height,
    ensures
        r@ == marks_cmds(game@.cells, vp, 9),
{
    let t = vp.width / 3;
    let p = cell_padding(vp);
    proof {
        lemma_board_proportions(vp.width as int);
    }
    let mut cmds: Vec<DrawCmd> = Vec::new();
    let mut i: usize = 0;
    while i < 9
        invariant
            game.wf(),
            vp.width <= vp.height,
            t == third_spec(vp),
            p == pad_spec(vp),
            i <= 9,
            cmds@ == marks_cmds(game@.cells, vp, i as int),
        decreases 9 - i,
    {
        let (bx, by) = get_top_left_corner_of_cell(i, vp);
        proof {
            lemma_board_proportions(vp.width as int);
            lemma_mul_inequality(i as int % 3, 2, third_spec(vp));
            lemma_mul_inequality(i as int / 3, 2, third_spec(vp));
            lemma_mul_nonnegative(i as int % 3, third_spec(vp));
            lemma_mul_nonnegative(i as int / 3, third_spec(vp));
        }
        let x = bx + p;
        let y = by + p;
        match game.cells[i] {
            Some(CellState::X) => {
                cmds.push(DrawCmd::StrokeColor { color: Color::rgb(0, 0, 0) });
                cmds.push(
                    DrawCmd::Line { x1: x, y1: y, x2: x + (t - 2 * p), y2: y + (t - 2 * p) },
                );
                cmds.push(
                    DrawCmd::Line { x1: x + (t - 2 * p), y1: y, x2: x, y2: y + (t - 2 * p) },
                );
            },
            Some(CellState::O) => {
                cmds.push(DrawCmd::StrokeColor { color: Color::rgb(255, 0, 0) });
                cmds.push(
                    DrawCmd::Circle { x: x + (t / 2 - p), y: y + (t / 2 - p), r: t / 2 - p },
                );
            },
            None => {},
        }
        proof {
            assert(cmds@ =~= marks_cmds(game@.cells, vp, i + 1));
        }
        i += 1;
    }
    cmds
}

/// The dialog message announcing the winning mark.
pub open spec fn win_message(m: CellState) -> Message {
    match m {
        CellState::X => Message::XWon,
        CellState::O => Message::OWon,
    }
}

/// The overlay drawn after the board: the winning line and its dialog when a
/// mark has won, the draw dialog on a full board, nothing otherwise.
pub open spec fn outcome_cmds(v: crate::state::AppView) -> Seq<DrawCmd> {
    match winner_spec(v.game.cells) {
        Some((m, a, c)) => winner_line_cmds(m, a as int, c as int, v.viewport) + dialog_cmds(
            win_message(m),
            v.viewport,
        ),
        None => if board_full(v.game.cells) {
            dialog_cmds(Message::Drawn, v.viewport)
        } else {
            Seq::empty()
        },
    }
}

/// The debug overlay: a green ring at the remembered pointer position, only
/// when the overlay is enabled and a position is remembered.
pub open spec fn debug_cmds(v: crate::state::AppView, debug_overlay: bool) -> Seq<DrawCmd> {
    if debug_overlay {
        match v.last_click {
            Some(p) => seq![
                DrawCmd::StrokeColor { color: rgb_spec(0, 255, 0) },
                DrawCmd::Circle { x: p.x, y: p.y, r: scaled_spec(10, v.viewport) as u32 },
            ],
            None => Seq::empty(),
        }
    } else {
        Seq::empty()
    }
}

/// One full frame: turn indicator, grid, cell marks, the outcome overlay and
/// optionally the debug marker, in the order the backend must replay them.
pub open spec fn frame_cmds(v: crate::state::AppView, debug_overlay: bool) -> Seq<DrawCmd> {
    current_player_cmds(v.game.player, v.viewport) + seq![
        DrawCmd::StrokeThickness { px: scaled_spec(3, v.viewport) as u32 },
        DrawCmd::StrokeColor { color: Color(0x00000040) },
    ] + grid_cmds(v.viewport) + seq![
        DrawCmd::StrokeThickness { px: scaled_spec(10, v.viewport) as u32 },
    ] + marks_cmds(v.game.cells, v.viewport, 9) + outcome_cmds(v) + debug_cmds(v, debug_overlay)
}

/// Composes the full frame for the current state. The frame reads the state
/// and never changes it; `debug_overlay` selects whether the remembered
/// pointer position is marked.
pub fn draw_frame(st: &AppState, debug_overlay: bool) -> (r: Vec<DrawCmd>)
    requires
        st.wf(),
        st.viewport.width <= st.viewport.height,
    ensures
        r@ == frame_cmds(st@, debug_overlay),
{
    let vp = st.viewport;
    let mut cmds = draw_current_player(st.game.current_player, vp);
    cmds.push(DrawCmd::StrokeThickness { px: scaled(3, vp) });
    cmds.push(DrawCmd::StrokeColor { color: Color(0x00000040) });
    let mut grid = draw_grid(vp);
    cmds.append(&mut grid);
    cmds.push(DrawCmd::StrokeThickness { px: cell_stroke_thickness(vp) });
    let mut marks = draw_cell_marks(&st.game, vp);
    cmds.append(&mut marks);
    match st.game.get_winner() {
        Some((winner, start, end)) => {
            let mut overlay = draw_winner_line(winner, start, end, vp);
            cmds.append(&mut overlay);
            let message = match winner {
                CellState::X => Message::XWon,
                CellState::O => Message::OWon,
            };
            let mut dialog = draw_message_dialog(message, vp);
            cmds.append(&mut dialog);
        },
        None => {
            if st.game.is_draw() {
                let mut dialog = draw_message_dialog(Message::Drawn, vp);
                cmds.append(&mut dialog);
            }
        },
    }
    if debug_overlay {
        if let Some(p) = st.last_click {
            cmds.push(DrawCmd::StrokeColor { color: Color::rgb(0, 255, 0) });
            cmds.push(DrawCmd::Circle { x: p.x, y: p.y, r: scaled(10, vp) });
        }
    }
    proof {
        assert(cmds@ =~= frame_cmds(st@, debug_overlay));
    }
    cmds
}

} // verus!
