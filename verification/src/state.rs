//! The application state owned by the host's event loop: board, viewport and
//! the remembered pointer position, together with the pointer-click resolver
//! and the resize adapter.

use crate::game::{
    any_line_won, board_full, empty_game, place_spec, winner_spec, GameState, GameView,
};
use crate::geometry::{
    board_origin_spec, lemma_mul_div_lt, lemma_scale_in_range, scale, Viewport,
};
use vstd::prelude::*;

verus! {

/// A remembered pointer position, in viewport pixels.
#[derive(Clone, Copy, PartialEq, Eq, Structural, Debug)]
pub struct Point {
    pub x: u32,
    pub y: u32,
}

/// Everything the host mutates through the entry points: the game, the
/// viewport size, and the last pointer position (a debug aid that is rescaled
/// on resize so a marker keeps pointing at the same relative location).
pub struct AppState {
    pub game: GameState,
    pub viewport: Viewport,
    pub last_click: Option<Point>,
}

/// The mathematical model of an [`AppState`].
#[verifier::ext_equal]
pub struct AppView {
    pub game: GameView,
    pub viewport: Viewport,
    pub last_click: Option<Point>,
}

impl View for AppState {
    type V = AppView;

    open spec fn view(&self) -> AppView {
        AppView { game: self.game@, viewport: self.viewport, last_click: self.last_click }
    }
}

/// A model is well formed when the board holds nine cells and the remembered
/// pointer position lies inside the viewport.
pub open spec fn view_wf(v: AppView) -> bool {
    &&& v.game.cells.len() == 9
    &&& (v.last_click matches Some(p) ==> p.x <= v.viewport.width && p.y <= v.viewport.height)
}

/// The column a click at horizontal position `x` lands in.
pub open spec fn click_col(v: AppView, x: int) -> int {
    x * 3 / (v.viewport.width as int)
}

/// The row a click at vertical position `y` lands in.
pub open spec fn click_row(v: AppView, y: int) -> int {
    (y - board_origin_spec(v.viewport)) * 3 / (v.viewport.width as int)
}

/// The linear cell index a click at `(x, y)` resolves to.
pub open spec fn click_index(v: AppView, x: int, y: int) -> int {
    click_row(v, y) * 3 + click_col(v, x)
}

/// The state after a pointer click at `(x, y)`: the position is always
/// recorded; a click after a win or draw starts a new game; a click above the
/// board is otherwise ignored; any other click places the current player's
/// mark in the cell it resolves to (a no-op if that cell is occupied).
pub open spec fn click_spec(v: AppView, x: u32, y: u32) -> AppView {
    let recorded = AppView { last_click: Some(Point { x, y }), ..v };
    if winner_spec(v.game.cells) is Some || board_full(v.game.cells) {
        AppView { game: empty_game(), ..recorded }
    } else if y < board_origin_spec(v.viewport) {
        recorded
    } else {
        AppView {
            game: place_spec(v.game, v.game.player, click_index(v, x as int, y as int)),
            ..recorded
        }
    }
}

/// One axis of the resize rescaling: proportional whole-pixel interpolation
/// from the old extent to the new one; with a zero-sized old extent there is
/// nothing to rescale and the coordinate is kept.
pub open spec fn rescaled_axis(p: int, old_extent: int, new_extent: int) -> int {
    if old_extent > 0 {
        p * new_extent / old_extent
    } else {
        p
    }
}

/// The state after the host reports a new viewport size: a remembered pointer
/// position is rescaled proportionally on both axes, and the stored viewport
/// is overwritten.
pub open spec fn resize_spec(v: AppView, width: u32, height: u32) -> AppView {
    AppView {
        game: v.game,
        viewport: Viewport { width, height },
        last_click: match v.last_click {
            Some(p) => Some(
                Point {
                    x: rescaled_axis(p.x as int, v.viewport.width as int, width as int) as u32,
                    y: rescaled_axis(p.y as int, v.viewport.height as int, height as int) as u32,
                },
            ),
            None => None,
        },
    }
}

impl AppState {
    /// A state is well formed when its model is.
    pub open spec fn wf(&self) -> bool {
        view_wf(self@)
    }

    /// The state at process start: fresh game, zero-sized viewport (the host
    /// must report the real size before the first frame), no click yet.
    pub fn new() -> (r: AppState)
        ensures
            r@.game == empty_game(),
            r@.viewport == (Viewport { width: 0, height: 0 }),
            r@.last_click is None,
            r.wf(),
    {
        AppState {
            game: GameState::new(),
            viewport: Viewport { width: 0, height: 0 },
            last_click: None,
        }
    }

    /// Resolves a pointer click: records the position, starts a new game if
    /// the current one is decided, ignores clicks above the board, and
    /// otherwise places the current player's mark in the clicked cell.
    ///
    /// The host must deliver coordinates inside a positive, portrait-or-square
    /// viewport; out-of-range input is a precondition violation, not a
    /// handled error.
    pub fn handle_click(&mut self, x: u32, y: u32)
        requires
            old(self).wf(),
            0 < old(self).viewport.width <= old(self).viewport.height,
            x < old(self).viewport.width,
            y < old(self).viewport.height,
        ensures
            final(self)@ == click_spec(old(self)@, x, y),
            final(self).wf(),
    {
        self.last_click = Some(Point { x, y });
        if self.game.get_winner().is_some() || self.game.is_draw() {
            self.game.reset();
            return;
        }
        let start_y = self.viewport.height - self.viewport.width;
        if y < start_y {
            return;
        }
        let col = ((x as u64) * 3 / (self.viewport.width as u64)) as usize;
        let row = (((y - start_y) as u64) * 3 / (self.viewport.width as u64)) as usize;
        proof {
            lemma_mul_div_lt(x as int, 3, self.viewport.width as int);
            lemma_mul_div_lt((y - start_y) as int, 3, self.viewport.width as int);
        }
        let index = row * 3 + col;
        let mark = self.game.current_player;
        self.game.place(mark, index);
    }

    /// Adopts a new viewport size, first rescaling any remembered pointer
    /// position proportionally so a debug marker keeps pointing at the same
    /// relative location; a zero-sized old axis is left unrescaled.
    pub fn set_size(&mut self, width: u32, height: u32)
        requires
            old(self).wf(),
        ensures
            final(self)@ == resize_spec(old(self)@, width, height),
            final(self).wf(),
    {
        if let Some(p) = self.last_click {
            let nx = if self.viewport.width > 0 {
                scale(p.x, 0, self.viewport.width, 0, width)
            } else {
                p.x
            };
            let ny = if self.viewport.height > 0 {
                scale(p.y, 0, self.viewport.height, 0, height)
            } else {
                p.y
            };
            self.last_click = Some(Point { x: nx, y: ny });
        }
        self.viewport = Viewport { width, height };
    }
}

/// Clicking an occupied cell of a game still in progress changes neither the
/// board nor the turn, so repeated clicks on that cell leave them untouched.
pub proof fn lemma_occupied_click_idempotent(v: AppView, x: u32, y: u32)
    requires
        view_wf(v),
        0 < v.viewport.width <= v.viewport.height,
        x < v.viewport.width,
        y < v.viewport.height,
        !any_line_won(v.game.cells),
        !board_full(v.game.cells),
        board_origin_spec(v.viewport) <= y,
        v.game.cells[click_index(v, x as int, y as int)] is Some,
    ensures
        click_spec(v, x, y).game == v.game,
        click_spec(click_spec(v, x, y), x, y).game == v.game,
{
    crate::game::lemma_winner_characterization(v.game.cells);
    let v1 = click_spec(v, x, y);
    assert(v1.game == v.game);
    assert(click_index(v1, x as int, y as int) == click_index(v, x as int, y as int));
}

/// Once the outcome is a win or a draw, a click anywhere starts a new game
/// instead of placing a mark, and the click is still recorded.
pub proof fn lemma_click_after_outcome_resets(v: AppView, x: u32, y: u32)
    requires
        !(crate::game::outcome_spec(v.game) is InProgress),
    ensures
        click_spec(v, x, y).game == empty_game(),
        click_spec(v, x, y).last_click == Some(Point { x, y }),
        click_spec(v, x, y).viewport == v.viewport,
{
}

/// After a resize from a positive viewport `(w0, h0)` to `(w1, h1)`, a
/// remembered pointer position `(px, py)` becomes exactly
/// `(px * w1 / w0, py * h1 / h0)` in whole-pixel division.
pub proof fn lemma_resize_rescales_click(v: AppView, width: u32, height: u32)
    requires
        view_wf(v),
        v.viewport.width > 0,
        v.viewport.height > 0,
    ensures
        (v.last_click matches Some(p) ==> (resize_spec(v, width, height).last_click matches Some(q)
            && q.x == p.x * width / (v.viewport.width as int)
            && q.y == p.y * height / (v.viewport.height as int))),
        resize_spec(v, width, height).viewport == (Viewport { width, height }),
        resize_spec(v, width, height).game == v.game,
{
    if let Some(p) = v.last_click {
        lemma_scale_in_range(p.x as int, 0, v.viewport.width as int, 0, width as int);
        lemma_scale_in_range(p.y as int, 0, v.viewport.height as int, 0, height as int);
    }
}

} // verus!
