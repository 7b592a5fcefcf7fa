//! The 3x3 board: cell marks, turn alternation, and win/draw evaluation.

use vstd::prelude::*;

verus! {

/// One of the two player symbols placed in a cell.
#[derive(Clone, Copy, PartialEq, Eq, Structural, Debug)]
pub enum CellState {
    X,
    O,
}

/// The mark of the other player.
pub open spec fn opposite(m: CellState) -> CellState {
    match m {
        CellState::X => CellState::O,
        CellState::O => CellState::X,
    }
}

impl CellState {
    /// Replaces the mark by the other player's mark.
    pub fn switch(&mut self)
        ensures
            *final(self) == opposite(*old(self)),
    {
        *self = match *self {
            CellState::X => CellState::O,
            CellState::O => CellState::X,
        };
    }
}

/// The board and whose turn it is. The nine cells are indexed 0-8 in
/// row-major order (index = row * 3 + column).
pub struct GameState {
    pub cells: Vec<Option<CellState>>,
    pub current_player: CellState,
}

/// The mathematical model of a [`GameState`]: the cell sequence and the mark
/// whose turn it is.
#[verifier::ext_equal]
pub struct GameView {
    pub cells: Seq<Option<CellState>>,
    pub player: CellState,
}

impl View for GameState {
    type V = GameView;

    open spec fn view(&self) -> GameView {
        GameView { cells: self.cells@, player: self.current_player }
    }
}

/// The state of a fresh game: nine empty cells, first player to move.
pub open spec fn empty_game() -> GameView {
    GameView { cells: Seq::new(9, |i: int| None), player: CellState::X }
}

/// The cell indices of the `k`-th winning line, in the fixed scan order:
/// three rows, then three columns, then the two diagonals.
pub open spec fn win_line(k: int) -> (usize, usize, usize) {
    if k == 0 {
        (0usize, 1usize, 2usize)
    } else if k == 1 {
        (3usize, 4usize, 5usize)
    } else if k == 2 {
        (6usize, 7usize, 8usize)
    } else if k == 3 {
        (0usize, 3usize, 6usize)
    } else if k == 4 {
        (1usize, 4usize, 7usize)
    } else if k == 5 {
        (2usize, 5usize, 8usize)
    } else if k == 6 {
        (0usize, 4usize, 8usize)
    } else {
        (2usize, 4usize, 6usize)
    }
}

/// Whether all three cells of the `k`-th line hold the same mark.
pub open spec fn line_won(cells: Seq<Option<CellState>>, k: int) -> bool {
    let (a, b, c) = win_line(k);
    &&& cells[a as int] is Some
    &&& cells[a as int] == cells[b as int]
    &&& cells[a as int] == cells[c as int]
}

/// Whether any of the 8 lines is fully occupied by one mark.
pub open spec fn any_line_won(cells: Seq<Option<CellState>>) -> bool {
    exists|k: int| 0 <= k < 8 && line_won(cells, k)
}

/// The mark placed at spec index `i`, defaulting to the first player's mark
/// on an empty cell; meaningful only where the cell is occupied.
pub open spec fn mark_at(cells: Seq<Option<CellState>>, i: int) -> CellState {
    match cells[i] {
        Some(m) => m,
        None => CellState::X,
    }
}

/// Scans lines `k..8` in order and returns the first fully-occupied one as
/// (mark, first cell index, last cell index).
pub open spec fn scan_winner(cells: Seq<Option<CellState>>, k: int) -> Option<
    (CellState, usize, usize),
>
    decreases 8 - k,
{
    if k < 0 || k >= 8 {
        None
    } else if line_won(cells, k) {
        let (a, b, c) = win_line(k);
        Some((mark_at(cells, a as int), a, c))
    } else {
        scan_winner(cells, k + 1)
    }
}

/// The first winning line of the board, if any, in the fixed scan order.
pub open spec fn winner_spec(cells: Seq<Option<CellState>>) -> Option<(CellState, usize, usize)> {
    scan_winner(cells, 0)
}

/// Whether all nine cells are occupied.
pub open spec fn board_full(cells: Seq<Option<CellState>>) -> bool {
    forall|i: int| 0 <= i < 9 ==> cells[i] is Some
}

/// The derived game result.
#[derive(Clone, Copy, PartialEq, Eq, Structural, Debug)]
pub enum Outcome {
    /// The game goes on: no line is complete and at least one cell is free.
    InProgress,
    /// A mark owns a complete line, given by its first and last cell index.
    Win(CellState, usize, usize),
    /// All nine cells are occupied and no line is complete.
    Draw,
}

/// The outcome of a board: the first winning line if one exists, else a draw
/// on a full board, else still in progress.
pub open spec fn outcome_spec(g: GameView) -> Outcome {
    match winner_spec(g.cells) {
        Some((m, a, c)) => Outcome::Win(m, a, c),
        None => if board_full(g.cells) {
            Outcome::Draw
        } else {
            Outcome::InProgress
        },
    }
}

/// The board after a mark is placed at `index`: on an empty cell the mark is
/// stored and the turn toggles; on an occupied cell nothing changes.
pub open spec fn place_spec(g: GameView, mark: CellState, index: int) -> GameView {
    if g.cells[index] is None {
        GameView { cells: g.cells.update(index, Some(mark)), player: opposite(g.player) }
    } else {
        g
    }
}

proof fn lemma_scan_winner_props(cells: Seq<Option<CellState>>, k: int)
    requires
        0 <= k <= 8,
    ensures
        (scan_winner(cells, k) is Some) <==> (exists|j: int| k <= j < 8 && line_won(cells, j)),
        (scan_winner(cells, k) matches Some((m, a, c)) ==> (exists|j: int|
            {
                &&& k <= j < 8
                &&& line_won(cells, j)
                &&& a == win_line(j).0
                &&& c == win_line(j).2
                &&& cells[a as int] == Some(m)
                &&& forall|i: int| k <= i < j ==> !line_won(cells, i)
            })),
    decreases 8 - k,
{
    if k < 8 {
        if line_won(cells, k) {
            let (a, b, c) = win_line(k);
            assert(k <= k < 8 && line_won(cells, k));
        } else {
            lemma_scan_winner_props(cells, k + 1);
            if let Some((m, a, c)) = scan_winner(cells, k + 1) {
                let j = choose|j: int|
                    {
                        &&& k + 1 <= j < 8
                        &&& line_won(cells, j)
                        &&& a == win_line(j).0
                        &&& c == win_line(j).2
                        &&& cells[a as int] == Some(m)
                        &&& forall|i: int| k + 1 <= i < j ==> !line_won(cells, i)
                    };
                assert(forall|i: int| k <= i < j ==> !line_won(cells, i));
            }
        }
    }
}

/// The win scan reports a winner exactly when one of the 8 fixed lines is
/// fully occupied by one mark, and reports the first such line in scan order
/// (rows, then columns, then diagonals).
pub proof fn lemma_winner_characterization(cells: Seq<Option<CellState>>)
    ensures
        (winner_spec(cells) is Some) <==> any_line_won(cells),
        (winner_spec(cells) matches Some((m, a, c)) ==> (exists|j: int|
            {
                &&& 0 <= j < 8
                &&& line_won(cells, j)
                &&& a == win_line(j).0
                &&& c == win_line(j).2
                &&& cells[a as int] == Some(m)
                &&& forall|i: int| 0 <= i < j ==> !line_won(cells, i)
            })),
        winner_spec(cells) is None ==> (forall|k: int| 0 <= k < 8 ==> !line_won(cells, k)),
{
    lemma_scan_winner_props(cells, 0);
}

fn winning_line(k: usize) -> (r: (usize, usize, usize))
    requires
        k < 8,
    ensures
        r == win_line(k as int),
        r.0 < 9,
        r.1 < 9,
        r.2 < 9,
{
    match k {
        0 => (0, 1, 2),
        1 => (3, 4, 5),
        2 => (6, 7, 8),
        3 => (0, 3, 6),
        4 => (1, 4, 7),
        5 => (2, 5, 8),
        6 => (0, 4, 8),
        _ => (2, 4, 6),
    }
}

impl GameState {
    /// A game state models a board when it holds exactly nine cells.
    pub open spec fn wf(&self) -> bool {
        self.cells@.len() == 9
    }

    /// A fresh game: empty board, first player to move.
    pub fn new() -> (r: GameState)
        ensures
            r@ == empty_game(),
            r.wf(),
    {
        let mut cells: Vec<Option<CellState>> = Vec::new();
        let mut i: usize = 0;
        while i < 9
            invariant
                i <= 9,
                cells@.len() == i,
                forall|j: int| 0 <= j < i ==> cells@[j] is None,
            decreases 9 - i,
        {
            cells.push(None);
            i += 1;
        }
        let r = GameState { cells, current_player: CellState::X };
        proof {
            assert(r@.cells =~= empty_game().cells);
        }
        r
    }

    /// Clears all nine cells and restores the first player's turn, whatever
    /// the prior state was.
    pub fn reset(&mut self)
        ensures
            final(self)@ == empty_game(),
            final(self).wf(),
            forall|i: int| 0 <= i < 9 ==> final(self)@.cells[i] is None,
            final(self)@.player == CellState::X,
    {
        let fresh = GameState::new();
        *self = fresh;
    }

    /// Places `mark` at `index` if that cell is empty and toggles the turn;
    /// a click on an occupied cell is a silent no-op, by design.
    pub fn place(&mut self, mark: CellState, index: usize)
        requires
            old(self).wf(),
            index < 9,
        ensures
            final(self)@ == place_spec(old(self)@, mark, index as int),
            final(self).wf(),
            old(self)@.cells[index as int] is None ==> final(self)@.player == opposite(
                old(self)@.player,
            ),
            old(self)@.cells[index as int] is Some ==> final(self)@ == old(self)@,
    {
        if self.cells[index].is_none() {
            self.cells.set(index, Some(mark));
            self.current_player.switch();
        }
    }

    /// Scans the 8 winning lines in the fixed order and returns the first
    /// complete one as (mark, first cell index, last cell index).
    pub fn get_winner(&self) -> (r: Option<(CellState, usize, usize)>)
        requires
            self.wf(),
        ensures
            r == winner_spec(self@.cells),
            (r is Some) <==> any_line_won(self@.cells),
            (r matches Some((m, a, c)) ==> a < 9 && c < 9),
    {
        proof {
            lemma_winner_characterization(self@.cells);
        }
        let mut k: usize = 0;
        while k < 8
            invariant
                self.wf(),
                k <= 8,
                forall|j: int| 0 <= j < k ==> !line_won(self@.cells, j),
                scan_winner(self@.cells, 0) == scan_winner(self@.cells, k as int),
            decreases 8 - k,
        {
            let (a, b, c) = winning_line(k);
            let ca = self.cells[a];
            let cb = self.cells[b];
            let cc = self.cells[c];
            let hit: Option<CellState> = match (ca, cb, cc) {
                (Some(ma), Some(mb), Some(mc)) => if ma == mb && ma == mc {
                    Some(ma)
                } else {
                    None
                },
                _ => None,
            };
            if let Some(m) = hit {
                assert(line_won(self@.cells, k as int));
                return Some((m, a, c));
            }
            assert(!line_won(self@.cells, k as int));
            k += 1;
        }
        None
    }

    /// Whether all nine cells are occupied, regardless of any winning line.
    pub fn is_draw(&self) -> (r: bool)
        requires
            self.wf(),
        ensures
            r == board_full(self@.cells),
    {
        let mut i: usize = 0;
        while i < 9
            invariant
                self.wf(),
                i <= 9,
                forall|j: int| 0 <= j < i ==> self@.cells[j] is Some,
            decreases 9 - i,
        {
            if self.cells[i].is_none() {
                return false;
            }
            i += 1;
        }
        true
    }

    /// Evaluates the board: the first winning line if one exists, else a
    /// draw when all cells are occupied, else still in progress.
    pub fn evaluate_outcome(&self) -> (r: Outcome)
        requires
            self.wf(),
        ensures
            r == outcome_spec(self@),
            (r is Win) <==> any_line_won(self@.cells),
            (r is Draw) <==> (board_full(self@.cells) && !any_line_won(self@.cells)),
            (r is InProgress) <==> (!board_full(self@.cells) && !any_line_won(self@.cells)),
    {
        proof {
            lemma_winner_characterization(self@.cells);
        }
        match self.get_winner() {
            Some((m, a, c)) => Outcome::Win(m, a, c),
            None => if self.is_draw() {
                Outcome::Draw
            } else {
                Outcome::InProgress
            },
        }
    }
}

} // verus!
