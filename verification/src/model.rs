//! The game-rules engine: players, positions, the board, lines, and the
//! `Game` state machine with its `play` and `result` operations.

use vstd::prelude::*;

verus! {

/// Side length of the square board.
pub const BOARD_SIZE: usize = 3;

/// One of the two participants.
#[derive(Copy, Clone, PartialEq, Eq, Structural, Debug)]
pub enum Player {
    P1,
    P2,
}

/// Terminal classification of a finished game.
#[derive(Copy, Clone, PartialEq, Eq, Structural, Debug)]
pub enum GameResult {
    P1Wins,
    P2Wins,
    Draw,
}

impl Player {
    /// The opposite player.
    pub open spec fn spec_other(self) -> Player {
        match self {
            Player::P1 => Player::P2,
            Player::P2 => Player::P1,
        }
    }

    /// Returns the opposite player.
    pub fn other(self) -> (r: Player)
        ensures
            r == self.spec_other(),
    {
        match self {
            Player::P1 => Player::P2,
            Player::P2 => Player::P1,
        }
    }

    /// The outcome in which this player wins.
    pub open spec fn spec_win_result(self) -> GameResult {
        match self {
            Player::P1 => GameResult::P1Wins,
            Player::P2 => GameResult::P2Wins,
        }
    }

    /// Returns the outcome in which this player wins.
    pub fn win_result(self) -> (r: GameResult)
        ensures
            r == self.spec_win_result(),
    {
        match self {
            Player::P1 => GameResult::P1Wins,
            Player::P2 => GameResult::P2Wins,
        }
    }
}

impl GameResult {
    /// The winning player of a win outcome, and `None` for a draw.
    pub open spec fn spec_win_player(self) -> Option<Player> {
        match self {
            GameResult::P1Wins => Some(Player::P1),
            GameResult::P2Wins => Some(Player::P2),
            GameResult::Draw => None,
        }
    }

    /// Returns the winning player of a win outcome, and `None` for a draw.
    pub fn win_player(self) -> (r: Option<Player>)
        ensures
            r == self.spec_win_player(),
    {
        match self {
            GameResult::P1Wins => Some(Player::P1),
            GameResult::P2Wins => Some(Player::P2),
            GameResult::Draw => None,
        }
    }
}

/// Error returned when a coordinate pair lies outside the board.
#[derive(Copy, Clone, PartialEq, Eq, Structural, Debug)]
pub struct OutOfRange {
    pub row: usize,
    pub column: usize,
    pub board_size: usize,
}

/// A validated (row, column) coordinate; only `Position::new` produces one,
/// so every `Position` value satisfies `wf`.
#[derive(Copy, Clone, Debug)]
pub struct Position {
    row: usize,
    column: usize,
}

impl Position {
    /// The row coordinate.
    pub closed spec fn spec_row(self) -> int {
        self.row as int
    }

    /// The column coordinate.
    pub closed spec fn spec_column(self) -> int {
        self.column as int
    }

    /// Both coordinates lie on the board.
    pub open spec fn wf(self) -> bool {
        0 <= self.spec_row() < BOARD_SIZE && 0 <= self.spec_column() < BOARD_SIZE
    }

    /// Validating constructor: succeeds exactly when both coordinates are
    /// in range, and otherwise reports them together with the board size.
    pub fn new(row: usize, column: usize) -> (r: Result<Position, OutOfRange>)
        ensures
            r is Ok <==> (row < BOARD_SIZE && column < BOARD_SIZE),
            r matches Ok(p) ==> p.wf() && p.spec_row() == row && p.spec_column() == column,
            r matches Err(e) ==> e == (OutOfRange { row, column, board_size: BOARD_SIZE }),
    {
        if row >= BOARD_SIZE || column >= BOARD_SIZE {
            Err(OutOfRange { row, column, board_size: BOARD_SIZE })
        } else {
            Ok(Position { row, column })
        }
    }

    /// The row coordinate, unchanged from construction.
    pub fn row(&self) -> (r: usize)
        ensures
            r == self.spec_row(),
    {
        self.row
    }

    /// The column coordinate, unchanged from construction.
    pub fn column(&self) -> (r: usize)
        ensures
            r == self.spec_column(),
    {
        self.column
    }
}

/// The cell of a row-major board at the given coordinates.
pub open spec fn cell_at(b: Seq<Option<Player>>, r: int, c: int) -> Option<Player> {
    b[r * (BOARD_SIZE as int) + c]
}

/// The index of a position's cell in the row-major board.
pub open spec fn idx_of(pos: Position) -> int {
    pos.spec_row() * (BOARD_SIZE as int) + pos.spec_column()
}

/// The cells of a row, in column order.
pub open spec fn row_seq(b: Seq<Option<Player>>, r: int) -> Seq<Option<Player>> {
    Seq::new(BOARD_SIZE as nat, |c: int| cell_at(b, r, c))
}

/// The cells of a column, in row order.
pub open spec fn col_seq(b: Seq<Option<Player>>, c: int) -> Seq<Option<Player>> {
    Seq::new(BOARD_SIZE as nat, |r: int| cell_at(b, r, c))
}

/// The cells of the main diagonal (row equals column).
pub open spec fn diag_seq(b: Seq<Option<Player>>) -> Seq<Option<Player>> {
    Seq::new(BOARD_SIZE as nat, |i: int| cell_at(b, i, i))
}

/// The cells of the anti-diagonal (row plus column equals the last index).
pub open spec fn anti_seq(b: Seq<Option<Player>>) -> Seq<Option<Player>> {
    Seq::new(BOARD_SIZE as nat, |i: int| cell_at(b, i, BOARD_SIZE - 1 - i))
}

/// The occupant shared by every cell of a full line, if any: `Some(p)`
/// exactly when all `BOARD_SIZE` cells are occupied by the same player `p`.
pub open spec fn uniform_occupant(cells: Seq<Option<Player>>) -> Option<Player> {
    if cells.len() == BOARD_SIZE && cells[0] is Some && (forall|i: int|
        0 <= i < cells.len() ==> #[trigger] cells[i] == cells[0]) {
        cells[0]
    } else {
        None
    }
}

/// A length-`BOARD_SIZE` slice of the board: a row, column, or diagonal.
pub struct Line {
    cells: Vec<Option<Player>>,
}

impl View for Line {
    type V = Seq<Option<Player>>;

    closed spec fn view(&self) -> Seq<Option<Player>> {
        self.cells@
    }
}

impl Line {
    /// The line holds exactly `BOARD_SIZE` cells.
    pub open spec fn wf(self) -> bool {
        self@.len() == BOARD_SIZE
    }

    /// Wraps a vector of exactly `BOARD_SIZE` cells as a line.
    pub fn new_from_vec(line: Vec<Option<Player>>) -> (l: Line)
        requires
            line@.len() == BOARD_SIZE,
        ensures
            l.wf(),
            l@ == line@,
    {
        Line { cells: line }
    }

    /// Returns `Some(p)` exactly when all cells of the line are occupied by
    /// the same player `p`, and `None` otherwise (any empty cell, or two
    /// different players present).
    pub fn all_same_player(&self) -> (r: Option<Player>)
        requires
            self.wf(),
        ensures
            r == uniform_occupant(self@),
    {
        let c0 = self.cells[0];
        if cell_eq(self.cells[1], c0) && cell_eq(self.cells[2], c0) {
            c0
        } else {
            None
        }
    }
}

/// Equality of two cells, decided by exhaustive case analysis.
fn cell_eq(a: Option<Player>, b: Option<Player>) -> (r: bool)
    ensures
        r == (a == b),
{
    match (a, b) {
        (None, None) => true,
        (Some(x), Some(y)) => x == y,
        _ => false,
    }
}

/// The square grid of cells, stored row-major.
pub struct Board {
    cells: Vec<Option<Player>>,
}

impl View for Board {
    type V = Seq<Option<Player>>;

    closed spec fn view(&self) -> Seq<Option<Player>> {
        self.cells@
    }
}

/// The board holds exactly `BOARD_SIZE * BOARD_SIZE` cells.
pub open spec fn board_wf(b: Seq<Option<Player>>) -> bool {
    b.len() == BOARD_SIZE * BOARD_SIZE
}

/// Every cell of the board is occupied.
pub open spec fn board_full(b: Seq<Option<Player>>) -> bool {
    forall|i: int| 0 <= i < b.len() ==> b[i] is Some
}

impl Board {
    /// The board holds exactly `BOARD_SIZE * BOARD_SIZE` cells.
    pub open spec fn wf(&self) -> bool {
        board_wf(self@)
    }

    /// Returns an entirely empty board.
    pub fn new() -> (b: Board)
        ensures
            b.wf(),
            forall|i: int| 0 <= i < b@.len() ==> b@[i] is None,
    {
        let mut cells: Vec<Option<Player>> = Vec::new();
        let mut i: usize = 0;
        while i < BOARD_SIZE * BOARD_SIZE
            invariant
                i <= BOARD_SIZE * BOARD_SIZE,
                cells@.len() == i,
                forall|j: int| 0 <= j < i ==> cells@[j] is None,
            decreases BOARD_SIZE * BOARD_SIZE - i,
        {
            cells.push(None);
            i = i + 1;
        }
        Board { cells }
    }

    /// Reads the cell at the given coordinates.
    fn get_rc(&self, r: usize, c: usize) -> (cell: Option<Player>)
        requires
            self.wf(),
            r < BOARD_SIZE,
            c < BOARD_SIZE,
        ensures
            cell == cell_at(self@, r as int, c as int),
    {
        self.cells[r * BOARD_SIZE + c]
    }

    /// Reads the cell at a validated position.
    pub fn get(&self, pos: Position) -> (cell: Option<Player>)
        requires
            self.wf(),
            pos.wf(),
        ensures
            cell == self@[idx_of(pos)],
    {
        self.get_rc(pos.row(), pos.column())
    }

    /// Writes the given player's mark into an empty cell.
    pub fn set(&mut self, pos: Position, player: Player)
        requires
            old(self).wf(),
            pos.wf(),
            old(self)@[idx_of(pos)] is None,
        ensures
            final(self)@ == old(self)@.update(idx_of(pos), Some(player)),
            final(self).wf(),
    {
        let i: usize = pos.row() * BOARD_SIZE + pos.column();
        self.cells[i] = Some(player);
    }

    /// Whether every cell of the board is occupied.
    pub fn is_full(&self) -> (r: bool)
        requires
            self.wf(),
        ensures
            r == board_full(self@),
    {
        let mut i: usize = 0;
        while i < BOARD_SIZE * BOARD_SIZE
            invariant
                self.wf(),
                i <= BOARD_SIZE * BOARD_SIZE,
                forall|j: int| 0 <= j < i ==> self@[j] is Some,
            decreases BOARD_SIZE * BOARD_SIZE - i,
        {
            if matches!(self.cells[i], None) {
                return false;
            }
            i = i + 1;
        }
        true
    }

    /// Builds the line of one row.
    fn row_line(&self, r: usize) -> (l: Line)
        requires
            self.wf(),
            r < BOARD_SIZE,
        ensures
            l.wf(),
            l@ == row_seq(self@, r as int),
    {
        let mut cells: Vec<Option<Player>> = Vec::new();
        cells.push(self.get_rc(r, 0));
        cells.push(self.get_rc(r, 1));
        cells.push(self.get_rc(r, 2));
        proof {
            assert(cells@ =~= row_seq(self@, r as int));
        }
        Line::new_from_vec(cells)
    }

    /// Builds the line of one column.
    fn col_line(&self, c: usize) -> (l: Line)
        requires
            self.wf(),
            c < BOARD_SIZE,
        ensures
            l.wf(),
            l@ == col_seq(self@, c as int),
    {
        let mut cells: Vec<Option<Player>> = Vec::new();
        cells.push(self.get_rc(0, c));
        cells.push(self.get_rc(1, c));
        cells.push(self.get_rc(2, c));
        proof {
            assert(cells@ =~= col_seq(self@, c as int));
        }
        Line::new_from_vec(cells)
    }

    /// Builds the line of the main diagonal.
    fn diag_line(&self) -> (l: Line)
        requires
            self.wf(),
        ensures
            l.wf(),
            l@ == diag_seq(self@),
    {
        let mut cells: Vec<Option<Player>> = Vec::new();
        cells.push(self.get_rc(0, 0));
        cells.push(self.get_rc(1, 1));
        cells.push(self.get_rc(2, 2));
        proof {
            assert(cells@ =~= diag_seq(self@));
        }
        Line::new_from_vec(cells)
    }

    /// Builds the line of the anti-diagonal.
    fn anti_line(&self) -> (l: Line)
        requires
            self.wf(),
        ensures
            l.wf(),
            l@ == anti_seq(self@),
    {
        let mut cells: Vec<Option<Player>> = Vec::new();
        cells.push(self.get_rc(0, 2));
        cells.push(self.get_rc(1, 1));
        cells.push(self.get_rc(2, 0));
        proof {
            assert(cells@ =~= anti_seq(self@));
        }
        Line::new_from_vec(cells)
    }

    /// Returns the four lines through a position: its row, its column, and
    /// both diagonals. The diagonals are included regardless of whether the
    /// position lies on them; an off-diagonal last move leaves them mixed,
    /// so they contribute nothing to win detection.
    pub fn lines_of_pos(&self, pos: Position) -> (lines: (Line, Line, Line, Line))
        requires
            self.wf(),
            pos.wf(),
        ensures
            lines.0.wf() && lines.0@ == row_seq(self@, pos.spec_row()),
            lines.1.wf() && lines.1@ == col_seq(self@, pos.spec_column()),
            lines.2.wf() && lines.2@ == diag_seq(self@),
            lines.3.wf() && lines.3@ == anti_seq(self@),
    {
        (self.row_line(pos.row()), self.col_line(pos.column()), self.diag_line(), self.anti_line())
    }
}

/// Mathematical state of a game: the board's cells and the player to move.
#[verifier::ext_equal]
pub struct GameView {
    pub cells: Seq<Option<Player>>,
    pub turn: Player,
}

/// The game state's board has the right size.
pub open spec fn gv_wf(g: GameView) -> bool {
    board_wf(g.cells)
}

/// The starting state: an empty board, with the first player to move.
pub open spec fn initial_game() -> GameView {
    GameView {
        cells: Seq::new((BOARD_SIZE * BOARD_SIZE) as nat, |i: int| None::<Player>),
        turn: Player::P1,
    }
}

/// A move is allowed when its position is on the board and its cell empty.
pub open spec fn play_allowed(g: GameView, pos: Position) -> bool {
    pos.wf() && g.cells[idx_of(pos)] is None
}

/// The state after attempting a move: an allowed move marks the cell with
/// the turn player and passes the turn; a disallowed one changes nothing.
pub open spec fn play_step(g: GameView, pos: Position) -> GameView {
    if play_allowed(g, pos) {
        GameView { cells: g.cells.update(idx_of(pos), Some(g.turn)), turn: g.turn.spec_other() }
    } else {
        g
    }
}

/// The first occupied of two optional occupants, in argument order.
pub open spec fn first_some(a: Option<Player>, b: Option<Player>) -> Option<Player> {
    if a is Some {
        a
    } else {
        b
    }
}

/// The winner read off the four lines through a position, taking the first
/// uniformly occupied one in the order row, column, diagonal, anti-diagonal.
pub open spec fn winner_through(b: Seq<Option<Player>>, pos: Position) -> Option<Player> {
    first_some(
        first_some(
            first_some(
                uniform_occupant(row_seq(b, pos.spec_row())),
                uniform_occupant(col_seq(b, pos.spec_column())),
            ),
            uniform_occupant(diag_seq(b)),
        ),
        uniform_occupant(anti_seq(b)),
    )
}

/// Classification of the state reached by the most recent move: the win of
/// whoever uniformly occupies a line through that move, else a draw on a
/// full board, else still in progress.
pub open spec fn spec_outcome(g: GameView, pos: Position) -> Option<GameResult> {
    match winner_through(g.cells, pos) {
        Some(p) => Some(p.spec_win_result()),
        None => if board_full(g.cells) {
            Some(GameResult::Draw)
        } else {
            None
        },
    }
}

/// The state machine: a board plus the player whose move is next. Created
/// empty, mutated only through `play`. A play after a terminal outcome is
/// still well-defined and simply continues the machine; callers that want a
/// frozen game must stop calling `play` once `result` returns `Some`.
pub struct Game {
    board: Board,
    turn_player: Player,
}

impl View for Game {
    type V = GameView;

    closed spec fn view(&self) -> GameView {
        GameView { cells: self.board@, turn: self.turn_player }
    }
}

impl Game {
    /// The game state's board has the right size.
    pub open spec fn wf(&self) -> bool {
        gv_wf(self@)
    }

    /// Returns the starting state: an empty board, `P1` to move.
    pub fn new() -> (g: Game)
        ensures
            g.wf(),
            g@ == initial_game(),
    {
        let g = Game { board: Board::new(), turn_player: Player::P1 };
        proof {
            assert(g@.cells =~= initial_game().cells);
        }
        g
    }

    /// Attempts to place the turn player's mark at `position`. On an empty
    /// cell the mark is written, the turn passes to the other player, and
    /// the player who just moved is returned; on an occupied cell nothing
    /// changes and `None` is returned, so the same player retries.
    pub fn play(&mut self, position: Position) -> (r: Option<Player>)
        requires
            old(self).wf(),
            position.wf(),
        ensures
            final(self).wf(),
            final(self)@ == play_step(old(self)@, position),
            r == (if play_allowed(old(self)@, position) {
                Some(old(self)@.turn)
            } else {
                None::<Player>
            }),
    {
        match self.board.get(position) {
            None => {
                let mover = self.turn_player;
                self.board.set(position, mover);
                self.turn_player = mover.other();
                Some(mover)
            },
            Some(_) => None,
        }
    }

    /// Classifies the state given the most recent successful move: the win
    /// of whoever uniformly occupies one of the four lines through it, else
    /// a draw when the board is full, else `None` (game in progress). The
    /// caller must pass the move it just played; an arbitrary position is
    /// well-defined but misses wins completed elsewhere.
    pub fn result(&self, last_move: Position) -> (r: Option<GameResult>)
        requires
            self.wf(),
            last_move.wf(),
        ensures
            r == spec_outcome(self@, last_move),
    {
        let lines = self.board.lines_of_pos(last_move);
        let w_row = lines.0.all_same_player();
        let w_col = lines.1.all_same_player();
        let w_diag = lines.2.all_same_player();
        let w_anti = lines.3.all_same_player();
        let winner = match w_row {
            Some(p) => Some(p),
            None => match w_col {
                Some(p) => Some(p),
                None => match w_diag {
                    Some(p) => Some(p),
                    None => w_anti,
                },
            },
        };
        match winner {
            Some(p) => Some(p.win_result()),
            None => if self.board.is_full() {
                Some(GameResult::Draw)
            } else {
                None
            },
        }
    }

    /// Returns the player whose move is next. Pure observer.
    pub fn turn_player(&self) -> (r: Player)
        ensures
            r == self@.turn,
    {
        self.turn_player
    }
}

} // verus!

