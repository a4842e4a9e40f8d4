//! Game-wide laws of the engine, proved as public proof functions over the
//! mathematical game state and the transition function `play_step`.

use vstd::prelude::*;

verus! {

use crate::model::BOARD_SIZE;
use crate::model::GameResult;
use crate::model::GameView;
use crate::model::Player;
use crate::model::Position;
use crate::model::anti_seq;
use crate::model::board_full;
use crate::model::cell_at;
use crate::model::col_seq;
use crate::model::diag_seq;
use crate::model::gv_wf;
use crate::model::idx_of;
use crate::model::initial_game;
use crate::model::play_allowed;
use crate::model::play_step;
use crate::model::row_seq;
use crate::model::spec_outcome;
use crate::model::uniform_occupant;
use crate::model::winner_through;

/// `other` is an involution: applying it twice returns the starting player.
pub proof fn lemma_other_involutive(p: Player)
    ensures
        p.spec_other().spec_other() == p,
{
}

/// The state after a whole sequence of attempted moves, first move first.
pub open spec fn play_seq(g: GameView, moves: Seq<Position>) -> GameView
    decreases moves.len(),
{
    if moves.len() == 0 {
        g
    } else {
        play_step(play_seq(g, moves.drop_last()), moves.last())
    }
}

/// A game state is reachable when some sequence of attempted moves leads to
/// it from the starting state.
pub open spec fn reachable(g: GameView) -> bool {
    exists|moves: Seq<Position>| g == play_seq(initial_game(), moves)
}

/// The starting state is reachable, by the empty sequence of moves.
pub proof fn lemma_initial_reachable()
    ensures
        reachable(initial_game()),
{
    assert(initial_game() == play_seq(initial_game(), Seq::<Position>::empty()));
}

/// Reachability is closed under attempted moves, so every state a game gets
/// into — created empty and mutated only through plays — is reachable.
pub proof fn lemma_step_preserves_reachable(g: GameView, pos: Position)
    requires
        reachable(g),
    ensures
        reachable(play_step(g, pos)),
{
    let moves = choose|moves: Seq<Position>| g == play_seq(initial_game(), moves);
    let extended = moves.push(pos);
    assert(extended.drop_last() =~= moves);
    assert(play_step(g, pos) == play_seq(initial_game(), extended));
}

/// Every move of the sequence lands on an empty cell of the state it is
/// played in, so none is rejected.
pub open spec fn all_plays_allowed(g: GameView, moves: Seq<Position>) -> bool
    decreases moves.len(),
{
    moves.len() == 0 || (all_plays_allowed(g, moves.drop_last()) && play_allowed(
        play_seq(g, moves.drop_last()),
        moves.last(),
    ))
}

/// Rejection preserves state: a move into an occupied cell (or one off the
/// board) leaves the whole game state unchanged.
pub proof fn lemma_rejection_preserves_state(g: GameView, pos: Position)
    requires
        !play_allowed(g, pos),
    ensures
        play_step(g, pos) == g,
{
}

/// A single attempted move never empties a cell or changes its occupant:
/// whatever occupies a cell before the move still occupies it after.
pub proof fn lemma_step_preserves_occupancy(g: GameView, pos: Position, r: int, c: int, x: Player)
    requires
        gv_wf(g),
        0 <= r < BOARD_SIZE && 0 <= c < BOARD_SIZE,
        cell_at(g.cells, r, c) == Some(x),
    ensures
        cell_at(play_step(g, pos).cells, r, c) == Some(x),
{
}

/// An attempted move keeps the board's size.
pub proof fn lemma_step_preserves_wf(g: GameView, pos: Position)
    requires
        gv_wf(g),
    ensures
        gv_wf(play_step(g, pos)),
{
}

/// Occupancy is monotone: once a cell is occupied by a player, it is still
/// occupied by that player after any further sequence of attempted moves.
pub proof fn lemma_occupancy_monotone(
    g: GameView,
    moves: Seq<Position>,
    r: int,
    c: int,
    x: Player,
)
    requires
        gv_wf(g),
        0 <= r < BOARD_SIZE && 0 <= c < BOARD_SIZE,
        cell_at(g.cells, r, c) == Some(x),
    ensures
        gv_wf(play_seq(g, moves)),
        cell_at(play_seq(g, moves).cells, r, c) == Some(x),
    decreases moves.len(),
{
    if moves.len() > 0 {
        lemma_occupancy_monotone(g, moves.drop_last(), r, c, x);
        lemma_step_preserves_occupancy(play_seq(g, moves.drop_last()), moves.last(), r, c, x);
        lemma_step_preserves_wf(play_seq(g, moves.drop_last()), moves.last());
    }
}

/// The number of cells occupied by a player.
pub open spec fn count_player(cells: Seq<Option<Player>>, p: Player) -> int
    decreases cells.len(),
{
    if cells.len() == 0 {
        0
    } else {
        count_player(cells.drop_last(), p) + (if cells.last() == Some(p) {
            1int
        } else {
            0int
        })
    }
}

/// Updating one cell moves a player's count by the difference between the
/// new and old contribution of that cell.
pub proof fn lemma_count_update(cells: Seq<Option<Player>>, j: int, v: Option<Player>, p: Player)
    requires
        0 <= j < cells.len(),
    ensures
        count_player(cells.update(j, v), p) == count_player(cells, p) - (if cells[j] == Some(p) {
            1int
        } else {
            0int
        }) + (if v == Some(p) {
            1int
        } else {
            0int
        }),
    decreases cells.len(),
{
    let upd = cells.update(j, v);
    if j == cells.len() - 1 {
        assert(upd.drop_last() =~= cells.drop_last());
    } else {
        assert(upd.drop_last() =~= cells.drop_last().update(j, v));
        lemma_count_update(cells.drop_last(), j, v, p);
    }
}

/// An entirely empty board has zero cells for every player.
pub proof fn lemma_count_all_none(cells: Seq<Option<Player>>, p: Player)
    requires
        forall|i: int| 0 <= i < cells.len() ==> cells[i] is None,
    ensures
        count_player(cells, p) == 0,
    decreases cells.len(),
{
    if cells.len() > 0 {
        lemma_count_all_none(cells.drop_last(), p);
    }
}

/// Move-count invariant: the first player's cell count equals the second
/// player's when the first is to move, and exceeds it by exactly one when
/// the second is to move.
pub open spec fn balanced(g: GameView) -> bool {
    count_player(g.cells, Player::P1) - count_player(g.cells, Player::P2) == (if g.turn
        == Player::P2 {
        1int
    } else {
        0int
    })
}

/// The starting state is balanced.
pub proof fn lemma_initial_balanced()
    ensures
        balanced(initial_game()),
{
    lemma_count_all_none(initial_game().cells, Player::P1);
    lemma_count_all_none(initial_game().cells, Player::P2);
}

/// One attempted move preserves balance.
pub proof fn lemma_step_preserves_balanced(g: GameView, pos: Position)
    requires
        gv_wf(g),
        balanced(g),
    ensures
        balanced(play_step(g, pos)),
{
    if play_allowed(g, pos) {
        lemma_count_update(g.cells, idx_of(pos), Some(g.turn), Player::P1);
        lemma_count_update(g.cells, idx_of(pos), Some(g.turn), Player::P2);
    }
}

/// Every reachable game state is well-formed and balanced: the difference
/// between the players' cell counts is 0 or 1, and it is 1 exactly when the
/// second player is to move.
pub proof fn lemma_reachable_balanced(g: GameView)
    requires
        reachable(g),
    ensures
        gv_wf(g),
        balanced(g),
{
    let moves = choose|moves: Seq<Position>| g == play_seq(initial_game(), moves);
    lemma_initial_balanced();
    lemma_play_seq_preserves_balanced(initial_game(), moves);
}

/// A whole sequence of attempted moves preserves well-formedness and balance.
pub proof fn lemma_play_seq_preserves_balanced(g: GameView, moves: Seq<Position>)
    requires
        gv_wf(g),
        balanced(g),
    ensures
        gv_wf(play_seq(g, moves)),
        balanced(play_seq(g, moves)),
    decreases moves.len(),
{
    if moves.len() > 0 {
        lemma_play_seq_preserves_balanced(g, moves.drop_last());
        lemma_step_preserves_wf(play_seq(g, moves.drop_last()), moves.last());
        lemma_step_preserves_balanced(play_seq(g, moves.drop_last()), moves.last());
    }
}

/// A prefix of a sequence of allowed moves is itself a sequence of allowed
/// moves.
pub proof fn lemma_all_allowed_take(g: GameView, moves: Seq<Position>, i: int)
    requires
        all_plays_allowed(g, moves),
        0 <= i <= moves.len(),
    ensures
        all_plays_allowed(g, moves.take(i)),
    decreases moves.len(),
{
    if i == moves.len() {
        assert(moves.take(i) =~= moves);
    } else {
        assert(moves.drop_last().take(i) =~= moves.take(i));
        lemma_all_allowed_take(g, moves.drop_last(), i);
    }
}

/// After an even number of allowed moves the starting player is to move
/// again; after an odd number, the other player is.
pub proof fn lemma_turn_after_allowed_prefix(g: GameView, moves: Seq<Position>, i: int)
    requires
        all_plays_allowed(g, moves),
        0 <= i <= moves.len(),
    ensures
        play_seq(g, moves.take(i)).turn == (if i % 2 == 0 {
            g.turn
        } else {
            g.turn.spec_other()
        }),
    decreases i,
{
    if i > 0 {
        let s = moves.take(i);
        assert(s.drop_last() =~= moves.take(i - 1));
        assert(s.last() == moves[i - 1]);
        lemma_turn_after_allowed_prefix(g, moves, i - 1);
        lemma_all_allowed_take(g, moves, i);
    }
}

/// Turn alternation: in a game from the start in which no move is rejected,
/// the players who move are, in order, P1, P2, P1, P2, ... — the mover of
/// each move being the turn player of the state it is played in.
pub proof fn lemma_turn_alternation(moves: Seq<Position>, i: int)
    requires
        all_plays_allowed(initial_game(), moves),
        0 <= i < moves.len(),
    ensures
        play_seq(initial_game(), moves.take(i)).turn == (if i % 2 == 0 {
            Player::P1
        } else {
            Player::P2
        }),
{
    lemma_turn_after_allowed_prefix(initial_game(), moves, i);
}

/// A line that has any empty cell has no uniform occupant.
pub proof fn lemma_empty_cell_not_uniform(line: Seq<Option<Player>>, i: int)
    requires
        0 <= i < line.len(),
        line[i] is None,
    ensures
        uniform_occupant(line) is None,
{
}

/// Every cell of a full-length line is occupied by the given player.
pub open spec fn all_occupied_by(line: Seq<Option<Player>>, p: Player) -> bool {
    line.len() == BOARD_SIZE && (forall|i: int|
        0 <= i < line.len() ==> #[trigger] line[i] == Some(p))
}

/// A line's uniform occupant is a player exactly when every cell of the
/// line is occupied by that player.
pub proof fn lemma_uniform_iff_all_occupied(line: Seq<Option<Player>>, p: Player)
    ensures
        uniform_occupant(line) == Some(p) <==> all_occupied_by(line, p),
{
}

/// Some line through the position — its row, its column, or a diagonal —
/// has all of its cells occupied by the given player.
pub open spec fn wins_through(b: Seq<Option<Player>>, pos: Position, p: Player) -> bool {
    ||| all_occupied_by(row_seq(b, pos.spec_row()), p)
    ||| all_occupied_by(col_seq(b, pos.spec_column()), p)
    ||| all_occupied_by(diag_seq(b), p)
    ||| all_occupied_by(anti_seq(b), p)
}

/// Terminal correctness: the outcome read at a position is a player's win
/// exactly when some line through that position is entirely occupied by
/// that player. Stated for boards where at most one player has such a line:
/// with both diagonals always examined, a board may place full lines of two
/// different players through one position, and the tie-break then reports
/// only the first.
pub proof fn lemma_terminal_correctness(g: GameView, pos: Position, p: Player)
    requires
        forall|q1: Player, q2: Player|
            wins_through(g.cells, pos, q1) && wins_through(g.cells, pos, q2) ==> q1 == q2,
    ensures
        spec_outcome(g, pos) == Some(p.spec_win_result()) <==> wins_through(g.cells, pos, p),
{
    let b = g.cells;
    assert forall|q: Player| #[trigger]
        uniform_occupant(row_seq(b, pos.spec_row())) == Some(q) <==> all_occupied_by(
        row_seq(b, pos.spec_row()),
        q,
    ) by {
        lemma_uniform_iff_all_occupied(row_seq(b, pos.spec_row()), q);
    }
    assert forall|q: Player| #[trigger]
        uniform_occupant(col_seq(b, pos.spec_column())) == Some(q) <==> all_occupied_by(
        col_seq(b, pos.spec_column()),
        q,
    ) by {
        lemma_uniform_iff_all_occupied(col_seq(b, pos.spec_column()), q);
    }
    assert forall|q: Player| #[trigger] uniform_occupant(diag_seq(b)) == Some(q) <==> all_occupied_by(
        diag_seq(b),
        q,
    ) by {
        lemma_uniform_iff_all_occupied(diag_seq(b), q);
    }
    assert forall|q: Player| #[trigger] uniform_occupant(anti_seq(b)) == Some(q) <==> all_occupied_by(
        anti_seq(b),
        q,
    ) by {
        lemma_uniform_iff_all_occupied(anti_seq(b), q);
    }
    match winner_through(b, pos) {
        Some(q) => {
            assert(wins_through(b, pos, q));
            if wins_through(b, pos, p) {
                assert(q == p);
            }
        },
        None => {
            if wins_through(b, pos, p) {
                assert(uniform_occupant(row_seq(b, pos.spec_row())) == Some(p)
                    || uniform_occupant(col_seq(b, pos.spec_column())) == Some(p)
                    || uniform_occupant(diag_seq(b)) == Some(p) || uniform_occupant(anti_seq(b))
                    == Some(p));
                assert(winner_through(b, pos) is Some);
            }
        },
    }
}

/// Some complete line of the board — any row, any column, or a diagonal —
/// has a uniform occupant.
pub open spec fn any_uniform_line(b: Seq<Option<Player>>) -> bool {
    ||| exists|r: int| 0 <= r < BOARD_SIZE && #[trigger] uniform_occupant(row_seq(b, r)) is Some
    ||| exists|c: int| 0 <= c < BOARD_SIZE && #[trigger] uniform_occupant(col_seq(b, c)) is Some
    ||| uniform_occupant(diag_seq(b)) is Some
    ||| uniform_occupant(anti_seq(b)) is Some
}

/// Draw correctness: a draw outcome is reported only on a fully occupied
/// board with no uniform line anywhere. The outcome examines the four lines
/// through the given position only, so the statement assumes that no other
/// row or column is uniform — as holds when the position is the most recent
/// move of a game that was still in progress before it.
pub proof fn lemma_draw_correctness(g: GameView, pos: Position)
    requires
        pos.wf(),
        forall|r: int|
            (0 <= r < BOARD_SIZE && r != pos.spec_row()) ==> #[trigger] uniform_occupant(
                row_seq(g.cells, r),
            ) is None,
        forall|c: int|
            (0 <= c < BOARD_SIZE && c != pos.spec_column()) ==> #[trigger] uniform_occupant(
                col_seq(g.cells, c),
            ) is None,
    ensures
        spec_outcome(g, pos) == Some(GameResult::Draw) ==> board_full(g.cells) && !any_uniform_line(
            g.cells,
        ),
{
    if spec_outcome(g, pos) == Some(GameResult::Draw) {
        let b = g.cells;
        assert(winner_through(b, pos) is None) by {
            match winner_through(b, pos) {
                Some(q) => {
                    assert(spec_outcome(g, pos) == Some(q.spec_win_result()));
                },
                None => {},
            }
        }
        assert(forall|r: int|
            0 <= r < BOARD_SIZE ==> #[trigger] uniform_occupant(row_seq(b, r)) is None);
        assert(forall|c: int|
            0 <= c < BOARD_SIZE ==> #[trigger] uniform_occupant(col_seq(b, c)) is None);
    }
}

} // verus!