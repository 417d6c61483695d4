use vstd::prelude::*;

use crate::game::GameState;
use crate::player::Player;

verus! {

/// Whether score `a` improves on an incumbent score `b` for the role at the
/// current node: strictly greater when maximizing, strictly less when
/// minimizing. A tie never improves, so the engine keeps the move it
/// encountered first.
pub open spec fn beats(a: int, b: int, maximize: bool) -> bool {
    if maximize {
        a > b
    } else {
        a < b
    }
}

/// The value, from `player`'s point of view, of the position reached by
/// playing move `i` of `g`, searched `cd` further plies deep.
pub open spec fn child_value<G: GameState>(g: G, player: Player, cd: nat, i: int) -> int
    recommends
        0 <= i < g.moves().len(),
    decreases cd, 2int, 0int,
{
    spec_minimax(g.play(g.moves()[i]), player, cd).0
}

/// The best score among the first `upto` moves of `g`, children searched
/// `cd` plies deep, together with the index of the move achieving it.
/// Strictly better scores replace the incumbent and ties keep it, so the
/// index is the earliest optimal one.
pub open spec fn spec_best<G: GameState>(
    g: G,
    player: Player,
    cd: nat,
    maximize: bool,
    upto: nat,
) -> (int, int)
    recommends
        1 <= upto <= g.moves().len(),
    decreases cd + 1, 0int, upto,
{
    if upto <= 1 {
        (child_value(g, player, cd, 0), 0)
    } else {
        let prev = spec_best(g, player, cd, maximize, (upto - 1) as nat);
        let candidate = child_value(g, player, cd, upto - 1);
        if beats(candidate, prev.0, maximize) {
            (candidate, upto - 1)
        } else {
            prev
        }
    }
}

/// Depth-bounded minimax value of a position: the score of `g` from
/// `player`'s point of view under optimal play of both sides, exploring at
/// most `depth` plies, together with the chosen move. At the horizon
/// (`depth == 0`) and on a terminal position the pair is the static
/// evaluation and no move.
pub open spec fn spec_minimax<G: GameState>(g: G, player: Player, depth: nat) -> (
    int,
    Option<G::Move>,
)
    decreases depth, 1int, 0int,
{
    if depth == 0 || g.moves().len() == 0 {
        (g.score(player), None)
    } else {
        let maximize = g.turn() == player;
        let best = spec_best(g, player, (depth - 1) as nat, maximize, g.moves().len());
        (best.0, Some(g.moves()[best.1]))
    }
}

/// The score of the position reached by playing move `i` of `game`,
/// searched one ply shallower than the current node.
fn child_score<G: GameState>(
    game: &G,
    moves: &Vec<G::Move>,
    i: usize,
    player: Player,
    depth: usize,
) -> (score: i32)
    requires
        moves@ == (*game).moves(),
        i < moves@.len(),
        depth >= 1,
    ensures
        score as int == child_value(*game, player, (depth - 1) as nat, i as int),
    decreases depth, 0int,
{
    let mut child = game.clone_state();
    proof {
        // The move at index i witnesses its own membership in the move set.
        assert((*game).moves().contains(moves@[i as int]));
    }
    child.apply_move(&moves[i]);
    let result = minimax(&child, player, depth - 1);
    result.0
}

/// Computes the depth-bounded minimax value of `*game` from `player`'s
/// point of view: the result is exactly `spec_minimax(*game, player,
/// depth)`, so it is total over every position and depth, and two searches
/// of equal positions return equal results. The move is `None` exactly when
/// the position is terminal or `depth` is zero; otherwise it is the first
/// legal move, in enumeration order, whose subtree value is optimal.
pub fn minimax<G: GameState>(game: &G, player: Player, depth: usize) -> (r: (
    i32,
    Option<G::Move>,
))
    ensures
        r.0 as int == spec_minimax(*game, player, depth as nat).0,
        r.1 == spec_minimax(*game, player, depth as nat).1,
    decreases depth, 1int,
{
    if depth == 0 {
        (game.eval_score(player), None)
    } else {
        let mut moves = game.legal_moves();
        if moves.len() == 0 {
            (game.eval_score(player), None)
        } else {
            let maximize = game.next_player() == player;
            let mut best_score: i32 = child_score(game, &moves, 0, player, depth);
            let mut best_index: usize = 0;
            let mut i: usize = 1;
            while i < moves.len()
                invariant
                    1 <= i <= moves@.len(),
                    moves@ == (*game).moves(),
                    depth >= 1,
                    maximize == ((*game).turn() == player),
                    best_index < i,
                    best_score as int == spec_best(
                        *game,
                        player,
                        (depth - 1) as nat,
                        maximize,
                        i as nat,
                    ).0,
                    best_index as int == spec_best(
                        *game,
                        player,
                        (depth - 1) as nat,
                        maximize,
                        i as nat,
                    ).1,
                decreases moves@.len() - i,
            {
                let candidate = child_score(game, &moves, i, player, depth);
                let better = if maximize {
                    candidate > best_score
                } else {
                    candidate < best_score
                };
                if better {
                    best_score = candidate;
                    best_index = i;
                }
                i = i + 1;
            }
            let best_move = moves.remove(best_index);
            (best_score, Some(best_move))
        }
    }
}

/// Depth-bounded search as a method on any game state. This lives apart
/// from [`GameState`] only so that the game contract itself stays free of
/// search logic; the blanket implementation below gives it to every game.
pub trait Solve: GameState {
    /// The best move for the player whose turn it is, found by exploring at
    /// most `depth` plies below this position. `None` exactly when the
    /// position is terminal or `depth` is zero.
    fn solve(&self, depth: usize) -> (best: Option<Self::Move>)
        ensures
            best == spec_minimax(*self, self.turn(), depth as nat).1,
    ;
}

impl<G: GameState> Solve for G {
    fn solve(&self, depth: usize) -> (best: Option<G::Move>) {
        let result = minimax(self, self.next_player(), depth);
        result.1
    }
}

/// Terminal correctness: on a position with no legal moves, searching to any
/// depth returns the position's static evaluation and no move.
pub proof fn lemma_terminal<G: GameState>(g: G, player: Player, depth: nat)
    requires
        g.moves().len() == 0,
    ensures
        spec_minimax(g, player, depth) == (g.score(player), None::<G::Move>),
{
}

/// Horizon correctness: at depth zero the search returns exactly the static
/// evaluation of the position, unmodified, and no move — even when the
/// position is not terminal.
pub proof fn lemma_horizon<G: GameState>(g: G, player: Player)
    ensures
        spec_minimax(g, player, 0) == (g.score(player), None::<G::Move>),
{
}

/// A move is absent from the result exactly when the position is terminal
/// or the depth budget is exhausted; otherwise the chosen move is one of
/// the position's legal moves.
pub proof fn lemma_move_presence<G: GameState>(g: G, player: Player, depth: nat)
    ensures
        spec_minimax(g, player, depth).1 is Some <==> (depth > 0 && g.moves().len() > 0),
        spec_minimax(g, player, depth).1 is Some ==> g.moves().contains(
            spec_minimax(g, player, depth).1->0,
        ),
{
    if depth > 0 && g.moves().len() > 0 {
        let maximize = g.turn() == player;
        lemma_best_props(g, player, (depth - 1) as nat, maximize, g.moves().len());
    }
}

/// The invariant of the left-to-right fold that `spec_best` performs: the
/// chosen index lies in range and carries the chosen score, no considered
/// move beats that score, and every move before the chosen one is strictly
/// beaten by it.
proof fn lemma_best_props<G: GameState>(g: G, player: Player, cd: nat, maximize: bool, upto: nat)
    requires
        1 <= upto <= g.moves().len(),
    ensures
        0 <= spec_best(g, player, cd, maximize, upto).1 < upto,
        spec_best(g, player, cd, maximize, upto).0 == child_value(
            g,
            player,
            cd,
            spec_best(g, player, cd, maximize, upto).1,
        ),
        forall|j: int|
            0 <= j < upto ==> !beats(
                child_value(g, player, cd, j),
                spec_best(g, player, cd, maximize, upto).0,
                maximize,
            ),
        forall|j: int|
            0 <= j < spec_best(g, player, cd, maximize, upto).1 ==> beats(
                spec_best(g, player, cd, maximize, upto).0,
                child_value(g, player, cd, j),
                maximize,
            ),
    decreases upto,
{
    if upto > 1 {
        lemma_best_props(g, player, cd, maximize, (upto - 1) as nat);
    }
}

/// Whether move `i` is an optimal choice at a node searched `depth` plies
/// deep: it is a legal move, and no legal move's subtree value beats its
/// subtree value for the role — maximizing or minimizing — that the player
/// to move plays towards `player`'s perspective.
pub open spec fn optimal_choice<G: GameState>(g: G, player: Player, depth: nat, i: int) -> bool
    recommends
        depth >= 1,
{
    &&& 0 <= i < g.moves().len()
    &&& forall|j: int|
        0 <= j < g.moves().len() ==> !beats(
            #[trigger] child_value(g, player, (depth - 1) as nat, j),
            child_value(g, player, (depth - 1) as nat, i),
            g.turn() == player,
        )
}

/// Tie-break stability: the search returns the first move, in enumeration
/// order, whose subtree value is optimal — strictly better scores replace
/// the incumbent, while a move scoring merely as well as an earlier one is
/// never chosen over it — and the returned score is that move's subtree
/// value.
pub proof fn lemma_tie_break_first<G: GameState>(g: G, player: Player, depth: nat, i: int)
    requires
        depth >= 1,
        optimal_choice(g, player, depth, i),
        forall|j: int| 0 <= j < i ==> !optimal_choice(g, player, depth, j),
    ensures
        spec_minimax(g, player, depth).0 == child_value(g, player, (depth - 1) as nat, i),
        spec_minimax(g, player, depth).1 == Some(g.moves()[i]),
{
    let cd = (depth - 1) as nat;
    let maximize = g.turn() == player;
    let n = g.moves().len();
    lemma_best_props(g, player, cd, maximize, n);
    let chosen = spec_best(g, player, cd, maximize, n).1;
    assert(optimal_choice(g, player, depth, chosen));
    assert forall|j: int| 0 <= j < chosen implies !optimal_choice(g, player, depth, j) by {
        if optimal_choice(g, player, depth, j) {
            assert(!beats(
                child_value(g, player, cd, chosen),
                child_value(g, player, cd, j),
                maximize,
            ));
            assert(false);
        }
    }
    if chosen < i {
        assert(!optimal_choice(g, player, depth, chosen));
        assert(false);
    }
    if i < chosen {
        assert(!optimal_choice(g, player, depth, i));
        assert(false);
    }
}

} // verus!
