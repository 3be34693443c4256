use crate::errors::CardGameError;
use crate::state::model::{CardView, GameState, GameView, HERO_POS, MAX_ROW};
use anchor_lang::solana_program::pubkey::Pubkey;
use vstd::prelude::*;

verus! {

/// The turn counter after `n` ended turns is `n` higher, and the state is
/// untouched, so every one of those turns could be ended.
pub proof fn lemma_end_turns_count(game: GameView, n: nat)
    ensures
        game.after_end_turns(n).turn == game.turn + n,
        game.after_end_turns(n).state == game.state,
        game.after_end_turns(n).players == game.players,
    decreases n,
{
    if n > 0 {
        lemma_end_turns_count(game, (n - 1) as nat);
    }
}

/// The players take turns: from a freshly started match, after `n` ended
/// turns it is the turn of player `n mod 2`, and the match is still active.
pub proof fn law_turn_alternation(
    game: GameView,
    first: Pubkey,
    second: Pubkey,
    hand1: Seq<CardView>,
    hand2: Seq<CardView>,
    n: nat,
)
    requires
        game.start_error() is None,
    ensures
        game.after_start(first, second, hand1, hand2).after_end_turns(n).current_player_index()
            == n % 2,
        game.after_start(first, second, hand1, hand2).after_end_turns(n).end_turn_error() is None,
{
    lemma_end_turns_count(game.after_start(first, second, hand1, hand2), n);
}

/// A legal play takes exactly the card's cost from the current player's
/// pool and never leaves less than 0 there. The other pool and both heroes
/// are left alone.
pub proof fn law_play_card_pays_cost(game: GameView, pos: int, card_index: int)
    requires
        game.wf(),
        0 <= pos,
        0 <= card_index,
        game.play_card_error(pos, card_index) is None,
    ensures
        ({
            let player = game.current_player_index();
            let after = game.after_play_card(pos, card_index);
            &&& after.mana[player] == game.mana[player] - game.hands[player][card_index].mana_cost
            &&& after.mana[player] >= 0
            &&& after.mana[1 - player] == game.mana[1 - player]
            &&& after.health == game.health
        }),
{
}

/// A legal play removes exactly the chosen card from the current player's
/// hand. The cards before it stay where they are, the cards behind it move
/// down by one, and the other hand is untouched.
pub proof fn law_play_card_shrinks_hand(game: GameView, pos: int, card_index: int)
    requires
        game.wf(),
        0 <= pos,
        0 <= card_index,
        game.play_card_error(pos, card_index) is None,
    ensures
        ({
            let player = game.current_player_index();
            let before = game.hands[player];
            let after = game.after_play_card(pos, card_index).hands[player];
            &&& after.len() == before.len() - 1
            &&& forall|i: int| 0 <= i < card_index ==> after[i] == before[i]
            &&& forall|i: int| card_index <= i < after.len() ==> after[i] == before[i + 1]
            &&& game.after_play_card(pos, card_index).hands[1 - player] == game.hands[1 - player]
        }),
{
}

/// A legal play puts the card on the chosen slot of the current player's
/// row exactly as it was in the hand, and changes no other slot.
pub proof fn law_play_card_places_card(game: GameView, pos: int, card_index: int)
    requires
        game.wf(),
        0 <= pos,
        0 <= card_index,
        game.play_card_error(pos, card_index) is None,
    ensures
        ({
            let player = game.current_player_index();
            let row = game.current_player_row();
            let after = game.after_play_card(pos, card_index);
            &&& after.board[row][pos] == Some(game.hands[player][card_index])
            &&& forall|r: int, s: int|
                0 <= r < 2 && 0 <= s < 7 && !(r == row && s == pos) ==> after.board[r][s]
                    == game.board[r][s]
        }),
{
}

/// With both heroes alive, an empty board and two empty hands give a tie.
pub proof fn law_tie_when_nothing_left(game: GameView)
    requires
        game.wf(),
        game.health[0] > 0,
        game.health[1] > 0,
        game.board_is_empty(),
        game.hands[0].len() == 0,
        game.hands[1].len() == 0,
    ensures
        game.recomputed_state() == GameState::Tie,
{
}

/// A win is looked for before a tie: when exactly one hero has no hit
/// points left, the other player has won, whatever board and hands hold.
pub proof fn law_win_before_tie(game: GameView)
    requires
        game.wf(),
        (game.health[0] <= 0) != (game.health[1] <= 0),
    ensures
        game.recomputed_state() == (GameState::Won {
            winner: if game.health[0] <= 0 {
                game.players[1]
            } else {
                game.players[0]
            },
        }),
{
}

/// An active match is won only when exactly one hero is down, and then by
/// the player whose hero still stands.
pub proof fn law_win_needs_one_hero_down(game: GameView)
    requires
        game.wf(),
        game.is_active(),
        game.recomputed_state() is Won,
    ensures
        (game.health[0] <= 0) != (game.health[1] <= 0),
        game.health[0] <= 0 ==> game.recomputed_state()->winner == game.players[1],
        game.health[1] <= 0 ==> game.recomputed_state()->winner == game.players[0],
{
}

/// The end of a turn touches the turn counter, the ending player's pool
/// and the readiness of that player's units, and nothing else: heroes,
/// hands, the state, the other pool and the other row stay as they are.
pub proof fn law_end_turn_effects(game: GameView)
    requires
        game.wf(),
    ensures
        ({
            let me = game.current_player_index();
            let row = game.current_player_row();
            let after = game.after_end_turn();
            &&& after.turn == game.turn + 1
            &&& after.current_player_index() == 1 - me
            &&& after.state == game.state
            &&& after.players == game.players
            &&& after.health == game.health
            &&& after.hands == game.hands
            &&& after.mana[1 - me] == game.mana[1 - me]
            &&& after.mana[me] == if game.mana[me] < 10 {
                (game.turn - 1) / 2 + 2
            } else {
                game.mana[me]
            }
            &&& after.board[1 - row] == game.board[1 - row]
            &&& forall|s: int|
                0 <= s < 7 ==> #[trigger] after.board[row][s] == match game.board[row][s] {
                    Some(unit) => Some(CardView { ready: true, ..unit }),
                    None => None,
                }
        }),
{
}

/// Once a match is tied or won, playing a card, attacking and ending the
/// turn are all refused as over, whatever their arguments.
pub proof fn law_finished_match_rejects(
    game: GameView,
    pos: int,
    card_index: int,
    first: int,
    second: int,
)
    requires
        !game.is_active(),
    ensures
        game.play_card_error(pos, card_index) == Some(CardGameError::GameAlreadyOver),
        game.attack_error(first, second) == Some(CardGameError::GameAlreadyOver),
        game.end_turn_error() == Some(CardGameError::GameAlreadyOver),
{
}

/// In an active match, an attack that aims at the current player's own
/// hero is refused, whatever the board holds. Player one's hero is aimed at
/// by `(7, x)`, player two's by `(x, 7)`.
pub proof fn law_cannot_attack_own_hero(game: GameView, x: int)
    requires
        game.is_active(),
        0 <= x <= MAX_ROW,
    ensures
        game.current_player_index() == 0 ==> game.attack_error(HERO_POS as int, x) == Some(
            CardGameError::CannotAttackOwnHero,
        ),
        game.current_player_index() == 1 ==> game.attack_error(x, HERO_POS as int) == Some(
            CardGameError::CannotAttackOwnHero,
        ),
{
}

/// In a fight between two units both hits land at once: each unit loses
/// the attack that the other had before the fight, and a unit left without
/// hit points is gone from the board.
pub proof fn law_units_strike_at_once(game: GameView, bot_pos: int, top_pos: int)
    requires
        game.wf(),
        0 <= bot_pos <= MAX_ROW,
        0 <= top_pos <= MAX_ROW,
        game.attack_error(bot_pos, top_pos) is None,
    ensures
        ({
            let bot = game.board[1][bot_pos]->0;
            let top = game.board[0][top_pos]->0;
            let after = game.after_attack(bot_pos, top_pos);
            &&& after.board[1][bot_pos] == if bot.hp - top.atk <= 0 {
                None
            } else {
                Some(
                    CardView {
                        hp: bot.hp - top.atk,
                        ready: bot.ready && game.current_player_row() != 1,
                        ..bot
                    },
                )
            }
            &&& after.board[0][top_pos] == if top.hp - bot.atk <= 0 {
                None
            } else {
                Some(
                    CardView {
                        hp: top.hp - bot.atk,
                        ready: top.ready && game.current_player_row() != 0,
                        ..top
                    },
                )
            }
            &&& after.health == game.health
            &&& after.mana == game.mana
            &&& after.hands == game.hands
        }),
{
}

/// A legal strike at a hero takes the unit's attack from the other
/// player's hero and from nothing else, and tires the unit. A strike that
/// brings that hero down while the striker's own hero stands wins the
/// match for the striker, and nothing can be done on the match after it.
pub proof fn law_hero_strike(game: GameView, first: int, second: int)
    requires
        game.wf(),
        game.is_started(),
        crate::state::model::is_hero_attack(first, second),
        game.attack_error(first, second) is None,
    ensures
        ({
            let me = game.current_player_index();
            let pos = GameView::hero_attacker_pos(first, second);
            let unit = game.board[game.current_player_row()][pos]->0;
            let after = game.after_attack(first, second);
            &&& game.board[game.current_player_row()][pos] is Some
            &&& after.health[1 - me] == game.health[1 - me] - unit.atk
            &&& after.health[me] == game.health[me]
            &&& after.board[game.current_player_row()][pos] == Some(unit.with_ready(false))
            &&& after.mana == game.mana
            &&& after.hands == game.hands
            &&& after.health[1 - me] <= 0 && game.health[me] > 0 ==> {
                &&& after.state == (GameState::Won { winner: game.players[me] })
                &&& forall|a: int, b: int|
                    after.play_card_error(a, b) == Some(CardGameError::GameAlreadyOver)
                        && after.attack_error(a, b) == Some(CardGameError::GameAlreadyOver)
                &&& after.end_turn_error() == Some(CardGameError::GameAlreadyOver)
            }
        }),
{
}

/// Every step keeps the shape of the match: two players, two rows of
/// seven slots, two heroes, two pools, two hands.
pub proof fn law_shape_is_kept(
    game: GameView,
    pos: int,
    card_index: int,
    first: int,
    second: int,
)
    requires
        game.wf(),
    ensures
        game.play_card_error(pos, card_index) is None && 0 <= pos && 0 <= card_index
            ==> game.after_play_card(pos, card_index).wf(),
        game.attack_error(first, second) is None ==> game.after_attack(first, second).wf(),
        game.after_end_turn().wf(),
        game.after_end_turn().turn == game.turn + 1,
{
}

} // verus!
