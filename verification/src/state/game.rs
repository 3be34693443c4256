use crate::errors::CardGameError;
use crate::keys::{blank_key, same_key};
use crate::state::model::{
    cleared_slot, hand_view, is_hero_attack, is_unit_attack, refreshed_row, refreshed_slot,
    slot_view, without_dead, Card, GameState, GameView, HERO_POS, MANA_RAMP_LIMIT,
    MAX_ROW, START_HEALTH, START_MANA,
};
use anchor_lang::solana_program::pubkey::Pubkey;
use vstd::prelude::*;

verus! {

/// The record of one match.
#[derive(Clone, Debug, PartialEq, Eq)]
pub struct Game {
    pub players: [Pubkey; 2],
    pub turn: u8,
    pub board: [[Option<Card>; 7]; 2],
    pub state: GameState,
    pub health: [i8; 2],
    pub mana: [i8; 2],
    pub p1_hand: Vec<Card>,
    pub p2_hand: Vec<Card>,
}

impl View for Game {
    type V = GameView;

    open spec fn view(&self) -> GameView {
        GameView {
            players: self.players@,
            turn: self.turn as int,
            board: Seq::new(2, |r: int| Seq::new(7, |s: int| slot_view(self.board@[r]@[s]))),
            state: self.state,
            health: Seq::new(2, |i: int| self.health@[i] as int),
            mana: Seq::new(2, |i: int| self.mana@[i] as int),
            hands: seq![hand_view(self.p1_hand@), hand_view(self.p2_hand@)],
        }
    }
}

impl Game {
    /// A record on which no match has been started yet: turn 0, an empty
    /// board, empty hands.
    pub fn new() -> (game: Game)
        ensures
            game@.wf(),
            game.turn == 0,
            game.state is Active,
            game@.board_is_empty(),
            game.p1_hand@.len() == 0,
            game.p2_hand@.len() == 0,
            game.health@ == seq![0i8, 0i8],
            game.mana@ == seq![0i8, 0i8],
    {
        let nobody = blank_key();
        let row: [Option<Card>; 7] = [None, None, None, None, None, None, None];
        let game = Game {
            players: [nobody, nobody],
            turn: 0,
            board: [row, row],
            state: GameState::Active,
            health: [0, 0],
            mana: [0, 0],
            p1_hand: Vec::new(),
            p2_hand: Vec::new(),
        };
        assert(game.health@ =~= seq![0i8, 0i8]);
        assert(game.mana@ =~= seq![0i8, 0i8]);
        game
    }

    /// Starts the match: both heroes at 30 hit points, both pools at 1
    /// mana, the hands dealt, turn 1. Refused once a match has started.
    pub fn start(&mut self, players: [Pubkey; 2], p1_hand: Vec<Card>, p2_hand: Vec<Card>) -> (result:
        Result<(), CardGameError>)
        ensures
            match result {
                Ok(()) => {
                    &&& old(self)@.start_error() is None
                    &&& final(self)@ == old(self)@.after_start(
                        players@[0],
                        players@[1],
                        hand_view(p1_hand@),
                        hand_view(p2_hand@),
                    )
                    &&& final(self).p1_hand == p1_hand
                    &&& final(self).p2_hand == p2_hand
                    &&& final(self).board == old(self).board
                },
                Err(e) => old(self)@.start_error() == Some(e) && *final(self) == *old(self),
            },
    {
        if self.turn != 0 {
            return Err(CardGameError::GameAlreadyStarted);
        }
        self.players = players;
        self.turn = 1;
        self.health = [START_HEALTH, START_HEALTH];
        self.mana = [START_MANA, START_MANA];
        self.p1_hand = p1_hand;
        self.p2_hand = p2_hand;
        self.state = GameState::Active;
        proof {
            let after = old(self)@.after_start(
                players@[0],
                players@[1],
                hand_view(p1_hand@),
                hand_view(p2_hand@),
            );
            assert(self@.players =~= after.players);
            assert(self@.health =~= after.health);
            assert(self@.mana =~= after.mana);
            assert(self@.hands =~= after.hands);
        }
        Ok(())
    }

    pub fn is_active(&self) -> (active: bool)
        ensures
            active == self@.is_active(),
    {
        match self.state {
            GameState::Active => true,
            GameState::Tie => false,
            GameState::Won { winner: _ } => false,
        }
    }

    /// Whose turn it is: 0 for player one, 1 for player two.
    pub fn current_player_index(&self) -> (index: usize)
        requires
            self@.is_started(),
        ensures
            index == self@.current_player_index(),
            index < 2,
    {
        let index: u8 = (self.turn - 1) % 2;
        index as usize
    }

    /// The key of the player whose turn it is.
    pub fn current_player(&self) -> (player: Pubkey)
        requires
            self@.is_started(),
        ensures
            player == self@.current_player(),
    {
        self.players[self.current_player_index()]
    }

    /// The board row of the player whose turn it is. Player one has the
    /// bottom row, 1; player two the top row, 0.
    pub fn current_player_row(&self) -> (row: usize)
        requires
            self@.is_started(),
        ensures
            row == self@.current_player_row(),
            row < 2,
    {
        (self.current_player_index() + 1) % 2
    }

    pub fn get_game_state(&self) -> (state: GameState)
        ensures
            state == self.state,
    {
        self.state
    }

    /// True when the two keys are the two participants' keys, in either
    /// order.
    pub fn match_pubkeys(&self, input: [Pubkey; 2]) -> (matched: bool)
        ensures
            matched == self@.match_participants(input@[0], input@[1]),
    {
        if same_key(&self.players[0], &input[0]) && same_key(&self.players[1], &input[1]) {
            return true;
        }
        if same_key(&self.players[1], &input[0]) && same_key(&self.players[0], &input[1]) {
            return true;
        }
        false
    }

    /// True when none of the fourteen slots holds a unit.
    pub fn board_is_empty(&self) -> (empty: bool)
        ensures
            empty == self@.board_is_empty(),
    {
        let mut r: usize = 0;
        while r < 2
            invariant
                r <= 2,
                forall|i: int, s: int| 0 <= i < r && 0 <= s < 7 ==> (#[trigger] self@.board[i][s]) is None,
            decreases 2 - r,
        {
            let mut s: usize = 0;
            while s < 7
                invariant
                    r < 2,
                    s <= 7,
                    forall|i: int, j: int|
                        0 <= i < r && 0 <= j < 7 ==> (#[trigger] self@.board[i][j]) is None,
                    forall|j: int| 0 <= j < s ==> (#[trigger] self@.board[r as int][j]) is None,
                decreases 7 - s,
            {
                if self.board[r][s].is_some() {
                    assert(self@.board[r as int][s as int] is Some);
                    return false;
                }
                assert(self@.board[r as int][s as int] is None);
                s += 1;
            }
            r += 1;
        }
        true
    }

    /// Puts a card on a slot. Refused when the slot lies beyond the row or
    /// already holds a unit.
    pub fn place(&mut self, row: usize, pos: u8, card: Card) -> (result: Result<(), CardGameError>)
        requires
            row < 2,
        ensures
            match result {
                Ok(()) => {
                    &&& pos <= MAX_ROW
                    &&& old(self)@.board[row as int][pos as int] is None
                    &&& final(self)@ == (GameView {
                        board: old(self)@.board.update(
                            row as int,
                            old(self)@.board[row as int].update(pos as int, Some(card@)),
                        ),
                        ..old(self)@
                    })
                },
                Err(e) => {
                    &&& *final(self) == *old(self)
                    &&& e == if pos > MAX_ROW {
                        CardGameError::TileOutOfBounds
                    } else {
                        CardGameError::TileAlreadySet
                    }
                    &&& pos > MAX_ROW || old(self)@.board[row as int][pos as int] is Some
                },
            },
    {
        if pos > MAX_ROW {
            return Err(CardGameError::TileOutOfBounds);
        }
        let slot = pos as usize;
        if self.board[row][slot].is_some() {
            assert(self@.board[row as int][pos as int] is Some);
            return Err(CardGameError::TileAlreadySet);
        }
        assert(self@.board[row as int][pos as int] is None);
        self.board[row][slot] = Some(card);
        proof {
            let expected = old(self)@.board.update(
                row as int,
                old(self)@.board[row as int].update(pos as int, Some(card@)),
            );
            assert(self@.board =~~= expected);
        }
        Ok(())
    }

    /// Removes every unit that has no hit points left.
    pub fn update_board(&mut self)
        ensures
            final(self)@ == (GameView { board: without_dead(old(self)@.board), ..old(self)@ }),
    {
        let mut r: usize = 0;
        while r < 2
            invariant
                r <= 2,
                self.players == old(self).players,
                self.turn == old(self).turn,
                self.state == old(self).state,
                self.health == old(self).health,
                self.mana == old(self).mana,
                self.p1_hand == old(self).p1_hand,
                self.p2_hand == old(self).p2_hand,
                forall|i: int, j: int|
                    0 <= i < r && 0 <= j < 7 ==> slot_view(#[trigger] self.board@[i]@[j])
                        == cleared_slot(slot_view(old(self).board@[i]@[j])),
                forall|i: int, j: int|
                    r <= i < 2 && 0 <= j < 7 ==> (#[trigger] self.board@[i]@[j]) == old(
                        self,
                    ).board@[i]@[j],
            decreases 2 - r,
        {
            let mut s: usize = 0;
            while s < 7
                invariant
                    r < 2,
                    s <= 7,
                    self.players == old(self).players,
                    self.turn == old(self).turn,
                    self.state == old(self).state,
                    self.health == old(self).health,
                    self.mana == old(self).mana,
                    self.p1_hand == old(self).p1_hand,
                    self.p2_hand == old(self).p2_hand,
                    forall|i: int, j: int|
                        0 <= i < r && 0 <= j < 7 ==> slot_view(#[trigger] self.board@[i]@[j])
                            == cleared_slot(slot_view(old(self).board@[i]@[j])),
                    forall|j: int|
                        0 <= j < s ==> slot_view(#[trigger] self.board@[r as int]@[j])
                            == cleared_slot(slot_view(old(self).board@[r as int]@[j])),
                    forall|j: int|
                        s <= j < 7 ==> (#[trigger] self.board@[r as int]@[j]) == old(
                            self,
                        ).board@[r as int]@[j],
                    forall|i: int, j: int|
                        r < i < 2 && 0 <= j < 7 ==> (#[trigger] self.board@[i]@[j]) == old(
                            self,
                        ).board@[i]@[j],
                decreases 7 - s,
            {
                if let Some(unit) = self.board[r][s] {
                    if unit.hp <= 0 {
                        self.board[r][s] = None;
                    }
                }
                s += 1;
            }
            r += 1;
        }
        assert(self@.board =~~= without_dead(old(self)@.board));
    }

    /// Recomputes the state from heroes, board and hands.
    pub fn update_state(&mut self)
        ensures
            final(self)@ == old(self)@.with_recomputed_state(),
    {
        if self.health[0] <= 0 && self.health[1] > 0 {
            self.state = GameState::Won { winner: self.players[1] };
        } else if self.health[0] > 0 && self.health[1] <= 0 {
            self.state = GameState::Won { winner: self.players[0] };
        } else if self.board_is_empty() && self.p1_hand.len() == 0 && self.p2_hand.len() == 0 {
            self.state = GameState::Tie;
        }
    }

    /// True when a play of the card at `card_index` onto slot `pos`, if it
    /// is legal, leaves a pool that fits a signed byte.
    pub fn play_card_fits(&self, pos: u8, card_index: u8) -> (fits: bool)
        requires
            self@.is_active() ==> self@.is_started(),
        ensures
            fits == self@.play_card_in_range(pos as int, card_index as int),
    {
        if !self.is_active() || pos > MAX_ROW {
            return true;
        }
        let player = self.current_player_index();
        let row = self.current_player_row();
        let slot = self.board[row][pos as usize];
        assert(self@.board[row as int][pos as int] == slot_view(slot));
        if slot.is_some() {
            return true;
        }
        let index = card_index as usize;
        let hand = if player == 0 {
            &self.p1_hand
        } else {
            &self.p2_hand
        };
        assert(self@.hands[player as int] == hand_view(hand@));
        if hand.len() <= index {
            return true;
        }
        let card = hand[index];
        let pool = self.mana[player];
        if card.mana_cost > pool {
            return true;
        }
        let left: i16 = pool as i16 - card.mana_cost as i16;
        left <= 127
    }

    /// True when an attack with the two positions, if it is legal, leaves
    /// hit points that fit a signed byte.
    pub fn attack_fits(&self, bot_pos: u8, top_pos: u8) -> (fits: bool)
        requires
            self@.is_active() ==> self@.is_started(),
        ensures
            fits == self@.attack_in_range(bot_pos as int, top_pos as int),
    {
        if !self.is_active() {
            return true;
        }
        if bot_pos <= MAX_ROW && top_pos <= MAX_ROW {
            let row = self.current_player_row();
            let bot_slot = self.board[1][bot_pos as usize];
            let top_slot = self.board[0][top_pos as usize];
            assert(self@.board[1][bot_pos as int] == slot_view(bot_slot));
            assert(self@.board[0][top_pos as int] == slot_view(top_slot));
            if let Some(bot) = bot_slot {
                if let Some(top) = top_slot {
                    let attacker_ready = if row == 1 {
                        bot.ready
                    } else {
                        top.ready
                    };
                    if !attacker_ready {
                        return true;
                    }
                    let bot_left: i16 = bot.hp as i16 - top.atk as i16;
                    let top_left: i16 = top.hp as i16 - bot.atk as i16;
                    return -128 <= bot_left && bot_left <= 127 && -128 <= top_left && top_left
                        <= 127;
                }
            }
            true
        } else if (bot_pos == HERO_POS && top_pos <= MAX_ROW) || (bot_pos <= MAX_ROW && top_pos
            == HERO_POS) {
            let target: usize = if bot_pos == HERO_POS {
                0
            } else {
                1
            };
            let pos: usize = if bot_pos == HERO_POS {
                top_pos as usize
            } else {
                bot_pos as usize
            };
            if self.current_player_index() == target {
                return true;
            }
            let slot = self.board[target][pos];
            assert(self@.board[target as int][pos as int] == slot_view(slot));
            match slot {
                None => true,
                Some(unit) => {
                    if !unit.ready {
                        return true;
                    }
                    let left: i16 = self.health[target] as i16 - unit.atk as i16;
                    -128 <= left && left <= 127
                },
            }
        } else {
            true
        }
    }

    /// True when the end of the turn, if it is legal, leaves a turn counter
    /// and a pool that fit their bytes.
    pub fn end_turn_fits(&self) -> (fits: bool)
        requires
            self@.is_active() ==> self@.is_started(),
        ensures
            fits == self@.end_turn_in_range(),
    {
        if !self.is_active() {
            return true;
        }
        if self.turn == u8::MAX {
            return false;
        }
        let player = self.current_player_index();
        if self.mana[player] < MANA_RAMP_LIMIT {
            let ramp: u8 = (self.turn - 1) / 2 + 2;
            ramp <= 127
        } else {
            true
        }
    }

    /// Plays the card at `card_index` of the current player's hand onto
    /// slot `pos` of that player's row, and pays its cost.
    pub fn play_card(&mut self, pos: u8, card_index: u8) -> (result: Result<(), CardGameError>)
        requires
            old(self)@.is_active() ==> old(self)@.is_started(),
            old(self)@.play_card_in_range(pos as int, card_index as int),
        ensures
            match result {
                Ok(()) => {
                    &&& old(self)@.play_card_error(pos as int, card_index as int) is None
                    &&& final(self)@ == old(self)@.after_play_card(pos as int, card_index as int)
                },
                Err(e) => {
                    &&& old(self)@.play_card_error(pos as int, card_index as int) == Some(e)
                    &&& *final(self) == *old(self)
                },
            },
            !old(self)@.is_active() ==> *final(self) == *old(self) && result == Err::<
                (),
                CardGameError,
            >(CardGameError::GameAlreadyOver),
    {
        if !self.is_active() {
            return Err(CardGameError::GameAlreadyOver);
        }
        if pos > MAX_ROW {
            return Err(CardGameError::TileOutOfBounds);
        }
        let player = self.current_player_index();
        let row = self.current_player_row();
        if self.board[row][pos as usize].is_some() {
            assert(self@.board[row as int][pos as int] is Some);
            return Err(CardGameError::TileAlreadySet);
        }
        assert(self@.board[row as int][pos as int] is None);
        let index = card_index as usize;
        let card: Card;
        if player == 0 {
            if self.p1_hand.len() <= index {
                return Err(CardGameError::CardIndexOutOfBounds);
            }
            card = self.p1_hand[index];
            if card.mana_cost > self.mana[0] {
                return Err(CardGameError::InsufficientMana);
            }
            self.p1_hand.remove(index);
            self.mana[0] = self.mana[0] - card.mana_cost;
        } else {
            if self.p2_hand.len() <= index {
                return Err(CardGameError::CardIndexOutOfBounds);
            }
            card = self.p2_hand[index];
            if card.mana_cost > self.mana[1] {
                return Err(CardGameError::InsufficientMana);
            }
            self.p2_hand.remove(index);
            self.mana[1] = self.mana[1] - card.mana_cost;
        }
        proof {
            let before = old(self)@;
            let p = player as int;
            assert(card@ == before.hands[p][index as int]);
            assert(self@.mana =~= before.mana.update(p, before.mana[p] - card@.mana_cost));
            assert(self@.hands[p] =~= before.hands[p].remove(index as int));
            assert(self@.hands =~= before.hands.update(p, before.hands[p].remove(index as int)));
            assert(self@.board =~~= before.board);
        }
        let placed = self.place(row, pos, card);
        assert(placed is Ok);
        self.update_state();
        Ok(())
    }

    /// Attacks with the two positions given: two slots for a fight between
    /// units, or a slot and the hero position for a strike at a hero.
    pub fn attack(&mut self, bot_pos: u8, top_pos: u8) -> (result: Result<(), CardGameError>)
        requires
            old(self)@.is_active() ==> old(self)@.is_started(),
            old(self)@.attack_in_range(bot_pos as int, top_pos as int),
        ensures
            match result {
                Ok(()) => {
                    &&& old(self)@.attack_error(bot_pos as int, top_pos as int) is None
                    &&& final(self)@ == old(self)@.after_attack(bot_pos as int, top_pos as int)
                },
                Err(e) => {
                    &&& old(self)@.attack_error(bot_pos as int, top_pos as int) == Some(e)
                    &&& *final(self) == *old(self)
                },
            },
            !old(self)@.is_active() ==> *final(self) == *old(self) && result == Err::<
                (),
                CardGameError,
            >(CardGameError::GameAlreadyOver),
    {
        if !self.is_active() {
            return Err(CardGameError::GameAlreadyOver);
        }
        if bot_pos <= MAX_ROW && top_pos <= MAX_ROW {
            self.attack_unit(bot_pos as usize, top_pos as usize)
        } else if (bot_pos == HERO_POS && top_pos <= MAX_ROW) || (bot_pos <= MAX_ROW && top_pos
            == HERO_POS) {
            self.attack_hero(bot_pos as usize, top_pos as usize)
        } else {
            Err(CardGameError::PositionOutOfBounds)
        }
    }

    /// A fight between the unit on slot `bot_pos` of the bottom row and the
    /// unit on slot `top_pos` of the top row. Both strike at once.
    fn attack_unit(&mut self, bot_pos: usize, top_pos: usize) -> (result: Result<(), CardGameError>)
        requires
            old(self)@.is_active(),
            old(self)@.is_started(),
            is_unit_attack(bot_pos as int, top_pos as int),
            old(self)@.attack_in_range(bot_pos as int, top_pos as int),
        ensures
            match result {
                Ok(()) => {
                    &&& old(self)@.attack_unit_error(bot_pos as int, top_pos as int) is None
                    &&& final(self)@ == old(self)@.after_attack_unit(bot_pos as int, top_pos as int)
                },
                Err(e) => {
                    &&& old(self)@.attack_unit_error(bot_pos as int, top_pos as int) == Some(e)
                    &&& *final(self) == *old(self)
                },
            },
    {
        let row = self.current_player_row();
        let bot_slot = self.board[1][bot_pos];
        let top_slot = self.board[0][top_pos];
        assert(self@.board[1][bot_pos as int] == slot_view(bot_slot));
        assert(self@.board[0][top_pos as int] == slot_view(top_slot));
        if let Some(bot) = bot_slot {
            if let Some(top) = top_slot {
                let attacker_ready = if row == 1 {
                    bot.ready
                } else {
                    top.ready
                };
                if !attacker_ready {
                    return Err(CardGameError::UnitIsNotReady);
                }
                let bot_after = Card {
                    hp: bot.hp - top.atk,
                    atk: bot.atk,
                    mana_cost: bot.mana_cost,
                    ready: bot.ready && row != 1,
                };
                let top_after = Card {
                    hp: top.hp - bot.atk,
                    atk: top.atk,
                    mana_cost: top.mana_cost,
                    ready: top.ready && row != 0,
                };
                self.board[1][bot_pos] = Some(bot_after);
                self.board[0][top_pos] = Some(top_after);
                assert(self@.board =~~= old(self)@.fought_board(bot_pos as int, top_pos as int));
                self.update_board();
                self.update_state();
                return Ok(());
            }
        }
        Err(CardGameError::EmptyBoardSpace)
    }

    /// A strike at a hero. One position is the hero's; the other is the
    /// slot of the striking unit, in the current player's row.
    fn attack_hero(&mut self, bot_pos: usize, top_pos: usize) -> (result: Result<(), CardGameError>)
        requires
            old(self)@.is_active(),
            old(self)@.is_started(),
            is_hero_attack(bot_pos as int, top_pos as int),
            old(self)@.attack_in_range(bot_pos as int, top_pos as int),
        ensures
            match result {
                Ok(()) => {
                    &&& old(self)@.attack_hero_error(bot_pos as int, top_pos as int) is None
                    &&& final(self)@ == old(self)@.after_attack_hero(bot_pos as int, top_pos as int)
                },
                Err(e) => {
                    &&& old(self)@.attack_hero_error(bot_pos as int, top_pos as int) == Some(e)
                    &&& *final(self) == *old(self)
                },
            },
    {
        let target: usize = if bot_pos == 7 {
            0
        } else {
            1
        };
        let pos: usize = if bot_pos == 7 {
            top_pos
        } else {
            bot_pos
        };
        if self.current_player_index() == target {
            return Err(CardGameError::CannotAttackOwnHero);
        }
        let slot = self.board[target][pos];
        assert(self@.board[target as int][pos as int] == slot_view(slot));
        match slot {
            None => Err(CardGameError::EmptyBoardSpace),
            Some(unit) => {
                if !unit.ready {
                    return Err(CardGameError::UnitIsNotReady);
                }
                self.board[target][pos] = Some(
                    Card { hp: unit.hp, atk: unit.atk, mana_cost: unit.mana_cost, ready: false },
                );
                self.health[target] = self.health[target] - unit.atk;
                proof {
                    let before = old(self)@;
                    let t = target as int;
                    assert(self@.board =~~= before.board.update(
                        t,
                        before.board[t].update(pos as int, Some(unit@.with_ready(false))),
                    ));
                    assert(self@.health =~= before.health.update(t, before.health[t] - unit@.atk));
                }
                self.update_state();
                Ok(())
            },
        }
    }

    /// Ends the current player's turn: that player's units become ready,
    /// the pool is refilled unless it has reached the limit, and the turn
    /// passes to the other player.
    pub fn end_turn(&mut self) -> (result: Result<(), CardGameError>)
        requires
            old(self)@.is_active() ==> old(self)@.is_started(),
            old(self)@.end_turn_in_range(),
        ensures
            match result {
                Ok(()) => {
                    &&& old(self)@.end_turn_error() is None
                    &&& final(self)@ == old(self)@.after_end_turn()
                },
                Err(e) => {
                    &&& old(self)@.end_turn_error() == Some(e)
                    &&& *final(self) == *old(self)
                },
            },
            !old(self)@.is_active() ==> *final(self) == *old(self) && result == Err::<
                (),
                CardGameError,
            >(CardGameError::GameAlreadyOver),
    {
        if !self.is_active() {
            return Err(CardGameError::GameAlreadyOver);
        }
        let player = self.current_player_index();
        let row = self.current_player_row();
        let mut s: usize = 0;
        while s < 7
            invariant
                row < 2,
                s <= 7,
                self.players == old(self).players,
                self.turn == old(self).turn,
                self.state == old(self).state,
                self.health == old(self).health,
                self.mana == old(self).mana,
                self.p1_hand == old(self).p1_hand,
                self.p2_hand == old(self).p2_hand,
                forall|j: int|
                    0 <= j < s ==> slot_view(#[trigger] self.board@[row as int]@[j])
                        == refreshed_slot(slot_view(old(self).board@[row as int]@[j])),
                forall|j: int|
                    s <= j < 7 ==> (#[trigger] self.board@[row as int]@[j]) == old(
                        self,
                    ).board@[row as int]@[j],
                forall|i: int, j: int|
                    0 <= i < 2 && i != row && 0 <= j < 7 ==> (#[trigger] self.board@[i]@[j])
                        == old(self).board@[i]@[j],
            decreases 7 - s,
        {
            if let Some(unit) = self.board[row][s] {
                self.board[row][s] = Some(
                    Card { hp: unit.hp, atk: unit.atk, mana_cost: unit.mana_cost, ready: true },
                );
            }
            s += 1;
        }
        if self.mana[player] < MANA_RAMP_LIMIT {
            let ramp: u8 = (self.turn - 1) / 2 + 2;
            self.mana[player] = ramp as i8;
        }
        self.turn = self.turn + 1;
        proof {
            let before = old(self)@;
            let after = before.after_end_turn();
            assert(self@.board[row as int] =~= refreshed_row(before.board[row as int]));
            assert(self@.board[1 - row as int] =~= before.board[1 - row as int]);
            assert(self@.board =~= after.board);
            assert(self@.mana =~= after.mana);
        }
        Ok(())
    }
}

} // verus!
