use crate::errors::CardGameError;
use anchor_lang::solana_program::pubkey::Pubkey;
use vstd::prelude::*;

verus! {

/// Highest slot index of a board row.
pub const MAX_ROW: u8 = 6;

/// The position that stands for the opposing hero rather than a slot.
pub const HERO_POS: u8 = 7;

/// Hit points of each hero when a match starts.
pub const START_HEALTH: i8 = 30;

/// Mana of each player when a match starts.
pub const START_MANA: i8 = 1;

/// A pool at or above this value is no longer refilled at the end of a turn.
pub const MANA_RAMP_LIMIT: i8 = 10;

/// A unit card. In a hand it waits to be played; on the board it fights.
#[derive(Clone, Copy, Debug, PartialEq, Eq, Structural)]
pub struct Card {
    pub hp: i8,
    pub atk: i8,
    pub mana_cost: i8,
    pub ready: bool,
}

/// Whether a match is still being played, and who won it if not.
#[derive(Clone, Copy, Debug, PartialEq, Eq)]
pub enum GameState {
    Active,
    Tie,
    Won { winner: Pubkey },
}

/// A card over the mathematical integers.
pub struct CardView {
    pub hp: int,
    pub atk: int,
    pub mana_cost: int,
    pub ready: bool,
}

impl View for Card {
    type V = CardView;

    open spec fn view(&self) -> CardView {
        CardView {
            hp: self.hp as int,
            atk: self.atk as int,
            mana_cost: self.mana_cost as int,
            ready: self.ready,
        }
    }
}

impl CardView {
    /// The card after it has taken `amount` damage.
    pub open spec fn damaged(self, amount: int) -> CardView {
        CardView { hp: self.hp - amount, ..self }
    }

    /// The card with its readiness set.
    pub open spec fn with_ready(self, ready: bool) -> CardView {
        CardView { ready, ..self }
    }
}

/// What a board slot holds, over the mathematical integers.
pub open spec fn slot_view(slot: Option<Card>) -> Option<CardView> {
    match slot {
        Some(card) => Some(card@),
        None => None,
    }
}

/// A hand over the mathematical integers, in the player's order.
pub open spec fn hand_view(hand: Seq<Card>) -> Seq<CardView> {
    hand.map_values(|card: Card| card@)
}

/// A slot after the dead have been cleared: a unit with no hit points left
/// leaves the board.
pub open spec fn cleared_slot(slot: Option<CardView>) -> Option<CardView> {
    match slot {
        Some(card) => if card.hp <= 0 {
            None
        } else {
            Some(card)
        },
        None => None,
    }
}

/// A slot after its unit, if any, has been made ready to attack.
pub open spec fn refreshed_slot(slot: Option<CardView>) -> Option<CardView> {
    match slot {
        Some(card) => Some(card.with_ready(true)),
        None => None,
    }
}

/// A board with every dead unit removed.
pub open spec fn without_dead(board: Seq<Seq<Option<CardView>>>) -> Seq<Seq<Option<CardView>>> {
    Seq::new(board.len(), |r: int| Seq::new(board[r].len(), |s: int| cleared_slot(board[r][s])))
}

/// A row with every unit made ready.
pub open spec fn refreshed_row(row: Seq<Option<CardView>>) -> Seq<Option<CardView>> {
    Seq::new(row.len(), |s: int| refreshed_slot(row[s]))
}

/// True when both positions name board slots: a fight between two units.
pub open spec fn is_unit_attack(first: int, second: int) -> bool {
    0 <= first <= MAX_ROW && 0 <= second <= MAX_ROW
}

/// True when exactly one position is the hero's and the other names a slot.
pub open spec fn is_hero_attack(first: int, second: int) -> bool {
    ||| first == HERO_POS && 0 <= second <= MAX_ROW
    ||| 0 <= first <= MAX_ROW && second == HERO_POS
}

/// The mana a player's pool is refilled to at the end of the given turn.
pub open spec fn mana_ramp(turn: int) -> int {
    (turn - 1) / 2 + 2
}

/// A match as a mathematical value. Index 0 of `players`, `health`, `mana`
/// and `hands` is player one, index 1 player two. Row 1 of `board` is
/// player one's, row 0 player two's.
pub struct GameView {
    pub players: Seq<Pubkey>,
    pub turn: int,
    pub board: Seq<Seq<Option<CardView>>>,
    pub state: GameState,
    pub health: Seq<int>,
    pub mana: Seq<int>,
    pub hands: Seq<Seq<CardView>>,
}

impl GameView {
    /// The shape of a match: two players, two rows of seven slots.
    pub open spec fn wf(self) -> bool {
        &&& self.players.len() == 2
        &&& self.board.len() == 2
        &&& self.board[0].len() == 7
        &&& self.board[1].len() == 7
        &&& self.health.len() == 2
        &&& self.mana.len() == 2
        &&& self.hands.len() == 2
    }

    pub open spec fn is_started(self) -> bool {
        self.turn >= 1
    }

    pub open spec fn is_active(self) -> bool {
        self.state is Active
    }

    /// Whose turn it is: 0 on odd turns, 1 on even turns.
    pub open spec fn current_player_index(self) -> int {
        (self.turn - 1) % 2
    }

    /// The board row of the player whose turn it is: the other index.
    pub open spec fn current_player_row(self) -> int {
        1 - self.current_player_index()
    }

    pub open spec fn current_player(self) -> Pubkey {
        self.players[self.current_player_index()]
    }

    /// True when none of the fourteen slots holds a unit.
    pub open spec fn board_is_empty(self) -> bool {
        forall|r: int, s: int|
            0 <= r < 2 && 0 <= s < 7 ==> (#[trigger] self.board[r][s]) is None
    }

    /// The state that follows from heroes, board and hands. A win of one
    /// hero over the other is looked for first; then a tie, when nothing is
    /// left to play with; otherwise the state stays as it is. Two heroes
    /// that are down at once are no win for either: such a match goes on
    /// until nothing is left to play with.
    pub open spec fn recomputed_state(self) -> GameState {
        if self.health[0] <= 0 && self.health[1] > 0 {
            GameState::Won { winner: self.players[1] }
        } else if self.health[0] > 0 && self.health[1] <= 0 {
            GameState::Won { winner: self.players[0] }
        } else if self.board_is_empty() && self.hands[0].len() == 0 && self.hands[1].len() == 0 {
            GameState::Tie
        } else {
            self.state
        }
    }

    pub open spec fn with_recomputed_state(self) -> GameView {
        GameView { state: self.recomputed_state(), ..self }
    }

    /// True when the unordered pair `(a, b)` is the pair of participants.
    pub open spec fn match_participants(self, a: Pubkey, b: Pubkey) -> bool {
        ||| self.players[0] == a && self.players[1] == b
        ||| self.players[1] == a && self.players[0] == b
    }

    // ---------------------------------------------------------------- start

    pub open spec fn start_error(self) -> Option<CardGameError> {
        if self.turn != 0 {
            Some(CardGameError::GameAlreadyStarted)
        } else {
            None
        }
    }

    pub open spec fn after_start(
        self,
        first: Pubkey,
        second: Pubkey,
        hand1: Seq<CardView>,
        hand2: Seq<CardView>,
    ) -> GameView {
        GameView {
            players: seq![first, second],
            turn: 1,
            board: self.board,
            state: GameState::Active,
            health: seq![START_HEALTH as int, START_HEALTH as int],
            mana: seq![START_MANA as int, START_MANA as int],
            hands: seq![hand1, hand2],
        }
    }

    // ------------------------------------------------------------ play_card

    /// Why playing the card at `card_index` onto slot `pos` is refused, or
    /// `None` when it is legal. The checks come in this order.
    pub open spec fn play_card_error(self, pos: int, card_index: int) -> Option<CardGameError> {
        let player = self.current_player_index();
        let row = self.current_player_row();
        if !self.is_active() {
            Some(CardGameError::GameAlreadyOver)
        } else if pos > MAX_ROW {
            Some(CardGameError::TileOutOfBounds)
        } else if self.board[row][pos] is Some {
            Some(CardGameError::TileAlreadySet)
        } else if card_index >= self.hands[player].len() {
            Some(CardGameError::CardIndexOutOfBounds)
        } else if self.hands[player][card_index].mana_cost > self.mana[player] {
            Some(CardGameError::InsufficientMana)
        } else {
            None
        }
    }

    /// The match after a legal play: the card has left the hand, its cost
    /// has left the pool, and it sits on the slot as it was in the hand,
    /// ready to attack at once if it was marked ready there.
    pub open spec fn after_play_card(self, pos: int, card_index: int) -> GameView {
        let player = self.current_player_index();
        let row = self.current_player_row();
        let card = self.hands[player][card_index];
        GameView {
            board: self.board.update(row, self.board[row].update(pos, Some(card))),
            mana: self.mana.update(player, self.mana[player] - card.mana_cost),
            hands: self.hands.update(player, self.hands[player].remove(card_index)),
            ..self
        }.with_recomputed_state()
    }

    /// True when the pool after a legal play fits a signed byte.
    pub open spec fn play_card_in_range(self, pos: int, card_index: int) -> bool {
        let player = self.current_player_index();
        self.play_card_error(pos, card_index) is None ==> self.mana[player]
            - self.hands[player][card_index].mana_cost <= i8::MAX
    }

    // --------------------------------------------------------------- attack

    /// The unit that attacks in a fight between slot `bot_pos` of row 1 and
    /// slot `top_pos` of row 0: the one in the current player's row.
    pub open spec fn attacker_slot(self, bot_pos: int, top_pos: int) -> Option<CardView> {
        if self.current_player_row() == 1 {
            self.board[1][bot_pos]
        } else {
            self.board[0][top_pos]
        }
    }

    pub open spec fn attack_unit_error(self, bot_pos: int, top_pos: int) -> Option<CardGameError> {
        if self.board[1][bot_pos] is None || self.board[0][top_pos] is None {
            Some(CardGameError::EmptyBoardSpace)
        } else if !self.attacker_slot(bot_pos, top_pos)->0.ready {
            Some(CardGameError::UnitIsNotReady)
        } else {
            None
        }
    }

    /// The board right after the two units have struck each other, each
    /// with the attack it had before the blow, the dead not yet removed.
    pub open spec fn fought_board(self, bot_pos: int, top_pos: int) -> Seq<Seq<Option<CardView>>> {
        let row = self.current_player_row();
        let bot = self.board[1][bot_pos]->0;
        let top = self.board[0][top_pos]->0;
        let bot_after = bot.damaged(top.atk).with_ready(bot.ready && row != 1);
        let top_after = top.damaged(bot.atk).with_ready(top.ready && row != 0);
        seq![
            self.board[0].update(top_pos, Some(top_after)),
            self.board[1].update(bot_pos, Some(bot_after)),
        ]
    }

    pub open spec fn after_attack_unit(self, bot_pos: int, top_pos: int) -> GameView {
        GameView {
            board: without_dead(self.fought_board(bot_pos, top_pos)),
            ..self
        }.with_recomputed_state()
    }

    /// The hero that a hero attack aims at: player one's when the first
    /// position is the hero's, player two's when the second is.
    pub open spec fn target_hero(first: int, second: int) -> int {
        if first == HERO_POS {
            0
        } else {
            1
        }
    }

    /// The slot of the attacking unit in a hero attack: the position that
    /// is not the hero's. It lies in the row whose number is the target's
    /// index, which is the row of the target's opponent.
    pub open spec fn hero_attacker_pos(first: int, second: int) -> int {
        if first == HERO_POS {
            second
        } else {
            first
        }
    }

    pub open spec fn attack_hero_error(self, first: int, second: int) -> Option<CardGameError> {
        let target = Self::target_hero(first, second);
        let pos = Self::hero_attacker_pos(first, second);
        if target == self.current_player_index() {
            Some(CardGameError::CannotAttackOwnHero)
        } else if self.board[target][pos] is None {
            Some(CardGameError::EmptyBoardSpace)
        } else if !self.board[target][pos]->0.ready {
            Some(CardGameError::UnitIsNotReady)
        } else {
            None
        }
    }

    pub open spec fn after_attack_hero(self, first: int, second: int) -> GameView {
        let target = Self::target_hero(first, second);
        let pos = Self::hero_attacker_pos(first, second);
        let unit = self.board[target][pos]->0;
        GameView {
            board: self.board.update(
                target,
                self.board[target].update(pos, Some(unit.with_ready(false))),
            ),
            health: self.health.update(target, self.health[target] - unit.atk),
            ..self
        }.with_recomputed_state()
    }

    /// Why an attack with the two positions is refused, or `None`.
    pub open spec fn attack_error(self, first: int, second: int) -> Option<CardGameError> {
        if !self.is_active() {
            Some(CardGameError::GameAlreadyOver)
        } else if is_unit_attack(first, second) {
            self.attack_unit_error(first, second)
        } else if is_hero_attack(first, second) {
            self.attack_hero_error(first, second)
        } else {
            Some(CardGameError::PositionOutOfBounds)
        }
    }

    /// The match after a legal attack.
    pub open spec fn after_attack(self, first: int, second: int) -> GameView {
        if is_unit_attack(first, second) {
            self.after_attack_unit(first, second)
        } else {
            self.after_attack_hero(first, second)
        }
    }

    /// True when the hit points after a legal attack fit a signed byte.
    pub open spec fn attack_in_range(self, first: int, second: int) -> bool {
        self.attack_error(first, second) is None ==> if is_unit_attack(first, second) {
            let bot = self.board[1][first]->0;
            let top = self.board[0][second]->0;
            &&& i8::MIN <= bot.hp - top.atk <= i8::MAX
            &&& i8::MIN <= top.hp - bot.atk <= i8::MAX
        } else {
            let target = Self::target_hero(first, second);
            let unit = self.board[target][Self::hero_attacker_pos(first, second)]->0;
            i8::MIN <= self.health[target] - unit.atk <= i8::MAX
        }
    }

    // ------------------------------------------------------------- end_turn

    pub open spec fn end_turn_error(self) -> Option<CardGameError> {
        if !self.is_active() {
            Some(CardGameError::GameAlreadyOver)
        } else {
            None
        }
    }

    /// The match after the current player has ended the turn: that player's
    /// units are ready, the pool is refilled unless it has reached the
    /// limit, and the turn counter has moved on.
    pub open spec fn after_end_turn(self) -> GameView {
        let player = self.current_player_index();
        let row = self.current_player_row();
        GameView {
            board: self.board.update(row, refreshed_row(self.board[row])),
            mana: if self.mana[player] < MANA_RAMP_LIMIT {
                self.mana.update(player, mana_ramp(self.turn))
            } else {
                self.mana
            },
            turn: self.turn + 1,
            ..self
        }
    }

    /// True when the counter and the pool after the turn fit their bytes.
    pub open spec fn end_turn_in_range(self) -> bool {
        self.is_active() ==> {
            &&& self.turn < u8::MAX
            &&& self.mana[self.current_player_index()] < MANA_RAMP_LIMIT ==> mana_ramp(self.turn)
                <= i8::MAX
        }
    }

    /// The match after `n` turns have been ended in a row.
    pub open spec fn after_end_turns(self, n: nat) -> GameView
        decreases n,
    {
        if n == 0 {
            self
        } else {
            self.after_end_turns((n - 1) as nat).after_end_turn()
        }
    }
}

} // verus!
