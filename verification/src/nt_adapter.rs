//! What the table client is shown of a scenario: card strings in the
//! client's notation, the game-state name, the blind and button seats, and
//! the stacks and last action of the two seated players.  Hero sits in seat
//! 1, villain in seat 2.  Turning this view into the client's JSON message
//! is left to the caller.

use vstd::prelude::*;
use crate::models::{card_chars, suit_char, Card, PlayerState, Position, TrainingScenario};
use crate::text::{cat2, push_char};

verus! {

/// A card in the client's notation: "10" and the suit for a ten, the usual
/// two-letter text ("As", "Kh") otherwise.
pub open spec fn client_card_chars(c: Card) -> Seq<char> {
    if c.rank.0 == 10 {
        "10"@.push(suit_char(c.suit))
    } else {
        card_chars(c)
    }
}

/// Convert a card to the string format expected by the client.
pub fn to_client_card(c: &Card) -> (s: String)
    ensures
        s@ == client_card_chars(*c),
{
    if c.rank.0 == 10 {
        let mut s = "10".to_owned();
        push_char(&mut s, c.suit.symbol_char());
        s
    } else {
        c.text()
    }
}

/// Game-state name for a board of `board_len` cards.
pub open spec fn game_state_spec(board_len: nat) -> Seq<char> {
    if board_len == 0 {
        "PreFlop"@
    } else if board_len == 3 {
        "Flop"@
    } else if board_len == 4 {
        "Turn"@
    } else {
        "River"@
    }
}

/// Derive the game-state string from the number of board cards.
pub fn game_state_str(board_len: usize) -> (s: &'static str)
    ensures
        s@ == game_state_spec(board_len as nat),
{
    match board_len {
        0 => "PreFlop",
        3 => "Flop",
        4 => "Turn",
        _ => "River",
    }
}

/// Seat of a player at `pos`: 1 when it is hero's position, 2 otherwise.
pub open spec fn seat_of(pos: Position, hero_pos: Position) -> u8 {
    if pos == hero_pos { 1 } else { 2 }
}

/// Seat holding position `role` (0 when neither player holds it); villain's
/// entry is written last and wins.
pub open spec fn role_seat(role: Position, hero_pos: Position, villain_pos: Position) -> u8 {
    if villain_pos == role {
        seat_of(villain_pos, hero_pos)
    } else if hero_pos == role {
        1
    } else {
        0
    }
}

/// The (big blind, small blind, button) seats; 0 means nobody holds it.
pub fn position_seats(hero_pos: Position, villain_pos: Position) -> (r: (u8, u8, u8))
    ensures
        r.0 == role_seat(Position::BB, hero_pos, villain_pos),
        r.1 == role_seat(Position::SB, hero_pos, villain_pos),
        r.2 == role_seat(Position::BTN, hero_pos, villain_pos),
{
    let mut bb: u8 = 0;
    let mut sb: u8 = 0;
    let mut btn: u8 = 0;
    let order = [hero_pos, villain_pos];
    let mut k: usize = 0;
    while k < 2
        invariant
            k <= 2,
            order@ == seq![hero_pos, villain_pos],
            bb == (if k == 2 { role_seat(Position::BB, hero_pos, villain_pos) } else if k == 1 && hero_pos == Position::BB { 1 } else { 0 }),
            sb == (if k == 2 { role_seat(Position::SB, hero_pos, villain_pos) } else if k == 1 && hero_pos == Position::SB { 1 } else { 0 }),
            btn == (if k == 2 { role_seat(Position::BTN, hero_pos, villain_pos) } else if k == 1 && hero_pos == Position::BTN { 1 } else { 0 }),
        decreases 2 - k,
    {
        let pos = order[k];
        let s: u8 = if pos == hero_pos { 1 } else { 2 };
        match pos {
            Position::BB => bb = s,
            Position::SB => sb = s,
            Position::BTN => btn = s,
            _ => {},
        }
        k += 1;
    }
    (bb, sb, btn)
}

/// The first player whose `is_hero` flag is `hero`, if any.
pub open spec fn find_player(players: Seq<PlayerState>, hero: bool) -> Option<PlayerState>
    decreases players.len(),
{
    if players.len() == 0 {
        None
    } else if players[0].is_hero == hero {
        Some(players[0])
    } else {
        find_player(players.drop_first(), hero)
    }
}

fn first_player(players: &Vec<PlayerState>, hero: bool) -> (p: Option<PlayerState>)
    ensures
        p == find_player(players@, hero),
{
    let mut i: usize = 0;
    assert(players@.subrange(0, players@.len() as int) =~= players@);
    while i < players.len()
        invariant
            i <= players@.len(),
            find_player(players@, hero) == find_player(players@.subrange(i as int, players@.len() as int), hero),
        decreases players@.len() - i,
    {
        let ghost rest = players@.subrange(i as int, players@.len() as int);
        assert(rest[0] == players@[i as int]);
        if players[i].is_hero == hero {
            return Some(players[i]);
        }
        assert(rest.drop_first() =~= players@.subrange(i + 1, players@.len() as int));
        i += 1;
    }
    assert(players@.subrange(i as int, players@.len() as int) =~= Seq::<PlayerState>::empty());
    None
}

/// What the client is shown of a scenario.
pub struct TableView {
    /// "training/" followed by the scenario id.
    pub display_table_id: String,
    pub seat_bb: u8,
    pub seat_sb: u8,
    pub seat_button: u8,
    pub game_state: String,
    /// Five community-card slots: the board cards in client notation, then
    /// empty strings.
    pub community: Vec<String>,
    pub hero_cards: Vec<String>,
    pub hero_stack: u32,
    pub villain_stack: u32,
    /// "Bet" when hero faces a bet, empty otherwise.
    pub villain_last_action: String,
    pub pot: u32,
    pub current_bet: u32,
}

/// Slot `i` of the five community-card slots for `board`.
pub open spec fn community_slot(board: Seq<Card>, i: int) -> Seq<char> {
    if i < board.len() { client_card_chars(board[i]) } else { Seq::empty() }
}

/// Stack of the first player with the given hero flag, 100 when none.
pub open spec fn stack_or_default(players: Seq<PlayerState>, hero: bool) -> u32 {
    match find_player(players, hero) {
        Some(p) => p.stack,
        None => 100,
    }
}

/// Villain's position: that of the first non-hero player, the Big Blind when none.
pub open spec fn villain_position(players: Seq<PlayerState>) -> Position {
    match find_player(players, false) {
        Some(p) => p.position,
        None => Position::BB,
    }
}

/// The view of scenario `s`.
pub open spec fn view_of(s: TrainingScenario, v: TableView) -> bool {
    let t = s.table_setup;
    let villain_pos = villain_position(t.players@);
    &&& v.display_table_id@ == "training/"@ + s.scenario_id@
    &&& v.seat_bb == role_seat(Position::BB, t.hero_position, villain_pos)
    &&& v.seat_sb == role_seat(Position::SB, t.hero_position, villain_pos)
    &&& v.seat_button == role_seat(Position::BTN, t.hero_position, villain_pos)
    &&& v.game_state@ == game_state_spec(t.board@.len())
    &&& v.community@.len() == 5
    &&& (forall|i: int| 0 <= i < 5 ==> (#[trigger] v.community@[i])@ == community_slot(t.board@, i))
    &&& v.hero_cards@.len() == 2
    &&& v.hero_cards@[0]@ == client_card_chars(t.hero_hand[0])
    &&& v.hero_cards@[1]@ == client_card_chars(t.hero_hand[1])
    &&& v.hero_stack == stack_or_default(t.players@, true)
    &&& v.villain_stack == stack_or_default(t.players@, false)
    &&& v.villain_last_action@ == (if t.current_bet > 0 { "Bet"@ } else { Seq::<char>::empty() })
    &&& v.pot == t.pot_size
    &&& v.current_bet == t.current_bet
}

/// Build the client's view of a scenario.
pub fn table_view(scenario: &TrainingScenario) -> (v: TableView)
    ensures
        view_of(*scenario, v),
{
    let setup = &scenario.table_setup;
    let board = &setup.board;

    // Villain: first non-hero player; hero: first hero player.
    let villain = first_player(&setup.players, false);
    let villain_pos = match villain {
        Some(p) => p.position,
        None => Position::BB,
    };
    let villain_stack = match villain {
        Some(p) => p.stack,
        None => 100,
    };
    let hero_stack = match first_player(&setup.players, true) {
        Some(p) => p.stack,
        None => 100,
    };

    let (seat_bb, seat_sb, seat_button) = position_seats(setup.hero_position, villain_pos);

    let mut community: Vec<String> = Vec::new();
    let mut i: usize = 0;
    while i < 5
        invariant
            i <= 5,
            community@.len() == i,
            forall|j: int| 0 <= j < i ==> (#[trigger] community@[j])@ == community_slot(board@, j),
        decreases 5 - i,
    {
        let slot = if i < board.len() { to_client_card(&board[i]) } else { String::new() };
        community.push(slot);
        i += 1;
    }

    let hero_cards = vec![to_client_card(&setup.hero_hand[0]), to_client_card(&setup.hero_hand[1])];
    let villain_last_action = if setup.current_bet > 0 { "Bet".to_owned() } else { String::new() };

    TableView {
        display_table_id: cat2("training/", scenario.scenario_id.as_str()),
        seat_bb,
        seat_sb,
        seat_button,
        game_state: game_state_str(board.len()).to_owned(),
        community,
        hero_cards,
        hero_stack,
        villain_stack,
        villain_last_action,
        pot: setup.pot_size,
        current_bet: setup.current_bet,
    }
}

} // verus!
