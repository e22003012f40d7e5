//! Records that the application shell shows.
use vstd::prelude::*;

use crate::json::{
    decimal_string, decimal_text, decimal_u64, digits_value, is_digit, lemma_decimal_text_value,
    parse_u64,
};

verus! {

/// The account of the session with its Robux balance.
#[derive(Clone, Debug, PartialEq, Eq)]
pub struct ClientInfo {
    pub user_id: u64,
    pub username: String,
    pub display_name: String,
    pub robux: u64,
}

/// The counts shown on a user's profile.
#[derive(Clone, Debug, PartialEq, Eq)]
pub struct UserProfileStats {
    pub friends: usize,
    pub followers: usize,
    pub followings: usize,
}

/// A game shown in the tray menu.
#[derive(Clone, Debug, PartialEq, Eq)]
pub struct TrayGame {
    pub id: u64,
    pub title: String,
}

/// What a click on a tray menu item asks for.
#[derive(Clone, Copy, Debug, PartialEq, Eq)]
pub enum TrayAction {
    Quit,
    /// Open the place with this id.
    OpenPlace(u64),
    /// An item that asks for nothing.
    Nothing,
}

/// The id of the tray menu item of a game.
pub open spec fn spec_tray_item_id(id: u64) -> Seq<char> {
    "game-"@ + decimal_text(id as nat)
}

/// Names the tray menu item of a game: `game-` and the game's id.
pub fn tray_item_id(id: u64) -> (r: String)
    ensures
        r@ == spec_tray_item_id(id),
{
    String::from_str("game-").concat(decimal_string(id).as_str())
}

/// The action of a tray menu item: `quit`, or `game-` followed by a place
/// id; anything else asks for nothing.
pub open spec fn spec_tray_action(item: Seq<char>) -> TrayAction {
    if item == "quit"@ {
        TrayAction::Quit
    } else if item.len() >= 5 && item.subrange(0, 5) == "game-"@ {
        match decimal_u64(item.subrange(5, item.len() as int)) {
            Some(id) => TrayAction::OpenPlace(id),
            None => TrayAction::Nothing,
        }
    } else {
        TrayAction::Nothing
    }
}

/// Reads the action of a tray menu item.
pub fn tray_action(item: &str) -> (r: TrayAction)
    ensures
        r == spec_tray_action(item@),
{
    if item.to_owned() == "quit".to_owned() {
        return TrayAction::Quit;
    }
    let n = item.unicode_len();
    if n < 5 {
        return TrayAction::Nothing;
    }
    let prefix = item.substring_char(0, 5);
    if prefix.to_owned() != "game-".to_owned() {
        return TrayAction::Nothing;
    }
    match parse_u64(item.substring_char(5, n)) {
        Some(id) => TrayAction::OpenPlace(id),
        None => TrayAction::Nothing,
    }
}

/// The tray menu item of a game opens that game's place.
pub proof fn lemma_tray_item_round_trip(id: u64)
    ensures
        spec_tray_action(spec_tray_item_id(id)) == TrayAction::OpenPlace(id),
{
    reveal_strlit("game-");
    reveal_strlit("quit");
    let item = spec_tray_item_id(id);
    let text = decimal_text(id as nat);
    lemma_decimal_text_value(id as nat);
    assert(item.subrange(0, 5) =~= "game-"@);
    assert(item.subrange(5, item.len() as int) =~= text);
    assert(item != "quit"@) by {
        assert(item[0] == 'g');
    }
    assert(decimal_u64(text) == Some(id));
}

} // verus!
