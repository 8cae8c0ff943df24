//! The entry points that the game server's requests are answered from.

use serde_json::Value;
use vstd::prelude::*;

use crate::geometry::{lemma_label_injective, Move};
use crate::json::{json_members, object_from_pairs, pairs_map};
use crate::selector::{choose_move, chosen};
use crate::state::{Battlesnake, Board, Game};

verus! {

/// How the snake describes itself when it is registered.
pub open spec fn appearance() -> Map<Seq<char>, Seq<char>> {
    Map::<Seq<char>, Seq<char>>::empty().insert("apiversion"@, "1"@).insert(
        "author"@,
        "rav"@,
    ).insert("color"@, "#888888"@).insert("head"@, "default"@).insert("tail"@, "default"@)
}

/// The answer to a turn: an object whose one member, `move`, holds the
/// label of `direction`.
pub open spec fn move_reply(direction: Move) -> Map<Seq<char>, Seq<char>> {
    Map::<Seq<char>, Seq<char>>::empty().insert("move"@, direction.label())
}

/// The snake's description of itself: API version, author and looks.
pub fn info() -> (description: Value)
    ensures
        json_members(description) == appearance(),
{
    let mut pairs: Vec<(String, String)> = Vec::new();
    pairs.push(("apiversion".to_owned(), "1".to_owned()));
    pairs.push(("author".to_owned(), "rav".to_owned()));
    pairs.push(("color".to_owned(), "#888888".to_owned()));
    pairs.push(("head".to_owned(), "default".to_owned()));
    pairs.push(("tail".to_owned(), "default".to_owned()));
    proof {
        reveal_strlit("apiversion");
        reveal_strlit("author");
        reveal_strlit("color");
        reveal_strlit("head");
        reveal_strlit("tail");
        assert(pairs@[0].0@.len() == 10 && pairs@[1].0@.len() == 6 && pairs@[2].0@.len() == 5);
        assert(pairs@[3].0@[0] == 'h' && pairs@[4].0@[0] == 't');
        assert(pairs@[3].0@.len() == 4 && pairs@[4].0@.len() == 4);
        reveal_with_fuel(pairs_map, 6);
        assert(pairs@.drop_last().drop_last().drop_last().drop_last().drop_last().len() == 0);
    }
    object_from_pairs(pairs)
}

/// Called when a game begins. A game leaves no state behind in the
/// selector, so there is nothing to prepare.
pub fn start(_game: &Game, _turn: &u32, _board: &Board, _you: &Battlesnake) {
}

/// Called when a game is over. There is nothing to tear down.
pub fn end(_game: &Game, _turn: &u32, _board: &Board, _you: &Battlesnake) {
}

/// Answers one turn: chooses the move for `you` on `board` and wraps its
/// label as the `move` member of a JSON object.
pub fn get_move(_game: &Game, _turn: &u32, board: &Board, you: &Battlesnake) -> (reply: Value)
    requires
        you.body@.len() >= 1,
    ensures
        json_members(reply) == move_reply(chosen(you@, board@)),
        forall|d: Move|
            json_members(reply) == #[trigger] move_reply(d) ==> d == chosen(you@, board@),
{
    let label = choose_move(you, board).value();
    let mut pairs: Vec<(String, String)> = Vec::new();
    pairs.push(("move".to_owned(), label));
    proof {
        reveal_with_fuel(pairs_map, 2);
        assert(pairs@.drop_last().len() == 0);
        assert forall|d: Move| #[trigger]
            move_reply(d) == move_reply(chosen(you@, board@)) implies d == chosen(
            you@,
            board@,
        ) by {
            lemma_reply_names_one_move(d, chosen(you@, board@));
        }
    }
    object_from_pairs(pairs)
}

/// A reply names one move: different directions give different replies.
pub proof fn lemma_reply_names_one_move(a: Move, b: Move)
    requires
        move_reply(a) == move_reply(b),
    ensures
        a == b,
{
    assert(move_reply(a)["move"@] == a.label());
    assert(move_reply(b)["move"@] == b.label());
    lemma_label_injective(a, b);
}

} // verus!
