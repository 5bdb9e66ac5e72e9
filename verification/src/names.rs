//! The naming convention of media players on the bus, and the choice of one
//! player among the names that are registered.

use vstd::prelude::*;
use vstd::string::*;

verus! {

/// The text with which every media player's bus name begins.
pub const PLAYER_PREFIX: &'static str = "org.mpris.MediaPlayer2.";

/// Whether `name` is the bus name of a media player: it begins with
/// [`PLAYER_PREFIX`].
pub open spec fn is_player_name(name: Seq<char>) -> bool {
    PLAYER_PREFIX@.is_prefix_of(name)
}

/// The characters of a string that may be absent.
pub open spec fn text(s: Option<String>) -> Option<Seq<char>> {
    match s {
        Some(t) => Some(t@),
        None => None,
    }
}

/// The contents of a list of strings, each as its sequence of characters.
pub open spec fn texts(items: Seq<String>) -> Seq<Seq<char>> {
    Seq::new(items.len(), |i: int| items[i]@)
}

/// The player chosen among the registered names: the last one, in the order
/// of the registry, that follows the naming convention. Nothing is implied
/// about which player started most recently.
pub open spec fn chosen_player(names: Seq<Seq<char>>) -> Option<Seq<char>>
    decreases names.len(),
{
    if names.len() == 0 {
        None
    } else if is_player_name(names.last()) {
        Some(names.last())
    } else {
        chosen_player(names.drop_last())
    }
}

/// Whether `i` is the place of the last media-player name in `names`.
pub open spec fn is_last_player_at(names: Seq<Seq<char>>, i: int) -> bool {
    &&& 0 <= i < names.len()
    &&& is_player_name(names[i])
    &&& forall|j: int| i < j < names.len() ==> !is_player_name(#[trigger] names[j])
}

/// A media-player name is never empty: it holds the prefix at least.
pub proof fn lemma_player_name_nonempty(name: Seq<char>)
    requires
        is_player_name(name),
    ensures
        name.len() >= 23,
{
    reveal_strlit("org.mpris.MediaPlayer2.");
}

/// `chosen_player` is the name at the last place that holds a media-player
/// name, and nothing where no place holds one.
pub proof fn lemma_chosen_player(names: Seq<Seq<char>>)
    ensures
        match chosen_player(names) {
            Some(p) => exists|i: int| is_last_player_at(names, i) && names[i] == p,
            None => forall|j: int| 0 <= j < names.len() ==> !is_player_name(#[trigger] names[j]),
        },
    decreases names.len(),
{
    if names.len() == 0 {
    } else if is_player_name(names.last()) {
        assert(is_last_player_at(names, names.len() - 1));
    } else {
        let rest = names.drop_last();
        lemma_chosen_player(rest);
        match chosen_player(rest) {
            Some(p) => {
                let i = choose|i: int| is_last_player_at(rest, i) && rest[i] == p;
                assert forall|j: int| i < j < names.len() implies !is_player_name(
                    #[trigger] names[j],
                ) by {
                    if j < rest.len() {
                        assert(rest[j] == names[j]);
                    }
                }
                assert(is_last_player_at(names, i));
                assert(names[i] == p);
            },
            None => {
                assert forall|j: int| 0 <= j < names.len() implies !is_player_name(
                    #[trigger] names[j],
                ) by {
                    if j < rest.len() {
                        assert(rest[j] == names[j]);
                    }
                }
            },
        }
    }
}

/// Tests a bus name against the media-player naming convention.
pub fn has_player_prefix(name: &str) -> (r: bool)
    ensures
        r == is_player_name(name@),
{
    proof {
        reveal_strlit("org.mpris.MediaPlayer2.");
    }
    let n: usize = name.unicode_len();
    if n < 23 {
        return false;
    }
    let head = name.substring_char(0, 23);
    let a = String::from_str(head);
    let b = String::from_str(PLAYER_PREFIX);
    a == b
}

/// Picks the player to track among the names registered on the bus: the last
/// name, in the order given, that follows the naming convention, or nothing
/// where none does.
pub fn find_player(names: &Vec<String>) -> (r: Option<String>)
    ensures
        text(r) == chosen_player(texts(names@)),
{
    let ghost all = texts(names@);
    let mut i: usize = names.len();
    proof {
        assert(all.take(i as int) =~= all);
    }
    while i > 0
        invariant
            i <= names.len(),
            all == texts(names@),
            chosen_player(all) == chosen_player(all.take(i as int)),
        decreases i,
    {
        let ghost head = all.take(i as int);
        i = i - 1;
        proof {
            assert(head.last() == names@[i as int]@);
            assert(head.drop_last() =~= all.take(i as int));
        }
        if has_player_prefix(names[i].as_str()) {
            return Some(names[i].clone());
        }
    }
    proof {
        assert(all.take(0).len() == 0);
    }
    None
}

} // verus!
