//! Laws of the tracker: what holds of the record over several steps.

use vstd::prelude::*;
use crate::handoff::{discovered, is_claim, Action};
use crate::names::is_player_name;
use crate::player::{InfoView, PlayerView};

verus! {

/// Whether two records agree on every field but the position.
pub open spec fn same_but_position(a: PlayerView, b: PlayerView) -> bool {
    a == (PlayerView { position: a.position, ..b })
}

/// Clearing twice gives what clearing once gives: the record in which
/// everything is absent.
pub proof fn lemma_clear_idempotent(s: PlayerView)
    ensures
        s.cleared().cleared() == s.cleared(),
        s.cleared() == PlayerView::empty(),
        s.cleared().wf(),
{
}

/// A hand-off from one player to the next. From the empty record, let player
/// `a` claim its name, then release it while no other player is registered,
/// then let player `b` claim its name, each player answering when asked.
/// Then the record is bound to `a`, then empty, then bound to `b` and holds
/// exactly what `b` answered; and a record is written exactly three times,
/// once for each of the three changes.
pub proof fn lemma_hand_off(
    a: Seq<char>,
    owner_a: Seq<char>,
    info_a: InfoView,
    listing: Option<Seq<Seq<char>>>,
    b: Seq<char>,
    owner_b: Seq<char>,
    info_b: InfoView,
)
    requires
        is_player_name(a),
        is_player_name(b),
        owner_a.len() > 0,
        owner_b.len() > 0,
        discovered(listing) is None,
    ensures
        ({
            let nobody = Seq::<char>::empty();
            let s0 = PlayerView::empty();
            let first = s0.owner_change_action(a, nobody, owner_a);
            let s1 = s0.after_owner_change(a, nobody, owner_a).filled(info_a);
            let second = s1.owner_change_action(a, owner_a, nobody);
            let left = s1.after_owner_change(a, owner_a, nobody);
            let search = left.discovery_action(listing);
            let s2 = left.after_discovery(listing);
            let third = s2.owner_change_action(b, nobody, owner_b);
            let s3 = s2.after_owner_change(b, nobody, owner_b).filled(info_b);
            &&& first == Action::Bind
            &&& s1 == PlayerView::bound_to(a).filled(info_a)
            &&& second == Action::Discover
            &&& search == Action::Emit
            &&& s2 == PlayerView::empty()
            &&& third == Action::Bind
            &&& s3.bus_name == Some(b)
            &&& s3 == PlayerView::bound_to(b).filled(info_b)
            &&& first.emissions() + second.emissions() + search.emissions() + third.emissions()
                == 3
        }),
{
}

/// While a player is tracked, an ownership change of any other name changes
/// nothing and writes nothing.
pub proof fn lemma_unrelated_change_ignored(
    s: PlayerView,
    name: Seq<char>,
    old_owner: Seq<char>,
    new_owner: Seq<char>,
)
    requires
        s.is_bound(),
        !s.tracks(name),
    ensures
        s.owner_change_action(name, old_owner, new_owner) == Action::Ignore,
        s.after_owner_change(name, old_owner, new_owner) == s,
        Action::Ignore.emissions() == 0,
{
}

/// While a player is tracked, no claim binds another: the record stays
/// bound to the player it tracks, and nothing is written.
pub proof fn lemma_no_double_bind(
    s: PlayerView,
    name: Seq<char>,
    old_owner: Seq<char>,
    new_owner: Seq<char>,
)
    requires
        s.is_bound(),
        is_claim(name, old_owner, new_owner),
    ensures
        s.owner_change_action(name, old_owner, new_owner) == Action::Ignore,
        s.after_owner_change(name, old_owner, new_owner) == s,
        Action::Ignore.emissions() == 0,
{
}

/// A player that answers for its status but not for its metadata: the
/// status is known, title, artist, album and length are absent, whatever
/// they were before, and the record is still written.
pub proof fn lemma_refresh_without_metadata(s: PlayerView, info: InfoView)
    requires
        s.is_bound(),
        info.status is Some,
        info.metadata is None,
    ensures
        s.filled(info).status == Some(crate::player::status_of(info.status->0)),
        s.filled(info).song_name is None,
        s.filled(info).artist is None,
        s.filled(info).album is None,
        s.filled(info).length is None,
        s.filled(info).bus_name == s.bus_name,
        Action::Bind.emissions() == 1,
        Action::Refresh.emissions() == 1,
{
}

/// While a track plays, `n` ticks move the position on by `n` times the
/// rate, from the start of the track where the position was absent, and
/// change nothing else.
pub proof fn lemma_ticks_accumulate(s: PlayerView, n: nat)
    requires
        s.is_ticking(),
        i64::MIN <= s.tick_origin() + n * s.tick_rate() <= i64::MAX,
    ensures
        same_but_position(s.ticked_times(n), s),
        s.ticked_times(n).is_ticking(),
        n > 0 ==> s.ticked_times(n).position == Some(
            (s.tick_origin() + n * s.tick_rate()) as i64,
        ),
        n == 0 ==> s.ticked_times(n) == s,
        s.ticked_times(n).tick_origin() == s.tick_origin() + n * s.tick_rate()
    decreases n,
{
    if n > 0 {
        let m = (n - 1) as nat;
        let o = s.tick_origin() as int;
        let r = s.tick_rate() as int;
        assert(i64::MIN <= o + m * r <= i64::MAX && o + m * r + r == o + n * r) by (nonlinear_arith)
            requires
                i64::MIN <= o <= i64::MAX,
                i64::MIN <= o + n * r <= i64::MAX,
                m == n - 1,
                n > 0,
        ;
        lemma_ticks_accumulate(s, m);
    }
}

/// An answer of the player overwrites what the ticks have counted: after a
/// refresh of a tracked player the position is the one answered.
pub proof fn lemma_refresh_overwrites_ticks(s: PlayerView, n: nat, info: InfoView)
    requires
        s.is_bound(),
    ensures
        s.ticked_times(n).filled(info) == s.filled(info),
        s.ticked_times(n).filled(info).position == info.position,
{
    lemma_ticks_keep_the_rest(s, n);
}

/// Ticks change the position and nothing else.
pub proof fn lemma_ticks_keep_the_rest(s: PlayerView, n: nat)
    ensures
        same_but_position(s.ticked_times(n), s),
    decreases n,
{
    if n > 0 {
        lemma_ticks_keep_the_rest(s, (n - 1) as nat);
    }
}

/// Ticks and a refresh never mix. Each tick and each refresh is one step on
/// the whole record. However many ticks come before a refresh and however
/// many after it, every record before the refresh holds the old fields and
/// every record after it holds the answered ones, the position apart.
pub proof fn lemma_refresh_never_mixes(s: PlayerView, before: nat, info: InfoView, after: nat)
    ensures
        same_but_position(s.ticked_times(before), s),
        same_but_position(s.ticked_times(before).filled(info).ticked_times(after), s.filled(info)),
{
    lemma_ticks_keep_the_rest(s, before);
    let refreshed = s.ticked_times(before).filled(info);
    lemma_ticks_keep_the_rest(refreshed, after);
    assert(same_but_position(refreshed, s.filled(info)));
}

/// In a record that keeps its invariant the tracked name is never empty.
pub proof fn lemma_tracked_name_nonempty(s: PlayerView)
    requires
        s.wf(),
        s.is_bound(),
    ensures
        s.bus_name->0.len() > 0,
        is_player_name(s.bus_name->0),
{
    crate::names::lemma_player_name_nonempty(s.bus_name->0);
}

/// Every step keeps the record's invariant.
pub proof fn lemma_steps_keep_wf(
    s: PlayerView,
    name: Seq<char>,
    old_owner: Seq<char>,
    new_owner: Seq<char>,
    listing: Option<Seq<Seq<char>>>,
    info: InfoView,
    position: i64,
)
    requires
        s.wf(),
    ensures
        s.after_owner_change(name, old_owner, new_owner).wf(),
        s.after_discovery(listing).wf(),
        s.filled(info).wf(),
        s.after_seek(name, position).wf(),
        s.ticked().wf(),
{
    if let Some(names) = listing {
        crate::names::lemma_chosen_player(names);
    }
}

} // verus!
