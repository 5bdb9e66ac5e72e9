//! The hand-off protocol: which player is tracked, and what the caller has
//! to do after each signal from the bus.
//!
//! Every function here decides and changes the record; none talks to the
//! bus. The caller performs what the returned [`Action`] names and hands the
//! answers back.

use vstd::prelude::*;
use vstd::string::*;
use crate::names::{chosen_player, find_player, has_player_prefix, is_player_name, texts};
use crate::player::{PlayerState, PlayerView};

verus! {

/// What the caller does once a signal has been handled.
#[derive(Clone, Copy, Debug, PartialEq, Eq, Structural)]
pub enum Action {
    /// Nothing changed: ask nothing, write nothing.
    Ignore,
    /// A player has just been bound: ask it, hand the answers to
    /// `fill_info`, subscribe to its signals, then write the record.
    Bind,
    /// The tracked player has changed: ask it, hand the answers to
    /// `fill_info`, then write the record.
    Refresh,
    /// The tracked player has left and the record is cleared: list the
    /// registered names and hand them to `rebind`, which says what follows.
    Discover,
    /// Write the record.
    Emit,
}

impl Action {
    /// How many records are written when the action is carried out. For
    /// `Discover` none is, since the `rebind` that follows answers with an
    /// action of its own.
    pub open spec fn emissions(self) -> nat {
        match self {
            Action::Ignore => 0,
            Action::Discover => 0,
            Action::Bind => 1,
            Action::Refresh => 1,
            Action::Emit => 1,
        }
    }

    /// Whether carrying out the action ends with writing the record.
    pub fn emits(&self) -> (r: bool)
        ensures
            r == (self.emissions() == 1),
            !r == (self.emissions() == 0),
    {
        match self {
            Action::Ignore => false,
            Action::Discover => false,
            Action::Bind => true,
            Action::Refresh => true,
            Action::Emit => true,
        }
    }
}

/// Whether an ownership change says that an application has just taken the
/// media-player name `name`: nobody owned it before, somebody does now.
pub open spec fn is_claim(name: Seq<char>, old_owner: Seq<char>, new_owner: Seq<char>) -> bool {
    is_player_name(name) && old_owner.len() == 0 && new_owner.len() > 0
}

/// Whether an ownership change says that the owner of the media-player name
/// `name` has given it up: somebody owned it before, nobody does now.
pub open spec fn is_release(name: Seq<char>, old_owner: Seq<char>, new_owner: Seq<char>) -> bool {
    is_player_name(name) && old_owner.len() > 0 && new_owner.len() == 0
}

/// The names that a listing holds, where the listing could be had.
pub open spec fn listed(listing: Option<Vec<String>>) -> Option<Seq<Seq<char>>> {
    match listing {
        Some(names) => Some(texts(names@)),
        None => None,
    }
}

/// The player that discovery yields: the chosen one among the listed names,
/// and none where the listing failed.
pub open spec fn discovered(listing: Option<Seq<Seq<char>>>) -> Option<Seq<char>> {
    match listing {
        Some(names) => chosen_player(names),
        None => None,
    }
}

impl PlayerView {
    /// Whether `player` is the tracked player.
    pub open spec fn tracks(self, player: Seq<char>) -> bool {
        self.bus_name == Some(player)
    }

    /// The action that follows an ownership change. A claim counts only
    /// while no player is tracked, a release only of the tracked name.
    pub open spec fn owner_change_action(
        self,
        name: Seq<char>,
        old_owner: Seq<char>,
        new_owner: Seq<char>,
    ) -> Action {
        if is_claim(name, old_owner, new_owner) && !self.is_bound() {
            Action::Bind
        } else if is_release(name, old_owner, new_owner) && self.tracks(name) {
            Action::Discover
        } else {
            Action::Ignore
        }
    }

    /// The record after an ownership change: bound to the claimed name,
    /// cleared after the release of the tracked name, and else as before.
    pub open spec fn after_owner_change(
        self,
        name: Seq<char>,
        old_owner: Seq<char>,
        new_owner: Seq<char>,
    ) -> PlayerView {
        match self.owner_change_action(name, old_owner, new_owner) {
            Action::Bind => PlayerView { bus_name: Some(name), ..self },
            Action::Discover => PlayerView::empty(),
            _ => self,
        }
    }

    /// The action that follows a discovery: nothing while a player is
    /// tracked; else `Bind` where a player was found and `Emit` where none
    /// was.
    pub open spec fn discovery_action(self, listing: Option<Seq<Seq<char>>>) -> Action {
        if self.is_bound() {
            Action::Ignore
        } else if discovered(listing) is Some {
            Action::Bind
        } else {
            Action::Emit
        }
    }

    /// The record after a discovery: bound to the player found, if no player
    /// was tracked and one was found, and else as before.
    pub open spec fn after_discovery(self, listing: Option<Seq<Seq<char>>>) -> PlayerView {
        match self.discovery_action(listing) {
            Action::Bind => PlayerView { bus_name: discovered(listing), ..self },
            _ => self,
        }
    }

    /// The action that follows a change of properties reported for `player`.
    pub open spec fn properties_action(self, player: Seq<char>) -> Action {
        if self.tracks(player) {
            Action::Refresh
        } else {
            Action::Ignore
        }
    }

    /// The action that follows a seek reported for `player`.
    pub open spec fn seek_action(self, player: Seq<char>) -> Action {
        if self.tracks(player) {
            Action::Emit
        } else {
            Action::Ignore
        }
    }

    /// The record after a seek of `player` to `position`: only the position
    /// changes, and only if `player` is tracked.
    pub open spec fn after_seek(self, player: Seq<char>, position: i64) -> PlayerView {
        if self.tracks(player) {
            PlayerView { position: Some(position), ..self }
        } else {
            self
        }
    }
}

impl PlayerState {
    /// Whether `player` is the tracked player.
    pub fn tracks(&self, player: &str) -> (r: bool)
        ensures
            r == self@.tracks(player@),
    {
        match &self.bus_name {
            Some(bound) => *bound == String::from_str(player),
            None => false,
        }
    }

    /// Handles a change of ownership of the bus name `name`.
    ///
    /// While no player is tracked, a claim of a media-player name binds the
    /// record to it and answers `Bind`. The release of the tracked name
    /// clears the record and answers `Discover`. Every other change, be it
    /// of a name that is no media player's, of another player than the
    /// tracked one, or a claim while a player is tracked, leaves the record
    /// as it is and answers `Ignore`.
    pub fn on_name_owner_changed(&mut self, name: String, old_owner: &str, new_owner: &str) -> (r:
        Action)
        ensures
            r == old(self)@.owner_change_action(name@, old_owner@, new_owner@),
            final(self)@ == old(self)@.after_owner_change(name@, old_owner@, new_owner@),
            old(self)@.wf() ==> final(self)@.wf(),
    {
        if !has_player_prefix(name.as_str()) {
            return Action::Ignore;
        }
        if old_owner.is_empty() && !new_owner.is_empty() && self.bus_name.is_none() {
            self.bus_name = Some(name);
            Action::Bind
        } else if !old_owner.is_empty() && new_owner.is_empty() && self.tracks(name.as_str()) {
            self.clear();
            Action::Discover
        } else {
            Action::Ignore
        }
    }

    /// Looks for a player to track among the registered names, at start and
    /// after the tracked player has left. `listing` is absent where the
    /// names could not be listed, which counts as no player found.
    ///
    /// While a player is tracked nothing changes and the answer is `Ignore`.
    /// Else the record is bound to the chosen player and the answer is
    /// `Bind`, or, with no player to choose, the answer is `Emit`.
    pub fn rebind(&mut self, listing: Option<Vec<String>>) -> (r: Action)
        ensures
            r == old(self)@.discovery_action(listed(listing)),
            final(self)@ == old(self)@.after_discovery(listed(listing)),
            old(self)@.wf() ==> final(self)@.wf(),
    {
        if self.bus_name.is_some() {
            return Action::Ignore;
        }
        let found = match &listing {
            Some(names) => find_player(names),
            None => None,
        };
        match found {
            Some(player) => {
                proof {
                    crate::names::lemma_chosen_player(texts(listing->0@));
                }
                self.bus_name = Some(player);
                Action::Bind
            },
            None => Action::Emit,
        }
    }

    /// Handles the notice that properties of `player` have changed: `Refresh`
    /// if `player` is tracked, `Ignore` if not.
    pub fn on_properties_changed(&self, player: &str) -> (r: Action)
        ensures
            r == self@.properties_action(player@),
    {
        if self.tracks(player) {
            Action::Refresh
        } else {
            Action::Ignore
        }
    }

    /// Handles the notice that `player` has jumped to `position`: if it is
    /// the tracked player, the position is taken over, nothing else changes
    /// and the answer is `Emit`; if not, the answer is `Ignore`.
    pub fn on_seeked(&mut self, player: &str, position: i64) -> (r: Action)
        ensures
            r == old(self)@.seek_action(player@),
            final(self)@ == old(self)@.after_seek(player@, position),
            old(self)@.wf() ==> final(self)@.wf(),
    {
        if self.tracks(player) {
            self.position = Some(position);
            Action::Emit
        } else {
            Action::Ignore
        }
    }
}

} // verus!
