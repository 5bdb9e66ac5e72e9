//! The cached record of the active player, and how answers from the player
//! are folded into it.

use vstd::prelude::*;
use vstd::string::*;
use crate::names::{text, texts};

verus! {

/// The text put between two artists of a track.
pub const ARTIST_SEPARATOR: &'static str = ", ";

/// What a player is doing.
#[derive(Clone, Copy, Debug, PartialEq, Eq, Structural)]
pub enum PlayerStatus {
    Playing,
    Paused,
    Stopped,
}

/// What is known of the active player. Every field is absent while no
/// player is tracked.
#[derive(Clone, Debug, PartialEq, Eq)]
pub struct PlayerState {
    /// The bus name of the tracked player.
    pub bus_name: Option<String>,
    /// The name the player shows to people.
    pub player_name: Option<String>,
    pub status: Option<PlayerStatus>,
    pub song_name: Option<String>,
    /// The artists of the track, joined by [`ARTIST_SEPARATOR`].
    pub artist: Option<String>,
    pub album: Option<String>,
    /// Microseconds into the track.
    pub position: Option<i64>,
    /// The track's duration in microseconds.
    pub length: Option<u64>,
    /// Microseconds of track time that pass per second: 1 000 000 is normal
    /// speed.
    pub playback_rate: Option<i64>,
}

/// The mathematical value of a [`PlayerState`].
pub ghost struct PlayerView {
    pub bus_name: Option<Seq<char>>,
    pub player_name: Option<Seq<char>>,
    pub status: Option<PlayerStatus>,
    pub song_name: Option<Seq<char>>,
    pub artist: Option<Seq<char>>,
    pub album: Option<Seq<char>>,
    pub position: Option<i64>,
    pub length: Option<u64>,
    pub playback_rate: Option<i64>,
}

/// The track description that a player gives.
#[derive(Clone, Debug, PartialEq, Eq)]
pub struct TrackMetadata {
    pub title: Option<String>,
    pub artists: Option<Vec<String>>,
    pub album: Option<String>,
    pub length: Option<u64>,
}

/// The mathematical value of a [`TrackMetadata`].
pub ghost struct MetadataView {
    pub title: Option<Seq<char>>,
    pub artists: Option<Seq<Seq<char>>>,
    pub album: Option<Seq<char>>,
    pub length: Option<u64>,
}

/// The answers of one player to the five questions put to it. An answer is
/// absent where its question failed.
#[derive(Clone, Debug, PartialEq, Eq)]
pub struct PlayerInfo {
    /// The playback status as the player words it.
    pub status: Option<String>,
    pub identity: Option<String>,
    pub metadata: Option<TrackMetadata>,
    pub position: Option<i64>,
    /// Microseconds of track time per second.
    pub rate: Option<i64>,
}

/// The mathematical value of a [`PlayerInfo`].
pub ghost struct InfoView {
    pub status: Option<Seq<char>>,
    pub identity: Option<Seq<char>>,
    pub metadata: Option<MetadataView>,
    pub position: Option<i64>,
    pub rate: Option<i64>,
}

impl View for TrackMetadata {
    type V = MetadataView;

    open spec fn view(&self) -> MetadataView {
        MetadataView {
            title: text(self.title),
            artists: match self.artists {
                Some(a) => Some(texts(a@)),
                None => None,
            },
            album: text(self.album),
            length: self.length,
        }
    }
}

impl View for PlayerInfo {
    type V = InfoView;

    open spec fn view(&self) -> InfoView {
        InfoView {
            status: text(self.status),
            identity: text(self.identity),
            metadata: match self.metadata {
                Some(m) => Some(m@),
                None => None,
            },
            position: self.position,
            rate: self.rate,
        }
    }
}

impl View for PlayerState {
    type V = PlayerView;

    open spec fn view(&self) -> PlayerView {
        PlayerView {
            bus_name: text(self.bus_name),
            player_name: text(self.player_name),
            status: self.status,
            song_name: text(self.song_name),
            artist: text(self.artist),
            album: text(self.album),
            position: self.position,
            length: self.length,
            playback_rate: self.playback_rate,
        }
    }
}

/// The status that a player's wording stands for: `Playing` and `Paused` for
/// these two words, `Stopped` for every other.
pub open spec fn status_of(word: Seq<char>) -> PlayerStatus {
    if word == "Playing"@ {
        PlayerStatus::Playing
    } else if word == "Paused"@ {
        PlayerStatus::Paused
    } else {
        PlayerStatus::Stopped
    }
}

/// `parts` one after the other, with `sep` between each two.
pub open spec fn joined(parts: Seq<Seq<char>>, sep: Seq<char>) -> Seq<char>
    decreases parts.len(),
{
    if parts.len() == 0 {
        Seq::empty()
    } else if parts.len() == 1 {
        parts[0]
    } else {
        joined(parts.drop_last(), sep) + sep + parts.last()
    }
}

impl MetadataView {
    /// The artists as one text, where they are known.
    pub open spec fn artist_line(self) -> Option<Seq<char>> {
        match self.artists {
            Some(a) => Some(joined(a, ARTIST_SEPARATOR@)),
            None => None,
        }
    }
}

impl InfoView {
    pub open spec fn title(self) -> Option<Seq<char>> {
        match self.metadata {
            Some(m) => m.title,
            None => None,
        }
    }

    pub open spec fn artist(self) -> Option<Seq<char>> {
        match self.metadata {
            Some(m) => m.artist_line(),
            None => None,
        }
    }

    pub open spec fn album(self) -> Option<Seq<char>> {
        match self.metadata {
            Some(m) => m.album,
            None => None,
        }
    }

    pub open spec fn length(self) -> Option<u64> {
        match self.metadata {
            Some(m) => m.length,
            None => None,
        }
    }

    pub open spec fn status(self) -> Option<PlayerStatus> {
        match self.status {
            Some(w) => Some(status_of(w)),
            None => None,
        }
    }
}

impl PlayerView {
    /// The record in which everything is absent.
    pub open spec fn empty() -> PlayerView {
        PlayerView {
            bus_name: None,
            player_name: None,
            status: None,
            song_name: None,
            artist: None,
            album: None,
            position: None,
            length: None,
            playback_rate: None,
        }
    }

    /// The record after it has been cleared: whatever it held, everything is
    /// absent.
    pub open spec fn cleared(self) -> PlayerView {
        PlayerView::empty()
    }

    /// The record that tracks `name` and knows nothing else yet.
    pub open spec fn bound_to(name: Seq<char>) -> PlayerView {
        PlayerView { bus_name: Some(name), ..PlayerView::empty() }
    }

    /// Whether a player is tracked.
    pub open spec fn is_bound(self) -> bool {
        self.bus_name is Some
    }

    /// The record's invariant: the tracked name is a media player's, and
    /// without a tracked name nothing else is known.
    pub open spec fn wf(self) -> bool {
        match self.bus_name {
            Some(n) => crate::names::is_player_name(n),
            None => self == PlayerView::empty(),
        }
    }

    /// The record after the answers `info` of the tracked player have been
    /// taken over: each field holds its answer, and is absent where the
    /// answer is. Without a tracked player the record stays as it is.
    pub open spec fn filled(self, info: InfoView) -> PlayerView {
        if self.is_bound() {
            PlayerView {
                bus_name: self.bus_name,
                player_name: info.identity,
                status: info.status(),
                song_name: info.title(),
                artist: info.artist(),
                album: info.album(),
                position: info.position,
                length: info.length(),
                playback_rate: info.rate,
            }
        } else {
            self
        }
    }
}

/// Reads a player's wording of its playback status.
pub fn parse_status(word: &String) -> (r: PlayerStatus)
    ensures
        r == status_of(word@),
{
    if *word == String::from_str("Playing") {
        PlayerStatus::Playing
    } else if *word == String::from_str("Paused") {
        PlayerStatus::Paused
    } else {
        PlayerStatus::Stopped
    }
}

/// Joins the artists of a track into one text, [`ARTIST_SEPARATOR`] between
/// each two.
pub fn join_artists(artists: &Vec<String>) -> (r: String)
    ensures
        r@ == joined(texts(artists@), ARTIST_SEPARATOR@),
{
    let ghost all = texts(artists@);
    let mut out = String::new();
    let mut i: usize = 0;
    while i < artists.len()
        invariant
            i <= artists.len(),
            all == texts(artists@),
            out@ == joined(all.take(i as int), ARTIST_SEPARATOR@),
        decreases artists.len() - i,
    {
        let ghost before = all.take(i as int);
        let ghost after = all.take(i + 1);
        proof {
            assert(after.drop_last() =~= before);
            assert(after.last() == artists@[i as int]@);
        }
        if i > 0 {
            out.append(ARTIST_SEPARATOR);
        } else {
            proof {
                assert(before.len() == 0);
                assert(out@ + artists@[i as int]@ =~= artists@[i as int]@);
            }
        }
        out.append(artists[i].as_str());
        i = i + 1;
    }
    proof {
        assert(all.take(i as int) =~= all);
    }
    out
}

impl PlayerState {
    /// The record of a watcher that tracks no player.
    pub fn new() -> (r: PlayerState)
        ensures
            r@ == PlayerView::empty(),
            r@.wf(),
    {
        PlayerState {
            bus_name: None,
            player_name: None,
            status: None,
            song_name: None,
            artist: None,
            album: None,
            position: None,
            length: None,
            playback_rate: None,
        }
    }

    /// Forgets the tracked player and all that was known of it.
    pub fn clear(&mut self)
        ensures
            final(self)@ == old(self)@.cleared(),
            final(self)@.wf(),
    {
        self.bus_name = None;
        self.player_name = None;
        self.status = None;
        self.song_name = None;
        self.artist = None;
        self.album = None;
        self.position = None;
        self.length = None;
        self.playback_rate = None;
    }

    /// Whether a player is tracked.
    pub fn is_bound(&self) -> (r: bool)
        ensures
            r == self@.is_bound(),
    {
        self.bus_name.is_some()
    }

    /// Takes over the answers of the tracked player. Every field but the bus
    /// name is overwritten: by its answer, or by nothing where the question
    /// failed. A failed metadata question leaves title, artist, album and
    /// length absent. Without a tracked player nothing changes.
    pub fn fill_info(&mut self, info: PlayerInfo)
        ensures
            final(self)@ == old(self)@.filled(info@),
            old(self)@.wf() ==> final(self)@.wf(),
    {
        if self.bus_name.is_none() {
            return ;
        }
        let PlayerInfo { status, identity, metadata, position, rate } = info;
        self.status = match status {
            Some(word) => Some(parse_status(&word)),
            None => None,
        };
        self.player_name = identity;
        self.position = position;
        self.playback_rate = rate;
        match metadata {
            Some(m) => {
                let TrackMetadata { title, artists, album, length } = m;
                self.artist = match artists {
                    Some(list) => Some(join_artists(&list)),
                    None => None,
                };
                self.song_name = title;
                self.album = album;
                self.length = length;
            },
            None => {
                self.artist = None;
                self.song_name = None;
                self.album = None;
                self.length = None;
            },
        }
    }
}

} // verus!
