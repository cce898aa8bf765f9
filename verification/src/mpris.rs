//! What the card needs of the desktop client's MPRIS interface, read from the
//! answer to a single `GetAll`.
use crate::text;
use crate::text::{behind_last, concat, is_plausible_id, join, same_text, strip_prefix};
use vstd::prelude::*;
use vstd::string::*;

verus! {

pub const DEST: &'static str = "org.mpris.MediaPlayer2.spotify";

pub const PATH: &'static str = "/org/mpris/MediaPlayer2";

pub const PLAYER: &'static str = "org.mpris.MediaPlayer2.Player";

pub const PROPS: &'static str = "org.freedesktop.DBus.Properties";

/// Where a track lives on the web; its id follows.
pub const TRACK_URL: &'static str = "https://open.spotify.com/track/";

/// Everything the card needs, from a single `GetAll`.
#[derive(PartialEq, Debug)]
pub struct Snapshot {
    pub playing: bool,
    pub title: String,
    pub artist: String,
    /// The client's own name for the track, which seeking needs.
    pub track_id: String,
    pub art_url: String,
    /// The track's address on the web, where the client gives one.
    pub url: String,
    pub position_us: i64,
    pub length_us: i64,
}

pub struct SnapshotView {
    pub playing: bool,
    pub title: Seq<char>,
    pub artist: Seq<char>,
    pub track_id: Seq<char>,
    pub art_url: Seq<char>,
    pub url: Seq<char>,
    pub position_us: i64,
    pub length_us: i64,
}

impl View for Snapshot {
    type V = SnapshotView;

    open spec fn view(&self) -> SnapshotView {
        SnapshotView {
            playing: self.playing,
            title: self.title@,
            artist: self.artist@,
            track_id: self.track_id@,
            art_url: self.art_url@,
            url: self.url@,
            position_us: self.position_us,
            length_us: self.length_us,
        }
    }
}

impl Clone for Snapshot {
    fn clone(&self) -> (copy: Self)
        ensures
            copy@ == self@,
    {
        Snapshot {
            playing: self.playing,
            title: self.title.clone(),
            artist: self.artist.clone(),
            track_id: self.track_id.clone(),
            art_url: self.art_url.clone(),
            url: self.url.clone(),
            position_us: self.position_us,
            length_us: self.length_us,
        }
    }
}

impl Default for Snapshot {
    fn default() -> (blank: Self)
        ensures
            blank@ == (SnapshotView {
                playing: false,
                title: Seq::empty(),
                artist: Seq::empty(),
                track_id: Seq::empty(),
                art_url: Seq::empty(),
                url: Seq::empty(),
                position_us: 0,
                length_us: 0,
            }),
    {
        Snapshot {
            playing: false,
            title: String::new(),
            artist: String::new(),
            track_id: String::new(),
            art_url: String::new(),
            url: String::new(),
            position_us: 0,
            length_us: 0,
        }
    }
}

/// A D-Bus value, as far as the interface uses them.
pub enum Variant {
    Text(String),
    ObjectPath(String),
    Texts(Vec<String>),
    Unsigned(u64),
    Signed(i64),
    Dict(Vec<(String, Variant)>),
    Other,
}

/// The value that `entries` give for `key`: the last of those that bear it.
pub open spec fn property(entries: Seq<(String, Variant)>, key: Seq<char>) -> Option<Variant>
    decreases entries.len(),
{
    if entries.len() == 0 {
        None
    } else if entries.last().0@ == key {
        Some(entries.last().1)
    } else {
        property(entries.drop_last(), key)
    }
}

/// A text property; an absent one, or one of another type, reads as empty.
pub open spec fn text_property(entries: Seq<(String, Variant)>, key: Seq<char>) -> Seq<char> {
    match property(entries, key) {
        Some(Variant::Text(s)) => s@,
        _ => Seq::empty(),
    }
}

/// A track id, which some clients give as a text and others as an object path.
pub open spec fn id_property(entries: Seq<(String, Variant)>, key: Seq<char>) -> Option<Seq<char>> {
    match property(entries, key) {
        Some(Variant::Text(s)) => Some(s@),
        Some(Variant::ObjectPath(s)) => Some(s@),
        _ => None,
    }
}

/// The bits of `n` read as a signed number.
pub open spec fn as_signed(n: u64) -> int {
    if n <= i64::MAX {
        n as int
    } else {
        n - 0x1_0000_0000_0000_0000
    }
}

/// The length of a track, which some clients give as an unsigned number and
/// others as a signed one.
pub open spec fn length_property(entries: Seq<(String, Variant)>) -> int {
    match property(entries, "mpris:length"@) {
        Some(Variant::Unsigned(n)) => as_signed(n),
        Some(Variant::Signed(n)) => n as int,
        _ => 0,
    }
}

pub open spec fn artist_property(entries: Seq<(String, Variant)>) -> Seq<char> {
    match property(entries, "xesam:artist"@) {
        Some(Variant::Texts(names)) => text::joined(text::texts(names@), ", "@),
        _ => Seq::empty(),
    }
}

pub open spec fn position_property(entries: Seq<(String, Variant)>) -> i64 {
    match property(entries, "Position"@) {
        Some(Variant::Signed(n)) => n,
        _ => 0,
    }
}

/// The entries of the track's metadata; none where the properties hold no such
/// map.
pub open spec fn metadata(props: Seq<(String, Variant)>) -> Seq<(String, Variant)> {
    match property(props, "Metadata"@) {
        Some(Variant::Dict(meta)) => meta@,
        _ => Seq::empty(),
    }
}

/// What the properties of the player interface say.
pub open spec fn snapshot_of(props: Seq<(String, Variant)>) -> SnapshotView {
    let meta = metadata(props);
    SnapshotView {
        playing: text_property(props, "PlaybackStatus"@) == "Playing"@,
        title: text_property(meta, "xesam:title"@),
        artist: artist_property(meta),
        track_id: match property(meta, "xesam:trackid"@) {
            Some(Variant::Text(s)) => s@,
            _ => match id_property(meta, "mpris:trackid"@) {
                Some(id) => id,
                None => Seq::empty(),
            },
        },
        art_url: text_property(meta, "mpris:artUrl"@),
        url: text_property(meta, "xesam:url"@),
        position_us: position_property(props),
        length_us: length_property(meta) as i64,
    }
}

pub open spec fn opt_snapshot(snap: Option<Snapshot>) -> Option<SnapshotView> {
    match snap {
        Some(snap) => Some(snap@),
        None => None,
    }
}

fn find<'a>(entries: &'a Vec<(String, Variant)>, key: &str) -> (value: Option<&'a Variant>)
    ensures
        value matches Some(v) ==> property(entries@, key@) == Some(*v),
        value is None ==> property(entries@, key@) is None,
{
    let mut i: usize = entries.len();
    proof {
        assert(entries@.take(i as int) == entries@);
    }
    while i > 0
        invariant
            i <= entries@.len(),
            property(entries@, key@) == property(entries@.take(i as int), key@),
        decreases i,
    {
        proof {
            assert(entries@.take(i as int).drop_last() == entries@.take(i - 1));
        }
        if same_text(entries[i - 1].0.as_str(), key) {
            return Some(&entries[i - 1].1);
        }
        i = i - 1;
    }
    None
}

fn text_of(entries: &Vec<(String, Variant)>, key: &str) -> (text: String)
    ensures
        text@ == text_property(entries@, key@),
{
    match find(entries, key) {
        Some(Variant::Text(s)) => s.clone(),
        _ => String::new(),
    }
}

fn id_of(entries: &Vec<(String, Variant)>, key: &str) -> (id: Option<String>)
    ensures
        text::opt_text(id) == id_property(entries@, key@),
{
    match find(entries, key) {
        Some(Variant::Text(s)) => Some(s.clone()),
        Some(Variant::ObjectPath(s)) => Some(s.clone()),
        _ => None,
    }
}

fn length_of(meta: &Vec<(String, Variant)>) -> (length: i64)
    ensures
        length == length_property(meta@),
{
    match find(meta, "mpris:length") {
        Some(Variant::Unsigned(n)) => {
            let n = *n;
            let signed = n as i64;
            proof {
                assert(n <= 0x7fff_ffff_ffff_ffffu64 ==> n as i64 == n) by (bit_vector);
                assert(n > 0x7fff_ffff_ffff_ffffu64 ==> n as i64 == n - 0x1_0000_0000_0000_0000)
                    by (bit_vector);
            }
            signed
        },
        Some(Variant::Signed(n)) => *n,
        _ => 0,
    }
}

/// Reads the answer to `GetAll`. Clients that give `mpris:trackid` as a text and
/// those that give an object path are both understood, and so are unsigned and
/// signed lengths; a text under `xesam:trackid` takes precedence. A player that answers without metadata is still there: what
/// it does not say reads as empty.
pub fn snapshot(props: &Vec<(String, Variant)>) -> (snap: Snapshot)
    ensures
        snap@ == snapshot_of(props@),
{
    let none: Vec<(String, Variant)> = Vec::new();
    let meta = match find(props, "Metadata") {
        Some(Variant::Dict(meta)) => meta,
        _ => &none,
    };
    let track_id = match find(meta, "xesam:trackid") {
        Some(Variant::Text(s)) => s.clone(),
        _ => match id_of(meta, "mpris:trackid") {
            Some(id) => id,
            None => String::new(),
        },
    };
    let artist = match find(meta, "xesam:artist") {
        Some(Variant::Texts(names)) => join(names, ", "),
        _ => String::new(),
    };
    let position_us = match find(props, "Position") {
        Some(Variant::Signed(n)) => *n,
        _ => 0,
    };
    let status = text_of(props, "PlaybackStatus");
    Snapshot {
        playing: same_text(status.as_str(), "Playing"),
        title: text_of(meta, "xesam:title"),
        artist,
        track_id,
        art_url: text_of(meta, "mpris:artUrl"),
        url: text_of(meta, "xesam:url"),
        position_us,
        length_us: length_of(meta),
    }
}

/// The bare id of the track in a snapshot: from its address on the web where
/// that is one of a track, else the last segment of the client's track path.
pub open spec fn id_in(snap: SnapshotView) -> Option<Seq<char>> {
    match text::behind_prefix(snap.url, TRACK_URL@) {
        Some(id) if text::plausible_id(id) => Some(id),
        _ => {
            let id = text::last_segment(snap.track_id, '/');
            if text::plausible_id(id) {
                Some(id)
            } else {
                None
            }
        },
    }
}

/// Spotify's own track path looks like `/com/spotify/track/<base62>`; the Web
/// API wants the last segment on its own. A client that names its tracks
/// otherwise gives the track's address on the web, which takes precedence.
pub fn spotify_id(snap: &Snapshot) -> (id: Option<String>)
    ensures
        text::opt_text(id) == id_in(snap@),
{
    if let Some(id) = strip_prefix(snap.url.as_str(), TRACK_URL) {
        if is_plausible_id(id) {
            return Some(id.to_owned());
        }
    }
    let id = behind_last(snap.track_id.as_str(), '/');
    if is_plausible_id(id) {
        Some(id.to_owned())
    } else {
        None
    }
}

/// The clean address of a track, without any share parameter.
pub open spec fn link(id: Seq<char>) -> Seq<char> {
    TRACK_URL@ + id
}

pub fn track_link(id: &str) -> (url: String)
    ensures
        url@ == link(id@),
{
    concat(TRACK_URL, id)
}

/// An id that is read off a snapshot is one that the Web API takes.
pub proof fn law_id_is_plausible(snap: SnapshotView)
    ensures
        id_in(snap) matches Some(id) ==> text::plausible_id(id),
{
}

/// The id is read back from the clean address of its track.
pub proof fn law_id_of_link(snap: SnapshotView, id: Seq<char>)
    requires
        text::plausible_id(id),
        snap.url == link(id),
    ensures
        id_in(snap) == Some(id),
{
    assert(TRACK_URL@.is_prefix_of(snap.url));
    assert(snap.url.skip(TRACK_URL@.len() as int) == id);
}

/// The id is read back from a track path, whatever stands before its last
/// slash, when the client gives no address on the web.
pub proof fn law_id_of_path(snap: SnapshotView, front: Seq<char>, id: Seq<char>)
    requires
        text::plausible_id(id),
        snap.track_id == front.push('/') + id,
        snap.url.len() == 0,
    ensures
        id_in(snap) == Some(id),
{
    reveal_strlit("https://open.spotify.com/track/");
    text::lemma_last_segment(front, '/', id);
}

/// The clean address of a track carries no query, so no share parameter.
pub proof fn law_link_is_clean(id: Seq<char>)
    requires
        text::plausible_id(id),
    ensures
        !link(id).contains('?'),
{
    reveal_strlit("https://open.spotify.com/track/");
    assert forall|i: int| 0 <= i < link(id).len() implies link(id)[i] != '?' by {
        if i >= TRACK_URL@.len() {
            assert(link(id)[i] == id[i - TRACK_URL@.len()]);
        }
    }
}

/// A player whose answer holds no metadata is read all the same: nothing is
/// known of a track, but whether and where it plays is.
pub proof fn law_absent_metadata_reads_as_empty(props: Seq<(String, Variant)>)
    requires
        !(property(props, "Metadata"@) matches Some(Variant::Dict(_))),
    ensures
        snapshot_of(props) == (SnapshotView {
            playing: text_property(props, "PlaybackStatus"@) == "Playing"@,
            title: Seq::empty(),
            artist: Seq::empty(),
            track_id: Seq::empty(),
            art_url: Seq::empty(),
            url: Seq::empty(),
            position_us: position_property(props),
            length_us: 0,
        }),
{
}

/// An unsigned and a signed length of one value read alike.
pub proof fn law_lengths_read_alike(
    unsigned: Seq<(String, Variant)>,
    signed: Seq<(String, Variant)>,
    n: u64,
)
    requires
        n <= i64::MAX,
        property(unsigned, "mpris:length"@) == Some(Variant::Unsigned(n)),
        property(signed, "mpris:length"@) == Some(Variant::Signed(n as i64)),
    ensures
        length_property(unsigned) == n,
        length_property(signed) == n,
{
}

/// Of the entries that bear a key the last counts; no other entry bears on it.
pub proof fn law_the_last_entry_counts(
    entries: Seq<(String, Variant)>,
    name: String,
    value: Variant,
    key: Seq<char>,
)
    ensures
        property(Seq::empty(), key) is None,
        name@ == key ==> property(entries.push((name, value)), key) == Some(value),
        name@ != key ==> property(entries.push((name, value)), key) == property(entries, key),
{
    let more = entries.push((name, value));
    assert(more.drop_last() == entries);
    assert(more.last() == (name, value));
}

/// Whether a text is what a property says, where that is a text, and else empty.
pub open spec fn says(value: Option<Variant>, s: Seq<char>) -> bool {
    match value {
        Some(Variant::Text(t)) => s == t@,
        _ => s.len() == 0,
    }
}

/// Whether a track id is what its two properties say: a text under the first, or
/// else a text or an object path under the second.
pub open spec fn identifies(first: Option<Variant>, second: Option<Variant>, id: Seq<char>) -> bool {
    match (first, second) {
        (Some(Variant::Text(t)), _) => id == t@,
        (_, Some(Variant::Text(t))) => id == t@,
        (_, Some(Variant::ObjectPath(p))) => id == p@,
        _ => id.len() == 0,
    }
}

/// Every part of a snapshot is what the player says of it, each under its own
/// name.
pub proof fn law_a_snapshot_is_what_the_player_says(
    props: Seq<(String, Variant)>,
    meta: Vec<(String, Variant)>,
)
    requires
        property(props, "Metadata"@) == Some(Variant::Dict(meta)),
    ensures
        ({
            let snap = snapshot_of(props);
            &&& says(property(meta@, "xesam:title"@), snap.title)
            &&& says(property(meta@, "mpris:artUrl"@), snap.art_url)
            &&& says(property(meta@, "xesam:url"@), snap.url)
            &&& identifies(
                property(meta@, "xesam:trackid"@),
                property(meta@, "mpris:trackid"@),
                snap.track_id,
            )
            &&& match property(meta@, "xesam:artist"@) {
                Some(Variant::Texts(names)) => snap.artist == text::joined(
                    text::texts(names@),
                    ", "@,
                ),
                _ => snap.artist.len() == 0,
            }
            &&& match property(meta@, "mpris:length"@) {
                Some(Variant::Signed(n)) => snap.length_us == n,
                Some(Variant::Unsigned(n)) => (n - snap.length_us) % 0x1_0000_0000_0000_0000 == 0,
                _ => snap.length_us == 0,
            }
        }),
{
}

/// Whether and where it plays is read beside the metadata: it plays only where it
/// says just that.
pub proof fn law_playing_is_read_beside_the_metadata(props: Seq<(String, Variant)>)
    ensures
        ({
            let snap = snapshot_of(props);
            &&& snap.playing <==> (property(props, "PlaybackStatus"@) matches Some(Variant::Text(s))
                && s@ == "Playing"@)
            &&& match property(props, "Position"@) {
                Some(Variant::Signed(n)) => snap.position_us == n,
                _ => snap.position_us == 0,
            }
        }),
{
    reveal_strlit("Playing");
    let said = text_property(props, "PlaybackStatus"@);
    assert(said.len() == 0 ==> said != "Playing"@);
    if let Some(Variant::Text(s)) = property(props, "PlaybackStatus"@) {
        assert(said == s@);
    }
}

/// A track's address on the web is this one and the track's id.
pub proof fn law_a_link_ends_in_the_id(id: Seq<char>)
    ensures
        link(id) == "https://open.spotify.com/track/"@ + id,
{
}

/// Where the client gives no address of a track on the web, the id is what follows
/// the last slash of its track path, or none where that is no id.
pub proof fn law_the_path_gives_the_id_otherwise(snap: SnapshotView)
    requires
        forall|id: Seq<char>|
            text::plausible_id(id) ==> snap.url != #[trigger] ("https://open.spotify.com/track/"@
                + id),
    ensures
        ({
            let segment = text::last_segment(snap.track_id, '/');
            &&& text::plausible_id(segment) ==> id_in(snap) == Some(segment)
            &&& !text::plausible_id(segment) ==> id_in(snap) is None
        }),
{
    if TRACK_URL@.is_prefix_of(snap.url) {
        let rest = snap.url.skip(TRACK_URL@.len() as int);
        assert(snap.url == TRACK_URL@ + rest) by {
            assert forall|i: int| 0 <= i < TRACK_URL@.len() implies snap.url[i] == TRACK_URL@[i] by {
                assert(snap.url.subrange(0, TRACK_URL@.len() as int)[i] == TRACK_URL@[i]);
            }
        }
        assert(snap.url == "https://open.spotify.com/track/"@ + rest);
        assert(!text::plausible_id(rest));
    }
}

/// A snapshot is seen as it is.
pub proof fn law_a_snapshot_is_seen_as_it_is(snap: Snapshot)
    ensures
        opt_snapshot(Some(snap)) == Some(
            SnapshotView {
                playing: snap.playing,
                title: snap.title@,
                artist: snap.artist@,
                track_id: snap.track_id@,
                art_url: snap.art_url@,
                url: snap.url@,
                position_us: snap.position_us,
                length_us: snap.length_us,
            },
        ),
        opt_snapshot(None) is None,
{
}

/// The player is found on the session bus by these names.
pub proof fn law_the_player_is_found_by_name()
    ensures
        DEST@ == "org.mpris.MediaPlayer2.spotify"@,
        PATH@ == "/org/mpris/MediaPlayer2"@,
        PLAYER@ == "org.mpris.MediaPlayer2.Player"@,
        PROPS@ == "org.freedesktop.DBus.Properties"@,
{
}

} // verus!
