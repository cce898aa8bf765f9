//! The Spotify Web API, for the things MPRIS can't answer: the up-next list and
//! whether the current track is in the user's library. This module builds the
//! requests and reads the replies.
use crate::json::{array_tree, json_text, lemma_array_tree, parse_json, Json, Tree};
use crate::text;
use crate::text::{concat, join, path_below, same_text};
use vstd::prelude::*;
use vstd::string::*;

verus! {

pub const QUEUE_URL: &'static str = "https://api.spotify.com/v1/me/player/queue";

pub const HISTORY_URL: &'static str = "https://api.spotify.com/v1/me/player/recently-played?limit=1";

pub const SAVED_URL: &'static str = "https://api.spotify.com/v1/me/tracks";

pub struct Track {
    /// Bare base-62 id. Empty for anything Spotify doesn't give one for (local
    /// files, some podcast items), which [`Track::is`] treats as "never equal".
    pub id: String,
    pub title: String,
    pub artist: String,
}

pub struct TrackView {
    pub id: Seq<char>,
    pub title: Seq<char>,
    pub artist: Seq<char>,
}

impl View for Track {
    type V = TrackView;

    open spec fn view(&self) -> TrackView {
        TrackView { id: self.id@, title: self.title@, artist: self.artist@ }
    }
}

impl Clone for Track {
    fn clone(&self) -> (copy: Self)
        ensures
            copy@ == self@,
    {
        Track { id: self.id.clone(), title: self.title.clone(), artist: self.artist.clone() }
    }
}

impl Default for Track {
    fn default() -> (blank: Self)
        ensures
            blank@ == (TrackView { id: Seq::empty(), title: Seq::empty(), artist: Seq::empty() }),
    {
        Track { id: String::new(), title: String::new(), artist: String::new() }
    }
}

impl TrackView {
    /// Identity comparison that refuses to match on an absent id.
    pub open spec fn is(self, id: Seq<char>) -> bool {
        self.id.len() > 0 && self.id == id
    }
}

impl Track {
    /// Identity comparison that refuses to match on an absent id.
    pub fn is(&self, id: &str) -> (same: bool)
        ensures
            same == self@.is(id@),
    {
        !self.id.as_str().is_empty() && same_text(self.id.as_str(), id)
    }
}

pub struct Queue {
    /// What the Web API thinks is playing. Worth having because Spotify's MPRIS
    /// interface only publishes the *primary* artist, so "Forever" arrives over
    /// D-Bus as just "Drake".
    pub now: Option<Track>,
    pub next: Vec<Track>,
}

pub struct QueueView {
    pub now: Option<TrackView>,
    pub next: Seq<TrackView>,
}

pub open spec fn opt_track(track: Option<Track>) -> Option<TrackView> {
    match track {
        Some(track) => Some(track@),
        None => None,
    }
}

pub open spec fn tracks(list: Seq<Track>) -> Seq<TrackView> {
    list.map_values(|t: Track| t@)
}

impl View for Queue {
    type V = QueueView;

    open spec fn view(&self) -> QueueView {
        QueueView { now: opt_track(self.now), next: tracks(self.next@) }
    }
}

pub type Res<T> = Result<T, String>;

/// A reply's text, or the message of what went wrong.
pub open spec fn reply_text(reply: Res<String>) -> Result<Seq<char>, Seq<char>> {
    match reply {
        Ok(body) => Ok(body@),
        Err(why) => Err(why@),
    }
}

pub open spec fn cache_dir_in(home: Seq<char>) -> Seq<char> {
    text::below(home, ".cache/spotify-peek"@)
}

/// Where this tool keeps what it caches, below the user's home.
pub fn cache_dir(home: &str) -> (path: String)
    ensures
        path@ == cache_dir_in(home@),
{
    path_below(home, ".cache/spotify-peek")
}

pub open spec fn or_empty(s: Option<Seq<char>>) -> Seq<char> {
    match s {
        Some(s) => s,
        None => Seq::empty(),
    }
}

/// The names of those artists that have one.
pub open spec fn names_in(artists: Seq<Tree>) -> Seq<Seq<char>> {
    artists.filter_map(|a: Tree| a.text_member("name"@))
}

/// The artists of an item, by name, as the card shows them.
pub open spec fn artists_in(item: Tree) -> Seq<char> {
    match item.array_member("artists"@) {
        Some(artists) => text::joined(names_in(artists), ", "@),
        None => Seq::empty(),
    }
}

/// The track that an item of a reply describes.
pub open spec fn track_in(item: Tree) -> TrackView {
    TrackView {
        id: or_empty(item.text_member("id"@)),
        title: or_empty(item.text_member("name"@)),
        artist: artists_in(item),
    }
}

pub fn artists_of(item: &Json) -> (artists: String)
    ensures
        artists@ == artists_in(item@),
{
    match item.array_member("artists") {
        Some(artists) => {
            let mut names: Vec<String> = Vec::new();
            let mut i: usize = 0;
            let ghost all = array_tree(artists@);
            let ghost name = |a: Tree| a.text_member("name"@);
            proof {
                lemma_array_tree(artists@);
                assert(all.take(0) == Seq::<Tree>::empty());
                reveal(Seq::filter_map);
                assert(text::texts(names@) == all.take(0).filter_map(name));
            }
            while i < artists.len()
                invariant
                    all == array_tree(artists@),
                    all.len() == artists@.len(),
                    forall|j: int| 0 <= j < artists@.len() ==> #[trigger] all[j] == artists@[j].tree(),
                    name == (|a: Tree| a.text_member("name"@)),
                    i <= artists@.len(),
                    text::texts(names@) == all.take(i as int).filter_map(name),
                decreases artists@.len() - i,
            {
                proof {
                    all.lemma_filter_map_take_succ(name, i as int);
                }
                let ghost before = names@;
                if let Some(found) = artists[i].text_member("name") {
                    names.push(found);
                    proof {
                        assert(text::texts(names@) == text::texts(before).push(found@));
                    }
                }
                i = i + 1;
            }
            proof {
                assert(all.take(i as int) == all);
            }
            join(&names, ", ")
        },
        None => String::new(),
    }
}

fn text_or_empty(item: &Json, name: &str) -> (text: String)
    ensures
        text@ == or_empty(item@.text_member(name@)),
{
    match item.text_member(name) {
        Some(s) => s,
        None => String::new(),
    }
}

pub fn parse_track(item: &Json) -> (track: Track)
    ensures
        track@ == track_in(item@),
{
    Track {
        id: text_or_empty(item, "id"),
        title: text_or_empty(item, "name"),
        artist: artists_of(item),
    }
}

pub open spec fn at_most(limit: nat, len: nat) -> int {
    if limit < len {
        limit as int
    } else {
        len as int
    }
}

/// What a reply of the queue endpoint says: what is playing, and the first
/// `limit` tracks of the queue. `None` where it holds no queue.
pub open spec fn queue_in(doc: Tree, limit: nat) -> Option<QueueView> {
    match doc.array_member("queue"@) {
        Some(items) => Some(
            QueueView {
                now: match doc.member("currently_playing"@) {
                    Some(Tree::Null) => None,
                    Some(item) => Some(track_in(item)),
                    None => None,
                },
                next: items.take(at_most(limit, items.len())).map_values(|t: Tree| track_in(t)),
            },
        ),
        None => None,
    }
}

pub open spec fn opt_queue(queue: Option<Queue>) -> Option<QueueView> {
    match queue {
        Some(queue) => Some(queue@),
        None => None,
    }
}

pub fn queue_of(doc: &Json, limit: usize) -> (queue: Option<Queue>)
    ensures
        opt_queue(queue) == queue_in(doc@, limit as nat),
{
    match doc.array_member("queue") {
        Some(items) => {
            let ghost all = array_tree(items@);
            proof {
                lemma_array_tree(items@);
            }
            let mut next: Vec<Track> = Vec::new();
            let mut i: usize = 0;
            while i < items.len() && i < limit
                invariant
                    all == array_tree(items@),
                    all.len() == items@.len(),
                    forall|j: int| 0 <= j < items@.len() ==> #[trigger] all[j] == items@[j].tree(),
                    i <= items@.len(),
                    i <= limit,
                    tracks(next@) == all.take(i as int).map_values(|t: Tree| track_in(t)),
                decreases items@.len() - i,
            {
                let ghost before = next@;
                let track = parse_track(&items[i]);
                next.push(track);
                i = i + 1;
                proof {
                    assert(tracks(next@) == tracks(before).push(track@));
                    assert(all.take(i as int).map_values(|t: Tree| track_in(t)) == all.take(
                        i - 1,
                    ).map_values(|t: Tree| track_in(t)).push(track@));
                }
            }
            let now = match doc.member("currently_playing") {
                Some(Json::Null) => None,
                Some(item) => Some(parse_track(item)),
                None => None,
            };
            Some(Queue { now, next })
        },
        None => None,
    }
}

pub open spec fn queue_result(queue: Res<Queue>) -> Result<QueueView, Seq<char>> {
    match queue {
        Ok(queue) => Ok(queue@),
        Err(why) => Err(why@),
    }
}

/// What becomes of a queue reply that parsed, or failed to.
pub open spec fn queue_from(parsed: Result<Tree, Seq<char>>, limit: nat) -> Result<
    QueueView,
    Seq<char>,
> {
    match parsed {
        Ok(doc) => match queue_in(doc, limit) {
            Some(queue) => Ok(queue),
            None => Err("queue: no queue in response"@),
        },
        Err(why) => Err("queue: "@ + why),
    }
}

pub fn parse_queue(body: &str, limit: usize) -> (queue: Res<Queue>)
    ensures
        queue_result(queue) == queue_from(json_text(body@), limit as nat),
{
    match parse_json(body) {
        Ok(doc) => match queue_of(&doc, limit) {
            Some(queue) => Ok(queue),
            None => Err("queue: no queue in response".to_owned()),
        },
        Err(why) => Err(concat("queue: ", why.as_str())),
    }
}

/// The track that a reply of the history endpoint names first.
pub open spec fn history_in(doc: Tree) -> Option<TrackView> {
    match doc.array_member("items"@) {
        Some(items) => if items.len() > 0 {
            match items[0].member("track"@) {
                Some(item) => Some(track_in(item)),
                None => None,
            }
        } else {
            None
        },
        None => None,
    }
}

pub fn history_of(doc: &Json) -> (track: Option<Track>)
    ensures
        opt_track(track) == history_in(doc@),
{
    match doc.array_member("items") {
        Some(items) => {
            proof {
                lemma_array_tree(items@);
            }
            if items.len() > 0 {
                match items[0].member("track") {
                    Some(item) => Some(parse_track(item)),
                    None => None,
                }
            } else {
                None
            }
        },
        None => None,
    }
}

pub open spec fn track_result(track: Res<Option<Track>>) -> Result<Option<TrackView>, Seq<char>> {
    match track {
        Ok(track) => Ok(opt_track(track)),
        Err(why) => Err(why@),
    }
}

/// What becomes of a history reply that parsed, or failed to.
pub open spec fn history_from(parsed: Result<Tree, Seq<char>>) -> Result<
    Option<TrackView>,
    Seq<char>,
> {
    match parsed {
        Ok(doc) => Ok(history_in(doc)),
        Err(why) => Err("history: "@ + why),
    }
}

pub fn parse_recently_played(body: &str) -> (track: Res<Option<Track>>)
    ensures
        track_result(track) == history_from(json_text(body@)),
{
    match parse_json(body) {
        Ok(doc) => Ok(history_of(&doc)),
        Err(why) => Err(concat("history: ", why.as_str())),
    }
}

/// Whether a reply of the library check says that the one track asked about is
/// saved. `None` where it says neither.
pub open spec fn liked_in(doc: Tree) -> Option<bool> {
    match doc.item(0) {
        Some(Tree::Bool(liked)) => Some(liked),
        _ => None,
    }
}

pub fn liked_of(doc: &Json) -> (liked: Option<bool>)
    ensures
        liked == liked_in(doc@),
{
    match doc.item(0) {
        Some(Json::Bool(liked)) => Some(*liked),
        _ => None,
    }
}

pub open spec fn bool_result(liked: Res<bool>) -> Result<bool, Seq<char>> {
    match liked {
        Ok(liked) => Ok(liked),
        Err(why) => Err(why@),
    }
}

/// What becomes of a library check's reply that parsed, or failed to.
pub open spec fn liked_from(body: Seq<char>, parsed: Result<Tree, Seq<char>>) -> Result<
    bool,
    Seq<char>,
> {
    match parsed {
        Ok(doc) => match liked_in(doc) {
            Some(liked) => Ok(liked),
            None => Err("liked: unexpected response "@ + body),
        },
        Err(_) => Err("liked: unexpected response "@ + body),
    }
}

pub fn parse_liked(body: &str) -> (liked: Res<bool>)
    ensures
        bool_result(liked) == liked_from(body@, json_text(body@)),
{
    if let Ok(doc) = parse_json(body) {
        if let Some(liked) = liked_of(&doc) {
            return Ok(liked);
        }
    }
    Err(concat("liked: unexpected response ", body))
}

/// The track played before the current one, for the `prev` end of the window,
/// out of the history endpoint's reply.
///
/// Only needed when local history can't supply it — normally the track we just
/// left *is* the previous one, for free.
pub fn previously_played(reply: Res<String>) -> (track: Res<Option<Track>>)
    ensures
        track_result(track) == match reply_text(reply) {
            Ok(body) => history_from(json_text(body)),
            Err(why) => Err(why),
        },
{
    match reply {
        Ok(body) => parse_recently_played(body.as_str()),
        Err(why) => Err(why),
    }
}

/// What Spotify is playing and the next `limit` tracks, out of the queue
/// endpoint's reply. The queue comes back empty when no device holds an active
/// playback session.
pub fn queue(reply: Res<String>, limit: usize) -> (queue: Res<Queue>)
    ensures
        queue_result(queue) == match reply_text(reply) {
            Ok(body) => queue_from(json_text(body), limit as nat),
            Err(why) => Err(why),
        },
{
    match reply {
        Ok(body) => parse_queue(body.as_str(), limit),
        Err(why) => Err(why),
    }
}

/// Whether a track is in the user's library, out of the library check's reply.
pub fn is_liked(reply: Res<String>) -> (liked: Res<bool>)
    ensures
        bool_result(liked) == match reply_text(reply) {
            Ok(body) => liked_from(body, json_text(body)),
            Err(why) => Err(why),
        },
{
    match reply {
        Ok(body) => parse_liked(body.as_str()),
        Err(why) => Err(why),
    }
}

#[derive(PartialEq, Eq, Structural, Clone, Copy, Debug)]
pub enum Method {
    Get,
    Put,
    Delete,
}

/// A request to the Web API. None of them carries a body.
pub struct Request {
    pub method: Method,
    pub url: String,
    /// The value of the `Authorization` header.
    pub authorization: String,
}

pub struct RequestView {
    pub method: Method,
    pub url: Seq<char>,
    pub authorization: Seq<char>,
}

impl View for Request {
    type V = RequestView;

    open spec fn view(&self) -> RequestView {
        RequestView { method: self.method, url: self.url@, authorization: self.authorization@ }
    }
}

pub open spec fn bearer(token: Seq<char>) -> Seq<char> {
    "Bearer "@ + token
}

/// What a failure to ask for the track played last is reported under.
pub const HISTORY: &'static str = "history";

/// What a failure to ask for the queue is reported under.
pub const QUEUE: &'static str = "queue";

/// What a failure to ask whether a track is saved is reported under.
pub const LIKED: &'static str = "liked";

/// What a failure to save a track or to take it out is reported under.
pub const SET_LIKED: &'static str = "set liked";

/// Asks for the track played last.
pub fn history_request(token: &str) -> (request: Request)
    ensures
        request@ == (RequestView { method: Method::Get, url: HISTORY_URL@, authorization: bearer(token@) }),
{
    Request {
        method: Method::Get,
        url: HISTORY_URL.to_owned(),
        authorization: concat("Bearer ", token),
    }
}

/// Asks for what is playing and the queue behind it.
pub fn queue_request(token: &str) -> (request: Request)
    ensures
        request@ == (RequestView { method: Method::Get, url: QUEUE_URL@, authorization: bearer(token@) }),
{
    Request {
        method: Method::Get,
        url: QUEUE_URL.to_owned(),
        authorization: concat("Bearer ", token),
    }
}

/// Asks whether `track_id` (a bare Spotify base-62 id) is in the user's library.
pub fn liked_request(track_id: &str, token: &str) -> (request: Request)
    ensures
        request@ == (RequestView {
            method: Method::Get,
            url: SAVED_URL@ + "/contains?ids="@ + track_id@,
            authorization: bearer(token@),
        }),
{
    Request {
        method: Method::Get,
        url: concat(concat(SAVED_URL, "/contains?ids=").as_str(), track_id),
        authorization: concat("Bearer ", token),
    }
}

/// Saves `track_id` to the user's library, or takes it out.
pub fn set_liked(track_id: &str, liked: bool, token: &str) -> (request: Request)
    ensures
        request@ == (RequestView {
            method: if liked { Method::Put } else { Method::Delete },
            url: SAVED_URL@ + "?ids="@ + track_id@,
            authorization: bearer(token@),
        }),
{
    Request {
        method: if liked {
            Method::Put
        } else {
            Method::Delete
        },
        url: concat(concat(SAVED_URL, "?ids=").as_str(), track_id),
        authorization: concat("Bearer ", token),
    }
}

/// A track without an id (a local file) matches no other, not even one without
/// an id.
pub proof fn law_tracks_without_an_id_never_match(track: TrackView, id: Seq<char>)
    requires
        track.id.len() == 0,
    ensures
        !track.is(id),
{
}

/// A track matches its own id and no other.
pub proof fn law_a_track_matches_its_id_alone(track: TrackView, id: Seq<char>)
    requires
        track.id.len() > 0,
    ensures
        track.is(id) <==> id == track.id,
{
}

/// The queue is the first tracks of the reply, in its order, and never more than
/// were asked for.
pub proof fn law_the_queue_is_cut_to_the_limit(doc: Tree, limit: nat)
    requires
        doc.array_member("queue"@) is Some,
    ensures
        ({
            let items = doc.array_member("queue"@)->0;
            let next = queue_in(doc, limit)->0.next;
            &&& queue_in(doc, limit) is Some
            &&& next.len() == at_most(limit, items.len())
            &&& next.len() <= limit
            &&& forall|i: int| 0 <= i < next.len() ==> #[trigger] next[i] == track_in(items[i])
        }),
{
}

/// Nothing queued is no error, nor is nothing playing; a reply without a queue
/// is one.
pub proof fn law_an_empty_queue_is_no_error(doc: Tree, limit: nat)
    ensures
        doc.array_member("queue"@) == Some(Seq::<Tree>::empty()) && (doc.member(
            "currently_playing"@,
        ) == Some(Tree::Null) || doc.member("currently_playing"@) is None) ==> queue_from(
            Ok(doc),
            limit,
        ) == Ok::<QueueView, Seq<char>>(QueueView { now: None, next: Seq::empty() }),
        doc.array_member("queue"@) is None ==> queue_from(Ok(doc), limit) is Err,
{
    if doc.array_member("queue"@) == Some(Seq::<Tree>::empty()) {
        assert(queue_in(doc, limit)->0.next == Seq::<TrackView>::empty());
    }
}

/// A history without tracks is no error.
pub proof fn law_an_empty_history_is_no_error(doc: Tree)
    requires
        doc.array_member("items"@) == Some(Seq::<Tree>::empty()),
    ensures
        history_from(Ok(doc)) == Ok::<Option<TrackView>, Seq<char>>(None),
{
}

/// An item of a reply with these members, among others.
pub open spec fn item_with(others: Map<Seq<char>, Tree>, name: Seq<char>, value: Tree) -> Tree {
    Tree::Object(others.insert(name, value))
}

/// A track has the id and the title that its item gives as texts; what is absent,
/// or of another type, reads as empty.
pub proof fn law_a_track_is_what_its_item_says(
    others: Map<Seq<char>, Tree>,
    value: Tree,
    nothing: Tree,
)
    requires
        !(nothing is Object),
    ensures
        track_in(item_with(others, "id"@, value)).id == (match value {
            Tree::Text(s) => s,
            _ => Seq::empty(),
        }),
        track_in(item_with(others, "name"@, value)).title == (match value {
            Tree::Text(s) => s,
            _ => Seq::empty(),
        }),
        track_in(Tree::Object(others.remove("id"@))).id.len() == 0,
        track_in(Tree::Object(others.remove("name"@))).title.len() == 0,
        track_in(Tree::Object(others.remove("artists"@))).artist.len() == 0,
        !(value is Array) ==> track_in(item_with(others, "artists"@, value)).artist.len() == 0,
        track_in(nothing).id.len() == 0 && track_in(nothing).title.len() == 0 && track_in(
            nothing,
        ).artist.len() == 0,
{
}

/// Whether an artist of a reply has a name.
pub open spec fn named(artist: Tree) -> bool {
    artist.text_member("name"@) is Some
}

/// The artists of a track are named one after the other, a comma and a space
/// between each two: one more name comes behind those before it, and an artist
/// without a name is passed over.
pub proof fn law_every_artist_is_named(
    others: Map<Seq<char>, Tree>,
    artists: Seq<Tree>,
    artist: Tree,
)
    ensures
        ({
            let before = track_in(item_with(others, "artists"@, Tree::Array(artists))).artist;
            let after = track_in(
                item_with(others, "artists"@, Tree::Array(artists.push(artist))),
            ).artist;
            let first = forall|i: int| 0 <= i < artists.len() ==> !named(#[trigger] artists[i]);
            &&& first ==> before.len() == 0
            &&& artist.text_member("name"@) is None ==> after == before
            &&& artist.text_member("name"@) matches Some(name) ==> after == if first {
                name
            } else {
                before + ", "@ + name
            }
        }),
{
    let name = |a: Tree| a.text_member("name"@);
    let more = artists.push(artist);
    assert(more.take(artists.len() as int) == artists);
    assert(more.take(more.len() as int) == more);
    more.lemma_filter_map_take_succ(name, artists.len() as int);
    lemma_names(artists);
    let names = names_in(artists);
    if let Some(n) = artist.text_member("name"@) {
        assert(names_in(more) == names.push(n));
        assert(names.push(n).drop_last() == names);
        if names.len() == 1 {
            assert(text::joined(names, ", "@) == names[0]);
        }
    } else {
        assert(names_in(more) == names);
    }
}

proof fn lemma_names(artists: Seq<Tree>)
    ensures
        names_in(artists).len() == 0 <==> forall|i: int|
            0 <= i < artists.len() ==> !named(#[trigger] artists[i]),
    decreases artists.len(),
{
    let name = |a: Tree| a.text_member("name"@);
    reveal(Seq::filter_map);
    if artists.len() > 0 {
        let front = artists.drop_last();
        lemma_names(front);
        assert(artists.take(artists.len() - 1) == front);
        assert(artists.take(artists.len() as int) == artists);
        artists.lemma_filter_map_take_succ(name, artists.len() - 1);
        if names_in(artists).len() == 0 {
            assert forall|i: int| 0 <= i < artists.len() implies !named(#[trigger] artists[i]) by {
                if i < front.len() {
                    assert(!named(front[i]));
                }
            }
        } else if forall|i: int| 0 <= i < artists.len() ==> !named(#[trigger] artists[i]) {
            assert forall|i: int| 0 <= i < front.len() implies !named(#[trigger] front[i]) by {
                assert(!named(artists[i]));
            }
            assert(!named(artists[artists.len() - 1]));
        }
    }
}

/// What is playing is what the reply says is playing, unless that is null, and the
/// tracks ahead are those of its queue from the first on, as many as were asked for
/// and there are.
pub proof fn law_a_queue_reply_is_read(
    others: Map<Seq<char>, Tree>,
    items: Seq<Tree>,
    playing: Tree,
    limit: nat,
)
    ensures
        ({
            let doc = Tree::Object(
                others.insert("queue"@, Tree::Array(items)).insert("currently_playing"@, playing),
            );
            queue_from(Ok(doc), limit) matches Ok(queue) && {
                &&& playing is Null ==> queue.now is None
                &&& !(playing is Null) ==> queue.now == Some(track_in(playing))
                &&& queue.next.len() <= limit && queue.next.len() <= items.len()
                &&& queue.next.len() == limit || queue.next.len() == items.len()
                &&& forall|i: int|
                    0 <= i < queue.next.len() ==> #[trigger] queue.next[i] == track_in(items[i])
            }
        }),
{
    reveal_strlit("queue");
    reveal_strlit("currently_playing");
    assert("queue"@.len() != "currently_playing"@.len());
    let doc = Tree::Object(
        others.insert("queue"@, Tree::Array(items)).insert("currently_playing"@, playing),
    );
    assert(doc.array_member("queue"@) == Some(items));
}

/// Nothing plays where the reply does not say so.
pub proof fn law_nothing_plays_unsaid(others: Map<Seq<char>, Tree>, limit: nat)
    ensures
        queue_from(Ok(Tree::Object(others.remove("currently_playing"@))), limit) matches Ok(queue)
            ==> queue.now is None,
{
}

/// A reply whose queue is no array is an error, which says so, and so is one that is
/// no document, whose error carries the parser's message.
pub proof fn law_a_queue_reply_without_a_queue_is_an_error(
    doc: Tree,
    why: Seq<char>,
    limit: nat,
)
    requires
        doc.array_member("queue"@) is None,
    ensures
        queue_from(Ok(doc), limit) == Err::<QueueView, Seq<char>>("queue: no queue in response"@),
        queue_from(Err(why), limit) == Err::<QueueView, Seq<char>>("queue: "@ + why),
        history_from(Err(why)) == Err::<Option<TrackView>, Seq<char>>("history: "@ + why),
{
}

/// The track played last is the one of the first item of the history; without an
/// item, or without a track in the first, there is none.
pub proof fn law_history_names_its_first_track(
    others: Map<Seq<char>, Tree>,
    more: Map<Seq<char>, Tree>,
    items: Seq<Tree>,
    track: Tree,
)
    ensures
        ({
            let doc = |items: Seq<Tree>|
                Tree::Object(others.insert("items"@, Tree::Array(items)));
            &&& history_from(
                Ok(doc(seq![Tree::Object(more.insert("track"@, track))] + items)),
            ) == Ok::<Option<TrackView>, Seq<char>>(Some(track_in(track)))
            &&& history_from(
                Ok(doc(seq![Tree::Object(more.remove("track"@))] + items)),
            ) == Ok::<Option<TrackView>, Seq<char>>(None)
            &&& history_from(Ok(doc(Seq::empty()))) == Ok::<Option<TrackView>, Seq<char>>(None)
            &&& history_from(Ok(Tree::Object(others.remove("items"@)))) == Ok::<
                Option<TrackView>,
                Seq<char>,
            >(None)
        }),
{
}

/// A library check is answered by the first item of a list, where that is a truth
/// value; any other answer is an error, which carries the answer.
pub proof fn law_the_library_check_is_answered_first(
    body: Seq<char>,
    liked: bool,
    more: Seq<Tree>,
    other: Tree,
    why: Seq<char>,
)
    ensures
        liked_from(body, Ok(Tree::Array(seq![Tree::Bool(liked)] + more))) == Ok::<bool, Seq<char>>(
            liked,
        ),
        !(other is Bool) ==> liked_from(body, Ok(Tree::Array(seq![other] + more))) == Err::<
            bool,
            Seq<char>,
        >("liked: unexpected response "@ + body),
        !(other is Array) ==> liked_from(body, Ok(other)) == Err::<bool, Seq<char>>(
            "liked: unexpected response "@ + body,
        ),
        liked_from(body, Ok(Tree::Array(Seq::empty()))) == Err::<bool, Seq<char>>(
            "liked: unexpected response "@ + body,
        ),
        liked_from(body, Err(why)) == Err::<bool, Seq<char>>(
            "liked: unexpected response "@ + body,
        ),
{
}

/// A token is borne behind the word `Bearer` and a space.
pub proof fn law_tokens_are_borne(token: Seq<char>)
    ensures
        bearer(token) == "Bearer "@ + token,
{
}

/// The requests go to these addresses.
pub proof fn law_requests_go_to_spotify()
    ensures
        QUEUE_URL@ == "https://api.spotify.com/v1/me/player/queue"@,
        HISTORY_URL@ == "https://api.spotify.com/v1/me/player/recently-played?limit=1"@,
        SAVED_URL@ == "https://api.spotify.com/v1/me/tracks"@,
{
}

/// What is cached lies in one directory of the user's home.
pub proof fn law_the_cache_lies_below_home(home: Seq<char>)
    requires
        home.len() > 0,
        home.last() != '/',
    ensures
        cache_dir_in(home) == home + "/.cache/spotify-peek"@,
        cache_dir_in(home.push('/')) == home + "/.cache/spotify-peek"@,
        cache_dir_in(Seq::empty()) == ".cache/spotify-peek"@,
{
    reveal_strlit(".cache/spotify-peek");
    reveal_strlit("/.cache/spotify-peek");
    assert(home.push('/') + ".cache/spotify-peek"@ == home + "/.cache/spotify-peek"@);
    assert(Seq::<char>::empty() + ".cache/spotify-peek"@ == ".cache/spotify-peek"@);
}

/// Results, tracks and queues are taken as they are.
pub proof fn law_results_are_taken_as_they_are(
    body: String,
    why: String,
    queue: Queue,
    track: Option<Track>,
    liked: bool,
)
    ensures
        reply_text(Ok(body)) == Ok::<Seq<char>, Seq<char>>(body@),
        reply_text(Err(why)) == Err::<Seq<char>, Seq<char>>(why@),
        queue_result(Ok(queue)) == Ok::<QueueView, Seq<char>>(queue@),
        queue_result(Err(why)) == Err::<QueueView, Seq<char>>(why@),
        track_result(Err(why)) == Err::<Option<TrackView>, Seq<char>>(why@),
        bool_result(Ok(liked)) == Ok::<bool, Seq<char>>(liked),
        bool_result(Err(why)) == Err::<bool, Seq<char>>(why@),
        opt_track(None) is None,
        track matches Some(t) ==> track_result(Ok(track)) == Ok::<Option<TrackView>, Seq<char>>(
            Some(TrackView { id: t.id@, title: t.title@, artist: t.artist@ }),
        ),
        queue@.next.len() == queue.next@.len(),
        forall|i: int|
            0 <= i < queue@.next.len() ==> #[trigger] queue@.next[i] == queue.next@[i]@,
        queue.now matches Some(t) ==> queue@.now == Some(t@),
        queue.now is None ==> queue@.now is None,
{
}

/// A request is seen as it is.
pub proof fn law_a_request_is_seen_as_it_is(request: Request)
    ensures
        request@.method == request.method,
        request@.url == request.url@,
        request@.authorization == request.authorization@,
{
}

} // verus!
