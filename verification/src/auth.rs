//! Access tokens for the Web API.
//!
//! This rides on the OAuth app `spotlike` already has registered: its client
//! credentials and refresh token are read from disk but never written back. Our
//! own access token lives in a separate cache so the two tools can't clobber
//! each other.
//!
//! A [`Session`] carries one authenticated request from start to finish. It
//! decides; whoever drives it reads the files, sends the requests and reports
//! what came of them.
use crate::api::{cache_dir, cache_dir_in, Res, HISTORY, LIKED, QUEUE, SET_LIKED};
use crate::json;
use crate::json::{parse_json, write_record, Field, Json, Tree};
use crate::text;
use crate::text::{concat, path_below, same_text, split, split_once, strip_prefix, trim};
use base64::Engine;
use vstd::prelude::*;
use vstd::string::*;

verus! {

pub const TOKEN_URL: &'static str = "https://accounts.spotify.com/api/token";

pub const FORM_TYPE: &'static str = "application/x-www-form-urlencoded";

/// Treat a token expiring within this window as already dead.
pub const EXPIRY_SLACK: u64 = 60;

/// How long a token lives when the reply does not say, in seconds.
pub const DEFAULT_LIFE: u64 = 3600;

pub open spec fn token_cache_in(home: Seq<char>) -> Seq<char> {
    text::below(cache_dir_in(home), "token.json"@)
}

pub fn token_cache(home: &str) -> (path: String)
    ensures
        path@ == token_cache_in(home@),
{
    path_below(cache_dir(home).as_str(), "token.json")
}

pub open spec fn spotlike_env_in(home: Seq<char>) -> Seq<char> {
    text::below(home, ".config/spotlike/env"@)
}

pub fn spotlike_env(home: &str) -> (path: String)
    ensures
        path@ == spotlike_env_in(home@),
{
    path_below(home, ".config/spotlike/env")
}

pub open spec fn spotlike_token_in(home: Seq<char>) -> Seq<char> {
    text::below(home, ".local/share/spotlike/token.json"@)
}

pub fn spotlike_token(home: &str) -> (path: String)
    ensures
        path@ == spotlike_token_in(home@),
{
    path_below(home, ".local/share/spotlike/token.json")
}

/// A message about a file: its path, then what went wrong.
pub open spec fn about(path: Seq<char>, why: Seq<char>) -> Seq<char> {
    path + ": "@ + why
}

fn say_about(path: &str, why: &str) -> (message: String)
    ensures
        message@ == about(path@, why@),
{
    concat(concat(path, ": ").as_str(), why)
}

/// The document in a file, or the message of what went wrong with it.
pub open spec fn document_in(path: Seq<char>, contents: Res<String>) -> Result<Tree, Seq<char>> {
    match contents {
        Ok(raw) => match json::json_text(raw@) {
            Ok(doc) => Ok(doc),
            Err(why) => Err(about(path, why)),
        },
        Err(why) => Err(about(path, why@)),
    }
}

/// Reads a JSON file whose contents, or the reason they could not be had, are
/// given.
pub fn read_json(path: &str, contents: Res<String>) -> (doc: Res<Json>)
    ensures
        json::outcome(doc) == document_in(path@, contents),
{
    match contents {
        Ok(raw) => match parse_json(raw.as_str()) {
            Ok(doc) => Ok(doc),
            Err(why) => Err(say_about(path, why.as_str())),
        },
        Err(why) => Err(say_about(path, why.as_str())),
    }
}

/// The value that a line of a settings file gives for `key`: comments are
/// passed over, and so is every line without an equals sign.
pub open spec fn line_value(line: Seq<char>, key: Seq<char>) -> Option<Seq<char>> {
    let line = text::trimmed(line);
    if line.len() > 0 && line[0] == '#' {
        None
    } else {
        match text::cut(line, '=') {
            Some((name, value)) => if name == key {
                Some(value)
            } else {
                None
            },
            None => None,
        }
    }
}

/// The value that the last of the lines that give one gives for `key`.
pub open spec fn setting(lines: Seq<Seq<char>>, key: Seq<char>) -> Option<Seq<char>>
    decreases lines.len(),
{
    if lines.len() == 0 {
        None
    } else {
        match line_value(lines.last(), key) {
            Some(value) => Some(value),
            None => setting(lines.drop_last(), key),
        }
    }
}

/// The client id and secret that a settings file gives.
pub open spec fn credentials_in(raw: Seq<char>) -> Option<(Seq<char>, Seq<char>)> {
    let lines = text::pieces(raw, '\n');
    match (setting(lines, "RSPOTIFY_CLIENT_ID"@), setting(lines, "RSPOTIFY_CLIENT_SECRET"@)) {
        (Some(id), Some(secret)) => Some((id, secret)),
        _ => None,
    }
}

fn value_in_line(line: &str, key: &str) -> (value: Option<String>)
    ensures
        text::opt_text(value) == line_value(line@, key@),
{
    let line = trim(line);
    proof {
        reveal_strlit("#");
        if line@.len() > 0 && line@[0] == '#' {
            assert(line@.subrange(0, 1) == "#"@);
        }
        if "#"@.is_prefix_of(line@) {
            assert(line@.subrange(0, 1)[0] == line@[0]);
        }
    }
    if strip_prefix(line, "#").is_some() {
        return None;
    }
    match split_once(line, '=') {
        Some((name, value)) => if same_text(name, key) {
            Some(value.to_owned())
        } else {
            None
        },
        None => None,
    }
}

fn value_in_lines(lines: &Vec<String>, key: &str) -> (value: Option<String>)
    ensures
        text::opt_text(value) == setting(text::texts(lines@), key@),
{
    let mut i: usize = lines.len();
    proof {
        assert(text::texts(lines@).take(i as int) == text::texts(lines@));
    }
    while i > 0
        invariant
            i <= lines@.len(),
            setting(text::texts(lines@), key@) == setting(text::texts(lines@).take(i as int), key@),
        decreases i,
    {
        proof {
            assert(text::texts(lines@).take(i as int).drop_last() == text::texts(lines@).take(i - 1));
        }
        i = i - 1;
        let value = value_in_line(lines[i].as_str(), key);
        if value.is_some() {
            return value;
        }
    }
    None
}

pub open spec fn pair_result(pair: Res<(String, String)>) -> Result<
    (Seq<char>, Seq<char>),
    Seq<char>,
> {
    match pair {
        Ok((id, secret)) => Ok((id@, secret@)),
        Err(why) => Err(why@),
    }
}

pub open spec fn credentials_from(home: Seq<char>, contents: Res<String>) -> Result<
    (Seq<char>, Seq<char>),
    Seq<char>,
> {
    match contents {
        Ok(raw) => match credentials_in(raw@) {
            Some(pair) => Ok(pair),
            None => Err("no client credentials in spotlike env"@),
        },
        Err(why) => Err(about(spotlike_env_in(home), why@)),
    }
}

/// `spotlike`'s env file is plain `KEY=VALUE` lines. Its contents, or the reason
/// they could not be had, are given.
pub fn client_credentials(home: &str, contents: Res<String>) -> (pair: Res<(String, String)>)
    ensures
        pair_result(pair) == credentials_from(home@, contents),
{
    match contents {
        Ok(raw) => {
            let lines = split(raw.as_str(), '\n');
            let id = value_in_lines(&lines, "RSPOTIFY_CLIENT_ID");
            let secret = value_in_lines(&lines, "RSPOTIFY_CLIENT_SECRET");
            match (id, secret) {
                (Some(id), Some(secret)) => Ok((id, secret)),
                _ => Err("no client credentials in spotlike env".to_owned()),
            }
        },
        Err(why) => Err(say_about(spotlike_env(home).as_str(), why.as_str())),
    }
}

/// The token in our own cache, unless it expires within the slack.
pub open spec fn live_token(doc: Tree, now: u64) -> Option<Seq<char>> {
    match doc.number_member("expires_at"@) {
        Some(at) => if at > now + EXPIRY_SLACK {
            doc.text_member("access_token"@)
        } else {
            None
        },
        None => None,
    }
}

pub fn our_cached_token(doc: &Json, now: u64) -> (token: Option<String>)
    requires
        doc@.number_member("expires_at"@) is Some ==> now + EXPIRY_SLACK <= u64::MAX,
    ensures
        text::opt_text(token) == live_token(doc@, now),
{
    match doc.number_member("expires_at") {
        Some(at) => if at > now + EXPIRY_SLACK {
            doc.text_member("access_token")
        } else {
            None
        },
        None => None,
    }
}

/// What our own cache holds: a token, and the second at which it expires.
pub open spec fn token_tree(token: Seq<char>, at: u64) -> Tree {
    Tree::Object(
        Map::empty().insert("access_token"@, Tree::Text(token)).insert(
            "expires_at"@,
            Tree::Number(Some(at)),
        ),
    )
}

/// A file to be written, and the directory that has to be there for it.
#[derive(PartialEq, Debug)]
pub struct Keep<S> {
    pub dir: S,
    pub path: S,
    pub contents: S,
}

impl View for Keep<String> {
    type V = Keep<Seq<char>>;

    open spec fn view(&self) -> Keep<Seq<char>> {
        Keep { dir: self.dir@, path: self.path@, contents: self.contents@ }
    }
}

/// The file that keeps `token`, which expires at `at`.
pub open spec fn kept(home: Seq<char>, token: Seq<char>, at: u64) -> Keep<Seq<char>> {
    Keep {
        dir: cache_dir_in(home),
        path: token_cache_in(home),
        contents: json::written(token_tree(token, at)),
    }
}

/// Keeps an access token that has `expires_in` seconds to live.
pub fn store_token(home: &str, token: &str, expires_in: u64, now: u64) -> (keep: Keep<String>)
    requires
        now + expires_in <= u64::MAX,
    ensures
        keep@ == kept(home@, token@, (now + expires_in) as u64),
        json::json_text(keep.contents@) == json::document(
            token_tree(token@, (now + expires_in) as u64),
        ),
{
    let at = now + expires_in;
    let mut fields: Vec<(String, Field)> = Vec::new();
    let token_name = "access_token".to_owned();
    let at_name = "expires_at".to_owned();
    let token_field = Field::Text(token.to_owned());
    let at_field = Field::Number(at);
    fields.push((token_name, token_field));
    let ghost first = fields@;
    fields.push((at_name, at_field));
    proof {
        assert(fields@.drop_last() == first);
        assert(first.drop_last() == Seq::<(String, Field)>::empty());
        assert(json::record(first.drop_last()) == Map::<Seq<char>, Tree>::empty());
        assert(json::record(first) == Map::<Seq<char>, Tree>::empty().insert(
            "access_token"@,
            Tree::Text(token@),
        ));
        assert(Tree::Object(json::record(fields@)) == token_tree(token@, at));
        reveal_strlit("access_token");
        reveal_strlit("expires_at");
        assert("access_token"@.len() != "expires_at"@.len());
    }
    Keep { dir: cache_dir(home), path: token_cache(home), contents: write_record(fields) }
}

/// What `STANDARD.encode` of the `base64` crate makes of a text's bytes.
pub uninterp spec fn base64_text(s: Seq<char>) -> Seq<char>;

/// Calls `base64::engine::general_purpose::STANDARD.encode`. Trusted: the
/// encoding is a function of the text alone.
#[verifier::external_body]
fn encode_base64(s: &str) -> (encoded: String)
    ensures
        encoded@ == base64_text(s@),
{
    base64::engine::general_purpose::STANDARD.encode(s)
}

/// What the token endpoint is sent.
#[derive(PartialEq, Debug)]
pub struct Exchange<S> {
    pub url: S,
    /// The value of the `Authorization` header.
    pub authorization: S,
    /// The value of the `Content-Type` header.
    pub content_type: S,
    pub form: S,
}

impl View for Exchange<String> {
    type V = Exchange<Seq<char>>;

    open spec fn view(&self) -> Exchange<Seq<char>> {
        Exchange {
            url: self.url@,
            authorization: self.authorization@,
            content_type: self.content_type@,
            form: self.form@,
        }
    }
}

/// The request that spends a refresh token.
pub open spec fn exchange_for(
    id: Seq<char>,
    secret: Seq<char>,
    refresh_token: Seq<char>,
) -> Exchange<Seq<char>> {
    Exchange {
        url: TOKEN_URL@,
        authorization: "Basic "@ + base64_text(id + ":"@ + secret),
        content_type: FORM_TYPE@,
        form: "grant_type=refresh_token&refresh_token="@ + refresh_token,
    }
}

pub fn exchange(id: &str, secret: &str, refresh_token: &str) -> (request: Exchange<String>)
    ensures
        request@ == exchange_for(id@, secret@, refresh_token@),
{
    let pair = concat(concat(id, ":").as_str(), secret);
    Exchange {
        url: TOKEN_URL.to_owned(),
        authorization: concat("Basic ", encode_base64(pair.as_str()).as_str()),
        content_type: FORM_TYPE.to_owned(),
        form: concat("grant_type=refresh_token&refresh_token=", refresh_token),
    }
}

/// The token endpoint's reply, or the message of what went wrong.
pub open spec fn grant_in(reply: Res<String>) -> Result<Tree, Seq<char>> {
    match reply {
        Ok(body) => match json::json_text(body@) {
            Ok(doc) => Ok(doc),
            Err(why) => Err("token refresh: "@ + why),
        },
        Err(why) => Err("token refresh: "@ + why@),
    }
}

/// Reads the token endpoint's reply.
pub fn token_reply(reply: Res<String>) -> (doc: Res<Json>)
    ensures
        json::outcome(doc) == grant_in(reply),
{
    match reply {
        Ok(body) => match parse_json(body.as_str()) {
            Ok(doc) => Ok(doc),
            Err(why) => Err(concat("token refresh: ", why.as_str())),
        },
        Err(why) => Err(concat("token refresh: ", why.as_str())),
    }
}

/// Why a call of the Web API failed.
pub struct CallError {
    /// The HTTP status, where the server answered with one that is no success.
    pub status: Option<u16>,
    pub message: String,
}

/// How far a request has come. `retry` says that the token was refused once.
pub enum Stage<S> {
    /// Our own token cache is being read.
    OwnToken,
    /// `spotlike`'s token file is being read for a token to borrow.
    BorrowToken,
    /// `spotlike`'s client credentials are being read.
    ClientEnv { retry: bool },
    /// `spotlike`'s token file is being read for its refresh token.
    RefreshToken { retry: bool, id: S, secret: S },
    /// The refresh token is being spent.
    Exchange { retry: bool },
    /// The call itself is under way.
    Calling { retry: bool },
    Finished,
}

impl View for Stage<String> {
    type V = Stage<Seq<char>>;

    open spec fn view(&self) -> Stage<Seq<char>> {
        match self {
            Stage::OwnToken => Stage::OwnToken,
            Stage::BorrowToken => Stage::BorrowToken,
            Stage::ClientEnv { retry } => Stage::ClientEnv { retry: *retry },
            Stage::RefreshToken { retry, id, secret } => Stage::RefreshToken {
                retry: *retry,
                id: id@,
                secret: secret@,
            },
            Stage::Exchange { retry } => Stage::Exchange { retry: *retry },
            Stage::Calling { retry } => Stage::Calling { retry: *retry },
            Stage::Finished => Stage::Finished,
        }
    }
}

/// What has to be done next for a request.
#[derive(PartialEq, Debug)]
pub enum Ask<S> {
    /// Read this file as JSON and report a [`Event::Document`].
    ReadDocument(S),
    /// Read this file as settings and report a [`Event::Credentials`].
    ReadSettings(S),
    /// Send this and report a [`Event::Granted`].
    Exchange(Exchange<S>),
    /// Make the call with this token and report a [`Event::Called`].
    Call(S),
    /// Nothing: this is the outcome.
    Finish(Result<S, S>),
}

impl View for Ask<String> {
    type V = Ask<Seq<char>>;

    open spec fn view(&self) -> Ask<Seq<char>> {
        match self {
            Ask::ReadDocument(path) => Ask::ReadDocument(path@),
            Ask::ReadSettings(path) => Ask::ReadSettings(path@),
            Ask::Exchange(request) => Ask::Exchange(request@),
            Ask::Call(token) => Ask::Call(token@),
            Ask::Finish(Ok(body)) => Ask::Finish(Ok(body@)),
            Ask::Finish(Err(why)) => Ask::Finish(Err(why@)),
        }
    }
}

/// What came of the last [`Ask`].
pub enum Event {
    /// A JSON file, as [`read_json`] reads it.
    Document(Res<Json>),
    /// The client credentials, as [`client_credentials`] reads them.
    Credentials(Res<(String, String)>),
    /// The token endpoint's reply, as [`token_reply`] reads it.
    Granted(Res<Json>),
    /// The call's reply.
    Called(Result<String, CallError>),
}

/// A turn: a file to be written, if any, and then what to do next. A file that
/// cannot be written is no reason to stop.
#[derive(PartialEq, Debug)]
pub struct Turn<S> {
    pub keep: Option<Keep<S>>,
    pub ask: Ask<S>,
}

impl View for Turn<String> {
    type V = Turn<Seq<char>>;

    open spec fn view(&self) -> Turn<Seq<char>> {
        Turn {
            keep: match self.keep {
                Some(keep) => Some(keep@),
                None => None,
            },
            ask: self.ask@,
        }
    }
}

/// An authenticated request on its way.
pub struct Session {
    /// What the request is about, for its error messages.
    pub what: String,
    pub home: String,
    pub stage: Stage<String>,
}

pub open spec fn simply(ask: Ask<Seq<char>>) -> Turn<Seq<char>> {
    Turn { keep: None, ask }
}

/// The token in `spotlike`'s own file, and when it expires.
pub open spec fn borrowed_token(doc: Tree) -> Option<(Seq<char>, int)> {
    match (
        doc.number_member("obtained_at"@),
        doc.number_member("expires_in"@),
        doc.text_member("access_token"@),
    ) {
        (Some(obtained), Some(life), Some(token)) => Some((token, obtained + life)),
        _ => None,
    }
}

/// The token in a reply of the token endpoint, and how long it lives.
pub open spec fn granted_token(doc: Tree) -> Option<(Seq<char>, u64)> {
    match doc.text_member("access_token"@) {
        Some(token) => Some(
            (
                token,
                match doc.number_member("expires_in"@) {
                    Some(life) => life,
                    None => DEFAULT_LIFE,
                },
            ),
        ),
        None => None,
    }
}

pub open spec fn begin_refresh(home: Seq<char>, retry: bool) -> (
    Stage<Seq<char>>,
    Turn<Seq<char>>,
) {
    (Stage::ClientEnv { retry }, simply(Ask::ReadSettings(spotlike_env_in(home))))
}

pub open spec fn fail(why: Seq<char>) -> (Stage<Seq<char>>, Turn<Seq<char>>) {
    (Stage::Finished, simply(Ask::Finish(Err(why))))
}

/// Our own cached token is used as long as it lives.
pub open spec fn after_own_token(home: Seq<char>, doc: Result<Tree, Seq<char>>, now: u64) -> (
    Stage<Seq<char>>,
    Turn<Seq<char>>,
) {
    let borrow = (
        Stage::BorrowToken,
        simply(Ask::ReadDocument(spotlike_token_in(home))),
    );
    match doc {
        Ok(doc) => match live_token(doc, now) {
            Some(token) => (Stage::Calling { retry: false }, simply(Ask::Call(token))),
            None => borrow,
        },
        Err(_) => borrow,
    }
}

/// A token of `spotlike`'s that is still live is borrowed, and kept, rather
/// than spending a refresh.
pub open spec fn after_borrow(home: Seq<char>, doc: Result<Tree, Seq<char>>, now: u64) -> (
    Stage<Seq<char>>,
    Turn<Seq<char>>,
) {
    match doc {
        Ok(doc) => match borrowed_token(doc) {
            Some((token, at)) => if at > now + EXPIRY_SLACK {
                (
                    Stage::Calling { retry: false },
                    Turn { keep: Some(kept(home, token, at as u64)), ask: Ask::Call(token) },
                )
            } else {
                begin_refresh(home, false)
            },
            None => begin_refresh(home, false),
        },
        Err(_) => begin_refresh(home, false),
    }
}

pub open spec fn after_client_env(
    home: Seq<char>,
    retry: bool,
    pair: Result<(Seq<char>, Seq<char>), Seq<char>>,
) -> (Stage<Seq<char>>, Turn<Seq<char>>) {
    match pair {
        Ok((id, secret)) => (
            Stage::RefreshToken { retry, id, secret },
            simply(Ask::ReadDocument(spotlike_token_in(home))),
        ),
        Err(why) => fail(why),
    }
}

pub open spec fn after_refresh_token(
    retry: bool,
    id: Seq<char>,
    secret: Seq<char>,
    doc: Result<Tree, Seq<char>>,
) -> (Stage<Seq<char>>, Turn<Seq<char>>) {
    match doc {
        Ok(doc) => match doc.text_member("refresh_token"@) {
            Some(refresh_token) => (
                Stage::Exchange { retry },
                simply(Ask::Exchange(exchange_for(id, secret, refresh_token))),
            ),
            None => fail("no refresh token in spotlike token.json"@),
        },
        Err(why) => fail(why),
    }
}

pub open spec fn after_exchange(
    home: Seq<char>,
    retry: bool,
    doc: Result<Tree, Seq<char>>,
    now: u64,
) -> (Stage<Seq<char>>, Turn<Seq<char>>) {
    match doc {
        Ok(doc) => match granted_token(doc) {
            Some((token, life)) => (
                Stage::Calling { retry },
                Turn { keep: Some(kept(home, token, (now + life) as u64)), ask: Ask::Call(token) },
            ),
            None => fail("token refresh: no access_token in response"@),
        },
        Err(why) => fail(why),
    }
}

/// A 401 means the token was revoked or rotated out from under us, so one
/// refresh is forced before giving up.
pub open spec fn after_call(
    what: Seq<char>,
    home: Seq<char>,
    retry: bool,
    reply: Result<String, CallError>,
) -> (Stage<Seq<char>>, Turn<Seq<char>>) {
    match reply {
        Ok(body) => (Stage::Finished, simply(Ask::Finish(Ok(body@)))),
        Err(e) => if e.status == Some(401u16) && !retry {
            begin_refresh(home, true)
        } else {
            fail(about(what, e.message@))
        },
    }
}

/// The second at which a token that `event` brings expires.
pub open spec fn expiry_in(stage: Stage<Seq<char>>, event: Event, now: u64) -> int {
    match (stage, event) {
        (Stage::BorrowToken, Event::Document(Ok(doc))) => match borrowed_token(doc@) {
            Some((_, at)) => at,
            None => 0,
        },
        (Stage::Exchange { .. }, Event::Granted(Ok(doc))) => match granted_token(doc@) {
            Some((_, life)) => now + life,
            None => 0,
        },
        _ => 0,
    }
}

/// Whether `event` answers what was asked at `stage`.
pub open spec fn answers(stage: Stage<Seq<char>>, event: Event) -> bool {
    match stage {
        Stage::OwnToken => event is Document,
        Stage::BorrowToken => event is Document,
        Stage::ClientEnv { .. } => event is Credentials,
        Stage::RefreshToken { .. } => event is Document,
        Stage::Exchange { .. } => event is Granted,
        Stage::Calling { .. } => event is Called,
        Stage::Finished => false,
    }
}

/// Whether `event` brings a token whose expiry is held against the clock.
pub open spec fn weighs_expiry(stage: Stage<Seq<char>>, event: Event) -> bool {
    match (stage, event) {
        (Stage::OwnToken, Event::Document(Ok(doc))) => doc@.number_member("expires_at"@) is Some,
        (Stage::BorrowToken, Event::Document(Ok(doc))) => borrowed_token(doc@) is Some,
        _ => false,
    }
}

/// Whether every second that `event` speaks of fits the clock.
pub open spec fn timely(stage: Stage<Seq<char>>, event: Event, now: u64) -> bool {
    &&& weighs_expiry(stage, event) ==> now + EXPIRY_SLACK <= u64::MAX
    &&& expiry_in(stage, event, now) <= u64::MAX
}

/// The stage and the turn that follow `event`.
pub open spec fn step_of(
    what: Seq<char>,
    home: Seq<char>,
    stage: Stage<Seq<char>>,
    event: Event,
    now: u64,
) -> (Stage<Seq<char>>, Turn<Seq<char>>) {
    match (stage, event) {
        (Stage::OwnToken, Event::Document(doc)) => after_own_token(home, json::outcome(doc), now),
        (Stage::BorrowToken, Event::Document(doc)) => after_borrow(home, json::outcome(doc), now),
        (Stage::ClientEnv { retry }, Event::Credentials(pair)) => after_client_env(
            home,
            retry,
            pair_result(pair),
        ),
        (Stage::RefreshToken { retry, id, secret }, Event::Document(doc)) => after_refresh_token(
            retry,
            id,
            secret,
            json::outcome(doc),
        ),
        (Stage::Exchange { retry }, Event::Granted(doc)) => after_exchange(
            home,
            retry,
            json::outcome(doc),
            now,
        ),
        (Stage::Calling { retry }, Event::Called(reply)) => after_call(what, home, retry, reply),
        _ => (stage, simply(Ask::Finish(Err(Seq::empty())))),
    }
}

fn fail_turn(why: String) -> (turn: Turn<String>)
    ensures
        (Stage::<Seq<char>>::Finished, turn@) == fail(why@),
{
    Turn { keep: None, ask: Ask::Finish(Err(why)) }
}

impl Session {
    /// Starts a request. Our own token cache is asked first.
    pub fn start(what: &str, home: &str) -> (started: (Session, Turn<String>))
        ensures
            started.0.what@ == what@,
            started.0.home@ == home@,
            started.0.stage@ == Stage::<Seq<char>>::OwnToken,
            started.1@ == simply(Ask::ReadDocument(token_cache_in(home@))),
    {
        (
            Session { what: what.to_owned(), home: home.to_owned(), stage: Stage::OwnToken },
            Turn { keep: None, ask: Ask::ReadDocument(token_cache(home)) },
        )
    }

    /// Whether `event` can be stepped on at `now`: whether it answers what was
    /// asked, and its times fit the clock.
    pub fn accepts(&self, event: &Event, now: u64) -> (yes: bool)
        ensures
            yes == (answers(self.stage@, *event) && timely(self.stage@, *event, now)),
    {
        let slack_fits = now <= u64::MAX - EXPIRY_SLACK;
        match (&self.stage, event) {
            (Stage::OwnToken, Event::Document(Ok(doc))) => slack_fits || doc.number_member(
                "expires_at",
            ).is_none(),
            (Stage::OwnToken, Event::Document(Err(_))) => true,
            (Stage::BorrowToken, Event::Document(Ok(doc))) => {
                match (
                    doc.number_member("obtained_at"),
                    doc.number_member("expires_in"),
                    doc.text_member("access_token"),
                ) {
                    (Some(obtained), Some(life), Some(_)) => slack_fits && life <= u64::MAX
                        - obtained,
                    _ => true,
                }
            },
            (Stage::BorrowToken, Event::Document(Err(_))) => true,
            (Stage::ClientEnv { .. }, Event::Credentials(_)) => true,
            (Stage::RefreshToken { .. }, Event::Document(_)) => true,
            (Stage::Exchange { .. }, Event::Granted(Ok(doc))) => {
                match doc.text_member("access_token") {
                    Some(_) => life_in(doc) <= u64::MAX - now,
                    None => true,
                }
            },
            (Stage::Exchange { .. }, Event::Granted(Err(_))) => true,
            (Stage::Calling { .. }, Event::Called(_)) => true,
            _ => false,
        }
    }

    /// Moves on to what follows `event`. A token that is about to be used for
    /// the first time is kept for the next request, and our cache will read
    /// back as that token.
    pub fn step(&mut self, event: Event, now: u64) -> (turn: Turn<String>)
        requires
            answers(old(self).stage@, event),
            timely(old(self).stage@, event, now),
        ensures
            final(self).what == old(self).what,
            final(self).home == old(self).home,
            (final(self).stage@, turn@) == step_of(
                old(self).what@,
                old(self).home@,
                old(self).stage@,
                event,
                now,
            ),
            turn.keep matches Some(keep) ==> turn.ask matches Ask::Call(token) && json::json_text(
                keep.contents@,
            ) == json::document(
                token_tree(token@, expiry_in(old(self).stage@, event, now) as u64),
            ),
    {
        match (&self.stage, event) {
            (Stage::OwnToken, Event::Document(doc)) => {
                if let Ok(doc) = doc {
                    if let Some(token) = our_cached_token(&doc, now) {
                        self.stage = Stage::Calling { retry: false };
                        return Turn { keep: None, ask: Ask::Call(token) };
                    }
                }
                self.stage = Stage::BorrowToken;
                Turn {
                    keep: None,
                    ask: Ask::ReadDocument(spotlike_token(self.home.as_str())),
                }
            },
            (Stage::BorrowToken, Event::Document(doc)) => {
                if let Ok(doc) = doc {
                    if let (Some(obtained), Some(life), Some(token)) = (
                        doc.number_member("obtained_at"),
                        doc.number_member("expires_in"),
                        doc.text_member("access_token"),
                    ) {
                        if obtained + life > now + EXPIRY_SLACK {
                            self.stage = Stage::Calling { retry: false };
                            let keep = store_token(
                                self.home.as_str(),
                                token.as_str(),
                                obtained + life - now,
                                now,
                            );
                            return Turn { keep: Some(keep), ask: Ask::Call(token) };
                        }
                    }
                }
                self.stage = Stage::ClientEnv { retry: false };
                Turn { keep: None, ask: Ask::ReadSettings(spotlike_env(self.home.as_str())) }
            },
            (Stage::ClientEnv { retry }, Event::Credentials(pair)) => match pair {
                Ok((id, secret)) => {
                    self.stage = Stage::RefreshToken { retry: *retry, id, secret };
                    Turn {
                        keep: None,
                        ask: Ask::ReadDocument(spotlike_token(self.home.as_str())),
                    }
                },
                Err(why) => {
                    self.stage = Stage::Finished;
                    fail_turn(why)
                },
            },
            (Stage::RefreshToken { retry, id, secret }, Event::Document(doc)) => match doc {
                Ok(doc) => match doc.text_member("refresh_token") {
                    Some(refresh_token) => {
                        let request = exchange(
                            id.as_str(),
                            secret.as_str(),
                            refresh_token.as_str(),
                        );
                        self.stage = Stage::Exchange { retry: *retry };
                        Turn { keep: None, ask: Ask::Exchange(request) }
                    },
                    None => {
                        self.stage = Stage::Finished;
                        fail_turn("no refresh token in spotlike token.json".to_owned())
                    },
                },
                Err(why) => {
                    self.stage = Stage::Finished;
                    fail_turn(why)
                },
            },
            (Stage::Exchange { retry }, Event::Granted(doc)) => match doc {
                Ok(doc) => match doc.text_member("access_token") {
                    Some(token) => {
                        self.stage = Stage::Calling { retry: *retry };
                        let keep = store_token(
                            self.home.as_str(),
                            token.as_str(),
                            life_in(&doc),
                            now,
                        );
                        Turn { keep: Some(keep), ask: Ask::Call(token) }
                    },
                    None => {
                        self.stage = Stage::Finished;
                        fail_turn("token refresh: no access_token in response".to_owned())
                    },
                },
                Err(why) => {
                    self.stage = Stage::Finished;
                    fail_turn(why)
                },
            },
            (Stage::Calling { retry }, Event::Called(reply)) => match reply {
                Ok(body) => {
                    self.stage = Stage::Finished;
                    Turn { keep: None, ask: Ask::Finish(Ok(body)) }
                },
                Err(e) => {
                    let refused = match e.status {
                        Some(status) => status == 401,
                        None => false,
                    };
                    if refused && !*retry {
                        self.stage = Stage::ClientEnv { retry: true };
                        Turn {
                            keep: None,
                            ask: Ask::ReadSettings(spotlike_env(self.home.as_str())),
                        }
                    } else {
                        self.stage = Stage::Finished;
                        fail_turn(say_about(self.what.as_str(), e.message.as_str()))
                    }
                },
            },
            _ => Turn { keep: None, ask: Ask::Finish(Err(String::new())) },
        }
    }
}

/// How long the token in a reply of the token endpoint lives.
fn life_in(doc: &Json) -> (life: u64)
    ensures
        granted_token(doc@) matches Some((_, l)) ==> l == life,
{
    match doc.number_member("expires_in") {
        Some(life) => life,
        None => DEFAULT_LIFE,
    }
}

/// What was kept is read back: the same token until the slack before its
/// expiry, and none from then on.
pub proof fn law_kept_token_is_read_back(token: Seq<char>, at: u64, now: u64)
    ensures
        live_token(token_tree(token, at), now) == (if at > now + EXPIRY_SLACK {
            Some(token)
        } else {
            None
        }),
{
    reveal_strlit("access_token");
    reveal_strlit("expires_at");
    assert("access_token"@.len() != "expires_at"@.len());
}

proof fn lemma_below_len(base: Seq<char>, name: Seq<char>)
    ensures
        below_len(base) <= base.len() + 1,
        text::below(base, name).len() == below_len(base) + name.len(),
{
}

spec fn below_len(base: Seq<char>) -> nat {
    if base.len() == 0 || base.last() == '/' {
        base.len()
    } else {
        base.len() + 1
    }
}

/// Nothing but our own token cache is ever written; `spotlike`'s files are
/// other files.
pub proof fn law_spotlike_is_only_read(
    what: Seq<char>,
    home: Seq<char>,
    stage: Stage<Seq<char>>,
    event: Event,
    now: u64,
)
    ensures
        step_of(what, home, stage, event, now).1.keep matches Some(keep) ==> {
            &&& keep.dir == cache_dir_in(home)
            &&& keep.path == token_cache_in(home)
        },
        token_cache_in(home) != spotlike_token_in(home),
        token_cache_in(home) != spotlike_env_in(home),
{
    reveal_strlit(".cache/spotify-peek");
    reveal_strlit("token.json");
    reveal_strlit(".local/share/spotlike/token.json");
    reveal_strlit(".config/spotlike/env");
    lemma_below_len(home, ".cache/spotify-peek"@);
    lemma_below_len(home, ".local/share/spotlike/token.json"@);
    lemma_below_len(home, ".config/spotlike/env"@);
    let dir = cache_dir_in(home);
    assert(dir.last() == ".cache/spotify-peek"@.last());
    lemma_below_len(dir, "token.json"@);
}

/// How many turns a request can still take.
pub open spec fn turns_left(stage: Stage<Seq<char>>) -> nat {
    match stage {
        Stage::OwnToken => 10,
        Stage::BorrowToken => 9,
        Stage::ClientEnv { retry } => if retry { 4 } else { 8 },
        Stage::RefreshToken { retry, .. } => if retry { 3 } else { 7 },
        Stage::Exchange { retry } => if retry { 2 } else { 6 },
        Stage::Calling { retry } => if retry { 1 } else { 5 },
        Stage::Finished => 0,
    }
}

/// Every event brings a request nearer to its end, so it ends.
pub proof fn law_a_request_ends(
    what: Seq<char>,
    home: Seq<char>,
    stage: Stage<Seq<char>>,
    event: Event,
    now: u64,
)
    requires
        answers(stage, event),
    ensures
        turns_left(step_of(what, home, stage, event, now).0) < turns_left(stage),
        step_of(what, home, stage, event, now).0 is Finished <==> step_of(
            what,
            home,
            stage,
            event,
            now,
        ).1.ask is Finish,
{
}

/// A token that is refused forces one refresh; a second refusal, like any
/// other failure, is final and is reported.
pub proof fn law_one_refusal_is_forgiven(
    what: Seq<char>,
    home: Seq<char>,
    retry: bool,
    e: CallError,
    now: u64,
)
    ensures
        ({
            let next = step_of(what, home, Stage::Calling { retry }, Event::Called(Err(e)), now);
            if e.status == Some(401u16) && !retry {
                next == begin_refresh(home, true)
            } else {
                next == fail(about(what, e.message@))
            }
        }),
{
}

/// A call that fails for good is reported under the label that its session was
/// started with: the label, a colon and the message of the failure.
pub proof fn law_failures_bear_their_label(home: Seq<char>, retry: bool, e: CallError, now: u64)
    requires
        retry || e.status != Some(401u16),
    ensures
        step_of(HISTORY@, home, Stage::Calling { retry }, Event::Called(Err(e)), now) == fail(
            "history"@ + ": "@ + e.message@,
        ),
        step_of(QUEUE@, home, Stage::Calling { retry }, Event::Called(Err(e)), now) == fail(
            "queue"@ + ": "@ + e.message@,
        ),
        step_of(LIKED@, home, Stage::Calling { retry }, Event::Called(Err(e)), now) == fail(
            "liked"@ + ": "@ + e.message@,
        ),
        step_of(SET_LIKED@, home, Stage::Calling { retry }, Event::Called(Err(e)), now) == fail(
            "set liked"@ + ": "@ + e.message@,
        ),
{
}

/// While our own cached token lives, neither `spotlike`'s files nor the token
/// endpoint are asked.
pub proof fn law_a_live_token_is_used(
    what: Seq<char>,
    home: Seq<char>,
    doc: Json,
    token: Seq<char>,
    now: u64,
)
    requires
        live_token(doc@, now) == Some(token),
    ensures
        step_of(what, home, Stage::OwnToken, Event::Document(Ok(doc)), now) == (
            Stage::<Seq<char>>::Calling { retry: false },
            simply(Ask::Call(token)),
        ),
{
}

/// What one request kept serves the next: while the token lives, that one is
/// called with it at once, and once it is about to expire, another is looked
/// for.
pub proof fn law_a_kept_token_serves_the_next_request(
    what: Seq<char>,
    home: Seq<char>,
    doc: Json,
    token: Seq<char>,
    at: u64,
    now: u64,
)
    requires
        doc@ == token_tree(token, at),
    ensures
        step_of(what, home, Stage::OwnToken, Event::Document(Ok(doc)), now) == (if at > now
            + EXPIRY_SLACK {
            (Stage::<Seq<char>>::Calling { retry: false }, simply(Ask::Call(token)))
        } else {
            (
                Stage::<Seq<char>>::BorrowToken,
                simply(Ask::ReadDocument(spotlike_token_in(home))),
            )
        }),
{
    law_kept_token_is_read_back(token, at, now);
}

/// A refresh in answer to a refusal ends in a call with the new token, and in
/// no other.
pub proof fn law_the_retry_uses_the_new_token(
    what: Seq<char>,
    home: Seq<char>,
    stage: Stage<Seq<char>>,
    event: Event,
    now: u64,
)
    requires
        answers(stage, event),
        step_of(what, home, stage, event, now).0 == (Stage::<Seq<char>>::Calling { retry: true }),
    ensures
        stage == (Stage::<Seq<char>>::Exchange { retry: true }),
        event matches Event::Granted(Ok(doc)) && granted_token(doc@) matches Some((token, _))
            && step_of(what, home, stage, event, now).1.ask == Ask::Call(token),
{
}

} // verus!
