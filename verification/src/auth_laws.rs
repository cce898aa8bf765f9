//! What a request to the Web API goes through, in terms of what is on disk and
//! what the server says.
use crate::api::{cache_dir_in, Res};
use crate::auth::{
    about, answers, base64_text, credentials_from, credentials_in, document_in, exchange_for,
    expiry_in, grant_in, kept, line_value, live_token, pair_result, setting, spotlike_env_in,
    spotlike_token_in, step_of, timely, token_cache_in, token_tree, Ask, CallError, Event, Exchange,
    Keep, Stage, Turn,
};
use crate::json::{json_text, written, Json, Tree};
use crate::text;
use vstd::prelude::*;

verus! {

/// The files of a request: our own cache, and what `spotlike` keeps.
pub proof fn law_the_files_lie_below_home(home: Seq<char>)
    requires
        home.len() > 0,
        home.last() != '/',
    ensures
        token_cache_in(home) == home + "/.cache/spotify-peek/token.json"@,
        spotlike_env_in(home) == home + "/.config/spotlike/env"@,
        spotlike_token_in(home) == home + "/.local/share/spotlike/token.json"@,
        token_cache_in(home.push('/')) == token_cache_in(home),
        spotlike_env_in(home.push('/')) == spotlike_env_in(home),
        spotlike_token_in(home.push('/')) == spotlike_token_in(home),
{
    reveal_strlit(".cache/spotify-peek");
    reveal_strlit("token.json");
    reveal_strlit("/.cache/spotify-peek/token.json");
    reveal_strlit(".config/spotlike/env");
    reveal_strlit("/.config/spotlike/env");
    reveal_strlit(".local/share/spotlike/token.json");
    reveal_strlit("/.local/share/spotlike/token.json");
    let dir = cache_dir_in(home);
    assert(dir == home.push('/') + ".cache/spotify-peek"@);
    assert(dir.last() == 'k');
    assert(dir.push('/') + "token.json"@ == home + "/.cache/spotify-peek/token.json"@);
    assert(home.push('/') + ".config/spotlike/env"@ == home + "/.config/spotlike/env"@);
    assert(home.push('/') + ".local/share/spotlike/token.json"@ == home
        + "/.local/share/spotlike/token.json"@);
}

/// A file that cannot be read, or holds no document, is complained of by its path,
/// a colon and the reason; a document is taken as it is. So are the token
/// endpoint's replies, under their own name.
pub proof fn law_files_and_replies_are_read(path: Seq<char>, raw: String, why: String)
    ensures
        about(path, why@) == path + ": "@ + why@,
        document_in(path, Err(why)) == Err::<Tree, Seq<char>>(path + ": "@ + why@),
        grant_in(Err(why)) == Err::<Tree, Seq<char>>("token refresh: "@ + why@),
        match json_text(raw@) {
            Ok(doc) => document_in(path, Ok(raw)) == Ok::<Tree, Seq<char>>(doc) && grant_in(Ok(raw))
                == Ok::<Tree, Seq<char>>(doc),
            Err(e) => document_in(path, Ok(raw)) == Err::<Tree, Seq<char>>(path + ": "@ + e)
                && grant_in(Ok(raw)) == Err::<Tree, Seq<char>>("token refresh: "@ + e),
        },
{
}

/// A line of settings, white space at its ends aside, gives what follows its first
/// equals sign to the name before it, and to no other; a comment, or a line without
/// an equals sign, gives nothing.
pub proof fn law_a_line_gives_its_value(
    line: Seq<char>,
    name: Seq<char>,
    value: Seq<char>,
    key: Seq<char>,
)
    ensures
        ({
            let inner = text::trimmed(line);
            &&& inner.len() > 0 && inner[0] == '#' ==> line_value(line, key) is None
            &&& !inner.contains('=') ==> line_value(line, key) is None
            &&& inner == name + seq!['='] + value && !name.contains('=') && inner[0] != '#' ==> (
            line_value(line, name) == Some(value)) && (key != name ==> line_value(line, key) is None)
        }),
{
    let inner = text::trimmed(line);
    if inner == name + seq!['='] + value && !name.contains('=') {
        let at = name.len() as int;
        assert forall|i: int| 0 <= i < at implies inner[i] != '=' by {
            assert(inner[i] == name[i]);
            assert(name.contains(name[i]));
        }
        assert(inner[at] == '=');
        text::lemma_cut(inner, '=', at);
        assert(inner.take(at) == name);
        assert(inner.skip(at + 1) == value);
    }
    if !inner.contains('=') {
        assert forall|i: int| 0 <= i < inner.len() implies inner[i] != '=' by {
            assert(inner.contains(inner[i]));
        }
        text::lemma_cut(inner, '=', inner.len() as int);
    }
}

/// Of the lines that give a value the last counts.
pub proof fn law_the_last_line_counts(lines: Seq<Seq<char>>, line: Seq<char>, key: Seq<char>)
    ensures
        setting(Seq::empty(), key) is None,
        line_value(line, key) is Some ==> setting(lines.push(line), key) == line_value(line, key),
        line_value(line, key) is None ==> setting(lines.push(line), key) == setting(lines, key),
{
    assert(lines.push(line).drop_last() == lines);
    assert(lines.push(line).last() == line);
}

/// The credentials are what the lines of the settings give to these two names, the
/// id and the secret; without both there are none, which is an error, as is a file
/// that cannot be read.
pub proof fn law_credentials_are_the_two_settings(home: Seq<char>, raw: String, why: String)
    ensures
        ({
            let lines = text::pieces(raw@, '\n');
            let id = setting(lines, "RSPOTIFY_CLIENT_ID"@);
            let secret = setting(lines, "RSPOTIFY_CLIENT_SECRET"@);
            &&& id is Some && secret is Some ==> credentials_from(home, Ok(raw)) == Ok::<
                (Seq<char>, Seq<char>),
                Seq<char>,
            >((id->0, secret->0))
            &&& id is None || secret is None ==> credentials_from(home, Ok(raw)) == Err::<
                (Seq<char>, Seq<char>),
                Seq<char>,
            >("no client credentials in spotlike env"@)
            &&& credentials_from(home, Err(why)) == Err::<(Seq<char>, Seq<char>), Seq<char>>(
                spotlike_env_in(home) + ": "@ + why@,
            )
            &&& credentials_in(raw@) is Some <==> id is Some && secret is Some
        }),
{
}

/// Our own token lives until a minute before it expires; a cache without a token
/// or without its expiry has none.
pub proof fn law_a_token_dies_a_minute_early(doc: Tree, token: Seq<char>, at: u64, now: u64)
    ensures
        doc.text_member("access_token"@) == Some(token) && doc.number_member("expires_at"@) == Some(
            at,
        ) ==> live_token(doc, now) == (if at - now > 60 {
            Some(token)
        } else {
            None
        }),
        doc.text_member("access_token"@) is None || doc.number_member("expires_at"@) is None
            ==> live_token(doc, now) is None,
{
}

/// A token is kept in our own cache, with its expiry, and nothing else is.
pub proof fn law_a_token_is_kept_with_its_expiry(home: Seq<char>, token: Seq<char>, at: u64)
    ensures
        ({
            let file = kept(home, token, at);
            let tree = token_tree(token, at);
            &&& file.dir == cache_dir_in(home)
            &&& file.path == token_cache_in(home)
            &&& file.contents == written(tree)
            &&& tree.text_member("access_token"@) == Some(token)
            &&& tree.number_member("expires_at"@) == Some(at)
            &&& forall|name: Seq<char>|
                name != "access_token"@ && name != "expires_at"@ ==> #[trigger] tree.member(
                    name,
                ) is None
        }),
{
    reveal_strlit("access_token");
    reveal_strlit("expires_at");
    assert("access_token"@.len() != "expires_at"@.len());
}

/// The refresh token is spent in the name of the client: its id, a colon and its
/// secret, encoded.
pub proof fn law_a_refresh_is_in_the_clients_name(
    id: Seq<char>,
    secret: Seq<char>,
    refresh_token: Seq<char>,
)
    ensures
        exchange_for(id, secret, refresh_token) == (Exchange::<Seq<char>> {
            url: "https://accounts.spotify.com/api/token"@,
            authorization: "Basic "@ + base64_text(id + ":"@ + secret),
            content_type: "application/x-www-form-urlencoded"@,
            form: "grant_type=refresh_token&refresh_token="@ + refresh_token,
        }),
{
}

/// Where our own cache gives no live token, `spotlike`'s is looked at.
pub proof fn law_without_a_token_of_our_own_one_is_borrowed(
    what: Seq<char>,
    home: Seq<char>,
    doc: Json,
    why: String,
    now: u64,
)
    ensures
        ({
            let borrow = (
                Stage::<Seq<char>>::BorrowToken,
                Turn { keep: None, ask: Ask::ReadDocument(spotlike_token_in(home)) },
            );
            &&& step_of(what, home, Stage::OwnToken, Event::Document(Err(why)), now) == borrow
            &&& live_token(doc@, now) is None ==> step_of(
                what,
                home,
                Stage::OwnToken,
                Event::Document(Ok(doc)),
                now,
            ) == borrow
            &&& live_token(doc@, now) matches Some(token) ==> step_of(
                what,
                home,
                Stage::OwnToken,
                Event::Document(Ok(doc)),
                now,
            ) == (
                Stage::<Seq<char>>::Calling { retry: false },
                Turn { keep: None, ask: Ask::Call(token) },
            )
        }),
{
}

/// A token of `spotlike`'s that lives for more than a minute is borrowed, and kept
/// for as long as it lives; where it does not, or is not told in full, the client's
/// settings are read for a refresh.
pub proof fn law_a_live_token_is_borrowed(
    what: Seq<char>,
    home: Seq<char>,
    doc: Json,
    why: String,
    token: Seq<char>,
    obtained: u64,
    life: u64,
    now: u64,
)
    ensures
        ({
            let next = step_of(what, home, Stage::BorrowToken, Event::Document(Ok(doc)), now);
            let refresh = (
                Stage::<Seq<char>>::ClientEnv { retry: false },
                Turn { keep: None, ask: Ask::ReadSettings(spotlike_env_in(home)) },
            );
            let told = doc@.text_member("access_token"@) == Some(token) && doc@.number_member(
                "obtained_at"@,
            ) == Some(obtained) && doc@.number_member("expires_in"@) == Some(life);
            &&& told && obtained + life <= u64::MAX && obtained + life - now > 60 ==> next == (
                Stage::<Seq<char>>::Calling { retry: false },
                Turn {
                    keep: Some(kept(home, token, (obtained + life) as u64)),
                    ask: Ask::Call(token),
                },
            )
            &&& told && obtained + life - now <= 60 ==> next == refresh
            &&& doc@.text_member("access_token"@) is None || doc@.number_member(
                "obtained_at"@,
            ) is None || doc@.number_member("expires_in"@) is None ==> next == refresh
            &&& step_of(what, home, Stage::BorrowToken, Event::Document(Err(why)), now) == refresh
        }),
{
}

/// A refresh reads the client's settings, then `spotlike`'s refresh token, and
/// spends that in the client's name; what is missing ends it with the reason.
pub proof fn law_a_refresh_proceeds(
    what: Seq<char>,
    home: Seq<char>,
    retry: bool,
    id: String,
    secret: String,
    doc: Json,
    why: String,
    now: u64,
)
    ensures
        ({
            let settings = Stage::ClientEnv { retry };
            let reading = Stage::RefreshToken { retry, id: id@, secret: secret@ };
            let failed = (
                Stage::<Seq<char>>::Finished,
                Turn { keep: None, ask: Ask::Finish(Err::<Seq<char>, Seq<char>>(why@)) },
            );
            &&& step_of(what, home, settings, Event::Credentials(Ok((id, secret))), now) == (
                reading,
                Turn { keep: None, ask: Ask::ReadDocument(spotlike_token_in(home)) },
            )
            &&& step_of(what, home, settings, Event::Credentials(Err(why)), now) == failed
            &&& step_of(what, home, reading, Event::Document(Err(why)), now) == failed
            &&& doc@.text_member("refresh_token"@) matches Some(token) ==> step_of(
                what,
                home,
                reading,
                Event::Document(Ok(doc)),
                now,
            ) == (
                Stage::<Seq<char>>::Exchange { retry },
                Turn { keep: None, ask: Ask::Exchange(exchange_for(id@, secret@, token)) },
            )
            &&& doc@.text_member("refresh_token"@) is None ==> step_of(
                what,
                home,
                reading,
                Event::Document(Ok(doc)),
                now,
            ) == (
                Stage::<Seq<char>>::Finished,
                Turn {
                    keep: None,
                    ask: Ask::Finish(
                        Err::<Seq<char>, Seq<char>>("no refresh token in spotlike token.json"@),
                    ),
                },
            )
        }),
{
}

/// A granted token is called with, and kept for the life that the reply gives it,
/// or an hour; a reply without one ends the request with the reason.
pub proof fn law_a_granted_token_is_used_and_kept(
    what: Seq<char>,
    home: Seq<char>,
    retry: bool,
    doc: Json,
    why: String,
    now: u64,
)
    ensures
        ({
            let next = step_of(what, home, Stage::Exchange { retry }, Event::Granted(Ok(doc)), now);
            let life: u64 = match doc@.number_member("expires_in"@) {
                Some(life) => life,
                None => 3600,
            };
            &&& doc@.text_member("access_token"@) matches Some(token) ==> next == (
                Stage::<Seq<char>>::Calling { retry },
                Turn {
                    keep: Some(kept(home, token, (now + life) as u64)),
                    ask: Ask::Call(token),
                },
            )
            &&& doc@.text_member("access_token"@) is None ==> next == (
                Stage::<Seq<char>>::Finished,
                Turn {
                    keep: None,
                    ask: Ask::Finish(
                        Err::<Seq<char>, Seq<char>>("token refresh: no access_token in response"@),
                    ),
                },
            )
            &&& step_of(what, home, Stage::Exchange { retry }, Event::Granted(Err(why)), now) == (
                Stage::<Seq<char>>::Finished,
                Turn { keep: None, ask: Ask::Finish(Err::<Seq<char>, Seq<char>>(why@)) },
            )
        }),
{
}

/// A reply ends the request with it. A first refusal of the token has the client's
/// settings read for a refresh; every other failure ends it, under its name.
pub proof fn law_a_call_ends_or_is_retried_once(
    what: Seq<char>,
    home: Seq<char>,
    retry: bool,
    body: String,
    e: CallError,
    now: u64,
)
    ensures
        ({
            let calling = Stage::Calling { retry };
            let failed = step_of(what, home, calling, Event::Called(Err(e)), now);
            &&& step_of(what, home, calling, Event::Called(Ok(body)), now) == (
                Stage::<Seq<char>>::Finished,
                Turn { keep: None, ask: Ask::Finish(Ok::<Seq<char>, Seq<char>>(body@)) },
            )
            &&& e.status == Some(401u16) && !retry ==> failed == (
                Stage::<Seq<char>>::ClientEnv { retry: true },
                Turn { keep: None, ask: Ask::ReadSettings(spotlike_env_in(home)) },
            )
            &&& e.status != Some(401u16) || retry ==> failed == (
                Stage::<Seq<char>>::Finished,
                Turn {
                    keep: None,
                    ask: Ask::Finish(Err::<Seq<char>, Seq<char>>(what + ": "@ + e.message@)),
                },
            )
        }),
{
}

/// Every stage takes the answer to what was asked at it, whatever that says; a
/// finished request takes none.
pub proof fn law_every_answer_is_taken(
    doc: Res<Json>,
    pair: Res<(String, String)>,
    reply: Result<String, CallError>,
    retry: bool,
    id: Seq<char>,
    secret: Seq<char>,
    event: Event,
)
    ensures
        answers(Stage::OwnToken, Event::Document(doc)),
        answers(Stage::BorrowToken, Event::Document(doc)),
        answers(Stage::ClientEnv { retry }, Event::Credentials(pair)),
        answers(Stage::RefreshToken { retry, id, secret }, Event::Document(doc)),
        answers(Stage::Exchange { retry }, Event::Granted(doc)),
        answers(Stage::Calling { retry }, Event::Called(reply)),
        !answers(Stage::Finished, event),
{
}

/// Only times that do not fit the clock are refused, and only where a token's
/// expiry is reckoned.
pub proof fn law_only_times_beyond_the_clock_are_refused(
    stage: Stage<Seq<char>>,
    event: Event,
    doc: Json,
    obtained: u64,
    life: u64,
    now: u64,
)
    ensures
        !(stage is OwnToken) && !(stage is BorrowToken) && !(stage is Exchange) ==> timely(
            stage,
            event,
            now,
        ),
        now + 60 <= u64::MAX ==> timely(Stage::OwnToken, event, now),
        now + 60 <= u64::MAX && obtained + life <= u64::MAX && doc@.number_member("obtained_at"@)
            == Some(obtained) && doc@.number_member("expires_in"@) == Some(life) ==> timely(
            Stage::BorrowToken,
            Event::Document(Ok(doc)),
            now,
        ),
        doc@.number_member("obtained_at"@) is None || doc@.number_member("expires_in"@) is None
            || doc@.text_member("access_token"@) is None ==> timely(
            Stage::BorrowToken,
            Event::Document(Ok(doc)),
            now,
        ),
        now + life <= u64::MAX && doc@.number_member("expires_in"@) == Some(life) ==> timely(
            Stage::Exchange { retry: false },
            Event::Granted(Ok(doc)),
            now,
        ) && timely(Stage::Exchange { retry: true }, Event::Granted(Ok(doc)), now),
{
}

/// A borrowed token expires when its life since it was obtained is over, a granted
/// one when its life from now on is.
pub proof fn law_a_token_expires_when_its_life_is_over(
    doc: Json,
    token: Seq<char>,
    obtained: u64,
    life: u64,
    retry: bool,
    now: u64,
)
    requires
        doc@.text_member("access_token"@) == Some(token),
        doc@.number_member("expires_in"@) == Some(life),
    ensures
        doc@.number_member("obtained_at"@) == Some(obtained) ==> expiry_in(
            Stage::BorrowToken,
            Event::Document(Ok(doc)),
            now,
        ) == obtained + life,
        expiry_in(Stage::Exchange { retry }, Event::Granted(Ok(doc)), now) == now + life,
{
}

/// Credentials are taken as they are.
pub proof fn law_credentials_are_taken_as_they_are(id: String, secret: String, why: String)
    ensures
        pair_result(Ok((id, secret))) == Ok::<(Seq<char>, Seq<char>), Seq<char>>((id@, secret@)),
        pair_result(Err(why)) == Err::<(Seq<char>, Seq<char>), Seq<char>>(why@),
{
}

/// What a request asks for is seen as it is.
pub proof fn law_turns_are_seen_as_they_are(
    s: String,
    t: String,
    u: String,
    v: String,
    retry: bool,
)
    ensures
        Ask::ReadDocument(s)@ == Ask::ReadDocument(s@),
        Ask::ReadSettings(s)@ == Ask::ReadSettings(s@),
        Ask::Call(s)@ == Ask::Call(s@),
        Ask::Finish(Ok(s))@ == Ask::Finish(Ok(s@)),
        Ask::Finish(Err(s))@ == Ask::Finish(Err(s@)),
        Ask::Exchange(
            Exchange { url: s, authorization: t, content_type: u, form: v },
        )@ == Ask::Exchange(
            Exchange { url: s@, authorization: t@, content_type: u@, form: v@ },
        ),
        (Keep { dir: s, path: t, contents: u })@ == (Keep { dir: s@, path: t@, contents: u@ }),
        (Turn { keep: None, ask: Ask::Call(s) })@ == (Turn { keep: None, ask: Ask::Call(s@) }),
        (Turn { keep: Some(Keep { dir: s, path: t, contents: u }), ask: Ask::Call(v) })@ == (
        Turn {
            keep: Some(Keep { dir: s@, path: t@, contents: u@ }),
            ask: Ask::Call(v@),
        }),
        Stage::<String>::OwnToken@ == Stage::<Seq<char>>::OwnToken,
        Stage::<String>::BorrowToken@ == Stage::<Seq<char>>::BorrowToken,
        (Stage::<String>::ClientEnv { retry })@ == (Stage::<Seq<char>>::ClientEnv { retry }),
        (Stage::RefreshToken { retry, id: s, secret: t })@ == (Stage::RefreshToken {
            retry,
            id: s@,
            secret: t@,
        }),
        (Stage::<String>::Exchange { retry })@ == (Stage::<Seq<char>>::Exchange { retry }),
        (Stage::<String>::Calling { retry })@ == (Stage::<Seq<char>>::Calling { retry }),
        Stage::<String>::Finished@ == Stage::<Seq<char>>::Finished,
{
}

} // verus!
