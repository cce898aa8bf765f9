//! On-disk cache for album art.
//!
//! MPRIS hands out a remote `i.scdn.co` URL, so the first sight of a track
//! costs one download; every hover after that is a `stat()`.
use crate::api::{cache_dir, cache_dir_in};
use crate::text;
use crate::text::{behind_last, concat, is_plausible_id, path_below};
use vstd::prelude::*;
use vstd::string::*;

verus! {

/// Cap on a downloaded image, in case the URL isn't what we think it is.
pub const MAX_BYTES: u64 = 4 * 1024 * 1024;

pub open spec fn art_dir_in(home: Seq<char>) -> Seq<char> {
    text::below(cache_dir_in(home), "art"@)
}

pub fn art_dir(home: &str) -> (path: String)
    ensures
        path@ == art_dir_in(home@),
{
    path_below(cache_dir(home).as_str(), "art")
}

/// Where the image behind `url` is cached. The last segment of the URL is the
/// key; `None` where it holds anything but ASCII letters and digits.
pub open spec fn cache_path_in(home: Seq<char>, url: Seq<char>) -> Option<Seq<char>> {
    let name = text::last_segment(url, '/');
    if text::plausible_id(name) {
        Some(text::below(art_dir_in(home), name))
    } else {
        None
    }
}

/// The last path segment of a Spotify art URL is already a content hash, so it
/// doubles as the cache key. Anything unexpected in it disqualifies the URL.
pub fn cache_path(home: &str, url: &str) -> (path: Option<String>)
    ensures
        text::opt_text(path) == cache_path_in(home@, url@),
{
    let name = behind_last(url, '/');
    if is_plausible_id(name) {
        Some(path_below(art_dir(home).as_str(), name))
    } else {
        None
    }
}

/// The cached image behind `url`. `on_disk` says whether there is a file at its
/// [`cache_path`].
pub fn cached(home: &str, url: &str, on_disk: bool) -> (path: Option<String>)
    ensures
        text::opt_text(path) == (if on_disk {
            cache_path_in(home@, url@)
        } else {
            None
        }),
{
    if on_disk {
        cache_path(home, url)
    } else {
        None
    }
}

/// What of a downloaded image is kept: no more than the cap.
pub open spec fn capped(image: Seq<u8>) -> Seq<u8> {
    if image.len() <= MAX_BYTES {
        image
    } else {
        image.take(MAX_BYTES as int)
    }
}

fn cap(image: Vec<u8>) -> (kept: Vec<u8>)
    ensures
        kept@ == capped(image@),
{
    let mut kept = image;
    if kept.len() as u64 > MAX_BYTES {
        kept.truncate(MAX_BYTES as usize);
    }
    kept
}

/// Where an image stands while it is being written.
pub open spec fn part_of(path: Seq<char>) -> Seq<char> {
    path + ".part"@
}

/// How far a download has come.
pub enum Stage<B> {
    /// Whether the image is cached already is being looked up.
    Checking,
    Downloading,
    /// The cache directory is being made; the image waits.
    Preparing(B),
    Writing,
    Renaming,
    Finished,
}

impl View for Stage<Vec<u8>> {
    type V = Stage<Seq<u8>>;

    open spec fn view(&self) -> Stage<Seq<u8>> {
        match self {
            Stage::Checking => Stage::Checking,
            Stage::Downloading => Stage::Downloading,
            Stage::Preparing(image) => Stage::Preparing(image@),
            Stage::Writing => Stage::Writing,
            Stage::Renaming => Stage::Renaming,
            Stage::Finished => Stage::Finished,
        }
    }
}

/// What has to be done next for a download.
#[derive(PartialEq, Debug)]
pub enum Ask<S, B> {
    /// Look whether this is a file and report [`Event::Looked`].
    Look(S),
    /// Get at most `limit` bytes from `url` and report [`Event::Downloaded`].
    Download { url: S, limit: u64 },
    /// Make this directory, and report [`Event::Done`].
    MakeDir(S),
    /// Write this file, and report [`Event::Done`].
    Write { path: S, image: B },
    /// Rename this file, and report [`Event::Done`].
    Rename { from: S, to: S },
    /// Nothing: this is the outcome.
    Finish(Result<S, S>),
}

impl View for Ask<String, Vec<u8>> {
    type V = Ask<Seq<char>, Seq<u8>>;

    open spec fn view(&self) -> Ask<Seq<char>, Seq<u8>> {
        match self {
            Ask::Look(path) => Ask::Look(path@),
            Ask::Download { url, limit } => Ask::Download { url: url@, limit: *limit },
            Ask::MakeDir(path) => Ask::MakeDir(path@),
            Ask::Write { path, image } => Ask::Write { path: path@, image: image@ },
            Ask::Rename { from, to } => Ask::Rename { from: from@, to: to@ },
            Ask::Finish(Ok(path)) => Ask::Finish(Ok(path@)),
            Ask::Finish(Err(why)) => Ask::Finish(Err(why@)),
        }
    }
}

/// What came of the last [`Ask`].
pub enum Event {
    Looked(bool),
    Downloaded(Result<Vec<u8>, String>),
    Done(Result<(), String>),
}

/// A download on its way. `path` is where the image will be.
pub struct Fetch {
    pub home: String,
    pub url: String,
    pub path: String,
    pub stage: Stage<Vec<u8>>,
}

pub open spec fn fail(why: Seq<char>) -> (Stage<Seq<u8>>, Ask<Seq<char>, Seq<u8>>) {
    (Stage::Finished, Ask::Finish(Err("art: "@ + why)))
}

pub open spec fn answers(stage: Stage<Seq<u8>>, event: Event) -> bool {
    match stage {
        Stage::Checking => event is Looked,
        Stage::Downloading => event is Downloaded,
        Stage::Preparing(_) => event is Done,
        Stage::Writing => event is Done,
        Stage::Renaming => event is Done,
        Stage::Finished => false,
    }
}

/// The stage and the next thing to do that follow `event`.
///
/// The image is written beside its place and renamed, so a hover that races a
/// half-written file can't load a truncated image.
pub open spec fn step_of(
    home: Seq<char>,
    url: Seq<char>,
    path: Seq<char>,
    stage: Stage<Seq<u8>>,
    event: Event,
) -> (Stage<Seq<u8>>, Ask<Seq<char>, Seq<u8>>) {
    match (stage, event) {
        (Stage::Checking, Event::Looked(found)) => if found {
            (Stage::Finished, Ask::Finish(Ok(path)))
        } else {
            (Stage::Downloading, Ask::Download { url, limit: MAX_BYTES })
        },
        (Stage::Downloading, Event::Downloaded(Ok(image))) => (
            Stage::Preparing(image@),
            Ask::MakeDir(art_dir_in(home)),
        ),
        (Stage::Downloading, Event::Downloaded(Err(why))) => fail(why@),
        (Stage::Preparing(image), Event::Done(Ok(_))) => (
            Stage::Writing,
            Ask::Write { path: part_of(path), image: capped(image) },
        ),
        (Stage::Writing, Event::Done(Ok(_))) => (
            Stage::Renaming,
            Ask::Rename { from: part_of(path), to: path },
        ),
        (Stage::Renaming, Event::Done(Ok(_))) => (Stage::Finished, Ask::Finish(Ok(path))),
        (_, Event::Done(Err(why))) => fail(why@),
        _ => (stage, Ask::Finish(Err(Seq::empty()))),
    }
}

/// Starts to fetch the image behind `url`.
pub fn fetch(home: &str, url: &str) -> (started: (Fetch, Ask<String, Vec<u8>>))
    ensures
        started.0.home@ == home@,
        started.0.url@ == url@,
        cache_path_in(home@, url@) matches Some(path) ==> {
            &&& started.0.path@ == path
            &&& started.0.stage@ == Stage::<Seq<u8>>::Checking
            &&& started.1@ == Ask::<Seq<char>, Seq<u8>>::Look(path)
        },
        cache_path_in(home@, url@) is None ==> {
            &&& started.0.path@ == Seq::<char>::empty()
            &&& started.0.stage@ == Stage::<Seq<u8>>::Finished
            &&& started.1@ == Ask::<Seq<char>, Seq<u8>>::Finish(Err("unexpected art url"@))
        },
{
    match cache_path(home, url) {
        Some(path) => {
            let ask = Ask::Look(path.clone());
            (
                Fetch { home: home.to_owned(), url: url.to_owned(), path, stage: Stage::Checking },
                ask,
            )
        },
        None => (
            Fetch {
                home: home.to_owned(),
                url: url.to_owned(),
                path: String::new(),
                stage: Stage::Finished,
            },
            Ask::Finish(Err("unexpected art url".to_owned())),
        ),
    }
}

fn fail_ask(why: String) -> (ask: Ask<String, Vec<u8>>)
    ensures
        (Stage::<Seq<u8>>::Finished, ask@) == fail(why@),
{
    Ask::Finish(Err(concat("art: ", why.as_str())))
}

impl Fetch {
    /// Whether `event` answers what was asked.
    pub fn accepts(&self, event: &Event) -> (yes: bool)
        ensures
            yes == answers(self.stage@, *event),
    {
        match (&self.stage, event) {
            (Stage::Checking, Event::Looked(_)) => true,
            (Stage::Downloading, Event::Downloaded(_)) => true,
            (Stage::Preparing(_), Event::Done(_)) => true,
            (Stage::Writing, Event::Done(_)) => true,
            (Stage::Renaming, Event::Done(_)) => true,
            _ => false,
        }
    }

    /// Moves on to what follows `event`.
    pub fn step(&mut self, event: Event) -> (ask: Ask<String, Vec<u8>>)
        requires
            answers(old(self).stage@, event),
        ensures
            final(self).home == old(self).home,
            final(self).url == old(self).url,
            final(self).path == old(self).path,
            (final(self).stage@, ask@) == step_of(
                old(self).home@,
                old(self).url@,
                old(self).path@,
                old(self).stage@,
                event,
            ),
    {
        let mut stage: Stage<Vec<u8>> = Stage::Finished;
        std::mem::swap(&mut stage, &mut self.stage);
        match (stage, event) {
            (Stage::Checking, Event::Looked(found)) => if found {
                Ask::Finish(Ok(self.path.clone()))
            } else {
                self.stage = Stage::Downloading;
                Ask::Download { url: self.url.clone(), limit: MAX_BYTES }
            },
            (Stage::Downloading, Event::Downloaded(Ok(image))) => {
                self.stage = Stage::Preparing(image);
                Ask::MakeDir(art_dir(self.home.as_str()))
            },
            (Stage::Downloading, Event::Downloaded(Err(why))) => fail_ask(why),
            (Stage::Preparing(image), Event::Done(Ok(_))) => {
                self.stage = Stage::Writing;
                Ask::Write { path: concat(self.path.as_str(), ".part"), image: cap(image) }
            },
            (Stage::Writing, Event::Done(Ok(_))) => {
                self.stage = Stage::Renaming;
                Ask::Rename {
                    from: concat(self.path.as_str(), ".part"),
                    to: self.path.clone(),
                }
            },
            (Stage::Renaming, Event::Done(Ok(_))) => Ask::Finish(Ok(self.path.clone())),
            (_, Event::Done(Err(why))) => fail_ask(why),
            (stage, _) => {
                self.stage = stage;
                Ask::Finish(Err(String::new()))
            },
        }
    }
}

/// A cached image lies in the cache directory itself: its name holds no slash.
pub proof fn law_images_stay_in_the_cache(home: Seq<char>, url: Seq<char>)
    ensures
        cache_path_in(home, url) matches Some(path) ==> exists|name: Seq<char>|
            path == #[trigger] text::below(art_dir_in(home), name) && !name.contains('/'),
{
    let name = text::last_segment(url, '/');
    if text::plausible_id(name) {
        assert(!name.contains('/')) by {
            assert forall|i: int| 0 <= i < name.len() implies name[i] != '/' by {
                assert(text::alphanumeric(name[i]));
            }
        }
        assert(cache_path_in(home, url) == Some(text::below(art_dir_in(home), name)));
    }
}

/// The first sight of an image costs one download; every one after that is a
/// look at the disk.
pub proof fn law_a_cached_image_is_not_downloaded(
    home: Seq<char>,
    url: Seq<char>,
    path: Seq<char>,
    stage: Stage<Seq<u8>>,
    event: Event,
)
    requires
        answers(stage, event),
    ensures
        step_of(home, url, path, stage, event).1 is Download <==> event == Event::Looked(false),
        event == Event::Looked(true) ==> step_of(home, url, path, stage, event).1 == Ask::<
            Seq<char>,
            Seq<u8>,
        >::Finish(Ok(path)),
{
}

pub open spec fn succeeded(event: Event) -> bool {
    event matches Event::Done(done) && done is Ok
}

/// No half-written image can be seen in its place: what is written is written
/// beside it, and only a finished file is renamed to it.
pub proof fn law_no_partial_image(
    home: Seq<char>,
    url: Seq<char>,
    path: Seq<char>,
    stage: Stage<Seq<u8>>,
    event: Event,
)
    requires
        answers(stage, event),
    ensures
        step_of(home, url, path, stage, event).1 matches Ask::Write { path: at, .. } ==> at != path,
        step_of(home, url, path, stage, event).1 matches Ask::Rename { from, to } ==> {
            &&& stage is Writing
            &&& succeeded(event)
            &&& from == part_of(path)
            &&& to == path
        },
        step_of(home, url, path, stage, event).1 matches Ask::Finish(Ok(at)) ==> {
            &&& at == path
            &&& event == Event::Looked(true) || stage is Renaming && succeeded(event)
        },
{
    reveal_strlit(".part");
    assert(part_of(path).len() == path.len() + 5);
}

/// What is written to the cache never exceeds the cap, whatever was downloaded.
pub proof fn law_cached_images_are_capped(
    home: Seq<char>,
    url: Seq<char>,
    path: Seq<char>,
    stage: Stage<Seq<u8>>,
    event: Event,
)
    ensures
        step_of(home, url, path, stage, event).1 matches Ask::Write { image, .. } ==> image.len()
            <= MAX_BYTES,
{
}

/// What is written is what was downloaded, as far as the cap allows.
pub proof fn law_the_downloaded_image_is_written(
    home: Seq<char>,
    url: Seq<char>,
    path: Seq<char>,
    image: Vec<u8>,
    made: Event,
)
    requires
        succeeded(made),
    ensures
        ({
            let downloaded = Event::Downloaded(Ok(image));
            let waiting = step_of(home, url, path, Stage::Downloading, downloaded).0;
            &&& step_of(home, url, path, waiting, made).1 == (Ask::<Seq<char>, Seq<u8>>::Write {
                path: part_of(path),
                image: capped(image@),
            })
            &&& capped(image@).is_prefix_of(image@)
            &&& image@.len() <= MAX_BYTES ==> capped(image@) == image@
        }),
{
}

/// An image that is being written is never taken for a cached one, its own or
/// another's.
pub proof fn law_a_part_is_no_cached_image(home: Seq<char>, url: Seq<char>, other: Seq<char>)
    ensures
        cache_path_in(home, url) matches Some(path) ==> cache_path_in(home, other) != Some(
            part_of(path),
        ),
{
    reveal_strlit("art");
    reveal_strlit(".part");
    let name = text::last_segment(url, '/');
    let other_name = text::last_segment(other, '/');
    let dir = art_dir_in(home);
    if text::plausible_id(name) && text::plausible_id(other_name) {
        let part = part_of(text::below(dir, name));
        let whole = text::below(dir, other_name);
        assert(part[part.len() - 5] == '.');
        if part == whole {
            assert(other_name.len() == name.len() + 5);
            assert(whole[whole.len() - 5] == other_name[other_name.len() - 5]);
            assert(text::alphanumeric(other_name[other_name.len() - 5]));
        }
    }
}

/// How many turns a download can still take.
pub open spec fn turns_left(stage: Stage<Seq<u8>>) -> nat {
    match stage {
        Stage::Checking => 5,
        Stage::Downloading => 4,
        Stage::Preparing(_) => 3,
        Stage::Writing => 2,
        Stage::Renaming => 1,
        Stage::Finished => 0,
    }
}

/// Every event brings a download nearer to its end, so it ends.
pub proof fn law_a_download_ends(
    home: Seq<char>,
    url: Seq<char>,
    path: Seq<char>,
    stage: Stage<Seq<u8>>,
    event: Event,
)
    requires
        answers(stage, event),
    ensures
        turns_left(step_of(home, url, path, stage, event).0) < turns_left(stage),
        step_of(home, url, path, stage, event).0 is Finished <==> step_of(
            home,
            url,
            path,
            stage,
            event,
        ).1 is Finish,
{
}

/// A cached image lies in the art directory under the whole of what follows the
/// last slash of its URL. It lies nowhere where that is no run of letters and
/// digits.
pub proof fn law_an_image_lies_under_its_whole_name(home: Seq<char>, url: Seq<char>)
    ensures
        ({
            let name = text::last_segment(url, '/');
            &&& cache_path_in(home, url) is Some <==> text::plausible_id(name)
            &&& cache_path_in(home, url) matches Some(path) ==> path == cache_dir_in(home)
                + "/art/"@ + name
        }),
{
    lemma_art_dir(home);
    let name = text::last_segment(url, '/');
    reveal_strlit("/art");
    reveal_strlit("/art/");
    let dir = art_dir_in(home);
    assert(dir.last() == 't');
    assert(dir.push('/') + name == cache_dir_in(home) + "/art/"@ + name);
}

proof fn lemma_art_dir(home: Seq<char>)
    ensures
        art_dir_in(home) == cache_dir_in(home) + "/art"@,
        cache_dir_in(home).len() > 0,
        cache_dir_in(home).last() == 'k',
{
    reveal_strlit(".cache/spotify-peek");
    reveal_strlit("art");
    reveal_strlit("/art");
    let dir = cache_dir_in(home);
    assert(dir.last() == ".cache/spotify-peek"@.last());
    assert(dir.push('/') + "art"@ == dir + "/art"@);
}

/// Two images share a place only where their URLs end alike behind the last slash,
/// and then they do.
pub proof fn law_images_share_a_place_only_by_name(home: Seq<char>, url: Seq<char>, other: Seq<char>)
    requires
        cache_path_in(home, url) is Some,
        cache_path_in(home, other) is Some,
    ensures
        cache_path_in(home, url) == cache_path_in(home, other) <==> text::last_segment(url, '/')
            == text::last_segment(other, '/'),
{
    law_an_image_lies_under_its_whole_name(home, url);
    law_an_image_lies_under_its_whole_name(home, other);
    let front = cache_dir_in(home) + "/art/"@;
    let a = text::last_segment(url, '/');
    let b = text::last_segment(other, '/');
    if front + a == front + b {
        assert(a == (front + a).skip(front.len() as int));
        assert(b == (front + b).skip(front.len() as int));
    }
}

/// The text before the last slash of a URL does not bear on where its image lies.
pub proof fn law_only_the_end_of_the_url_counts(
    home: Seq<char>,
    front: Seq<char>,
    other: Seq<char>,
    name: Seq<char>,
)
    requires
        !name.contains('/'),
    ensures
        cache_path_in(home, front.push('/') + name) == cache_path_in(home, other.push('/') + name),
{
    text::lemma_last_segment(front, '/', name);
    text::lemma_last_segment(other, '/', name);
}

/// An image that is not cached is downloaded from its URL, and once the cache is
/// there written beside its place, cut to four mebibytes, and renamed to it; then
/// it is the outcome.
pub proof fn law_a_download_is_cached(
    home: Seq<char>,
    url: Seq<char>,
    path: Seq<char>,
    image: Vec<u8>,
    done: Event,
)
    requires
        succeeded(done),
    ensures
        ({
            let step = |stage: Stage<Seq<u8>>, event: Event| step_of(home, url, path, stage, event);
            let (one, get) = step(Stage::Checking, Event::Looked(false));
            let (two, make) = step(one, Event::Downloaded(Ok(image)));
            let (three, write) = step(two, done);
            let (four, rename) = step(three, done);
            let (five, end) = step(four, done);
            &&& get == (Ask::<Seq<char>, Seq<u8>>::Download { url, limit: 4_194_304 })
            &&& make == Ask::<Seq<char>, Seq<u8>>::MakeDir(cache_dir_in(home) + "/art"@)
            &&& write == (Ask::<Seq<char>, Seq<u8>>::Write {
                path: path + ".part"@,
                image: if image@.len() > 4_194_304 {
                    image@.take(4_194_304)
                } else {
                    image@
                },
            })
            &&& rename == (Ask::<Seq<char>, Seq<u8>>::Rename { from: path + ".part"@, to: path })
            &&& end == Ask::<Seq<char>, Seq<u8>>::Finish(Ok(path))
            &&& five is Finished
        }),
{
    lemma_art_dir(home);
}

/// What fails ends the download with its reason, whatever stage it was at.
pub proof fn law_a_failure_ends_the_download(
    home: Seq<char>,
    url: Seq<char>,
    path: Seq<char>,
    stage: Stage<Seq<u8>>,
    why: String,
)
    ensures
        step_of(home, url, path, Stage::Downloading, Event::Downloaded(Err(why))) == (
            Stage::<Seq<u8>>::Finished,
            Ask::<Seq<char>, Seq<u8>>::Finish(Err("art: "@ + why@)),
        ),
        answers(stage, Event::Done(Err(why))) ==> step_of(
            home,
            url,
            path,
            stage,
            Event::Done(Err(why)),
        ) == (
            Stage::<Seq<u8>>::Finished,
            Ask::<Seq<char>, Seq<u8>>::Finish(Err("art: "@ + why@)),
        ),
{
}

/// Every stage takes the answer to what was asked at it, whatever that says, and a
/// finished download none.
pub proof fn law_every_answer_is_taken(
    found: bool,
    image: Result<Vec<u8>, String>,
    waiting: Seq<u8>,
    done: Result<(), String>,
    event: Event,
)
    ensures
        answers(Stage::Checking, Event::Looked(found)),
        answers(Stage::Downloading, Event::Downloaded(image)),
        answers(Stage::Preparing(waiting), Event::Done(done)),
        answers(Stage::Writing, Event::Done(done)),
        answers(Stage::Renaming, Event::Done(done)),
        !answers(Stage::Finished, event),
{
}

/// What a download asks for is seen as it is.
pub proof fn law_asks_are_seen_as_they_are(s: String, t: String, image: Vec<u8>, limit: u64)
    ensures
        Ask::<String, Vec<u8>>::Look(s)@ == Ask::<Seq<char>, Seq<u8>>::Look(s@),
        (Ask::<String, Vec<u8>>::Download { url: s, limit })@ == (Ask::<
            Seq<char>,
            Seq<u8>,
        >::Download { url: s@, limit }),
        Ask::<String, Vec<u8>>::MakeDir(s)@ == Ask::<Seq<char>, Seq<u8>>::MakeDir(s@),
        (Ask::Write { path: s, image })@ == (Ask::Write { path: s@, image: image@ }),
        (Ask::<String, Vec<u8>>::Rename { from: s, to: t })@ == (Ask::<
            Seq<char>,
            Seq<u8>,
        >::Rename { from: s@, to: t@ }),
        Ask::<String, Vec<u8>>::Finish(Ok(s))@ == Ask::<Seq<char>, Seq<u8>>::Finish(Ok(s@)),
        Ask::<String, Vec<u8>>::Finish(Err(s))@ == Ask::<Seq<char>, Seq<u8>>::Finish(Err(s@)),
        Stage::<Vec<u8>>::Checking@ == Stage::<Seq<u8>>::Checking,
        Stage::<Vec<u8>>::Downloading@ == Stage::<Seq<u8>>::Downloading,
        Stage::Preparing(image)@ == Stage::Preparing(image@),
        Stage::<Vec<u8>>::Writing@ == Stage::<Seq<u8>>::Writing,
        Stage::<Vec<u8>>::Renaming@ == Stage::<Seq<u8>>::Renaming,
        Stage::<Vec<u8>>::Finished@ == Stage::<Seq<u8>>::Finished,
{
}

} // verus!
