//! Track metadata sent by the page's track probe, and how it is turned into
//! a window title and Discord Rich Presence text.

use vstd::prelude::*;
use crate::text::{
    chars_are, chars_of, digits, digits_of, has_word, has_word_chars, is_digit, is_space,
    lemma_trim_end, lemma_trim_start, lemma_trimmed_idempotent, lower_chars, lower_text, starts_with, starts_with_chars,
    string_from_range, trim_bounds, trim_text, trimmed,
};

verus! {

/// Metadata of the track that the YouTube Music page is playing.
#[derive(Debug)]
pub struct TrackMetadata {
    pub title: String,
    pub artist: Option<String>,
    pub album: Option<String>,
    pub playing: bool,
    pub url: Option<String>,
    pub cover_url: Option<String>,
    pub elapsed_seconds: Option<u64>,
    pub duration_seconds: Option<u64>,
}

/// The mathematical value of a [`TrackMetadata`].
pub struct TrackView {
    pub title: Seq<char>,
    pub artist: Option<Seq<char>>,
    pub album: Option<Seq<char>>,
    pub playing: bool,
    pub url: Option<Seq<char>>,
    pub cover_url: Option<Seq<char>>,
    pub elapsed_seconds: Option<u64>,
    pub duration_seconds: Option<u64>,
}

/// The characters of an optional string.
pub open spec fn opt_text(o: Option<String>) -> Option<Seq<char>> {
    match o {
        Some(s) => Some(s@),
        None => None,
    }
}

impl View for TrackMetadata {
    type V = TrackView;

    open spec fn view(&self) -> TrackView {
        TrackView {
            title: self.title@,
            artist: opt_text(self.artist),
            album: opt_text(self.album),
            playing: self.playing,
            url: opt_text(self.url),
            cover_url: opt_text(self.cover_url),
            elapsed_seconds: self.elapsed_seconds,
            duration_seconds: self.duration_seconds,
        }
    }
}

/// The value of an optional track.
pub open spec fn opt_track(o: Option<TrackMetadata>) -> Option<TrackView> {
    match o {
        Some(t) => Some(t@),
        None => None,
    }
}

/// A copy of an optional string.
pub fn copy_opt_text(o: &Option<String>) -> (r: Option<String>)
    ensures
        opt_text(r) == opt_text(*o),
{
    match o {
        Some(s) => Some(s.clone()),
        None => None,
    }
}

/// Whether two optional strings hold the same text.
pub fn same_opt_text(a: &Option<String>, b: &Option<String>) -> (r: bool)
    ensures
        r == (opt_text(*a) == opt_text(*b)),
{
    match (a, b) {
        (Some(x), Some(y)) => *x == *y,
        (None, None) => true,
        _ => false,
    }
}

impl Clone for TrackMetadata {
    fn clone(&self) -> (r: Self)
        ensures
            r@ == self@,
    {
        TrackMetadata {
            title: self.title.clone(),
            artist: copy_opt_text(&self.artist),
            album: copy_opt_text(&self.album),
            playing: self.playing,
            url: copy_opt_text(&self.url),
            cover_url: copy_opt_text(&self.cover_url),
            elapsed_seconds: self.elapsed_seconds,
            duration_seconds: self.duration_seconds,
        }
    }
}

impl PartialEq for TrackMetadata {
    fn eq(&self, other: &Self) -> (r: bool) {
        self.same_as(other)
    }
}

impl vstd::std_specs::cmp::PartialEqSpecImpl for TrackMetadata {
    open spec fn obeys_eq_spec() -> bool {
        true
    }

    open spec fn eq_spec(&self, other: &Self) -> bool {
        self@ == other@
    }
}

impl Eq for TrackMetadata {
}

/// A copy of an optional track.
pub fn copy_opt_track(o: &Option<TrackMetadata>) -> (r: Option<TrackMetadata>)
    ensures
        opt_track(r) == opt_track(*o),
{
    match o {
        Some(t) => Some(t.clone()),
        None => None,
    }
}

impl TrackMetadata {
    /// Whether `self` and `other` describe the same track state.
    pub fn same_as(&self, other: &Self) -> (r: bool)
        ensures
            r == (self@ == other@),
    {
        let r = self.title == other.title && same_opt_text(&self.artist, &other.artist)
            && same_opt_text(&self.album, &other.album) && self.playing == other.playing
            && same_opt_text(&self.url, &other.url) && same_opt_text(
            &self.cover_url,
            &other.cover_url,
        ) && self.elapsed_seconds == other.elapsed_seconds && self.duration_seconds
            == other.duration_seconds;
        r
    }
}

} // verus!

verus! {

/// The marker that the track probe puts in front of its JSON messages.
pub open spec fn title_prefix() -> Seq<char> {
    "YTMRPC:"@
}

/// The characters of an optional string slice.
pub open spec fn opt_str_text(o: Option<&str>) -> Option<Seq<char>> {
    match o {
        Some(s) => Some(s@),
        None => None,
    }
}

/// Some whitespace-separated word of the lower-cased text is a view, play,
/// subscriber or like count label.
pub open spec fn is_metric_text(s: Seq<char>) -> bool {
    let l = lower_text(s);
    ||| has_word(l, "view"@)
    ||| has_word(l, "views"@)
    ||| has_word(l, "play"@)
    ||| has_word(l, "plays"@)
    ||| has_word(l, "subscriber"@)
    ||| has_word(l, "subscribers"@)
    ||| has_word(l, "like"@)
    ||| has_word(l, "likes"@)
}

/// The trimmed, lower-cased text names YouTube Music itself.
pub open spec fn is_generic_source_text(s: Seq<char>) -> bool {
    let l = lower_text(trimmed(s));
    ||| l == "youtube music"@
    ||| l == "music.youtube.com"@
    ||| l == "youtube"@
}

/// The trimmed text, unless it is empty, a metric label or a generic source
/// label.
pub open spec fn clean_part(v: Option<Seq<char>>) -> Option<Seq<char>> {
    match v {
        None => None,
        Some(s) => {
            let t = trimmed(s);
            if t.len() == 0 || is_metric_text(t) || is_generic_source_text(t) {
                None
            } else {
                Some(t)
            }
        },
    }
}

/// The Rich Presence state line: the cleaned artist, then "Paused" when the
/// track is not playing, joined by " - ".
pub open spec fn presence_state_of(t: TrackView) -> Option<Seq<char>> {
    match clean_part(t.artist) {
        Some(a) => if t.playing {
            Some(a)
        } else {
            Some(a + " - "@ + "Paused"@)
        },
        None => if t.playing {
            None
        } else {
            Some("Paused"@)
        },
    }
}

/// The hover text of the cover art: the cleaned album, or "YouTube Music".
pub open spec fn asset_text_of(t: TrackView) -> Seq<char> {
    match clean_part(t.album) {
        Some(a) => a,
        None => "YouTube Music"@,
    }
}

/// "title - artist - YouTube Music", or "title - YouTube Music" when the
/// artist is missing or empty.
pub open spec fn window_title_of(t: TrackView) -> Seq<char> {
    match t.artist {
        Some(a) => if a.len() > 0 {
            t.title + " - "@ + a + " - YouTube Music"@
        } else {
            t.title + " - YouTube Music"@
        },
        None => t.title + " - YouTube Music"@,
    }
}

/// A Discord client id: the ASCII digits of the trimmed text.
pub open spec fn normalized_client_id(s: Seq<char>) -> Seq<char> {
    digits(trimmed(s))
}

/// The client id that a text gives, if it has any digit.
pub open spec fn client_id_of(s: Seq<char>) -> Option<Seq<char>> {
    if normalized_client_id(s).len() > 0 {
        Some(normalized_client_id(s))
    } else {
        None
    }
}

/// The client id from the environment variable, else from the user's file, else the
/// bundled one.
pub open spec fn chosen_client_id(
    env: Option<Seq<char>>,
    file: Option<Seq<char>>,
    bundled: Seq<char>,
) -> Option<Seq<char>> {
    let from_env = match env {
        Some(e) => client_id_of(e),
        None => None,
    };
    let from_file = match file {
        Some(f) => client_id_of(f),
        None => None,
    };
    if from_env is Some {
        from_env
    } else if from_file is Some {
        from_file
    } else {
        client_id_of(bundled)
    }
}

/// A message that the track probe sends through the document title.
#[derive(Debug)]
pub enum PresenceMessage {
    /// The page plays this track.
    Track(TrackMetadata),
    /// Nothing is playing any more.
    Clear,
}

/// Whether `value`, lower-cased, has `word` among its whitespace-separated words.
fn lower_has_word(lower: &Vec<char>, word: &str) -> (r: bool)
    requires
        word@.len() > 0,
    ensures
        r == has_word(lower@, word@),
{
    let w = chars_of(word);
    has_word_chars(lower, &w)
}

/// Whether some word of `value` is a view, play, subscriber or like label.
pub fn is_metric_label(value: &str) -> (r: bool)
    ensures
        r == is_metric_text(value@),
{
    let v = chars_of(value);
    let l = lower_chars(&v);
    proof {
        reveal_strlit("view");
        reveal_strlit("views");
        reveal_strlit("play");
        reveal_strlit("plays");
        reveal_strlit("subscriber");
        reveal_strlit("subscribers");
        reveal_strlit("like");
        reveal_strlit("likes");
    }
    lower_has_word(&l, "view") || lower_has_word(&l, "views") || lower_has_word(&l, "play")
        || lower_has_word(&l, "plays") || lower_has_word(&l, "subscriber") || lower_has_word(
        &l,
        "subscribers",
    ) || lower_has_word(&l, "like") || lower_has_word(&l, "likes")
}

/// Whether the value, trimmed and lower-cased, names YouTube Music itself.
pub fn is_generic_source_label(value: &str) -> (r: bool)
    ensures
        r == is_generic_source_text(value@),
{
    let t = chars_of(value);
    let (lo, hi) = trim_bounds(&t);
    let trimmed_text = string_from_range(&t, lo, hi);
    let tv = chars_of(trimmed_text.as_str());
    let l = lower_chars(&tv);
    chars_are(&l, "youtube music") || chars_are(&l, "music.youtube.com") || chars_are(
        &l,
        "youtube",
    )
}

/// The trimmed value, unless it is empty, a metric label or a generic
/// source label.
pub fn clean_presence_part(value: Option<&str>) -> (r: Option<String>)
    ensures
        opt_text(r) == clean_part(opt_str_text(value)),
{
    match value {
        None => None,
        Some(s) => {
            let t = trim_text(s);
            if t.as_str().is_empty() || is_metric_label(t.as_str()) || is_generic_source_label(
                t.as_str(),
            ) {
                None
            } else {
                Some(t)
            }
        },
    }
}

/// A borrowed view of an optional string.
fn opt_as_str(o: &Option<String>) -> (r: Option<&str>)
    ensures
        opt_str_text(r) == opt_text(*o),
{
    match o {
        Some(s) => Some(s.as_str()),
        None => None,
    }
}

impl TrackMetadata {
    /// The window title while this track plays.
    pub fn window_title(&self) -> (r: String)
        ensures
            r@ == window_title_of(self@),
    {
        let mut r = self.title.clone();
        match &self.artist {
            Some(artist) => {
                if !artist.as_str().is_empty() {
                    r.append(" - ");
                    r.append(artist.as_str());
                }
            },
            None => {},
        }
        r.append(" - YouTube Music");
        r
    }

    /// The Rich Presence state line, if there is anything to show.
    pub fn presence_state(&self) -> (r: Option<String>)
        ensures
            opt_text(r) == presence_state_of(self@),
    {
        let artist = clean_presence_part(opt_as_str(&self.artist));
        match artist {
            Some(mut a) => {
                if !self.playing {
                    a.append(" - ");
                    a.append("Paused");
                }
                Some(a)
            },
            None => {
                if self.playing {
                    None
                } else {
                    Some("Paused".to_owned())
                }
            },
        }
    }

    /// The hover text of the cover art.
    pub fn asset_text(&self) -> (r: String)
        ensures
            r@ == asset_text_of(self@),
    {
        match clean_presence_part(opt_as_str(&self.album)) {
            Some(a) => a,
            None => "YouTube Music".to_owned(),
        }
    }
}

/// The Discord client id in a text: the ASCII digits of the trimmed text.
pub fn normalize_client_id(value: &str) -> (r: String)
    ensures
        r@ == normalized_client_id(value@),
{
    let t = trim_text(value);
    digits_of(t.as_str())
}

/// The client id that a text gives, if it has any digit.
pub fn client_id_from_text(value: &str) -> (r: Option<String>)
    ensures
        opt_text(r) == client_id_of(value@),
{
    let id = normalize_client_id(value);
    if id.as_str().is_empty() {
        None
    } else {
        Some(id)
    }
}

/// The client id from the environment variable's value, else from the
/// user's client-id file, else from the text bundled with the app.
pub fn select_client_id(env: Option<&str>, file: Option<&str>, bundled: &str) -> (r: Option<
    String,
>)
    ensures
        opt_text(r) == chosen_client_id(opt_str_text(env), opt_str_text(file), bundled@),
{
    let from_env = match env {
        Some(e) => client_id_from_text(e),
        None => None,
    };
    if from_env.is_some() {
        return from_env;
    }
    let from_file = match file {
        Some(f) => client_id_from_text(f),
        None => None,
    };
    if from_file.is_some() {
        return from_file;
    }
    client_id_from_text(bundled)
}

/// Whether a document title is a message of the track probe.
pub fn is_track_title_message(title: &str) -> (r: bool)
    ensures
        r == starts_with(title@, title_prefix()),
{
    let v = chars_of(title);
    let p = chars_of("YTMRPC:");
    starts_with_chars(&v, &p)
}

/// The JSON text that follows the probe's marker in a document title, or
/// `None` for an ordinary title.
pub fn title_payload(title: &str) -> (r: Option<String>)
    ensures
        match r {
            Some(p) => starts_with(title@, title_prefix()) && title@ == title_prefix() + p@,
            None => !starts_with(title@, title_prefix()),
        },
{
    let v = chars_of(title);
    let p = chars_of("YTMRPC:");
    if starts_with_chars(&v, &p) {
        let rest = string_from_range(&v, p.len(), v.len());
        assert(v@ =~= p@ + v@.subrange(p@.len() as int, v@.len() as int));
        Some(rest)
    } else {
        None
    }
}

} // verus!

verus! {

/// Every character of `s` is an ASCII digit.
pub open spec fn all_digits(s: Seq<char>) -> bool {
    forall|i: int| 0 <= i < s.len() ==> is_digit(#[trigger] s[i])
}

/// The digits of a text are all digits.
pub proof fn lemma_digits_are_digits(s: Seq<char>)
    ensures
        all_digits(digits(s)),
    decreases s.len(),
{
    if s.len() > 0 {
        lemma_digits_are_digits(s.drop_last());
    }
}

/// A text of digits is its own digits.
pub proof fn lemma_digits_of_digits(s: Seq<char>)
    requires
        all_digits(s),
    ensures
        digits(s) == s,
    decreases s.len(),
{
    if s.len() > 0 {
        assert(is_digit(s[s.len() - 1]));
        assert(all_digits(s.drop_last())) by {
            assert forall|i: int| 0 <= i < s.drop_last().len() implies is_digit(
                #[trigger] s.drop_last()[i],
            ) by {
                assert(s.drop_last()[i] == s[i]);
            }
        }
        lemma_digits_of_digits(s.drop_last());
        assert(s.drop_last().push(s.last()) =~= s);
    }
}

/// Trimming leaves a text of digits unchanged.
pub proof fn lemma_trim_digits(s: Seq<char>)
    requires
        all_digits(s),
    ensures
        trimmed(s) == s,
{
    if s.len() > 0 {
        assert(!is_space(s[0])) by {
            assert(is_digit(s[0]));
        }
    }
    lemma_trim_start(s, 0);
    assert(s.skip(0) =~= s);
    if s.len() > 0 {
        assert(!is_space(s[s.len() - 1])) by {
            assert(is_digit(s[s.len() - 1]));
        }
    }
    lemma_trim_end(s, s.len() as int);
    assert(s.take(s.len() as int) =~= s);
}

/// A normalized client id holds only ASCII digits, and normalizing it again
/// changes nothing.
pub proof fn normalized_client_id_is_stable(s: Seq<char>)
    ensures
        all_digits(normalized_client_id(s)),
        normalized_client_id(normalized_client_id(s)) == normalized_client_id(s),
{
    let d = normalized_client_id(s);
    lemma_digits_are_digits(trimmed(s));
    lemma_trim_digits(d);
    lemma_digits_of_digits(d);
}

/// The presence state line depends on the artist and the playing flag only:
/// album, links and progress never show in it.
pub proof fn presence_state_uses_artist_only(a: TrackView, b: TrackView)
    requires
        a.artist == b.artist,
        a.playing == b.playing,
    ensures
        presence_state_of(a) == presence_state_of(b),
{
}

/// What cleaning keeps is non-empty, trimmed, and neither a metric label
/// nor a generic source label.
pub proof fn cleaned_part_is_meaningful(v: Option<Seq<char>>)
    ensures
        clean_part(v) matches Some(c) ==> {
            &&& c.len() > 0
            &&& v matches Some(s) && c == trimmed(s)
            &&& !is_metric_text(c)
            &&& !is_generic_source_text(c)
        },
{
}

/// A paused track always has a presence state line that ends in "Paused".
pub proof fn paused_track_says_paused(t: TrackView)
    requires
        !t.playing,
    ensures
        presence_state_of(t) matches Some(s) && s.len() >= "Paused"@.len() && s.skip(
            s.len() - "Paused"@.len(),
        ) == "Paused"@,
{
    match clean_part(t.artist) {
        Some(a) => {
            let s = a + " - "@ + "Paused"@;
            assert(s.skip(s.len() - "Paused"@.len()) =~= "Paused"@);
        },
        None => {
            assert("Paused"@.skip(0) =~= "Paused"@);
        },
    }
}

/// A text counts as a view, play, subscriber or like label exactly when one
/// of its whitespace-separated words, lower-cased, is "view", "views",
/// "play", "plays", "subscriber", "subscribers", "like" or "likes".
pub proof fn metric_label_iff_count_word(s: Seq<char>)
    ensures
        is_metric_text(s) <==> exists|w: Seq<char>|
            {
                &&& (w == "view"@ || w == "views"@ || w == "play"@ || w == "plays"@ || w
                    == "subscriber"@ || w == "subscribers"@ || w == "like"@ || w == "likes"@)
                &&& #[trigger] has_word(lower_text(s), w)
            },
{
    let l = lower_text(s);
    if has_word(l, "view"@) {
        assert(has_word(lower_text(s), "view"@));
    }
    if has_word(l, "views"@) {
        assert(has_word(lower_text(s), "views"@));
    }
    if has_word(l, "play"@) {
        assert(has_word(lower_text(s), "play"@));
    }
    if has_word(l, "plays"@) {
        assert(has_word(lower_text(s), "plays"@));
    }
    if has_word(l, "subscriber"@) {
        assert(has_word(lower_text(s), "subscriber"@));
    }
    if has_word(l, "subscribers"@) {
        assert(has_word(lower_text(s), "subscribers"@));
    }
    if has_word(l, "like"@) {
        assert(has_word(lower_text(s), "like"@));
    }
    if has_word(l, "likes"@) {
        assert(has_word(lower_text(s), "likes"@));
    }
}

/// Cleaning drops every text that, once trimmed and lower-cased, has a view,
/// play, subscriber or like count word among its words: such a text never
/// shows as an artist or album in Discord.
pub proof fn count_labels_are_dropped(s: Seq<char>, w: Seq<char>)
    requires
        w == "view"@ || w == "views"@ || w == "play"@ || w == "plays"@ || w == "subscriber"@
            || w == "subscribers"@ || w == "like"@ || w == "likes"@,
        has_word(lower_text(trimmed(s)), w),
    ensures
        is_metric_text(trimmed(s)),
        clean_part(Some(s)) is None,
{
    metric_label_iff_count_word(trimmed(s));
}

/// The client id comes from the first source that gives one, in this
/// order: the environment variable, the user's client-id file, the bundled
/// text. A source gives one when its trimmed text holds an ASCII digit, and
/// the id is then those digits, in order.
pub proof fn client_id_sources_in_order(
    env: Option<Seq<char>>,
    file: Option<Seq<char>>,
    bundled: Seq<char>,
)
    ensures
        (env is Some && digits(trimmed(env->0)).len() > 0) ==> chosen_client_id(env, file, bundled)
            == Some(digits(trimmed(env->0))),
        (!(env is Some && digits(trimmed(env->0)).len() > 0) && file is Some && digits(
            trimmed(file->0),
        ).len() > 0) ==> chosen_client_id(env, file, bundled) == Some(digits(trimmed(file->0))),
        (!(env is Some && digits(trimmed(env->0)).len() > 0) && !(file is Some && digits(
            trimmed(file->0),
        ).len() > 0) && digits(trimmed(bundled)).len() > 0) ==> chosen_client_id(env, file, bundled)
            == Some(digits(trimmed(bundled))),
        (!(env is Some && digits(trimmed(env->0)).len() > 0) && !(file is Some && digits(
            trimmed(file->0),
        ).len() > 0) && digits(trimmed(bundled)).len() == 0) ==> chosen_client_id(env, file, bundled)
            is None,
{
}

/// Cleaning drops a text that, trimmed and in any letter case, is "YouTube
/// Music", "music.youtube.com" or "YouTube"; an album such as this leaves the
/// cover art's hover text at "YouTube Music".
pub proof fn source_labels_are_dropped(s: Seq<char>, t: TrackView)
    requires
        lower_text(trimmed(s)) == "youtube music"@ || lower_text(trimmed(s))
            == "music.youtube.com"@ || lower_text(trimmed(s)) == "youtube"@,
    ensures
        clean_part(Some(s)) is None,
        t.album == Some(s) ==> asset_text_of(t) == "YouTube Music"@,
{
    lemma_trimmed_idempotent(s);
}

/// Any other text is kept, trimmed: one with a character that is not white
/// space, no view, play, subscriber or like count word, and that does not
/// name YouTube Music itself.
pub proof fn ordinary_text_is_kept_trimmed(s: Seq<char>)
    requires
        trimmed(s).len() > 0,
        forall|w: Seq<char>|
            (w == "view"@ || w == "views"@ || w == "play"@ || w == "plays"@ || w == "subscriber"@
                || w == "subscribers"@ || w == "like"@ || w == "likes"@) ==> !#[trigger] has_word(
                lower_text(trimmed(s)),
                w,
            ),
        lower_text(trimmed(s)) != "youtube music"@,
        lower_text(trimmed(s)) != "music.youtube.com"@,
        lower_text(trimmed(s)) != "youtube"@,
    ensures
        clean_part(Some(s)) == Some(trimmed(s)),
{
    lemma_trimmed_idempotent(s);
    metric_label_iff_count_word(trimmed(s));
}

/// The cover art's hover text is the album, trimmed, when cleaning keeps it,
/// and "YouTube Music" when the album is missing or dropped.
pub proof fn asset_text_is_album_or_source(t: TrackView)
    ensures
        t.album is None ==> asset_text_of(t) == "YouTube Music"@,
        clean_part(t.album) is Some ==> asset_text_of(t) == trimmed(t.album->0),
        (t.album is Some && clean_part(t.album) is None) ==> asset_text_of(t) == "YouTube Music"@,
{
}

/// The window title starts with the track's title and ends with
/// " - YouTube Music"; a non-empty artist stands between them, set off by
/// " - ", and a missing or empty one leaves nothing between them.
pub proof fn window_title_shape(t: TrackView)
    ensures
        window_title_of(t).len() >= t.title.len() + 16,
        window_title_of(t).take(t.title.len() as int) == t.title,
        window_title_of(t).skip(window_title_of(t).len() - 16) == " - YouTube Music"@,
        (t.artist is Some && t.artist->0.len() > 0) ==> window_title_of(t).subrange(
            t.title.len() as int,
            window_title_of(t).len() - 16,
        ) == " - "@ + t.artist->0,
        !(t.artist is Some && t.artist->0.len() > 0) ==> window_title_of(t).len() == t.title.len()
            + 16,
{
    reveal_strlit(" - YouTube Music");
    reveal_strlit(" - ");
    let w = window_title_of(t);
    if t.artist is Some && t.artist->0.len() > 0 {
        let a = t.artist->0;
        assert(w.take(t.title.len() as int) =~= t.title);
        assert(w.skip(w.len() - 16) =~= " - YouTube Music"@);
        assert(w.subrange(t.title.len() as int, w.len() - 16) =~= " - "@ + a);
    } else {
        assert(w.take(t.title.len() as int) =~= t.title);
        assert(w.skip(w.len() - 16) =~= " - YouTube Music"@);
    }
}

/// Wrapping any payload in the probe's marker gives a probe message, and the
/// payload is all that is read back from it.
pub proof fn payload_roundtrip(payload: Seq<char>, read: Seq<char>)
    ensures
        starts_with(title_prefix() + payload, title_prefix()),
        title_prefix() + payload == title_prefix() + read ==> read == payload,
{
    let t = title_prefix() + payload;
    assert(t.take(title_prefix().len() as int) =~= title_prefix());
    if t == title_prefix() + read {
        assert(read =~= t.skip(title_prefix().len() as int));
        assert(payload =~= t.skip(title_prefix().len() as int));
    }
}

} // verus!
