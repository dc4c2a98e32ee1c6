//! Discord Rich Presence: the worker's decisions for each incoming track,
//! the activity that is published for a track, and the controller that
//! hands tracks to the worker.

use vstd::prelude::*;
use crate::presence::{
    asset_text_of, clean_part, copy_opt_text, copy_opt_track, opt_text, opt_track, presence_state_of,
    TrackMetadata, TrackView,
};
use crate::text::{is_blank, is_blank_text};
use crate::track_channel::TrackSender;

verus! {

/// `x` saturated into the range of `i64`.
pub open spec fn clamp_i64(x: int) -> i64 {
    if x < i64::MIN {
        i64::MIN
    } else if x > i64::MAX {
        i64::MAX
    } else {
        x as i64
    }
}

/// A `u64` reinterpreted as an `i64`, as `x as i64` does.
pub open spec fn as_signed(x: u64) -> int {
    if x <= i64::MAX {
        x as int
    } else {
        x - 0x1_0000_0000_0000_0000
    }
}

/// `x` milliseconds for `x` seconds, read as a signed count.
pub open spec fn millis(x: u64) -> int {
    as_signed(x) * 1000
}

/// Start and end of the progress bar: the track started `elapsed` seconds
/// before `now_ms` and ends `duration` seconds after its start (both
/// saturating); none when paused, when either length is missing, when the
/// duration is zero or already over, or when the clock is unknown.
pub open spec fn timestamps_of(
    playing: bool,
    elapsed: Option<u64>,
    duration: Option<u64>,
    now_ms: Option<i64>,
) -> Option<(i64, i64)> {
    if !playing {
        None
    } else {
        match (elapsed, duration, now_ms) {
            (Some(e), Some(d), Some(now)) => if d == 0 || e >= d {
                None
            } else {
                let start = clamp_i64(now - millis(e));
                let end = clamp_i64(start + millis(d));
                Some((start, end))
            },
            _ => None,
        }
    }
}

/// Whether `x` milliseconds fit in an `i64`.
pub open spec fn millis_fit(x: u64) -> bool {
    i64::MIN <= millis(x) <= i64::MAX
}

/// The millisecond conversions of the track's lengths stay within `i64`
/// wherever they are performed: for a playing track with both lengths, a
/// duration that is not over, and a known clock.
pub open spec fn lengths_fit(
    playing: bool,
    elapsed: Option<u64>,
    duration: Option<u64>,
    now_ms: Option<i64>,
) -> bool {
    match (elapsed, duration) {
        (Some(e), Some(d)) => (playing && d != 0 && e < d && now_ms is Some) ==> millis_fit(e)
            && millis_fit(d),
        _ => true,
    }
}

/// `x` seconds in milliseconds, as `(x as i64) * 1000`.
pub fn millis_of(x: u64) -> (r: i64)
    requires
        millis_fit(x),
    ensures
        r == millis(x),
{
    let signed: i128 = if x <= i64::MAX as u64 {
        x as i128
    } else {
        (x as i128) - 0x1_0000_0000_0000_0000i128
    };
    let r = signed * 1000;
    r as i64
}

/// For durations below 2^63 seconds the progress bar never ends before it
/// starts and the lengths are counted as they are; away from the limits of
/// `i64` it spans exactly the track's duration and started exactly the
/// elapsed time ago.
pub proof fn timestamps_span_the_track(
    playing: bool,
    elapsed: Option<u64>,
    duration: Option<u64>,
    now_ms: Option<i64>,
)
    ensures
        match (timestamps_of(playing, elapsed, duration, now_ms), elapsed, duration, now_ms) {
            (Some((start, end)), Some(e), Some(d), Some(now)) => {
                &&& d <= i64::MAX ==> start <= end
                &&& (i64::MIN <= now - millis(e) <= i64::MAX && i64::MIN <= now - millis(e)
                    + millis(d) <= i64::MAX) ==> (start == now - millis(e) && end - start == millis(
                d))
                &&& d <= i64::MAX ==> (millis(e) == e * 1000 && millis(d) == d * 1000)
            },
            _ => true,
        },
{
    if let (Some(e), Some(d)) = (elapsed, duration) {
        if d <= i64::MAX {
            assert(millis(d) == d * 1000);
            if e < d {
                assert(millis(e) == e * 1000);
            }
        }
    }
}

/// `a - b`, saturating at the bounds of `i64`.
fn saturating_sub_i64(a: i64, b: i64) -> (r: i64)
    ensures
        r == clamp_i64(a - b),
{
    let x = (a as i128) - (b as i128);
    if x < i64::MIN as i128 {
        i64::MIN
    } else if x > i64::MAX as i128 {
        i64::MAX
    } else {
        x as i64
    }
}

/// `a + b`, saturating at the bounds of `i64`.
fn saturating_add_i64(a: i64, b: i64) -> (r: i64)
    ensures
        r == clamp_i64(a + b),
{
    let x = (a as i128) + (b as i128);
    if x < i64::MIN as i128 {
        i64::MIN
    } else if x > i64::MAX as i128 {
        i64::MAX
    } else {
        x as i64
    }
}

/// Start and end timestamps, in milliseconds, for Discord's progress bar.
pub fn activity_timestamps(
    playing: bool,
    elapsed: Option<u64>,
    duration: Option<u64>,
    now_ms: Option<i64>,
) -> (r: Option<(i64, i64)>)
    requires
        lengths_fit(playing, elapsed, duration, now_ms),
    ensures
        r == timestamps_of(playing, elapsed, duration, now_ms),
{
    if !playing {
        return None;
    }
    match (elapsed, duration) {
        (Some(e), Some(d)) => {
            if d == 0 || e >= d {
                return None;
            }
            match now_ms {
                Some(now) => {
                    let start = saturating_sub_i64(now, millis_of(e));
                    let end = saturating_add_i64(start, millis_of(d));
                    Some((start, end))
                },
                None => None,
            }
        },
        _ => None,
    }
}

/// The kind of activity shown on the Discord profile.
#[derive(Clone, Copy, Debug, PartialEq, Eq, Structural)]
pub enum ActivityKind {
    /// "Listening to ...".
    Listening,
}

/// What is published to Discord for one track.
#[derive(Debug)]
pub struct ActivityPlan {
    /// The kind of activity.
    pub kind: ActivityKind,
    /// The name of the activity.
    pub name: String,
    /// The first line: the track title.
    pub details: String,
    /// The second line.
    pub state: Option<String>,
    /// Whether Discord shows the second line as the user's status.
    pub state_is_status: bool,
    /// The link behind both lines.
    pub link_url: Option<String>,
    /// The cover art.
    pub large_image: Option<String>,
    /// The hover text of the cover art.
    pub large_text: Option<String>,
    /// The link behind the cover art.
    pub large_url: Option<String>,
    /// Start and end of the progress bar, in milliseconds since the epoch.
    pub timestamps: Option<(i64, i64)>,
    /// The one button: its label and its link.
    pub button: Option<(String, String)>,
}

/// The mathematical value of an [`ActivityPlan`].
pub struct ActivityPlanView {
    pub kind: ActivityKind,
    pub name: Seq<char>,
    pub details: Seq<char>,
    pub state: Option<Seq<char>>,
    pub state_is_status: bool,
    pub link_url: Option<Seq<char>>,
    pub large_image: Option<Seq<char>>,
    pub large_text: Option<Seq<char>>,
    pub large_url: Option<Seq<char>>,
    pub timestamps: Option<(i64, i64)>,
    pub button: Option<(Seq<char>, Seq<char>)>,
}

/// The characters of an optional pair of strings.
pub open spec fn opt_text_pair(o: Option<(String, String)>) -> Option<(Seq<char>, Seq<char>)> {
    match o {
        Some((a, b)) => Some((a@, b@)),
        None => None,
    }
}

impl View for ActivityPlan {
    type V = ActivityPlanView;

    open spec fn view(&self) -> ActivityPlanView {
        ActivityPlanView {
            kind: self.kind,
            name: self.name@,
            details: self.details@,
            state: opt_text(self.state),
            state_is_status: self.state_is_status,
            link_url: opt_text(self.link_url),
            large_image: opt_text(self.large_image),
            large_text: opt_text(self.large_text),
            large_url: opt_text(self.large_url),
            timestamps: self.timestamps,
            button: opt_text_pair(self.button),
        }
    }
}

/// The activity for track `t`, given the track link and the cover art link
/// that passed the URL policy and the current time: "Listening" to "YouTube
/// Music", the title, the presence state shown as the status when there is
/// one, the links, the cover art with its hover text, the progress bar and a
/// "Listen on YouTube Music" button for the track link.
pub open spec fn plan_of(
    t: TrackView,
    track_url: Option<Seq<char>>,
    artwork_url: Option<Seq<char>>,
    now_ms: Option<i64>,
) -> ActivityPlanView {
    ActivityPlanView {
        kind: ActivityKind::Listening,
        name: "YouTube Music"@,
        details: t.title,
        state: presence_state_of(t),
        state_is_status: presence_state_of(t) is Some,
        link_url: track_url,
        large_image: artwork_url,
        large_text: if artwork_url is Some {
            Some(asset_text_of(t))
        } else {
            None
        },
        large_url: if artwork_url is Some {
            track_url
        } else {
            None
        },
        timestamps: timestamps_of(t.playing, t.elapsed_seconds, t.duration_seconds, now_ms),
        button: match track_url {
            Some(u) => Some(("Listen on YouTube Music"@, u)),
            None => None,
        },
    }
}

impl ActivityPlan {
    /// The activity published for `track`. `track_url` and `artwork_url` are
    /// the track's links that the URL policy let through.
    pub fn for_track(
        track: &TrackMetadata,
        track_url: Option<String>,
        artwork_url: Option<String>,
        now_ms: Option<i64>,
    ) -> (plan: ActivityPlan)
        requires
            lengths_fit(track.playing, track.elapsed_seconds, track.duration_seconds, now_ms),
        ensures
            plan@ == plan_of(track@, opt_text(track_url), opt_text(artwork_url), now_ms),
    {
        let (large_text, large_url) = match &artwork_url {
            Some(_) => (Some(track.asset_text()), copy_opt_text(&track_url)),
            None => (None, None),
        };
        let state = track.presence_state();
        let state_is_status = state.is_some();
        let button = match &track_url {
            Some(u) => Some(("Listen on YouTube Music".to_owned(), u.clone())),
            None => None,
        };
        ActivityPlan {
            kind: ActivityKind::Listening,
            name: "YouTube Music".to_owned(),
            details: track.title.clone(),
            state,
            state_is_status,
            link_url: copy_opt_text(&track_url),
            large_image: artwork_url,
            large_text,
            large_url,
            timestamps: activity_timestamps(
                track.playing,
                track.elapsed_seconds,
                track.duration_seconds,
                now_ms,
            ),
            button,
        }
    }
}

} // verus!

verus! {

/// What the presence worker does next with an incoming track.
#[derive(Debug, PartialEq, Eq)]
pub enum PresenceStep {
    /// The track equals the last one handled: nothing to do.
    Skip,
    /// No client id is known: the track is only remembered.
    Remembered,
    /// Connect to Discord with this client id, then report the outcome.
    Connect(String),
    /// Publish the track's activity, then report the outcome.
    Publish,
}

/// The kind of a [`PresenceStep`], without its client id.
pub enum StepKind {
    Skip,
    Remembered,
    Connect,
    Publish,
}

/// The presence worker's state: the client id, whether a Discord client is
/// connected, and the last track it handled.
pub struct PresenceState {
    client_id: Option<String>,
    connected: bool,
    last_track: Option<TrackMetadata>,
}

/// The mathematical value of a [`PresenceState`].
pub struct PresenceView {
    pub client_id: Option<Seq<char>>,
    pub connected: bool,
    pub last_track: Option<TrackView>,
}

impl View for PresenceState {
    type V = PresenceView;

    closed spec fn view(&self) -> PresenceView {
        PresenceView {
            client_id: opt_text(self.client_id),
            connected: self.connected,
            last_track: opt_track(self.last_track),
        }
    }
}

/// First decision on track `t` in state `s`: the step, and the state after it.
pub open spec fn begin_spec(s: PresenceView, t: TrackView) -> (StepKind, PresenceView) {
    if s.last_track == Some(t) {
        (StepKind::Skip, s)
    } else if s.client_id is None {
        (StepKind::Remembered, PresenceView { last_track: Some(t), ..s })
    } else if !s.connected {
        (StepKind::Connect, s)
    } else {
        (StepKind::Publish, s)
    }
}

/// The state after connecting for track `t` succeeded (`ok`) or failed. A
/// failed connection still remembers the track.
pub open spec fn connected_spec(s: PresenceView, t: TrackView, ok: bool) -> PresenceView {
    if ok {
        PresenceView { connected: true, ..s }
    } else {
        PresenceView { last_track: Some(t), ..s }
    }
}

/// The state after publishing track `t` succeeded (`ok`) or failed. A failed
/// publication drops the client and keeps the previous track, so the next
/// update tries again.
pub open spec fn published_spec(s: PresenceView, t: TrackView, ok: bool) -> PresenceView {
    if ok {
        PresenceView { last_track: Some(t), ..s }
    } else {
        PresenceView { connected: false, ..s }
    }
}

/// The kind of a step.
pub open spec fn step_kind(step: PresenceStep) -> StepKind {
    match step {
        PresenceStep::Skip => StepKind::Skip,
        PresenceStep::Remembered => StepKind::Remembered,
        PresenceStep::Connect(_) => StepKind::Connect,
        PresenceStep::Publish => StepKind::Publish,
    }
}

impl PresenceState {
    /// A worker state with this client id, no connection and no track yet.
    pub fn new(client_id: Option<String>) -> (s: Self)
        ensures
            s@ == (PresenceView { client_id: opt_text(client_id), connected: false, last_track: None }),
    {
        PresenceState { client_id, connected: false, last_track: None }
    }

    /// The last track handled.
    pub fn last_track(&self) -> (r: Option<TrackMetadata>)
        ensures
            opt_track(r) == self@.last_track,
    {
        copy_opt_track(&self.last_track)
    }

    /// Whether a Discord client is connected.
    pub fn is_connected(&self) -> (r: bool)
        ensures
            r == self@.connected,
    {
        self.connected
    }

    /// The first decision on an incoming track.
    pub fn begin(&mut self, track: &TrackMetadata) -> (step: PresenceStep)
        ensures
            step_kind(step) == begin_spec(old(self)@, track@).0,
            final(self)@ == begin_spec(old(self)@, track@).1,
            match step {
                PresenceStep::Connect(id) => old(self)@.client_id == Some(id@),
                _ => true,
            },
    {
        let same = match &self.last_track {
            Some(last) => last.same_as(track),
            None => false,
        };
        if same {
            return PresenceStep::Skip;
        }
        match &self.client_id {
            None => {
                self.last_track = Some(track.clone());
                PresenceStep::Remembered
            },
            Some(id) => {
                if !self.connected {
                    PresenceStep::Connect(id.clone())
                } else {
                    PresenceStep::Publish
                }
            },
        }
    }

    /// Records whether connecting to Discord for `track` succeeded; returns
    /// whether the track is to be published now.
    pub fn connect_result(&mut self, track: &TrackMetadata, ok: bool) -> (publish: bool)
        ensures
            publish == ok,
            final(self)@ == connected_spec(old(self)@, track@, ok),
    {
        if ok {
            self.connected = true;
        } else {
            self.last_track = Some(track.clone());
        }
        ok
    }

    /// Records whether publishing `track` succeeded.
    pub fn publish_result(&mut self, track: &TrackMetadata, ok: bool)
        ensures
            final(self)@ == published_spec(old(self)@, track@, ok),
    {
        if ok {
            self.last_track = Some(track.clone());
        } else {
            self.connected = false;
        }
    }
}

/// Once a track is published, the same track arriving again is skipped.
pub proof fn published_track_is_not_republished(s: PresenceView, t: TrackView)
    ensures
        begin_spec(published_spec(s, t, true), t).0 is Skip,
        begin_spec(published_spec(s, t, true), t).1 == published_spec(s, t, true),
{
}

/// After a failed publication the same track is tried again: the worker
/// reconnects and does not skip it.
pub proof fn failed_publication_is_retried(s: PresenceView, t: TrackView)
    requires
        s.last_track != Some(t),
        s.client_id is Some,
    ensures
        begin_spec(published_spec(s, t, false), t).0 is Connect,
{
}

/// Without a client id the worker never talks to Discord; it only
/// remembers tracks.
pub proof fn no_client_id_never_connects(s: PresenceView, t: TrackView)
    requires
        s.client_id is None,
    ensures
        begin_spec(s, t).0 is Skip || begin_spec(s, t).0 is Remembered,
        begin_spec(s, t).1.last_track == Some(t),
{
}

/// The worker skips a track only when it equals the last track it handled in
/// every field (title, artist, album, playing state, links and progress);
/// a connected worker with a client id publishes any other track at once,
/// leaving its state as it was.
pub proof fn skip_only_identical_track(s: PresenceView, t: TrackView)
    ensures
        begin_spec(s, t).0 is Skip <==> s.last_track == Some(t),
        begin_spec(s, t).0 is Skip ==> begin_spec(s, t).1 == s,
        s.client_id is Some && s.connected && s.last_track != Some(t) ==> begin_spec(s, t).0 is Publish
            && begin_spec(s, t).1 == s,
{
}

/// Once a track was connected for and published, any other track (the same
/// song paused, or with its progress moved on) is published, not skipped.
pub proof fn changed_track_is_published(s: PresenceView, t: TrackView, u: TrackView)
    requires
        s.client_id is Some,
        u != t,
    ensures
        begin_spec(published_spec(connected_spec(s, t, true), t, true), u).0 is Publish,
{
}

/// A track for which connecting failed is remembered: the same track
/// arriving again is skipped, while any other track tries to connect again.
pub proof fn failed_connection_remembers_track(s: PresenceView, t: TrackView, u: TrackView)
    requires
        s.client_id is Some,
        !s.connected,
    ensures
        begin_spec(connected_spec(s, t, false), t).0 is Skip,
        u != t ==> begin_spec(connected_spec(s, t, false), u).0 is Connect,
{
}

/// The activity's second line is the track's state line, playing or paused:
/// the cleaned artist while playing, the cleaned artist and " - Paused" when
/// paused, "Paused" alone when no artist survives cleaning, and nothing for
/// a playing track without one. Discord shows it as the status exactly when
/// there is one.
pub proof fn activity_state_line(
    t: TrackView,
    track_url: Option<Seq<char>>,
    artwork_url: Option<Seq<char>>,
    now_ms: Option<i64>,
)
    ensures
        plan_of(t, track_url, artwork_url, now_ms).state == presence_state_of(t),
        plan_of(t, track_url, artwork_url, now_ms).state == (match clean_part(t.artist) {
            Some(a) => Some(
                if t.playing {
                    a
                } else {
                    a + " - Paused"@
                },
            ),
            None => if t.playing {
                None
            } else {
                Some("Paused"@)
            },
        }),
        plan_of(t, track_url, artwork_url, now_ms).state_is_status == plan_of(
            t,
            track_url,
            artwork_url,
            now_ms,
        ).state is Some,
        plan_of(t, track_url, artwork_url, now_ms).details == t.title,
{
    if clean_part(t.artist) is Some && !t.playing {
        let a = clean_part(t.artist)->0;
        reveal_strlit(" - ");
        reveal_strlit("Paused");
        reveal_strlit(" - Paused");
        assert(a + " - "@ + "Paused"@ =~= a + " - Paused"@);
    }
}

/// Whether an incoming track is handed to the worker: its title is not blank.
pub open spec fn accepts_track(t: TrackView) -> bool {
    !is_blank(t.title)
}

/// Whether a track is handed to the presence worker.
pub fn should_forward_track(track: &TrackMetadata) -> (r: bool)
    ensures
        r == accepts_track(track@),
{
    !is_blank_text(track.title.as_str())
}

} // verus!

verus! {

/// Hands track updates to the Discord presence worker.
pub struct PresenceController {
    sender: TrackSender,
}

impl Clone for PresenceController {
    /// Another handle on the same worker, with the same record of offered
    /// tracks.
    fn clone(&self) -> (r: Self)
        ensures
            r.offered() == self.offered(),
    {
        PresenceController { sender: self.sender.duplicate() }
    }
}

impl PresenceController {
    /// The channel through which this controller hands tracks to the worker.
    pub closed spec fn channel(&self) -> std::sync::mpsc::SyncSender<TrackMetadata> {
        self.sender.channel()
    }

    /// The tracks handed so far to the worker's channel through this handle,
    /// oldest first.
    pub closed spec fn offered(&self) -> Seq<TrackView> {
        self.sender.offered()
    }

    /// A controller that hands tracks to the worker behind `tx`.
    pub fn with_sender(tx: std::sync::mpsc::SyncSender<TrackMetadata>) -> (c: Self)
        ensures
            c.channel() == tx,
            c.offered() == Seq::<TrackView>::empty(),
    {
        PresenceController { sender: TrackSender::new(tx) }
    }

    /// Hands `track` to the worker's channel unless its title is blank; a
    /// full queue or a stopped worker drops the update. Returns whether the
    /// worker took the track.
    pub fn update(&mut self, track: TrackMetadata) -> (taken: bool)
        ensures
            final(self).offered() == (if accepts_track(track@) {
                old(self).offered().push(track@)
            } else {
                old(self).offered()
            }),
            final(self).channel() == old(self).channel(),
            taken ==> accepts_track(track@),
    {
        if !should_forward_track(&track) {
            return false;
        }
        self.sender.offer(track)
    }
}

} // verus!
