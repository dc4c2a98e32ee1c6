//! Taskbar media controls: the thumbnail toolbar buttons, the tooltips
//! written into them, the window messages they send, and the remembered
//! track that they reflect.

use vstd::prelude::*;
use crate::presence::{copy_opt_track, opt_track, TrackMetadata, TrackView};
use crate::text::{utf16, utf16_units};

verus! {

/// The tooltip units that fit before the terminating zero.
pub open spec fn tooltip_units(value: Seq<char>) -> Seq<u16> {
    let u = utf16(value);
    if u.len() <= 259 {
        u
    } else {
        u.take(259)
    }
}

/// Writes the UTF-16 encoding of `value` into the start of `target`, at most
/// 259 units, so that the last slot is never written.
pub fn write_tooltip(target: &mut [u16; 260], value: &str)
    ensures
        final(target)@ == tooltip_units(value@) + old(target)@.skip(tooltip_units(value@).len() as int),
{
    let units = utf16_units(value);
    let n: usize = if units.len() <= 259 {
        units.len()
    } else {
        259
    };
    assert(units@.take(n as int) == tooltip_units(value@));
    let mut i: usize = 0;
    while i < n
        invariant
            n <= 259,
            n <= units@.len(),
            i <= n,
            target@.len() == 260,
            target@ == units@.take(i as int) + old(target)@.skip(i as int),
            old(target)@.len() == 260,
        decreases n - i,
    {
        target[i] = units[i];
        assert(target@ =~= units@.take(i + 1) + old(target)@.skip(i + 1));
        i = i + 1;
    }
}

/// A tooltip holds the whole UTF-16 encoding of a text of at most 259
/// units, and the first 259 units of a longer one: it never reaches the
/// buffer's last slot.
pub proof fn tooltip_is_longest_fitting_prefix(value: Seq<char>)
    ensures
        tooltip_units(value).len() <= 259,
        utf16(value).len() <= 259 ==> tooltip_units(value) == utf16(value),
        utf16(value).len() > 259 ==> tooltip_units(value).len() == 259 && tooltip_units(value)
            == utf16(value).take(259),
{
}

/// A tooltip written into a zeroed buffer is always zero-terminated.
pub proof fn tooltip_keeps_terminator(before: Seq<u16>, value: Seq<char>)
    requires
        before.len() == 260,
        before[259] == 0,
    ensures
        (tooltip_units(value) + before.skip(tooltip_units(value).len() as int))[259] == 0,
        (tooltip_units(value) + before.skip(tooltip_units(value).len() as int)).len() == 260,
{
    let u = tooltip_units(value);
    assert(u.len() <= 259);
    let after = u + before.skip(u.len() as int);
    assert(after[259] == before[259]);
}

} // verus!

verus! {

/// Command id of the "Previous" thumbnail button.
pub const PREVIOUS_BUTTON: u32 = 0x5001;

/// Command id of the "Play"/"Pause" thumbnail button.
pub const PLAY_PAUSE_BUTTON: u32 = 0x5002;

/// Command id of the "Next" thumbnail button.
pub const NEXT_BUTTON: u32 = 0x5003;

/// The `WM_COMMAND` window message.
pub const WM_COMMAND: u32 = 0x0111;

/// The `THBN_CLICKED` notification code of a thumbnail button click.
pub const THBN_CLICKED: u32 = 0x1800;

/// A media transport action.
#[derive(Clone, Copy, Debug, PartialEq, Eq, Structural)]
pub enum MediaButton {
    Previous,
    PlayPause,
    Next,
}

/// The icon drawn on a thumbnail button.
#[derive(Clone, Copy, Debug, PartialEq, Eq, Structural)]
pub enum IconKind {
    Previous,
    Play,
    Pause,
    Next,
}

/// One thumbnail toolbar button.
#[derive(Debug)]
pub struct ThumbButton {
    pub id: u32,
    pub icon: IconKind,
    pub tooltip: String,
    /// Enabled when visible, hidden otherwise.
    pub visible: bool,
}

/// The three buttons: Previous, Play/Pause and Next. The middle one shows
/// "Pause" with the pause icon while playing and "Play" with the play icon
/// otherwise; all three are shown only when media controls are enabled.
pub fn thumb_buttons(playing: bool, enabled: bool) -> (r: Vec<ThumbButton>)
    ensures
        r@.len() == 3,
        r@[0].id == PREVIOUS_BUTTON && r@[0].icon == IconKind::Previous && r@[0].tooltip@
            == "Previous"@,
        r@[1].id == PLAY_PAUSE_BUTTON,
        r@[1].icon == (if playing {
            IconKind::Pause
        } else {
            IconKind::Play
        }),
        r@[1].tooltip@ == (if playing {
            "Pause"@
        } else {
            "Play"@
        }),
        r@[2].id == NEXT_BUTTON && r@[2].icon == IconKind::Next && r@[2].tooltip@ == "Next"@,
        forall|i: int| 0 <= i < 3 ==> #[trigger] r@[i].visible == enabled,
        button_of(r@[0].id) == Some(MediaButton::Previous),
        button_of(r@[1].id) == Some(MediaButton::PlayPause),
        button_of(r@[2].id) == Some(MediaButton::Next),
{
    let middle = if playing {
        ThumbButton {
            id: PLAY_PAUSE_BUTTON,
            icon: IconKind::Pause,
            tooltip: "Pause".to_owned(),
            visible: enabled,
        }
    } else {
        ThumbButton {
            id: PLAY_PAUSE_BUTTON,
            icon: IconKind::Play,
            tooltip: "Play".to_owned(),
            visible: enabled,
        }
    };
    let mut r: Vec<ThumbButton> = Vec::new();
    r.push(
        ThumbButton {
            id: PREVIOUS_BUTTON,
            icon: IconKind::Previous,
            tooltip: "Previous".to_owned(),
            visible: enabled,
        },
    );
    r.push(middle);
    r.push(ThumbButton { id: NEXT_BUTTON, icon: IconKind::Next, tooltip: "Next".to_owned(), visible: enabled });
    r
}

/// What a window message means to the taskbar media controls.
#[derive(Clone, Copy, Debug, PartialEq, Eq, Structural)]
pub enum WindowMessage {
    /// The taskbar button was (re)created: the toolbar must be added again.
    TaskbarButtonCreated,
    /// A thumbnail button was clicked.
    Clicked(MediaButton),
    /// A thumbnail click with an unknown button id.
    ClickedOther,
    /// Anything else, for the default window procedure.
    Other,
}

/// The button with a command id.
pub open spec fn button_of(id: u32) -> Option<MediaButton> {
    if id == PREVIOUS_BUTTON {
        Some(MediaButton::Previous)
    } else if id == PLAY_PAUSE_BUTTON {
        Some(MediaButton::PlayPause)
    } else if id == NEXT_BUTTON {
        Some(MediaButton::Next)
    } else {
        None
    }
}

/// The meaning of window message `message` with `wparam`, given the id of
/// the registered "TaskbarButtonCreated" message if it is known: the high
/// 16 bits of `wparam` carry the notification code, the low 16 bits the
/// button id.
pub open spec fn window_message_of(message: u32, wparam: u64, taskbar_created: Option<u32>) -> WindowMessage {
    if taskbar_created matches Some(m) && message == m && m != 0 {
        WindowMessage::TaskbarButtonCreated
    } else if message == WM_COMMAND && (wparam / 0x10000) % 0x10000 == THBN_CLICKED {
        match button_of((wparam % 0x10000) as u32) {
            Some(b) => WindowMessage::Clicked(b),
            None => WindowMessage::ClickedOther,
        }
    } else {
        WindowMessage::Other
    }
}

/// Decodes a window message for the taskbar media controls.
pub fn decode_window_message(message: u32, wparam: u64, taskbar_created: Option<u32>) -> (r: WindowMessage)
    ensures
        r == window_message_of(message, wparam, taskbar_created),
{
    if let Some(m) = taskbar_created {
        if message == m && m != 0 {
            return WindowMessage::TaskbarButtonCreated;
        }
    }
    if message == WM_COMMAND {
        let notification = ((wparam >> 16) & 0xffff) as u32;
        let button_id = (wparam & 0xffff) as u32;
        assert(((wparam >> 16) & 0xffff) == (wparam / 0x10000) % 0x10000) by (bit_vector);
        assert((wparam & 0xffff) == wparam % 0x10000) by (bit_vector);
        if notification == THBN_CLICKED {
            if button_id == PREVIOUS_BUTTON {
                return WindowMessage::Clicked(MediaButton::Previous);
            } else if button_id == PLAY_PAUSE_BUTTON {
                return WindowMessage::Clicked(MediaButton::PlayPause);
            } else if button_id == NEXT_BUTTON {
                return WindowMessage::Clicked(MediaButton::Next);
            } else {
                return WindowMessage::ClickedOther;
            }
        }
    }
    WindowMessage::Other
}

/// A click on a thumbnail button decodes to the button whose command id was
/// clicked (Previous, Play/Pause or Next), whatever else `wparam` holds
/// above the notification code, unless the message is the registered
/// "TaskbarButtonCreated" one; any other id is a click on no known button.
pub proof fn click_decodes_to_its_button(wparam: u64, taskbar_created: Option<u32>)
    requires
        (wparam / 0x10000) % 0x10000 == THBN_CLICKED,
        !(taskbar_created matches Some(m) && m == WM_COMMAND),
    ensures
        wparam % 0x10000 == PREVIOUS_BUTTON ==> window_message_of(WM_COMMAND, wparam, taskbar_created)
            == WindowMessage::Clicked(MediaButton::Previous),
        wparam % 0x10000 == PLAY_PAUSE_BUTTON ==> window_message_of(WM_COMMAND, wparam, taskbar_created)
            == WindowMessage::Clicked(MediaButton::PlayPause),
        wparam % 0x10000 == NEXT_BUTTON ==> window_message_of(WM_COMMAND, wparam, taskbar_created)
            == WindowMessage::Clicked(MediaButton::Next),
        wparam % 0x10000 != PREVIOUS_BUTTON && wparam % 0x10000 != PLAY_PAUSE_BUTTON && wparam
            % 0x10000 != NEXT_BUTTON ==> window_message_of(WM_COMMAND, wparam, taskbar_created)
            == WindowMessage::ClickedOther,
{
}

/// Distinct command ids never decode to the same button.
pub proof fn button_ids_are_distinct(a: u32, b: u32)
    requires
        button_of(a) is Some,
        button_of(a) == button_of(b),
    ensures
        a == b,
{
}

/// Which thumbnail toolbar call to make.
#[derive(Clone, Copy, Debug, PartialEq, Eq, Structural)]
pub enum ThumbBarCall {
    Add,
    Update,
}

/// The remembered track that the taskbar controls reflect, and whether the
/// thumbnail toolbar has been added to the current taskbar button.
pub struct MediaSession {
    last_track: Option<TrackMetadata>,
    buttons_initialized: bool,
}

/// The mathematical value of a [`MediaSession`].
pub struct MediaSessionView {
    pub last_track: Option<TrackView>,
    pub buttons_initialized: bool,
}

impl View for MediaSession {
    type V = MediaSessionView;

    closed spec fn view(&self) -> MediaSessionView {
        MediaSessionView { last_track: opt_track(self.last_track), buttons_initialized: self.buttons_initialized }
    }
}

/// The track with its playing flag flipped.
pub open spec fn toggled(t: TrackView) -> TrackView {
    TrackView { playing: !t.playing, ..t }
}

impl MediaSession {
    /// No track and no toolbar yet.
    pub fn new() -> (s: Self)
        ensures
            s@ == (MediaSessionView { last_track: None, buttons_initialized: false }),
    {
        MediaSession { last_track: None, buttons_initialized: false }
    }

    /// Remembers the current track (`None` once playback is cleared).
    pub fn set_track(&mut self, track: Option<TrackMetadata>)
        ensures
            final(self)@ == (MediaSessionView { last_track: opt_track(track), ..old(self)@ }),
    {
        self.last_track = track;
    }

    /// The remembered track, for refreshing the buttons.
    pub fn last_track(&self) -> (r: Option<TrackMetadata>)
        ensures
            opt_track(r) == self@.last_track,
    {
        copy_opt_track(&self.last_track)
    }

    /// The Play/Pause button was clicked: the remembered track's playing
    /// flag flips at once, and the updated track is returned.
    pub fn toggle_playing(&mut self) -> (r: Option<TrackMetadata>)
        ensures
            final(self)@.buttons_initialized == old(self)@.buttons_initialized,
            match old(self)@.last_track {
                Some(t) => final(self)@.last_track == Some(toggled(t)),
                None => final(self)@.last_track is None,
            },
            opt_track(r) == final(self)@.last_track,
    {
        match &mut self.last_track {
            Some(track) => {
                track.playing = !track.playing;
            },
            None => {},
        }
        copy_opt_track(&self.last_track)
    }

    /// The taskbar button was recreated: the toolbar has to be added again.
    pub fn taskbar_recreated(&mut self)
        ensures
            final(self)@ == (MediaSessionView { buttons_initialized: false, ..old(self)@ }),
    {
        self.buttons_initialized = false;
    }

    /// The first toolbar call: update buttons that were added, else add them.
    pub fn first_thumb_call(&self) -> (call: ThumbBarCall)
        ensures
            call == (if self@.buttons_initialized {
                ThumbBarCall::Update
            } else {
                ThumbBarCall::Add
            }),
    {
        if self.buttons_initialized {
            ThumbBarCall::Update
        } else {
            ThumbBarCall::Add
        }
    }

    /// Records the outcome of toolbar call `call`, and returns the fallback
    /// call to make next, if any: a failed update is retried as an add, a
    /// failed first add as an update. Any success marks the toolbar as added.
    pub fn thumb_call_result(&mut self, call: ThumbBarCall, ok: bool) -> (next: Option<ThumbBarCall>)
        ensures
            final(self)@.last_track == old(self)@.last_track,
            final(self)@.buttons_initialized == (old(self)@.buttons_initialized || ok),
            next == (if ok {
                None
            } else if old(self)@.buttons_initialized && call == ThumbBarCall::Update {
                Some(ThumbBarCall::Add)
            } else if !old(self)@.buttons_initialized && call == ThumbBarCall::Add {
                Some(ThumbBarCall::Update)
            } else {
                None
            }),
    {
        if ok {
            self.buttons_initialized = true;
            return None;
        }
        if self.buttons_initialized && call == ThumbBarCall::Update {
            Some(ThumbBarCall::Add)
        } else if !self.buttons_initialized && call == ThumbBarCall::Add {
            Some(ThumbBarCall::Update)
        } else {
            None
        }
    }
}

/// Two clicks on Play/Pause give back the remembered track.
pub proof fn toggle_twice_restores(t: TrackView)
    ensures
        toggled(toggled(t)) == t,
{
}

/// Samples taken per pixel when an icon is drawn (4 by 4).
pub const SAMPLES_PER_PIXEL: u8 = 16;

/// The alpha of a pixel whose samples fell `count` times inside the shape,
/// rounded to the nearest of 0..=255.
pub open spec fn coverage_alpha(count: u8) -> u8 {
    ((count * 255 + 8) / 16) as u8
}

/// Byte `channel` of pixel `k` in a row-major BGRA buffer.
pub open spec fn pixel_byte(pixels: Seq<u8>, k: int, channel: int) -> u8 {
    pixels[4 * k + channel]
}

/// Premultiplied white BGRA pixels of an icon, from the number of samples of
/// each pixel (row-major) that fell inside the shape: every channel of a
/// pixel is its coverage alpha.
pub fn pixels_from_coverage(counts: &Vec<u8>) -> (pixels: Vec<u8>)
    requires
        forall|k: int| 0 <= k < counts@.len() ==> #[trigger] counts@[k] <= SAMPLES_PER_PIXEL,
        4 * counts@.len() <= usize::MAX,
    ensures
        pixels@.len() == 4 * counts@.len(),
        forall|k: int, channel: int|
            0 <= k < counts@.len() && 0 <= channel < 4 ==> #[trigger] pixel_byte(pixels@, k, channel)
                == coverage_alpha(counts@[k]),
{
    let mut pixels: Vec<u8> = Vec::new();
    let mut i: usize = 0;
    while i < counts.len()
        invariant
            i <= counts@.len(),
            4 * counts@.len() <= usize::MAX,
            forall|k: int| 0 <= k < counts@.len() ==> #[trigger] counts@[k] <= SAMPLES_PER_PIXEL,
            pixels@.len() == 4 * i,
            forall|k: int, channel: int|
                0 <= k < i && 0 <= channel < 4 ==> #[trigger] pixel_byte(pixels@, k, channel)
                    == coverage_alpha(counts@[k]),
        decreases counts.len() - i,
    {
        let count = counts[i];
        let alpha = ((count as u32 * 255 + 8) / 16) as u8;
        assert(alpha == coverage_alpha(count));
        let ghost before = pixels@;
        pixels.push(alpha);
        pixels.push(alpha);
        pixels.push(alpha);
        pixels.push(alpha);
        assert forall|k: int, channel: int|
            0 <= k < i + 1 && 0 <= channel < 4 implies #[trigger] pixel_byte(pixels@, k, channel)
            == coverage_alpha(counts@[k]) by {
            if k < i {
                assert(pixel_byte(pixels@, k, channel) == pixel_byte(before, k, channel));
            }
        }
        i = i + 1;
    }
    pixels
}

} // verus!
