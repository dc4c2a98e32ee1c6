//! Decisions of the application shell: WebView2 browser arguments, the
//! page initialization script, how the app starts, and what happens on
//! navigation, new windows, title changes and close requests.

use vstd::prelude::*;
use crate::presence::{window_title_of, PresenceMessage};
use crate::text::{is_blank, is_blank_text, same_text, starts_with};

verus! {

/// The browser flags that the app always passes to WebView2, space-separated,
/// ending with the Chrome user agent.
pub open spec fn default_browser_flags() -> Seq<char> {
    "--autoplay-policy=no-user-gesture-required"@ + " "@
        + "--disable-features=CalculateNativeWinOcclusion,CalculateNativeWinOcclusionTracking,IntensiveWakeUpThrottling"@
        + " "@ + "--disable-backgrounding-occluded-windows"@ + " "@
        + "--disable-renderer-backgrounding"@ + " "@ + "--disable-background-timer-throttling"@
        + " "@ + "--user-agent=\""@
        + "Mozilla/5.0 (Windows NT 10.0; Win64; x64) AppleWebKit/537.36 (KHTML, like Gecko) Chrome/131.0.0.0 Safari/537.36"@
        + "\""@
}

/// The value for `WEBVIEW2_ADDITIONAL_BROWSER_ARGUMENTS`: the existing value
/// followed by a space and the app's flags, or the app's flags alone when
/// there is no existing value or it is blank.
pub open spec fn browser_arguments_of(existing: Option<Seq<char>>) -> Seq<char> {
    match existing {
        Some(e) => if !is_blank(e) {
            e + " "@ + default_browser_flags()
        } else {
            default_browser_flags()
        },
        None => default_browser_flags(),
    }
}

/// The WebView2 browser arguments, given the current value of
/// `WEBVIEW2_ADDITIONAL_BROWSER_ARGUMENTS` if it is set.
pub fn browser_arguments(existing: Option<&str>) -> (r: String)
    ensures
        r@ == browser_arguments_of(match existing {
            Some(e) => Some(e@),
            None => None,
        }),
{
    let mut flags = "--autoplay-policy=no-user-gesture-required".to_owned();
    flags.append(" ");
    flags.append(
        "--disable-features=CalculateNativeWinOcclusion,CalculateNativeWinOcclusionTracking,IntensiveWakeUpThrottling",
    );
    flags.append(" ");
    flags.append("--disable-backgrounding-occluded-windows");
    flags.append(" ");
    flags.append("--disable-renderer-backgrounding");
    flags.append(" ");
    flags.append("--disable-background-timer-throttling");
    flags.append(" ");
    flags.append("--user-agent=\"");
    flags.append(
        "Mozilla/5.0 (Windows NT 10.0; Win64; x64) AppleWebKit/537.36 (KHTML, like Gecko) Chrome/131.0.0.0 Safari/537.36",
    );
    flags.append("\"");
    match existing {
        Some(e) => {
            if !is_blank_text(e) {
                let mut r = e.to_owned();
                r.append(" ");
                r.append(flags.as_str());
                r
            } else {
                flags
            }
        },
        None => flags,
    }
}

/// `"true"` or `"false"`, as Rust formats a `bool`.
pub open spec fn bool_text(b: bool) -> Seq<char> {
    if b {
        "true"@
    } else {
        "false"@
    }
}

/// The diagnostics script that checks whether native blocking works.
pub const AD_BLOCK_SELF_TEST_SCRIPT: &'static str = "
(() => {
  if (!window.__ytMusicTauriAdBlockSelfTest) {
    window.__ytMusicTauriAdBlockSelfTest = true;
    fetch(\"https://googleads.g.doubleclick.net/pagead/id\", { cache: \"no-store\" })
      .then((response) => {
        document.title = response.status === 204
          ? \"ADBLOCK_SELF_TEST:PASS\"
          : `ADBLOCK_SELF_TEST:FAIL:${response.status}`;
      })
      .catch((error) => {
        document.title = `ADBLOCK_SELF_TEST:FAIL:${error && error.name ? error.name : \"ERROR\"}`;
      });
  }
})();
";

/// The script injected into every page: the ad-block switch, the ad-block
/// script, the self-test script when it is asked for, and the track probe,
/// one per line.
pub open spec fn initialization_script_of(
    ad_block_enabled: bool,
    self_test: bool,
    ad_block_script: Seq<char>,
    track_probe_script: Seq<char>,
) -> Seq<char> {
    let enabled = "window.__ytMusicTauriAdBlockEnabled = "@ + bool_text(ad_block_enabled) + ";"@;
    if self_test {
        enabled + "\n"@ + ad_block_script + "\n"@ + AD_BLOCK_SELF_TEST_SCRIPT@ + "\n"@
            + track_probe_script
    } else {
        enabled + "\n"@ + ad_block_script + "\n"@ + track_probe_script
    }
}

/// The page initialization script; `self_test` is whether
/// `YT_MUSIC_ADBLOCK_SELF_TEST` is set.
pub fn initialization_script(
    ad_block_enabled: bool,
    self_test: bool,
    ad_block_script: &str,
    track_probe_script: &str,
) -> (r: String)
    ensures
        r@ == initialization_script_of(
            ad_block_enabled,
            self_test,
            ad_block_script@,
            track_probe_script@,
        ),
{
    let mut r = "window.__ytMusicTauriAdBlockEnabled = ".to_owned();
    if ad_block_enabled {
        r.append("true");
    } else {
        r.append("false");
    }
    r.append(";");
    r.append("\n");
    r.append(ad_block_script);
    r.append("\n");
    if self_test {
        r.append(AD_BLOCK_SELF_TEST_SCRIPT);
        r.append("\n");
    }
    r.append(track_probe_script);
    r
}

/// How the main window starts.
#[derive(Clone, Copy, Debug, PartialEq, Eq, Structural)]
pub struct LaunchMode {
    /// Start hidden in the tray.
    pub start_in_tray: bool,
    /// Start minimized.
    pub start_minimized: bool,
    /// Start with the window not shown.
    pub start_hidden: bool,
}

/// Some command-line argument equals one of the given flags.
pub open spec fn has_arg(args: Seq<String>, flag: Seq<char>) -> bool {
    exists|i: int| 0 <= i < args.len() && #[trigger] args[i]@ == flag
}

/// The launch mode for the command line `args` and the saved "start
/// minimized" setting: `--tray` or `--start-to-tray` starts in the tray;
/// `--minimized`, or the setting when not starting in the tray, starts
/// minimized; either starts hidden.
pub open spec fn launch_mode_of(args: Seq<String>, start_minimized_setting: bool) -> LaunchMode {
    let tray = has_arg(args, "--tray"@) || has_arg(args, "--start-to-tray"@);
    let minimized = has_arg(args, "--minimized"@) || (start_minimized_setting && !tray);
    LaunchMode { start_in_tray: tray, start_minimized: minimized, start_hidden: tray || minimized }
}

/// Whether some argument equals `flag`.
fn any_arg_is(args: &Vec<String>, flag: &str) -> (r: bool)
    ensures
        r == has_arg(args@, flag@),
{
    let mut i: usize = 0;
    while i < args.len()
        invariant
            i <= args@.len(),
            forall|j: int| 0 <= j < i ==> args@[j]@ != flag@,
        decreases args.len() - i,
    {
        if same_text(args[i].as_str(), flag) {
            assert(args@[i as int]@ == flag@);
            return true;
        }
        i = i + 1;
    }
    false
}

/// How the main window starts, from the command line and the saved setting.
pub fn launch_mode(args: &Vec<String>, start_minimized_setting: bool) -> (m: LaunchMode)
    ensures
        m == launch_mode_of(args@, start_minimized_setting),
{
    let tray = any_arg_is(args, "--tray") || any_arg_is(args, "--start-to-tray");
    let minimized = any_arg_is(args, "--minimized") || (start_minimized_setting && !tray);
    LaunchMode { start_in_tray: tray, start_minimized: minimized, start_hidden: tray || minimized }
}

/// What a close request on a window does.
#[derive(Clone, Copy, Debug, PartialEq, Eq, Structural)]
pub enum CloseAction {
    /// Keep running in the tray: the close is prevented and the window hidden.
    HideToTray,
    /// Close: the presence and the media controls are cleared.
    Close,
}

/// A close request hides the window when "close to tray" is on and the app
/// is not quitting; otherwise the window closes.
pub fn close_request_action(close_to_tray: bool, quitting: bool) -> (a: CloseAction)
    ensures
        a == (if close_to_tray && !quitting {
            CloseAction::HideToTray
        } else {
            CloseAction::Close
        }),
{
    if close_to_tray && !quitting {
        CloseAction::HideToTray
    } else {
        CloseAction::Close
    }
}

/// What the URL policy says of the page that is shown.
#[derive(Clone, Copy, Debug, PartialEq, Eq, Structural)]
pub struct PageFacts {
    /// The page is on YouTube Music.
    pub youtube_music: bool,
    /// The page may be shown in the main window.
    pub allowed_navigation: bool,
}

/// A track message is accepted only from a YouTube Music page, a clear
/// message from any allowed page; nothing without a page.
pub open spec fn accepts_message(page: Option<PageFacts>, is_track: bool) -> bool {
    match page {
        Some(p) => if is_track {
            p.youtube_music
        } else {
            p.allowed_navigation
        },
        None => false,
    }
}

/// Whether a presence message from the page `page` is acted on.
pub fn should_accept_presence_message(page: Option<PageFacts>, message: &PresenceMessage) -> (r: bool)
    ensures
        r == accepts_message(page, message is Track),
{
    match page {
        Some(p) => match message {
            PresenceMessage::Track(_) => p.youtube_music,
            PresenceMessage::Clear => p.allowed_navigation,
        },
        None => false,
    }
}

/// The window title after an accepted presence message.
pub fn title_for_message(message: &PresenceMessage) -> (r: String)
    ensures
        r@ == match message {
            PresenceMessage::Track(t) => window_title_of(t@),
            PresenceMessage::Clear => "YouTube Music"@,
        },
{
    match message {
        PresenceMessage::Track(t) => t.window_title(),
        PresenceMessage::Clear => "YouTube Music".to_owned(),
    }
}

/// What happens to a link that would open a new window.
#[derive(Clone, Copy, Debug, PartialEq, Eq, Structural)]
pub enum NewWindowAction {
    /// Load it in the main window.
    NavigateInMainWebview,
    /// Hand it to the system browser.
    OpenExternal,
    /// Drop it.
    Deny,
}

/// An allowed https link opens in the main window, `about:blank` is
/// dropped, anything else goes to the system browser.
pub open spec fn new_window_action_of(url: Seq<char>, scheme: Seq<char>, allowed: bool) -> NewWindowAction {
    if scheme == "https"@ && allowed {
        NewWindowAction::NavigateInMainWebview
    } else if url == "about:blank"@ {
        NewWindowAction::Deny
    } else {
        NewWindowAction::OpenExternal
    }
}

/// What to do with a new-window request for `url`, whose scheme is `scheme`
/// and which the navigation policy allows or not.
pub fn new_window_action(url: &str, scheme: &str, allowed: bool) -> (a: NewWindowAction)
    ensures
        a == new_window_action_of(url@, scheme@, allowed),
{
    if same_text(scheme, "https") && allowed {
        NewWindowAction::NavigateInMainWebview
    } else if same_text(url, "about:blank") {
        NewWindowAction::Deny
    } else {
        NewWindowAction::OpenExternal
    }
}

/// What the URL policy says of a navigation target.
#[derive(Clone, Copy, Debug, PartialEq, Eq, Structural)]
pub struct NavigationFacts {
    /// The target is a sign-in page that sends the user back to YouTube Music.
    pub auth_recovery: bool,
    /// The target may be shown in the main window.
    pub allowed: bool,
    /// The target is on YouTube Music.
    pub youtube_music: bool,
    /// The target is an intermediate step of signing in.
    pub auth_intermediate: bool,
}

/// What a navigation does.
#[derive(Clone, Copy, Debug, PartialEq, Eq, Structural)]
pub struct NavigationDecision {
    /// Let the main window follow the navigation.
    pub allow: bool,
    /// Load YouTube Music again and record the time of this recovery.
    pub reload_music: bool,
    /// Clear the presence and the media controls.
    pub clear_presence: bool,
    /// Open the target in the system browser.
    pub open_external: bool,
}

/// A recovery page is never followed; it reloads YouTube Music unless the
/// last recovery was less than three seconds ago. Any other target is
/// followed when allowed; leaving YouTube Music (other than for a sign-in
/// step) clears the presence, and a refused https target opens externally.
pub open spec fn navigation_decision_of(
    facts: NavigationFacts,
    scheme: Seq<char>,
    now_secs: u64,
    last_recovery_secs: u64,
) -> NavigationDecision {
    if facts.auth_recovery {
        NavigationDecision {
            allow: false,
            reload_music: now_secs >= last_recovery_secs && now_secs - last_recovery_secs >= 3,
            clear_presence: false,
            open_external: false,
        }
    } else {
        NavigationDecision {
            allow: facts.allowed,
            reload_music: false,
            clear_presence: !facts.youtube_music && !facts.auth_intermediate,
            open_external: !facts.allowed && scheme == "https"@,
        }
    }
}

/// What to do when the main window is about to navigate.
pub fn navigation_decision(
    facts: NavigationFacts,
    scheme: &str,
    now_secs: u64,
    last_recovery_secs: u64,
) -> (d: NavigationDecision)
    ensures
        d == navigation_decision_of(facts, scheme@, now_secs, last_recovery_secs),
{
    if facts.auth_recovery {
        let elapsed = now_secs.saturating_sub(last_recovery_secs);
        NavigationDecision {
            allow: false,
            reload_music: elapsed >= 3,
            clear_presence: false,
            open_external: false,
        }
    } else {
        NavigationDecision {
            allow: facts.allowed,
            reload_music: false,
            clear_presence: !facts.youtube_music && !facts.auth_intermediate,
            open_external: !facts.allowed && same_text(scheme, "https"),
        }
    }
}

/// A document title that is not a presence message becomes the window
/// title, unless it is blank.
pub open spec fn plain_title_of(title: Seq<char>) -> Option<Seq<char>> {
    if starts_with(title, crate::presence::title_prefix()) || is_blank(title) {
        None
    } else {
        Some(title)
    }
}

/// The window title for an ordinary document title, if it is to be shown.
pub fn plain_window_title(title: &str) -> (r: Option<String>)
    ensures
        match r {
            Some(t) => plain_title_of(title@) == Some(t@),
            None => plain_title_of(title@) is None,
        },
{
    if crate::presence::is_track_title_message(title) || is_blank_text(title) {
        None
    } else {
        Some(title.to_owned())
    }
}

/// The app's flags always come last; an existing value that is not blank is
/// kept as it is in front of them, separated by one space, and a blank or
/// missing one is dropped.
pub proof fn browser_arguments_keep_existing(existing: Option<Seq<char>>)
    ensures
        browser_arguments_of(existing).len() >= default_browser_flags().len(),
        browser_arguments_of(existing).skip(
            browser_arguments_of(existing).len() - default_browser_flags().len(),
        ) == default_browser_flags(),
        (existing is Some && !is_blank(existing->0)) ==> browser_arguments_of(existing).take(
            existing->0.len() as int,
        ) == existing->0 && browser_arguments_of(existing).len() == existing->0.len() + 1
            + default_browser_flags().len() && browser_arguments_of(existing)[existing->0.len() as int]
            == ' ',
        !(existing is Some && !is_blank(existing->0)) ==> browser_arguments_of(existing)
            == default_browser_flags(),
{
    let f = default_browser_flags();
    let r = browser_arguments_of(existing);
    if existing is Some && !is_blank(existing->0) {
        let e = existing->0;
        reveal_strlit(" ");
        assert(r.skip(r.len() - f.len()) =~= f);
        assert(r.take(e.len() as int) =~= e);
        assert(r[e.len() as int] == " "@[0]);
    } else {
        assert(r.skip(0) =~= f);
    }
}

/// `--tray` or `--start-to-tray` always starts in the tray; `--minimized`
/// always starts minimized; the saved setting alone starts minimized only
/// when not starting in the tray; the window starts hidden exactly when it
/// starts in the tray or minimized.
pub proof fn launch_mode_follows_flags(args: Seq<String>, setting: bool)
    ensures
        launch_mode_of(args, setting).start_in_tray == (has_arg(args, "--tray"@) || has_arg(
            args,
            "--start-to-tray"@,
        )),
        has_arg(args, "--minimized"@) ==> launch_mode_of(args, setting).start_minimized,
        (setting && !launch_mode_of(args, setting).start_in_tray) ==> launch_mode_of(
            args,
            setting,
        ).start_minimized,
        (!has_arg(args, "--minimized"@) && !setting) ==> !launch_mode_of(args, setting).start_minimized,
        (!has_arg(args, "--minimized"@) && launch_mode_of(args, setting).start_in_tray) ==> !launch_mode_of(
            args,
            setting,
        ).start_minimized,
        launch_mode_of(args, setting).start_hidden == (launch_mode_of(args, setting).start_in_tray
            || launch_mode_of(args, setting).start_minimized),
{
}

/// A sign-in recovery page reloads YouTube Music only when at least three
/// seconds have passed since the last recovery, and does nothing else;
/// leaving YouTube Music for a page that is not a sign-in step clears the
/// presence; a refused https target is opened in the system browser.
pub proof fn navigation_recovery_and_presence(
    facts: NavigationFacts,
    scheme: Seq<char>,
    now_secs: u64,
    last_recovery_secs: u64,
)
    ensures
        navigation_decision_of(facts, scheme, now_secs, last_recovery_secs).reload_music <==> (
        facts.auth_recovery && now_secs >= last_recovery_secs + 3),
        facts.auth_recovery ==> !navigation_decision_of(facts, scheme, now_secs, last_recovery_secs).clear_presence
            && !navigation_decision_of(facts, scheme, now_secs, last_recovery_secs).open_external,
        !facts.auth_recovery ==> (navigation_decision_of(
            facts,
            scheme,
            now_secs,
            last_recovery_secs,
        ).clear_presence <==> (!facts.youtube_music && !facts.auth_intermediate)),
        !facts.auth_recovery ==> (navigation_decision_of(
            facts,
            scheme,
            now_secs,
            last_recovery_secs,
        ).open_external <==> (!facts.allowed && scheme == "https"@)),
        !facts.auth_recovery ==> navigation_decision_of(facts, scheme, now_secs, last_recovery_secs).allow
            == facts.allowed,
{
}

/// An allowed https link opens in the main window; any other link opens in
/// the system browser, except `about:blank`, which is dropped.
pub proof fn new_windows_open_in_place_or_outside(url: Seq<char>, scheme: Seq<char>, allowed: bool)
    ensures
        new_window_action_of(url, scheme, allowed) is NavigateInMainWebview <==> (scheme == "https"@
            && allowed),
        new_window_action_of(url, scheme, allowed) is Deny <==> (!(scheme == "https"@ && allowed) && url
            == "about:blank"@),
{
}

/// A navigation is followed only when the URL policy allows its target, and
/// a sign-in recovery page is never followed.
pub proof fn only_allowed_navigation_is_followed(
    facts: NavigationFacts,
    scheme: Seq<char>,
    now_secs: u64,
    last_recovery_secs: u64,
)
    ensures
        navigation_decision_of(facts, scheme, now_secs, last_recovery_secs).allow ==> facts.allowed
            && !facts.auth_recovery,
        navigation_decision_of(facts, scheme, now_secs, last_recovery_secs).open_external ==> !facts.allowed,
{
}

/// Messages of the track probe never show up as window titles.
pub proof fn probe_messages_never_become_titles(title: Seq<char>)
    requires
        starts_with(title, crate::presence::title_prefix()),
    ensures
        plain_title_of(title) is None,
{
}

/// Any other document title that is not blank becomes the window title as
/// it is.
pub proof fn ordinary_titles_are_shown_unchanged(title: Seq<char>)
    requires
        !starts_with(title, crate::presence::title_prefix()),
        !is_blank(title),
    ensures
        plain_title_of(title) == Some(title),
{
}

/// A track message is acted on only from a YouTube Music page, and any
/// accepted message comes from a page the navigation policy allows, as
/// long as YouTube Music pages are allowed pages.
pub proof fn messages_only_from_trusted_pages(page: Option<PageFacts>, is_track: bool)
    ensures
        accepts_message(page, is_track) ==> page is Some,
        (accepts_message(page, is_track) && is_track) ==> page.unwrap().youtube_music,
        (page matches Some(p) && (p.youtube_music ==> p.allowed_navigation)) ==> (accepts_message(
            page,
            is_track,
        ) ==> page.unwrap().allowed_navigation),
{
}

} // verus!
