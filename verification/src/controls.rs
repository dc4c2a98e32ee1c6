//! Menu, tray and keyboard-shortcut commands, and the texts and settings
//! changes they lead to.

use vstd::prelude::*;
use crate::text::{chars_are, chars_of, decimal, push_decimal};
use crate::media::MediaButton;

verus! {

/// A command of the application menu or the tray menu.
#[derive(Clone, Copy, Debug, PartialEq, Eq, Structural)]
pub enum MenuCommand {
    /// Previous, Play/Pause or Next.
    Media(MediaButton),
    Reload,
    ZoomIn,
    ZoomOut,
    ZoomReset,
    /// The "Discord RPC" check item of the application menu.
    DiscordRpc,
    /// The "Discord RPC" check item of the tray menu.
    TrayDiscordRpc,
    DiscordStatus,
    AdBlock,
    AdBlockStatus,
    CloseToTray,
    Startup,
    StartMinimized,
    ClearCache,
    ResetSession,
    CheckUpdates,
    TrayShow,
    TrayQuit,
    /// An id the app does not know.
    Unknown,
}

/// The command behind a menu item id.
pub open spec fn menu_command_of(id: Seq<char>) -> MenuCommand {
    if id == "previous"@ {
        MenuCommand::Media(MediaButton::Previous)
    } else if id == "play_pause"@ {
        MenuCommand::Media(MediaButton::PlayPause)
    } else if id == "next"@ {
        MenuCommand::Media(MediaButton::Next)
    } else if id == "reload"@ {
        MenuCommand::Reload
    } else if id == "zoom_in"@ {
        MenuCommand::ZoomIn
    } else if id == "zoom_out"@ {
        MenuCommand::ZoomOut
    } else if id == "zoom_reset"@ {
        MenuCommand::ZoomReset
    } else if id == "discord_rpc"@ {
        MenuCommand::DiscordRpc
    } else if id == "tray_discord_rpc"@ {
        MenuCommand::TrayDiscordRpc
    } else if id == "discord_status"@ {
        MenuCommand::DiscordStatus
    } else if id == "ad_block"@ {
        MenuCommand::AdBlock
    } else if id == "ad_block_status"@ {
        MenuCommand::AdBlockStatus
    } else if id == "close_to_tray"@ {
        MenuCommand::CloseToTray
    } else if id == "startup"@ {
        MenuCommand::Startup
    } else if id == "start_minimized"@ {
        MenuCommand::StartMinimized
    } else if id == "clear_cache"@ {
        MenuCommand::ClearCache
    } else if id == "reset_session"@ {
        MenuCommand::ResetSession
    } else if id == "check_updates"@ {
        MenuCommand::CheckUpdates
    } else if id == "tray_show"@ {
        MenuCommand::TrayShow
    } else if id == "tray_quit"@ {
        MenuCommand::TrayQuit
    } else {
        MenuCommand::Unknown
    }
}

/// The command behind a menu item id.
pub fn menu_command(id: &str) -> (c: MenuCommand)
    ensures
        c == menu_command_of(id@),
{
    let v = chars_of(id);
    if chars_are(&v, "previous") {
        MenuCommand::Media(MediaButton::Previous)
    } else if chars_are(&v, "play_pause") {
        MenuCommand::Media(MediaButton::PlayPause)
    } else if chars_are(&v, "next") {
        MenuCommand::Media(MediaButton::Next)
    } else if chars_are(&v, "reload") {
        MenuCommand::Reload
    } else if chars_are(&v, "zoom_in") {
        MenuCommand::ZoomIn
    } else if chars_are(&v, "zoom_out") {
        MenuCommand::ZoomOut
    } else if chars_are(&v, "zoom_reset") {
        MenuCommand::ZoomReset
    } else if chars_are(&v, "discord_rpc") {
        MenuCommand::DiscordRpc
    } else if chars_are(&v, "tray_discord_rpc") {
        MenuCommand::TrayDiscordRpc
    } else if chars_are(&v, "discord_status") {
        MenuCommand::DiscordStatus
    } else if chars_are(&v, "ad_block") {
        MenuCommand::AdBlock
    } else if chars_are(&v, "ad_block_status") {
        MenuCommand::AdBlockStatus
    } else if chars_are(&v, "close_to_tray") {
        MenuCommand::CloseToTray
    } else if chars_are(&v, "startup") {
        MenuCommand::Startup
    } else if chars_are(&v, "start_minimized") {
        MenuCommand::StartMinimized
    } else if chars_are(&v, "clear_cache") {
        MenuCommand::ClearCache
    } else if chars_are(&v, "reset_session") {
        MenuCommand::ResetSession
    } else if chars_are(&v, "check_updates") {
        MenuCommand::CheckUpdates
    } else if chars_are(&v, "tray_show") {
        MenuCommand::TrayShow
    } else if chars_are(&v, "tray_quit") {
        MenuCommand::TrayQuit
    } else {
        MenuCommand::Unknown
    }
}

/// A window-local keyboard shortcut's command: only reload, the three zoom
/// commands and session reset; every other command is ignored.
pub open spec fn local_shortcut_command_of(id: Seq<char>) -> MenuCommand {
    let c = menu_command_of(id);
    match c {
        MenuCommand::Reload | MenuCommand::ZoomIn | MenuCommand::ZoomOut | MenuCommand::ZoomReset
        | MenuCommand::ResetSession => c,
        _ => MenuCommand::Unknown,
    }
}

/// The command of a window-local keyboard shortcut's action id.
pub fn local_shortcut_command(id: &str) -> (c: MenuCommand)
    ensures
        c == local_shortcut_command_of(id@),
{
    let c = menu_command(id);
    match c {
        MenuCommand::Reload | MenuCommand::ZoomIn | MenuCommand::ZoomOut | MenuCommand::ZoomReset
        | MenuCommand::ResetSession => c,
        _ => MenuCommand::Unknown,
    }
}

/// The window-local shortcuts and their action ids; they are registered
/// while the main window has the focus.
pub fn local_shortcuts() -> (r: Vec<(&'static str, &'static str)>)
    ensures
        r@.len() == 5,
        r@[0].0@ == "Ctrl+R"@ && r@[0].1@ == "reload"@,
        r@[1].0@ == "Ctrl+="@ && r@[1].1@ == "zoom_in"@,
        r@[2].0@ == "Ctrl+-"@ && r@[2].1@ == "zoom_out"@,
        r@[3].0@ == "Ctrl+0"@ && r@[3].1@ == "zoom_reset"@,
        r@[4].0@ == "Ctrl+Shift+Delete"@ && r@[4].1@ == "reset_session"@,
{
    let mut r: Vec<(&'static str, &'static str)> = Vec::new();
    r.push(("Ctrl+R", "reload"));
    r.push(("Ctrl+=", "zoom_in"));
    r.push(("Ctrl+-", "zoom_out"));
    r.push(("Ctrl+0", "zoom_reset"));
    r.push(("Ctrl+Shift+Delete", "reset_session"));
    r
}

/// The global media shortcuts and the buttons they press.
pub fn global_shortcuts() -> (r: Vec<(&'static str, MediaButton)>)
    ensures
        r@.len() == 3,
        r@[0].0@ == "Ctrl+Alt+A"@ && r@[0].1 == MediaButton::Previous,
        r@[1].0@ == "Ctrl+Alt+S"@ && r@[1].1 == MediaButton::PlayPause,
        r@[2].0@ == "Ctrl+Alt+D"@ && r@[2].1 == MediaButton::Next,
{
    let mut r: Vec<(&'static str, MediaButton)> = Vec::new();
    r.push(("Ctrl+Alt+A", MediaButton::Previous));
    r.push(("Ctrl+Alt+S", MediaButton::PlayPause));
    r.push(("Ctrl+Alt+D", MediaButton::Next));
    r
}

/// What to do with one window-local shortcut when the focus changes.
#[derive(Clone, Copy, Debug, PartialEq, Eq, Structural)]
pub enum ShortcutChange {
    Register,
    Unregister,
    Keep,
}

/// Focused: register what is not registered yet; unfocused: unregister
/// what is registered.
pub fn shortcut_change(focused: bool, registered: bool) -> (c: ShortcutChange)
    ensures
        c == (if focused && !registered {
            ShortcutChange::Register
        } else if !focused && registered {
            ShortcutChange::Unregister
        } else {
            ShortcutChange::Keep
        }),
{
    if focused {
        if registered {
            ShortcutChange::Keep
        } else {
            ShortcutChange::Register
        }
    } else if registered {
        ShortcutChange::Unregister
    } else {
        ShortcutChange::Keep
    }
}

/// What a menu command changes in the saved settings and the app's state.
#[derive(Clone, Copy, Debug, PartialEq, Eq, Structural)]
pub struct MenuEffect {
    /// New "Discord RPC" setting: saved, shown by both Discord check items
    /// and passed to the presence worker.
    pub discord_rpc: Option<bool>,
    /// New "Ad Blocking" setting: saved, passed to the ad-block controller,
    /// and passed to the page (see [`ad_block_toggle_script`]), which reloads.
    pub ad_block: Option<bool>,
    /// New "Close to Tray" setting, saved.
    pub close_to_tray: Option<bool>,
    /// Quit: the app is marked as quitting, the presence is cleared, and the
    /// app exits with status 0.
    pub quit: bool,
}

/// The effect of `command`, given the state read from its check item
/// (`None` when it cannot be read): an unreadable Discord or ad-block item
/// counts as checked, an unreadable "Close to Tray" item as unchecked. Other
/// commands change no setting; they are carried out as they are.
pub open spec fn menu_effect_of(command: MenuCommand, checked: Option<bool>) -> MenuEffect {
    let none = MenuEffect { discord_rpc: None, ad_block: None, close_to_tray: None, quit: false };
    let on = match checked {
        Some(b) => b,
        None => true,
    };
    let off = match checked {
        Some(b) => b,
        None => false,
    };
    match command {
        MenuCommand::DiscordRpc | MenuCommand::TrayDiscordRpc => MenuEffect { discord_rpc: Some(on), ..none },
        MenuCommand::AdBlock => MenuEffect { ad_block: Some(on), ..none },
        MenuCommand::CloseToTray => MenuEffect { close_to_tray: Some(off), ..none },
        MenuCommand::TrayQuit => MenuEffect { quit: true, ..none },
        _ => none,
    }
}

/// What `command` changes, given the state read from its check item.
pub fn menu_effect(command: MenuCommand, checked: Option<bool>) -> (e: MenuEffect)
    ensures
        e == menu_effect_of(command, checked),
{
    let none = MenuEffect { discord_rpc: None, ad_block: None, close_to_tray: None, quit: false };
    let on = match checked {
        Some(b) => b,
        None => true,
    };
    let off = match checked {
        Some(b) => b,
        None => false,
    };
    match command {
        MenuCommand::DiscordRpc | MenuCommand::TrayDiscordRpc => MenuEffect { discord_rpc: Some(on), ..none },
        MenuCommand::AdBlock => MenuEffect { ad_block: Some(on), ..none },
        MenuCommand::CloseToTray => MenuEffect { close_to_tray: Some(off), ..none },
        MenuCommand::TrayQuit => MenuEffect { quit: true, ..none },
        _ => none,
    }
}

/// The ad-blocking status message.
pub open spec fn ad_block_status_of(enabled: bool, blocked: u64) -> Seq<char> {
    (if enabled {
        "Enabled"@
    } else {
        "Disabled"@
    }) + "\nBlocked requests this session: "@ + decimal(blocked as nat)
}

/// "Enabled" or "Disabled", then the number of requests blocked this
/// session.
pub fn ad_block_status_text(enabled: bool, blocked: u64) -> (r: String)
    ensures
        r@ == ad_block_status_of(enabled, blocked),
{
    let mut r = if enabled {
        "Enabled".to_owned()
    } else {
        "Disabled".to_owned()
    };
    r.append("\nBlocked requests this session: ");
    push_decimal(&mut r, blocked);
    r
}

/// The script that switches the page's ad blocking and reloads it.
pub fn ad_block_toggle_script(enabled: bool) -> (r: String)
    ensures
        r@ == "window.__ytMusicTauriAdBlockEnabled = "@ + (if enabled {
            "true"@
        } else {
            "false"@
        }) + "; location.reload();"@,
{
    let mut r = "window.__ytMusicTauriAdBlockEnabled = ".to_owned();
    if enabled {
        r.append("true");
    } else {
        r.append("false");
    }
    r.append("; location.reload();");
    r
}

/// What follows an attempt to change the launch-at-startup registration.
#[derive(Clone, Copy, Debug, PartialEq, Eq, Structural)]
pub struct StartupOutcome {
    /// New "launch at startup" setting to save, if any.
    pub save_launch_at_startup: Option<bool>,
    /// New "start minimized" setting to save, if any.
    pub save_start_minimized: Option<bool>,
    /// New checked state of the "Launch at Startup" item, if it changes back.
    pub startup_checked: Option<bool>,
    /// New checked state of the "Start Minimized" item, if it changes back.
    pub minimized_checked: Option<bool>,
    /// New enabled state of the "Start Minimized" item, if it changes.
    pub minimized_enabled: Option<bool>,
}

/// "Launch at Startup" was toggled to `enabled` (with "Start Minimized" at
/// `minimized`) and registering it succeeded (`ok`) or failed. Success
/// saves both and enables "Start Minimized" exactly when launching at
/// startup; failure unchecks what was just checked (and the reverse).
pub fn startup_toggled(enabled: bool, minimized: bool, ok: bool) -> (o: StartupOutcome)
    ensures
        o == (if ok {
            StartupOutcome {
                save_launch_at_startup: Some(enabled),
                save_start_minimized: Some(minimized),
                startup_checked: None,
                minimized_checked: None,
                minimized_enabled: Some(enabled),
            }
        } else {
            StartupOutcome {
                save_launch_at_startup: None,
                save_start_minimized: None,
                startup_checked: Some(!enabled),
                minimized_checked: None,
                minimized_enabled: None,
            }
        }),
{
    if ok {
        StartupOutcome {
            save_launch_at_startup: Some(enabled),
            save_start_minimized: Some(minimized),
            startup_checked: None,
            minimized_checked: None,
            minimized_enabled: Some(enabled),
        }
    } else {
        StartupOutcome {
            save_launch_at_startup: None,
            save_start_minimized: None,
            startup_checked: Some(!enabled),
            minimized_checked: None,
            minimized_enabled: None,
        }
    }
}

/// "Start Minimized" was toggled to `minimized` and re-registering the
/// startup entry succeeded (`ok`) or failed. Success saves the new
/// "start minimized"; failure reverts the item.
pub fn start_minimized_toggled(minimized: bool, ok: bool) -> (o: StartupOutcome)
    ensures
        o == (if ok {
            StartupOutcome {
                save_launch_at_startup: None,
                save_start_minimized: Some(minimized),
                startup_checked: None,
                minimized_checked: None,
                minimized_enabled: None,
            }
        } else {
            StartupOutcome {
                save_launch_at_startup: None,
                save_start_minimized: None,
                startup_checked: None,
                minimized_checked: Some(!minimized),
                minimized_enabled: None,
            }
        }),
{
    if ok {
        StartupOutcome {
            save_launch_at_startup: None,
            save_start_minimized: Some(minimized),
            startup_checked: None,
            minimized_checked: None,
            minimized_enabled: None,
        }
    } else {
        StartupOutcome {
            save_launch_at_startup: None,
            save_start_minimized: None,
            startup_checked: None,
            minimized_checked: Some(!minimized),
            minimized_enabled: None,
        }
    }
}

} // verus!

verus! {

/// One entry of a menu.
#[derive(Clone, Copy, Debug, PartialEq, Eq)]
pub enum MenuEntry {
    /// A plain item with its id, label and keyboard accelerator.
    Item { id: &'static str, label: &'static str, accelerator: Option<&'static str> },
    /// A check item with its id, label, checked and enabled states.
    Check { id: &'static str, label: &'static str, checked: bool, enabled: bool },
    /// A separator line.
    Separator,
}

/// The mathematical value of a [`MenuEntry`].
pub enum EntryView {
    Item { id: Seq<char>, label: Seq<char>, accelerator: Option<Seq<char>> },
    Check { id: Seq<char>, label: Seq<char>, checked: bool, enabled: bool },
    Separator,
}

impl View for MenuEntry {
    type V = EntryView;

    open spec fn view(&self) -> EntryView {
        match *self {
            MenuEntry::Item { id, label, accelerator } => EntryView::Item {
                id: id@,
                label: label@,
                accelerator: match accelerator {
                    Some(a) => Some(a@),
                    None => None,
                },
            },
            MenuEntry::Check { id, label, checked, enabled } => EntryView::Check {
                id: id@,
                label: label@,
                checked,
                enabled,
            },
            MenuEntry::Separator => EntryView::Separator,
        }
    }
}

/// A submenu of the application menu.
#[derive(Debug)]
pub struct Submenu {
    pub title: &'static str,
    pub entries: Vec<MenuEntry>,
}

/// The saved settings that the menus show.
#[derive(Clone, Copy, Debug, PartialEq, Eq, Structural)]
pub struct MenuFlags {
    pub discord_rpc: bool,
    pub ad_block: bool,
    pub close_to_tray: bool,
    pub launch_at_startup: bool,
    pub start_minimized: bool,
}

/// The values of a list of entries.
pub open spec fn entry_views(entries: Seq<MenuEntry>) -> Seq<EntryView> {
    entries.map_values(|e: MenuEntry| e@)
}

/// A plain item.
pub open spec fn item(id: Seq<char>, label: Seq<char>, accelerator: Option<Seq<char>>) -> EntryView {
    EntryView::Item { id, label, accelerator }
}

/// A check item.
pub open spec fn check(id: Seq<char>, label: Seq<char>, checked: bool, enabled: bool) -> EntryView {
    EntryView::Check { id, label, checked, enabled }
}

/// The "Playback" submenu.
pub open spec fn playback_menu_spec() -> Seq<EntryView> {
    seq![
        item("previous"@, "Previous"@, Some("Ctrl+Alt+A"@)),
        item("play_pause"@, "Play/Pause"@, Some("Ctrl+Alt+S"@)),
        item("next"@, "Next"@, Some("Ctrl+Alt+D"@)),
    ]
}

/// The "View" submenu.
pub open spec fn view_menu_spec() -> Seq<EntryView> {
    seq![
        item("reload"@, "Reload"@, Some("Ctrl+R"@)),
        EntryView::Separator,
        item("zoom_in"@, "Zoom In"@, Some("Ctrl+="@)),
        item("zoom_out"@, "Zoom Out"@, Some("Ctrl+-"@)),
        item("zoom_reset"@, "Actual Size"@, Some("Ctrl+0"@)),
    ]
}

/// The "Settings" submenu: each check item shows its saved setting, and
/// "Start Minimized" can only be changed while launching at startup.
pub open spec fn settings_menu_spec(f: MenuFlags) -> Seq<EntryView> {
    seq![
        check("discord_rpc"@, "Discord RPC"@, f.discord_rpc, true),
        item("discord_status"@, "Discord RPC Status"@, None),
        EntryView::Separator,
        check("ad_block"@, "Ad Blocking"@, f.ad_block, true),
        item("ad_block_status"@, "Ad-block Status"@, None),
        EntryView::Separator,
        check("close_to_tray"@, "Close to Tray"@, f.close_to_tray, true),
        check("startup"@, "Launch at Startup"@, f.launch_at_startup, true),
        check("start_minimized"@, "Start Minimized"@, f.start_minimized, f.launch_at_startup),
    ]
}

/// The "Tools" submenu.
pub open spec fn tools_menu_spec() -> Seq<EntryView> {
    seq![
        item("clear_cache"@, "Clear Cache and Reload"@, None),
        item("reset_session"@, "Reset Session"@, Some("Ctrl+Shift+Delete"@)),
        EntryView::Separator,
        item("check_updates"@, "Check for Updates"@, None),
    ]
}

/// The tray menu.
pub open spec fn tray_menu_spec(discord_rpc: bool) -> Seq<EntryView> {
    seq![
        item("tray_show"@, "Show/Hide"@, None),
        EntryView::Separator,
        item("previous"@, "Previous"@, None),
        item("play_pause"@, "Play/Pause"@, None),
        item("next"@, "Next"@, None),
        check("tray_discord_rpc"@, "Discord RPC"@, discord_rpc, true),
        EntryView::Separator,
        item("tray_quit"@, "Quit"@, None),
    ]
}

/// The application menu: Playback, View, Settings and Tools.
pub fn app_menu(flags: MenuFlags) -> (menu: Vec<Submenu>)
    ensures
        menu@.len() == 4,
        menu@[0].title@ == "Playback"@ && entry_views(menu@[0].entries@) == playback_menu_spec(),
        menu@[1].title@ == "View"@ && entry_views(menu@[1].entries@) == view_menu_spec(),
        menu@[2].title@ == "Settings"@ && entry_views(menu@[2].entries@) == settings_menu_spec(
            flags,
        ),
        menu@[3].title@ == "Tools"@ && entry_views(menu@[3].entries@) == tools_menu_spec(),
{
    let mut playback: Vec<MenuEntry> = Vec::new();
    playback.push(MenuEntry::Item { id: "previous", label: "Previous", accelerator: Some("Ctrl+Alt+A") });
    playback.push(MenuEntry::Item { id: "play_pause", label: "Play/Pause", accelerator: Some("Ctrl+Alt+S") });
    playback.push(MenuEntry::Item { id: "next", label: "Next", accelerator: Some("Ctrl+Alt+D") });
    assert(entry_views(playback@) =~= playback_menu_spec());

    let mut view: Vec<MenuEntry> = Vec::new();
    view.push(MenuEntry::Item { id: "reload", label: "Reload", accelerator: Some("Ctrl+R") });
    view.push(MenuEntry::Separator);
    view.push(MenuEntry::Item { id: "zoom_in", label: "Zoom In", accelerator: Some("Ctrl+=") });
    view.push(MenuEntry::Item { id: "zoom_out", label: "Zoom Out", accelerator: Some("Ctrl+-") });
    view.push(MenuEntry::Item { id: "zoom_reset", label: "Actual Size", accelerator: Some("Ctrl+0") });
    assert(entry_views(view@) =~= view_menu_spec());

    let mut settings: Vec<MenuEntry> = Vec::new();
    settings.push(MenuEntry::Check { id: "discord_rpc", label: "Discord RPC", checked: flags.discord_rpc, enabled: true });
    settings.push(MenuEntry::Item { id: "discord_status", label: "Discord RPC Status", accelerator: None });
    settings.push(MenuEntry::Separator);
    settings.push(MenuEntry::Check { id: "ad_block", label: "Ad Blocking", checked: flags.ad_block, enabled: true });
    settings.push(MenuEntry::Item { id: "ad_block_status", label: "Ad-block Status", accelerator: None });
    settings.push(MenuEntry::Separator);
    settings.push(MenuEntry::Check { id: "close_to_tray", label: "Close to Tray", checked: flags.close_to_tray, enabled: true });
    settings.push(MenuEntry::Check { id: "startup", label: "Launch at Startup", checked: flags.launch_at_startup, enabled: true });
    settings.push(
        MenuEntry::Check {
            id: "start_minimized",
            label: "Start Minimized",
            checked: flags.start_minimized,
            enabled: flags.launch_at_startup,
        },
    );
    assert(entry_views(settings@) =~= settings_menu_spec(flags));

    let mut tools: Vec<MenuEntry> = Vec::new();
    tools.push(MenuEntry::Item { id: "clear_cache", label: "Clear Cache and Reload", accelerator: None });
    tools.push(MenuEntry::Item { id: "reset_session", label: "Reset Session", accelerator: Some("Ctrl+Shift+Delete") });
    tools.push(MenuEntry::Separator);
    tools.push(MenuEntry::Item { id: "check_updates", label: "Check for Updates", accelerator: None });
    assert(entry_views(tools@) =~= tools_menu_spec());

    let mut menu: Vec<Submenu> = Vec::new();
    menu.push(Submenu { title: "Playback", entries: playback });
    menu.push(Submenu { title: "View", entries: view });
    menu.push(Submenu { title: "Settings", entries: settings });
    menu.push(Submenu { title: "Tools", entries: tools });
    menu
}

/// The tray menu, with the Discord check item showing the saved setting.
pub fn tray_menu(discord_rpc: bool) -> (entries: Vec<MenuEntry>)
    ensures
        entry_views(entries@) == tray_menu_spec(discord_rpc),
{
    let mut entries: Vec<MenuEntry> = Vec::new();
    entries.push(MenuEntry::Item { id: "tray_show", label: "Show/Hide", accelerator: None });
    entries.push(MenuEntry::Separator);
    entries.push(MenuEntry::Item { id: "previous", label: "Previous", accelerator: None });
    entries.push(MenuEntry::Item { id: "play_pause", label: "Play/Pause", accelerator: None });
    entries.push(MenuEntry::Item { id: "next", label: "Next", accelerator: None });
    entries.push(MenuEntry::Check { id: "tray_discord_rpc", label: "Discord RPC", checked: discord_rpc, enabled: true });
    entries.push(MenuEntry::Separator);
    entries.push(MenuEntry::Item { id: "tray_quit", label: "Quit", accelerator: None });
    assert(entry_views(entries@) =~= tray_menu_spec(discord_rpc));
    entries
}

} // verus!

verus! {

/// The tray icon: its tooltip, whether a left click opens its menu, and the
/// menu itself.
#[derive(Debug)]
pub struct TrayIcon {
    pub tooltip: &'static str,
    pub show_menu_on_left_click: bool,
    pub entries: Vec<MenuEntry>,
}

/// The tray icon: tooltip "YouTube Music", no menu on a left click (a left
/// click shows or hides the window instead), and the tray menu with the
/// Discord check item showing the saved setting.
pub fn tray_icon(discord_rpc: bool) -> (tray: TrayIcon)
    ensures
        tray.tooltip@ == "YouTube Music"@,
        !tray.show_menu_on_left_click,
        entry_views(tray.entries@) == tray_menu_spec(discord_rpc),
{
    TrayIcon { tooltip: "YouTube Music", show_menu_on_left_click: false, entries: tray_menu(discord_rpc) }
}

} // verus!

verus! {

/// A menu command changes at most one setting, and only its own: the two
/// Discord items set the Discord setting, "Ad Blocking" the ad-block setting,
/// "Close to Tray" its setting, each to the state read from the item when
/// it can be read; only "Quit" quits.
pub proof fn menu_effect_changes_own_setting(command: MenuCommand, checked: Option<bool>)
    ensures
        menu_effect_of(command, checked).discord_rpc is Some <==> (command == MenuCommand::DiscordRpc
            || command == MenuCommand::TrayDiscordRpc),
        menu_effect_of(command, checked).ad_block is Some <==> command == MenuCommand::AdBlock,
        menu_effect_of(command, checked).close_to_tray is Some <==> command == MenuCommand::CloseToTray,
        menu_effect_of(command, checked).quit <==> command == MenuCommand::TrayQuit,
        checked is Some ==> (menu_effect_of(command, checked).discord_rpc is Some
            ==> menu_effect_of(command, checked).discord_rpc == checked),
        checked is Some ==> (menu_effect_of(command, checked).ad_block is Some
            ==> menu_effect_of(command, checked).ad_block == checked),
        checked is Some ==> (menu_effect_of(command, checked).close_to_tray is Some
            ==> menu_effect_of(command, checked).close_to_tray == checked),
{
}

/// A window-local shortcut only ever reloads, zooms or resets the session,
/// and does so exactly as the menu item with the same id does.
pub proof fn local_shortcuts_are_view_commands(id: Seq<char>)
    ensures
        local_shortcut_command_of(id) == MenuCommand::Unknown || local_shortcut_command_of(id)
            == menu_command_of(id),
        local_shortcut_command_of(id) != MenuCommand::Unknown ==> (local_shortcut_command_of(id)
            == MenuCommand::Reload || local_shortcut_command_of(id) == MenuCommand::ZoomIn
            || local_shortcut_command_of(id) == MenuCommand::ZoomOut || local_shortcut_command_of(id)
            == MenuCommand::ZoomReset || local_shortcut_command_of(id) == MenuCommand::ResetSession),
{
}

/// The id of an entry, if it has one.
pub open spec fn entry_id(e: EntryView) -> Option<Seq<char>> {
    match e {
        EntryView::Item { id, .. } => Some(id),
        EntryView::Check { id, .. } => Some(id),
        EntryView::Separator => None,
    }
}

/// Every entry with an id dispatches to a known command.
pub open spec fn all_handled(entries: Seq<EntryView>) -> bool {
    forall|i: int|
        0 <= i < entries.len() ==> (#[trigger] entry_id(entries[i]) matches Some(id)
            ==> menu_command_of(id) != MenuCommand::Unknown)
}

/// Every item of the application menu and of the tray menu is handled by
/// the menu command dispatch.
pub proof fn every_menu_item_is_handled(flags: MenuFlags, discord_rpc: bool)
    ensures
        all_handled(playback_menu_spec()),
        all_handled(view_menu_spec()),
        all_handled(settings_menu_spec(flags)),
        all_handled(tools_menu_spec()),
        all_handled(tray_menu_spec(discord_rpc)),
{
    reveal_strlit("previous");
    reveal_strlit("play_pause");
    reveal_strlit("next");
    reveal_strlit("reload");
    reveal_strlit("zoom_in");
    reveal_strlit("zoom_out");
    reveal_strlit("zoom_reset");
    reveal_strlit("discord_rpc");
    reveal_strlit("tray_discord_rpc");
    reveal_strlit("discord_status");
    reveal_strlit("ad_block");
    reveal_strlit("ad_block_status");
    reveal_strlit("close_to_tray");
    reveal_strlit("startup");
    reveal_strlit("start_minimized");
    reveal_strlit("clear_cache");
    reveal_strlit("reset_session");
    reveal_strlit("check_updates");
    reveal_strlit("tray_show");
    reveal_strlit("tray_quit");
}

/// The label of an entry, if it has one.
pub open spec fn entry_label(e: EntryView) -> Option<Seq<char>> {
    match e {
        EntryView::Item { label, .. } => Some(label),
        EntryView::Check { label, .. } => Some(label),
        EntryView::Separator => None,
    }
}

/// Every "Previous", "Play/Pause" and "Next" item of the Playback menu and of
/// the tray menu dispatches to the media action of that name, the same
/// button that the thumbnail toolbar and the global shortcuts use.
pub proof fn media_items_do_what_they_say(discord_rpc: bool)
    ensures
        forall|i: int|
            0 <= i < playback_menu_spec().len() + tray_menu_spec(discord_rpc).len() ==> {
                let e = #[trigger] (playback_menu_spec() + tray_menu_spec(discord_rpc))[i];
                &&& entry_label(e) == Some("Previous"@) ==> menu_command_of(entry_id(e)->0)
                    == MenuCommand::Media(MediaButton::Previous)
                &&& entry_label(e) == Some("Play/Pause"@) ==> menu_command_of(entry_id(e)->0)
                    == MenuCommand::Media(MediaButton::PlayPause)
                &&& entry_label(e) == Some("Next"@) ==> menu_command_of(entry_id(e)->0)
                    == MenuCommand::Media(MediaButton::Next)
            },
{
    let all = playback_menu_spec() + tray_menu_spec(discord_rpc);
    assert forall|i: int| 0 <= i < all.len() implies {
        let e = #[trigger] all[i];
        &&& entry_label(e) == Some("Previous"@) ==> menu_command_of(entry_id(e)->0)
            == MenuCommand::Media(MediaButton::Previous)
        &&& entry_label(e) == Some("Play/Pause"@) ==> menu_command_of(entry_id(e)->0)
            == MenuCommand::Media(MediaButton::PlayPause)
        &&& entry_label(e) == Some("Next"@) ==> menu_command_of(entry_id(e)->0)
            == MenuCommand::Media(MediaButton::Next)
    } by {
        reveal_strlit("previous");
        reveal_strlit("play_pause");
        reveal_strlit("next");
        reveal_strlit("Previous");
        reveal_strlit("Play/Pause");
        reveal_strlit("Next");
        reveal_strlit("Show/Hide");
        reveal_strlit("Discord RPC");
        reveal_strlit("Quit");
        assert("play_pause"@.len() == 10 && "previous"@.len() == 8 && "next"@.len() == 4);
        assert("Quit"@[0] != "Next"@[0]);
        assert("Show/Hide"@.len() != "Previous"@.len());
        assert("Show/Hide"@[0] != "Play/Pause"@[0]);
        assert("Discord RPC"@.len() != "Play/Pause"@.len());
        assert(all.len() == 11);
        let e = all[i];
        if i == 0 {
            assert(e == item("previous"@, "Previous"@, Some("Ctrl+Alt+A"@)));
        } else if i == 1 {
            assert(e == item("play_pause"@, "Play/Pause"@, Some("Ctrl+Alt+S"@)));
        } else if i == 2 {
            assert(e == item("next"@, "Next"@, Some("Ctrl+Alt+D"@)));
        } else if i == 3 {
            assert(e == item("tray_show"@, "Show/Hide"@, None));
        } else if i == 4 {
            assert(e == EntryView::Separator);
        } else if i == 5 {
            assert(e == item("previous"@, "Previous"@, None));
        } else if i == 6 {
            assert(e == item("play_pause"@, "Play/Pause"@, None));
        } else if i == 7 {
            assert(e == item("next"@, "Next"@, None));
        } else if i == 8 {
            assert(e == check("tray_discord_rpc"@, "Discord RPC"@, discord_rpc, true));
        } else if i == 9 {
            assert(e == EntryView::Separator);
        } else {
            assert(e == item("tray_quit"@, "Quit"@, None));
        }
    }
}

} // verus!
