use yt_music_tauri::controls::{
    ad_block_status_text, app_menu, menu_effect, MenuEffect, tray_icon, tray_menu, MenuEntry, MenuFlags, ad_block_toggle_script, global_shortcuts, local_shortcut_command,
    local_shortcuts, menu_command, shortcut_change, start_minimized_toggled, startup_toggled,
    MenuCommand, ShortcutChange,
};
use yt_music_tauri::media::MediaButton;

#[test]
fn menu_ids_map_to_commands() {
    assert_eq!(menu_command("previous"), MenuCommand::Media(MediaButton::Previous));
    assert_eq!(menu_command("play_pause"), MenuCommand::Media(MediaButton::PlayPause));
    assert_eq!(menu_command("next"), MenuCommand::Media(MediaButton::Next));
    assert_eq!(menu_command("tray_discord_rpc"), MenuCommand::TrayDiscordRpc);
    assert_eq!(menu_command("ad_block_status"), MenuCommand::AdBlockStatus);
    assert_eq!(menu_command("tray_quit"), MenuCommand::TrayQuit);
    assert_eq!(menu_command("nothing"), MenuCommand::Unknown);
}

#[test]
fn local_shortcuts_only_reload_zoom_and_reset() {
    assert_eq!(local_shortcut_command("reload"), MenuCommand::Reload);
    assert_eq!(local_shortcut_command("zoom_out"), MenuCommand::ZoomOut);
    assert_eq!(local_shortcut_command("reset_session"), MenuCommand::ResetSession);
    assert_eq!(local_shortcut_command("tray_quit"), MenuCommand::Unknown);
    for (_, action) in local_shortcuts() {
        assert_ne!(local_shortcut_command(action), MenuCommand::Unknown);
    }
    assert_eq!(global_shortcuts()[1], ("Ctrl+Alt+S", MediaButton::PlayPause));
}

#[test]
fn shortcuts_follow_focus() {
    assert_eq!(shortcut_change(true, false), ShortcutChange::Register);
    assert_eq!(shortcut_change(true, true), ShortcutChange::Keep);
    assert_eq!(shortcut_change(false, true), ShortcutChange::Unregister);
    assert_eq!(shortcut_change(false, false), ShortcutChange::Keep);
}

#[test]
fn ad_block_status_reports_the_count() {
    assert_eq!(
        ad_block_status_text(true, 0),
        "Enabled\nBlocked requests this session: 0"
    );
    assert_eq!(
        ad_block_status_text(false, 18446744073709551615),
        "Disabled\nBlocked requests this session: 18446744073709551615"
    );
    assert_eq!(
        ad_block_toggle_script(false),
        "window.__ytMusicTauriAdBlockEnabled = false; location.reload();"
    );
}

#[test]
fn startup_changes_revert_on_failure() {
    let ok = startup_toggled(true, true, true);
    assert_eq!(ok.save_launch_at_startup, Some(true));
    assert_eq!(ok.save_start_minimized, Some(true));
    assert_eq!(ok.minimized_enabled, Some(true));
    let failed = startup_toggled(true, false, false);
    assert_eq!(failed.startup_checked, Some(false));
    assert_eq!(failed.save_launch_at_startup, None);
    let minimized = start_minimized_toggled(true, true);
    assert_eq!(minimized.save_start_minimized, Some(true));
    let minimized_failed = start_minimized_toggled(true, false);
    assert_eq!(minimized_failed.minimized_checked, Some(false));
}

#[test]
fn menus_show_the_saved_settings() {
    let flags = MenuFlags {
        discord_rpc: false,
        ad_block: true,
        close_to_tray: true,
        launch_at_startup: false,
        start_minimized: true,
    };
    let menu = app_menu(flags);
    let titles: Vec<&str> = menu.iter().map(|submenu| submenu.title).collect();
    assert_eq!(titles, ["Playback", "View", "Settings", "Tools"]);
    assert_eq!(
        menu[2].entries[8],
        MenuEntry::Check { id: "start_minimized", label: "Start Minimized", checked: true, enabled: false }
    );
    assert_eq!(
        menu[2].entries[0],
        MenuEntry::Check { id: "discord_rpc", label: "Discord RPC", checked: false, enabled: true }
    );
    let tray = tray_menu(true);
    assert_eq!(tray.len(), 8);
    assert_eq!(
        tray[5],
        MenuEntry::Check { id: "tray_discord_rpc", label: "Discord RPC", checked: true, enabled: true }
    );
}

#[test]
fn every_menu_item_has_a_command() {
    let flags = MenuFlags {
        discord_rpc: true,
        ad_block: true,
        close_to_tray: false,
        launch_at_startup: true,
        start_minimized: false,
    };
    let mut entries: Vec<MenuEntry> = app_menu(flags)
        .into_iter()
        .flat_map(|submenu| submenu.entries)
        .collect();
    entries.extend(tray_menu(false));
    for entry in entries {
        match entry {
            MenuEntry::Item { id, .. } | MenuEntry::Check { id, .. } => {
                assert_ne!(menu_command(id), MenuCommand::Unknown, "{id}");
            }
            MenuEntry::Separator => {}
        }
    }
}

#[test]
fn tray_icon_has_tooltip_and_no_left_click_menu() {
    let tray = tray_icon(false);
    assert_eq!(tray.tooltip, "YouTube Music");
    assert!(!tray.show_menu_on_left_click);
    assert_eq!(tray.entries, tray_menu(false));
}

#[test]
fn menu_commands_change_their_settings() {
    let none = MenuEffect { discord_rpc: None, ad_block: None, close_to_tray: None, quit: false };
    assert_eq!(
        menu_effect(MenuCommand::DiscordRpc, Some(false)),
        MenuEffect { discord_rpc: Some(false), ..none }
    );
    assert_eq!(
        menu_effect(MenuCommand::TrayDiscordRpc, None),
        MenuEffect { discord_rpc: Some(true), ..none }
    );
    assert_eq!(menu_effect(MenuCommand::AdBlock, None), MenuEffect { ad_block: Some(true), ..none });
    assert_eq!(
        menu_effect(MenuCommand::CloseToTray, None),
        MenuEffect { close_to_tray: Some(false), ..none }
    );
    assert_eq!(menu_effect(MenuCommand::TrayQuit, None), MenuEffect { quit: true, ..none });
    assert_eq!(menu_effect(MenuCommand::Reload, Some(true)), none);
}
