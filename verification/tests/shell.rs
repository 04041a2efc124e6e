use yt_music::commands::{js_for, PlaybackCommand};
use yt_music::shell::{
    media_key_command, menu_action, mini_player_action, palette_action, registered_media_keys,
    tray_menu, MediaKey, MenuAction, TrayItem, WindowAction,
};

#[test]
fn menu_ids_map_to_actions() {
    assert_eq!(menu_action("play_pause"), MenuAction::Playback(PlaybackCommand::PlayPause));
    assert_eq!(menu_action("next"), MenuAction::Playback(PlaybackCommand::Next));
    assert_eq!(menu_action("previous"), MenuAction::Playback(PlaybackCommand::Previous));
    assert_eq!(menu_action("mini_player"), MenuAction::ToggleMiniPlayer);
    assert_eq!(menu_action("command_palette"), MenuAction::OpenPalette);
    assert_eq!(menu_action("quit"), MenuAction::Quit);
    assert_eq!(menu_action("other"), MenuAction::Ignore);
}

#[test]
fn tray_menu_entries_all_act() {
    let items = tray_menu();
    assert_eq!(items.len(), 8);
    let mut entries = 0;
    for item in &items {
        if let TrayItem::Entry { id, .. } = item {
            assert_ne!(menu_action(id), MenuAction::Ignore);
            entries += 1;
        }
    }
    assert_eq!(entries, 6);
    match &items[5] {
        TrayItem::Entry { id, accelerator, .. } => {
            assert_eq!(*id, "command_palette");
            assert_eq!(*accelerator, Some("CmdOrCtrl+K"));
        }
        TrayItem::Separator => panic!("expected an entry"),
    }
}

#[test]
fn media_keys_send_playback_commands() {
    assert_eq!(media_key_command(MediaKey::Play, true), Some(PlaybackCommand::PlayPause));
    assert_eq!(media_key_command(MediaKey::Pause, true), Some(PlaybackCommand::PlayPause));
    assert_eq!(media_key_command(MediaKey::TrackNext, true), Some(PlaybackCommand::Next));
    assert_eq!(media_key_command(MediaKey::TrackPrevious, true), Some(PlaybackCommand::Previous));
    assert_eq!(media_key_command(MediaKey::Play, false), None);
    assert_eq!(media_key_command(MediaKey::Other, true), None);
    for k in registered_media_keys() {
        assert!(media_key_command(k, true).is_some());
    }
}

#[test]
fn window_actions() {
    assert_eq!(mini_player_action(Some(true)), WindowAction::Hide);
    assert_eq!(mini_player_action(Some(false)), WindowAction::ShowAndFocus);
    assert_eq!(mini_player_action(None), WindowAction::Create);
    assert_eq!(palette_action(true), WindowAction::ShowAndFocus);
    assert_eq!(palette_action(false), WindowAction::Create);
}

#[test]
fn scripts_click_the_right_button() {
    assert!(js_for(&PlaybackCommand::PlayPause).contains(".play-pause-button"));
    assert!(js_for(&PlaybackCommand::Next).contains("#next-button"));
    assert!(js_for(&PlaybackCommand::Previous).contains("ytmusic-previous-button"));
}
