use vstd::prelude::*;
use crate::commands::PlaybackCommand;
use crate::text::same_text;

verus! {

/// Label of the main window.
pub const MAIN_WINDOW_LABEL: &'static str = "main";
/// Label of the mini-player window.
pub const MINI_PLAYER_LABEL: &'static str = "mini-player";
/// Label of the command palette window.
pub const PALETTE_LABEL: &'static str = "command-palette";

/// What a click on a tray menu item asks for.
#[derive(PartialEq, Eq, Structural, Clone, Copy, Debug)]
pub enum MenuAction {
    Playback(PlaybackCommand),
    ToggleMiniPlayer,
    OpenPalette,
    Quit,
    /// An item the app does not know: nothing happens.
    Ignore,
}

/// The action for the tray menu item with the given id.
pub open spec fn menu_action_for(id: Seq<char>) -> MenuAction {
    if id == "play_pause"@ {
        MenuAction::Playback(PlaybackCommand::PlayPause)
    } else if id == "next"@ {
        MenuAction::Playback(PlaybackCommand::Next)
    } else if id == "previous"@ {
        MenuAction::Playback(PlaybackCommand::Previous)
    } else if id == "mini_player"@ {
        MenuAction::ToggleMiniPlayer
    } else if id == "command_palette"@ {
        MenuAction::OpenPalette
    } else if id == "quit"@ {
        MenuAction::Quit
    } else {
        MenuAction::Ignore
    }
}

/// The action for the tray menu item with the given id.
pub fn menu_action(id: &str) -> (a: MenuAction)
    ensures
        a == menu_action_for(id@),
{
    if same_text(id, "play_pause") {
        MenuAction::Playback(PlaybackCommand::PlayPause)
    } else if same_text(id, "next") {
        MenuAction::Playback(PlaybackCommand::Next)
    } else if same_text(id, "previous") {
        MenuAction::Playback(PlaybackCommand::Previous)
    } else if same_text(id, "mini_player") {
        MenuAction::ToggleMiniPlayer
    } else if same_text(id, "command_palette") {
        MenuAction::OpenPalette
    } else if same_text(id, "quit") {
        MenuAction::Quit
    } else {
        MenuAction::Ignore
    }
}

/// An entry of the tray menu.
pub enum TrayItem {
    Entry { id: &'static str, label: &'static str, accelerator: Option<&'static str> },
    Separator,
}

/// The ids of the tray menu's entries, in order.
pub open spec fn tray_ids() -> Seq<Seq<char>> {
    seq!["play_pause"@, "next"@, "previous"@, "mini_player"@, "command_palette"@, "quit"@]
}

/// The tray menu, top to bottom.
pub fn tray_menu() -> (items: Vec<TrayItem>)
    ensures
        items@.len() == 8,
        items@[3] is Separator,
        items@[6] is Separator,
        forall|i: int|
            0 <= i < 8 && i != 3 && i != 6 ==> #[trigger] items@[i] is Entry,
        items@[0]->Entry_id@ == tray_ids()[0],
        items@[1]->Entry_id@ == tray_ids()[1],
        items@[2]->Entry_id@ == tray_ids()[2],
        items@[4]->Entry_id@ == tray_ids()[3],
        items@[5]->Entry_id@ == tray_ids()[4],
        items@[7]->Entry_id@ == tray_ids()[5],
        items@[0]->Entry_label@ == "Play/Pause"@,
        items@[1]->Entry_label@ == "Next Track"@,
        items@[2]->Entry_label@ == "Previous Track"@,
        items@[4]->Entry_label@ == "Toggle Mini-Player"@,
        items@[5]->Entry_label@ == "Command Palette"@,
        items@[7]->Entry_label@ == "Quit YT Music"@,
        items@[5]->Entry_accelerator matches Some(k) && k@ == "CmdOrCtrl+K"@,
        forall|i: int|
            0 <= i < 8 && i != 3 && i != 5 && i != 6 ==> #[trigger] items@[i]->Entry_accelerator
                is None,
{
    let mut items: Vec<TrayItem> = Vec::new();
    items.push(TrayItem::Entry { id: "play_pause", label: "Play/Pause", accelerator: None });
    items.push(TrayItem::Entry { id: "next", label: "Next Track", accelerator: None });
    items.push(TrayItem::Entry { id: "previous", label: "Previous Track", accelerator: None });
    items.push(TrayItem::Separator);
    items.push(
        TrayItem::Entry { id: "mini_player", label: "Toggle Mini-Player", accelerator: None },
    );
    items.push(
        TrayItem::Entry {
            id: "command_palette",
            label: "Command Palette",
            accelerator: Some("CmdOrCtrl+K"),
        },
    );
    items.push(TrayItem::Separator);
    items.push(TrayItem::Entry { id: "quit", label: "Quit YT Music", accelerator: None });
    items
}

/// Every entry of the tray menu leads to an action, each to a different one.
pub proof fn lemma_tray_entries_all_act()
    ensures
        forall|i: int| 0 <= i < 6 ==> #[trigger] menu_action_for(tray_ids()[i]) != MenuAction::Ignore,
        forall|i: int, j: int|
            0 <= i < j < 6 ==> #[trigger] menu_action_for(tray_ids()[i]) != #[trigger] menu_action_for(
                tray_ids()[j],
            ),
{
    reveal_strlit("play_pause");
    reveal_strlit("next");
    reveal_strlit("previous");
    reveal_strlit("mini_player");
    reveal_strlit("command_palette");
    reveal_strlit("quit");
    let ids = tray_ids();
    assert(ids[0] == "play_pause"@ && ids[1] == "next"@ && ids[2] == "previous"@);
    assert(ids[3] == "mini_player"@ && ids[4] == "command_palette"@ && ids[5] == "quit"@);
    assert(ids[0].len() == 10 && ids[1].len() == 4 && ids[2].len() == 8);
    assert(ids[3].len() == 11 && ids[4].len() == 15 && ids[5].len() == 4);
    assert(ids[1][0] != ids[5][0]);
}

/// A media key, as the global shortcut handler sees it.
#[derive(PartialEq, Eq, Structural, Clone, Copy, Debug)]
pub enum MediaKey {
    Play,
    Pause,
    TrackNext,
    TrackPrevious,
    /// Any other key, or a media key pressed with a modifier.
    Other,
}

/// The playback command a key event asks for.
pub open spec fn media_command_for(key: MediaKey, pressed: bool) -> Option<PlaybackCommand> {
    if !pressed {
        None
    } else {
        match key {
            MediaKey::Play | MediaKey::Pause => Some(PlaybackCommand::PlayPause),
            MediaKey::TrackNext => Some(PlaybackCommand::Next),
            MediaKey::TrackPrevious => Some(PlaybackCommand::Previous),
            MediaKey::Other => None,
        }
    }
}

/// The playback command a key event asks for: only presses count, and only
/// of the media keys.
pub fn media_key_command(key: MediaKey, pressed: bool) -> (cmd: Option<PlaybackCommand>)
    ensures
        cmd == media_command_for(key, pressed),
{
    if !pressed {
        return None;
    }
    match key {
        MediaKey::Play | MediaKey::Pause => Some(PlaybackCommand::PlayPause),
        MediaKey::TrackNext => Some(PlaybackCommand::Next),
        MediaKey::TrackPrevious => Some(PlaybackCommand::Previous),
        MediaKey::Other => None,
    }
}

/// The media keys the app registers as global shortcuts.
pub fn registered_media_keys() -> (keys: Vec<MediaKey>)
    ensures
        keys@ == seq![MediaKey::Play, MediaKey::TrackNext, MediaKey::TrackPrevious],
{
    let mut keys: Vec<MediaKey> = Vec::new();
    keys.push(MediaKey::Play);
    keys.push(MediaKey::TrackNext);
    keys.push(MediaKey::TrackPrevious);
    keys
}

/// Pressing any registered media key sends a playback command, and the three
/// keys send the three different commands.
pub proof fn lemma_registered_keys_command_playback()
    ensures
        media_command_for(MediaKey::Play, true) == Some(PlaybackCommand::PlayPause),
        media_command_for(MediaKey::TrackNext, true) == Some(PlaybackCommand::Next),
        media_command_for(MediaKey::TrackPrevious, true) == Some(PlaybackCommand::Previous),
        forall|k: MediaKey| #[trigger] media_command_for(k, false) is None,
{
}

/// What to do with an overlay window.
#[derive(PartialEq, Eq, Structural, Clone, Copy, Debug)]
pub enum WindowAction {
    Hide,
    ShowAndFocus,
    Create,
}

/// What toggling the mini-player does, given whether its window exists and
/// is visible (`Some(visible)`) or does not exist (`None`).
pub fn mini_player_action(window_visible: Option<bool>) -> (a: WindowAction)
    ensures
        a == match window_visible {
            Some(true) => WindowAction::Hide,
            Some(false) => WindowAction::ShowAndFocus,
            None => WindowAction::Create,
        },
{
    match window_visible {
        Some(visible) => if visible {
            WindowAction::Hide
        } else {
            WindowAction::ShowAndFocus
        },
        None => WindowAction::Create,
    }
}

/// What opening the command palette does, given whether its window exists.
pub fn palette_action(window_exists: bool) -> (a: WindowAction)
    ensures
        a == (if window_exists {
            WindowAction::ShowAndFocus
        } else {
            WindowAction::Create
        }),
{
    if window_exists {
        WindowAction::ShowAndFocus
    } else {
        WindowAction::Create
    }
}

} // verus!
