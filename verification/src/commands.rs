use vstd::prelude::*;

verus! {

/// A playback command that the player page carries out.
#[derive(PartialEq, Eq, Structural, Clone, Copy, Debug)]
pub enum PlaybackCommand {
    PlayPause,
    Next,
    Previous,
}

/// The script that clicks the player's play/pause button.
pub open spec fn play_pause_script() -> Seq<char> {
    "(function(){var e=document.querySelector('.ytmusic-player-bar .play-pause-button, #play-pause-button, ytmusic-play-pause-button');if(e){e.click()}else{console.warn('yt-music: play/pause not found')}})()"@
}

/// The script that clicks the player's next-track button.
pub open spec fn next_script() -> Seq<char> {
    "(function(){var e=document.querySelector('.ytmusic-player-bar .next-button, #next-button, ytmusic-next-button');if(e){e.click()}else{console.warn('yt-music: next not found')}})()"@
}

/// The script that clicks the player's previous-track button.
pub open spec fn previous_script() -> Seq<char> {
    "(function(){var e=document.querySelector('.ytmusic-player-bar .previous-button, #previous-button, ytmusic-previous-button');if(e){e.click()}else{console.warn('yt-music: previous not found')}})()"@
}

/// The script that carries out a command in the player page.
pub open spec fn script_for(cmd: PlaybackCommand) -> Seq<char> {
    match cmd {
        PlaybackCommand::PlayPause => play_pause_script(),
        PlaybackCommand::Next => next_script(),
        PlaybackCommand::Previous => previous_script(),
    }
}

/// The script that carries out a command in the player page.
pub fn js_for(cmd: &PlaybackCommand) -> (js: String)
    ensures
        js@ == script_for(*cmd),
{
    match cmd {
        PlaybackCommand::PlayPause => String::from_str(
            "(function(){var e=document.querySelector('.ytmusic-player-bar .play-pause-button, #play-pause-button, ytmusic-play-pause-button');if(e){e.click()}else{console.warn('yt-music: play/pause not found')}})()",
        ),
        PlaybackCommand::Next => String::from_str(
            "(function(){var e=document.querySelector('.ytmusic-player-bar .next-button, #next-button, ytmusic-next-button');if(e){e.click()}else{console.warn('yt-music: next not found')}})()",
        ),
        PlaybackCommand::Previous => String::from_str(
            "(function(){var e=document.querySelector('.ytmusic-player-bar .previous-button, #previous-button, ytmusic-previous-button');if(e){e.click()}else{console.warn('yt-music: previous not found')}})()",
        ),
    }
}

/// The script that looks up the first element matching `selectors`, clicks
/// it once, and warns in the console that `what` was not found when nothing
/// matches.
pub open spec fn click_once_script(selectors: Seq<char>, what: Seq<char>) -> Seq<char> {
    "(function(){var e=document.querySelector('"@ + selectors
        + "');if(e){e.click()}else{console.warn('yt-music: "@ + what + " not found')}})()"@
}

/// The player buttons a command looks for, most specific first.
pub open spec fn button_selectors(cmd: PlaybackCommand) -> Seq<char> {
    match cmd {
        PlaybackCommand::PlayPause => ".ytmusic-player-bar .play-pause-button, #play-pause-button, ytmusic-play-pause-button"@,
        PlaybackCommand::Next => ".ytmusic-player-bar .next-button, #next-button, ytmusic-next-button"@,
        PlaybackCommand::Previous => ".ytmusic-player-bar .previous-button, #previous-button, ytmusic-previous-button"@,
    }
}

/// How the console warning names a command's button.
pub open spec fn button_name(cmd: PlaybackCommand) -> Seq<char> {
    match cmd {
        PlaybackCommand::PlayPause => "play/pause"@,
        PlaybackCommand::Next => "next"@,
        PlaybackCommand::Previous => "previous"@,
    }
}

/// Every command's script clicks its own button exactly once: it is the
/// one-click script around that command's button selectors.
pub proof fn lemma_scripts_click_once(cmd: PlaybackCommand)
    ensures
        script_for(cmd) == click_once_script(button_selectors(cmd), button_name(cmd)),
{
    reveal_strlit("(function(){var e=document.querySelector('");
    reveal_strlit("');if(e){e.click()}else{console.warn('yt-music: ");
    reveal_strlit(" not found')}})()");
    match cmd {
        PlaybackCommand::PlayPause => {
            reveal_strlit(".ytmusic-player-bar .play-pause-button, #play-pause-button, ytmusic-play-pause-button");
            reveal_strlit("play/pause");
            reveal_strlit("(function(){var e=document.querySelector('.ytmusic-player-bar .play-pause-button, #play-pause-button, ytmusic-play-pause-button');if(e){e.click()}else{console.warn('yt-music: play/pause not found')}})()");
            assert(script_for(cmd) =~= click_once_script(button_selectors(cmd), button_name(cmd)));
        },
        PlaybackCommand::Next => {
            reveal_strlit(".ytmusic-player-bar .next-button, #next-button, ytmusic-next-button");
            reveal_strlit("next");
            reveal_strlit("(function(){var e=document.querySelector('.ytmusic-player-bar .next-button, #next-button, ytmusic-next-button');if(e){e.click()}else{console.warn('yt-music: next not found')}})()");
            assert(script_for(cmd) =~= click_once_script(button_selectors(cmd), button_name(cmd)));
        },
        PlaybackCommand::Previous => {
            reveal_strlit(".ytmusic-player-bar .previous-button, #previous-button, ytmusic-previous-button");
            reveal_strlit("previous");
            reveal_strlit("(function(){var e=document.querySelector('.ytmusic-player-bar .previous-button, #previous-button, ytmusic-previous-button');if(e){e.click()}else{console.warn('yt-music: previous not found')}})()");
            assert(script_for(cmd) =~= click_once_script(button_selectors(cmd), button_name(cmd)));
        },
    }
}

/// The script injected into the player page: it watches the player and
/// reports the playback state to the app every second and on every change.
pub const CONTENT_SCRIPT: &'static str = r#"(function() {
  var ready = false;

  function extractState() {
    try {
      var video = document.querySelector('video');
      var titleEl = document.querySelector('.ytmusic-player-bar .title');
      var artistEl = document.querySelector('.ytmusic-player-bar .byline');
      var thumbnailEl = document.querySelector('.ytmusic-player-bar .thumbnail img, .ytmusic-player-bar img');

      if (!titleEl && !video) return null;

      return {
        title: titleEl ? titleEl.textContent.trim() : '',
        artist: artistEl ? artistEl.textContent.trim() : '',
        album: '',
        thumbnail: thumbnailEl ? thumbnailEl.src : '',
        isPlaying: video ? !video.paused : false,
        duration: video ? video.duration : 0,
        currentTime: video ? video.currentTime : 0,
        volume: video ? video.volume : 1,
      };
    } catch(e) {
      return null;
    }
  }

  function send() {
    var state = extractState();
    if (state) {
      try {
        window.__TAURI_INTERNALS__.invoke('update_playback_state', { state: state });
      } catch(e) {
        /* IPC not ready yet */
      }
    }
  }

  function boot() {
    if (ready) return;
    ready = true;
    setTimeout(send, 2000);
    setInterval(send, 1000);
    new MutationObserver(send).observe(document.body, { childList: true, subtree: true });
  }

  if (document.body) {
    boot();
  } else {
    document.addEventListener('DOMContentLoaded', boot);
  }
})();"#;

} // verus!
