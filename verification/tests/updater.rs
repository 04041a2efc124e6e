use yt_music::updater::{
    channel_endpoint_text, channel_endpoints, try_channel_endpoints, update_info_from, FoundUpdate,
};

#[test]
fn channel_endpoints_stable() {
    let urls = channel_endpoints("stable");
    assert_eq!(urls.len(), 1);
    let url_str = urls[0].as_str();
    assert!(url_str.contains("/stable/update.json"), "expected /stable/update.json in URL, got {url_str}");
}

#[test]
fn channel_endpoints_beta() {
    let urls = channel_endpoints("beta");
    assert_eq!(urls.len(), 1);
    let url_str = urls[0].as_str();
    assert!(url_str.contains("/beta/update.json"), "expected /beta/update.json in URL, got {url_str}");
}

#[test]
fn endpoint_text_is_exact() {
    assert_eq!(
        channel_endpoint_text("stable"),
        "https://releases.mon4ssi.com/yt-music/stable/update.json"
    );
    let urls = channel_endpoints("beta");
    assert_eq!(urls[0].as_str(), "https://releases.mon4ssi.com/yt-music/beta/update.json");
}

#[test]
fn try_endpoints_for_known_channels() {
    let urls = try_channel_endpoints("stable").unwrap();
    assert_eq!(urls.len(), 1);
    assert_eq!(urls[0].as_str(), "https://releases.mon4ssi.com/yt-music/stable/update.json");
    assert!(try_channel_endpoints("beta").is_some());
}

#[test]
fn update_info_from_found_and_none() {
    let info = update_info_from(Some(FoundUpdate { version: "3.0.0".into(), body: None }));
    assert!(info.available);
    assert_eq!(info.version.as_deref(), Some("3.0.0"));
    assert!(info.body.is_none());
    let info = update_info_from(None);
    assert!(!info.available);
    assert!(info.version.is_none() && info.body.is_none());
}
