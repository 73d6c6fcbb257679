use wall_updater::paths::{
    cached_image_path, default_state_dir, error_log_path, pid_path, staged_image_path,
    wallpaper_uri,
};
use wall_updater::source::{latest_reference, ListingOutcome, TickError, TickFailure, TickStage};

fn failure(stage: TickStage, error: TickError, status: Option<u16>) -> TickFailure {
    TickFailure { stage, error, status }
}

#[test]
fn pid_path_joins_with_one_separator() {
    assert_eq!(pid_path("/tmp/state"), "/tmp/state/daemon.pid");
    assert_eq!(pid_path("/tmp/state/"), "/tmp/state/daemon.pid");
    assert_eq!(pid_path(""), "daemon.pid");
}

#[test]
fn state_files_live_in_the_directory() {
    assert_eq!(cached_image_path("/s"), "/s/current_wallpaper.jpg");
    assert_eq!(staged_image_path("/s"), "/s/current_wallpaper.jpg.part");
    assert_eq!(error_log_path("/s"), "/s/err.log");
}

#[test]
fn default_dir_prefers_xdg_state_home() {
    assert_eq!(
        default_state_dir(Some("/x/state"), Some("/home/u")),
        Some("/x/state/wall-updater".to_string())
    );
    assert_eq!(
        default_state_dir(None, Some("/home/u")),
        Some("/home/u/.local/state/wall-updater".to_string())
    );
    assert_eq!(default_state_dir(None, None), None);
}

#[test]
fn uri_of_local_file() {
    assert_eq!(wallpaper_uri("/s/current_wallpaper.jpg"), "file:///s/current_wallpaper.jpg");
}

#[test]
fn first_entry_resolves_against_base() {
    let listing = ListingOutcome::Entries(vec!["/th?id=OHR.Foo".to_string()]);
    assert_eq!(
        latest_reference("https://example.test", &listing),
        Ok("https://example.test/th?id=OHR.Foo".to_string())
    );
}

#[test]
fn only_the_first_entry_counts() {
    let listing = ListingOutcome::Entries(vec![
        "/a.jpg".to_string(),
        "/b.jpg".to_string(),
    ]);
    assert_eq!(
        latest_reference("https://www.bing.com", &listing),
        Ok("https://www.bing.com/a.jpg".to_string())
    );
}

#[test]
fn absolute_entry_is_kept() {
    let listing = ListingOutcome::Entries(vec!["http://other.test/img.jpg".to_string()]);
    assert_eq!(
        latest_reference("https://example.test", &listing),
        Ok("http://other.test/img.jpg".to_string())
    );
}

#[test]
fn empty_listing_is_malformed() {
    let listing = ListingOutcome::Entries(vec![]);
    assert_eq!(
        latest_reference("https://example.test", &listing),
        Err(failure(TickStage::NoImage, TickError::MalformedResponse, None))
    );
}

#[test]
fn malformed_listing_is_malformed() {
    assert_eq!(
        latest_reference("https://example.test", &ListingOutcome::Malformed),
        Err(failure(TickStage::Parse, TickError::MalformedResponse, None))
    );
}

#[test]
fn unreachable_source_is_unavailable() {
    assert_eq!(
        latest_reference("https://example.test", &ListingOutcome::Unavailable(None)),
        Err(failure(TickStage::Fetch, TickError::SourceUnavailable, None))
    );
    assert_eq!(
        latest_reference("https://example.test", &ListingOutcome::Unavailable(Some(503))),
        Err(failure(TickStage::Fetch, TickError::SourceUnavailable, Some(503)))
    );
}

#[test]
fn unresolvable_entry_is_malformed() {
    let listing = ListingOutcome::Entries(vec!["http://[::1".to_string()]);
    assert_eq!(
        latest_reference("https://example.test", &listing),
        Err(failure(TickStage::Join, TickError::MalformedResponse, None))
    );
}
