//! The URL and path builders on concrete values, and the prober's
//! decisions for a device that comes online after a few attempts.

use grsync::config::Grsync;
use grsync::probe::{probe_decision, ProbeAction};
use grsync::urls::{dir_path, file_path, photo_url, photos_url, props_url};

#[test]
fn props_url_is_fixed_path_on_host() {
    assert_eq!(props_url("192.168.0.1"), "http://192.168.0.1/v1/props");
}

#[test]
fn photos_url_is_fixed_path_on_host() {
    assert_eq!(photos_url("camera.local"), "http://camera.local/v1/photos");
}

#[test]
fn photo_url_carries_dir_and_file() {
    assert_eq!(
        photo_url("192.168.0.1", "100_FUJI", "DSCF0001.JPG"),
        "http://192.168.0.1/v1/photos/100_FUJI/DSCF0001.JPG"
    );
}

#[test]
fn local_paths_join_with_slash() {
    assert_eq!(dir_path("downloaded_photos", "100_FUJI"), "downloaded_photos/100_FUJI");
    assert_eq!(
        file_path("downloaded_photos", "100_FUJI", "DSCF0001.JPG"),
        "downloaded_photos/100_FUJI/DSCF0001.JPG"
    );
}

#[test]
fn from_cli_keeps_the_three_inputs() {
    let c = Grsync::from_cli("h".to_string(), "o".to_string(), true);
    assert_eq!(c.host, "h");
    assert_eq!(c.output_dir, "o");
    assert!(c.force);
}

#[test]
fn probe_retries_until_first_answer() {
    // three failed connects, then any response: three retries, then proceed
    let outcomes = [false, false, false, true];
    let decisions: Vec<ProbeAction> = outcomes.iter().map(|&b| probe_decision(b)).collect();
    assert!(matches!(decisions[0], ProbeAction::Retry));
    assert!(matches!(decisions[1], ProbeAction::Retry));
    assert!(matches!(decisions[2], ProbeAction::Retry));
    assert!(matches!(decisions[3], ProbeAction::Proceed));
}

#[test]
fn probe_proceeds_on_any_response() {
    assert!(matches!(probe_decision(true), ProbeAction::Proceed));
    assert!(matches!(probe_decision(false), ProbeAction::Retry));
}
