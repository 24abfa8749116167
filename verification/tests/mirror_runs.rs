//! Whole-run scenarios for the mirror engine: the test plays the part of
//! the binary, performing no real I/O but answering every action the
//! engine emits, and checks the exact sequence of decisions.

use grsync::config::Grsync;
use grsync::inventory::{Dir, Photos};
use grsync::mirror::{Action, Event, Mirror};

fn dir(name: &str, files: &[&str]) -> Dir {
    Dir {
        name: name.to_string(),
        files: files.iter().map(|f| f.to_string()).collect(),
    }
}

fn photos_ok(dirs: Vec<Dir>) -> Photos {
    Photos {
        error_message: String::new(),
        error_code: 200,
        dirs,
    }
}

fn config(force: bool) -> Grsync {
    Grsync::from_cli("192.168.0.1".to_string(), "out".to_string(), force)
}

/// Drives the engine to its end, answering existence checks with
/// `exists` and fetches with `status`, and returns every emitted action.
fn run(
    m: &mut Mirror,
    exists: &dyn Fn(&str) -> bool,
    status: &dyn Fn(&str) -> u16,
) -> Vec<Action> {
    let mut log: Vec<Action> = Vec::new();
    let mut ev = Event::Start;
    loop {
        let a = m.step(ev);
        log.push(a.clone());
        ev = match a {
            Action::CreateDir(_) => Event::Acked,
            Action::CheckExists(p) => Event::ExistsResult(exists(&p)),
            Action::Fetch(u, _) => Event::FetchStatus(status(&u)),
            Action::Skip(_) => Event::Acked,
            Action::Write(_) => Event::Acked,
            Action::AbortRemote(_) => break,
            Action::Finished => break,
        };
    }
    log
}

fn create_dirs(log: &[Action]) -> Vec<String> {
    log.iter()
        .filter_map(|a| match a {
            Action::CreateDir(p) => Some(p.clone()),
            _ => None,
        })
        .collect()
}

fn fetched_urls(log: &[Action]) -> Vec<String> {
    log.iter()
        .filter_map(|a| match a {
            Action::Fetch(u, _) => Some(u.clone()),
            _ => None,
        })
        .collect()
}

fn skips(log: &[Action]) -> Vec<String> {
    log.iter()
        .filter_map(|a| match a {
            Action::Skip(n) => Some(n.clone()),
            _ => None,
        })
        .collect()
}

#[test]
fn every_dir_created_once_even_empty() {
    let photos = photos_ok(vec![dir("a", &["f1", "f2"]), dir("empty", &[]), dir("b", &["g"])]);
    let mut m = Mirror::new(photos, config(false)).unwrap();
    let log = run(&mut m, &|_| false, &|_| 200);
    assert_eq!(create_dirs(&log), vec!["out/a", "out/empty", "out/b"]);
    assert!(matches!(log.last(), Some(Action::Finished)));
}

#[test]
fn full_fresh_run_in_listing_order() {
    let photos = photos_ok(vec![dir("a", &["f1", "f2"])]);
    let mut m = Mirror::new(photos, config(false)).unwrap();
    let log = run(&mut m, &|_| false, &|_| 200);
    assert_eq!(log.len(), 8);
    assert!(matches!(&log[0], Action::CreateDir(p) if p == "out/a"));
    assert!(matches!(&log[1], Action::CheckExists(p) if p == "out/a/f1"));
    assert!(
        matches!(&log[2], Action::Fetch(u, p) if u == "http://192.168.0.1/v1/photos/a/f1" && p == "out/a/f1")
    );
    assert!(matches!(&log[3], Action::Write(p) if p == "out/a/f1"));
    assert!(matches!(&log[4], Action::CheckExists(p) if p == "out/a/f2"));
    assert!(
        matches!(&log[5], Action::Fetch(u, p) if u == "http://192.168.0.1/v1/photos/a/f2" && p == "out/a/f2")
    );
    assert!(matches!(&log[6], Action::Write(p) if p == "out/a/f2"));
    assert!(matches!(&log[7], Action::Finished));
}

#[test]
fn present_file_skipped_without_fetch() {
    let photos = photos_ok(vec![dir("a", &["old", "new"])]);
    let mut m = Mirror::new(photos, config(false)).unwrap();
    let log = run(&mut m, &|p| p == "out/a/old", &|_| 200);
    assert_eq!(skips(&log), vec!["old"]);
    assert_eq!(fetched_urls(&log), vec!["http://192.168.0.1/v1/photos/a/new"]);
    assert!(matches!(log.last(), Some(Action::Finished)));
}

#[test]
fn force_refetches_every_file_without_checks() {
    let photos = photos_ok(vec![dir("a", &["f1"]), dir("b", &["g1", "g2"])]);
    let mut m = Mirror::new(photos, config(true)).unwrap();
    // every file is already present, yet force re-fetches them all
    let log = run(&mut m, &|_| true, &|_| 200);
    assert!(log.iter().all(|a| !matches!(a, Action::CheckExists(_))));
    assert!(log.iter().all(|a| !matches!(a, Action::Skip(_))));
    assert_eq!(
        fetched_urls(&log),
        vec![
            "http://192.168.0.1/v1/photos/a/f1",
            "http://192.168.0.1/v1/photos/b/g1",
            "http://192.168.0.1/v1/photos/b/g2",
        ]
    );
    // each fetch is followed by a write that overwrites the local file
    assert!(matches!(&log[2], Action::Write(p) if p == "out/a/f1"));
    assert!(matches!(log.last(), Some(Action::Finished)));
}

#[test]
fn app_error_code_rejected_before_any_directory() {
    let photos = Photos {
        error_message: "device busy".to_string(),
        error_code: 500,
        dirs: vec![dir("a", &["f1"])],
    };
    match Mirror::new(photos, config(false)) {
        Ok(_) => panic!("a non-success listing must be rejected"),
        Err(msg) => assert_eq!(msg, "device busy"),
    }
}

#[test]
fn success_code_accepted() {
    let photos = photos_ok(vec![]);
    assert!(Mirror::new(photos, config(false)).is_ok());
}

#[test]
fn not_found_aborts_mid_run_keeping_earlier_work() {
    let photos = photos_ok(vec![dir("a", &["good", "bad", "late"])]);
    let mut m = Mirror::new(photos, config(false)).unwrap();
    let log = run(&mut m, &|_| false, &|u| {
        if u == "http://192.168.0.1/v1/photos/a/bad" {
            404
        } else {
            200
        }
    });
    // the first file went through: its directory was created and it was written
    assert_eq!(create_dirs(&log), vec!["out/a"]);
    assert!(log.iter().any(|a| matches!(a, Action::Write(p) if p == "out/a/good")));
    // the run ends on the failing URL; the remaining file is never reached
    assert!(
        matches!(log.last(), Some(Action::AbortRemote(u)) if u == "http://192.168.0.1/v1/photos/a/bad")
    );
    assert!(log.iter().all(|a| !matches!(a, Action::Fetch(u, _) if u.ends_with("late"))));
    assert!(log.iter().all(|a| !matches!(a, Action::Write(p) if p.ends_with("late"))));
}

#[test]
fn rerun_on_unchanged_listing_downloads_nothing() {
    let dirs = || vec![dir("a", &["f1", "f2"]), dir("b", &["g"])];

    // first run: nothing is present yet, everything is downloaded
    let mut first = Mirror::new(photos_ok(dirs()), config(false)).unwrap();
    let mut mirrored: Vec<String> = Vec::new();
    let log1 = {
        let log = run(&mut first, &|_| false, &|_| 200);
        for a in &log {
            if let Action::Write(p) = a {
                mirrored.push(p.clone());
            }
        }
        log
    };
    assert_eq!(mirrored, vec!["out/a/f1", "out/a/f2", "out/b/g"]);
    assert!(matches!(log1.last(), Some(Action::Finished)));

    // second run: every file the first run wrote now exists
    let mut second = Mirror::new(photos_ok(dirs()), config(false)).unwrap();
    let log2 = run(&mut second, &|p| mirrored.iter().any(|q| q == p), &|_| 200);
    assert!(log2.iter().all(|a| !matches!(a, Action::Fetch(_, _))));
    assert!(log2.iter().all(|a| !matches!(a, Action::Write(_))));
    assert_eq!(skips(&log2), vec!["f1", "f2", "g"]);
    assert!(matches!(log2.last(), Some(Action::Finished)));
}

#[test]
fn empty_listing_finishes_at_once() {
    let mut m = Mirror::new(photos_ok(vec![]), config(false)).unwrap();
    let log = run(&mut m, &|_| false, &|_| 200);
    assert_eq!(log.len(), 1);
    assert!(matches!(&log[0], Action::Finished));
}

#[test]
fn duplicate_file_names_are_each_attempted() {
    let photos = photos_ok(vec![dir("a", &["same", "same"])]);
    let mut m = Mirror::new(photos, config(false)).unwrap();
    let log = run(&mut m, &|_| false, &|_| 200);
    assert_eq!(
        fetched_urls(&log),
        vec![
            "http://192.168.0.1/v1/photos/a/same",
            "http://192.168.0.1/v1/photos/a/same",
        ]
    );
}
