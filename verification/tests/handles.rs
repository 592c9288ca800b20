//! Handle lifecycle: release happens at most once per handle, and a release
//! is skipped when the validity check already reports the handle dead.

use spx::engine::{Engine, HandleData};
use spx::properties::Properties;
use spx::INVALID_HANDLE;

#[test]
fn release_is_called_at_most_once_per_handle() {
    let mut engine = Engine::new();
    let h = engine.open_handle(HandleData::Plain).unwrap();
    let mut wrapper = Properties::new(h);

    wrapper.release(&mut engine);
    wrapper.release(&mut engine);
    wrapper.release(&mut engine);

    // The engine counted exactly one release call for the handle.
    assert_eq!(engine.entries[h - 1].releases, 1);
    assert!(!engine.entries[h - 1].live);
    assert_eq!(wrapper.handle, INVALID_HANDLE);
}

#[test]
fn release_is_skipped_when_the_validity_check_reports_invalid() {
    let mut engine = Engine::new();
    let h = engine.open_handle(HandleData::Plain).unwrap();
    // The engine already tore the resource down on its side.
    engine.release_handle(h);
    assert_eq!(engine.entries[h - 1].releases, 1);

    let mut wrapper = Properties::new(h);
    wrapper.release(&mut engine);

    // The wrapper's validity check saw a dead handle and did not release
    // again: no double free.
    assert_eq!(engine.entries[h - 1].releases, 1);
    assert_eq!(wrapper.handle, INVALID_HANDLE);
}

#[test]
fn releasing_an_unknown_handle_changes_nothing() {
    let mut engine = Engine::new();
    let mut wrapper = Properties::new(12345);
    wrapper.release(&mut engine);
    assert_eq!(engine.entries.len(), 0);
}

#[test]
fn the_invalid_handle_is_never_live() {
    let mut engine = Engine::new();
    let _ = engine.open_handle(HandleData::Plain).unwrap();
    assert!(!engine.is_valid(INVALID_HANDLE));
    assert!(!engine.is_valid(spx::NULL_HANDLE));
}

#[test]
fn each_wrapper_family_releases_its_own_handle() {
    let mut engine = Engine::new();
    let h1 = engine.open_handle(HandleData::Plain).unwrap();
    let h2 = engine.open_handle(HandleData::Plain).unwrap();
    let mut a = spx::speech::recognizer::RecognizerAsync::new(h1);
    let mut b = spx::speech::recognizer::Model::new(h2);
    a.release(&mut engine);
    assert!(!engine.is_valid(h1));
    assert!(engine.is_valid(h2));
    b.release(&mut engine);
    assert!(!engine.is_valid(h2));
    assert_eq!(engine.entries[h1 - 1].releases, 1);
    assert_eq!(engine.entries[h2 - 1].releases, 1);
}
