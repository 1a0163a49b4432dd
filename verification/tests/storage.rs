//! The account of the disk.

use voicestudio::storage::{entry_bytes, size, storage_pane, Unit, Usage};
use voicestudio::VoiceStudio;

#[test]
fn what_is_free_is_no_part_of_what_is_used() {
    let usage = Usage { runtime: 1, models: 20, voices: 300, clips: 4_000, free: 50_000 };
    assert_eq!(usage.total(), 4_321);
    assert_eq!(Usage::default().total(), 0);
}

#[test]
fn a_size_is_printed_in_the_unit_that_fits_it() {
    assert_eq!(size(0), Unit::Kilobytes);
    assert_eq!(size(999_999), Unit::Kilobytes);
    assert_eq!(size(1_000_000), Unit::Megabytes);
    assert_eq!(size(999_999_999), Unit::Megabytes);
    assert_eq!(size(1_000_000_000), Unit::Gigabytes);
}

#[test]
fn links_are_not_counted() {
    assert_eq!(entry_bytes(true, false, 70, Some(4)), 70);
    assert_eq!(entry_bytes(false, true, 70, Some(4)), 0);
    assert_eq!(entry_bytes(false, false, 70, Some(4)), 4);
    assert_eq!(entry_bytes(false, false, 70, None), 0);
}

#[test]
fn the_account_is_in_four_lines_and_adds_up() {
    let mut studio = VoiceStudio::new("Starting", "My voice");
    assert!(studio.storage.is_none());
    studio.storage_counted(Usage { runtime: 1, models: 20, voices: 300, clips: 4_000, free: 9 });
    let pane = storage_pane(studio.storage);
    assert_eq!(pane.line, Some((4_321, 9)));
    let labels: Vec<&str> = pane.rows.iter().map(|row| row.label).collect();
    assert_eq!(
        labels,
        ["settings.models", "settings.runtime", "workspace.clips", "settings.voices"]
    );
    assert_eq!(pane.rows.iter().map(|row| row.bytes).sum::<u64>(), 4_321);
    assert!(pane.rows.iter().all(|row| row.of == Some(4_321)));
    assert_eq!(pane.rows[1].detail, "storage.runtime_detail");
}

#[test]
fn a_runtime_of_no_size_is_somewhere_else() {
    let pane = storage_pane(Some(Usage::default()));
    assert_eq!(pane.rows[1].detail, "storage.runtime_elsewhere");
    assert_eq!(pane.rows[0].of, None);
}

#[test]
fn nothing_is_claimed_before_it_is_counted() {
    let pane = storage_pane(None);
    assert_eq!(pane.line, None);
    assert!(pane.rows.is_empty());
}
