//! Behavior of the append-only trajectory journal.

use shikka::error::JournalError;
use shikka::journal::Journal;

#[test]
fn fresh_journal_has_no_data() {
    let j: Journal<u32> = Journal::init(4);
    assert_eq!(j.read_state(), Err(JournalError::NoData));
    assert!(j.read_all().is_empty());
}

#[test]
fn write_then_read_latest() {
    let mut j: Journal<u32> = Journal::init(4);
    j.write(10, 0).unwrap();
    j.write(20, 1).unwrap();
    assert_eq!(j.read_state(), Ok(&20));
    assert_eq!(j.read_all(), vec![(10, 0), (20, 1)]);
}

#[test]
fn write_into_a_full_journal_is_refused() {
    let mut j: Journal<u32> = Journal::init(2);
    j.write(1, 0).unwrap();
    j.write(2, 1).unwrap();
    assert_eq!(j.write(3, 2), Err(JournalError::StorageExhausted));
    // The refused write left the journal unchanged.
    assert_eq!(j.read_all(), vec![(1, 0), (2, 1)]);
}

#[test]
fn cleanup_returns_everything_and_empties_the_journal() {
    let mut j: Journal<u32> = Journal::init(4);
    j.write(1, 0).unwrap();
    j.write(2, 1).unwrap();
    let drained = j.cleanup();
    assert_eq!(drained, vec![(1, 0), (2, 1)]);
    assert_eq!(j.read_state(), Err(JournalError::NoData));
    assert!(j.read_all().is_empty());
    // The capacity survives a drain: the journal can fill up again.
    j.write(7, 2).unwrap();
    assert_eq!(j.read_state(), Ok(&7));
}
