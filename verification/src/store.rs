//! The conversion modes remembered per window.

use std::collections::HashMap;
use vstd::prelude::*;
use crate::error::ListenerError;

verus! {

broadcast use vstd::std_specs::hash::group_hash_axioms;

/// The store after a backup of `window` with the mode `current`: the first
/// backup of a window is kept, a later one changes nothing.
pub open spec fn backup_spec(entries: Map<isize, u32>, window: isize, current: u32) -> Map<
    isize,
    u32,
> {
    if entries.contains_key(window) {
        entries
    } else {
        entries.insert(window, current)
    }
}

/// The mode to restore to `window`, or the error where it was never backed up.
pub open spec fn recover_spec(entries: Map<isize, u32>, window: isize) -> Result<
    u32,
    ListenerError,
> {
    if entries.contains_key(window) {
        Ok(entries[window])
    } else {
        Err(ListenerError::RecoverWithoutPriorBackup(window))
    }
}

/// Maps a window to the conversion mode it had when it was first backed up.
/// An entry, once written, is never overwritten nor removed.
pub struct ConversionStore {
    entries: HashMap<isize, u32>,
}

impl View for ConversionStore {
    type V = Map<isize, u32>;

    closed spec fn view(&self) -> Map<isize, u32> {
        self.entries@
    }
}

impl ConversionStore {
    /// An empty store.
    pub fn new() -> (store: ConversionStore)
        ensures
            store@ == Map::<isize, u32>::empty(),
    {
        ConversionStore { entries: HashMap::new() }
    }

    /// Number of windows that have a backup.
    pub fn len(&self) -> (count: usize)
        ensures
            count == self@.len(),
    {
        self.entries.len()
    }

    /// Whether `window` has a backup.
    pub fn contains(&self, window: isize) -> (present: bool)
        ensures
            present == self@.contains_key(window),
    {
        self.entries.contains_key(&window)
    }

    /// Remembers `current` as the mode of `window`, unless the window already
    /// has a backup: then the store is left as it is.
    pub fn backup(&mut self, window: isize, current: u32)
        ensures
            final(self)@ == backup_spec(old(self)@, window, current),
    {
        if !self.entries.contains_key(&window) {
            self.entries.insert(window, current);
        }
    }

    /// The mode remembered for `window`. The entry stays, so asking again
    /// gives the same answer. A window without backup is an error, never a
    /// default mode.
    pub fn recover(&self, window: isize) -> (restored: Result<u32, ListenerError>)
        ensures
            restored == recover_spec(self@, window),
            restored is Ok <==> self@.contains_key(window),
    {
        match self.entries.get(&window) {
            Some(mode) => Ok(*mode),
            None => Err(ListenerError::RecoverWithoutPriorBackup(window)),
        }
    }
}

/// The store after the backups `backups` (window and mode), made in order on
/// an empty store.
pub open spec fn after_backups(backups: Seq<(isize, u32)>) -> Map<isize, u32>
    decreases backups.len(),
{
    if backups.len() == 0 {
        Map::<isize, u32>::empty()
    } else {
        backup_spec(after_backups(backups.drop_last()), backups.last().0, backups.last().1)
    }
}

/// Of two backups of one window the first one wins: the second changes
/// nothing, so a restore after both gives what a restore after the first
/// gives. Where the window had no backup before, that is the first mode.
pub proof fn lemma_first_backup_wins(entries: Map<isize, u32>, window: isize, first: u32, second: u32)
    ensures
        backup_spec(backup_spec(entries, window, first), window, second) == backup_spec(
            entries,
            window,
            first,
        ),
        recover_spec(backup_spec(backup_spec(entries, window, first), window, second), window)
            == recover_spec(backup_spec(entries, window, first), window),
        !entries.contains_key(window) ==> recover_spec(
            backup_spec(backup_spec(entries, window, first), window, second),
            window,
        ) == Ok::<u32, ListenerError>(first),
{
}

/// A backup never removes nor changes an entry that is there.
pub proof fn lemma_backup_keeps_entries(
    entries: Map<isize, u32>,
    window: isize,
    current: u32,
    other: isize,
)
    requires
        entries.contains_key(other),
    ensures
        backup_spec(entries, window, current).contains_key(other),
        backup_spec(entries, window, current)[other] == entries[other],
{
}

/// A restore of a window that no backup was made for is an error, whatever
/// was backed up for other windows; no mode is made up for it.
pub proof fn lemma_recover_needs_backup(backups: Seq<(isize, u32)>, window: isize)
    requires
        forall|i: int| 0 <= i < backups.len() ==> (#[trigger] backups[i]).0 != window,
    ensures
        !after_backups(backups).contains_key(window),
        recover_spec(after_backups(backups), window) == Err::<u32, ListenerError>(
            ListenerError::RecoverWithoutPriorBackup(window),
        ),
    decreases backups.len(),
{
    if backups.len() > 0 {
        assert forall|i: int| 0 <= i < backups.drop_last().len() implies (#[trigger] backups.drop_last()[i]).0
            != window by {
            assert(backups.drop_last()[i] == backups[i]);
        }
        lemma_recover_needs_backup(backups.drop_last(), window);
        assert(backups.last() == backups[backups.len() - 1]);
    }
}

/// A restore gives the mode of the first backup that was made for the
/// window, whatever was backed up after it.
pub proof fn lemma_recover_gives_first_backup(backups: Seq<(isize, u32)>, first: int)
    requires
        0 <= first < backups.len(),
        forall|i: int| 0 <= i < first ==> (#[trigger] backups[i]).0 != backups[first].0,
    ensures
        recover_spec(after_backups(backups), backups[first].0) == Ok::<u32, ListenerError>(
            backups[first].1,
        ),
    decreases backups.len(),
{
    let window = backups[first].0;
    let earlier = backups.drop_last();
    if first == backups.len() - 1 {
        assert forall|i: int| 0 <= i < earlier.len() implies (#[trigger] earlier[i]).0 != window by {
            assert(earlier[i] == backups[i]);
        }
        lemma_recover_needs_backup(earlier, window);
    } else {
        assert(earlier[first] == backups[first]);
        assert forall|i: int| 0 <= i < first implies (#[trigger] earlier[i]).0 != earlier[first].0 by {
            assert(earlier[i] == backups[i]);
        }
        lemma_recover_gives_first_backup(earlier, first);
    }
}

} // verus!
