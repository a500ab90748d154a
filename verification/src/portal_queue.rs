//! The portal retry queue: its records, and what to do with a queue file that
//! was read back from disk.

use crate::portal_manager::ItemId;
use crate::utc_time::UtcTime;
use vstd::prelude::*;

verus! {

/// Name of the queue file inside the configuration directory.
pub const QUEUE_FILE_NAME: &'static str = "portal_queue.json";

/// Name of the temporary file a queue write goes through.
pub const TMP_FILE_NAME: &'static str = "portal_queue.json.tmp";

/// Name of the archive of expired queue items.
pub const ARCHIVE_FILE_NAME: &'static str = "portal_queue.expired.json";

/// Name of the temporary file an archive write goes through.
pub const ARCHIVE_TMP_FILE_NAME: &'static str = "portal_queue.expired.json.tmp";

/// Per-game submission record persisted on disk. Every queued item is
/// awaiting retry.
#[derive(Debug, Clone, PartialEq)]
pub struct QueuedItem {
    pub id: ItemId,
    pub black_score: u8,
    pub white_score: u8,
    pub stats: String,
    pub queued_at: UtcTime,
    pub attempts: u32,
    pub last_attempt_at: Option<UtcTime>,
    /// When true, the next submit asks the portal to overwrite any existing
    /// value.
    pub force: bool,
    /// Whether the portal has already accepted this game's score; `true`
    /// means only the stats upload is outstanding.
    pub score_sent: bool,
}

impl QueuedItem {
    /// A field-for-field copy.
    pub fn duplicate(&self) -> (r: QueuedItem)
        ensures
            r.id@ == self.id@,
            r.black_score == self.black_score,
            r.white_score == self.white_score,
            r.stats@ == self.stats@,
            r.queued_at == self.queued_at,
            r.attempts == self.attempts,
            r.last_attempt_at == self.last_attempt_at,
            r.force == self.force,
            r.score_sent == self.score_sent,
    {
        QueuedItem {
            id: self.id.duplicate(),
            black_score: self.black_score,
            white_score: self.white_score,
            stats: self.stats.clone(),
            queued_at: self.queued_at,
            attempts: self.attempts,
            last_attempt_at: self.last_attempt_at,
            force: self.force,
            score_sent: self.score_sent,
        }
    }
}

/// Two records that agree field for field.
pub open spec fn same_item(a: QueuedItem, b: QueuedItem) -> bool {
    &&& a.id@ == b.id@
    &&& a.black_score == b.black_score
    &&& a.white_score == b.white_score
    &&& a.stats@ == b.stats@
    &&& a.queued_at == b.queued_at
    &&& a.attempts == b.attempts
    &&& a.last_attempt_at == b.last_attempt_at
    &&& a.force == b.force
    &&& a.score_sent == b.score_sent
}

/// Top-level envelope of the queue file.
#[derive(Debug, Clone, PartialEq)]
pub struct QueueFile {
    pub version: u32,
    pub items: Vec<QueuedItem>,
}

/// The only queue-file version this code reads.
pub const CURRENT_VERSION: u32 = 1;

impl QueueFile {
    /// An empty queue of the current version.
    pub fn empty() -> (r: QueueFile)
        ensures
            r.version == CURRENT_VERSION,
            r.items@.len() == 0,
    {
        QueueFile { version: CURRENT_VERSION, items: Vec::new() }
    }

    /// What a queue read from disk becomes: a parsed file of the current
    /// version is used as it stands; a file that did not parse (`None`) or
    /// carries another version is set aside, and an empty queue is used.
    /// The second component says whether the file must be set aside.
    pub fn from_loaded(parsed: Option<QueueFile>) -> (r: (QueueFile, bool))
        ensures
            match parsed {
                Some(q) => if q.version == CURRENT_VERSION {
                    r.0 == q && !r.1
                } else {
                    r.0.version == CURRENT_VERSION && r.0.items@.len() == 0 && r.1
                },
                None => r.0.version == CURRENT_VERSION && r.0.items@.len() == 0 && r.1,
            },
    {
        match parsed {
            Some(q) => if q.version == CURRENT_VERSION {
                (q, false)
            } else {
                (QueueFile::empty(), true)
            },
            None => (QueueFile::empty(), true),
        }
    }

    /// What an archive read from disk becomes: a parsed archive of the current
    /// version as it stands, anything else an empty archive (the archive is a
    /// best-effort safety net and is never set aside).
    pub fn archive_from_loaded(parsed: Option<QueueFile>) -> (r: QueueFile)
        ensures
            match parsed {
                Some(q) => if q.version == CURRENT_VERSION {
                    r == q
                } else {
                    r.version == CURRENT_VERSION && r.items@.len() == 0
                },
                None => r.version == CURRENT_VERSION && r.items@.len() == 0,
            },
    {
        match parsed {
            Some(q) => if q.version == CURRENT_VERSION {
                q
            } else {
                QueueFile::empty()
            },
            None => QueueFile::empty(),
        }
    }

    /// Adds expired items to the end of the archive; items archived earlier
    /// stay in front of them.
    pub fn append_items(&mut self, items: &[QueuedItem])
        ensures
            final(self).version == old(self).version,
            final(self).items@.len() == old(self).items@.len() + items@.len(),
            forall|i: int|
                0 <= i < old(self).items@.len() ==> final(self).items@[i] == old(self).items@[i],
            forall|i: int|
                0 <= i < items@.len() ==> same_item(
                    #[trigger] final(self).items@[old(self).items@.len() + i],
                    items@[i],
                ),
    {
        let ghost n0 = self.items@.len();
        let mut i: usize = 0;
        while i < items.len()
            invariant
                0 <= i <= items@.len(),
                self.version == old(self).version,
                n0 == old(self).items@.len(),
                self.items@.len() == n0 + i,
                forall|k: int| 0 <= k < n0 ==> self.items@[k] == old(self).items@[k],
                forall|k: int| 0 <= k < i ==> same_item(#[trigger] self.items@[n0 + k], items@[k]),
            decreases items@.len() - i,
        {
            let it = items[i].duplicate();
            self.items.push(it);
            i = i + 1;
        }
    }
}

} // verus!
