//! What the application has put on this machine.
//!
//! It writes gigabytes: a runtime, model weights, reference recordings, and
//! every clip ever generated. Scattered across the interface that is four
//! numbers in four places; here it is one account, in the order things get
//! large.

use vstd::prelude::*;

use crate::studio::{StudioView, VoiceStudio};

verus! {

/// What each part of the data directory occupies, and what is left.
#[derive(Clone, Copy, Debug, PartialEq, Eq, Structural)]
pub struct Usage {
    pub runtime: u64,
    pub models: u64,
    pub voices: u64,
    pub clips: u64,
    pub free: u64,
}

impl Default for Usage {
    fn default() -> (usage: Self)
        ensures
            usage == (Usage { runtime: 0, models: 0, voices: 0, clips: 0, free: 0 }),
    {
        Usage { runtime: 0, models: 0, voices: 0, clips: 0, free: 0 }
    }
}

impl Usage {
    /// Everything the application occupies. What is free is not part of it.
    pub open spec fn spec_total(self) -> nat {
        (self.runtime + self.models + self.voices + self.clips) as nat
    }

    pub fn total(&self) -> (bytes: u64)
        requires
            self.spec_total() <= u64::MAX,
        ensures
            bytes == self.spec_total(),
    {
        self.runtime + self.models + self.voices + self.clips
    }
}

/// What one entry of a directory counts for: a directory, what is under it; a
/// link, nothing, because its target is counted where it is; anything else,
/// its length where that can be read.
pub open spec fn spec_entry_bytes(
    directory: bool,
    link: bool,
    below: u64,
    length: Option<u64>,
) -> u64 {
    if directory {
        below
    } else if link {
        0
    } else {
        match length {
            Some(length) => length,
            None => 0,
        }
    }
}

pub fn entry_bytes(directory: bool, link: bool, below: u64, length: Option<u64>) -> (bytes: u64)
    ensures
        bytes == spec_entry_bytes(directory, link, below, length),
{
    if directory {
        below
    } else if link {
        0
    } else {
        match length {
            Some(length) => length,
            None => 0,
        }
    }
}

/// The unit a size is printed in.
#[derive(Clone, Copy, Debug, PartialEq, Eq, Structural)]
pub enum Unit {
    Gigabytes,
    Megabytes,
    Kilobytes,
}

/// Gigabytes past a gigabyte, megabytes below it, kilobytes below that. A model
/// is gigabytes and a clip is kilobytes; one unit for both makes one of them
/// unreadable.
pub open spec fn spec_size(bytes: nat) -> Unit {
    if bytes >= 1_000_000_000 {
        Unit::Gigabytes
    } else if bytes >= 1_000_000 {
        Unit::Megabytes
    } else {
        Unit::Kilobytes
    }
}

pub fn size(bytes: u64) -> (unit: Unit)
    ensures
        unit == spec_size(bytes as nat),
{
    if bytes >= 1_000_000_000 {
        Unit::Gigabytes
    } else if bytes >= 1_000_000 {
        Unit::Megabytes
    } else {
        Unit::Kilobytes
    }
}

/// One line of the account: a phrase for what it is, a phrase for what
/// removing it would cost, and the bytes it stands for.
#[derive(Clone, Copy, Debug)]
pub struct UsageRow {
    pub label: &'static str,
    pub detail: &'static str,
    pub bytes: u64,
    /// What it is part of, where there is anything to be part of.
    pub of: Option<u64>,
}

impl UsageRow {
    pub open spec fn says(
        self,
        label: Seq<char>,
        detail: Seq<char>,
        bytes: u64,
        total: nat,
    ) -> bool {
        &&& self.label@ == label
        &&& self.detail@ == detail
        &&& self.bytes == bytes
        &&& self.of == (if total > 0 {
            Some(total as u64)
        } else {
            None
        })
    }
}

fn usage_row(label: &'static str, detail: &'static str, bytes: u64, total: u64) -> (row: UsageRow)
    ensures
        row.says(label@, detail@, bytes, total as nat),
{
    UsageRow {
        label,
        detail,
        bytes,
        of: if total > 0 {
            Some(total)
        } else {
            None
        },
    }
}

/// The storage pane: what is used and free, and the account in lines. Nothing
/// but the wait is said until the directory has been counted.
#[derive(Clone, Debug)]
pub struct StoragePane {
    /// Bytes used and bytes free; `None` while still counting.
    pub line: Option<(u64, u64)>,
    pub rows: Vec<UsageRow>,
}

impl StoragePane {
    /// Whether this is the account of what has been counted.
    pub open spec fn shows(self, usage: Option<Usage>) -> bool {
        match usage {
            None => self.line is None && self.rows@.len() == 0,
            Some(usage) => {
                &&& self.line == Some((usage.spec_total() as u64, usage.free))
                &&& self.rows@.len() == 4
                &&& self.rows@[0].says(
                    "settings.models"@,
                    "storage.models_detail"@,
                    usage.models,
                    usage.spec_total(),
                )
                &&& self.rows@[1].says(
                    "settings.runtime"@,
                    if usage.runtime > 0 {
                        "storage.runtime_detail"@
                    } else {
                        "storage.runtime_elsewhere"@
                    },
                    usage.runtime,
                    usage.spec_total(),
                )
                &&& self.rows@[2].says(
                    "workspace.clips"@,
                    "storage.clips_detail"@,
                    usage.clips,
                    usage.spec_total(),
                )
                &&& self.rows@[3].says(
                    "settings.voices"@,
                    "storage.voices_detail"@,
                    usage.voices,
                    usage.spec_total(),
                )
            },
        }
    }
}

/// The pane for what has been counted.
pub fn storage_pane(usage: Option<Usage>) -> (pane: StoragePane)
    requires
        usage matches Some(usage) ==> usage.spec_total() <= u64::MAX,
    ensures
        pane.shows(usage),
{
    let mut rows: Vec<UsageRow> = Vec::new();
    match usage {
        None => StoragePane { line: None, rows },
        Some(usage) => {
            let total = usage.total();
            rows.push(usage_row("settings.models", "storage.models_detail", usage.models, total));
            // Zero here is a real answer, not a missing one: a checkout running
            // against a developer environment has no runtime of its own.
            rows.push(
                usage_row(
                    "settings.runtime",
                    if usage.runtime > 0 {
                        "storage.runtime_detail"
                    } else {
                        "storage.runtime_elsewhere"
                    },
                    usage.runtime,
                    total,
                ),
            );
            rows.push(usage_row("workspace.clips", "storage.clips_detail", usage.clips, total));
            rows.push(usage_row("settings.voices", "storage.voices_detail", usage.voices, total));
            StoragePane { line: Some((total, usage.free)), rows }
        },
    }
}

impl VoiceStudio {
    /// Take in what was counted.
    pub fn storage_counted(&mut self, usage: Usage)
        ensures
            final(self)@ == (StudioView { storage: Some(usage), ..old(self)@ }),
    {
        self.storage = Some(usage);
    }
}

/// The lines of the account add up to the figure above them.
pub proof fn lemma_the_account_adds_up(usage: Usage)
    ensures
        usage.models + usage.runtime + usage.clips + usage.voices == usage.spec_total(),
{
}

/// A size is told in the largest unit that there is one of.
pub proof fn lemma_a_size_is_told_in_the_largest_unit(bytes: nat)
    ensures
        spec_size(bytes) is Gigabytes <==> bytes / 1_000_000_000 >= 1,
        spec_size(bytes) is Megabytes <==> bytes / 1_000_000_000 == 0 && bytes / 1_000_000 >= 1,
        spec_size(bytes) is Kilobytes <==> bytes / 1_000_000 == 0,
{
}

/// A line of the account says what it was given, and what it is part of only
/// where there is anything to be part of.
pub proof fn lemma_a_line_is_part_of_the_whole(
    row: UsageRow,
    label: Seq<char>,
    detail: Seq<char>,
    bytes: u64,
    total: nat,
)
    requires
        total <= u64::MAX,
        row.says(label, detail, bytes, total),
    ensures
        row.label@ == label,
        row.detail@ == detail,
        row.bytes == bytes,
        total == 0 ==> row.of is None,
        total > 0 ==> (row.of matches Some(whole) && whole == total),
{
}

/// Every part that grows makes the whole grow by as much, and what is free is
/// no part of it.
pub proof fn lemma_every_part_counts_once(usage: Usage, more: nat, free: u64)
    requires
        usage.runtime + more <= u64::MAX,
        usage.models + more <= u64::MAX,
        usage.voices + more <= u64::MAX,
        usage.clips + more <= u64::MAX,
    ensures
        (Usage { runtime: (usage.runtime + more) as u64, ..usage }).spec_total()
            == usage.spec_total() + more,
        (Usage { models: (usage.models + more) as u64, ..usage }).spec_total()
            == usage.spec_total() + more,
        (Usage { voices: (usage.voices + more) as u64, ..usage }).spec_total()
            == usage.spec_total() + more,
        (Usage { clips: (usage.clips + more) as u64, ..usage }).spec_total()
            == usage.spec_total() + more,
        (Usage { free, ..usage }).spec_total() == usage.spec_total(),
{
}

/// What an entry counts for: a directory by what is below it and never by its
/// own length, a link by nothing, and a file by its length where that can be
/// read.
pub proof fn lemma_what_an_entry_counts_for(link: bool, below: u64, length: Option<u64>)
    ensures
        spec_entry_bytes(true, link, below, length) == below,
        spec_entry_bytes(false, true, below, length) == 0,
        spec_entry_bytes(false, false, below, None) == 0,
        length matches Some(bytes) ==> spec_entry_bytes(false, false, below, length) == bytes,
{
}

/// The account of the disk says nothing until it has been counted. Then its
/// lines are the models, the runtime, the clips and the voices, which come to
/// the figure above them, and what is free stands beside that figure.
pub proof fn lemma_the_account_is_complete(pane: StoragePane, usage: Option<Usage>)
    requires
        pane.shows(usage),
        usage matches Some(usage) ==> usage.spec_total() <= u64::MAX,
    ensures
        usage is None ==> pane.line is None && pane.rows@.len() == 0,
        usage matches Some(usage) ==> {
            let rows = pane.rows@;
            &&& rows.len() == 4
            &&& rows[0].bytes == usage.models && rows[0].label@ == "settings.models"@
            &&& rows[1].bytes == usage.runtime && rows[1].label@ == "settings.runtime"@
            &&& rows[2].bytes == usage.clips && rows[2].label@ == "workspace.clips"@
            &&& rows[3].bytes == usage.voices && rows[3].label@ == "settings.voices"@
            &&& usage.runtime == 0 ==> rows[1].detail@ == "storage.runtime_elsewhere"@
            &&& usage.runtime > 0 ==> rows[1].detail@ == "storage.runtime_detail"@
            &&& pane.line matches Some((used, free)) && free == usage.free && used == rows[0].bytes
                + rows[1].bytes + rows[2].bytes + rows[3].bytes
            &&& usage.spec_total() > 0 ==> forall|i: int|
                0 <= i < 4 ==> ((#[trigger] rows[i]).of matches Some(whole) && whole
                    == usage.spec_total())
        },
{
}

} // verus!
