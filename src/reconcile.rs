use vstd::prelude::*;
use crate::timestamp::Timestamp;

verus! {

/// What was found at the destination under an entry's name.
#[derive(Clone, Copy, Debug)]
pub enum DestProbe {
    /// No file or directory of that name exists in the destination.
    Absent,
    /// Something of that name exists; its modification time, if it could be read.
    Present(Option<Timestamp>),
}

/// One top-level entry of the source directory, as observed at the start of a pass.
#[derive(Clone, Debug)]
pub struct EntryProbe {
    /// The entry's base name, shared by its source and destination paths.
    pub name: String,
    /// Whether the source entry is a directory.
    pub is_dir: bool,
    /// The source entry's modification time, if it could be read.
    pub source_modified: Option<Timestamp>,
    /// What the destination holds under the same name.
    pub dest: DestProbe,
}

/// What a pass does with one source entry.
#[derive(Clone, Copy, Debug, PartialEq, Eq, Structural)]
pub enum Decision {
    /// A directory: never recursed into, never copied.
    SkipDirectory,
    /// The destination lacks the file: copy it.
    CopyMissing,
    /// The source file is strictly newer than the destination's: overwrite it.
    CopyNewer,
    /// The destination is as new as the source or newer: leave it.
    UpToDate,
    /// A modification time needed for the comparison could not be read.
    MetadataUnreadable,
}

impl Decision {
    /// Whether this decision asks for the file to be copied.
    pub open spec fn is_copy(self) -> bool {
        self is CopyMissing || self is CopyNewer
    }

    pub fn needs_copy(&self) -> (r: bool)
        ensures
            r == self.is_copy(),
    {
        match self {
            Decision::CopyMissing | Decision::CopyNewer => true,
            _ => false,
        }
    }
}

/// The copy rule for one entry: directories are skipped, missing files are
/// copied, present files are copied only when the source is strictly newer.
pub open spec fn decision_for(p: EntryProbe) -> Decision {
    if p.is_dir {
        Decision::SkipDirectory
    } else {
        match p.dest {
            DestProbe::Absent => Decision::CopyMissing,
            DestProbe::Present(Some(d)) => match p.source_modified {
                Some(s) => if s@ > d@ {
                    Decision::CopyNewer
                } else {
                    Decision::UpToDate
                },
                None => Decision::MetadataUnreadable,
            },
            DestProbe::Present(None) => Decision::MetadataUnreadable,
        }
    }
}

/// Decides what to do with one source entry.
pub fn decide(p: &EntryProbe) -> (r: Decision)
    ensures
        r == decision_for(*p),
{
    if p.is_dir {
        return Decision::SkipDirectory;
    }
    match p.dest {
        DestProbe::Absent => Decision::CopyMissing,
        DestProbe::Present(Some(d)) => match p.source_modified {
            Some(s) => {
                if s.is_later_than(&d) {
                    Decision::CopyNewer
                } else {
                    Decision::UpToDate
                }
            },
            None => Decision::MetadataUnreadable,
        },
        DestProbe::Present(None) => Decision::MetadataUnreadable,
    }
}

/// Decides, entry by entry and independently, what a pass does with each
/// entry of the source listing.
pub fn plan_pass(entries: &Vec<EntryProbe>) -> (r: Vec<Decision>)
    ensures
        r@.len() == entries@.len(),
        forall|i: int| 0 <= i < entries@.len() ==> r@[i] == decision_for(#[trigger] entries@[i]),
{
    let mut r: Vec<Decision> = Vec::new();
    let mut i: usize = 0;
    while i < entries.len()
        invariant
            i <= entries@.len(),
            r@.len() == i,
            forall|k: int| 0 <= k < i ==> r@[k] == decision_for(#[trigger] entries@[k]),
        decreases entries@.len() - i,
    {
        let d = decide(&entries[i]);
        r.push(d);
        i = i + 1;
    }
    r
}

/// Whether the entry with decision `d` failed in the pass, given whether its
/// copy (if one was made) succeeded.
pub open spec fn entry_failed(d: Decision, copy_ok: bool) -> bool {
    d is MetadataUnreadable || (d.is_copy() && !copy_ok)
}

/// How many of the first `n` entries were copied.
pub open spec fn copied_count(ds: Seq<Decision>, oks: Seq<bool>, n: int) -> nat
    decreases n,
{
    if n <= 0 {
        0
    } else {
        copied_count(ds, oks, n - 1) + if ds[n - 1].is_copy() && oks[n - 1] {
            1nat
        } else {
            0nat
        }
    }
}

/// The positions, in increasing order, of the entries among the first `n`
/// that failed.
pub open spec fn failed_positions(ds: Seq<Decision>, oks: Seq<bool>, n: int) -> Seq<int>
    decreases n,
{
    if n <= 0 {
        Seq::empty()
    } else if entry_failed(ds[n - 1], oks[n - 1]) {
        failed_positions(ds, oks, n - 1).push(n - 1)
    } else {
        failed_positions(ds, oks, n - 1)
    }
}

/// The soft failure of a pass in which some entries could not be handled;
/// the other entries were handled all the same.
#[derive(Clone, Debug)]
pub struct PassFailure {
    /// How many files were copied.
    pub copied: usize,
    /// The positions in the listing of the entries that failed, in increasing order.
    pub failed: Vec<usize>,
}

/// Sums up a pass from its plan and, for each entry, whether its copy
/// succeeded (ignored where no copy was asked for): the number of files
/// copied when every entry was handled, else the failed entries.
pub fn finish_pass(decisions: &Vec<Decision>, copy_ok: &Vec<bool>) -> (r: Result<usize, PassFailure>)
    requires
        decisions@.len() == copy_ok@.len(),
    ensures
        ({
            let n = decisions@.len() as int;
            match r {
                Ok(c) => failed_positions(decisions@, copy_ok@, n).len() == 0
                    && c == copied_count(decisions@, copy_ok@, n),
                Err(f) => failed_positions(decisions@, copy_ok@, n).len() > 0
                    && f.copied == copied_count(decisions@, copy_ok@, n)
                    && f.failed@.map_values(|k: usize| k as int)
                        == failed_positions(decisions@, copy_ok@, n),
            }
        }),
{
    let mut copied: usize = 0;
    let mut failed: Vec<usize> = Vec::new();
    let mut i: usize = 0;
    while i < decisions.len()
        invariant
            i <= decisions@.len(),
            decisions@.len() == copy_ok@.len(),
            copied <= i,
            copied == copied_count(decisions@, copy_ok@, i as int),
            failed@.map_values(|k: usize| k as int) == failed_positions(decisions@, copy_ok@, i as int),
        decreases decisions@.len() - i,
    {
        let d = decisions[i];
        let ok = copy_ok[i];
        let copy = d.needs_copy();
        if copy && ok {
            copied = copied + 1;
        }
        let unreadable = match d {
            Decision::MetadataUnreadable => true,
            _ => false,
        };
        if unreadable || (copy && !ok) {
            failed.push(i);
        }
        assert(failed@.map_values(|k: usize| k as int) =~= failed_positions(decisions@, copy_ok@, i + 1));
        i = i + 1;
    }
    if failed.len() == 0 {
        Ok(copied)
    } else {
        Err(PassFailure { copied, failed })
    }
}

} // verus!
