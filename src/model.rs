//! The filesystem as the reconciler sees it, and the laws of a pass over it.
use vstd::prelude::*;
use crate::reconcile::{decision_for, DestProbe, EntryProbe};

verus! {

/// A top-level entry of a directory.
pub struct Node {
    pub is_dir: bool,
    pub content: Seq<u8>,
    /// Modification time, in nanoseconds relative to the Unix epoch.
    pub modified: int,
}

/// A flat directory: base name to entry.
pub type Dir = Map<Seq<char>, Node>;

/// What a source listing holds: each entry's base name and what it is.
pub type Listing = Seq<(Seq<char>, Node)>;

/// What became of the copy of one entry, had it been attempted.
pub enum CopyOutcome {
    /// The copy went through; the destination file now has this modification
    /// time (the copy's own time, or the source's where the platform keeps it).
    Copied { modified: int },
    /// The copy failed, leaving the destination entry as given (possibly
    /// partly written, or gone).
    Failed { left: Option<Node> },
}

pub open spec fn lookup(d: Dir, name: Seq<char>) -> Option<Node> {
    if d.contains_key(name) {
        Some(d[name])
    } else {
        None
    }
}

/// A source entry is copied when it is a file that the destination lacks, or
/// that is strictly newer than the destination's entry of the same name.
pub open spec fn eligible(s: Node, d: Option<Node>) -> bool {
    !s.is_dir && match d {
        None => true,
        Some(x) => s.modified > x.modified,
    }
}

/// The destination after handling one source entry.
pub open spec fn apply_entry(dst: Dir, name: Seq<char>, s: Node, out: CopyOutcome) -> Dir {
    if !eligible(s, lookup(dst, name)) {
        dst
    } else {
        match out {
            CopyOutcome::Copied { modified } => dst.insert(
                name,
                Node { is_dir: false, content: s.content, modified },
            ),
            CopyOutcome::Failed { left } => match left {
                Some(x) => dst.insert(name, x),
                None => dst.remove(name),
            },
        }
    }
}

/// The destination after handling the first `n` entries of the listing, in
/// order, each with its own outcome.
pub open spec fn run_prefix(listing: Listing, outs: Seq<CopyOutcome>, dst: Dir, n: int) -> Dir
    decreases n,
{
    if n <= 0 {
        dst
    } else {
        apply_entry(
            run_prefix(listing, outs, dst, n - 1),
            listing[n - 1].0,
            listing[n - 1].1,
            outs[n - 1],
        )
    }
}

/// The destination after a whole pass.
pub open spec fn run_pass(listing: Listing, outs: Seq<CopyOutcome>, dst: Dir) -> Dir {
    run_prefix(listing, outs, dst, listing.len() as int)
}

/// A directory listing names each entry once.
pub open spec fn names_distinct(listing: Listing) -> bool {
    forall|i: int, j: int|
        0 <= i < listing.len() && 0 <= j < listing.len() && i != j
            ==> #[trigger] listing[i].0 != #[trigger] listing[j].0
}

/// One outcome per entry; a copy that went through leaves the destination
/// at least as new as the source.
pub open spec fn outcomes_valid(listing: Listing, outs: Seq<CopyOutcome>) -> bool {
    &&& outs.len() == listing.len()
    &&& forall|i: int|
        0 <= i < listing.len() ==> match #[trigger] outs[i] {
            CopyOutcome::Copied { modified } => modified >= listing[i].1.modified,
            CopyOutcome::Failed { .. } => true,
        }
}

/// A probe is a faithful observation of a source entry and of the
/// destination's entry of the same name, as far as it could read them.
pub open spec fn probe_describes(p: EntryProbe, name: Seq<char>, s: Node, d: Option<Node>) -> bool {
    &&& p.name@ == name
    &&& p.is_dir == s.is_dir
    &&& (p.dest is Absent <==> d is None)
    &&& match p.source_modified {
        Some(t) => t@ == s.modified,
        None => true,
    }
    &&& match (p.dest, d) {
        (DestProbe::Present(Some(t)), Some(x)) => t@ == x.modified,
        _ => true,
    }
}

proof fn lemma_untouched(listing: Listing, outs: Seq<CopyOutcome>, dst: Dir, n: int, name: Seq<char>)
    requires
        0 <= n <= listing.len(),
        forall|j: int| 0 <= j < n ==> #[trigger] listing[j].0 != name,
    ensures
        lookup(run_prefix(listing, outs, dst, n), name) == lookup(dst, name),
    decreases n,
{
    if n > 0 {
        lemma_untouched(listing, outs, dst, n - 1, name);
        let prev = run_prefix(listing, outs, dst, n - 1);
        assert(listing[n - 1].0 != name);
        assert(lookup(apply_entry(prev, listing[n - 1].0, listing[n - 1].1, outs[n - 1]), name)
            == lookup(prev, name));
    }
}

proof fn lemma_apply_local(a: Dir, b: Dir, name: Seq<char>, s: Node, out: CopyOutcome)
    requires
        lookup(a, name) == lookup(b, name),
    ensures
        lookup(apply_entry(a, name, s, out), name) == lookup(apply_entry(b, name, s, out), name),
{
}

/// What a pass leaves under the name of entry `i` is what handling that entry
/// alone would leave: earlier and later entries do not reach it.
proof fn lemma_entry(listing: Listing, outs: Seq<CopyOutcome>, dst: Dir, n: int, i: int)
    requires
        names_distinct(listing),
        0 <= i < n <= listing.len(),
    ensures
        lookup(run_prefix(listing, outs, dst, n), listing[i].0)
            == lookup(apply_entry(dst, listing[i].0, listing[i].1, outs[i]), listing[i].0),
    decreases n,
{
    let name = listing[i].0;
    let prev = run_prefix(listing, outs, dst, n - 1);
    if n - 1 == i {
        assert forall|j: int| 0 <= j < i implies #[trigger] listing[j].0 != name by {
            assert(listing[j].0 != listing[i].0);
        }
        lemma_untouched(listing, outs, dst, i, name);
        lemma_apply_local(prev, dst, name, listing[i].1, outs[i]);
    } else {
        lemma_entry(listing, outs, dst, n - 1, i);
        assert(listing[n - 1].0 != listing[i].0);
        assert(lookup(apply_entry(prev, listing[n - 1].0, listing[n - 1].1, outs[n - 1]), name)
            == lookup(prev, name));
    }
}

/// A file of the source that the destination lacks is, after a pass in which
/// its own copy went through, in the destination as a file with the same content.
pub proof fn lemma_copy_on_absence(listing: Listing, outs: Seq<CopyOutcome>, before: Dir, i: int)
    requires
        names_distinct(listing),
        outcomes_valid(listing, outs),
        0 <= i < listing.len(),
        !listing[i].1.is_dir,
        !before.contains_key(listing[i].0),
        outs[i] is Copied,
    ensures
        run_pass(listing, outs, before).contains_key(listing[i].0),
        !run_pass(listing, outs, before)[listing[i].0].is_dir,
        run_pass(listing, outs, before)[listing[i].0].content == listing[i].1.content,
{
    lemma_entry(listing, outs, before, listing.len() as int, i);
}

/// A file present on both sides is overwritten with the source's content when
/// the source is strictly newer and its copy went through, and is left exactly
/// as it was when the source is as old or older.
pub proof fn lemma_freshness_gated_overwrite(
    listing: Listing,
    outs: Seq<CopyOutcome>,
    before: Dir,
    i: int,
)
    requires
        names_distinct(listing),
        outcomes_valid(listing, outs),
        0 <= i < listing.len(),
        !listing[i].1.is_dir,
        before.contains_key(listing[i].0),
    ensures
        listing[i].1.modified > before[listing[i].0].modified && outs[i] is Copied ==> {
            &&& run_pass(listing, outs, before).contains_key(listing[i].0)
            &&& run_pass(listing, outs, before)[listing[i].0].content == listing[i].1.content
        },
        listing[i].1.modified <= before[listing[i].0].modified ==> lookup(
            run_pass(listing, outs, before),
            listing[i].0,
        ) == lookup(before, listing[i].0),
{
    lemma_entry(listing, outs, before, listing.len() as int, i);
}

/// A subdirectory of the source is never created in, or copied over, the
/// destination: what the destination holds under its name stays as it was.
pub proof fn lemma_no_recursion(listing: Listing, outs: Seq<CopyOutcome>, before: Dir, i: int)
    requires
        names_distinct(listing),
        outcomes_valid(listing, outs),
        0 <= i < listing.len(),
        listing[i].1.is_dir,
    ensures
        lookup(run_pass(listing, outs, before), listing[i].0) == lookup(before, listing[i].0),
{
    lemma_entry(listing, outs, before, listing.len() as int, i);
}

/// A pass touches no name that the source does not list.
pub proof fn lemma_unlisted_untouched(listing: Listing, outs: Seq<CopyOutcome>, before: Dir, name: Seq<char>)
    requires
        outcomes_valid(listing, outs),
        forall|j: int| 0 <= j < listing.len() ==> #[trigger] listing[j].0 != name,
    ensures
        lookup(run_pass(listing, outs, before), name) == lookup(before, name),
{
    lemma_untouched(listing, outs, before, listing.len() as int, name);
}

/// Once a pass has run without a failed copy, a second pass over the same
/// source changes nothing, whatever the outcomes it is handed.
pub proof fn lemma_idempotent(listing: Listing, first: Seq<CopyOutcome>, second: Seq<CopyOutcome>, before: Dir)
    requires
        names_distinct(listing),
        outcomes_valid(listing, first),
        outcomes_valid(listing, second),
        forall|i: int| 0 <= i < listing.len() ==> !(#[trigger] first[i] is Failed),
    ensures
        run_pass(listing, second, run_pass(listing, first, before)) == run_pass(listing, first, before),
{
    let mid = run_pass(listing, first, before);
    assert forall|i: int| 0 <= i < listing.len() implies !eligible(
        #[trigger] listing[i].1,
        lookup(mid, listing[i].0),
    ) by {
        lemma_entry(listing, first, before, listing.len() as int, i);
        assert(!(first[i] is Failed));
    }
    lemma_stable(listing, second, mid, listing.len() as int);
}

proof fn lemma_stable(listing: Listing, outs: Seq<CopyOutcome>, dst: Dir, n: int)
    requires
        0 <= n <= listing.len(),
        forall|i: int| 0 <= i < listing.len() ==> !eligible(#[trigger] listing[i].1, lookup(dst, listing[i].0)),
    ensures
        run_prefix(listing, outs, dst, n) == dst,
    decreases n,
{
    if n > 0 {
        lemma_stable(listing, outs, dst, n - 1);
        assert(!eligible(listing[n - 1].1, lookup(dst, listing[n - 1].0)));
    }
}

/// A failed copy does not spoil the others: every file whose copy went
/// through ends up in the destination exactly as copied, whatever became of
/// the other entries of the same pass.
pub proof fn lemma_failures_isolated(listing: Listing, outs: Seq<CopyOutcome>, before: Dir, i: int)
    requires
        names_distinct(listing),
        outcomes_valid(listing, outs),
        0 <= i < listing.len(),
        eligible(listing[i].1, lookup(before, listing[i].0)),
        outs[i] is Copied,
    ensures
        run_pass(listing, outs, before).contains_key(listing[i].0),
        run_pass(listing, outs, before)[listing[i].0] == (Node {
            is_dir: false,
            content: listing[i].1.content,
            modified: outs[i]->Copied_modified,
        }),
{
    lemma_entry(listing, outs, before, listing.len() as int, i);
}

/// The copy rule applied to a faithful probe agrees with the model: it copies
/// only eligible entries, skips only ineligible ones, and falls short of the
/// model only where a modification time could not be read.
pub proof fn lemma_decision_matches_model(p: EntryProbe, name: Seq<char>, s: Node, d: Option<Node>)
    requires
        probe_describes(p, name, s, d),
    ensures
        decision_for(p).is_copy() ==> eligible(s, d),
        decision_for(p) is SkipDirectory || decision_for(p) is UpToDate ==> !eligible(s, d),
        eligible(s, d) ==> decision_for(p).is_copy() || decision_for(p) is MetadataUnreadable,
        decision_for(p) is MetadataUnreadable ==> p.source_modified is None || p.dest == DestProbe::Present(None),
{
}

} // verus!
