//! Copying paths out of a container without the engine's copy ever writing
//! into the real destination: each path is copied into a fresh staging
//! location, then its files are moved into place.
use vstd::prelude::*;
use vstd::string::StrSliceExecFns;

use crate::engine::{run_quiet, quiet_spec, running_after, unit_result, without_output, Invocation, Outcome};
use crate::text::{concat, concat3};

verus! {

/// `rel` appended to `base` as a path: an absolute `rel` replaces `base`, and a
/// separator is put between the two unless `base` is empty or already ends in one.
pub open spec fn join_spec(base: Seq<char>, rel: Seq<char>) -> Seq<char> {
    if rel.len() > 0 && rel[0] == '/' {
        rel
    } else if base.len() > 0 && base.last() != '/' {
        base + seq!['/'] + rel
    } else {
        base + rel
    }
}

/// Appends `rel` to the path `base`.
pub fn join(base: &str, rel: &str) -> (r: String)
    ensures
        r@ == join_spec(base@, rel@),
{
    let rel_absolute = rel.unicode_len() > 0 && rel.get_char(0) == '/';
    if rel_absolute {
        rel.to_owned()
    } else {
        let n = base.unicode_len();
        let needs_separator = n > 0 && base.get_char(n - 1) != '/';
        if needs_separator {
            proof {
                reveal_strlit("/");
            }
            concat3(base, "/", rel)
        } else {
            concat(base, rel)
        }
    }
}


/// The path without its final component; none for a root or an empty path.
pub uninterp spec fn parent_of(p: Seq<char>) -> Option<Seq<char>>;

pub open spec fn option_text(o: Option<String>) -> Option<Seq<char>> {
    match o {
        Some(s) => Some(s@),
        None => None,
    }
}

/// Relies on `Path::parent`: its result depends on the path alone.
#[verifier::external_body]
fn parent(p: &str) -> (r: Option<String>)
    ensures
        option_text(r) == parent_of(p@),
{
    match std::path::Path::new(p).parent() {
        Some(q) => Some(q.to_string_lossy().into_owned()),
        None => None,
    }
}

/// Where one requested path comes from and goes to.
pub struct TransferPlan {
    /// The path inside the container.
    pub source: String,
    /// Where the engine copies it: a name inside a freshly made empty directory.
    pub staging: String,
    /// The path on the host.
    pub destination: String,
}

/// Plans the copy of `path` from under `source_dir` in the container to under
/// `destination_dir` on the host, staged inside the new empty directory `temp_dir`.
pub fn plan_transfer(path: &str, source_dir: &str, temp_dir: &str, destination_dir: &str) -> (r:
    TransferPlan)
    ensures
        r.source@ == join_spec(source_dir@, path@),
        r.staging@ == join_spec(temp_dir@, "data"@),
        r.destination@ == join_spec(destination_dir@, path@),
{
    TransferPlan {
        source: join(source_dir, path),
        staging: join(temp_dir, "data"),
        destination: join(destination_dir, path),
    }
}

pub const COPY_OUT_MESSAGE: &'static str = "Copying files from the container...";

pub const COPY_OUT_ERROR: &'static str = "Unable to copy files from the container.";

/// The engine command that copies the plan's source into its staging path.
pub fn copy_out_invocation(container: &str, plan: &TransferPlan) -> (r: Invocation)
    ensures
        r.spinner matches Some(m) && m@ == COPY_OUT_MESSAGE@,
        r.args@.len() == 4,
        r.args@[0]@ == "container"@,
        r.args@[1]@ == "cp"@,
        r.args@[2]@ == container@ + ":"@ + plan.source@,
        r.args@[3]@ == plan.staging@,
{
    let mut args: Vec<String> = Vec::new();
    args.push("container".to_owned());
    args.push("cp".to_owned());
    args.push(concat3(container, ":", plan.source.as_str()));
    args.push(plan.staging.clone());
    Invocation { spinner: Some(COPY_OUT_MESSAGE.to_owned()), args }
}

/// Decides the engine's copy of one path out of the container.
pub fn copy_from_container(outcome: Outcome, running: &mut bool) -> (r: Result<(), String>)
    ensures
        unit_result(r) == without_output(quiet_spec(COPY_OUT_ERROR@, outcome)),
        *final(running) == running_after(*old(running), outcome),
{
    match run_quiet(COPY_OUT_ERROR, outcome, running) {
        Ok(_) => Ok(()),
        Err(e) => Err(e),
    }
}

/// One entry of a staged directory tree, met in a walk from its root (whose
/// relative path is empty).
pub struct StagedEntry {
    /// The entry's path relative to the staged root.
    pub relative: String,
    pub is_dir: bool,
}

/// What the engine's copy left at the staging path.
pub enum Staged {
    File,
    Dir { entries: Vec<StagedEntry> },
}

/// One change to the host's filesystem.
pub enum FsAction {
    /// Create a directory and any missing parents.
    CreateDir { path: String },
    /// Move a file.
    Move { from: String, to: String },
}

/// A filesystem change, over plain paths.
pub enum FsStep {
    CreateDir(Seq<char>),
    Move(Seq<char>, Seq<char>),
}

impl View for FsAction {
    type V = FsStep;

    open spec fn view(&self) -> FsStep {
        match self {
            FsAction::CreateDir { path } => FsStep::CreateDir(path@),
            FsAction::Move { from, to } => FsStep::Move(from@, to@),
        }
    }
}

pub open spec fn steps(v: Seq<FsAction>) -> Seq<FsStep> {
    v.map_values(|a: FsAction| a@)
}

/// The change for one entry of a staged tree: its directories are made at the
/// destination and its files moved to the same relative place there.
pub open spec fn entry_step(staging: Seq<char>, destination: Seq<char>, e: StagedEntry) -> FsStep {
    if e.is_dir {
        FsStep::CreateDir(join_spec(destination, e.relative@))
    } else {
        FsStep::Move(join_spec(staging, e.relative@), join_spec(destination, e.relative@))
    }
}

/// The changes that put what was staged in place: a file is moved onto the
/// destination once its parent exists; a tree is mirrored entry by entry.
pub open spec fn relocation_spec(staging: Seq<char>, destination: Seq<char>, staged: Staged) -> Seq<
    FsStep,
> {
    match staged {
        Staged::File => match parent_of(destination) {
            Some(d) => seq![FsStep::CreateDir(d), FsStep::Move(staging, destination)],
            None => seq![FsStep::Move(staging, destination)],
        },
        Staged::Dir { entries } => Seq::new(
            entries@.len(),
            |i: int| entry_step(staging, destination, entries@[i]),
        ),
    }
}

/// The changes that move what the engine staged for `plan` into its destination.
pub fn relocation(plan: &TransferPlan, staged: &Staged) -> (r: Vec<FsAction>)
    ensures
        steps(r@) == relocation_spec(plan.staging@, plan.destination@, *staged),
{
    let mut r: Vec<FsAction> = Vec::new();
    match staged {
        Staged::File => {
            match parent(plan.destination.as_str()) {
                Some(d) => r.push(FsAction::CreateDir { path: d }),
                None => {},
            }
            r.push(FsAction::Move { from: plan.staging.clone(), to: plan.destination.clone() });
        },
        Staged::Dir { entries } => {
            let mut i: usize = 0;
            while i < entries.len()
                invariant
                    i <= entries@.len(),
                    steps(r@) == Seq::new(
                        i as nat,
                        |j: int| entry_step(plan.staging@, plan.destination@, entries@[j]),
                    ),
                decreases entries@.len() - i,
            {
                let e = &entries[i];
                let to = join(plan.destination.as_str(), e.relative.as_str());
                let action = if e.is_dir {
                    FsAction::CreateDir { path: to }
                } else {
                    FsAction::Move { from: join(plan.staging.as_str(), e.relative.as_str()), to }
                };
                assert(action@ == entry_step(plan.staging@, plan.destination@, entries@[i as int]));
                let ghost prev = r@;
                r.push(action);
                assert(steps(r@) =~= steps(prev).push(action@));
                i = i + 1;
                assert(steps(r@) =~= Seq::new(
                    i as nat,
                    |j: int| entry_step(plan.staging@, plan.destination@, entries@[j]),
                ));
            }
        },
    }
    proof {
        assert(steps(r@) =~= relocation_spec(plan.staging@, plan.destination@, *staged));
    }
    r
}

/// Where a change leaves something: a directory, or the file moved there.
pub open spec fn placed(s: FsStep) -> (bool, Seq<char>) {
    match s {
        FsStep::CreateDir(p) => (true, p),
        FsStep::Move(_, to) => (false, to),
    }
}

/// What ends up where on the host after putting a staged copy in place.
pub open spec fn placements(v: Seq<FsStep>) -> Seq<(bool, Seq<char>)> {
    v.map_values(|s: FsStep| placed(s))
}

/// The copy out is idempotent: what is placed on the host, and where, depends on
/// the destination and on what the engine staged, never on the staging location,
/// so a second run (into a second fresh staging location) places the same tree
/// at the same paths. Each staged entry lands at the destination joined with its
/// path relative to the staged root, so the copied directory is never nested
/// inside a destination that already exists.
pub proof fn lemma_copy_out_idempotent(
    staging1: Seq<char>,
    staging2: Seq<char>,
    destination: Seq<char>,
    staged: Staged,
)
    ensures
        placements(relocation_spec(staging1, destination, staged)) == placements(
            relocation_spec(staging2, destination, staged),
        ),
        staged matches Staged::Dir { entries } ==> forall|i: int|
            0 <= i < entries@.len() ==> #[trigger] placements(
                relocation_spec(staging1, destination, staged),
            )[i] == (entries@[i].is_dir, join_spec(destination, entries@[i].relative@)),
{
    assert(placements(relocation_spec(staging1, destination, staged)) =~= placements(
        relocation_spec(staging2, destination, staged),
    ));
}


/// A node of a host directory tree: a directory, or a file with its bytes.
pub enum Node {
    Dir,
    File(Seq<u8>),
}

/// A host directory tree, by path.
pub type Tree = Map<Seq<char>, Node>;

/// The tree after one change: a directory is made (or kept), and a moved file
/// leaves its old path for its new one, over whatever stood there; a move of
/// a path that does not exist changes nothing.
pub open spec fn apply_step(t: Tree, s: FsStep) -> Tree {
    match s {
        FsStep::CreateDir(p) => t.insert(p, Node::Dir),
        FsStep::Move(from, to) => if t.contains_key(from) {
            t.remove(from).insert(to, t[from])
        } else {
            t
        },
    }
}

/// The tree after the changes, in order.
pub open spec fn apply_steps(t: Tree, v: Seq<FsStep>) -> Tree
    decreases v.len(),
{
    if v.len() == 0 {
        t
    } else {
        apply_step(apply_steps(t, v.drop_last()), v.last())
    }
}

pub open spec fn is_relative(p: Seq<char>) -> bool {
    !(p.len() > 0 && p[0] == '/')
}

/// What a staged tree's entry should become at the destination.
pub open spec fn mirrored(staging: Seq<char>, e: StagedEntry, before: Tree) -> Node {
    if e.is_dir {
        Node::Dir
    } else {
        before[join_spec(staging, e.relative@)]
    }
}

proof fn lemma_join_injective(base: Seq<char>, r1: Seq<char>, r2: Seq<char>)
    requires
        is_relative(r1),
        is_relative(r2),
        join_spec(base, r1) == join_spec(base, r2),
    ensures
        r1 == r2,
{
    let prefix = if base.len() > 0 && base.last() != '/' {
        base + seq!['/']
    } else {
        base
    };
    assert(join_spec(base, r1) == prefix + r1);
    assert(join_spec(base, r2) == prefix + r2);
    assert((prefix + r1).subrange(prefix.len() as int, (prefix + r1).len() as int) =~= r1);
    assert((prefix + r2).subrange(prefix.len() as int, (prefix + r2).len() as int) =~= r2);
}

/// The conditions under which a staged tree is put in place: the walk gave
/// distinct relative paths, every staged file is there, and the staging
/// location shares no path with the destination.
pub open spec fn tree_can_be_placed(
    staging: Seq<char>,
    destination: Seq<char>,
    entries: Seq<StagedEntry>,
    before: Tree,
) -> bool {
    &&& forall|i: int| 0 <= i < entries.len() ==> is_relative(#[trigger] entries[i].relative@)
    &&& forall|i: int, j: int|
        0 <= i < entries.len() && 0 <= j < entries.len() && i != j ==> #[trigger] entries[i].relative@
            != #[trigger] entries[j].relative@
    &&& forall|i: int|
        0 <= i < entries.len() && !(#[trigger] entries[i]).is_dir ==> before.contains_key(
            join_spec(staging, entries[i].relative@),
        )
    &&& forall|i: int, j: int|
        0 <= i < entries.len() && 0 <= j < entries.len() ==> join_spec(
            destination,
            #[trigger] entries[i].relative@,
        ) != join_spec(staging, #[trigger] entries[j].relative@)
}

proof fn lemma_tree_prefix(
    staging: Seq<char>,
    destination: Seq<char>,
    entries: Seq<StagedEntry>,
    before: Tree,
    k: int,
)
    requires
        tree_can_be_placed(staging, destination, entries, before),
        0 <= k <= entries.len(),
    ensures
        ({
            let v = Seq::new(entries.len(), |i: int| entry_step(staging, destination, entries[i]));
            let after = apply_steps(before, v.take(k));
            &&& forall|j: int|
                0 <= j < k ==> after.contains_key(join_spec(destination, #[trigger] entries[j].relative@))
                    && after[join_spec(destination, entries[j].relative@)] == mirrored(
                    staging,
                    entries[j],
                    before,
                )
            &&& forall|j: int|
                k <= j < entries.len() && !(#[trigger] entries[j]).is_dir ==> after.contains_key(
                    join_spec(staging, entries[j].relative@),
                ) && after[join_spec(staging, entries[j].relative@)] == before[join_spec(
                    staging,
                    entries[j].relative@,
                )]
        }),
    decreases k,
{
    let v = Seq::new(entries.len(), |i: int| entry_step(staging, destination, entries[i]));
    if k > 0 {
        lemma_tree_prefix(staging, destination, entries, before, k - 1);
        let prev = apply_steps(before, v.take(k - 1));
        assert(v.take(k).drop_last() =~= v.take(k - 1));
        assert(v.take(k).last() == v[k - 1]);
        let e = entries[k - 1];
        let t = join_spec(destination, e.relative@);
        let src = join_spec(staging, e.relative@);
        let after = apply_steps(before, v.take(k));
        assert(after == apply_step(prev, v[k - 1]));
        assert forall|j: int| 0 <= j < k - 1 implies join_spec(destination, #[trigger] entries[j].relative@) != t
            && join_spec(destination, entries[j].relative@) != src by {
            if join_spec(destination, entries[j].relative@) == t {
                lemma_join_injective(destination, entries[j].relative@, e.relative@);
            }
        }
        assert forall|j: int| k <= j < entries.len() implies join_spec(staging, #[trigger] entries[j].relative@) != src
            && join_spec(staging, entries[j].relative@) != t by {
            if join_spec(staging, entries[j].relative@) == src {
                lemma_join_injective(staging, entries[j].relative@, e.relative@);
            }
        }
    }
}

/// A staged tree is mirrored at the destination: once its changes are made,
/// every entry of the walk stands at the destination joined with its relative
/// path, a directory as a directory and a file with the bytes that were
/// staged, nested directories included and whatever stood there before
/// replaced. The result does not depend on the staging location or on an
/// earlier copy at the destination, so a retry gives the same tree, never a
/// copy nested inside the first.
pub proof fn lemma_tree_mirrored(
    staging: Seq<char>,
    destination: Seq<char>,
    entries: Vec<StagedEntry>,
    before: Tree,
)
    requires
        tree_can_be_placed(staging, destination, entries@, before),
    ensures
        ({
            let after = apply_steps(
                before,
                relocation_spec(staging, destination, Staged::Dir { entries }),
            );
            forall|i: int|
                0 <= i < entries@.len() ==> after.contains_key(
                    join_spec(destination, #[trigger] entries@[i].relative@),
                ) && after[join_spec(destination, entries@[i].relative@)] == mirrored(
                    staging,
                    entries@[i],
                    before,
                )
        }),
{
    let es = entries@;
    let v = Seq::new(es.len(), |i: int| entry_step(staging, destination, es[i]));
    lemma_tree_prefix(staging, destination, es, before, es.len() as int);
    assert(v.take(es.len() as int) =~= v);
    assert(relocation_spec(staging, destination, Staged::Dir { entries }) =~= v);
}

/// A staged file is put in place: once its changes are made, the destination
/// holds the staged bytes, whatever stood there before, wherever it was staged.
pub proof fn lemma_file_placed(staging: Seq<char>, destination: Seq<char>, bytes: Seq<u8>, before: Tree)
    requires
        before.contains_key(staging),
        before[staging] == Node::File(bytes),
        parent_of(destination) != Some(staging),
    ensures
        ({
            let after = apply_steps(before, relocation_spec(staging, destination, Staged::File));
            after.contains_key(destination) && after[destination] == Node::File(bytes)
        }),
{
    let v = relocation_spec(staging, destination, Staged::File);
    let mv = FsStep::Move(staging, destination);
    match parent_of(destination) {
        Some(d) => {
            let first = seq![FsStep::CreateDir(d)];
            assert(v.drop_last() =~= first);
            assert(first.drop_last() =~= Seq::<FsStep>::empty());
            assert(apply_steps(before, Seq::<FsStep>::empty()) == before);
            let mid = apply_steps(before, first);
            assert(mid == before.insert(d, Node::Dir));
            assert(mid.contains_key(staging) && mid[staging] == before[staging]);
            assert(apply_steps(before, v) == apply_step(mid, mv));
        },
        None => {
            assert(v.drop_last() =~= Seq::<FsStep>::empty());
            assert(apply_steps(before, Seq::<FsStep>::empty()) == before);
            assert(apply_steps(before, v) == apply_step(before, mv));
        },
    }
}

} // verus!
