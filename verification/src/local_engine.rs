//! The local copy engine's decisions: what to do about a conflicting
//! destination, and what name a renamed file gets. Touching the disk is the
//! caller's business; it hands in the directory's existing names and carries
//! the returned plan out.

use vstd::prelude::*;
use crate::config::GlobalConflictResolution;
use crate::copy_engine::CopyOptions;
use crate::device_detector::DeviceMonitor;
use crate::device_queue::{
    conflict_decision_spec, ConflictDecision, ConflictResolutionResult, TransferJob,
};
use crate::text::{dec_rep, ext_of, split_name, stem_of, str_eq};

verus! {

/// The highest rename counter tried before falling back to a timestamp.
pub const MAX_RENAME_ATTEMPTS: u64 = 1000;

/// Whether `name` occurs among the existing names.
pub open spec fn taken(existing: Seq<String>, name: Seq<char>) -> bool {
    exists|i: int| 0 <= i < existing.len() && existing[i]@ == name
}

/// The rename candidate `stem (k).ext` (the dot and extension only when the
/// name has one).
pub open spec fn candidate_name(stem: Seq<char>, ext: Option<Seq<char>>, k: nat) -> Seq<char> {
    let base = stem + seq![' ', '('] + dec_rep(k) + seq![')'];
    match ext {
        Some(e) => base + seq!['.'] + e,
        None => base,
    }
}

/// The timestamped fallback `stem_copy_ts.ext`.
pub open spec fn fallback_name(stem: Seq<char>, ext: Option<Seq<char>>, ts: nat) -> Seq<char> {
    let base = stem + seq!['_', 'c', 'o', 'p', 'y', '_'] + dec_rep(ts);
    match ext {
        Some(e) => base + seq!['.'] + e,
        None => base,
    }
}

/// The smallest counter in `k ..= 1000` whose candidate is free, or `0` when
/// every one is taken.
pub open spec fn first_free_counter(
    stem: Seq<char>,
    ext: Option<Seq<char>>,
    existing: Seq<String>,
    k: nat,
) -> nat
    decreases 1001 - k,
    when k <= 1001
{
    if k > 1000 {
        0
    } else if !taken(existing, candidate_name(stem, ext, k)) {
        k
    } else {
        first_free_counter(stem, ext, existing, k + 1)
    }
}

/// The unique name chosen for a colliding `name`: the lowest free counter's
/// candidate, or, when the first thousand are all taken, the timestamped
/// fallback.
pub open spec fn unique_name_spec(name: Seq<char>, existing: Seq<String>, ts: nat) -> Seq<char> {
    let stem = stem_of(name);
    let ext = ext_of(name);
    let f = first_free_counter(stem, ext, existing, 1);
    if f >= 1 {
        candidate_name(stem, ext, f)
    } else {
        fallback_name(stem, ext, ts)
    }
}

/// A positive search result names a free candidate, and every counter below
/// it a taken one.
proof fn lemma_first_free_counter(
    stem: Seq<char>,
    ext: Option<Seq<char>>,
    existing: Seq<String>,
    k: nat,
)
    requires
        1 <= k <= 1001,
    ensures
        ({
            let f = first_free_counter(stem, ext, existing, k);
            &&& f >= 1 ==> k <= f <= 1000 && !taken(existing, candidate_name(stem, ext, f))
            &&& f >= 1 ==> forall|j: nat|
                k <= j < f ==> taken(existing, #[trigger] candidate_name(stem, ext, j))
            &&& f == 0 ==> forall|j: nat|
                k <= j <= 1000 ==> taken(existing, #[trigger] candidate_name(stem, ext, j))
        }),
    decreases 1001 - k,
{
    if k <= 1000 && taken(existing, candidate_name(stem, ext, k)) {
        lemma_first_free_counter(stem, ext, existing, k + 1);
    }
}

/// Whether `name` is among `existing`.
pub fn contains_name(existing: &Vec<String>, name: &str) -> (r: bool)
    ensures
        r == taken(existing@, name@),
{
    let n = existing.len();
    let mut i: usize = 0;
    while i < n
        invariant
            0 <= i <= n,
            n == existing@.len(),
            forall|j: int| 0 <= j < i ==> existing@[j]@ != name@,
        decreases n - i,
    {
        if str_eq(existing[i].as_str(), name) {
            proof {
                assert(existing@[i as int]@ == name@);
            }
            return true;
        }
        i = i + 1;
    }
    false
}

/// Builds `stem (k)` or `stem (k).ext`.
fn make_candidate(stem: &str, ext: &Option<String>, k: u64) -> (r: String)
    requires
        k >= 1,
    ensures
        r@ == candidate_name(
            stem@,
            match ext {
                Some(e) => Some(e@),
                None => None,
            },
            k as nat,
        ),
{
    proof {
        reveal_strlit(" (");
        reveal_strlit(")");
        reveal_strlit(".");
    }
    let mut s = String::from_str(stem);
    s.append(" (");
    crate::text::push_dec(k, &mut s);
    s.append(")");
    match ext {
        Some(e) => {
            s.append(".");
            s.append(e.as_str());
            proof {
                assert(s@ =~= candidate_name(stem@, Some(e@), k as nat));
            }
        }
        None => {
            proof {
                assert(s@ =~= candidate_name(stem@, None, k as nat));
            }
        }
    }
    s
}

/// Builds `stem_copy_ts` or `stem_copy_ts.ext`.
fn make_fallback(stem: &str, ext: &Option<String>, ts: u64) -> (r: String)
    ensures
        r@ == fallback_name(
            stem@,
            match ext {
                Some(e) => Some(e@),
                None => None,
            },
            ts as nat,
        ),
{
    proof {
        reveal_strlit("_copy_");
        reveal_strlit(".");
    }
    let mut s = String::from_str(stem);
    s.append("_copy_");
    crate::text::push_dec(ts, &mut s);
    match ext {
        Some(e) => {
            s.append(".");
            s.append(e.as_str());
            proof {
                assert(s@ =~= fallback_name(stem@, Some(e@), ts as nat));
            }
        }
        None => {
            proof {
                assert(s@ =~= fallback_name(stem@, None, ts as nat));
            }
        }
    }
    s
}

/// What a conflicted copy of one item comes down to, for the caller to carry
/// out against the file system.
pub enum CopyPlan {
    /// Copy to the destination; with `overwrite`, an existing file there is
    /// replaced.
    CopyTo { destination: String, overwrite: bool },
    /// Leave the item out.
    SkipItem,
    /// Copy the new file under a fresh name, leaving the old file alone.
    CopyToRenamed { new_destination: String },
    /// Move the old file to a fresh name, then copy to the destination.
    RenameOldThenCopy { renamed_old: String, destination: String },
    /// The decision authority must be consulted before anything is done.
    NeedDecision,
    /// The item cannot proceed: unresolved or cancelled.
    AbortItem,
}

/// Carries the engine's copy options; the file system work on its plans is
/// the caller's.
pub struct LocalCopyEngine {
    pub options: CopyOptions,
}

/// The engine together with what it watches.
pub struct LocalCopySystem {
    pub engine: LocalCopyEngine,
    pub device_manager: DeviceMonitor,
    pub options: CopyOptions,
}

impl LocalCopyEngine {
    pub fn new(options: CopyOptions) -> (r: Self)
        ensures
            r.options == options,
    {
        Self { options }
    }

    /// A name for `original` that none of `existing` holds: the candidate of
    /// the lowest free counter up to a thousand, else the timestamped
    /// fallback.
    pub fn generate_unique_filename(
        &self,
        original: &str,
        existing: &Vec<String>,
        timestamp_s: u64,
    ) -> (r: String)
        ensures
            r@ == unique_name_spec(original@, existing@, timestamp_s as nat),
    {
        let (stem_s, ext) = split_name(original);
        let stem = stem_s.as_str();
        let ghost gstem = stem_of(original@);
        let ghost gext = ext_of(original@);
        let mut k: u64 = 1;
        while k <= MAX_RENAME_ATTEMPTS
            invariant
                1 <= k <= MAX_RENAME_ATTEMPTS + 1,
                gstem == stem_of(original@),
                gext == ext_of(original@),
                stem@ == gstem,
                (match ext {
                    Some(e) => gext == Some(e@),
                    None => gext is None,
                }),
                first_free_counter(gstem, gext, existing@, 1) == first_free_counter(
                    gstem,
                    gext,
                    existing@,
                    k as nat,
                ),
            decreases MAX_RENAME_ATTEMPTS + 1 - k,
        {
            let cand = make_candidate(stem, &ext, k);
            if !contains_name(existing, cand.as_str()) {
                proof {
                    assert(first_free_counter(gstem, gext, existing@, k as nat) == k as nat);
                }
                return cand;
            }
            proof {
                assert(first_free_counter(gstem, gext, existing@, k as nat)
                    == first_free_counter(gstem, gext, existing@, (k + 1) as nat));
            }
            k = k + 1;
        }
        proof {
            assert(first_free_counter(gstem, gext, existing@, k as nat) == 0);
        }
        make_fallback(stem, &ext, timestamp_s)
    }

    /// Turns one settled resolution into a plan against the file system.
    /// Renames get a name that `generate_unique_filename` chose.
    pub fn plan_for_resolution(
        &self,
        resolution: &ConflictResolutionResult,
        dest_name: &str,
        existing: &Vec<String>,
        timestamp_s: u64,
    ) -> (r: CopyPlan)
        ensures
            resolution is Overwrite ==> (r matches CopyPlan::CopyTo { destination, overwrite }
                && destination@ == dest_name@ && overwrite),
            resolution is Skip ==> r is SkipItem,
            resolution is RenameNew ==> (r matches CopyPlan::CopyToRenamed { new_destination }
                && new_destination@ == unique_name_spec(dest_name@, existing@, timestamp_s as nat)),
            resolution is RenameOld ==> (r matches CopyPlan::RenameOldThenCopy {
                renamed_old,
                destination,
            } && renamed_old@ == unique_name_spec(dest_name@, existing@, timestamp_s as nat)
                && destination@ == dest_name@),
            resolution is Ask ==> r is AbortItem,
            resolution is Cancelled ==> r is AbortItem,
    {
        match resolution {
            ConflictResolutionResult::Overwrite => CopyPlan::CopyTo {
                destination: String::from_str(dest_name),
                overwrite: true,
            },
            ConflictResolutionResult::Skip => CopyPlan::SkipItem,
            ConflictResolutionResult::RenameNew => CopyPlan::CopyToRenamed {
                new_destination: self.generate_unique_filename(dest_name, existing, timestamp_s),
            },
            ConflictResolutionResult::RenameOld => CopyPlan::RenameOldThenCopy {
                renamed_old: self.generate_unique_filename(dest_name, existing, timestamp_s),
                destination: String::from_str(dest_name),
            },
            ConflictResolutionResult::Ask => CopyPlan::AbortItem,
            ConflictResolutionResult::Cancelled => CopyPlan::AbortItem,
        }
    }

    /// The whole conflicted-copy decision for one item: with no collision, a
    /// plain copy; with one, whatever the job's conflict protocol settles on,
    /// or `NeedDecision` when only the decision authority can.
    pub fn plan_copy_with_conflict_handling(
        &self,
        job: &TransferJob,
        policy: &GlobalConflictResolution,
        dest_exists: bool,
        dest_name: &str,
        existing: &Vec<String>,
        timestamp_s: u64,
    ) -> (r: CopyPlan)
        ensures
            !dest_exists ==> (r matches CopyPlan::CopyTo { destination, overwrite }
                && destination@ == dest_name@ && !overwrite),
            dest_exists ==> ({
                let d = conflict_decision_spec(
                    job.conflict_settings,
                    policy.default_action,
                    policy.ask_for_confirmation,
                    job.has_conflict_channel,
                );
                &&& d is AskChannel ==> r is NeedDecision
                &&& d == ConflictDecision::Resolved(ConflictResolutionResult::Overwrite)
                    ==> (r matches CopyPlan::CopyTo { destination, overwrite }
                    && destination@ == dest_name@ && overwrite)
                &&& d == ConflictDecision::Resolved(ConflictResolutionResult::Skip)
                    ==> r is SkipItem
                &&& d == ConflictDecision::Resolved(ConflictResolutionResult::RenameNew)
                    ==> (r matches CopyPlan::CopyToRenamed { new_destination }
                    && new_destination@ == unique_name_spec(
                    dest_name@,
                    existing@,
                    timestamp_s as nat,
                ))
                &&& d == ConflictDecision::Resolved(ConflictResolutionResult::RenameOld)
                    ==> (r matches CopyPlan::RenameOldThenCopy { renamed_old, destination }
                    && renamed_old@ == unique_name_spec(dest_name@, existing@, timestamp_s as nat)
                    && destination@ == dest_name@)
                &&& d == ConflictDecision::Resolved(ConflictResolutionResult::Ask)
                    ==> r is AbortItem
                &&& d == ConflictDecision::Resolved(ConflictResolutionResult::Cancelled)
                    ==> r is AbortItem
            }),
    {
        if !dest_exists {
            return CopyPlan::CopyTo { destination: String::from_str(dest_name), overwrite: false };
        }
        match job.handle_conflict(policy) {
            ConflictDecision::AskChannel => CopyPlan::NeedDecision,
            ConflictDecision::Resolved(resolution) => self.plan_for_resolution(
                &resolution,
                dest_name,
                existing,
                timestamp_s,
            ),
        }
    }
}

/// The chosen rename never collides: on the counter path by construction,
/// and on the fallback path as long as the timestamped name is itself free.
pub proof fn lemma_unique_name_fresh(name: Seq<char>, existing: Seq<String>, ts: nat)
    requires
        first_free_counter(stem_of(name), ext_of(name), existing, 1) >= 1 || !taken(
            existing,
            fallback_name(stem_of(name), ext_of(name), ts),
        ),
    ensures
        !taken(existing, unique_name_spec(name, existing, ts)),
{
    lemma_first_free_counter(stem_of(name), ext_of(name), existing, 1);
}

/// The counter chosen is the lowest unused one: every smaller counter's
/// candidate is already taken.
pub proof fn lemma_unique_name_lowest_counter(name: Seq<char>, existing: Seq<String>, ts: nat)
    requires
        first_free_counter(stem_of(name), ext_of(name), existing, 1) >= 1,
    ensures
        ({
            let f = first_free_counter(stem_of(name), ext_of(name), existing, 1);
            &&& unique_name_spec(name, existing, ts) == candidate_name(
                stem_of(name),
                ext_of(name),
                f,
            )
            &&& !taken(existing, candidate_name(stem_of(name), ext_of(name), f))
            &&& forall|j: nat|
                1 <= j < f ==> taken(
                    existing,
                    #[trigger] candidate_name(stem_of(name), ext_of(name), j),
                )
        }),
{
    lemma_first_free_counter(stem_of(name), ext_of(name), existing, 1);
}

/// When the first thousand counters are all taken, the timestamped fallback
/// is chosen.
pub proof fn lemma_unique_name_fallback(name: Seq<char>, existing: Seq<String>, ts: nat)
    requires
        first_free_counter(stem_of(name), ext_of(name), existing, 1) == 0,
    ensures
        unique_name_spec(name, existing, ts) == fallback_name(stem_of(name), ext_of(name), ts),
        forall|j: nat|
            1 <= j <= 1000 ==> taken(
                existing,
                #[trigger] candidate_name(stem_of(name), ext_of(name), j),
            ),
{
    lemma_first_free_counter(stem_of(name), ext_of(name), existing, 1);
}

/// With no new collisions the choice does not budge: as long as a counter
/// was found, generating again — at any later time — gives the same name.
pub proof fn lemma_unique_name_idempotent(
    name: Seq<char>,
    existing: Seq<String>,
    ts1: nat,
    ts2: nat,
)
    requires
        first_free_counter(stem_of(name), ext_of(name), existing, 1) >= 1,
    ensures
        unique_name_spec(name, existing, ts1) == unique_name_spec(name, existing, ts2),
{
}

} // verus!
