//! The per-device transfer queue: jobs, their items, priority scheduling, and
//! the conflict-resolution protocol.

use vstd::prelude::*;
use crate::config::{ConflictAction, GlobalConflictResolution};
use crate::copy_engine::RuntimeConflictSettings;
use crate::drag_drop::TransferResult;

verus! {

/// Scheduling class of a job, lowest to highest.
#[derive(Debug, Clone, Copy, PartialEq, Eq, Structural)]
pub enum QueuePriority {
    Background,
    Normal,
    Interactive,
    Critical,
}

impl QueuePriority {
    /// Numeric rank; a higher rank is served first.
    pub open spec fn rank_spec(self) -> int {
        match self {
            QueuePriority::Background => 0,
            QueuePriority::Normal => 1,
            QueuePriority::Interactive => 2,
            QueuePriority::Critical => 3,
        }
    }

    pub fn rank(self) -> (r: u8)
        ensures
            r == self.rank_spec(),
    {
        match self {
            QueuePriority::Background => 0,
            QueuePriority::Normal => 1,
            QueuePriority::Interactive => 2,
            QueuePriority::Critical => 3,
        }
    }
}

#[derive(Debug, Clone, Copy, PartialEq, Eq, Structural)]
pub enum ItemType {
    File,
    Directory,
    Symlink,
}

/// Where one item stands in its life.
#[derive(Debug, Clone, PartialEq, Eq)]
pub enum ItemTransferStatus {
    Pending,
    CreatingDir,
    Copying,
    Verifying,
    Completed,
    Error(String),
}

/// Where a whole job stands. `Completed`, `Error` and `Cancelled` are
/// terminal: no transition leads out of them.
#[derive(Debug, Clone, Copy, PartialEq, Eq, Structural)]
pub enum TransferStatus {
    Queued,
    Preparing,
    Copying,
    Verifying,
    Paused,
    Completed,
    Error,
    Cancelled,
}

impl TransferStatus {
    pub open spec fn is_terminal_spec(self) -> bool {
        self is Completed || self is Error || self is Cancelled
    }

    pub fn is_terminal(self) -> (r: bool)
        ensures
            r == self.is_terminal_spec(),
    {
        matches!(self, TransferStatus::Completed | TransferStatus::Error | TransferStatus::Cancelled)
    }
}

/// One node of the source tree being copied. Children are meaningful for
/// directories only.
pub struct TransferItem {
    pub source_path: String,
    pub relative_path: String,
    pub item_type: ItemType,
    pub size: u64,
    pub children: Vec<TransferItem>,
    pub status: ItemTransferStatus,
}

/// How many nodes a tree rooted at `item` has, the root included.
pub open spec fn item_count(item: TransferItem) -> nat
    decreases item,
{
    1 + items_count(item.children@)
}

/// How many nodes a forest has.
pub open spec fn items_count(items: Seq<TransferItem>) -> nat
    decreases items,
{
    if items.len() == 0 {
        0
    } else {
        item_count(items[0]) + items_count(items.drop_first())
    }
}

/// Total byte size of a tree, every node counted.
pub open spec fn item_size(item: TransferItem) -> nat
    decreases item,
{
    item.size as nat + items_size(item.children@)
}

pub open spec fn items_size(items: Seq<TransferItem>) -> nat
    decreases items,
{
    if items.len() == 0 {
        0
    } else {
        item_size(items[0]) + items_size(items.drop_first())
    }
}

/// The nodes of a forest in the order they are worked on: each node right
/// before everything below it, siblings left to right.
pub open spec fn flatten_tree(items: Seq<TransferItem>) -> Seq<TransferItem>
    decreases items,
{
    if items.len() == 0 {
        Seq::empty()
    } else {
        seq![items[0]] + flatten_tree(items[0].children@) + flatten_tree(items.drop_first())
    }
}

proof fn lemma_items_count_take(items: Seq<TransferItem>, i: int)
    requires
        0 <= i < items.len(),
    ensures
        items_count(items.take(i + 1)) == items_count(items.take(i)) + item_count(items[i]),
    decreases items,
{
    if i == 0 {
        assert(items.take(1) =~= seq![items[0]]);
        assert(items.take(1).drop_first() =~= Seq::<TransferItem>::empty());
        assert(items.take(0) =~= Seq::<TransferItem>::empty());
    } else {
        lemma_items_count_take(items.drop_first(), i - 1);
        assert(items.take(i + 1).drop_first() =~= items.drop_first().take(i));
        assert(items.take(i).drop_first() =~= items.drop_first().take(i - 1));
    }
}

proof fn lemma_items_size_take(items: Seq<TransferItem>, i: int)
    requires
        0 <= i < items.len(),
    ensures
        items_size(items.take(i + 1)) == items_size(items.take(i)) + item_size(items[i]),
    decreases items,
{
    if i == 0 {
        assert(items.take(1) =~= seq![items[0]]);
        assert(items.take(1).drop_first() =~= Seq::<TransferItem>::empty());
        assert(items.take(0) =~= Seq::<TransferItem>::empty());
    } else {
        lemma_items_size_take(items.drop_first(), i - 1);
        assert(items.take(i + 1).drop_first() =~= items.drop_first().take(i));
        assert(items.take(i).drop_first() =~= items.drop_first().take(i - 1));
    }
}

/// Counts the nodes of the tree under `item`, saturating at `u64::MAX`.
pub fn count_item(item: &TransferItem) -> (r: u64)
    ensures
        item_count(*item) <= u64::MAX ==> r == item_count(*item),
        r >= 1,
    decreases *item,
{
    let mut total: u64 = 1;
    let n = item.children.len();
    let mut i: usize = 0;
    while i < n
        invariant
            0 <= i <= n,
            n == item.children@.len(),
            1 + items_count(item.children@.take(i as int)) <= u64::MAX
                ==> total == 1 + items_count(item.children@.take(i as int)),
            total >= 1,
        decreases n - i,
    {
        proof {
            lemma_items_count_take(item.children@, i as int);
        }
        let c = count_item(&item.children[i]);
        total = total.saturating_add(c);
        i = i + 1;
    }
    proof {
        assert(item.children@.take(n as int) =~= item.children@);
    }
    total
}

/// Counts a whole forest, saturating at `u64::MAX`.
pub fn count_items(items: &Vec<TransferItem>) -> (r: u64)
    ensures
        items_count(items@) <= u64::MAX ==> r == items_count(items@),
{
    let mut total: u64 = 0;
    let n = items.len();
    let mut i: usize = 0;
    while i < n
        invariant
            0 <= i <= n,
            n == items@.len(),
            items_count(items@.take(i as int)) <= u64::MAX
                ==> total == items_count(items@.take(i as int)),
        decreases n - i,
    {
        proof {
            lemma_items_count_take(items@, i as int);
        }
        let c = count_item(&items[i]);
        total = total.saturating_add(c);
        i = i + 1;
    }
    proof {
        assert(items@.take(n as int) =~= items@);
    }
    total
}

/// Sums the byte sizes of a tree, saturating at `u64::MAX`.
pub fn size_of_item(item: &TransferItem) -> (r: u64)
    ensures
        item_size(*item) <= u64::MAX ==> r == item_size(*item),
    decreases *item,
{
    let mut total: u64 = item.size;
    let n = item.children.len();
    let mut i: usize = 0;
    while i < n
        invariant
            0 <= i <= n,
            n == item.children@.len(),
            item.size + items_size(item.children@.take(i as int)) <= u64::MAX
                ==> total == item.size + items_size(item.children@.take(i as int)),
        decreases n - i,
    {
        proof {
            lemma_items_size_take(item.children@, i as int);
        }
        let c = size_of_item(&item.children[i]);
        total = total.saturating_add(c);
        i = i + 1;
    }
    proof {
        assert(item.children@.take(n as int) =~= item.children@);
    }
    total
}

/// Sums a whole forest, saturating at `u64::MAX`.
pub fn size_of_items(items: &Vec<TransferItem>) -> (r: u64)
    ensures
        items_size(items@) <= u64::MAX ==> r == items_size(items@),
{
    let mut total: u64 = 0;
    let n = items.len();
    let mut i: usize = 0;
    while i < n
        invariant
            0 <= i <= n,
            n == items@.len(),
            items_size(items@.take(i as int)) <= u64::MAX
                ==> total == items_size(items@.take(i as int)),
        decreases n - i,
    {
        proof {
            lemma_items_size_take(items@, i as int);
        }
        let c = size_of_item(&items[i]);
        total = total.saturating_add(c);
        i = i + 1;
    }
    proof {
        assert(items@.take(n as int) =~= items@);
    }
    total
}

/// `r` lists, by reference, exactly the items of `s`, in the same order.
pub open spec fn refs_match(r: Seq<&TransferItem>, s: Seq<TransferItem>) -> bool {
    r.len() == s.len() && (forall|k: int| 0 <= k < r.len() ==> *(#[trigger] r[k]) == s[k])
}

proof fn lemma_refs_match_concat(
    r1: Seq<&TransferItem>,
    s1: Seq<TransferItem>,
    r2: Seq<&TransferItem>,
    s2: Seq<TransferItem>,
)
    requires
        refs_match(r1, s1),
        refs_match(r2, s2),
    ensures
        refs_match(r1 + r2, s1 + s2),
{
    assert forall|k: int| 0 <= k < (r1 + r2).len() implies *(#[trigger] (r1 + r2)[k]) == (s1
        + s2)[k] by {
        if k < r1.len() {
            assert((r1 + r2)[k] == r1[k]);
            assert((s1 + s2)[k] == s1[k]);
        } else {
            assert((r1 + r2)[k] == r2[k - r1.len()]);
            assert((s1 + s2)[k] == s2[k - s1.len()]);
        }
    }
}

/// The work order of one tree: the node itself stands first, and everything
/// below it follows — so a directory is always worked before its children.
pub proof fn lemma_flatten_single(item: TransferItem)
    ensures
        flatten_tree(seq![item]) =~= seq![item] + flatten_tree(item.children@),
{
    let s = seq![item];
    assert(s.len() == 1);
    assert(s[0] == item);
    let rest = s.drop_first();
    assert(rest.len() == 0);
    assert(flatten_tree(rest) =~= Seq::<TransferItem>::empty());
    assert(flatten_tree(s) == seq![s[0]] + flatten_tree(s[0].children@) + flatten_tree(rest));
    assert(seq![s[0]] + flatten_tree(s[0].children@) + flatten_tree(rest)
        =~= seq![item] + flatten_tree(item.children@));
}

/// Writes the nodes of the tree under `item` to `out` in work order: the node
/// itself, then everything below it.
pub fn flatten_item<'a>(item: &'a TransferItem, out: &mut Vec<&'a TransferItem>)
    ensures
        final(out)@.len() == old(out)@.len() + flatten_tree(seq![*item]).len(),
        final(out)@.subrange(0, old(out)@.len() as int) == old(out)@,
        refs_match(final(out)@.skip(old(out)@.len() as int), flatten_tree(seq![*item])),
    decreases *item,
{
    let ghost base = out@.len() as int;
    proof {
        lemma_flatten_single(*item);
    }
    out.push(item);
    let n = item.children.len();
    let mut i: usize = 0;
    while i < n
        invariant
            0 <= i <= n,
            n == item.children@.len(),
            base == old(out)@.len() as int,
            out@.len() == base + 1 + flatten_tree(item.children@.take(i as int)).len(),
            out@.subrange(0, base) == old(out)@,
            refs_match(
                out@.skip(base),
                seq![*item] + flatten_tree(item.children@.take(i as int)),
            ),
        decreases n - i,
    {
        let ghost before = out@;
        proof {
            lemma_flatten_tree_take(item.children@, i as int);
        }
        flatten_item(&item.children[i], out);
        proof {
            let l1 = before.len() as int;
            assert(0 <= base <= l1);
            assert(out@.subrange(0, l1) == before);
            assert(l1 <= out@.len());
            assert forall|j: int| 0 <= j < l1 implies #[trigger] out@[j] == before[j] by {
                assert(out@.subrange(0, l1)[j] == out@[j]);
            }
            assert(out@.subrange(0, base) =~= before.subrange(0, base));
            assert(out@.skip(base) =~= before.skip(base) + out@.skip(l1)) by {
                assert forall|k: int| 0 <= k < out@.len() - base implies #[trigger] out@.skip(
                    base,
                )[k] == (before.skip(base) + out@.skip(l1))[k] by {
                    if k < l1 - base {
                        assert(before.skip(base)[k] == before[base + k]);
                        assert(out@.skip(base)[k] == out@[base + k]);
                    } else {
                        assert(out@.skip(l1)[k - (l1 - base)] == out@[l1 + (k - (l1 - base))]);
                        assert(out@.skip(base)[k] == out@[base + k]);
                    }
                }
            }
            lemma_refs_match_concat(
                before.skip(base),
                seq![*item] + flatten_tree(item.children@.take(i as int)),
                out@.skip(before.len() as int),
                flatten_tree(seq![item.children@[i as int]]),
            );
            assert((seq![*item] + flatten_tree(item.children@.take(i as int)))
                + flatten_tree(seq![item.children@[i as int]])
                =~= seq![*item] + flatten_tree(item.children@.take(i + 1)));
        }
        i = i + 1;
    }
    proof {
        assert(item.children@.take(n as int) =~= item.children@);
        assert(seq![*item] + flatten_tree(item.children@) =~= flatten_tree(seq![*item]));
    }
}

/// `flatten_tree` over a prefix grows by the flattening of the next tree.
proof fn lemma_flatten_tree_take(items: Seq<TransferItem>, i: int)
    requires
        0 <= i < items.len(),
    ensures
        flatten_tree(items.take(i + 1))
            =~= flatten_tree(items.take(i)) + flatten_tree(seq![items[i]]),
    decreases items,
{
    if i == 0 {
        assert(items.take(1) =~= seq![items[0]]);
        assert(items.take(0) =~= Seq::<TransferItem>::empty());
        assert(seq![items[0]].drop_first() =~= Seq::<TransferItem>::empty());
        assert(flatten_tree(seq![items[0]])
            =~= seq![items[0]] + flatten_tree(items[0].children@));
    } else {
        lemma_flatten_tree_take(items.drop_first(), i - 1);
        assert(items.take(i + 1).drop_first() =~= items.drop_first().take(i));
        assert(items.take(i).drop_first() =~= items.drop_first().take(i - 1));
        assert(items.take(i + 1)[0] == items[0]);
        assert(items.take(i)[0] == items[0]);
    }
}

/// The nodes of a forest in work order, as references into it. A directory
/// always stands before each node below it.
pub fn flatten_items<'a>(items: &'a Vec<TransferItem>) -> (r: Vec<&'a TransferItem>)
    ensures
        refs_match(r@, flatten_tree(items@)),
{
    let mut out: Vec<&TransferItem> = Vec::new();
    let n = items.len();
    let mut i: usize = 0;
    while i < n
        invariant
            0 <= i <= n,
            n == items@.len(),
            refs_match(out@, flatten_tree(items@.take(i as int))),
        decreases n - i,
    {
        let ghost before = out@;
        proof {
            lemma_flatten_tree_take(items@, i as int);
        }
        flatten_item(&items[i], &mut out);
        proof {
            assert(forall|j: int|
                0 <= j < before.len()
                    ==> #[trigger] out@[j] == out@.subrange(0, before.len() as int)[j]);
            assert(out@ =~= before + out@.skip(before.len() as int));
            lemma_refs_match_concat(
                before,
                flatten_tree(items@.take(i as int)),
                out@.skip(before.len() as int),
                flatten_tree(seq![items@[i as int]]),
            );
        }
        i = i + 1;
    }
    proof {
        assert(items@.take(n as int) =~= items@);
    }
    out
}

/// A progress event, streamed out of a running job. Durations are in
/// milliseconds.
pub enum TransferProgress {
    FileStarted { source: String, destination: String, size: u64 },
    FileCompleted { source: String, destination: String, size: u64, duration_ms: u64 },
    DirectoryCreated { path: String, item_count: usize },
    AddItems(Vec<TransferItem>),
    ConflictDetected { source: String, destination: String },
    ConflictResolved { source: String, destination: String, action: String },
}

/// The answer to one conflict.
#[derive(Debug, Clone, Copy, PartialEq, Eq, Structural)]
pub enum ConflictResolutionResult {
    Overwrite,
    Skip,
    RenameNew,
    RenameOld,
    Ask,
    Cancelled,
}

/// What the engine does with a conflict before any channel is involved:
/// either it is settled locally, or the decision authority must be asked.
#[derive(Debug, Clone, Copy, PartialEq, Eq, Structural)]
pub enum ConflictDecision {
    Resolved(ConflictResolutionResult),
    AskChannel,
}

/// What came back from the decision channel.
#[derive(Debug, Clone, Copy, PartialEq, Eq, Structural)]
pub enum ChannelOutcome {
    Reply(ConflictResolutionResult),
    TimedOut,
    Closed,
    SendFailed,
}

/// How a global or per-job `ConflictAction` answers one concrete conflict.
/// The `All` forms and `Ask` itself carry no direct answer and map to `Ask`.
pub open spec fn map_action(a: ConflictAction) -> ConflictResolutionResult {
    match a {
        ConflictAction::Overwrite => ConflictResolutionResult::Overwrite,
        ConflictAction::Skip => ConflictResolutionResult::Skip,
        ConflictAction::RenameNew => ConflictResolutionResult::RenameNew,
        ConflictAction::RenameOld => ConflictResolutionResult::RenameOld,
        _ => ConflictResolutionResult::Ask,
    }
}

/// The conflict-resolution precedence, first applicable step wins: sticky
/// flags, then the global policy when it forbids asking, then the job's
/// standing action, then the decision channel, and `Cancelled` as last resort.
pub open spec fn conflict_decision_spec(
    settings: RuntimeConflictSettings,
    default_action: ConflictAction,
    ask_for_confirmation: bool,
    has_channel: bool,
) -> ConflictDecision {
    if settings.overwrite_all {
        ConflictDecision::Resolved(ConflictResolutionResult::Overwrite)
    } else if settings.skip_all {
        ConflictDecision::Resolved(ConflictResolutionResult::Skip)
    } else if !ask_for_confirmation {
        ConflictDecision::Resolved(map_action(default_action))
    } else if !(settings.current_action is Ask) {
        ConflictDecision::Resolved(map_action(settings.current_action))
    } else if has_channel {
        ConflictDecision::AskChannel
    } else {
        ConflictDecision::Resolved(ConflictResolutionResult::Cancelled)
    }
}

/// What a channel consultation resolves to: a reply is taken as it is, a
/// timeout skips — it never overwrites —, a closed reply channel leaves the
/// conflict unresolved (`Ask`), and a failed send cancels the item.
pub fn resolve_channel_outcome(outcome: &ChannelOutcome) -> (r: ConflictResolutionResult)
    ensures
        r == (match outcome {
            ChannelOutcome::Reply(a) => *a,
            ChannelOutcome::TimedOut => ConflictResolutionResult::Skip,
            ChannelOutcome::Closed => ConflictResolutionResult::Ask,
            ChannelOutcome::SendFailed => ConflictResolutionResult::Cancelled,
        }),
        outcome is TimedOut ==> r is Skip && !(r is Overwrite),
{
    match outcome {
        ChannelOutcome::Reply(a) => *a,
        ChannelOutcome::TimedOut => ConflictResolutionResult::Skip,
        ChannelOutcome::Closed => ConflictResolutionResult::Ask,
        ChannelOutcome::SendFailed => ConflictResolutionResult::Cancelled,
    }
}

/// One transfer operation: a tree of items bound for one destination
/// directory, its counters, and its conflict state. Timestamps are
/// milliseconds of the caller's clock.
pub struct TransferJob {
    pub id: u64,
    pub root_items: Vec<TransferItem>,
    pub destination: String,
    pub status: TransferStatus,
    pub created_at_ms: u64,
    pub priority: QueuePriority,
    pub total_items: usize,
    pub completed_items: usize,
    pub total_size: u64,
    pub copied_size: u64,
    pub conflict_settings: RuntimeConflictSettings,
    pub transfer_name: String,
    pub has_conflict_channel: bool,
    pub errors: Vec<String>,
}

impl TransferJob {
    pub fn new(
        id: u64,
        root_items: Vec<TransferItem>,
        destination: String,
        transfer_name: String,
        priority: QueuePriority,
        created_at_ms: u64,
        has_conflict_channel: bool,
    ) -> (r: Self)
        ensures
            r.id == id,
            r.root_items == root_items,
            r.destination == destination,
            r.transfer_name == transfer_name,
            r.priority == priority,
            r.created_at_ms == created_at_ms,
            r.has_conflict_channel == has_conflict_channel,
            r.status is Queued,
            r.total_items == 0,
            r.completed_items == 0,
            r.total_size == 0,
            r.copied_size == 0,
            r.errors@.len() == 0,
            r.conflict_settings.current_action is Ask,
            !r.conflict_settings.overwrite_all,
            !r.conflict_settings.skip_all,
            r.conflict_settings.ask_for_each,
    {
        Self {
            id,
            root_items,
            destination,
            status: TransferStatus::Queued,
            created_at_ms,
            priority,
            total_items: 0,
            completed_items: 0,
            total_size: 0,
            copied_size: 0,
            conflict_settings: RuntimeConflictSettings::new(),
            transfer_name,
            has_conflict_channel,
            errors: Vec::new(),
        }
    }

    /// Settles a conflict as far as it can be settled without the decision
    /// authority; `AskChannel` means the authority must now be consulted.
    pub fn handle_conflict(&self, policy: &GlobalConflictResolution) -> (r: ConflictDecision)
        ensures
            r == conflict_decision_spec(
                self.conflict_settings,
                policy.default_action,
                policy.ask_for_confirmation,
                self.has_conflict_channel,
            ),
    {
        if self.conflict_settings.overwrite_all {
            return ConflictDecision::Resolved(ConflictResolutionResult::Overwrite);
        }
        if self.conflict_settings.skip_all {
            return ConflictDecision::Resolved(ConflictResolutionResult::Skip);
        }
        if !policy.ask_for_confirmation {
            return ConflictDecision::Resolved(map_action_exec(policy.default_action));
        }
        if !matches!(self.conflict_settings.current_action, ConflictAction::Ask) {
            return ConflictDecision::Resolved(map_action_exec(self.conflict_settings.current_action));
        }
        if self.has_conflict_channel {
            return ConflictDecision::AskChannel;
        }
        ConflictDecision::Resolved(ConflictResolutionResult::Cancelled)
    }

    /// The conflict settings after `update_conflict_settings(action, remember)`:
    /// the current action changes, and an `All` action that is to be
    /// remembered latches its sticky flag. A flag already latched stays so.
    pub open spec fn settings_after_update(
        settings: RuntimeConflictSettings,
        action: ConflictAction,
        remember_for_transfer: bool,
    ) -> RuntimeConflictSettings {
        let updated = settings.updated_with(action);
        if remember_for_transfer && action is OverwriteAll {
            RuntimeConflictSettings { overwrite_all: true, ..updated }
        } else if remember_for_transfer && action is SkipAll {
            RuntimeConflictSettings { skip_all: true, ..updated }
        } else {
            updated
        }
    }

    /// Takes one user decision into the job. Only with `remember_for_transfer`
    /// does an `All` action latch its sticky flag, and a latched flag stays
    /// latched for the rest of the job's lifetime.
    pub fn update_conflict_settings(&mut self, action: ConflictAction, remember_for_transfer: bool)
        ensures
            final(self).conflict_settings
                == Self::settings_after_update(old(self).conflict_settings, action, remember_for_transfer),
            final(self).conflict_settings.overwrite_all == (old(self).conflict_settings.overwrite_all
                || (remember_for_transfer && action is OverwriteAll)),
            final(self).conflict_settings.skip_all == (old(self).conflict_settings.skip_all
                || (remember_for_transfer && action is SkipAll)),
            *final(self) == (TransferJob {
                conflict_settings: final(self).conflict_settings,
                ..*old(self)
            }),
    {
        self.conflict_settings.update_from_action(&action);
        if remember_for_transfer {
            match action {
                ConflictAction::OverwriteAll => {
                    self.conflict_settings.overwrite_all = true;
                }
                ConflictAction::SkipAll => {
                    self.conflict_settings.skip_all = true;
                }
                _ => {}
            }
        }
    }

    /// Counts items and bytes and moves the job from `Queued` to `Preparing`.
    pub fn prepare(&mut self)
        requires
            old(self).status is Queued,
        ensures
            final(self).status is Preparing,
            items_count(old(self).root_items@) <= usize::MAX
                ==> final(self).total_items == items_count(old(self).root_items@),
            items_size(old(self).root_items@) <= u64::MAX
                ==> final(self).total_size == items_size(old(self).root_items@),
            *final(self) == (TransferJob {
                status: TransferStatus::Preparing,
                total_items: final(self).total_items,
                total_size: final(self).total_size,
                ..*old(self)
            }),
    {
        let count = count_items(&self.root_items);
        let size = size_of_items(&self.root_items);
        self.total_items = if count > (usize::MAX as u64) {
            usize::MAX
        } else {
            count as usize
        };
        self.total_size = size;
        self.status = TransferStatus::Preparing;
    }

    /// Moves the job from `Preparing` to `Copying`.
    pub fn start_copying(&mut self)
        requires
            old(self).status is Preparing,
        ensures
            *final(self) == (TransferJob { status: TransferStatus::Copying, ..*old(self) }),
    {
        self.status = TransferStatus::Copying;
    }

    /// Books one finished item: one more completed, `size` more bytes copied.
    pub fn mark_item_completed(&mut self, size: u64)
        requires
            old(self).status is Copying,
            old(self).completed_items < old(self).total_items,
        ensures
            final(self).completed_items == old(self).completed_items + 1,
            old(self).copied_size + size <= u64::MAX
                ==> final(self).copied_size == old(self).copied_size + size,
            final(self).copied_size >= old(self).copied_size,
            *final(self) == (TransferJob {
                completed_items: final(self).completed_items,
                copied_size: final(self).copied_size,
                ..*old(self)
            }),
    {
        self.completed_items = self.completed_items + 1;
        self.copied_size = self.copied_size.saturating_add(size);
    }

    /// Books one failed item. A cancellation ends the whole job; any other
    /// error is recorded and the job goes on.
    pub fn record_item_error(&mut self, error: &crate::error_recovery::CopyError, message: String)
        requires
            old(self).status is Copying,
        ensures
            error is Cancelled ==> *final(self) == (TransferJob {
                status: TransferStatus::Cancelled,
                ..*old(self)
            }),
            !(error is Cancelled) ==> final(self).errors@ == old(self).errors@.push(message)
                && *final(self) == (TransferJob { errors: final(self).errors, ..*old(self) }),
    {
        if matches!(error, crate::error_recovery::CopyError::Cancelled) {
            self.status = TransferStatus::Cancelled;
        } else {
            self.errors.push(message);
        }
    }

    /// Appends more items to a job that is still alive; the caller then
    /// emits the matching `AddItems` progress event.
    pub fn add_items(&mut self, items: Vec<TransferItem>)
        requires
            !old(self).status.is_terminal_spec(),
        ensures
            final(self).root_items@ == old(self).root_items@ + items@,
            old(self).total_items + items_count(items@) <= usize::MAX && items_count(items@)
                <= u64::MAX ==> final(self).total_items == old(self).total_items + items_count(
                items@,
            ),
            old(self).total_size + items_size(items@) <= u64::MAX ==> final(self).total_size
                == old(self).total_size + items_size(items@),
            *final(self) == (TransferJob {
                root_items: final(self).root_items,
                total_items: final(self).total_items,
                total_size: final(self).total_size,
                ..*old(self)
            }),
    {
        let mut items = items;
        let added_count = count_items(&items);
        let added_size = size_of_items(&items);
        self.root_items.append(&mut items);
        let headroom = usize::MAX - self.total_items;
        self.total_items = if added_count > (headroom as u64) {
            usize::MAX
        } else {
            self.total_items + (added_count as usize)
        };
        self.total_size = self.total_size.saturating_add(added_size);
    }

    /// Moves the job from `Copying` to `Verifying`.
    pub fn begin_verifying(&mut self)
        requires
            old(self).status is Copying,
        ensures
            *final(self) == (TransferJob { status: TransferStatus::Verifying, ..*old(self) }),
    {
        self.status = TransferStatus::Verifying;
    }

    /// Finishes the job, from `Copying` directly or after verification.
    pub fn complete(&mut self)
        requires
            old(self).status is Copying || old(self).status is Verifying,
        ensures
            *final(self) == (TransferJob { status: TransferStatus::Completed, ..*old(self) }),
    {
        self.status = TransferStatus::Completed;
    }

    /// Suspends the job between items; `resume` picks up from exactly here.
    pub fn pause(&mut self)
        requires
            old(self).status is Copying,
        ensures
            *final(self) == (TransferJob { status: TransferStatus::Paused, ..*old(self) }),
    {
        self.status = TransferStatus::Paused;
    }

    /// Resumes a paused job at its next item.
    pub fn resume(&mut self)
        requires
            old(self).status is Paused,
        ensures
            *final(self) == (TransferJob { status: TransferStatus::Copying, ..*old(self) }),
    {
        self.status = TransferStatus::Copying;
    }

    /// Cancels a job that has not yet reached a terminal status.
    pub fn cancel(&mut self)
        requires
            !old(self).status.is_terminal_spec(),
        ensures
            *final(self) == (TransferJob { status: TransferStatus::Cancelled, ..*old(self) }),
    {
        self.status = TransferStatus::Cancelled;
    }
}

/// Exec twin of `map_action`.
pub fn map_action_exec(a: ConflictAction) -> (r: ConflictResolutionResult)
    ensures
        r == map_action(a),
{
    match a {
        ConflictAction::Overwrite => ConflictResolutionResult::Overwrite,
        ConflictAction::Skip => ConflictResolutionResult::Skip,
        ConflictAction::RenameNew => ConflictResolutionResult::RenameNew,
        ConflictAction::RenameOld => ConflictResolutionResult::RenameOld,
        _ => ConflictResolutionResult::Ask,
    }
}

/// Once `overwrite_all` is latched, every conflict resolves to `Overwrite`,
/// whatever the global policy says and whether or not a channel is attached.
pub proof fn lemma_sticky_overwrite_wins(
    settings: RuntimeConflictSettings,
    default_action: ConflictAction,
    ask_for_confirmation: bool,
    has_channel: bool,
)
    requires
        settings.overwrite_all,
    ensures
        conflict_decision_spec(settings, default_action, ask_for_confirmation, has_channel)
            == ConflictDecision::Resolved(ConflictResolutionResult::Overwrite),
{
}

/// Once `skip_all` is latched (and `overwrite_all` is not), every conflict
/// resolves to `Skip`, whatever the global policy says and whether or not a
/// channel is attached.
pub proof fn lemma_sticky_skip_wins(
    settings: RuntimeConflictSettings,
    default_action: ConflictAction,
    ask_for_confirmation: bool,
    has_channel: bool,
)
    requires
        settings.skip_all,
        !settings.overwrite_all,
    ensures
        conflict_decision_spec(settings, default_action, ask_for_confirmation, has_channel)
            == ConflictDecision::Resolved(ConflictResolutionResult::Skip),
{
}

/// How many completed transfers a queue keeps.
pub const COMPLETED_HISTORY_LIMIT: usize = 100;

/// Running totals of one device queue, only ever growing.
#[derive(Debug, Clone, Copy, PartialEq, Eq, Structural)]
pub struct QueueStatistics {
    pub total_transfers: usize,
    pub successful_transfers: usize,
    pub failed_transfers: usize,
    pub total_bytes: u64,
    pub total_duration_ms: u64,
}

impl Default for QueueStatistics {
    fn default() -> (r: Self)
        ensures
            r == (QueueStatistics {
                total_transfers: 0,
                successful_transfers: 0,
                failed_transfers: 0,
                total_bytes: 0,
                total_duration_ms: 0,
            }),
    {
        Self {
            total_transfers: 0,
            successful_transfers: 0,
            failed_transfers: 0,
            total_bytes: 0,
            total_duration_ms: 0,
        }
    }
}

/// The statistics after booking one more transfer, every sum saturating.
pub open spec fn stats_after(
    s: QueueStatistics,
    success: bool,
    bytes: u64,
    duration_ms: u64,
) -> QueueStatistics {
    QueueStatistics {
        total_transfers: if s.total_transfers < usize::MAX {
            (s.total_transfers + 1) as usize
        } else {
            usize::MAX
        },
        successful_transfers: if success && s.successful_transfers < usize::MAX {
            (s.successful_transfers + 1) as usize
        } else {
            s.successful_transfers
        },
        failed_transfers: if !success && s.failed_transfers < usize::MAX {
            (s.failed_transfers + 1) as usize
        } else {
            s.failed_transfers
        },
        total_bytes: if s.total_bytes + bytes <= u64::MAX {
            (s.total_bytes + bytes) as u64
        } else {
            u64::MAX
        },
        total_duration_ms: if s.total_duration_ms + duration_ms <= u64::MAX {
            (s.total_duration_ms + duration_ms) as u64
        } else {
            u64::MAX
        },
    }
}

/// Booking a transfer never shrinks any total.
pub proof fn lemma_stats_monotonic(
    s: QueueStatistics,
    success: bool,
    bytes: u64,
    duration_ms: u64,
)
    ensures
        stats_after(s, success, bytes, duration_ms).total_transfers >= s.total_transfers,
        stats_after(s, success, bytes, duration_ms).successful_transfers
            >= s.successful_transfers,
        stats_after(s, success, bytes, duration_ms).failed_transfers >= s.failed_transfers,
        stats_after(s, success, bytes, duration_ms).total_bytes >= s.total_bytes,
        stats_after(s, success, bytes, duration_ms).total_duration_ms >= s.total_duration_ms,
{
}

/// Whether a queue is dispatching, held back, or shut down.
#[derive(Debug, Clone, Copy, PartialEq, Eq, Structural)]
pub enum QueueStatus {
    Idle,
    Active,
    Paused,
    Stopped,
}

/// One entry of the priority structure: the job with its scheduling key.
pub struct PrioritizedTransfer {
    pub priority: QueuePriority,
    pub created_at_ms: u64,
    pub job: TransferJob,
}

/// One finished job, kept in the bounded history.
pub struct CompletedTransfer {
    pub job: TransferJob,
    pub result: TransferResult,
    pub completed_at_ms: u64,
}

/// `a` is served before `b`: strictly higher priority, or the same priority
/// and strictly earlier creation.
pub open spec fn better(a: PrioritizedTransfer, b: PrioritizedTransfer) -> bool {
    a.priority.rank_spec() > b.priority.rank_spec() || (a.priority.rank_spec()
        == b.priority.rank_spec() && a.created_at_ms < b.created_at_ms)
}

/// Exec twin of `better`.
pub fn better_exec(a: &PrioritizedTransfer, b: &PrioritizedTransfer) -> (r: bool)
    ensures
        r == better(*a, *b),
{
    let ra = a.priority.rank();
    let rb = b.priority.rank();
    ra > rb || (ra == rb && a.created_at_ms < b.created_at_ms)
}

/// The index that a scan of the first `k` entries settles on: the first entry
/// that no later one strictly betters.
pub open spec fn best_upto(s: Seq<PrioritizedTransfer>, k: int) -> int
    decreases k,
{
    if k <= 1 {
        0
    } else if better(s[k - 1], s[best_upto(s, k - 1)]) {
        k - 1
    } else {
        best_upto(s, k - 1)
    }
}

proof fn lemma_best_upto_in_range(s: Seq<PrioritizedTransfer>, k: int)
    requires
        k >= 1,
    ensures
        0 <= best_upto(s, k) < k,
    decreases k,
{
    if k > 1 {
        lemma_best_upto_in_range(s, k - 1);
    }
}

/// No entry among the first `k` strictly betters the scan's choice. With
/// `better` spelled out: every other queued transfer has strictly lower
/// priority, or the same priority and no earlier creation time — the higher
/// priority always goes first, and equal priorities go oldest first.
pub proof fn lemma_best_upto_maximal(s: Seq<PrioritizedTransfer>, k: int, j: int)
    requires
        1 <= k <= s.len(),
        0 <= j < k,
    ensures
        !better(s[j], s[best_upto(s, k)]),
    decreases k,
{
    lemma_best_upto_in_range(s, k);
    if k > 1 {
        if j < k - 1 {
            lemma_best_upto_maximal(s, k - 1, j);
        }
    }
}

/// One destination device's scheduler: at most one current job, the waiting
/// jobs, and a bounded history of finished ones.
pub struct DeviceQueue {
    pub device_path: String,
    pub device_name: String,
    pub current_transfer: Option<TransferJob>,
    pub pending_transfers: Vec<TransferJob>,
    pub completed_transfers: Vec<CompletedTransfer>,
    pub priority_queue: Vec<PrioritizedTransfer>,
    pub status: QueueStatus,
    pub created_at_ms: u64,
    pub stats: QueueStatistics,
}

/// The name after the last `/` of `s`; empty when `s` ends in `/` or is empty.
pub open spec fn name_after_last_slash(s: Seq<char>) -> Seq<char>
    decreases s.len(),
{
    if s.len() == 0 {
        Seq::empty()
    } else if s[s.len() - 1] == '/' {
        Seq::empty()
    } else {
        name_after_last_slash(s.take(s.len() - 1)) + seq![s[s.len() - 1]]
    }
}

/// `s` without its trailing slashes.
pub open spec fn trim_trailing_slashes(s: Seq<char>) -> Seq<char>
    decreases s.len(),
{
    if s.len() > 0 && s[s.len() - 1] == '/' {
        trim_trailing_slashes(s.take(s.len() - 1))
    } else {
        s
    }
}

/// The last component of a path, trailing slashes ignored: what remains of
/// the trimmed path after its last slash.
pub open spec fn path_file_name(s: Seq<char>) -> Seq<char> {
    name_after_last_slash(trim_trailing_slashes(s))
}

/// With no `/` at or after position `j + 1` and a `/` at `j` (or `j == -1`),
/// the name after the last slash is the suffix from `j + 1` on.
proof fn lemma_name_after_last_slash(s: Seq<char>, j: int)
    requires
        -1 <= j < s.len(),
        j >= 0 ==> s[j] == '/',
        forall|k: int| j < k < s.len() ==> s[k] != '/',
    ensures
        name_after_last_slash(s) =~= s.skip(j + 1),
    decreases s.len(),
{
    if s.len() == 0 {
    } else if j == s.len() - 1 {
    } else {
        let t = s.take(s.len() - 1);
        lemma_name_after_last_slash(t, j);
        assert(t.skip(j + 1) =~= s.skip(j + 1).take(s.skip(j + 1).len() - 1));
        assert(name_after_last_slash(t) + seq![s[s.len() - 1]] =~= s.skip(j + 1));
    }
}

impl DeviceQueue {
    /// A fresh, idle queue for the device mounted at `device_path`; the
    /// device name is the path's last component, trailing slashes ignored,
    /// or `Unknown` if the path yields none.
    pub fn new(device_path: String, created_at_ms: u64) -> (r: Self)
        ensures
            r.device_path@ == device_path@,
            r.device_name@ == (if path_file_name(device_path@).len() == 0 {
                "Unknown"@
            } else {
                path_file_name(device_path@)
            }),
            r.current_transfer is None,
            r.pending_transfers@.len() == 0,
            r.completed_transfers@.len() == 0,
            r.priority_queue@.len() == 0,
            r.status is Idle,
            r.created_at_ms == created_at_ms,
            r.stats == (QueueStatistics {
                total_transfers: 0,
                successful_transfers: 0,
                failed_transfers: 0,
                total_bytes: 0,
                total_duration_ms: 0,
            }),
    {
        let path_str = device_path.as_str();
        let len = path_str.unicode_len();
        proof {
            assert(device_path@.take(len as int) =~= device_path@);
        }
        let mut end: usize = len;
        while end > 0 && path_str.get_char(end - 1) == '/'
            invariant
                0 <= end <= len,
                len == device_path@.len(),
                path_str@ == device_path@,
                trim_trailing_slashes(device_path@) == trim_trailing_slashes(
                    device_path@.take(end as int),
                ),
            decreases end,
        {
            proof {
                assert(device_path@.take(end as int).take(end - 1)
                    =~= device_path@.take(end - 1));
            }
            end = end - 1;
        }
        let ghost trimmed = device_path@.take(end as int);
        proof {
            assert(trim_trailing_slashes(trimmed) == trimmed);
            assert(trim_trailing_slashes(device_path@) == trimmed);
        }
        let mut start: usize = 0;
        let mut k: usize = 0;
        while k < end
            invariant
                0 <= start <= k <= end <= len,
                len == device_path@.len(),
                path_str@ == device_path@,
                trimmed == device_path@.take(end as int),
                start >= 1 ==> device_path@[start - 1] == '/',
                forall|t: int| start <= t < k ==> device_path@[t] != '/',
            decreases end - k,
        {
            if path_str.get_char(k) == '/' {
                start = k + 1;
            }
            k = k + 1;
        }
        proof {
            assert(forall|t: int| 0 <= t < end ==> trimmed[t] == device_path@[t]);
            lemma_name_after_last_slash(trimmed, start as int - 1);
            assert(trimmed.skip(start as int) =~= device_path@.subrange(
                start as int,
                end as int,
            ));
        }
        let name = path_str.substring_char(start, end);
        let device_name = if name.unicode_len() == 0 {
            String::from_str("Unknown")
        } else {
            String::from_str(name)
        };
        proof {
            if path_file_name(device_path@).len() == 0 {
                reveal_strlit("Unknown");
            }
        }
        Self {
            device_path,
            device_name,
            current_transfer: None,
            pending_transfers: Vec::new(),
            completed_transfers: Vec::new(),
            priority_queue: Vec::new(),
            status: QueueStatus::Idle,
            created_at_ms,
            stats: QueueStatistics::default(),
        }
    }

    /// Whether `next` may hand out a job: the queue is neither paused nor
    /// stopped, and no job is current.
    pub open spec fn can_dequeue(self) -> bool {
        !(self.status is Paused) && !(self.status is Stopped) && self.current_transfer is None
    }

    /// Puts a job into the priority structure, keyed by its priority and
    /// creation time.
    pub fn enqueue(&mut self, job: TransferJob)
        ensures
            final(self).priority_queue@ == old(self).priority_queue@.push(
                PrioritizedTransfer {
                    priority: job.priority,
                    created_at_ms: job.created_at_ms,
                    job,
                },
            ),
            final(self).current_transfer == old(self).current_transfer,
            final(self).pending_transfers == old(self).pending_transfers,
            final(self).completed_transfers == old(self).completed_transfers,
            final(self).status == old(self).status,
            final(self).stats == old(self).stats,
            final(self).device_path == old(self).device_path,
            final(self).device_name == old(self).device_name,
            final(self).created_at_ms == old(self).created_at_ms,
    {
        let priority = job.priority;
        let created_at_ms = job.created_at_ms;
        self.priority_queue.push(PrioritizedTransfer { priority, created_at_ms, job });
    }

    /// Makes the best waiting job current and returns its id: the highest
    /// priority first, ties broken by the earliest creation time, and the
    /// plain pending list only after the priority structure is empty. Hands
    /// out nothing while the queue is paused or stopped or a job is already
    /// current.
    pub fn next(&mut self) -> (r: Option<u64>)
        ensures
            !old(self).can_dequeue() ==> r is None && *final(self) == *old(self),
            old(self).can_dequeue() && old(self).priority_queue@.len() == 0 && old(
                self,
            ).pending_transfers@.len() == 0 ==> r is None && *final(self) == (DeviceQueue {
                status: QueueStatus::Idle,
                ..*old(self)
            }),
            old(self).can_dequeue() && old(self).priority_queue@.len() > 0 ==> ({
                let b = best_upto(
                    old(self).priority_queue@,
                    old(self).priority_queue@.len() as int,
                );
                &&& 0 <= b < old(self).priority_queue@.len()
                &&& r == Some(old(self).priority_queue@[b].job.id)
                &&& *final(self) == (DeviceQueue {
                    current_transfer: Some(old(self).priority_queue@[b].job),
                    priority_queue: final(self).priority_queue,
                    status: QueueStatus::Active,
                    ..*old(self)
                })
                &&& final(self).priority_queue@ == old(self).priority_queue@.remove(b)
            }),
            old(self).can_dequeue() && old(self).priority_queue@.len() == 0 && old(
                self,
            ).pending_transfers@.len() > 0 ==> r == Some(old(self).pending_transfers@[0].id)
                && *final(self) == (DeviceQueue {
                current_transfer: Some(old(self).pending_transfers@[0]),
                pending_transfers: final(self).pending_transfers,
                status: QueueStatus::Active,
                ..*old(self)
            }) && final(self).pending_transfers@ == old(self).pending_transfers@.drop_first(),
    {
        if matches!(self.status, QueueStatus::Paused | QueueStatus::Stopped) {
            return None;
        }
        if self.current_transfer.is_some() {
            return None;
        }
        let n = self.priority_queue.len();
        if n > 0 {
            let mut best: usize = 0;
            let mut k: usize = 1;
            while k < n
                invariant
                    1 <= k <= n,
                    n == self.priority_queue@.len(),
                    0 <= best < k,
                    best == best_upto(self.priority_queue@, k as int),
                decreases n - k,
            {
                if better_exec(&self.priority_queue[k], &self.priority_queue[best]) {
                    best = k;
                }
                k = k + 1;
            }
            let picked = self.priority_queue.remove(best);
            let id = picked.job.id;
            self.current_transfer = Some(picked.job);
            self.status = QueueStatus::Active;
            return Some(id);
        }
        if self.pending_transfers.len() > 0 {
            let job = self.pending_transfers.remove(0);
            let id = job.id;
            self.current_transfer = Some(job);
            self.status = QueueStatus::Active;
            proof {
                assert(old(self).pending_transfers@.remove(0)
                    =~= old(self).pending_transfers@.drop_first());
            }
            return Some(id);
        }
        self.status = QueueStatus::Idle;
        None
    }

    /// Files the current job as finished: it moves to the bounded history and
    /// the statistics grow by its outcome. The history bound is the queue's
    /// invariant: `new` starts within it and every call stays within it.
    pub fn complete_current(&mut self, result: TransferResult, completed_at_ms: u64)
        requires
            old(self).current_transfer is Some,
            old(self).completed_transfers@.len() <= COMPLETED_HISTORY_LIMIT,
        ensures
            final(self).current_transfer is None,
            ({
                let entry = CompletedTransfer {
                    job: old(self).current_transfer->Some_0,
                    result,
                    completed_at_ms,
                };
                let kept = if old(self).completed_transfers@.len() < COMPLETED_HISTORY_LIMIT {
                    old(self).completed_transfers@
                } else {
                    old(self).completed_transfers@.drop_first()
                };
                final(self).completed_transfers@ == kept.push(entry)
            }),
            final(self).completed_transfers@.len() <= COMPLETED_HISTORY_LIMIT,
            final(self).stats == stats_after(
                old(self).stats,
                result.status is Completed,
                result.total_bytes,
                result.duration_ms,
            ),
            final(self).pending_transfers == old(self).pending_transfers,
            final(self).priority_queue == old(self).priority_queue,
            final(self).status == old(self).status,
            final(self).device_path == old(self).device_path,
            final(self).device_name == old(self).device_name,
    {
        let job = self.current_transfer.take().unwrap();
        let success = matches!(result.status, TransferStatus::Completed);
        let bytes = result.total_bytes;
        let duration_ms = result.duration_ms;
        if self.completed_transfers.len() >= COMPLETED_HISTORY_LIMIT {
            self.completed_transfers.remove(0);
            proof {
                assert(old(self).completed_transfers@.remove(0)
                    =~= old(self).completed_transfers@.drop_first());
            }
        }
        self.completed_transfers.push(CompletedTransfer { job, result, completed_at_ms });
        self.stats.total_transfers = self.stats.total_transfers.saturating_add(1);
        if success {
            self.stats.successful_transfers = self.stats.successful_transfers.saturating_add(1);
        } else {
            self.stats.failed_transfers = self.stats.failed_transfers.saturating_add(1);
        }
        self.stats.total_bytes = self.stats.total_bytes.saturating_add(bytes);
        self.stats.total_duration_ms = self.stats.total_duration_ms.saturating_add(duration_ms);
    }

    /// Holds the queue: nothing more is dequeued until `resume`; the current
    /// job, if any, is not interrupted.
    pub fn pause(&mut self)
        ensures
            *final(self) == (DeviceQueue { status: QueueStatus::Paused, ..*old(self) }),
    {
        self.status = QueueStatus::Paused;
    }

    /// Lets the queue dispatch again.
    pub fn resume(&mut self)
        ensures
            *final(self) == (DeviceQueue {
                status: if old(self).current_transfer is Some {
                    QueueStatus::Active
                } else {
                    QueueStatus::Idle
                },
                ..*old(self)
            }),
    {
        if self.current_transfer.is_some() {
            self.status = QueueStatus::Active;
        } else {
            self.status = QueueStatus::Idle;
        }
    }
}

/// When the global policy says not to ask, the channel is never consulted;
/// and unless a sticky flag short-circuits first, the resolution is exactly
/// the mapped global default action.
pub proof fn lemma_no_confirmation_never_asks(
    settings: RuntimeConflictSettings,
    default_action: ConflictAction,
    has_channel: bool,
)
    ensures
        conflict_decision_spec(settings, default_action, false, has_channel)
            != ConflictDecision::AskChannel,
        !settings.overwrite_all && !settings.skip_all
            ==> conflict_decision_spec(settings, default_action, false, has_channel)
                == ConflictDecision::Resolved(map_action(default_action)),
{
}

} // verus!
