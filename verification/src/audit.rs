use vstd::prelude::*;

use crate::table::Table;
use crate::types::Address;

verus! {

/// The entries that an audit log keeps: once it is full, a new entry takes the place of the
/// oldest.
pub const MAX_AUDIT_LOG_SIZE: u64 = 500;

/// The largest page of an audit log.
pub const MAX_PAGE_SIZE: u32 = 50;

/// The contract from which an admin action came.
#[derive(Clone, Copy, Debug, PartialEq, Eq, Structural)]
pub enum AuditSource {
    AccessControl,
    Treasury,
    RiskRegistry,
}

/// The kinds of admin action in the protocol.
#[derive(Clone, Copy, Debug, PartialEq, Eq, Structural)]
pub enum AdminActionType {
    Pause,
    Unpause,
    GrantRole,
    RevokeRole,
    TransferAdmin,
    ConfigureMultisig,
    ProposeUpgrade,
    ExecuteUpgrade,
    MultisigExecuteAction,
    ProposeParameter,
    ExecuteParameter,
    SetFeeBps,
    WhitelistToken,
    Withdraw,
    EmergencyWithdraw,
    ProposeWithdrawalCap,
    ExecuteWithdrawalCap,
    TreasuryProposeUpgrade,
    TreasuryExecuteUpgrade,
    AddVerifier,
    RemoveVerifier,
    RecordDefault,
    RegistryTransferAdmin,
    RegistryProposeUpgrade,
    RegistryExecuteUpgrade,
}

/// One admin action in an audit log.
#[derive(Clone, Copy, Debug, PartialEq, Eq, Structural)]
pub struct AdminAuditEntry {
    /// The number of actions that the log had recorded before this one.
    pub sequence: u64,
    /// The ledger's time at the action.
    pub timestamp: u64,
    /// The address that signed and executed the action.
    pub actor: Address,
    pub action: AdminActionType,
    pub source: AuditSource,
}

/// A log of admin actions, kept in a ring of [`MAX_AUDIT_LOG_SIZE`] positions.
pub struct AuditLog {
    /// The position that the next entry takes.
    pub head: u64,
    /// The actions ever recorded.
    pub total: u64,
    /// The entries, by position.
    pub entries: Table<u64, AdminAuditEntry>,
}

/// What an [`AuditLog`] holds.
#[verifier::ext_equal]
pub struct AuditLogView {
    pub head: u64,
    pub total: u64,
    pub entries: Map<u64, AdminAuditEntry>,
}

impl View for AuditLog {
    type V = AuditLogView;

    open spec fn view(&self) -> AuditLogView {
        AuditLogView { head: self.head, total: self.total, entries: self.entries@ }
    }
}

/// The position of the entry that lies so many entries behind the newest.
pub open spec fn ring_position(head: int, offset: int) -> u64 {
    ((head + MAX_AUDIT_LOG_SIZE - 1 - offset) % (MAX_AUDIT_LOG_SIZE as int)) as u64
}

/// A page size, brought into the range that is served.
pub open spec fn clamp_page_size(page_size: u32) -> u32 {
    if page_size < 1 {
        1
    } else if page_size > MAX_PAGE_SIZE {
        MAX_PAGE_SIZE
    } else {
        page_size
    }
}

pub open spec fn lesser(a: int, b: int) -> int {
    if a < b {
        a
    } else {
        b
    }
}

impl AuditLogView {
    /// The log before any action.
    pub open spec fn empty() -> Self {
        AuditLogView { head: 0, total: 0, entries: Map::empty() }
    }

    /// The next entry goes to a position of the ring.
    pub open spec fn wf(self) -> bool {
        self.head < MAX_AUDIT_LOG_SIZE
    }

    /// How many entries the ring holds.
    pub open spec fn stored(self) -> int {
        lesser(self.total as int, MAX_AUDIT_LOG_SIZE as int)
    }

    /// The entry that records an action next.
    pub open spec fn next_entry(
        self,
        timestamp: u64,
        actor: Address,
        action: AdminActionType,
        source: AuditSource,
    ) -> AdminAuditEntry {
        AdminAuditEntry { sequence: self.total, timestamp, actor, action, source }
    }

    /// The log with one more entry.
    pub open spec fn append(self, entry: AdminAuditEntry) -> Self {
        AuditLogView {
            head: ((self.head + 1) % (MAX_AUDIT_LOG_SIZE as int)) as u64,
            total: (self.total + 1) as u64,
            entries: self.entries.insert(self.head, entry),
        }
    }

    /// The entries that lie at least `from` and less than `to` entries behind the newest, newest
    /// first; positions that hold nothing are passed over.
    pub open spec fn between(self, from: int, to: int) -> Seq<AdminAuditEntry>
        decreases to - from,
    {
        if from >= to {
            Seq::empty()
        } else {
            let position = ring_position(self.head as int, to - 1);
            if self.entries.contains_key(position) {
                self.between(from, to - 1).push(self.entries[position])
            } else {
                self.between(from, to - 1)
            }
        }
    }

    /// Every position behind the head, as far as the log reaches, holds the entry that was recorded
    /// there last.
    pub open spec fn complete(self) -> bool {
        &&& self.head == self.total % MAX_AUDIT_LOG_SIZE
        &&& forall|offset: int|
            #![trigger ring_position(self.head as int, offset)]
            0 <= offset < self.stored() ==> {
                let position = ring_position(self.head as int, offset);
                &&& self.entries.contains_key(position)
                &&& self.entries[position].sequence == self.total - 1 - offset
            }
    }

    /// All entries of the ring, newest first.
    pub open spec fn newest_first(self) -> Seq<AdminAuditEntry> {
        Seq::new(
            self.stored() as nat,
            |offset: int| self.entries[ring_position(self.head as int, offset)],
        )
    }

    /// The positions of a page, those of the newest entries first.
    pub open spec fn page_positions(self, page: u32, page_size: u32) -> Seq<u64> {
        let size = clamp_page_size(page_size) as int;
        let start = page * size;
        let end = lesser(start + size, self.stored());
        Seq::new(
            (if start < end {
                end - start
            } else {
                0
            }) as nat,
            |i: int| ring_position(self.head as int, start + i),
        )
    }

    /// A page of the log, newest entries first.
    pub open spec fn page(self, page: u32, page_size: u32) -> Seq<AdminAuditEntry> {
        let size = clamp_page_size(page_size) as int;
        self.between(page * size, lesser(page * size + size, self.stored()))
    }
}

impl AuditLog {
    /// A log of no actions.
    pub fn new() -> (log: Self)
        ensures
            log@ == AuditLogView::empty(),
            log@.wf(),
            log@.complete(),
    {
        AuditLog { head: 0, total: 0, entries: Table::new() }
    }

    /// Records an action at the head of the ring.
    pub fn append(
        &mut self,
        timestamp: u64,
        actor: Address,
        action: AdminActionType,
        source: AuditSource,
    ) -> (entry: AdminAuditEntry)
        requires
            old(self)@.wf(),
            old(self)@.total < u64::MAX,
        ensures
            entry == old(self)@.next_entry(timestamp, actor, action, source),
            final(self)@ == old(self)@.append(entry),
            final(self)@.wf(),
            old(self)@.complete() ==> final(self)@.complete(),
    {
        proof {
            if self@.complete() {
                append_is_newest(
                    self@,
                    self@.next_entry(timestamp, actor, action, source),
                );
            }
        }
        let entry = AdminAuditEntry { sequence: self.total, timestamp, actor, action, source };
        self.entries.set(self.head, entry);
        self.head = (self.head + 1) % MAX_AUDIT_LOG_SIZE;
        self.total = self.total + 1;
        entry
    }

    /// The positions that a page of the log is read from, those of the newest entries first.
    pub fn page_positions(&self, page: u32, page_size: u32) -> (r: Vec<u64>)
        requires
            self@.wf(),
        ensures
            r@ == self@.page_positions(page, page_size),
    {
        let size: u64 = if page_size < 1 {
            1
        } else if page_size > MAX_PAGE_SIZE {
            MAX_PAGE_SIZE as u64
        } else {
            page_size as u64
        };
        let stored: u64 = if self.total < MAX_AUDIT_LOG_SIZE {
            self.total
        } else {
            MAX_AUDIT_LOG_SIZE
        };
        assert(page * size <= u32::MAX * 50) by (nonlinear_arith)
            requires
                page <= u32::MAX,
                size <= 50,
        ;
        assert(0 <= page * size) by (nonlinear_arith);
        let skip: u64 = page as u64 * size;
        let mut positions: Vec<u64> = Vec::new();
        let mut i: u64 = 0;
        while i < size && skip + i < stored
            invariant
                self@.wf(),
                size <= 50,
                i <= size,
                stored == self@.stored(),
                skip <= u32::MAX * 50,
                skip + i <= stored || i == 0,
                positions@.len() == i,
                forall|j: int| 0 <= j < i ==> positions@[j] == ring_position(
                    self@.head as int,
                    skip + j,
                ),
            decreases size - i,
        {
            let position: u64 = (self.head + MAX_AUDIT_LOG_SIZE - 1 - (skip + i))
                % MAX_AUDIT_LOG_SIZE;
            assert(position == ring_position(self@.head as int, skip + i));
            positions.push(position);
            i += 1;
        }
        assert(positions@ =~= self@.page_positions(page, page_size));
        positions
    }

    /// Reads a page of the log, newest entries first.
    pub fn read_page(&self, page: u32, page_size: u32) -> (r: Vec<AdminAuditEntry>)
        requires
            self@.wf(),
        ensures
            r@ == self@.page(page, page_size),
    {
        let positions = self.page_positions(page, page_size);
        let ghost start = page * (clamp_page_size(page_size) as int);
        let mut results: Vec<AdminAuditEntry> = Vec::new();
        let mut i: usize = 0;
        while i < positions.len()
            invariant
                i <= positions.len(),
                start == page * (clamp_page_size(page_size) as int),
                positions@ == self@.page_positions(page, page_size),
                results@ == self@.between(start, start + i),
            decreases positions.len() - i,
        {
            match self.entries.get(&positions[i]) {
                Some(entry) => {
                    results.push(entry);
                },
                None => {},
            }
            i += 1;
        }
        results
    }
}

/// Stepping the head forward moves every entry one further behind the newest.
proof fn lemma_ring_step(head: int, offset: int)
    requires
        0 <= head < MAX_AUDIT_LOG_SIZE,
        0 <= offset < MAX_AUDIT_LOG_SIZE,
    ensures
        offset == 0 ==> ring_position((head + 1) % (MAX_AUDIT_LOG_SIZE as int), offset) == head,
        offset > 0 ==> {
            &&& ring_position((head + 1) % (MAX_AUDIT_LOG_SIZE as int), offset) == ring_position(
                head,
                offset - 1,
            )
            &&& ring_position(head, offset - 1) != head
        },
{
}

/// An appended entry becomes the newest one. The entries that were there stay behind it in their
/// order, but for the oldest of a full log, which it replaces. A complete log stays complete.
pub proof fn append_is_newest(log: AuditLogView, entry: AdminAuditEntry)
    requires
        log.complete(),
        log.total < u64::MAX,
        entry.sequence == log.total,
    ensures
        log.append(entry).complete(),
        log.append(entry).newest_first() == seq![entry] + log.newest_first().take(
            lesser(log.stored(), MAX_AUDIT_LOG_SIZE - 1),
        ),
{
    let after = log.append(entry);
    assert((log.total + 1) % 500 == (log.total % 500 + 1) % 500);
    assert forall|offset: int|
        #![trigger ring_position(after.head as int, offset)]
        0 <= offset < after.stored() implies {
        let position = ring_position(after.head as int, offset);
        &&& after.entries.contains_key(position)
        &&& after.entries[position].sequence == after.total - 1 - offset
    } by {
        lemma_ring_step(log.head as int, offset);
        if offset > 0 {
            assert(log.entries.contains_key(ring_position(log.head as int, offset - 1)));
        }
    }
    let lhs = after.newest_first();
    let rhs = seq![entry] + log.newest_first().take(lesser(log.stored(), MAX_AUDIT_LOG_SIZE - 1));
    assert forall|offset: int| 0 <= offset < lhs.len() implies lhs[offset] == rhs[offset] by {
        lemma_ring_step(log.head as int, offset);
    }
    assert(lhs =~= rhs);
}

/// The entries of a complete log are numbered without gaps, up to the last action recorded.
pub proof fn newest_first_is_numbered(log: AuditLogView, offset: int)
    requires
        log.complete(),
        0 <= offset < log.stored(),
    ensures
        log.newest_first()[offset].sequence == log.total - 1 - offset,
{
    assert(log.entries.contains_key(ring_position(log.head as int, offset)));
}

/// In a complete log no position is passed over.
proof fn lemma_between_is_subrange(log: AuditLogView, from: int, to: int)
    requires
        log.complete(),
        0 <= from <= to <= log.stored(),
    ensures
        log.between(from, to) == log.newest_first().subrange(from, to),
    decreases to - from,
{
    if from < to {
        lemma_between_is_subrange(log, from, to - 1);
        assert(log.entries.contains_key(ring_position(log.head as int, to - 1)));
        assert(log.newest_first().subrange(from, to) =~= log.newest_first().subrange(
            from,
            to - 1,
        ).push(log.newest_first()[to - 1]));
    } else {
        assert(log.newest_first().subrange(from, to) =~= Seq::empty());
    }
}

/// A page of a complete log is the stretch of the entries, newest first, that starts after the
/// pages before it and ends where the page or the log does.
pub proof fn page_is_stretch(log: AuditLogView, page: u32, page_size: u32)
    requires
        log.complete(),
    ensures
        ({
            let size = clamp_page_size(page_size) as int;
            let start = lesser(page * size, log.stored());
            let end = lesser(page * size + size, log.stored());
            log.page(page, page_size) == log.newest_first().subrange(start, end)
        }),
{
    let size = clamp_page_size(page_size) as int;
    assert(0 <= page * size) by (nonlinear_arith)
        requires
            size >= 1,
            page >= 0,
    ;
    if page * size <= log.stored() {
        lemma_between_is_subrange(log, page * size, lesser(page * size + size, log.stored()));
    } else {
        assert(log.newest_first().subrange(log.stored(), log.stored()) =~= Seq::empty());
    }
}

/// The first pages of a complete log, one after the other, are the entries newest first: pages
/// neither overlap nor leave a gap.
pub proof fn pages_join(log: AuditLogView, page: u32, page_size: u32)
    requires
        log.complete(),
    ensures
        ({
            let size = clamp_page_size(page_size) as int;
            let start = lesser(page * size, log.stored());
            let end = lesser(page * size + size, log.stored());
            log.newest_first().take(start) + log.page(page, page_size)
                == log.newest_first().take(end)
        }),
{
    page_is_stretch(log, page, page_size);
    let size = clamp_page_size(page_size) as int;
    assert(0 <= page * size) by (nonlinear_arith)
        requires
            size >= 1,
            page >= 0,
    ;
    let start = lesser(page * size, log.stored());
    let end = lesser(page * size + size, log.stored());
    assert(log.newest_first().take(start) + log.newest_first().subrange(start, end)
        =~= log.newest_first().take(end));
}

/// The log in which some entries were recorded, one after the other.
pub open spec fn log_of(entries: Seq<AdminAuditEntry>) -> AuditLogView
    decreases entries.len(),
{
    if entries.len() == 0 {
        AuditLogView::empty()
    } else {
        log_of(entries.drop_last()).append(entries.last())
    }
}

/// An action is recorded at the head with the number of actions before it, and the head moves on by
/// one position, round a ring of five hundred.
pub proof fn actions_are_recorded_at_the_head(
    log: AuditLogView,
    timestamp: u64,
    actor: Address,
    action: AdminActionType,
    source: AuditSource,
)
    requires
        log.wf(),
        log.total < u64::MAX,
    ensures
        ({
            let entry = log.next_entry(timestamp, actor, action, source);
            let after = log.append(entry);
            &&& entry == AdminAuditEntry { sequence: log.total, timestamp, actor, action, source }
            &&& after.entries == log.entries.insert(log.head, entry)
            &&& after.total == log.total + 1
            &&& after.head == (if log.head == 499 {
                0
            } else {
                log.head + 1
            })
        }),
{
}

/// Behind the newest entry of a log lie the others in the order in which they were recorded.
proof fn lemma_log_of(entries: Seq<AdminAuditEntry>)
    requires
        entries.len() <= u64::MAX,
        forall|i: int| 0 <= i < entries.len() ==> (#[trigger] entries[i]).sequence == i,
    ensures
        log_of(entries).complete(),
        log_of(entries).total == entries.len(),
        forall|offset: int|
            0 <= offset < log_of(entries).stored() ==> #[trigger] log_of(
                entries,
            ).newest_first()[offset] == entries[entries.len() - 1 - offset],
    decreases entries.len(),
{
    if entries.len() > 0 {
        let earlier = entries.drop_last();
        assert forall|i: int| 0 <= i < earlier.len() implies (#[trigger] earlier[i]).sequence
            == i by {
            assert(earlier[i] == entries[i]);
        }
        lemma_log_of(earlier);
        let before = log_of(earlier);
        assert(entries.last() == entries[entries.len() - 1]);
        append_is_newest(before, entries.last());
        let kept = lesser(before.stored(), MAX_AUDIT_LOG_SIZE - 1);
        let rest = before.newest_first().take(kept);
        let after = log_of(entries);
        assert(after.newest_first() == seq![entries.last()] + rest);
        assert forall|offset: int| 0 <= offset < after.stored() implies #[trigger]
            after.newest_first()[offset] == entries[entries.len() - 1 - offset] by {
            if offset > 0 {
                assert(after.newest_first()[offset] == rest[offset - 1]);
                assert(before.newest_first()[offset - 1] == earlier[earlier.len() - offset]);
            }
        }
    }
}

/// A log serves the last five hundred actions, newest first, in pages of one to fifty: the entry at
/// a place on a page is the action that lies as many actions back as there are places before it on
/// this page and the pages before. A page is full unless the log ends on it.
pub proof fn pages_serve_the_last_actions(
    entries: Seq<AdminAuditEntry>,
    page: u32,
    page_size: u32,
    size: int,
)
    requires
        entries.len() <= u64::MAX,
        forall|i: int| 0 <= i < entries.len() ==> (#[trigger] entries[i]).sequence == i,
        size == (if page_size == 0 {
            1
        } else if page_size > 50 {
            50
        } else {
            page_size as int
        }),
    ensures
        ({
            let served = log_of(entries).page(page, page_size);
            let kept: int = if entries.len() < 500 {
                entries.len() as int
            } else {
                500
            };
            let left = kept - page * size;
            &&& served.len() == (if left <= 0 {
                0
            } else if left < size {
                left
            } else {
                size
            })
            &&& forall|i: int|
                0 <= i < served.len() ==> #[trigger] served[i] == entries[entries.len() - 1 - (page
                    * size + i)]
        }),
{
    lemma_log_of(entries);
    let log = log_of(entries);
    page_is_stretch(log, page, page_size);
    assert(0 <= page * size) by (nonlinear_arith)
        requires
            size >= 1,
            page >= 0,
    ;
    let served = log.page(page, page_size);
    assert forall|i: int| 0 <= i < served.len() implies #[trigger] served[i] == entries[
        entries.len() - 1 - (page * size + i)] by {
        assert(served[i] == log.newest_first()[page * size + i]);
    }
}

/// The positions of a page are where its entries are kept.
pub proof fn page_positions_hold_the_page(log: AuditLogView, page: u32, page_size: u32)
    requires
        log.complete(),
    ensures
        ({
            let positions = log.page_positions(page, page_size);
            let served = log.page(page, page_size);
            &&& positions.len() == served.len()
            &&& forall|i: int|
                0 <= i < served.len() ==> #[trigger] positions[i] < 500
                    && log.entries.contains_key(positions[i]) && served[i]
                    == log.entries[positions[i]]
        }),
{
    page_is_stretch(log, page, page_size);
    let size = clamp_page_size(page_size) as int;
    assert(0 <= page * size) by (nonlinear_arith)
        requires
            size >= 1,
            page >= 0,
    ;
    let positions = log.page_positions(page, page_size);
    let served = log.page(page, page_size);
    assert forall|i: int| 0 <= i < served.len() implies #[trigger] positions[i] < 500
        && log.entries.contains_key(positions[i]) && served[i] == log.entries[positions[i]] by {
        assert(log.entries.contains_key(ring_position(log.head as int, page * size + i)));
        assert(served[i] == log.newest_first()[page * size + i]);
    }
}

} // verus!
