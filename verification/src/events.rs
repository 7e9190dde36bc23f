//! Outbound mutation events and the durable queue that holds them until a
//! publisher job drains them.
//!
//! Every committed store mutation produces exactly one event: either the
//! account was created, or it was updated — the latter carrying an audit
//! operation record when the update was a balance change, and none when it was
//! a metadata change.

use vstd::prelude::*;

use crate::account::{Account, AccountModel};

verus! {

/// The caller's stated reason for a balance change.
#[derive(Clone, Copy, Debug, PartialEq, Eq, Structural)]
pub enum UpdateBalanceReason {
    TradingResult,
    BalanceCorrection,
    Deposit,
    Withdrawal,
    WithdrawalCanceled,
    ToppingUp,
    Dividends,
    Bonus,
    Credit,
    Voucher,
}

/// The operation type stamped on the outbound audit record.
#[derive(Clone, Copy, Debug, PartialEq, Eq, Structural)]
pub enum BalanceOperationType {
    Trading,
    BalanceCorrection,
    Deposit,
    Withdrawal,
    WithdrawalCanceled,
    ToppingUp,
    Dividends,
    Bonus,
    Credit,
    Voucher,
}

/// How a caller's reason maps to the audit operation type.
pub open spec fn spec_operation_type_of(reason: UpdateBalanceReason) -> BalanceOperationType {
    match reason {
        UpdateBalanceReason::TradingResult => BalanceOperationType::Trading,
        UpdateBalanceReason::BalanceCorrection => BalanceOperationType::BalanceCorrection,
        UpdateBalanceReason::Deposit => BalanceOperationType::Deposit,
        UpdateBalanceReason::Withdrawal => BalanceOperationType::Withdrawal,
        UpdateBalanceReason::WithdrawalCanceled => BalanceOperationType::WithdrawalCanceled,
        UpdateBalanceReason::ToppingUp => BalanceOperationType::ToppingUp,
        UpdateBalanceReason::Dividends => BalanceOperationType::Dividends,
        UpdateBalanceReason::Bonus => BalanceOperationType::Bonus,
        UpdateBalanceReason::Credit => BalanceOperationType::Credit,
        UpdateBalanceReason::Voucher => BalanceOperationType::Voucher,
    }
}

/// Derives the audit operation type from the caller's stated reason.
pub fn operation_type_of(reason: UpdateBalanceReason) -> (r: BalanceOperationType)
    ensures
        r == spec_operation_type_of(reason),
{
    match reason {
        UpdateBalanceReason::TradingResult => BalanceOperationType::Trading,
        UpdateBalanceReason::BalanceCorrection => BalanceOperationType::BalanceCorrection,
        UpdateBalanceReason::Deposit => BalanceOperationType::Deposit,
        UpdateBalanceReason::Withdrawal => BalanceOperationType::Withdrawal,
        UpdateBalanceReason::WithdrawalCanceled => BalanceOperationType::WithdrawalCanceled,
        UpdateBalanceReason::ToppingUp => BalanceOperationType::ToppingUp,
        UpdateBalanceReason::Dividends => BalanceOperationType::Dividends,
        UpdateBalanceReason::Bonus => BalanceOperationType::Bonus,
        UpdateBalanceReason::Credit => BalanceOperationType::Credit,
        UpdateBalanceReason::Voucher => BalanceOperationType::Voucher,
    }
}

/// The audit record of one balance change: the system-generated transaction
/// id, the account it touched, the caller's process id, the delta applied,
/// and the optional comment and reference to a prior operation.
pub struct BalanceOperation {
    pub id: String,
    pub trader_id: String,
    pub account_id: String,
    pub operation_type: BalanceOperationType,
    pub process_id: Option<String>,
    pub delta: i64,
    pub date_time_unix_ms: u64,
    pub comment: Option<String>,
    pub reference_operation_id: Option<String>,
}

pub ghost struct BalanceOperationModel {
    pub id: Seq<char>,
    pub trader_id: Seq<char>,
    pub account_id: Seq<char>,
    pub operation_type: BalanceOperationType,
    pub process_id: Option<Seq<char>>,
    pub delta: int,
    pub date_time_unix_ms: int,
    pub comment: Option<Seq<char>>,
    pub reference_operation_id: Option<Seq<char>>,
}

/// The view of an optional string.
pub open spec fn opt_str_view(o: Option<String>) -> Option<Seq<char>> {
    match o {
        Option::Some(x) => Option::Some(x@),
        Option::None => Option::None,
    }
}

impl View for BalanceOperation {
    type V = BalanceOperationModel;

    open spec fn view(&self) -> BalanceOperationModel {
        BalanceOperationModel {
            id: self.id@,
            trader_id: self.trader_id@,
            account_id: self.account_id@,
            operation_type: self.operation_type,
            process_id: opt_str_view(self.process_id),
            delta: self.delta as int,
            date_time_unix_ms: self.date_time_unix_ms as int,
            comment: opt_str_view(self.comment),
            reference_operation_id: opt_str_view(self.reference_operation_id),
        }
    }
}

/// One outbound mutation event, published for downstream persistence and
/// analytics. An update carries an operation record exactly when it was a
/// balance change.
pub enum AccountEvent {
    Created(Account),
    Updated(Account, Option<BalanceOperation>),
}

pub ghost enum AccountEventModel {
    Created(AccountModel),
    Updated(AccountModel, Option<BalanceOperationModel>),
}

impl View for AccountEvent {
    type V = AccountEventModel;

    open spec fn view(&self) -> AccountEventModel {
        match self {
            AccountEvent::Created(a) => AccountEventModel::Created(a@),
            AccountEvent::Updated(a, op) => AccountEventModel::Updated(
                a@,
                match op {
                    Option::Some(o) => Option::Some(o@),
                    Option::None => Option::None,
                },
            ),
        }
    }
}

/// The view of an optional event.
pub open spec fn opt_event_view(o: Option<AccountEvent>) -> Option<AccountEventModel> {
    match o {
        Option::Some(e) => Option::Some(e@),
        Option::None => Option::None,
    }
}

/// One pending item of the durable outbound queue: the mutation that still
/// has to be published.
pub enum PersistAccountQueueItem {
    CreateAccount(Account),
    UpdateAccount(Account),
}

pub ghost enum PersistQueueItemModel {
    CreateAccount(AccountModel),
    UpdateAccount(AccountModel),
}

impl View for PersistAccountQueueItem {
    type V = PersistQueueItemModel;

    open spec fn view(&self) -> PersistQueueItemModel {
        match self {
            PersistAccountQueueItem::CreateAccount(a) => PersistQueueItemModel::CreateAccount(a@),
            PersistAccountQueueItem::UpdateAccount(a) => PersistQueueItemModel::UpdateAccount(a@),
        }
    }
}

/// The FIFO queue of mutation events that are committed but not yet
/// published. Its in-memory state is flushed to an on-disk backup by a
/// periodic persist job (the caller's I/O), so that queued-but-unpublished
/// mutations survive a restart.
pub struct AccountsPersistQueue {
    pub items: Vec<PersistAccountQueueItem>,
}

impl View for AccountsPersistQueue {
    type V = Seq<PersistQueueItemModel>;

    open spec fn view(&self) -> Seq<PersistQueueItemModel> {
        self.items@.map_values(|q: PersistAccountQueueItem| q@)
    }
}

impl AccountsPersistQueue {
    /// An empty queue, e.g. at a fresh start with no backup to recover.
    pub fn new() -> (r: Self)
        ensures
            r@ == Seq::<PersistQueueItemModel>::empty(),
    {
        let r = AccountsPersistQueue { items: Vec::new() };
        proof {
            assert(r@ =~= Seq::<PersistQueueItemModel>::empty());
        }
        r
    }

    /// Rebuilds the queue from recovered items, e.g. the backup read at
    /// startup.
    pub fn from_items(items: Vec<PersistAccountQueueItem>) -> (r: Self)
        ensures
            r@ == items@.map_values(|q: PersistAccountQueueItem| q@),
    {
        AccountsPersistQueue { items }
    }

    /// Appends one pending mutation at the back of the queue.
    pub fn enqueue(&mut self, item: PersistAccountQueueItem)
        ensures
            final(self)@ == old(self)@.push(item@),
    {
        let ghost m = item@;
        self.items.push(item);
        proof {
            assert(final(self)@ =~= old(self)@.push(m));
        }
    }

    /// Takes every queued item, front first, leaving the queue empty: the
    /// publish job's read side.
    pub fn dequeue_all(&mut self) -> (r: Vec<PersistAccountQueueItem>)
        ensures
            r@.map_values(|q: PersistAccountQueueItem| q@) == old(self)@,
            final(self)@ == Seq::<PersistQueueItemModel>::empty(),
    {
        let mut taken: Vec<PersistAccountQueueItem> = Vec::new();
        core::mem::swap(&mut taken, &mut self.items);
        proof {
            assert(final(self)@ =~= Seq::<PersistQueueItemModel>::empty());
        }
        taken
    }

    /// How many mutations are waiting to be published.
    pub fn len(&self) -> (r: usize)
        ensures
            r == self@.len(),
    {
        self.items.len()
    }
}

/// The event each queue item publishes as: a created account becomes a
/// creation event, an updated account an update event without an operation
/// record.
pub open spec fn spec_event_of_item(q: PersistQueueItemModel) -> AccountEventModel {
    match q {
        PersistQueueItemModel::CreateAccount(a) => AccountEventModel::Created(a),
        PersistQueueItemModel::UpdateAccount(a) => AccountEventModel::Updated(a, Option::None),
    }
}

/// Maps the drained queue items to the batch of events the publish job sends,
/// in queue order.
pub fn events_of_queue_items(items: &Vec<PersistAccountQueueItem>) -> (r: Vec<AccountEvent>)
    ensures
        r@.len() == items@.len(),
        forall|i: int|
            0 <= i < items@.len() ==> (#[trigger] r@[i])@ == spec_event_of_item(items@[i]@),
{
    let mut out: Vec<AccountEvent> = Vec::new();
    let mut i: usize = 0;
    while i < items.len()
        invariant
            i <= items@.len(),
            out@.len() == i,
            forall|j: int|
                0 <= j < i ==> (#[trigger] out@[j])@ == spec_event_of_item(items@[j]@),
        decreases items@.len() - i,
    {
        match &items[i] {
            PersistAccountQueueItem::CreateAccount(a) => {
                out.push(AccountEvent::Created(a.clone()));
            },
            PersistAccountQueueItem::UpdateAccount(a) => {
                out.push(AccountEvent::Updated(a.clone(), None));
            },
        }
        i = i + 1;
    }
    out
}

} // verus!
