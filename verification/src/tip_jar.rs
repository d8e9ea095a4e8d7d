//! The tipping ledger: one per chain.
//!
//! Locally initiated operations (deposit, withdraw, send-tip, connect,
//! disconnect) validate against the current state and apply; a successful
//! send-tip debits the sender at once and emits one outbound notification,
//! which the host delivers to the destination chain as a `ReceiveTip`
//! message.  The destination credits itself and records the transfer under
//! the identifier the sender generated; a confirmation delivered back to the
//! sender settles the sender's own pending record.
//!
//! Every handler's contract is stated against the mathematical model
//! [`TipJarModel`] through the spec transition functions below.

use vstd::prelude::*;

use crate::host::{ApplicationCallResult, ChainId, ContractError, ExecutionContext, ExecutionResult};
use crate::ids::{deposit_id, deposit_id_seq, tip_id, tip_id_seq, withdraw_id, withdraw_id_seq};

verus! {

/// Types of transactions.
#[derive(Clone, Copy, Debug, PartialEq, Eq, Structural)]
pub enum TransactionType {
    /// Incoming tip.
    TipReceived,
    /// Outgoing tip.
    TipSent,
    /// Balance deposit.
    Deposit,
    /// Balance withdrawal.
    Withdrawal,
}

/// A transaction record.  Immutable once appended, except that a pending
/// outgoing tip's `transaction_type` settles when its confirmation arrives.
#[derive(Debug, PartialEq, Eq)]
pub struct Transaction {
    /// Transaction identifier; for a cross-chain transfer the sender's and
    /// the receiver's records share it.
    pub id: String,
    /// Amount moved.
    pub amount: u64,
    /// Source chain.
    pub from_chain: ChainId,
    /// Destination chain.
    pub to_chain: ChainId,
    /// Kind of movement.
    pub transaction_type: TransactionType,
    /// Host-supplied clock value at creation, in milliseconds.
    pub timestamp: u64,
}

/// Mathematical model of a [`Transaction`].
#[verifier::ext_equal]
pub struct TransactionModel {
    pub id: Seq<char>,
    pub amount: u64,
    pub from_chain: Seq<u8>,
    pub to_chain: Seq<u8>,
    pub transaction_type: TransactionType,
    pub timestamp: u64,
}

impl View for Transaction {
    type V = TransactionModel;

    open spec fn view(&self) -> TransactionModel {
        TransactionModel {
            id: self.id@,
            amount: self.amount,
            from_chain: self.from_chain@,
            to_chain: self.to_chain@,
            transaction_type: self.transaction_type,
            timestamp: self.timestamp,
        }
    }
}

impl DeepView for Transaction {
    type V = TransactionModel;

    open spec fn deep_view(&self) -> TransactionModel {
        self.view()
    }
}

impl Clone for Transaction {
    fn clone(&self) -> (r: Self)
        ensures
            r == *self,
    {
        Transaction {
            id: self.id.clone(),
            amount: self.amount,
            from_chain: self.from_chain,
            to_chain: self.to_chain,
            transaction_type: self.transaction_type,
            timestamp: self.timestamp,
        }
    }
}

/// The state of the tip jar application on one chain.
#[derive(Debug)]
pub struct TipJar {
    /// The current balance.
    pub balance: u64,
    /// Chains this ledger is connected to for cross-chain tipping.
    pub connections: Vec<ChainId>,
    /// Append-only transaction history.
    pub transactions: Vec<Transaction>,
    /// The owner of this tip jar.
    pub owner: String,
}

/// Mathematical model of a [`TipJar`].
#[verifier::ext_equal]
pub struct TipJarModel {
    pub balance: u64,
    pub connections: Seq<Seq<u8>>,
    pub transactions: Seq<TransactionModel>,
    pub owner: Seq<char>,
}

impl View for TipJar {
    type V = TipJarModel;

    open spec fn view(&self) -> TipJarModel {
        TipJarModel {
            balance: self.balance,
            connections: self.connections.deep_view(),
            transactions: self.transactions.deep_view(),
            owner: self.owner@,
        }
    }
}

/// Locally initiated actions on the owning chain.
#[derive(Clone, Copy, Debug)]
pub enum TipJarOperation {
    /// Deposits funds into the tip jar.
    Deposit { amount: u64 },
    /// Withdraws funds from the tip jar.
    Withdraw { amount: u64 },
    /// Sends a tip to another chain.
    SendTip { to_chain: ChainId, amount: u64 },
    /// Connects to another chain for cross-chain operations.
    ConnectChain { chain_id: ChainId },
    /// Disconnects from a chain.
    DisconnectChain { chain_id: ChainId },
}

/// Inputs delivered by the host on behalf of other chains.
#[derive(Debug)]
pub enum TipJarMessage {
    /// Credits a tip sent by another chain.
    ReceiveTip { from_chain: ChainId, amount: u64, transaction_id: String },
    /// Confirmation of a successful tip, delivered back to the sender.
    TipSent { to_chain: ChainId, amount: u64, transaction_id: String },
}

/// Calls made by other applications.
#[derive(Debug)]
pub enum TipJarApplicationCall {
    /// Deposits funds into the tip jar.
    Deposit { amount: u64 },
    /// Withdraws funds from the tip jar.
    Withdraw { amount: u64 },
    /// Sends a tip to another chain.
    SendTip { to_chain: ChainId, amount: u64 },
    /// Gets the current balance.
    GetBalance,
    /// Gets the transaction history.
    GetTransactions,
    /// Gets connected chains.
    GetConnections,
    /// Connects to another chain.
    ConnectChain { chain_id: ChainId },
}

/// Session-style calls; the feature is not offered.
#[derive(Clone, Copy, Debug)]
pub enum TipJarSessionCall {
    /// Gets the current balance.
    GetBalance,
    /// Gets the transaction history.
    GetTransactions,
}

/// Outbound notifications for the host to deliver.
#[derive(Debug)]
pub enum TipJarEffect {
    /// Notifies `to_chain` of a tip, carrying the identifier under which the
    /// sender recorded it.
    SendTip { to_chain: ChainId, amount: u64, transaction_id: String },
    /// Connects to another chain.
    ConnectChain { chain_id: ChainId },
}

/// Mathematical model of a [`TipJarEffect`].
#[verifier::ext_equal]
pub enum TipJarEffectModel {
    SendTip { to_chain: Seq<u8>, amount: u64, transaction_id: Seq<char> },
    ConnectChain { chain_id: Seq<u8> },
}

impl View for TipJarEffect {
    type V = TipJarEffectModel;

    open spec fn view(&self) -> TipJarEffectModel {
        match self {
            TipJarEffect::SendTip { to_chain, amount, transaction_id } => {
                TipJarEffectModel::SendTip {
                    to_chain: to_chain@,
                    amount: *amount,
                    transaction_id: transaction_id@,
                }
            },
            TipJarEffect::ConnectChain { chain_id } => {
                TipJarEffectModel::ConnectChain { chain_id: chain_id@ }
            },
        }
    }
}

impl DeepView for TipJarEffect {
    type V = TipJarEffectModel;

    open spec fn deep_view(&self) -> TipJarEffectModel {
        self.view()
    }
}

/// Response values handed back to an application caller.
#[derive(Debug)]
pub enum TipJarResponse {
    /// The current balance.
    Balance(u64),
    /// A copy of the transaction history.
    Transactions(Vec<Transaction>),
    /// A copy of the connected chains.
    Connections(Vec<ChainId>),
}

/// Whether a validated local action was applied or rejected.  The public
/// handler surface stays silent on rejection; this result lets callers
/// inside the trust boundary, and tests, tell the two apart.
#[derive(Clone, Copy, Debug, PartialEq, Eq, Structural)]
pub enum OperationStatus {
    /// The action mutated the ledger.
    Applied,
    /// The action was rejected for insufficient balance and the ledger is
    /// unchanged.
    InsufficientFunds,
}

/// The model of a freshly initialized ledger.
pub open spec fn fresh_ledger() -> TipJarModel {
    TipJarModel {
        balance: 0,
        connections: Seq::empty(),
        transactions: Seq::empty(),
        owner: "default-owner"@,
    }
}

/// Deposit: credit unconditionally and append a `Deposit` record named
/// after the log position it lands in.
pub open spec fn spec_deposit(m: TipJarModel, amount: u64, chain: Seq<u8>, now: u64) -> TipJarModel {
    TipJarModel {
        balance: (m.balance + amount) as u64,
        connections: m.connections,
        transactions: m.transactions.push(
            TransactionModel {
                id: deposit_id_seq(m.transactions.len()),
                amount: amount,
                from_chain: chain,
                to_chain: chain,
                transaction_type: TransactionType::Deposit,
                timestamp: now,
            },
        ),
        owner: m.owner,
    }
}

/// Withdraw: debit and append a `Withdrawal` record when the balance
/// suffices; otherwise leave the ledger untouched.
pub open spec fn spec_withdraw(m: TipJarModel, amount: u64, chain: Seq<u8>, now: u64) -> TipJarModel {
    if amount <= m.balance {
        TipJarModel {
            balance: (m.balance - amount) as u64,
            connections: m.connections,
            transactions: m.transactions.push(
                TransactionModel {
                    id: withdraw_id_seq(m.transactions.len()),
                    amount: amount,
                    from_chain: chain,
                    to_chain: chain,
                    transaction_type: TransactionType::Withdrawal,
                    timestamp: now,
                },
            ),
            owner: m.owner,
        }
    } else {
        m
    }
}

/// Send-tip: when the balance suffices, debit at once, append a pending
/// `TipSent` record under a generated identifier, and emit exactly one
/// outbound notification carrying that identifier; otherwise no mutation
/// and no effect.
pub open spec fn spec_send_tip(
    m: TipJarModel,
    to_chain: Seq<u8>,
    amount: u64,
    chain: Seq<u8>,
    now: u64,
) -> (TipJarModel, Seq<TipJarEffectModel>) {
    if amount <= m.balance {
        let id = tip_id_seq(m.transactions.len());
        (
            TipJarModel {
                balance: (m.balance - amount) as u64,
                connections: m.connections,
                transactions: m.transactions.push(
                    TransactionModel {
                        id: id,
                        amount: amount,
                        from_chain: chain,
                        to_chain: to_chain,
                        transaction_type: TransactionType::TipSent,
                        timestamp: now,
                    },
                ),
                owner: m.owner,
            },
            seq![
                TipJarEffectModel::SendTip { to_chain: to_chain, amount: amount, transaction_id: id },
            ],
        )
    } else {
        (m, Seq::empty())
    }
}

/// Connect: add the chain to the connection set if absent (set semantics).
pub open spec fn spec_connect(m: TipJarModel, chain_id: Seq<u8>) -> TipJarModel {
    if m.connections.contains(chain_id) {
        m
    } else {
        TipJarModel {
            balance: m.balance,
            connections: m.connections.push(chain_id),
            transactions: m.transactions,
            owner: m.owner,
        }
    }
}

/// The connections left after removing every occurrence of `c`, order kept.
pub open spec fn remove_chain(s: Seq<Seq<u8>>, c: Seq<u8>) -> Seq<Seq<u8>>
    decreases s.len(),
{
    if s.len() == 0 {
        Seq::empty()
    } else {
        let rest = remove_chain(s.drop_last(), c);
        if s.last() == c {
            rest
        } else {
            rest.push(s.last())
        }
    }
}

/// Disconnect: remove every occurrence of the chain (idempotent).
pub open spec fn spec_disconnect(m: TipJarModel, chain_id: Seq<u8>) -> TipJarModel {
    TipJarModel {
        balance: m.balance,
        connections: remove_chain(m.connections, chain_id),
        transactions: m.transactions,
        owner: m.owner,
    }
}

/// Receive-tip: credit unconditionally (the sender already debited itself)
/// and append a `TipReceived` record under the identifier the sender chose.
pub open spec fn spec_receive_tip(
    m: TipJarModel,
    from_chain: Seq<u8>,
    amount: u64,
    transaction_id: Seq<char>,
    chain: Seq<u8>,
    now: u64,
) -> TipJarModel {
    TipJarModel {
        balance: (m.balance + amount) as u64,
        connections: m.connections,
        transactions: m.transactions.push(
            TransactionModel {
                id: transaction_id,
                amount: amount,
                from_chain: from_chain,
                to_chain: chain,
                transaction_type: TransactionType::TipReceived,
                timestamp: now,
            },
        ),
        owner: m.owner,
    }
}

/// The index of the first record carrying `id`, or `-1` if there is none.
pub open spec fn find_transaction(txs: Seq<TransactionModel>, id: Seq<char>) -> int
    decreases txs.len(),
{
    if txs.len() == 0 {
        -1
    } else if txs[0].id == id {
        0
    } else {
        let r = find_transaction(txs.drop_first(), id);
        if r == -1 {
            -1
        } else {
            r + 1
        }
    }
}

/// Confirmation: settle the first record carrying `id` by flipping its kind
/// to `TipSent`; drop the confirmation silently when no record matches.
/// The balance is untouched either way.
pub open spec fn spec_confirm_tip(m: TipJarModel, id: Seq<char>) -> TipJarModel {
    let i = find_transaction(m.transactions, id);
    if i == -1 {
        m
    } else {
        TipJarModel {
            balance: m.balance,
            connections: m.connections,
            transactions: m.transactions.update(
                i,
                TransactionModel { transaction_type: TransactionType::TipSent, ..m.transactions[i] },
            ),
            owner: m.owner,
        }
    }
}

impl TipJar {
    /// Sets up a fresh ledger: zero balance, no connections, no history.
    pub fn initialize(&mut self) -> (r: ExecutionResult<TipJarEffect>)
        ensures
            final(self)@ == fresh_ledger(),
            r.effects@ == Seq::<TipJarEffect>::empty(),
    {
        self.balance = 0;
        self.connections = Vec::new();
        self.transactions = Vec::new();
        self.owner = "default-owner".to_owned();
        proof {
            assert(self@ =~= fresh_ledger());
        }
        ExecutionResult::new()
    }

    /// Increases the balance unconditionally and appends a `Deposit` record.
    pub fn deposit(&mut self, ctx: &ExecutionContext, amount: u64)
        requires
            old(self).balance + amount <= u64::MAX,
        ensures
            final(self)@ == spec_deposit(old(self)@, amount, ctx.chain_id@, ctx.timestamp),
    {
        self.balance = self.balance + amount;
        let id = deposit_id(self.transactions.len() as u64);
        let transaction = Transaction {
            id,
            amount,
            from_chain: ctx.chain_id,
            to_chain: ctx.chain_id,
            transaction_type: TransactionType::Deposit,
            timestamp: ctx.timestamp,
        };
        self.transactions.push(transaction);
        proof {
            assert(self@ =~= spec_deposit(old(self)@, amount, ctx.chain_id@, ctx.timestamp));
        }
    }

    /// Decreases the balance and appends a `Withdrawal` record only when the
    /// balance suffices; an insufficient request leaves the ledger
    /// byte-for-byte unchanged.
    pub fn withdraw(&mut self, ctx: &ExecutionContext, amount: u64) -> (status: OperationStatus)
        ensures
            final(self)@ == spec_withdraw(old(self)@, amount, ctx.chain_id@, ctx.timestamp),
            status == OperationStatus::Applied <==> amount <= old(self).balance,
            amount > old(self).balance ==> *final(self) == *old(self),
    {
        if amount <= self.balance {
            self.balance = self.balance - amount;
            let id = withdraw_id(self.transactions.len() as u64);
            let transaction = Transaction {
                id,
                amount,
                from_chain: ctx.chain_id,
                to_chain: ctx.chain_id,
                transaction_type: TransactionType::Withdrawal,
                timestamp: ctx.timestamp,
            };
            self.transactions.push(transaction);
            proof {
                assert(self@ =~= spec_withdraw(old(self)@, amount, ctx.chain_id@, ctx.timestamp));
            }
            OperationStatus::Applied
        } else {
            OperationStatus::InsufficientFunds
        }
    }

    /// Debits the sender, appends a pending `TipSent` record, and emits one
    /// notification to the destination chain, all only when the balance
    /// suffices; otherwise no mutation and no effect.
    pub fn send_tip(&mut self, ctx: &ExecutionContext, to_chain: ChainId, amount: u64) -> (r: (
        OperationStatus,
        ExecutionResult<TipJarEffect>,
    ))
        ensures
            ({
                let (m, effects) = spec_send_tip(
                    old(self)@,
                    to_chain@,
                    amount,
                    ctx.chain_id@,
                    ctx.timestamp,
                );
                final(self)@ == m && r.1.effects.deep_view() == effects
            }),
            r.0 == OperationStatus::Applied <==> amount <= old(self).balance,
            amount > old(self).balance ==> *final(self) == *old(self),
    {
        if amount <= self.balance {
            self.balance = self.balance - amount;
            let transaction_id = tip_id(self.transactions.len() as u64);
            let transaction = Transaction {
                id: transaction_id.clone(),
                amount,
                from_chain: ctx.chain_id,
                to_chain,
                transaction_type: TransactionType::TipSent,
                timestamp: ctx.timestamp,
            };
            self.transactions.push(transaction);
            let mut effects: Vec<TipJarEffect> = Vec::new();
            effects.push(TipJarEffect::SendTip { to_chain, amount, transaction_id });
            let result = ExecutionResult { effects };
            proof {
                let (m, effects_model) = spec_send_tip(
                    old(self)@,
                    to_chain@,
                    amount,
                    ctx.chain_id@,
                    ctx.timestamp,
                );
                assert(self@ =~= m);
                assert(result.effects.deep_view() =~= effects_model);
            }
            (OperationStatus::Applied, result)
        } else {
            let result = ExecutionResult::new();
            proof {
                assert(result.effects.deep_view() =~= Seq::<TipJarEffectModel>::empty());
            }
            (OperationStatus::InsufficientFunds, result)
        }
    }

    /// Adds the chain to the connection set if it is not already present.
    pub fn connect(&mut self, chain_id: ChainId)
        ensures
            final(self)@ == spec_connect(old(self)@, chain_id@),
    {
        if !contains_chain(&self.connections, &chain_id) {
            self.connections.push(chain_id);
            proof {
                assert(self@ =~= spec_connect(old(self)@, chain_id@));
            }
        }
    }

    /// Removes every occurrence of the chain from the connection set.
    pub fn disconnect(&mut self, chain_id: ChainId)
        ensures
            final(self)@ == spec_disconnect(old(self)@, chain_id@),
    {
        let mut kept: Vec<ChainId> = Vec::new();
        let mut i: usize = 0;
        proof {
            assert(self.connections.deep_view().subrange(0, 0) =~= Seq::<Seq<u8>>::empty());
        }
        while i < self.connections.len()
            invariant
                i <= self.connections.len(),
                self.connections == old(self).connections,
                self.balance == old(self).balance,
                self.transactions == old(self).transactions,
                self.owner == old(self).owner,
                kept.deep_view() == remove_chain(
                    self.connections.deep_view().subrange(0, i as int),
                    chain_id@,
                ),
            decreases self.connections.len() - i,
        {
            let ghost prefix = self.connections.deep_view().subrange(0, i as int);
            let ghost next = self.connections.deep_view().subrange(0, i as int + 1);
            proof {
                assert(next.drop_last() =~= prefix);
                assert(next.last() == self.connections.deep_view()[i as int]);
            }
            if !self.connections[i].same_as(&chain_id) {
                kept.push(self.connections[i]);
            }
            proof {
                assert(kept.deep_view() =~= remove_chain(next, chain_id@));
            }
            i += 1;
        }
        proof {
            assert(self.connections.deep_view().subrange(0, self.connections.len() as int)
                =~= self.connections.deep_view());
        }
        self.connections = kept;
        proof {
            assert(self@ =~= spec_disconnect(old(self)@, chain_id@));
        }
    }
}

impl TipJar {
    /// Validates and applies one locally initiated operation; a successful
    /// send-tip is the only path that emits an effect.  Rejections are
    /// silent: the ledger is left untouched and no error surfaces.
    pub fn execute_operation(&mut self, ctx: &ExecutionContext, operation: TipJarOperation) -> (r:
        ExecutionResult<TipJarEffect>)
        requires
            (match operation {
                TipJarOperation::Deposit { amount } => old(self).balance + amount <= u64::MAX,
                _ => true,
            }),
        ensures
            (match operation {
                TipJarOperation::Deposit { amount } => final(self)@ == spec_deposit(
                    old(self)@,
                    amount,
                    ctx.chain_id@,
                    ctx.timestamp,
                ) && r.effects@ == Seq::<TipJarEffect>::empty(),
                TipJarOperation::Withdraw { amount } => final(self)@ == spec_withdraw(
                    old(self)@,
                    amount,
                    ctx.chain_id@,
                    ctx.timestamp,
                ) && r.effects@ == Seq::<TipJarEffect>::empty() && (amount > old(self).balance
                    ==> *final(self) == *old(self)),
                TipJarOperation::SendTip { to_chain, amount } => ({
                    let (m, effects) = spec_send_tip(
                        old(self)@,
                        to_chain@,
                        amount,
                        ctx.chain_id@,
                        ctx.timestamp,
                    );
                    final(self)@ == m && r.effects.deep_view() == effects && (amount > old(self).balance ==> *final(self) == *old(self))
                }),
                TipJarOperation::ConnectChain { chain_id } => final(self)@ == spec_connect(
                    old(self)@,
                    chain_id@,
                ) && r.effects@ == Seq::<TipJarEffect>::empty(),
                TipJarOperation::DisconnectChain { chain_id } => final(self)@ == spec_disconnect(
                    old(self)@,
                    chain_id@,
                ) && r.effects@ == Seq::<TipJarEffect>::empty(),
            }),
    {
        match operation {
            TipJarOperation::Deposit { amount } => {
                self.deposit(ctx, amount);
                ExecutionResult::new()
            },
            TipJarOperation::Withdraw { amount } => {
                let _status = self.withdraw(ctx, amount);
                ExecutionResult::new()
            },
            TipJarOperation::SendTip { to_chain, amount } => {
                let (_status, result) = self.send_tip(ctx, to_chain, amount);
                result
            },
            TipJarOperation::ConnectChain { chain_id } => {
                self.connect(chain_id);
                ExecutionResult::new()
            },
            TipJarOperation::DisconnectChain { chain_id } => {
                self.disconnect(chain_id);
                ExecutionResult::new()
            },
        }
    }

    /// Applies one cross-chain message.  A tip from another chain credits
    /// the ledger unconditionally (the sender already debited itself); a
    /// confirmation settles the sender's own pending record, and is dropped
    /// silently when no record carries the identifier.
    #[verifier::loop_isolation(false)]
    pub fn execute_message(&mut self, ctx: &ExecutionContext, message: TipJarMessage) -> (r:
        ExecutionResult<TipJarEffect>)
        requires
            (match message {
                TipJarMessage::ReceiveTip { amount, .. } => old(self).balance + amount
                    <= u64::MAX,
                _ => true,
            }),
        ensures
            r.effects@ == Seq::<TipJarEffect>::empty(),
            (match message {
                TipJarMessage::ReceiveTip { from_chain, amount, transaction_id } => final(self)@
                    == spec_receive_tip(
                    old(self)@,
                    from_chain@,
                    amount,
                    transaction_id@,
                    ctx.chain_id@,
                    ctx.timestamp,
                ),
                TipJarMessage::TipSent { to_chain, amount, transaction_id } => final(self)@
                    == spec_confirm_tip(old(self)@, transaction_id@) && final(self).balance == old(self).balance,
            }),
    {
        match message {
            TipJarMessage::ReceiveTip { from_chain, amount, transaction_id } => {
                self.balance = self.balance + amount;
                let transaction = Transaction {
                    id: transaction_id,
                    amount,
                    from_chain,
                    to_chain: ctx.chain_id,
                    transaction_type: TransactionType::TipReceived,
                    timestamp: ctx.timestamp,
                };
                self.transactions.push(transaction);
                proof {
                    assert(self@ =~= spec_receive_tip(
                        old(self)@,
                        from_chain@,
                        amount,
                        transaction.id@,
                        ctx.chain_id@,
                        ctx.timestamp,
                    ));
                }
                ExecutionResult::new()
            },
            TipJarMessage::TipSent { to_chain: _to_chain, amount: _amount, transaction_id } => {
                let mut j: usize = 0;
                let n = self.transactions.len();
                while j < n
                    invariant
                        j <= n == self.transactions.len(),
                        *self == *old(self),
                        forall|k: int|
                            0 <= k < j ==> self.transactions.deep_view()[k].id
                                != transaction_id@,
                    decreases n - j,
                {
                    if self.transactions[j].id == transaction_id {
                        proof {
                            lemma_find_transaction_at(
                                self.transactions.deep_view(),
                                transaction_id@,
                                j as int,
                            );
                        }
                        let record = &mut self.transactions[j];
                        record.transaction_type = TransactionType::TipSent;
                        proof {
                            assert(self@ =~= spec_confirm_tip(old(self)@, transaction_id@));
                        }
                        return ExecutionResult::new();
                    }
                    j += 1;
                }
                proof {
                    lemma_find_transaction_none(self.transactions.deep_view(), transaction_id@);
                    assert(self@ =~= spec_confirm_tip(old(self)@, transaction_id@));
                }
                ExecutionResult::new()
            },
        }
    }

    /// Serves a call from another application: the balance movements mirror
    /// the operation surface, bookkeeping included (every deposit,
    /// withdrawal and sent tip appends its record), and the read-only
    /// queries copy state out.
    pub fn handle_application_call(&mut self, ctx: &ExecutionContext, call: TipJarApplicationCall)
        -> (r: ApplicationCallResult<TipJarResponse, TipJarEffect>)
        requires
            (match call {
                TipJarApplicationCall::Deposit { amount } => old(self).balance + amount
                    <= u64::MAX,
                _ => true,
            }),
        ensures
            (match call {
                TipJarApplicationCall::Deposit { amount } => final(self)@ == spec_deposit(
                    old(self)@,
                    amount,
                    ctx.chain_id@,
                    ctx.timestamp,
                ) && r.value is None && r.effects@ == Seq::<TipJarEffect>::empty(),
                TipJarApplicationCall::Withdraw { amount } => final(self)@ == spec_withdraw(
                    old(self)@,
                    amount,
                    ctx.chain_id@,
                    ctx.timestamp,
                ) && (amount > old(self).balance ==> *final(self) == *old(self)) && r.value
                    is None && r.effects@ == Seq::<TipJarEffect>::empty(),
                TipJarApplicationCall::SendTip { to_chain, amount } => ({
                    let (m, effects) = spec_send_tip(
                        old(self)@,
                        to_chain@,
                        amount,
                        ctx.chain_id@,
                        ctx.timestamp,
                    );
                    final(self)@ == m && r.effects.deep_view() == effects && (amount > old(self).balance ==> *final(self) == *old(self)) && r.value is None
                }),
                TipJarApplicationCall::GetBalance => *final(self) == *old(self) && r.value
                    == Some(TipJarResponse::Balance(old(self).balance)) && r.effects@
                    == Seq::<TipJarEffect>::empty(),
                TipJarApplicationCall::GetTransactions => *final(self) == *old(self) && (r.value
                    matches Some(TipJarResponse::Transactions(v)) && v@ == old(self).transactions@) && r.effects@ == Seq::<TipJarEffect>::empty(),
                TipJarApplicationCall::GetConnections => *final(self) == *old(self) && (r.value
                    matches Some(TipJarResponse::Connections(v)) && v@ == old(self).connections@) && r.effects@ == Seq::<TipJarEffect>::empty(),
                TipJarApplicationCall::ConnectChain { chain_id } => final(self)@ == spec_connect(
                    old(self)@,
                    chain_id@,
                ) && r.value is None && r.effects@ == Seq::<TipJarEffect>::empty(),
            }),
    {
        match call {
            TipJarApplicationCall::Deposit { amount } => {
                self.deposit(ctx, amount);
                ApplicationCallResult::new()
            },
            TipJarApplicationCall::Withdraw { amount } => {
                let _status = self.withdraw(ctx, amount);
                ApplicationCallResult::new()
            },
            TipJarApplicationCall::SendTip { to_chain, amount } => {
                let (_status, result) = self.send_tip(ctx, to_chain, amount);
                ApplicationCallResult { value: None, effects: result.effects }
            },
            TipJarApplicationCall::GetBalance => {
                ApplicationCallResult {
                    value: Some(TipJarResponse::Balance(self.balance)),
                    effects: Vec::new(),
                }
            },
            TipJarApplicationCall::GetTransactions => {
                let copy = self.transactions.clone();
                proof {
                    assert(copy@ =~= self.transactions@);
                }
                ApplicationCallResult {
                    value: Some(TipJarResponse::Transactions(copy)),
                    effects: Vec::new(),
                }
            },
            TipJarApplicationCall::GetConnections => {
                let copy = self.connections.clone();
                proof {
                    assert(copy@ =~= self.connections@);
                }
                ApplicationCallResult {
                    value: Some(TipJarResponse::Connections(copy)),
                    effects: Vec::new(),
                }
            },
            TipJarApplicationCall::ConnectChain { chain_id } => {
                self.connect(chain_id);
                ApplicationCallResult::new()
            },
        }
    }

    /// Session-style calls are uniformly rejected: the feature is not
    /// offered.
    pub fn handle_session_call(&self, _call: TipJarSessionCall) -> (r: Result<
        ExecutionResult<TipJarEffect>,
        ContractError,
    >)
        ensures
            r == Err::<ExecutionResult<TipJarEffect>, ContractError>(
                ContractError::UnsupportedCall,
            ),
    {
        Err(ContractError::UnsupportedCall)
    }

    /// Acting on an emitted effect (routing it, reporting it) is the host's
    /// job; the core records nothing and emits nothing further.
    pub fn handle_effect(&self, _effect: &TipJarEffect) -> (r: ExecutionResult<TipJarEffect>)
        ensures
            r.effects@ == Seq::<TipJarEffect>::empty(),
    {
        ExecutionResult::new()
    }

    /// A read-only snapshot of the state.
    pub fn snapshot(&self) -> (v: TipJarView)
        ensures
            v.balance == self.balance,
            v.connections@ == self.connections@,
            v.transactions@ == self.transactions@,
            v.owner@ == self.owner@,
    {
        let connections = self.connections.clone();
        let transactions = self.transactions.clone();
        proof {
            assert(connections@ =~= self.connections@);
            assert(transactions@ =~= self.transactions@);
        }
        TipJarView {
            balance: self.balance,
            connections,
            transactions,
            owner: self.owner.clone(),
        }
    }
}

/// A read-only snapshot of the tip jar state.
#[derive(Debug)]
pub struct TipJarView {
    /// The current balance of the tip jar.
    pub balance: u64,
    /// Connected chains for cross-chain tipping.
    pub connections: Vec<ChainId>,
    /// Transaction history.
    pub transactions: Vec<Transaction>,
    /// The owner of this tip jar.
    pub owner: String,
}

impl Default for TipJar {
    /// An empty ledger with an unnamed owner.
    fn default() -> (r: Self)
        ensures
            r.balance == 0,
            r@.connections == Seq::<Seq<u8>>::empty(),
            r@.transactions == Seq::<TransactionModel>::empty(),
            r@.owner == Seq::<char>::empty(),
    {
        let r = TipJar {
            balance: 0,
            connections: Vec::new(),
            transactions: Vec::new(),
            owner: String::new(),
        };
        proof {
            assert(r@.connections =~= Seq::<Seq<u8>>::empty());
            assert(r@.transactions =~= Seq::<TransactionModel>::empty());
        }
        r
    }
}

/// When `txs[j]` is the first record carrying `id`, the search finds it.
proof fn lemma_find_transaction_at(txs: Seq<TransactionModel>, id: Seq<char>, j: int)
    requires
        0 <= j < txs.len(),
        txs[j].id == id,
        forall|k: int| 0 <= k < j ==> txs[k].id != id,
    ensures
        find_transaction(txs, id) == j,
    decreases txs.len(),
{
    if j > 0 {
        lemma_find_transaction_at(txs.drop_first(), id, j - 1);
    }
}

/// When no record carries `id`, the search reports none.
proof fn lemma_find_transaction_none(txs: Seq<TransactionModel>, id: Seq<char>)
    requires
        forall|k: int| 0 <= k < txs.len() ==> txs[k].id != id,
    ensures
        find_transaction(txs, id) == -1,
    decreases txs.len(),
{
    if txs.len() > 0 {
        lemma_find_transaction_none(txs.drop_first(), id);
    }
}

/// What a successful search means: the found record carries `id` and is the
/// first that does.
pub proof fn lemma_find_transaction_props(txs: Seq<TransactionModel>, id: Seq<char>)
    ensures
        find_transaction(txs, id) == -1 ==> forall|k: int|
            0 <= k < txs.len() ==> txs[k].id != id,
        find_transaction(txs, id) != -1 ==> {
            let i = find_transaction(txs, id);
            0 <= i < txs.len() && txs[i].id == id && forall|k: int| 0 <= k < i ==> txs[k].id != id
        },
    decreases txs.len(),
{
    if txs.len() == 0 {
    } else if txs[0].id == id {
    } else {
        lemma_find_transaction_props(txs.drop_first(), id);
        let r = find_transaction(txs.drop_first(), id);
        if r == -1 {
            assert forall|k: int| 0 <= k < txs.len() implies txs[k].id != id by {
                if k > 0 {
                    assert(txs.drop_first()[k - 1] == txs[k]);
                }
            }
        } else {
            assert(txs.drop_first()[r] == txs[r + 1]);
            assert forall|k: int| 0 <= k < r + 1 implies txs[k].id != id by {
                if k > 0 {
                    assert(txs.drop_first()[k - 1] == txs[k]);
                }
            }
        }
    }
}

/// Whether `chains` holds an entry equal to `c`.
fn contains_chain(chains: &Vec<ChainId>, c: &ChainId) -> (r: bool)
    ensures
        r == chains.deep_view().contains(c@),
{
    let mut i: usize = 0;
    while i < chains.len()
        invariant
            i <= chains.len(),
            forall|j: int| 0 <= j < i ==> chains.deep_view()[j] != c@,
        decreases chains.len() - i,
    {
        if chains[i].same_as(c) {
            proof {
                assert(chains.deep_view()[i as int] == c@);
            }
            return true;
        }
        i += 1;
    }
    proof {
        assert(!chains.deep_view().contains(c@));
    }
    false
}

/// The sum of a sequence of amounts.
pub open spec fn sum_amounts(amts: Seq<u64>) -> int
    decreases amts.len(),
{
    if amts.len() == 0 {
        0
    } else {
        amts[0] + sum_amounts(amts.drop_first())
    }
}

/// The ledger after depositing `amts`, in order, under one context.
pub open spec fn apply_deposits(m: TipJarModel, amts: Seq<u64>, chain: Seq<u8>, now: u64)
    -> TipJarModel
    decreases amts.len(),
{
    if amts.len() == 0 {
        m
    } else {
        apply_deposits(spec_deposit(m, amts[0], chain, now), amts.drop_first(), chain, now)
    }
}

proof fn lemma_sum_amounts_nonneg(amts: Seq<u64>)
    ensures
        sum_amounts(amts) >= 0,
    decreases amts.len(),
{
    if amts.len() > 0 {
        lemma_sum_amounts_nonneg(amts.drop_first());
    }
}

/// No deposit is lost: a sequence of deposits grows the balance by exactly
/// the sum of the deposited amounts, however long the sequence.
pub proof fn lemma_deposits_conserve_funds(m: TipJarModel, amts: Seq<u64>, chain: Seq<u8>, now: u64)
    requires
        m.balance + sum_amounts(amts) <= u64::MAX,
    ensures
        apply_deposits(m, amts, chain, now).balance == m.balance + sum_amounts(amts),
    decreases amts.len(),
{
    if amts.len() > 0 {
        lemma_sum_amounts_nonneg(amts.drop_first());
        lemma_deposits_conserve_funds(
            spec_deposit(m, amts[0], chain, now),
            amts.drop_first(),
            chain,
            now,
        );
    }
}

/// The generated-identifier condition for the record at position `j`: it is
/// not a received tip, and its identifier is the one the ledger generates
/// for its own kind and position.
pub open spec fn check_generated(txs: Seq<TransactionModel>, j: int) -> bool {
    let t = txs[j];
    &&& t.transaction_type != TransactionType::TipReceived
    &&& t.transaction_type == TransactionType::Deposit ==> t.id == deposit_id_seq(j as nat)
    &&& t.transaction_type == TransactionType::Withdrawal ==> t.id == withdraw_id_seq(j as nat)
    &&& t.transaction_type == TransactionType::TipSent ==> t.id == tip_id_seq(j as nat)
}

/// Holds when every record carries the identifier the ledger itself
/// generates for that record's position and kind: true of any history driven
/// by local operations alone.  A `TipReceived` record carries whatever
/// identifier the sending chain chose, so it is excluded.
pub open spec fn locally_generated_ids(txs: Seq<TransactionModel>) -> bool {
    forall|j: int| 0 <= j < txs.len() ==> #[trigger] check_generated(txs, j)
}

/// The identifier a send-tip generates is fresh: under a locally driven
/// history it differs from every identifier already in the log.
pub proof fn lemma_send_tip_id_fresh(txs: Seq<TransactionModel>)
    requires
        locally_generated_ids(txs),
    ensures
        forall|j: int| 0 <= j < txs.len() ==> (#[trigger] txs[j]).id != tip_id_seq(txs.len()),
{
    assert forall|j: int| 0 <= j < txs.len() implies (#[trigger] txs[j]).id != tip_id_seq(
        txs.len(),
    ) by {
        assert(check_generated(txs, j));
        crate::ids::lemma_generated_ids_distinct(txs.len(), j as nat);
    }
}

/// Identifiers are unique within the owning chain's log: under a locally
/// driven history no two records share one.
pub proof fn lemma_local_ids_unique(txs: Seq<TransactionModel>)
    requires
        locally_generated_ids(txs),
    ensures
        forall|i: int, j: int| 0 <= i < j < txs.len() ==> txs[i].id != txs[j].id,
{
    assert forall|i: int, j: int| 0 <= i < j < txs.len() implies txs[i].id != txs[j].id by {
        assert(check_generated(txs, i));
        assert(check_generated(txs, j));
        crate::ids::lemma_generated_ids_distinct(i as nat, j as nat);
        crate::ids::lemma_generated_ids_distinct(j as nat, i as nat);
    }
}

/// Local operations preserve the generated-identifier discipline: the record
/// each of deposit, withdraw and send-tip appends is named after its own
/// position.
pub proof fn lemma_local_operations_preserve_ids(
    m: TipJarModel,
    amount: u64,
    to_chain: Seq<u8>,
    chain: Seq<u8>,
    now: u64,
)
    requires
        locally_generated_ids(m.transactions),
    ensures
        locally_generated_ids(spec_deposit(m, amount, chain, now).transactions),
        locally_generated_ids(spec_withdraw(m, amount, chain, now).transactions),
        locally_generated_ids(spec_send_tip(m, to_chain, amount, chain, now).0.transactions),
{
    let d = spec_deposit(m, amount, chain, now).transactions;
    assert forall|j: int| 0 <= j < d.len() implies check_generated(d, j) by {
        if j < m.transactions.len() {
            assert(check_generated(m.transactions, j));
            assert(d[j] == m.transactions[j]);
        }
    }
    let w = spec_withdraw(m, amount, chain, now).transactions;
    assert forall|j: int| 0 <= j < w.len() implies check_generated(w, j) by {
        if j < m.transactions.len() {
            assert(check_generated(m.transactions, j));
            assert(w[j] == m.transactions[j]);
        }
    }
    let s = spec_send_tip(m, to_chain, amount, chain, now).0.transactions;
    assert forall|j: int| 0 <= j < s.len() implies check_generated(s, j) by {
        if j < m.transactions.len() {
            assert(check_generated(m.transactions, j));
            assert(s[j] == m.transactions[j]);
        }
    }
}

/// Replacing a record with one that keeps its identifier does not change
/// where a search for any identifier lands.
proof fn lemma_find_transaction_update_same_id(
    txs: Seq<TransactionModel>,
    id: Seq<char>,
    i: int,
    tx: TransactionModel,
)
    requires
        0 <= i < txs.len(),
        tx.id == txs[i].id,
    ensures
        find_transaction(txs.update(i, tx), id) == find_transaction(txs, id),
    decreases txs.len(),
{
    let u = txs.update(i, tx);
    assert(u.len() == txs.len());
    if i == 0 {
        assert(u[0].id == txs[0].id);
        if txs[0].id != id {
            assert(u.drop_first() =~= txs.drop_first());
        }
    } else {
        assert(u[0] == txs[0]);
        if txs[0].id != id {
            assert(u.drop_first() =~= txs.drop_first().update(i - 1, tx));
            assert(txs.drop_first()[i - 1] == txs[i]);
            lemma_find_transaction_update_same_id(txs.drop_first(), id, i - 1, tx);
        }
    }
}

/// Settling the same confirmation twice equals settling it once: the second
/// application is a no-op.
pub proof fn lemma_confirm_tip_idempotent(m: TipJarModel, id: Seq<char>)
    ensures
        spec_confirm_tip(spec_confirm_tip(m, id), id) == spec_confirm_tip(m, id),
{
    let i = find_transaction(m.transactions, id);
    lemma_find_transaction_props(m.transactions, id);
    if i != -1 {
        let settled = TransactionModel {
            transaction_type: TransactionType::TipSent,
            ..m.transactions[i]
        };
        let m1 = spec_confirm_tip(m, id);
        lemma_find_transaction_update_same_id(m.transactions, id, i, settled);
        assert(find_transaction(m1.transactions, id) == i);
        assert(m1.transactions[i] == settled);
        let settled_again = TransactionModel {
            transaction_type: TransactionType::TipSent,
            ..m1.transactions[i]
        };
        assert(settled_again =~= settled);
        assert(m1.transactions.update(i, settled_again) =~= m1.transactions);
        assert(spec_confirm_tip(m1, id) =~= m1);
    }
}

/// Occurrences of `c` among the connections.
pub open spec fn count_chain(s: Seq<Seq<u8>>, c: Seq<u8>) -> nat
    decreases s.len(),
{
    if s.len() == 0 {
        0
    } else {
        count_chain(s.drop_last(), c) + (if s.last() == c {
            1nat
        } else {
            0nat
        })
    }
}

proof fn lemma_count_chain_push(s: Seq<Seq<u8>>, c: Seq<u8>, x: Seq<u8>)
    ensures
        count_chain(s.push(x), c) == count_chain(s, c) + (if x == c {
            1nat
        } else {
            0nat
        }),
{
    let p = s.push(x);
    assert(p.last() == x);
    assert(p.drop_last() =~= s);
}

proof fn lemma_count_chain_zero(s: Seq<Seq<u8>>, c: Seq<u8>)
    ensures
        (count_chain(s, c) == 0) <==> !s.contains(c),
    decreases s.len(),
{
    if s.len() > 0 {
        lemma_count_chain_zero(s.drop_last(), c);
        if s.last() != c {
            if s.contains(c) {
                let i = choose|i: int| 0 <= i < s.len() && s[i] == c;
                assert(s.drop_last()[i] == s[i]);
                assert(s.drop_last().contains(c));
            }
            if s.drop_last().contains(c) {
                let i = choose|i: int| 0 <= i < s.drop_last().len() && s.drop_last()[i] == c;
                assert(s[i] == c);
                assert(s.contains(c));
            }
        } else {
            assert(s.contains(c)) by {
                assert(s[s.len() - 1] == c);
            }
        }
    }
}

/// Connecting the same chain twice equals connecting it once.
pub proof fn lemma_connect_idempotent(m: TipJarModel, c: Seq<u8>)
    ensures
        spec_connect(spec_connect(m, c), c) == spec_connect(m, c),
{
    if !m.connections.contains(c) {
        let s = m.connections.push(c);
        assert(s[m.connections.len() as int] == c);
        assert(s.contains(c));
    }
}

/// After connecting a chain that was absent, and connecting it once more,
/// the connection set holds exactly one occurrence of it.
pub proof fn lemma_connect_single_occurrence(m: TipJarModel, c: Seq<u8>)
    requires
        !m.connections.contains(c),
    ensures
        count_chain(spec_connect(spec_connect(m, c), c).connections, c) == 1,
{
    lemma_count_chain_zero(m.connections, c);
    lemma_count_chain_push(m.connections, c, c);
    lemma_connect_idempotent(m, c);
}

/// Disconnecting removes every occurrence: the chain is absent afterwards.
pub proof fn lemma_disconnect_removes_all(m: TipJarModel, c: Seq<u8>)
    ensures
        !spec_disconnect(m, c).connections.contains(c),
        count_chain(spec_disconnect(m, c).connections, c) == 0,
{
    lemma_remove_chain_absent(m.connections, c);
    lemma_count_chain_zero(remove_chain(m.connections, c), c);
}

/// What `remove_chain` removes stays gone.
proof fn lemma_remove_chain_absent(s: Seq<Seq<u8>>, c: Seq<u8>)
    ensures
        !remove_chain(s, c).contains(c),
    decreases s.len(),
{
    if s.len() > 0 {
        lemma_remove_chain_absent(s.drop_last(), c);
        let rest = remove_chain(s.drop_last(), c);
        if s.last() != c {
            if rest.push(s.last()).contains(c) {
                let i = choose|i: int|
                    0 <= i < rest.push(s.last()).len() && rest.push(s.last())[i] == c;
                if i < rest.len() {
                    assert(rest[i] == c);
                    assert(rest.contains(c));
                }
            }
        }
    }
}

} // verus!
