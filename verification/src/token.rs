use vstd::prelude::*;

use crate::account::AccountId;
use crate::account::Balance;
use crate::allowances::AllowanceTable;
use crate::allowances::pair_lookup;
use crate::allowances::pair_unique;
use crate::balances::BalanceTable;
use crate::balances::lemma_lookup_le_sum;
use crate::balances::lookup;
use crate::balances::sum_of;
use crate::balances::unique_keys;

verus! {

/// Recorded when value moves between accounts; a `from` of `None` marks the
/// mint at construction time.
#[derive(Clone, Copy, Debug, PartialEq, Eq)]
pub struct Transfer {
    pub from: Option<AccountId>,
    pub to: Option<AccountId>,
    pub value: Balance,
}

/// Recorded when an owner sets the allowance of a spender.
#[derive(Clone, Copy, Debug, PartialEq, Eq)]
pub struct Approval {
    pub owner: AccountId,
    pub spender: AccountId,
    pub value: Balance,
}

/// One entry of the ledger's event log, in emission order.
#[derive(Clone, Copy, Debug, PartialEq, Eq)]
pub enum Event {
    Transfer(Transfer),
    Approval(Approval),
}

/// The two failure kinds; every failed operation leaves the ledger unchanged.
#[derive(Clone, Copy, Debug, PartialEq, Eq, Structural)]
pub enum Error {
    /// The source account's balance is less than the requested amount.
    InsufficientBalance,
    /// The spender's allowance from the owner is less than the requested amount.
    InsufficientApproval,
}

/// The ledger's abstract state: the fixed supply, the two sparse stores as
/// association sequences (absent keys hold zero), and the event log.
pub struct LedgerView {
    pub total_supply: Balance,
    pub balances: Seq<(AccountId, Balance)>,
    pub allowances: Seq<((AccountId, AccountId), Balance)>,
    pub events: Seq<Event>,
}

/// The token ledger: owns all balance and allowance state, enforces
/// conservation of supply, and records an event on every state change.
///
/// The calling principal is resolved by the host and passed to each mutating
/// operation; the host drains the recorded events from `events`.
pub struct Erc20 {
    total_supply: Balance,
    balances: BalanceTable,
    allowances: AllowanceTable,
    events: Vec<Event>,
}

impl View for Erc20 {
    type V = LedgerView;

    closed spec fn view(&self) -> LedgerView {
        LedgerView {
            total_supply: self.total_supply,
            balances: self.balances@,
            allowances: self.allowances@,
            events: self.events@,
        }
    }
}

/// The balance of `a`: the recorded amount, or zero for an untouched account.
pub open spec fn spec_balance_of(l: Erc20, a: AccountId) -> Balance {
    lookup(l@.balances, a)
}

/// The allowance `spender` may still move out of `owner`'s balance.
pub open spec fn spec_allowance(l: Erc20, owner: AccountId, spender: AccountId) -> Balance {
    pair_lookup(l@.allowances, (owner, spender))
}

/// Well-formedness: each store has at most one entry per key, and the balances
/// sum to exactly the total supply (the conservation invariant). Established
/// by `new` and preserved by every operation.
pub open spec fn wf(l: Erc20) -> bool {
    &&& unique_keys(l@.balances)
    &&& pair_unique(l@.allowances)
    &&& sum_of(l@.balances) == l@.total_supply
}

/// How a freshly constructed ledger relates to its constructor arguments:
/// the whole supply is credited to the constructing principal, no allowance
/// is set, and exactly one mint-style transfer is recorded.
pub open spec fn new_ok(post: Erc20, caller: AccountId, initial_supply: Balance) -> bool {
    &&& post@.total_supply == initial_supply
    &&& forall|a: AccountId|
        #[trigger] spec_balance_of(post, a) == if a == caller {
            initial_supply
        } else {
            0
        }
    &&& forall|o: AccountId, s: AccountId| #[trigger] spec_allowance(post, o, s) == 0
    &&& post@.events.len() == 1
    &&& post@.events[0] == Event::Transfer(
        Transfer { from: None, to: Some(caller), value: initial_supply },
    )
}

/// How a successful transfer of `value` from `from` to `to` relates the
/// post-state to the pre-state: only the two balances move (a self-transfer
/// moves nothing), allowances are untouched, and exactly one transfer event
/// is appended.
pub open spec fn transfer_ok(
    pre: Erc20,
    post: Erc20,
    from: AccountId,
    to: AccountId,
    value: Balance,
) -> bool {
    &&& post@.total_supply == pre@.total_supply
    &&& post@.allowances == pre@.allowances
    &&& forall|a: AccountId|
        #[trigger] spec_balance_of(post, a) == if a == from && a == to {
            spec_balance_of(pre, a) as int
        } else if a == from {
            spec_balance_of(pre, a) - value
        } else if a == to {
            spec_balance_of(pre, a) + value
        } else {
            spec_balance_of(pre, a) as int
        }
    &&& post@.events == pre@.events.push(
        Event::Transfer(Transfer { from: Some(from), to: Some(to), value }),
    )
}

/// How a successful approval relates the post-state to the pre-state: the one
/// allowance is overwritten (never added to), everything else is untouched,
/// and exactly one approval event is appended.
pub open spec fn approve_ok(
    pre: Erc20,
    post: Erc20,
    owner: AccountId,
    spender: AccountId,
    value: Balance,
) -> bool {
    &&& post@.total_supply == pre@.total_supply
    &&& post@.balances == pre@.balances
    &&& forall|o: AccountId, s: AccountId|
        #[trigger] spec_allowance(post, o, s) == if o == owner && s == spender {
            value
        } else {
            spec_allowance(pre, o, s)
        }
    &&& post@.events == pre@.events.push(Event::Approval(Approval { owner, spender, value }))
}

/// How a successful delegated transfer relates the post-state to the
/// pre-state: balances move as in a plain transfer, the spender's allowance
/// from `from` is decremented by exactly `value`, and the one event appended
/// is the transfer event.
pub open spec fn transfer_from_ok(
    pre: Erc20,
    post: Erc20,
    caller: AccountId,
    from: AccountId,
    to: AccountId,
    value: Balance,
) -> bool {
    &&& post@.total_supply == pre@.total_supply
    &&& forall|a: AccountId|
        #[trigger] spec_balance_of(post, a) == if a == from && a == to {
            spec_balance_of(pre, a) as int
        } else if a == from {
            spec_balance_of(pre, a) - value
        } else if a == to {
            spec_balance_of(pre, a) + value
        } else {
            spec_balance_of(pre, a) as int
        }
    &&& forall|o: AccountId, s: AccountId|
        #[trigger] spec_allowance(post, o, s) == if o == from && s == caller {
            spec_allowance(pre, from, caller) - value
        } else {
            spec_allowance(pre, o, s) as int
        }
    &&& post@.events == pre@.events.push(
        Event::Transfer(Transfer { from: Some(from), to: Some(to), value }),
    )
}

impl Erc20 {
    /// Create the ledger: fix the total supply, credit it all to the
    /// constructing principal `caller`, and record the mint transfer.
    /// Construction always succeeds.
    pub fn new(initial_supply: Balance, caller: AccountId) -> (ledger: Erc20)
        ensures
            wf(ledger),
            new_ok(ledger, caller, initial_supply),
    {
        let mut balances = BalanceTable::new();
        balances.set(caller, initial_supply);
        let allowances = AllowanceTable::new();
        let mut events: Vec<Event> = Vec::new();
        events.push(Event::Transfer(Transfer { from: None, to: Some(caller), value: initial_supply }));
        let ledger = Erc20 { total_supply: initial_supply, balances, allowances, events };
        proof {
            assert forall|a: AccountId|
                #[trigger] spec_balance_of(ledger, a) == if a == caller {
                    initial_supply
                } else {
                    0
                } by {
            }
        }
        ledger
    }

    /// The fixed total supply.
    pub fn total_supply(&self) -> (r: Balance)
        ensures
            r == self@.total_supply,
    {
        self.total_supply
    }

    /// The balance of `who`, zero for accounts never credited.
    pub fn banlance_of(&self, who: AccountId) -> (r: Balance)
        ensures
            r == spec_balance_of(*self, who),
    {
        self.balances.get(who)
    }

    /// The allowance `spender` may still move out of `owner`'s balance.
    pub fn allowance(&self, owner: AccountId, spender: AccountId) -> (r: Balance)
        ensures
            r == spec_allowance(*self, owner, spender),
    {
        self.allowances.get((owner, spender))
    }

    /// The events recorded so far, oldest first; the host's event sink drains
    /// them from here.
    pub fn events(&self) -> (r: &Vec<Event>)
        ensures
            r@ == self@.events,
    {
        &self.events
    }

    /// Move `value` from the calling principal's own balance to `to`.
    pub fn transfer(&mut self, caller: AccountId, to: AccountId, value: Balance) -> (r: Result<
        (),
        Error,
    >)
        requires
            wf(*old(self)),
        ensures
            wf(*final(self)),
            spec_balance_of(*old(self), caller) >= value ==> r == Ok::<(), Error>(())
                && transfer_ok(*old(self), *final(self), caller, to, value),
            spec_balance_of(*old(self), caller) < value ==> r == Err::<(), Error>(
                Error::InsufficientBalance,
            ) && *final(self) == *old(self),
    {
        self.inner_transfer(caller, to, value)
    }

    /// Set the allowance of `spender` out of the calling principal's balance
    /// to exactly `value`, overwriting any prior allowance. Always succeeds.
    pub fn approve(&mut self, caller: AccountId, spender: AccountId, value: Balance) -> (r: Result<
        (),
        Error,
    >)
        requires
            wf(*old(self)),
        ensures
            wf(*final(self)),
            r == Ok::<(), Error>(()),
            approve_ok(*old(self), *final(self), caller, spender, value),
    {
        let ghost pre = *self;
        self.allowances.set((caller, spender), value);
        self.events.push(Event::Approval(Approval { owner: caller, spender, value }));
        proof {
            assert forall|o: AccountId, s: AccountId|
                #[trigger] spec_allowance(*self, o, s) == if o == caller && s == spender {
                    value
                } else {
                    spec_allowance(pre, o, s)
                } by {
                if o == caller && s == spender {
                } else {
                    assert((o, s) != (caller, spender));
                }
            }
        }
        Ok(())
    }

    /// Move `value` from `from` to `to` on the authority of the calling
    /// principal's allowance. The allowance is consumed only after the
    /// balance transfer succeeds; a failed transfer never consumes allowance.
    pub fn transfer_from(
        &mut self,
        caller: AccountId,
        from: AccountId,
        to: AccountId,
        value: Balance,
    ) -> (r: Result<(), Error>)
        requires
            wf(*old(self)),
        ensures
            wf(*final(self)),
            spec_allowance(*old(self), from, caller) < value ==> r == Err::<(), Error>(
                Error::InsufficientApproval,
            ) && *final(self) == *old(self),
            spec_allowance(*old(self), from, caller) >= value && spec_balance_of(
                *old(self),
                from,
            ) < value ==> r == Err::<(), Error>(Error::InsufficientBalance) && *final(self) == *old(
                self,
            ),
            spec_allowance(*old(self), from, caller) >= value && spec_balance_of(
                *old(self),
                from,
            ) >= value ==> r == Ok::<(), Error>(()) && transfer_from_ok(
                *old(self),
                *final(self),
                caller,
                from,
                to,
                value,
            ),
    {
        let ghost pre = *self;
        let current_allowance = self.allowance(from, caller);
        if current_allowance < value {
            return Err(Error::InsufficientApproval);
        }
        match self.inner_transfer(from, to, value) {
            Err(e) => Err(e),
            Ok(()) => {
                let ghost mid = *self;
                self.allowances.set((from, caller), current_allowance - value);
                proof {
                    assert(self@.balances == mid@.balances);
                    assert forall|o: AccountId, s: AccountId|
                        #[trigger] spec_allowance(*self, o, s) == if o == from && s == caller {
                            spec_allowance(pre, from, caller) - value
                        } else {
                            spec_allowance(pre, o, s) as int
                        } by {
                        if o == from && s == caller {
                        } else {
                            assert((o, s) != (from, caller));
                        }
                    }
                    assert forall|a: AccountId|
                        #[trigger] spec_balance_of(*self, a) == spec_balance_of(mid, a) by {
                    }
                }
                Ok(())
            },
        }
    }

    /// The internal transfer routine shared by `transfer` and
    /// `transfer_from`: check the source balance, then debit, credit, and
    /// record the event; on failure nothing is mutated.
    pub fn inner_transfer(&mut self, from: AccountId, to: AccountId, value: Balance) -> (r: Result<
        (),
        Error,
    >)
        requires
            wf(*old(self)),
        ensures
            wf(*final(self)),
            spec_balance_of(*old(self), from) >= value ==> r == Ok::<(), Error>(()) && transfer_ok(
                *old(self),
                *final(self),
                from,
                to,
                value,
            ),
            spec_balance_of(*old(self), from) < value ==> r == Err::<(), Error>(
                Error::InsufficientBalance,
            ) && *final(self) == *old(self),
    {
        let ghost pre = *self;
        let from_balance = self.banlance_of(from);
        if from_balance < value {
            return Err(Error::InsufficientBalance);
        }
        self.balances.set(from, from_balance - value);
        proof {
            assert(sum_of(self@.balances) == pre@.total_supply - value);
            lemma_lookup_le_sum(self@.balances, to);
        }
        let ghost mid = *self;
        let to_balance = self.banlance_of(to);
        self.balances.set(to, to_balance + value);
        self.events.push(Event::Transfer(Transfer { from: Some(from), to: Some(to), value }));
        proof {
            assert forall|a: AccountId|
                #[trigger] spec_balance_of(*self, a) == if a == from && a == to {
                    spec_balance_of(pre, a) as int
                } else if a == from {
                    spec_balance_of(pre, a) - value
                } else if a == to {
                    spec_balance_of(pre, a) + value
                } else {
                    spec_balance_of(pre, a) as int
                } by {
            }
        }
        Ok(())
    }
}

/// Conservation of supply: in every well-formed ledger state — the state
/// `new` establishes and every operation preserves — the balances sum to
/// exactly the total supply.
pub proof fn lemma_conservation(l: Erc20)
    requires
        wf(l),
    ensures
        sum_of(l@.balances) == l@.total_supply,
{
}

/// No negative balances: every balance is a non-negative amount, in any
/// ledger state.
pub proof fn lemma_no_negative_balance(l: Erc20, a: AccountId)
    ensures
        spec_balance_of(l, a) >= 0,
{
}

/// Allowance overwrite: after an approval of `value`, the recorded allowance
/// is exactly `value`, whatever it was before.
pub proof fn lemma_approve_overwrites(
    pre: Erc20,
    post: Erc20,
    owner: AccountId,
    spender: AccountId,
    value: Balance,
)
    requires
        approve_ok(pre, post, owner, spender, value),
    ensures
        spec_allowance(post, owner, spender) == value,
{
}

/// Allowance consumption: a successful delegated transfer of `value` leaves
/// the spender's allowance smaller by exactly `value`; every other allowance
/// is untouched. (A failed call leaves the whole ledger unchanged, as the
/// operation's own contract states.)
pub proof fn lemma_transfer_from_consumes_allowance(
    pre: Erc20,
    post: Erc20,
    caller: AccountId,
    from: AccountId,
    to: AccountId,
    value: Balance,
)
    requires
        transfer_from_ok(pre, post, caller, from, to, value),
    ensures
        spec_allowance(post, from, caller) == spec_allowance(pre, from, caller) - value,
        forall|o: AccountId, s: AccountId|
            !(o == from && s == caller) ==> #[trigger] spec_allowance(post, o, s)
                == spec_allowance(pre, o, s),
{
}

/// Self-transfer idempotence: a successful transfer from an account to itself
/// changes no balance at all, but still appends its transfer event.
pub proof fn lemma_self_transfer_preserves_balances(
    pre: Erc20,
    post: Erc20,
    x: AccountId,
    value: Balance,
)
    requires
        transfer_ok(pre, post, x, x, value),
    ensures
        forall|a: AccountId| #[trigger] spec_balance_of(post, a) == spec_balance_of(pre, a),
        post@.events.len() == pre@.events.len() + 1,
{
}

/// Event correctness for transfers: a successful transfer appends exactly one
/// event, the transfer event matching the call, and rewrites no earlier one.
pub proof fn lemma_transfer_emits_one_event(
    pre: Erc20,
    post: Erc20,
    from: AccountId,
    to: AccountId,
    value: Balance,
)
    requires
        transfer_ok(pre, post, from, to, value),
    ensures
        post@.events.len() == pre@.events.len() + 1,
        post@.events.last() == (Event::Transfer(
            Transfer { from: Some(from), to: Some(to), value },
        )),
        forall|i: int| 0 <= i < pre@.events.len() ==> post@.events[i] == pre@.events[i],
{
}

/// Event correctness for delegated transfers: a successful delegated
/// transfer also appends exactly one event, the transfer event matching the
/// call (the allowance update itself records nothing).
pub proof fn lemma_transfer_from_emits_one_event(
    pre: Erc20,
    post: Erc20,
    caller: AccountId,
    from: AccountId,
    to: AccountId,
    value: Balance,
)
    requires
        transfer_from_ok(pre, post, caller, from, to, value),
    ensures
        post@.events.len() == pre@.events.len() + 1,
        post@.events.last() == (Event::Transfer(
            Transfer { from: Some(from), to: Some(to), value },
        )),
        forall|i: int| 0 <= i < pre@.events.len() ==> post@.events[i] == pre@.events[i],
{
}

/// Event correctness for construction: a fresh ledger has recorded exactly
/// one event, the mint transfer with no source account.
pub proof fn lemma_new_emits_one_event(l: Erc20, caller: AccountId, initial_supply: Balance)
    requires
        new_ok(l, caller, initial_supply),
    ensures
        l@.events.len() == 1,
        l@.events[0] == (Event::Transfer(
            Transfer { from: None, to: Some(caller), value: initial_supply },
        )),
{
}

} // verus!
