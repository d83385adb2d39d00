use erc20::account::AccountId;
use erc20::token::Approval;
use erc20::token::Erc20;
use erc20::token::Error;
use erc20::token::Event;
use erc20::token::Transfer;

fn acct(id: u64) -> AccountId {
    AccountId { id }
}

#[test]
fn new_credits_deployer() {
    let a = acct(1);
    let ledger = Erc20::new(1000, a);
    assert_eq!(ledger.total_supply(), 1000);
    assert_eq!(ledger.banlance_of(a), 1000);
    assert_eq!(ledger.events().len(), 1);
    assert_eq!(
        ledger.events()[0],
        Event::Transfer(Transfer { from: None, to: Some(a), value: 1000 })
    );
}

#[test]
fn new_zero_supply() {
    let a = acct(1);
    let ledger = Erc20::new(0, a);
    assert_eq!(ledger.total_supply(), 0);
    assert_eq!(ledger.banlance_of(a), 0);
    assert_eq!(ledger.events().len(), 1);
    assert_eq!(
        ledger.events()[0],
        Event::Transfer(Transfer { from: None, to: Some(a), value: 0 })
    );
}

#[test]
fn transfer_moves_balance() {
    let a = acct(1);
    let b = acct(2);
    let mut ledger = Erc20::new(1000, a);
    assert_eq!(ledger.transfer(a, b, 400), Ok(()));
    assert_eq!(ledger.banlance_of(a), 600);
    assert_eq!(ledger.banlance_of(b), 400);
    assert_eq!(
        ledger.events()[1],
        Event::Transfer(Transfer { from: Some(a), to: Some(b), value: 400 })
    );
}

#[test]
fn transfer_insufficient_balance() {
    let a = acct(1);
    let b = acct(2);
    let c = acct(3);
    let mut ledger = Erc20::new(1000, a);
    assert_eq!(ledger.transfer(a, b, 400), Ok(()));
    assert_eq!(ledger.transfer(b, c, 500), Err(Error::InsufficientBalance));
    assert_eq!(ledger.banlance_of(a), 600);
    assert_eq!(ledger.banlance_of(b), 400);
    assert_eq!(ledger.banlance_of(c), 0);
    // a failed transfer records no event
    assert_eq!(ledger.events().len(), 2);
}

#[test]
fn approve_then_transfer_from() {
    let a = acct(1);
    let b = acct(2);
    let c = acct(3);
    let d = acct(4);
    let mut ledger = Erc20::new(1000, a);
    assert_eq!(ledger.transfer(a, b, 400), Ok(()));
    assert_eq!(ledger.approve(a, d, 300), Ok(()));
    assert_eq!(ledger.allowance(a, d), 300);
    assert_eq!(
        *ledger.events().last().unwrap(),
        Event::Approval(Approval { owner: a, spender: d, value: 300 })
    );
    assert_eq!(ledger.transfer_from(d, a, c, 200), Ok(()));
    assert_eq!(ledger.allowance(a, d), 100);
    assert_eq!(ledger.banlance_of(a), 400);
    assert_eq!(ledger.banlance_of(c), 200);
    assert_eq!(
        *ledger.events().last().unwrap(),
        Event::Transfer(Transfer { from: Some(a), to: Some(c), value: 200 })
    );
}

#[test]
fn transfer_from_insufficient_approval() {
    let a = acct(1);
    let b = acct(2);
    let c = acct(3);
    let d = acct(4);
    let mut ledger = Erc20::new(1000, a);
    assert_eq!(ledger.transfer(a, b, 400), Ok(()));
    assert_eq!(ledger.approve(a, d, 300), Ok(()));
    assert_eq!(ledger.transfer_from(d, a, c, 200), Ok(()));
    assert_eq!(
        ledger.transfer_from(d, a, c, 9999),
        Err(Error::InsufficientApproval)
    );
    assert_eq!(ledger.allowance(a, d), 100);
    assert_eq!(ledger.banlance_of(a), 400);
    assert_eq!(ledger.banlance_of(c), 200);
}

#[test]
fn transfer_from_insufficient_balance_keeps_allowance() {
    let a = acct(1);
    let d = acct(4);
    let e = acct(5);
    let mut ledger = Erc20::new(100, a);
    // allowance larger than the owner's balance
    assert_eq!(ledger.approve(a, d, 500), Ok(()));
    assert_eq!(ledger.transfer_from(d, a, e, 200), Err(Error::InsufficientBalance));
    assert_eq!(ledger.allowance(a, d), 500);
    assert_eq!(ledger.banlance_of(a), 100);
    assert_eq!(ledger.banlance_of(e), 0);
}

#[test]
fn approve_overwrites_prior_allowance() {
    let a = acct(1);
    let d = acct(4);
    let mut ledger = Erc20::new(1000, a);
    assert_eq!(ledger.approve(a, d, 300), Ok(()));
    assert_eq!(ledger.approve(a, d, 70), Ok(()));
    assert_eq!(ledger.allowance(a, d), 70);
    // unrelated pairs stay at zero
    assert_eq!(ledger.allowance(d, a), 0);
}

#[test]
fn self_transfer_keeps_balance_and_emits_event() {
    let a = acct(1);
    let mut ledger = Erc20::new(1000, a);
    assert_eq!(ledger.transfer(a, a, 250), Ok(()));
    assert_eq!(ledger.banlance_of(a), 1000);
    assert_eq!(ledger.events().len(), 2);
    assert_eq!(
        ledger.events()[1],
        Event::Transfer(Transfer { from: Some(a), to: Some(a), value: 250 })
    );
}

#[test]
fn zero_value_transfer_succeeds_and_emits_event() {
    let a = acct(1);
    let b = acct(2);
    let mut ledger = Erc20::new(1000, a);
    assert_eq!(ledger.transfer(a, b, 0), Ok(()));
    assert_eq!(ledger.banlance_of(a), 1000);
    assert_eq!(ledger.banlance_of(b), 0);
    assert_eq!(
        ledger.events()[1],
        Event::Transfer(Transfer { from: Some(a), to: Some(b), value: 0 })
    );
    // a principal with no balance may still move zero
    let c = acct(3);
    assert_eq!(ledger.transfer(c, b, 0), Ok(()));
}

#[test]
fn conservation_across_operations() {
    let a = acct(1);
    let b = acct(2);
    let c = acct(3);
    let d = acct(4);
    let mut ledger = Erc20::new(1000, a);
    let _ = ledger.transfer(a, b, 400);
    let _ = ledger.transfer(b, c, 500);
    let _ = ledger.approve(a, d, 300);
    let _ = ledger.transfer_from(d, a, c, 200);
    let _ = ledger.transfer(c, a, 50);
    let total: u128 =
        ledger.banlance_of(a) + ledger.banlance_of(b) + ledger.banlance_of(c) + ledger.banlance_of(d);
    assert_eq!(total, ledger.total_supply());
}

#[test]
fn inner_transfer_checks_balance() {
    let a = acct(1);
    let b = acct(2);
    let mut ledger = Erc20::new(10, a);
    assert_eq!(ledger.inner_transfer(a, b, 7), Ok(()));
    assert_eq!(ledger.inner_transfer(a, b, 7), Err(Error::InsufficientBalance));
    assert_eq!(ledger.banlance_of(a), 3);
    assert_eq!(ledger.banlance_of(b), 7);
}
