use wallet_balance::balance::{BalanceServiceError, WalletService};
use wallet_balance::store::{
    AccountRecord, SubaddressRecord, TxoRecord, ViewOnlyAccountRecord, WalletStore,
};

fn empty_store() -> WalletStore {
    WalletStore {
        accounts: vec![],
        view_only_accounts: vec![],
        subaddresses: vec![],
        view_only_subaddresses: vec![],
        txos: vec![],
        view_only_txos: vec![],
    }
}

fn received_txo(account_id: u64, value: u64, subaddress_index: Option<u64>) -> TxoRecord {
    TxoRecord {
        account_id,
        value,
        subaddress_index,
        received_block_index: Some(1),
        spent_block_index: None,
        pending_spend: false,
        secreted: false,
    }
}

fn spent_txo(account_id: u64, value: u64, subaddress_index: Option<u64>, block: u64) -> TxoRecord {
    TxoRecord {
        account_id,
        value,
        subaddress_index,
        received_block_index: Some(1),
        spent_block_index: Some(block),
        pending_spend: false,
        secreted: false,
    }
}

fn pending_txo(account_id: u64, value: u64, subaddress_index: Option<u64>) -> TxoRecord {
    TxoRecord {
        account_id,
        value,
        subaddress_index,
        received_block_index: Some(1),
        spent_block_index: None,
        pending_spend: true,
        secreted: false,
    }
}

fn secreted_txo(account_id: u64, value: u64) -> TxoRecord {
    TxoRecord {
        account_id,
        value,
        subaddress_index: None,
        received_block_index: None,
        spent_block_index: None,
        pending_spend: false,
        secreted: true,
    }
}

fn service(store: WalletStore, local: u64, network: Option<u64>, fee: u64) -> WalletService {
    WalletService {
        store,
        local_block_height: local,
        network_block_height: network,
        fee,
        block_version: 2,
    }
}

// An account with one tracked subaddress paid 4 outputs of 5000 each, and an
// untracked subaddress paid 12 outputs of 5000 each: the tracked receipts are
// unspent, the untracked ones orphaned, and the spendability bound is the sum
// of the (here, fewer than sixteen) largest unspent outputs minus the fee.
#[test]
fn account_balance_with_orphans() {
    let mut store = empty_store();
    store.accounts.push(AccountRecord {
        account_id: 1,
        main_subaddress_index: 0,
        next_block_index: 12,
    });
    store.subaddresses.push(SubaddressRecord {
        address: 100,
        account_id: 1,
        subaddress_index: 0,
    });
    for block in 0..4u64 {
        let mut t = received_txo(1, 5000, Some(0));
        t.received_block_index = Some(block * 3);
        store.txos.push(t);
    }
    for block in 0..12u64 {
        let mut t = received_txo(1, 5000, Some(7));
        t.received_block_index = Some(block);
        store.txos.push(t);
    }
    let svc = service(store, 12, Some(12), 400);
    let b = svc.get_balance_for_account(1).unwrap();
    assert_eq!(b.unspent, 20_000);
    assert_eq!(b.orphaned, 60_000);
    assert_eq!(b.pending, 0);
    assert_eq!(b.spent, 0);
    assert_eq!(b.secreted, 0);
    assert_eq!(b.max_spendable, 20_000 - 400);
    assert_eq!(b.synced_blocks, 12);
    assert_eq!(b.local_block_height, 12);
    assert_eq!(b.network_block_height, 12);
}

// A view-only account with two deposits of 420 each and no spends: the
// deposits are unspent and the spendability bound is zero.
#[test]
fn view_only_account_balance() {
    let mut store = empty_store();
    store.view_only_accounts.push(ViewOnlyAccountRecord { account_id: 9, next_block_index: 12 });
    store.view_only_subaddresses.push(SubaddressRecord {
        address: 900,
        account_id: 9,
        subaddress_index: 0,
    });
    store.view_only_txos.push(received_txo(9, 420, Some(0)));
    store.view_only_txos.push(received_txo(9, 420, Some(0)));
    let svc = service(store, 12, Some(12), 400);
    let b = svc.get_balance_for_view_only_account(9).unwrap();
    assert_eq!(b.unspent, 840);
    assert_eq!(b.max_spendable, 0);
    assert_eq!(b.pending, 0);
    assert_eq!(b.spent, 0);
    assert_eq!(b.secreted, 0);
    assert_eq!(b.orphaned, 0);
}

// An address that is not present in the subaddress table fails with NotFound.
#[test]
fn address_balance_not_found() {
    let mut store = empty_store();
    store.accounts.push(AccountRecord {
        account_id: 1,
        main_subaddress_index: 0,
        next_block_index: 3,
    });
    store.subaddresses.push(SubaddressRecord {
        address: 100,
        account_id: 1,
        subaddress_index: 0,
    });
    let svc = service(store, 5, Some(5), 10);
    assert_eq!(svc.get_balance_for_address(9999), Err(BalanceServiceError::NotFound));
}

// A wallet with zero accounts reports the network default cursor and all
// sums zero.
#[test]
fn empty_wallet_status() {
    let svc = service(empty_store(), 12, Some(12), 10);
    let ws = svc.get_wallet_status().unwrap();
    assert_eq!(ws.min_synced_block_index, 11);
    assert_eq!(ws.unspent, 0);
    assert_eq!(ws.pending, 0);
    assert_eq!(ws.spent, 0);
    assert_eq!(ws.secreted, 0);
    assert_eq!(ws.orphaned, 0);
    assert_eq!(ws.network_block_height, 12);
    assert_eq!(ws.local_block_height, 12);
    assert!(ws.account_ids.is_empty());
    assert!(ws.account_map.is_empty());
    assert!(ws.view_only_account_ids.is_empty());
    assert!(ws.view_only_account_map.is_empty());
}

// One output in each lifecycle state: the five sums partition the account's
// total value, with no overlap and no gap.
#[test]
fn partition_over_all_five_states() {
    let mut store = empty_store();
    store.accounts.push(AccountRecord {
        account_id: 1,
        main_subaddress_index: 0,
        next_block_index: 11,
    });
    store.subaddresses.push(SubaddressRecord {
        address: 100,
        account_id: 1,
        subaddress_index: 0,
    });
    store.txos.push(received_txo(1, 10, Some(0)));
    store.txos.push(pending_txo(1, 20, Some(0)));
    store.txos.push(spent_txo(1, 30, Some(0), 5));
    store.txos.push(secreted_txo(1, 40));
    store.txos.push(received_txo(1, 50, Some(3)));
    let svc = service(store, 10, Some(10), 1);
    let b = svc.get_balance_for_account(1).unwrap();
    assert_eq!(b.unspent, 10);
    assert_eq!(b.pending, 20);
    assert_eq!(b.spent, 30);
    assert_eq!(b.secreted, 40);
    assert_eq!(b.orphaned, 50);
    assert_eq!(b.unspent + b.pending + b.spent + b.secreted + b.orphaned, 150);
}

// An address-scoped query always reports zero secreted and orphaned value,
// and only the receipts of that one subaddress.
#[test]
fn address_scope_zeroing() {
    let mut store = empty_store();
    store.accounts.push(AccountRecord {
        account_id: 1,
        main_subaddress_index: 0,
        next_block_index: 11,
    });
    store.subaddresses.push(SubaddressRecord {
        address: 100,
        account_id: 1,
        subaddress_index: 0,
    });
    store.subaddresses.push(SubaddressRecord {
        address: 101,
        account_id: 1,
        subaddress_index: 1,
    });
    store.txos.push(received_txo(1, 10, Some(0)));
    store.txos.push(received_txo(1, 25, Some(1)));
    store.txos.push(secreted_txo(1, 40));
    store.txos.push(received_txo(1, 50, Some(9)));
    let svc = service(store, 10, Some(10), 1);
    let b = svc.get_balance_for_address(100).unwrap();
    assert_eq!(b.unspent, 10);
    assert_eq!(b.secreted, 0);
    assert_eq!(b.orphaned, 0);
    assert_eq!(b.max_spendable, 10 - 1);
    let b1 = svc.get_balance_for_address(101).unwrap();
    assert_eq!(b1.unspent, 25);
    assert_eq!(b1.secreted, 0);
    assert_eq!(b1.orphaned, 0);
}

// Summing the address-scoped unspent, pending and spent sums over every
// tracked address of an account gives exactly the account's own totals.
#[test]
fn no_double_counting_across_scopes() {
    let mut store = empty_store();
    store.accounts.push(AccountRecord {
        account_id: 1,
        main_subaddress_index: 0,
        next_block_index: 11,
    });
    store.subaddresses.push(SubaddressRecord {
        address: 100,
        account_id: 1,
        subaddress_index: 0,
    });
    store.subaddresses.push(SubaddressRecord {
        address: 101,
        account_id: 1,
        subaddress_index: 1,
    });
    store.txos.push(received_txo(1, 10, Some(0)));
    store.txos.push(spent_txo(1, 30, Some(0), 5));
    store.txos.push(pending_txo(1, 20, Some(1)));
    store.txos.push(received_txo(1, 7, Some(1)));
    let svc = service(store, 10, Some(10), 1);
    let account = svc.get_balance_for_account(1).unwrap();
    let a0 = svc.get_balance_for_address(100).unwrap();
    let a1 = svc.get_balance_for_address(101).unwrap();
    let folded = a0.unspent + a0.pending + a0.spent + a1.unspent + a1.pending + a1.spent;
    assert_eq!(folded, account.unspent + account.pending + account.spent);
    assert_eq!(folded, 67);
}

// A consumption recorded at block 8 with local height 10 is spent at depth
// zero but only pending once the query asks for five confirmations.
#[test]
fn confirmation_depth_moves_spent_to_pending() {
    let mut store = empty_store();
    store.subaddresses.push(SubaddressRecord {
        address: 100,
        account_id: 1,
        subaddress_index: 0,
    });
    store.txos.push(spent_txo(1, 30, Some(0), 8));
    let shallow = WalletService::get_balance_inner(&store, 1, None, 10, 0, 0).unwrap();
    assert_eq!(shallow.3, 30, "spent at depth zero");
    assert_eq!(shallow.2, 0);
    let deep = WalletService::get_balance_inner(&store, 1, None, 10, 5, 0).unwrap();
    assert_eq!(deep.3, 0);
    assert_eq!(deep.2, 30, "pending at depth five");
}

// The greedy bound takes the sixteen largest unspent outputs and subtracts
// one flat fee; a fee above the reachable sum saturates to zero.
#[test]
fn max_spendable_greedy_selection() {
    let mut store = empty_store();
    store.accounts.push(AccountRecord {
        account_id: 1,
        main_subaddress_index: 0,
        next_block_index: 1,
    });
    store.subaddresses.push(SubaddressRecord {
        address: 100,
        account_id: 1,
        subaddress_index: 0,
    });
    for v in 1..=20u64 {
        store.txos.push(received_txo(1, v, Some(0)));
    }
    let svc = service(store, 10, Some(10), 5);
    let b = svc.get_balance_for_account(1).unwrap();
    // the sixteen largest of 1..=20 are 5..=20, summing to 200
    assert_eq!(b.max_spendable, 200 - 5);
    let mut poor = empty_store();
    poor.accounts.push(AccountRecord {
        account_id: 1,
        main_subaddress_index: 0,
        next_block_index: 1,
    });
    poor.subaddresses.push(SubaddressRecord {
        address: 100,
        account_id: 1,
        subaddress_index: 0,
    });
    poor.txos.push(received_txo(1, 30, Some(0)));
    let poor_svc = service(poor, 10, Some(10), 100);
    let pb = poor_svc.get_balance_for_account(1).unwrap();
    assert_eq!(pb.unspent, 30);
    assert_eq!(pb.max_spendable, 0);
}

// An output marked secreted that still carries a receipt subaddress violates
// the classifier's invariants and is surfaced, not guessed away.
#[test]
fn inconsistent_state_is_surfaced() {
    let mut store = empty_store();
    store.accounts.push(AccountRecord {
        account_id: 1,
        main_subaddress_index: 0,
        next_block_index: 1,
    });
    let mut bad = secreted_txo(1, 40);
    bad.subaddress_index = Some(0);
    store.txos.push(bad);
    let svc = service(store, 10, Some(10), 1);
    assert_eq!(svc.get_balance_for_account(1), Err(BalanceServiceError::InconsistentState));
    assert_eq!(
        svc.get_wallet_status().map(|_| ()),
        Err(BalanceServiceError::InconsistentState)
    );
}

// With the network height unknown every query that reports it fails with
// LedgerUnavailable.
#[test]
fn ledger_unavailable_without_network_height() {
    let mut store = empty_store();
    store.accounts.push(AccountRecord {
        account_id: 1,
        main_subaddress_index: 0,
        next_block_index: 1,
    });
    let svc = service(store, 10, None, 1);
    assert_eq!(svc.get_balance_for_account(1), Err(BalanceServiceError::LedgerUnavailable));
    assert_eq!(
        svc.get_network_status(),
        Err(BalanceServiceError::LedgerUnavailable)
    );
    assert_eq!(
        svc.get_wallet_status().map(|_| ()),
        Err(BalanceServiceError::LedgerUnavailable)
    );
}

// An account id that does not resolve fails with NotFound, for both account
// kinds.
#[test]
fn unknown_accounts_not_found() {
    let svc = service(empty_store(), 10, Some(10), 1);
    assert_eq!(svc.get_balance_for_account(42), Err(BalanceServiceError::NotFound));
    assert_eq!(
        svc.get_balance_for_view_only_account(42),
        Err(BalanceServiceError::NotFound)
    );
    assert_eq!(
        svc.get_balance_for_view_only_address(42),
        Err(BalanceServiceError::NotFound)
    );
}

// A view-only address query reports only that address's receipts, with the
// spendability bound, secreted and orphaned sums all zero.
#[test]
fn view_only_address_balance() {
    let mut store = empty_store();
    store.view_only_accounts.push(ViewOnlyAccountRecord { account_id: 9, next_block_index: 12 });
    store.view_only_subaddresses.push(SubaddressRecord {
        address: 900,
        account_id: 9,
        subaddress_index: 0,
    });
    store.view_only_subaddresses.push(SubaddressRecord {
        address: 903,
        account_id: 9,
        subaddress_index: 3,
    });
    store.view_only_txos.push(received_txo(9, 840, Some(0)));
    store.view_only_txos.push(received_txo(9, 100, Some(3)));
    let svc = service(store, 12, Some(12), 400);
    let b = svc.get_balance_for_view_only_address(903).unwrap();
    assert_eq!(b.unspent, 100);
    assert_eq!(b.max_spendable, 0);
    assert_eq!(b.spent, 0);
    assert_eq!(b.pending, 0);
    assert_eq!(b.secreted, 0);
    assert_eq!(b.orphaned, 0);
    assert_eq!(b.synced_blocks, 12);
}

// Wallet-wide totals fold every spend-capable account once; view-only funds
// are listed but never inflate the totals; the minimum sync cursor is a
// lower bound on every account's own cursor.
#[test]
fn wallet_status_folds_accounts() {
    let mut store = empty_store();
    store.accounts.push(AccountRecord {
        account_id: 1,
        main_subaddress_index: 0,
        next_block_index: 5,
    });
    store.accounts.push(AccountRecord {
        account_id: 2,
        main_subaddress_index: 0,
        next_block_index: 9,
    });
    store.subaddresses.push(SubaddressRecord {
        address: 100,
        account_id: 1,
        subaddress_index: 0,
    });
    store.subaddresses.push(SubaddressRecord {
        address: 200,
        account_id: 2,
        subaddress_index: 0,
    });
    store.txos.push(received_txo(1, 11, Some(0)));
    store.txos.push(pending_txo(1, 13, Some(0)));
    store.txos.push(received_txo(2, 17, Some(0)));
    store.txos.push(spent_txo(2, 19, Some(0), 3));
    store.txos.push(secreted_txo(2, 23));
    store.txos.push(received_txo(2, 29, Some(8)));
    store.view_only_accounts.push(ViewOnlyAccountRecord { account_id: 9, next_block_index: 2 });
    store.view_only_txos.push(received_txo(9, 1000, Some(0)));
    let svc = service(store, 12, Some(12), 1);
    let ws = svc.get_wallet_status().unwrap();
    assert_eq!(ws.unspent, 11 + 17);
    assert_eq!(ws.pending, 13);
    assert_eq!(ws.spent, 19);
    assert_eq!(ws.secreted, 23);
    assert_eq!(ws.orphaned, 29);
    assert_eq!(ws.min_synced_block_index, 4);
    assert!(ws.min_synced_block_index <= 5 - 1);
    assert!(ws.min_synced_block_index <= 9 - 1);
    assert_eq!(ws.account_ids, vec![1, 2]);
    assert_eq!(ws.account_map.len(), 2);
    assert_eq!(ws.view_only_account_ids, vec![9]);
    assert_eq!(ws.view_only_account_map.len(), 1);
}

// A freshly created account whose cursor is still zero saturates the
// minimum cursor at zero instead of underflowing.
#[test]
fn wallet_status_fresh_account_cursor() {
    let mut store = empty_store();
    store.accounts.push(AccountRecord {
        account_id: 1,
        main_subaddress_index: 0,
        next_block_index: 0,
    });
    let svc = service(store, 12, Some(12), 1);
    let ws = svc.get_wallet_status().unwrap();
    assert_eq!(ws.min_synced_block_index, 0);
}

// The network status reports both heights, the fee and the block version.
#[test]
fn network_status_fields() {
    let svc = service(empty_store(), 7, Some(12), 400_000_000);
    let ns = svc.get_network_status().unwrap();
    assert_eq!(ns.network_block_height, 12);
    assert_eq!(ns.local_block_height, 7);
    assert_eq!(ns.fee_pmob, 400_000_000);
    assert_eq!(ns.block_version, 2);
}
