//! The JSON-RPC command surface of the wallet API: the closed set of
//! methods, the deprecated-name aliasing that runs before a request is
//! decoded, and the help text listing every command.
//!
//! Parameter payloads are decoded by the (unverified) transport layer once
//! the method name has been resolved; this module models the routing.

use std::borrow::ToOwned;
use vstd::prelude::*;
use vstd::string::StringExecFns;

verus! {

/// The requests of the wallet API: one constructor per method.
#[allow(non_camel_case_types)]
#[derive(Clone, Copy, Debug, PartialEq, Eq, Structural)]
pub enum JsonCommandRequest {
    assign_address_for_account,
    build_and_submit_transaction,
    build_gift_code,
    build_split_txo_transaction,
    build_transaction,
    build_unsigned_transaction,
    check_b58_type,
    check_gift_code_status,
    check_receiver_receipt_status,
    claim_gift_code,
    create_account,
    create_new_subaddresses_request,
    create_payment_request,
    create_receiver_receipts,
    create_view_only_account_sync_request,
    export_account_secrets,
    export_spent_txo_ids,
    export_view_only_account_package,
    export_view_only_account_secrets,
    get_account,
    get_account_status,
    get_address_for_account,
    get_address_for_view_only_account,
    get_addresses_for_account,
    get_addresses_for_view_only_account,
    get_all_accounts,
    get_all_gift_codes,
    get_all_transaction_logs_for_block,
    get_all_transaction_logs_ordered_by_block,
    get_all_txos_for_address,
    get_all_view_only_accounts,
    get_balance_for_account,
    get_balance_for_address,
    get_balance_for_view_only_account,
    get_balance_for_view_only_address,
    get_block,
    get_confirmations,
    get_gift_code,
    get_mc_protocol_transaction,
    get_mc_protocol_txo,
    get_network_status,
    get_transaction_log,
    get_transaction_logs_for_account,
    get_txo,
    get_txos_for_account,
    get_txos_for_view_only_account,
    get_view_only_account,
    get_wallet_status,
    import_account,
    import_account_from_legacy_root_entropy,
    import_subaddresses_to_view_only_account,
    import_view_only_account,
    remove_account,
    remove_gift_code,
    remove_view_only_account,
    submit_gift_code,
    submit_transaction,
    sync_view_only_account,
    update_account_name,
    update_view_only_account_name,
    validate_confirmation,
    verify_address,
    version,
}

/// The method name of `m`, as it appears on the wire.
pub open spec fn method_name_spec(m: JsonCommandRequest) -> Seq<char> {
    match m {
        JsonCommandRequest::assign_address_for_account => "assign_address_for_account"@,
        JsonCommandRequest::build_and_submit_transaction => "build_and_submit_transaction"@,
        JsonCommandRequest::build_gift_code => "build_gift_code"@,
        JsonCommandRequest::build_split_txo_transaction => "build_split_txo_transaction"@,
        JsonCommandRequest::build_transaction => "build_transaction"@,
        JsonCommandRequest::build_unsigned_transaction => "build_unsigned_transaction"@,
        JsonCommandRequest::check_b58_type => "check_b58_type"@,
        JsonCommandRequest::check_gift_code_status => "check_gift_code_status"@,
        JsonCommandRequest::check_receiver_receipt_status => "check_receiver_receipt_status"@,
        JsonCommandRequest::claim_gift_code => "claim_gift_code"@,
        JsonCommandRequest::create_account => "create_account"@,
        JsonCommandRequest::create_new_subaddresses_request => "create_new_subaddresses_request"@,
        JsonCommandRequest::create_payment_request => "create_payment_request"@,
        JsonCommandRequest::create_receiver_receipts => "create_receiver_receipts"@,
        JsonCommandRequest::create_view_only_account_sync_request => "create_view_only_account_sync_request"@,
        JsonCommandRequest::export_account_secrets => "export_account_secrets"@,
        JsonCommandRequest::export_spent_txo_ids => "export_spent_txo_ids"@,
        JsonCommandRequest::export_view_only_account_package => "export_view_only_account_package"@,
        JsonCommandRequest::export_view_only_account_secrets => "export_view_only_account_secrets"@,
        JsonCommandRequest::get_account => "get_account"@,
        JsonCommandRequest::get_account_status => "get_account_status"@,
        JsonCommandRequest::get_address_for_account => "get_address_for_account"@,
        JsonCommandRequest::get_address_for_view_only_account => "get_address_for_view_only_account"@,
        JsonCommandRequest::get_addresses_for_account => "get_addresses_for_account"@,
        JsonCommandRequest::get_addresses_for_view_only_account => "get_addresses_for_view_only_account"@,
        JsonCommandRequest::get_all_accounts => "get_all_accounts"@,
        JsonCommandRequest::get_all_gift_codes => "get_all_gift_codes"@,
        JsonCommandRequest::get_all_transaction_logs_for_block => "get_all_transaction_logs_for_block"@,
        JsonCommandRequest::get_all_transaction_logs_ordered_by_block => "get_all_transaction_logs_ordered_by_block"@,
        JsonCommandRequest::get_all_txos_for_address => "get_all_txos_for_address"@,
        JsonCommandRequest::get_all_view_only_accounts => "get_all_view_only_accounts"@,
        JsonCommandRequest::get_balance_for_account => "get_balance_for_account"@,
        JsonCommandRequest::get_balance_for_address => "get_balance_for_address"@,
        JsonCommandRequest::get_balance_for_view_only_account => "get_balance_for_view_only_account"@,
        JsonCommandRequest::get_balance_for_view_only_address => "get_balance_for_view_only_address"@,
        JsonCommandRequest::get_block => "get_block"@,
        JsonCommandRequest::get_confirmations => "get_confirmations"@,
        JsonCommandRequest::get_gift_code => "get_gift_code"@,
        JsonCommandRequest::get_mc_protocol_transaction => "get_mc_protocol_transaction"@,
        JsonCommandRequest::get_mc_protocol_txo => "get_mc_protocol_txo"@,
        JsonCommandRequest::get_network_status => "get_network_status"@,
        JsonCommandRequest::get_transaction_log => "get_transaction_log"@,
        JsonCommandRequest::get_transaction_logs_for_account => "get_transaction_logs_for_account"@,
        JsonCommandRequest::get_txo => "get_txo"@,
        JsonCommandRequest::get_txos_for_account => "get_txos_for_account"@,
        JsonCommandRequest::get_txos_for_view_only_account => "get_txos_for_view_only_account"@,
        JsonCommandRequest::get_view_only_account => "get_view_only_account"@,
        JsonCommandRequest::get_wallet_status => "get_wallet_status"@,
        JsonCommandRequest::import_account => "import_account"@,
        JsonCommandRequest::import_account_from_legacy_root_entropy => "import_account_from_legacy_root_entropy"@,
        JsonCommandRequest::import_subaddresses_to_view_only_account => "import_subaddresses_to_view_only_account"@,
        JsonCommandRequest::import_view_only_account => "import_view_only_account"@,
        JsonCommandRequest::remove_account => "remove_account"@,
        JsonCommandRequest::remove_gift_code => "remove_gift_code"@,
        JsonCommandRequest::remove_view_only_account => "remove_view_only_account"@,
        JsonCommandRequest::submit_gift_code => "submit_gift_code"@,
        JsonCommandRequest::submit_transaction => "submit_transaction"@,
        JsonCommandRequest::sync_view_only_account => "sync_view_only_account"@,
        JsonCommandRequest::update_account_name => "update_account_name"@,
        JsonCommandRequest::update_view_only_account_name => "update_view_only_account_name"@,
        JsonCommandRequest::validate_confirmation => "validate_confirmation"@,
        JsonCommandRequest::verify_address => "verify_address"@,
        JsonCommandRequest::version => "version"@,
    }
}

impl JsonCommandRequest {
    /// The method name of this request, as it appears on the wire.
    pub fn method_name(&self) -> (r: &'static str)
        ensures
            r@ == method_name_spec(*self),
    {
        match self {
            JsonCommandRequest::assign_address_for_account => "assign_address_for_account",
            JsonCommandRequest::build_and_submit_transaction => "build_and_submit_transaction",
            JsonCommandRequest::build_gift_code => "build_gift_code",
            JsonCommandRequest::build_split_txo_transaction => "build_split_txo_transaction",
            JsonCommandRequest::build_transaction => "build_transaction",
            JsonCommandRequest::build_unsigned_transaction => "build_unsigned_transaction",
            JsonCommandRequest::check_b58_type => "check_b58_type",
            JsonCommandRequest::check_gift_code_status => "check_gift_code_status",
            JsonCommandRequest::check_receiver_receipt_status => "check_receiver_receipt_status",
            JsonCommandRequest::claim_gift_code => "claim_gift_code",
            JsonCommandRequest::create_account => "create_account",
            JsonCommandRequest::create_new_subaddresses_request => "create_new_subaddresses_request",
            JsonCommandRequest::create_payment_request => "create_payment_request",
            JsonCommandRequest::create_receiver_receipts => "create_receiver_receipts",
            JsonCommandRequest::create_view_only_account_sync_request => "create_view_only_account_sync_request",
            JsonCommandRequest::export_account_secrets => "export_account_secrets",
            JsonCommandRequest::export_spent_txo_ids => "export_spent_txo_ids",
            JsonCommandRequest::export_view_only_account_package => "export_view_only_account_package",
            JsonCommandRequest::export_view_only_account_secrets => "export_view_only_account_secrets",
            JsonCommandRequest::get_account => "get_account",
            JsonCommandRequest::get_account_status => "get_account_status",
            JsonCommandRequest::get_address_for_account => "get_address_for_account",
            JsonCommandRequest::get_address_for_view_only_account => "get_address_for_view_only_account",
            JsonCommandRequest::get_addresses_for_account => "get_addresses_for_account",
            JsonCommandRequest::get_addresses_for_view_only_account => "get_addresses_for_view_only_account",
            JsonCommandRequest::get_all_accounts => "get_all_accounts",
            JsonCommandRequest::get_all_gift_codes => "get_all_gift_codes",
            JsonCommandRequest::get_all_transaction_logs_for_block => "get_all_transaction_logs_for_block",
            JsonCommandRequest::get_all_transaction_logs_ordered_by_block => "get_all_transaction_logs_ordered_by_block",
            JsonCommandRequest::get_all_txos_for_address => "get_all_txos_for_address",
            JsonCommandRequest::get_all_view_only_accounts => "get_all_view_only_accounts",
            JsonCommandRequest::get_balance_for_account => "get_balance_for_account",
            JsonCommandRequest::get_balance_for_address => "get_balance_for_address",
            JsonCommandRequest::get_balance_for_view_only_account => "get_balance_for_view_only_account",
            JsonCommandRequest::get_balance_for_view_only_address => "get_balance_for_view_only_address",
            JsonCommandRequest::get_block => "get_block",
            JsonCommandRequest::get_confirmations => "get_confirmations",
            JsonCommandRequest::get_gift_code => "get_gift_code",
            JsonCommandRequest::get_mc_protocol_transaction => "get_mc_protocol_transaction",
            JsonCommandRequest::get_mc_protocol_txo => "get_mc_protocol_txo",
            JsonCommandRequest::get_network_status => "get_network_status",
            JsonCommandRequest::get_transaction_log => "get_transaction_log",
            JsonCommandRequest::get_transaction_logs_for_account => "get_transaction_logs_for_account",
            JsonCommandRequest::get_txo => "get_txo",
            JsonCommandRequest::get_txos_for_account => "get_txos_for_account",
            JsonCommandRequest::get_txos_for_view_only_account => "get_txos_for_view_only_account",
            JsonCommandRequest::get_view_only_account => "get_view_only_account",
            JsonCommandRequest::get_wallet_status => "get_wallet_status",
            JsonCommandRequest::import_account => "import_account",
            JsonCommandRequest::import_account_from_legacy_root_entropy => "import_account_from_legacy_root_entropy",
            JsonCommandRequest::import_subaddresses_to_view_only_account => "import_subaddresses_to_view_only_account",
            JsonCommandRequest::import_view_only_account => "import_view_only_account",
            JsonCommandRequest::remove_account => "remove_account",
            JsonCommandRequest::remove_gift_code => "remove_gift_code",
            JsonCommandRequest::remove_view_only_account => "remove_view_only_account",
            JsonCommandRequest::submit_gift_code => "submit_gift_code",
            JsonCommandRequest::submit_transaction => "submit_transaction",
            JsonCommandRequest::sync_view_only_account => "sync_view_only_account",
            JsonCommandRequest::update_account_name => "update_account_name",
            JsonCommandRequest::update_view_only_account_name => "update_view_only_account_name",
            JsonCommandRequest::validate_confirmation => "validate_confirmation",
            JsonCommandRequest::verify_address => "verify_address",
            JsonCommandRequest::version => "version",
        }
    }
}

/// Every method of the API, in declaration order.
pub open spec fn all_methods_spec() -> Seq<JsonCommandRequest> {
    seq![
        JsonCommandRequest::assign_address_for_account,
        JsonCommandRequest::build_and_submit_transaction,
        JsonCommandRequest::build_gift_code,
        JsonCommandRequest::build_split_txo_transaction,
        JsonCommandRequest::build_transaction,
        JsonCommandRequest::build_unsigned_transaction,
        JsonCommandRequest::check_b58_type,
        JsonCommandRequest::check_gift_code_status,
        JsonCommandRequest::check_receiver_receipt_status,
        JsonCommandRequest::claim_gift_code,
        JsonCommandRequest::create_account,
        JsonCommandRequest::create_new_subaddresses_request,
        JsonCommandRequest::create_payment_request,
        JsonCommandRequest::create_receiver_receipts,
        JsonCommandRequest::create_view_only_account_sync_request,
        JsonCommandRequest::export_account_secrets,
        JsonCommandRequest::export_spent_txo_ids,
        JsonCommandRequest::export_view_only_account_package,
        JsonCommandRequest::export_view_only_account_secrets,
        JsonCommandRequest::get_account,
        JsonCommandRequest::get_account_status,
        JsonCommandRequest::get_address_for_account,
        JsonCommandRequest::get_address_for_view_only_account,
        JsonCommandRequest::get_addresses_for_account,
        JsonCommandRequest::get_addresses_for_view_only_account,
        JsonCommandRequest::get_all_accounts,
        JsonCommandRequest::get_all_gift_codes,
        JsonCommandRequest::get_all_transaction_logs_for_block,
        JsonCommandRequest::get_all_transaction_logs_ordered_by_block,
        JsonCommandRequest::get_all_txos_for_address,
        JsonCommandRequest::get_all_view_only_accounts,
        JsonCommandRequest::get_balance_for_account,
        JsonCommandRequest::get_balance_for_address,
        JsonCommandRequest::get_balance_for_view_only_account,
        JsonCommandRequest::get_balance_for_view_only_address,
        JsonCommandRequest::get_block,
        JsonCommandRequest::get_confirmations,
        JsonCommandRequest::get_gift_code,
        JsonCommandRequest::get_mc_protocol_transaction,
        JsonCommandRequest::get_mc_protocol_txo,
        JsonCommandRequest::get_network_status,
        JsonCommandRequest::get_transaction_log,
        JsonCommandRequest::get_transaction_logs_for_account,
        JsonCommandRequest::get_txo,
        JsonCommandRequest::get_txos_for_account,
        JsonCommandRequest::get_txos_for_view_only_account,
        JsonCommandRequest::get_view_only_account,
        JsonCommandRequest::get_wallet_status,
        JsonCommandRequest::import_account,
        JsonCommandRequest::import_account_from_legacy_root_entropy,
        JsonCommandRequest::import_subaddresses_to_view_only_account,
        JsonCommandRequest::import_view_only_account,
        JsonCommandRequest::remove_account,
        JsonCommandRequest::remove_gift_code,
        JsonCommandRequest::remove_view_only_account,
        JsonCommandRequest::submit_gift_code,
        JsonCommandRequest::submit_transaction,
        JsonCommandRequest::sync_view_only_account,
        JsonCommandRequest::update_account_name,
        JsonCommandRequest::update_view_only_account_name,
        JsonCommandRequest::validate_confirmation,
        JsonCommandRequest::verify_address,
        JsonCommandRequest::version,
    ]
}

/// Every method of the API, in declaration order.
#[verifier::rlimit(60)]
pub fn all_methods() -> (r: Vec<JsonCommandRequest>)
    ensures
        r@ == all_methods_spec(),
{
    let mut v: Vec<JsonCommandRequest> = Vec::new();
    v.push(JsonCommandRequest::assign_address_for_account);
    v.push(JsonCommandRequest::build_and_submit_transaction);
    v.push(JsonCommandRequest::build_gift_code);
    v.push(JsonCommandRequest::build_split_txo_transaction);
    v.push(JsonCommandRequest::build_transaction);
    v.push(JsonCommandRequest::build_unsigned_transaction);
    v.push(JsonCommandRequest::check_b58_type);
    v.push(JsonCommandRequest::check_gift_code_status);
    v.push(JsonCommandRequest::check_receiver_receipt_status);
    v.push(JsonCommandRequest::claim_gift_code);
    v.push(JsonCommandRequest::create_account);
    v.push(JsonCommandRequest::create_new_subaddresses_request);
    v.push(JsonCommandRequest::create_payment_request);
    v.push(JsonCommandRequest::create_receiver_receipts);
    v.push(JsonCommandRequest::create_view_only_account_sync_request);
    v.push(JsonCommandRequest::export_account_secrets);
    v.push(JsonCommandRequest::export_spent_txo_ids);
    v.push(JsonCommandRequest::export_view_only_account_package);
    v.push(JsonCommandRequest::export_view_only_account_secrets);
    v.push(JsonCommandRequest::get_account);
    v.push(JsonCommandRequest::get_account_status);
    v.push(JsonCommandRequest::get_address_for_account);
    v.push(JsonCommandRequest::get_address_for_view_only_account);
    v.push(JsonCommandRequest::get_addresses_for_account);
    v.push(JsonCommandRequest::get_addresses_for_view_only_account);
    v.push(JsonCommandRequest::get_all_accounts);
    v.push(JsonCommandRequest::get_all_gift_codes);
    v.push(JsonCommandRequest::get_all_transaction_logs_for_block);
    v.push(JsonCommandRequest::get_all_transaction_logs_ordered_by_block);
    v.push(JsonCommandRequest::get_all_txos_for_address);
    v.push(JsonCommandRequest::get_all_view_only_accounts);
    v.push(JsonCommandRequest::get_balance_for_account);
    v.push(JsonCommandRequest::get_balance_for_address);
    v.push(JsonCommandRequest::get_balance_for_view_only_account);
    v.push(JsonCommandRequest::get_balance_for_view_only_address);
    v.push(JsonCommandRequest::get_block);
    v.push(JsonCommandRequest::get_confirmations);
    v.push(JsonCommandRequest::get_gift_code);
    v.push(JsonCommandRequest::get_mc_protocol_transaction);
    v.push(JsonCommandRequest::get_mc_protocol_txo);
    v.push(JsonCommandRequest::get_network_status);
    v.push(JsonCommandRequest::get_transaction_log);
    v.push(JsonCommandRequest::get_transaction_logs_for_account);
    v.push(JsonCommandRequest::get_txo);
    v.push(JsonCommandRequest::get_txos_for_account);
    v.push(JsonCommandRequest::get_txos_for_view_only_account);
    v.push(JsonCommandRequest::get_view_only_account);
    v.push(JsonCommandRequest::get_wallet_status);
    v.push(JsonCommandRequest::import_account);
    v.push(JsonCommandRequest::import_account_from_legacy_root_entropy);
    v.push(JsonCommandRequest::import_subaddresses_to_view_only_account);
    v.push(JsonCommandRequest::import_view_only_account);
    v.push(JsonCommandRequest::remove_account);
    v.push(JsonCommandRequest::remove_gift_code);
    v.push(JsonCommandRequest::remove_view_only_account);
    v.push(JsonCommandRequest::submit_gift_code);
    v.push(JsonCommandRequest::submit_transaction);
    v.push(JsonCommandRequest::sync_view_only_account);
    v.push(JsonCommandRequest::update_account_name);
    v.push(JsonCommandRequest::update_view_only_account_name);
    v.push(JsonCommandRequest::validate_confirmation);
    v.push(JsonCommandRequest::verify_address);
    v.push(JsonCommandRequest::version);
    proof {
        assert(v@ =~= all_methods_spec());
    }
    v
}

/// String equality through the standard comparison.
fn str_eq(a: &str, b: &str) -> (r: bool)
    ensures
        r == (a@ == b@),
{
    let sa = a.to_owned();
    let sb = b.to_owned();
    sa == sb
}

/// A deprecated method name rewritten to its current alias; any other name
/// passes through unchanged.
pub open spec fn method_alias_spec(m: Seq<char>) -> Seq<char> {
    if m == "get_all_addresses_for_account"@ {
        "get_addresses_for_account"@
    } else if m == "get_all_transaction_logs_for_account"@ {
        "get_transaction_logs_for_account"@
    } else if m == "get_all_txos_for_account"@ {
        "get_txos_for_account"@
    } else {
        m
    }
}

/// Resolves a deprecated method name to its current alias before the
/// request is decoded; any other name passes through unchanged.
pub fn method_alias<'a>(m: &'a str) -> (r: &'a str)
    ensures
        r@ == method_alias_spec(m@),
{
    if str_eq(m, "get_all_addresses_for_account") {
        "get_addresses_for_account"
    } else if str_eq(m, "get_all_transaction_logs_for_account") {
        "get_transaction_logs_for_account"
    } else if str_eq(m, "get_all_txos_for_account") {
        "get_txos_for_account"
    } else {
        m
    }
}

/// The fixed text that opens the help string.
pub open spec fn help_header() -> Seq<char> {
    "Please use json data to choose wallet commands. For example, \n\ncurl -s localhost:9090/wallet -d '{\"method\": \"create_account\", \"params\": {\"name\": \"Alice\"}}' -X POST -H 'Content-type: application/json'\n\nAvailable commands are:\n\n"@
}

/// One line per method, each followed by a blank line.
pub open spec fn help_lines(ms: Seq<JsonCommandRequest>) -> Seq<char>
    decreases ms.len(),
{
    if ms.len() == 0 {
        Seq::empty()
    } else {
        help_lines(ms.drop_last()) + method_name_spec(ms.last()) + "\n\n"@
    }
}

/// The full help text: the header, then every command of the API.
pub open spec fn help_text() -> Seq<char> {
    help_header() + help_lines(all_methods_spec())
}

/// The help string served when the wallet endpoint is fetched without a
/// request body: the header, then every available command.
pub fn help_str() -> (r: String)
    ensures
        r@ == help_text(),
{
    let mut s =
        "Please use json data to choose wallet commands. For example, \n\ncurl -s localhost:9090/wallet -d '{\"method\": \"create_account\", \"params\": {\"name\": \"Alice\"}}' -X POST -H 'Content-type: application/json'\n\nAvailable commands are:\n\n".to_owned();
    let methods = all_methods();
    let mut i: usize = 0;
    while i < methods.len()
        invariant
            0 <= i <= methods@.len(),
            methods@ == all_methods_spec(),
            s@ == help_header() + help_lines(methods@.take(i as int)),
        decreases methods@.len() - i,
    {
        s.append(methods[i].method_name());
        s.append("\n\n");
        proof {
            let t1 = methods@.take(i as int + 1);
            assert(t1.drop_last() =~= methods@.take(i as int));
            assert(t1.last() == methods@[i as int]);
            assert(s@ =~= help_header() + help_lines(t1));
        }
        i = i + 1;
    }
    proof {
        assert(methods@.take(methods@.len() as int) =~= methods@);
    }
    s
}

} // verus!
