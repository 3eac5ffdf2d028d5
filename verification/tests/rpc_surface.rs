use wallet_balance::rpc::{JsonCommandRequest, all_methods, help_str, method_alias};

// Deprecated method names are rewritten to their current aliases; any other
// name passes through unchanged.
#[test]
fn method_alias_rewrites_deprecated_names() {
    assert_eq!(
        method_alias("get_all_addresses_for_account"),
        "get_addresses_for_account"
    );
    assert_eq!(
        method_alias("get_all_transaction_logs_for_account"),
        "get_transaction_logs_for_account"
    );
    assert_eq!(method_alias("get_all_txos_for_account"), "get_txos_for_account");
    assert_eq!(method_alias("get_balance_for_account"), "get_balance_for_account");
    assert_eq!(method_alias("no_such_method"), "no_such_method");
}

// Every command of the API appears in the help string, after the fixed
// header.
#[test]
fn help_str_lists_every_command() {
    let help = help_str();
    assert!(help.starts_with("Please use json data to choose wallet commands."));
    for m in all_methods() {
        let line = format!("{}\n\n", m.method_name());
        assert!(help.contains(&line), "missing {}", m.method_name());
    }
}

// The method names are the wire names, and the listing holds each method
// exactly once.
#[test]
fn method_names_are_unique_wire_names() {
    assert_eq!(
        JsonCommandRequest::get_balance_for_account.method_name(),
        "get_balance_for_account"
    );
    assert_eq!(JsonCommandRequest::version.method_name(), "version");
    let methods = all_methods();
    for (i, a) in methods.iter().enumerate() {
        for b in methods.iter().skip(i + 1) {
            assert_ne!(a.method_name(), b.method_name());
        }
    }
}
