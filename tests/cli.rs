use solana_cli_client::balance::{balance_address, balance_line, sol_balance_text};
use solana_cli_client::decimal::decimal_text;
use solana_cli_client::endpoints::{
    is_websocket_derivable, normalize_to_url_if_moniker, resolve_endpoints, Endpoints,
};
use solana_cli_client::logs::LogNotification;
use solana_cli_client::ping::{
    self_transfer, PingAction, PingError, PingEvent, PingFailure, PingFlow, PingStage,
};
use solana_cli_client::report::{report, FAILURE_STATUS};

#[test]
fn decimal_text_writes_digits() {
    assert_eq!(decimal_text(0), "0");
    assert_eq!(decimal_text(7), "7");
    assert_eq!(decimal_text(10), "10");
    assert_eq!(decimal_text(1234567890), "1234567890");
    assert_eq!(decimal_text(u64::MAX), "18446744073709551615");
}

#[test]
fn sol_text_of_whole_and_fraction() {
    assert_eq!(sol_balance_text(0), "\u{25ce}0.000000000");
    assert_eq!(sol_balance_text(1), "\u{25ce}0.000000001");
    assert_eq!(sol_balance_text(1_500_000_000), "\u{25ce}1.500000000");
    assert_eq!(sol_balance_text(u64::MAX), "\u{25ce}18446744073.709551615");
}

#[test]
fn funded_amount_reads_back_exactly() {
    let funded: u64 = 2_000_000_123;
    let text = sol_balance_text(funded);
    let body = text.trim_start_matches('\u{25ce}');
    let (whole, frac) = body.split_once('.').unwrap();
    assert_eq!(frac.len(), 9);
    let back = whole.parse::<u64>().unwrap() * 1_000_000_000 + frac.parse::<u64>().unwrap();
    assert_eq!(back, funded);
}

#[test]
fn balance_line_names_address_and_amount() {
    assert_eq!(
        balance_line([0u8; 32], 1),
        "11111111111111111111111111111111 has a balance of \u{25ce}0.000000001"
    );
}

#[test]
fn balance_line_repeats_for_unchanged_balance() {
    let key = [7u8; 32];
    assert_eq!(balance_line(key, 42), balance_line(key, 42));
    assert_ne!(balance_line(key, 42), balance_line(key, 43));
}

#[test]
fn balance_address_defaults_to_signer() {
    let signer = [1u8; 32];
    let other = [2u8; 32];
    assert_eq!(balance_address(None, signer), signer);
    assert_eq!(balance_address(Some(other), signer), other);
}

#[test]
fn log_lines_for_success() {
    let n = LogNotification {
        slot: 42,
        signature: "5abc".to_string(),
        err: None,
        logs: vec!["Program log: one".to_string(), "Program log: two".to_string()],
    };
    assert_eq!(
        n.lines(),
        vec![
            "Transaction executed in slot 42:".to_string(),
            "  Signature: 5abc:".to_string(),
            "  Status: Success".to_string(),
            "  Log Messages:".to_string(),
            "    Program log: one".to_string(),
            "    Program log: two".to_string(),
        ]
    );
}

#[test]
fn log_lines_for_failure_without_logs() {
    let n = LogNotification {
        slot: 0,
        signature: "sig".to_string(),
        err: Some("InsufficientFundsForFee".to_string()),
        logs: vec![],
    };
    let lines = n.lines();
    assert_eq!(lines.len(), 4);
    assert_eq!(lines[0], "Transaction executed in slot 0:");
    assert_eq!(lines[2], "  Status: InsufficientFundsForFee");
}

#[test]
fn ping_transfers_nothing_to_itself() {
    let signer = [9u8; 32];
    let t = self_transfer(signer);
    assert_eq!(t.from, signer);
    assert_eq!(t.to, signer);
    assert_eq!(t.fee_payer, signer);
    assert_eq!(t.lamports, 0);
}

#[test]
fn ping_succeeds_through_every_step() {
    let (mut flow, first) = PingFlow::start();
    assert_eq!(first, PingAction::FetchBlockhash);
    assert_eq!(
        flow.step(PingEvent::Blockhash(Ok([3u8; 32]))),
        PingAction::Sign { blockhash: [3u8; 32] }
    );
    assert_eq!(flow.stage, PingStage::Signing);
    assert_eq!(flow.step(PingEvent::Signed(Ok(()))), PingAction::Submit);
    assert_eq!(
        flow.step(PingEvent::Submitted(Ok("sig".to_string()))),
        PingAction::Finish(Ok("sig".to_string()))
    );
    assert_eq!(flow.stage, PingStage::Finished);
}

#[test]
fn ping_blockhash_failure() {
    let (mut flow, _) = PingFlow::start();
    let action = flow.step(PingEvent::Blockhash(Err("connection refused".to_string())));
    let expected = PingError {
        failure: PingFailure::Blockhash,
        detail: "connection refused".to_string(),
    };
    assert_eq!(
        expected.message(),
        "unable to get latest blockhash: connection refused"
    );
    assert_eq!(action, PingAction::Finish(Err(expected)));
}

#[test]
fn ping_signing_failure() {
    let (mut flow, _) = PingFlow::start();
    flow.step(PingEvent::Blockhash(Ok([0u8; 32])));
    let action = flow.step(PingEvent::Signed(Err("keypair-pubkey mismatch".to_string())));
    match action {
        PingAction::Finish(Err(e)) => {
            assert_eq!(e.failure, PingFailure::Signing);
            assert_eq!(e.message(), "failed to sign transaction: keypair-pubkey mismatch");
        }
        other => panic!("unexpected action {:?}", other),
    }
}

#[test]
fn expired_blockhash_is_a_submission_failure() {
    let (mut flow, _) = PingFlow::start();
    flow.step(PingEvent::Blockhash(Ok([5u8; 32])));
    flow.step(PingEvent::Signed(Ok(())));
    let action = flow.step(PingEvent::Submitted(Err("Blockhash not found".to_string())));
    match action {
        PingAction::Finish(Err(e)) => {
            assert_eq!(e.failure, PingFailure::Submission);
            assert_eq!(e.message(), "send transaction: Blockhash not found");
            assert!(!e.message().contains("failed to sign transaction"));
        }
        other => panic!("unexpected action {:?}", other),
    }
}

#[test]
fn failure_reports_status_one_and_error_prefix() {
    let r = report(Err("connection refused".to_string()));
    assert_eq!(r.status, 1);
    assert_eq!(r.status, FAILURE_STATUS);
    assert_eq!(r.error_line, Some("error: connection refused".to_string()));
    let ok = report(Ok(()));
    assert_eq!(ok.status, 0);
    assert_eq!(ok.error_line, None);
}

#[test]
fn monikers_become_urls() {
    assert_eq!(normalize_to_url_if_moniker("m"), "https://api.mainnet-beta.solana.com");
    assert_eq!(normalize_to_url_if_moniker("testnet"), "https://api.testnet.solana.com");
    assert_eq!(normalize_to_url_if_moniker("d"), "https://api.devnet.solana.com");
    assert_eq!(normalize_to_url_if_moniker("localhost"), "http://localhost:8899");
    assert_eq!(normalize_to_url_if_moniker("http://example.com"), "http://example.com");
}

#[test]
fn endpoints_from_configured_url() {
    let e = resolve_endpoints(None, "https://api.devnet.solana.com".to_string()).unwrap();
    assert_eq!(
        e,
        Endpoints {
            json_rpc_url: "https://api.devnet.solana.com".to_string(),
            websocket_url: "wss://api.devnet.solana.com/".to_string(),
        }
    );
    assert_eq!(
        e.verbose_lines(),
        vec![
            "JSON RPC URL: https://api.devnet.solana.com".to_string(),
            "Websocket URL: wss://api.devnet.solana.com/".to_string(),
        ]
    );
}

#[test]
fn endpoints_from_given_moniker_shift_the_port() {
    let e = resolve_endpoints(Some("l".to_string()), "https://ignored.example".to_string())
        .unwrap();
    assert_eq!(e.json_rpc_url, "http://localhost:8899");
    assert_eq!(e.websocket_url, "ws://localhost:8900/");
}

#[test]
fn endpoints_refuse_unusable_urls() {
    assert_eq!(
        resolve_endpoints(Some("garbage".to_string()), String::new()),
        Err("unsupported RPC URL: garbage".to_string())
    );
    assert!(resolve_endpoints(Some("http://h:65535".to_string()), String::new()).is_err());
    assert!(is_websocket_derivable("https://h:8899"));
    assert!(!is_websocket_derivable("ftp://h"));
    assert!(!is_websocket_derivable(""));
}

#[test]
fn endpoints_refuse_port_split_by_skipped_characters() {
    for url in ["http://h:655\t35", "http://h:655\n35", "http://h:6553\r5", "https://h\t:8899"] {
        assert_eq!(
            resolve_endpoints(Some(url.to_string()), String::new()),
            Err(format!("unsupported RPC URL: {url}"))
        );
        assert!(!is_websocket_derivable(url));
    }
}
