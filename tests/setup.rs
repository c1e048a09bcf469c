use tx_report::report::ReportError;
use tx_report::setup::{
    next_setup, send_txid, NodeConfig, SendReply, WalletReply, WalletSetup, MATURITY_BLOCKS,
    TRANSFER_SAT,
};

#[test]
fn default_config() {
    let c = NodeConfig::regtest_default();
    assert_eq!(c.endpoint, "http://127.0.0.1:18443");
    assert_eq!(c.user, "alice");
    assert_eq!(c.password, "password");
    assert_eq!(c.wallet_url(&c.miner_wallet), "http://127.0.0.1:18443/wallet/Miner");
    assert_eq!(c.wallet_url(&c.trader_wallet), "http://127.0.0.1:18443/wallet/Trader");
}

#[test]
fn fresh_wallet_is_created() {
    assert_eq!(next_setup(WalletSetup::Create, WalletReply::Done), WalletSetup::Ready);
}

#[test]
fn existing_wallet_setup_does_not_fail() {
    assert_eq!(next_setup(WalletSetup::Create, WalletReply::Refused(-35)), WalletSetup::Ready);
    assert_eq!(next_setup(WalletSetup::Create, WalletReply::Refused(-4)), WalletSetup::Load);
    assert_eq!(next_setup(WalletSetup::Create, WalletReply::Refused(-36)), WalletSetup::Load);
    assert_eq!(next_setup(WalletSetup::Load, WalletReply::Done), WalletSetup::Ready);
    assert_eq!(next_setup(WalletSetup::Load, WalletReply::Refused(-35)), WalletSetup::Ready);
}

#[test]
fn other_wallet_failures_stop_setup() {
    assert_eq!(next_setup(WalletSetup::Create, WalletReply::Unreachable), WalletSetup::Failed);
    assert_eq!(next_setup(WalletSetup::Create, WalletReply::Refused(-28)), WalletSetup::Failed);
    assert_eq!(next_setup(WalletSetup::Load, WalletReply::Refused(-18)), WalletSetup::Failed);
    assert_eq!(next_setup(WalletSetup::Load, WalletReply::Unreachable), WalletSetup::Failed);
    assert_eq!(next_setup(WalletSetup::Ready, WalletReply::Unreachable), WalletSetup::Ready);
    assert_eq!(next_setup(WalletSetup::Failed, WalletReply::Done), WalletSetup::Failed);
}

#[test]
fn send_reply_gives_txid_when_complete() {
    let ok = send_txid(SendReply { complete: true, txid: "beef".to_string() });
    assert_eq!(ok, Ok("beef".to_string()));
    let bad = send_txid(SendReply { complete: false, txid: "beef".to_string() });
    assert_eq!(bad, Err(ReportError::SendIncomplete));
}

#[test]
fn run_constants() {
    assert_eq!(MATURITY_BLOCKS + 1, 102);
    assert_eq!(TRANSFER_SAT, 20 * 100_000_000);
}
