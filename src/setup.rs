//! Node connection settings, wallet setup, and the node's answer to a send.
//!
//! Wallet setup is a small state machine: ask the node to create the wallet;
//! if it says the wallet already exists, ask it to load it; a wallet that is
//! already loaded is ready as it is. Any other failure stops the setup.

use vstd::prelude::*;
use vstd::string::StringExecFns;
use crate::report::ReportError;

verus! {

/// Blocks mined to the miner's address before spending: a coinbase output
/// needs one hundred confirmations, so the first block's reward matures.
pub const MATURITY_BLOCKS: u64 = 101;

/// Blocks mined to confirm the transfer.
pub const CONFIRMATION_BLOCKS: u64 = 1;

/// The transfer from the miner to the trader, in satoshis (twenty coins).
pub const TRANSFER_SAT: u64 = 2_000_000_000;

/// Node error code for a generic wallet failure, used when the wallet's
/// database already exists.
pub const RPC_WALLET_ERROR: i32 = -4;

/// Node error code: the wallet is already loaded.
pub const RPC_WALLET_ALREADY_LOADED: i32 = -35;

/// Node error code: a wallet of that name already exists.
pub const RPC_WALLET_ALREADY_EXISTS: i32 = -36;

/// Where the node listens and how to log in, and the two wallets' names.
pub struct NodeConfig {
    pub endpoint: String,
    pub user: String,
    pub password: String,
    pub miner_wallet: String,
    pub trader_wallet: String,
}

impl NodeConfig {
    /// The local regtest node with its default port and this setup's login.
    pub fn regtest_default() -> (r: NodeConfig)
        ensures
            r.endpoint@ == "http://127.0.0.1:18443"@,
            r.user@ == "alice"@,
            r.password@ == "password"@,
            r.miner_wallet@ == "Miner"@,
            r.trader_wallet@ == "Trader"@,
    {
        NodeConfig {
            endpoint: String::from_str("http://127.0.0.1:18443"),
            user: String::from_str("alice"),
            password: String::from_str("password"),
            miner_wallet: String::from_str("Miner"),
            trader_wallet: String::from_str("Trader"),
        }
    }

    /// The endpoint that serves the calls of one wallet.
    pub fn wallet_url(&self, wallet: &String) -> (r: String)
        ensures
            r@ == self.endpoint@ + "/wallet/"@ + wallet@,
    {
        let mut r = self.endpoint.clone();
        r.append("/wallet/");
        r.append(wallet.as_str());
        r
    }
}

/// How the node answered a wallet call.
#[derive(Clone, Copy, Debug, PartialEq, Eq, Structural)]
pub enum WalletReply {
    /// The call succeeded.
    Done,
    /// The node refused the call with this error code.
    Refused(i32),
    /// The node could not be reached or its answer could not be read.
    Unreachable,
}

/// Where the setup of one wallet stands, and what to ask the node next.
#[derive(Clone, Copy, Debug, PartialEq, Eq, Structural)]
pub enum WalletSetup {
    /// Ask the node to create the wallet.
    Create,
    /// Ask the node to load the wallet, which exists already.
    Load,
    /// The wallet is loaded: setup is over.
    Ready,
    /// Setup failed.
    Failed,
}

/// The wallet is loaded already.
pub open spec fn is_loaded_code(code: i32) -> bool {
    code == RPC_WALLET_ALREADY_LOADED
}

/// The wallet exists already, perhaps not loaded.
pub open spec fn is_existing_code(code: i32) -> bool {
    code == RPC_WALLET_ERROR || code == RPC_WALLET_ALREADY_EXISTS
}

/// The wallet is there in one form or another.
pub open spec fn is_present_code(code: i32) -> bool {
    is_loaded_code(code) || is_existing_code(code)
}

/// The setup step that follows `state` once the node has given `reply`.
pub open spec fn next_setup_spec(state: WalletSetup, reply: WalletReply) -> WalletSetup {
    match state {
        WalletSetup::Create => match reply {
            WalletReply::Done => WalletSetup::Ready,
            WalletReply::Refused(c) => if is_loaded_code(c) {
                WalletSetup::Ready
            } else if is_existing_code(c) {
                WalletSetup::Load
            } else {
                WalletSetup::Failed
            },
            WalletReply::Unreachable => WalletSetup::Failed,
        },
        WalletSetup::Load => match reply {
            WalletReply::Done => WalletSetup::Ready,
            WalletReply::Refused(c) => if is_loaded_code(c) {
                WalletSetup::Ready
            } else {
                WalletSetup::Failed
            },
            WalletReply::Unreachable => WalletSetup::Failed,
        },
        WalletSetup::Ready => WalletSetup::Ready,
        WalletSetup::Failed => WalletSetup::Failed,
    }
}

/// The next step of wallet setup once the node has answered the call that
/// `state` asked for. `Ready` and `Failed` are final.
pub fn next_setup(state: WalletSetup, reply: WalletReply) -> (r: WalletSetup)
    ensures
        r == next_setup_spec(state, reply),
{
    match state {
        WalletSetup::Create => match reply {
            WalletReply::Done => WalletSetup::Ready,
            WalletReply::Refused(c) => {
                if c == RPC_WALLET_ALREADY_LOADED {
                    WalletSetup::Ready
                } else if c == RPC_WALLET_ERROR || c == RPC_WALLET_ALREADY_EXISTS {
                    WalletSetup::Load
                } else {
                    WalletSetup::Failed
                }
            },
            WalletReply::Unreachable => WalletSetup::Failed,
        },
        WalletSetup::Load => match reply {
            WalletReply::Done => WalletSetup::Ready,
            WalletReply::Refused(c) => {
                if c == RPC_WALLET_ALREADY_LOADED {
                    WalletSetup::Ready
                } else {
                    WalletSetup::Failed
                }
            },
            WalletReply::Unreachable => WalletSetup::Failed,
        },
        WalletSetup::Ready => WalletSetup::Ready,
        WalletSetup::Failed => WalletSetup::Failed,
    }
}

/// Setting up a wallet that is already there does not fail: asked to create
/// a wallet that the node has loaded, setup is over at once; asked to create
/// one that exists but is not loaded, it goes on to load it, and is over when
/// the node loads it or says it is loaded.
pub proof fn lemma_setup_of_present_wallet(code: i32, load_reply: WalletReply)
    requires
        is_present_code(code),
        load_reply == WalletReply::Done || load_reply == WalletReply::Refused(RPC_WALLET_ALREADY_LOADED),
    ensures
        next_setup_spec(WalletSetup::Create, WalletReply::Refused(code)) != WalletSetup::Failed,
        next_setup_spec(WalletSetup::Create, WalletReply::Refused(code)) == WalletSetup::Load ==>
            next_setup_spec(WalletSetup::Load, load_reply) == WalletSetup::Ready,
        is_loaded_code(code) ==> next_setup_spec(WalletSetup::Create, WalletReply::Refused(code)) == WalletSetup::Ready,
{
}

/// The node's answer to a `send` call.
pub struct SendReply {
    pub complete: bool,
    pub txid: String,
}

/// The id of the sent transaction, when the node completed the send.
pub fn send_txid(reply: SendReply) -> (r: Result<String, ReportError>)
    ensures
        r is Ok <==> reply.complete,
        r matches Ok(t) ==> t@ == reply.txid@,
        r matches Err(e) ==> e == ReportError::SendIncomplete,
{
    if reply.complete {
        Ok(reply.txid)
    } else {
        Err(ReportError::SendIncomplete)
    }
}

} // verus!
