use tx_report::outputs::{Classified, TxOut};
use tx_report::report::{
    compute_fee, funding_outpoint, resolve_funding_input, FundingInput, OutPoint, ReportError,
    TransactionReport,
};

fn p2wpkh(byte: u8) -> Vec<u8> {
    let mut s = vec![0x00, 0x14];
    s.extend_from_slice(&[byte; 20]);
    s
}

fn address_of(script: &[u8]) -> String {
    bitcoin::Address::from_script(bitcoin::Script::from_bytes(script), bitcoin::Network::Regtest)
        .unwrap()
        .to_string()
}

#[test]
fn fee_is_exact_difference() {
    assert_eq!(compute_fee(5_000_000_000, 2_000_000_000, 2_999_998_590), Ok(1_410));
    assert_eq!(compute_fee(10, 3, 7), Ok(0));
    assert_eq!(compute_fee(u64::MAX, u64::MAX - 1, 1), Ok(0));
}

#[test]
fn fee_rejects_overspend() {
    assert_eq!(compute_fee(10, 6, 5), Err(ReportError::OutputsExceedInput));
    assert_eq!(compute_fee(10, 11, 0), Err(ReportError::OutputsExceedInput));
    assert_eq!(compute_fee(u64::MAX, u64::MAX, u64::MAX), Err(ReportError::OutputsExceedInput));
}

#[test]
fn first_input_is_funding() {
    let inputs = vec![
        OutPoint { txid: "aa".to_string(), vout: 3 },
        OutPoint { txid: "bb".to_string(), vout: 0 },
    ];
    let o = funding_outpoint(&inputs).ok().unwrap();
    assert_eq!(o.txid, "aa");
    assert_eq!(o.vout, 3);
    assert!(matches!(funding_outpoint(&vec![]), Err(ReportError::NoInputs)));
}

#[test]
fn funding_input_resolves() {
    let prev = vec![
        TxOut { script: p2wpkh(5), value: 1 },
        TxOut { script: p2wpkh(6), value: 5_000_000_000 },
    ];
    let f = resolve_funding_input(&prev, 1).ok().unwrap();
    assert_eq!(f.address, address_of(&p2wpkh(6)));
    assert_eq!(f.amount, 5_000_000_000);
}

#[test]
fn funding_input_errors() {
    let prev = vec![TxOut { script: vec![0x6a], value: 1 }];
    assert!(matches!(resolve_funding_input(&prev, 0), Err(ReportError::InputAddressUndecodable)));
    assert!(matches!(resolve_funding_input(&prev, 1), Err(ReportError::InputIndexOutOfRange)));
}

fn sample() -> TransactionReport {
    let funding = FundingInput { address: "bcrt1qin".to_string(), amount: 5_000_000_000 };
    let split = Classified {
        recipient_address: "bcrt1qto".to_string(),
        recipient_amount: 2_000_000_000,
        change_address: "bcrt1qback".to_string(),
        change_amount: 2_999_998_590,
    };
    TransactionReport::assemble("ab12".to_string(), funding, split, 102, "00ff".to_string())
        .ok()
        .unwrap()
}

#[test]
fn assembled_report_balances() {
    let r = sample();
    assert_eq!(r.fee, 1_410);
    assert_eq!(r.recipient_amount + r.change_amount + r.fee, r.input_amount);
    assert_eq!(r.block_height, 102);
}

#[test]
fn assemble_rejects_overspend() {
    let funding = FundingInput { address: "a".to_string(), amount: 10 };
    let split = Classified {
        recipient_address: "b".to_string(),
        recipient_amount: 8,
        change_address: "c".to_string(),
        change_amount: 3,
    };
    let r = TransactionReport::assemble("t".to_string(), funding, split, 1, "h".to_string());
    assert!(matches!(r, Err(ReportError::OutputsExceedInput)));
}

#[test]
fn report_lines_in_order() {
    let lines = sample().lines();
    assert_eq!(
        lines,
        vec![
            "ab12",
            "bcrt1qin",
            "50 BTC",
            "bcrt1qto",
            "20",
            "bcrt1qback",
            "29.9999859",
            "0.00001410 BTC",
            "102",
            "00ff",
        ]
    );
}

#[test]
fn report_text_has_ten_lines() {
    let text = sample().text();
    assert_eq!(
        text,
        "ab12\nbcrt1qin\n50 BTC\nbcrt1qto\n20\nbcrt1qback\n29.9999859\n0.00001410 BTC\n102\n00ff\n"
    );
    assert_eq!(text.lines().count(), 10);
}

#[test]
fn zero_and_fractional_amounts_format() {
    let funding = FundingInput { address: "i".to_string(), amount: 150_000_000 };
    let split = Classified {
        recipient_address: String::new(),
        recipient_amount: 0,
        change_address: "c".to_string(),
        change_amount: 50_000_000,
    };
    let r = TransactionReport::assemble("t".to_string(), funding, split, 0, "h".to_string())
        .ok()
        .unwrap();
    let lines = r.lines();
    assert_eq!(lines[2], "1.50000000 BTC");
    assert_eq!(lines[4], "0");
    assert_eq!(lines[6], "0.5");
    assert_eq!(lines[7], "1 BTC");
    assert_eq!(lines[8], "0");
}

#[test]
fn build_splits_and_balances() {
    let trader = address_of(&p2wpkh(1));
    let funding = FundingInput { address: address_of(&p2wpkh(9)), amount: 5_000_000_000 };
    let outs = vec![
        TxOut { script: p2wpkh(2), value: 2_999_998_590 },
        TxOut { script: p2wpkh(1), value: 2_000_000_000 },
    ];
    let r = TransactionReport::build("tx".to_string(), funding, &outs, &trader, 102, "bh".to_string())
        .ok()
        .unwrap();
    assert_eq!(r.recipient_address, trader);
    assert_eq!(r.recipient_amount, 2_000_000_000);
    assert_eq!(r.change_address, address_of(&p2wpkh(2)));
    assert_eq!(r.fee, 1_410);
    assert_eq!(r.lines()[4], "20");
}
