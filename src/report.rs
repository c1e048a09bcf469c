//! The transfer report: the spent input, the recipient output, the change,
//! the fee, and the block that confirmed the transaction.

use vstd::prelude::*;
use vstd::string::StringExecFns;
use crate::address::{decode_address, regtest_address};
use crate::amount::{btc_plain, btc_plain_text, btc_unit_text, btc_with_unit, decimal_text, u64_text};
use crate::outputs::{classify, decoded_model, split_outputs, Classified, TxOut};

verus! {

/// Why a report could not be made.
#[derive(Clone, Copy, Debug, PartialEq, Eq, Structural)]
pub enum ReportError {
    /// The transaction spends no input.
    NoInputs,
    /// The spent output's index is past the end of its transaction's outputs.
    InputIndexOutOfRange,
    /// The spent output's script has no address form.
    InputAddressUndecodable,
    /// The recipient and change amounts together exceed the spent amount.
    OutputsExceedInput,
    /// The node reported a send that it did not complete.
    SendIncomplete,
}

/// An input's reference to the output it spends.
pub struct OutPoint {
    pub txid: String,
    pub vout: u32,
}

/// The output that funded the transfer: its address and value in satoshis.
pub struct FundingInput {
    pub address: String,
    pub amount: u64,
}

/// The fee left by a spend of `input` satoshis paying out `recipient` and
/// `change` satoshis, found by exact subtraction.
pub fn compute_fee(input: u64, recipient: u64, change: u64) -> (r: Result<u64, ReportError>)
    ensures
        r is Ok <==> recipient + change <= input,
        r matches Ok(fee) ==> fee + recipient + change == input,
        r matches Err(e) ==> e == ReportError::OutputsExceedInput,
{
    if recipient > input || change > input - recipient {
        Err(ReportError::OutputsExceedInput)
    } else {
        Ok(input - recipient - change)
    }
}

/// The outpoint that the transaction's first input spends.
pub fn funding_outpoint(inputs: &Vec<OutPoint>) -> (r: Result<OutPoint, ReportError>)
    ensures
        r is Ok <==> inputs@.len() > 0,
        r matches Ok(o) ==> o.txid@ == inputs@[0].txid@ && o.vout == inputs@[0].vout,
        r matches Err(e) ==> e == ReportError::NoInputs,
{
    if inputs.len() == 0 {
        Err(ReportError::NoInputs)
    } else {
        Ok(OutPoint { txid: inputs[0].txid.clone(), vout: inputs[0].vout })
    }
}

/// The address and value of output `vout` among the outputs of the spent
/// transaction. That output must exist and its script must have an address
/// form.
pub fn resolve_funding_input(prev_outputs: &Vec<TxOut>, vout: u32) -> (r: Result<FundingInput, ReportError>)
    ensures
        vout >= prev_outputs@.len() ==> r == Err::<FundingInput, ReportError>(ReportError::InputIndexOutOfRange),
        vout < prev_outputs@.len() ==> match regtest_address(prev_outputs@[vout as int].script@) {
            Some(a) => r matches Ok(f) && f.address@ == a && f.amount == prev_outputs@[vout as int].value,
            None => r == Err::<FundingInput, ReportError>(ReportError::InputAddressUndecodable),
        },
{
    let index = vout as usize;
    if index >= prev_outputs.len() {
        return Err(ReportError::InputIndexOutOfRange);
    }
    match decode_address(&prev_outputs[index].script) {
        Some(address) => Ok(FundingInput { address, amount: prev_outputs[index].value }),
        None => Err(ReportError::InputAddressUndecodable),
    }
}

/// Lines, each followed by a line break.
pub open spec fn newline_joined(lines: Seq<Seq<char>>) -> Seq<char>
    decreases lines.len(),
{
    if lines.len() == 0 {
        Seq::empty()
    } else {
        newline_joined(lines.drop_last()) + lines.last() + seq!['\n']
    }
}

/// The record of one transfer. Amounts are in satoshis.
pub struct TransactionReport {
    pub txid: String,
    pub input_address: String,
    pub input_amount: u64,
    pub recipient_address: String,
    pub recipient_amount: u64,
    pub change_address: String,
    pub change_amount: u64,
    pub fee: u64,
    pub block_height: u64,
    pub block_hash: String,
}

impl TransactionReport {
    /// What was paid out and the fee add up to what was spent.
    pub open spec fn balanced(&self) -> bool {
        self.recipient_amount + self.change_amount + self.fee == self.input_amount
    }

    /// The report's lines, in order.
    pub open spec fn lines_spec(&self) -> Seq<Seq<char>> {
        seq![
            self.txid@,
            self.input_address@,
            btc_unit_text(self.input_amount),
            self.recipient_address@,
            btc_plain_text(self.recipient_amount),
            self.change_address@,
            btc_plain_text(self.change_amount),
            btc_unit_text(self.fee),
            decimal_text(self.block_height as nat),
            self.block_hash@,
        ]
    }

    /// Puts a report together from the funding input and the split of the
    /// outputs; the fee is what the two sides leave of the input.
    pub fn assemble(
        txid: String,
        funding: FundingInput,
        split: Classified,
        block_height: u64,
        block_hash: String,
    ) -> (r: Result<TransactionReport, ReportError>)
        ensures
            r is Ok <==> split.recipient_amount + split.change_amount <= funding.amount,
            r matches Err(e) ==> e == ReportError::OutputsExceedInput,
            r matches Ok(rep) ==> {
                &&& rep.balanced()
                &&& rep.txid@ == txid@
                &&& rep.input_address@ == funding.address@
                &&& rep.input_amount == funding.amount
                &&& rep.recipient_address@ == split.recipient_address@
                &&& rep.recipient_amount == split.recipient_amount
                &&& rep.change_address@ == split.change_address@
                &&& rep.change_amount == split.change_amount
                &&& rep.fee == funding.amount - (split.recipient_amount + split.change_amount)
                &&& rep.block_height == block_height
                &&& rep.block_hash@ == block_hash@
            },
    {
        let fee = match compute_fee(funding.amount, split.recipient_amount, split.change_amount) {
            Ok(fee) => fee,
            Err(e) => return Err(e),
        };
        Ok(TransactionReport {
            txid,
            input_address: funding.address,
            input_amount: funding.amount,
            recipient_address: split.recipient_address,
            recipient_amount: split.recipient_amount,
            change_address: split.change_address,
            change_amount: split.change_amount,
            fee,
            block_height,
            block_hash,
        })
    }

    /// Builds the report of transaction `txid` from its funding input and its
    /// outputs: the output whose address is `recipient` is the recipient
    /// side, the last other output with an address is the change.
    pub fn build(
        txid: String,
        funding: FundingInput,
        outputs: &Vec<TxOut>,
        recipient: &String,
        block_height: u64,
        block_hash: String,
    ) -> (r: Result<TransactionReport, ReportError>)
        ensures
            ({
                let split = classify(decoded_model(outputs@), recipient@);
                &&& r is Ok <==> split.recipient_amount + split.change_amount <= funding.amount
                &&& r matches Err(e) ==> e == ReportError::OutputsExceedInput
                &&& r matches Ok(rep) ==> {
                    &&& rep.balanced()
                    &&& rep.txid@ == txid@
                    &&& rep.input_address@ == funding.address@
                    &&& rep.input_amount == funding.amount
                    &&& rep.recipient_address@ == split.recipient_address
                    &&& rep.recipient_amount == split.recipient_amount
                    &&& rep.change_address@ == split.change_address
                    &&& rep.change_amount == split.change_amount
                    &&& rep.fee == funding.amount - (split.recipient_amount + split.change_amount)
                    &&& rep.block_height == block_height
                    &&& rep.block_hash@ == block_hash@
                }
            }),
    {
        let split = split_outputs(outputs, recipient);
        TransactionReport::assemble(txid, funding, split, block_height, block_hash)
    }

    /// The report's lines, in order: transaction id, input address, input
    /// amount, recipient address, recipient amount, change address, change
    /// amount, fee, block height, block hash.
    pub fn lines(&self) -> (r: Vec<String>)
        ensures
            r@.map_values(|s: String| s@) == self.lines_spec(),
    {
        let mut r: Vec<String> = Vec::new();
        r.push(self.txid.clone());
        r.push(self.input_address.clone());
        r.push(btc_with_unit(self.input_amount));
        r.push(self.recipient_address.clone());
        r.push(btc_plain(self.recipient_amount));
        r.push(self.change_address.clone());
        r.push(btc_plain(self.change_amount));
        r.push(btc_with_unit(self.fee));
        r.push(u64_text(self.block_height));
        r.push(self.block_hash.clone());
        assert(r@.map_values(|s: String| s@) =~= self.lines_spec());
        r
    }

    /// The report as text: its lines in order, each ended by a line break.
    pub fn text(&self) -> (r: String)
        ensures
            r@ == newline_joined(self.lines_spec()),
    {
        let lines = self.lines();
        let ghost model = lines@.map_values(|s: String| s@);
        let mut r = String::new();
        let mut i: usize = 0;
        while i < lines.len()
            invariant
                i <= lines@.len(),
                model == lines@.map_values(|s: String| s@),
                r@ == newline_joined(model.subrange(0, i as int)),
            decreases lines@.len() - i,
        {
            proof {
                reveal_strlit("\n");
            }
            assert(model.subrange(0, i + 1).drop_last() =~= model.subrange(0, i as int));
            assert(model.subrange(0, i + 1).last() == lines@[i as int]@);
            r.append(lines[i].as_str());
            r.append("\n");
            i = i + 1;
        }
        assert(model.subrange(0, lines@.len() as int) =~= model);
        r
    }
}

} // verus!
