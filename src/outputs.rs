//! Transaction outputs and their split into the recipient's output and the
//! sender's change.
//!
//! An output whose script has no address form is passed over. Among the
//! others, one whose address equals the recipient's is the recipient output
//! and any other is change; a later output of either side replaces an earlier
//! one, so with several change outputs only the last is kept.

use vstd::prelude::*;
use crate::address::{decode_address, regtest_address};

verus! {

/// An output as the node reports it: its locking script and its value in
/// satoshis.
pub struct TxOut {
    pub script: Vec<u8>,
    pub value: u64,
}

/// An output after its script has been read: the address, where it has one,
/// and the value in satoshis.
#[derive(Debug)]
pub struct DecodedOutput {
    pub address: Option<String>,
    pub value: u64,
}

/// The mathematical form of a decoded output.
pub ghost struct OutputModel {
    pub address: Option<Seq<char>>,
    pub value: u64,
}

impl View for DecodedOutput {
    type V = OutputModel;

    open spec fn view(&self) -> OutputModel {
        OutputModel {
            address: match self.address {
                Some(a) => Some(a@),
                None => None,
            },
            value: self.value,
        }
    }
}

/// The recipient output and the change output of a transaction. A side that
/// no output filled holds an empty address and a zero amount.
#[derive(Debug)]
pub struct Classified {
    pub recipient_address: String,
    pub recipient_amount: u64,
    pub change_address: String,
    pub change_amount: u64,
}

/// The mathematical form of a split of outputs.
pub ghost struct ClassifiedModel {
    pub recipient_address: Seq<char>,
    pub recipient_amount: u64,
    pub change_address: Seq<char>,
    pub change_amount: u64,
}

impl View for Classified {
    type V = ClassifiedModel;

    open spec fn view(&self) -> ClassifiedModel {
        ClassifiedModel {
            recipient_address: self.recipient_address@,
            recipient_amount: self.recipient_amount,
            change_address: self.change_address@,
            change_amount: self.change_amount,
        }
    }
}

/// Neither side filled.
pub open spec fn unfilled() -> ClassifiedModel {
    ClassifiedModel {
        recipient_address: Seq::empty(),
        recipient_amount: 0,
        change_address: Seq::empty(),
        change_amount: 0,
    }
}

/// What one more output does to the split so far.
pub open spec fn classify_step(acc: ClassifiedModel, out: OutputModel, recipient: Seq<char>) -> ClassifiedModel {
    match out.address {
        Some(a) => if a == recipient {
            ClassifiedModel {
                recipient_address: a,
                recipient_amount: out.value,
                change_address: acc.change_address,
                change_amount: acc.change_amount,
            }
        } else {
            ClassifiedModel {
                recipient_address: acc.recipient_address,
                recipient_amount: acc.recipient_amount,
                change_address: a,
                change_amount: out.value,
            }
        },
        None => acc,
    }
}

/// The split of a sequence of outputs, taken in order.
pub open spec fn classify(outs: Seq<OutputModel>, recipient: Seq<char>) -> ClassifiedModel
    decreases outs.len(),
{
    if outs.len() == 0 {
        unfilled()
    } else {
        classify_step(classify(outs.drop_last(), recipient), outs.last(), recipient)
    }
}

/// The decoded form of a sequence of outputs.
pub open spec fn decoded_model(outs: Seq<TxOut>) -> Seq<OutputModel> {
    outs.map_values(|o: TxOut| OutputModel { address: regtest_address(o.script@), value: o.value })
}

/// Reads the address of each output's script, keeping the values.
pub fn decode_outputs(outputs: &Vec<TxOut>) -> (r: Vec<DecodedOutput>)
    ensures
        r@.map_values(|d: DecodedOutput| d@) == decoded_model(outputs@),
{
    let mut r: Vec<DecodedOutput> = Vec::new();
    let mut i: usize = 0;
    while i < outputs.len()
        invariant
            i <= outputs@.len(),
            r@.len() == i,
            forall|k: int| 0 <= k < i ==> #[trigger] r@[k]@ == decoded_model(outputs@)[k],
        decreases outputs@.len() - i,
    {
        let address = decode_address(&outputs[i].script);
        r.push(DecodedOutput { address, value: outputs[i].value });
        i = i + 1;
    }
    assert(r@.map_values(|d: DecodedOutput| d@) =~= decoded_model(outputs@));
    r
}

/// Splits decoded outputs into the output paying `recipient` and the change.
pub fn classify_outputs(decoded: &Vec<DecodedOutput>, recipient: &String) -> (r: Classified)
    ensures
        r@ == classify(decoded@.map_values(|d: DecodedOutput| d@), recipient@),
{
    let ghost outs = decoded@.map_values(|d: DecodedOutput| d@);
    let mut r = Classified {
        recipient_address: String::new(),
        recipient_amount: 0,
        change_address: String::new(),
        change_amount: 0,
    };
    let mut i: usize = 0;
    while i < decoded.len()
        invariant
            i <= decoded@.len(),
            outs == decoded@.map_values(|d: DecodedOutput| d@),
            r@ == classify(outs.subrange(0, i as int), recipient@),
        decreases decoded@.len() - i,
    {
        assert(outs.subrange(0, i + 1).drop_last() =~= outs.subrange(0, i as int));
        assert(outs[i as int] == decoded@[i as int]@);
        let ghost prev = r@;
        match &decoded[i].address {
            Some(a) => {
                assert(outs[i as int].address == Some(a@));
                if a.eq(recipient) {
                    r.recipient_address = a.clone();
                    r.recipient_amount = decoded[i].value;
                } else {
                    r.change_address = a.clone();
                    r.change_amount = decoded[i].value;
                }
            },
            None => {},
        }
        assert(r@ == classify_step(prev, outs[i as int], recipient@));
        assert(outs.subrange(0, i + 1).last() == outs[i as int]);
        i = i + 1;
    }
    assert(outs.subrange(0, decoded@.len() as int) =~= outs);
    r
}

/// Decodes each output's script and splits the outputs into the one paying
/// `recipient` and the change.
pub fn split_outputs(outputs: &Vec<TxOut>, recipient: &String) -> (r: Classified)
    ensures
        r@ == classify(decoded_model(outputs@), recipient@),
{
    let decoded = decode_outputs(outputs);
    classify_outputs(&decoded, recipient)
}

proof fn lemma_classify_ignores_inserted(outs: Seq<OutputModel>, i: int, o: OutputModel, recipient: Seq<char>)
    requires
        0 <= i <= outs.len(),
        o.address is None,
    ensures
        classify(outs.insert(i, o), recipient) == classify(outs, recipient),
    decreases outs.len(),
{
    let t = outs.insert(i, o);
    if i == outs.len() {
        assert(t.drop_last() =~= outs);
    } else {
        assert(t.drop_last() =~= outs.drop_last().insert(i, o));
        assert(t.last() == outs.last());
        lemma_classify_ignores_inserted(outs.drop_last(), i, o, recipient);
    }
}

proof fn lemma_change_is_last_other_model(outs: Seq<OutputModel>, j: int, recipient: Seq<char>)
    requires
        0 <= j < outs.len(),
        outs[j].address matches Some(a) && a != recipient,
        forall|k: int| j < k < outs.len() ==> #[trigger] outs[k].address is None
            || outs[k].address == Some(recipient),
    ensures
        Some(classify(outs, recipient).change_address) == outs[j].address,
        classify(outs, recipient).change_amount == outs[j].value,
    decreases outs.len(),
{
    if j < outs.len() - 1 {
        let init = outs.drop_last();
        assert(outs.last() == outs[outs.len() - 1]);
        assert forall|k: int| j < k < init.len() implies #[trigger] init[k].address is None
            || init[k].address == Some(recipient) by {
            assert(init[k] == outs[k]);
        }
        lemma_change_is_last_other_model(init, j, recipient);
    }
}

/// A script that has no address form is passed over: inserting such an
/// output anywhere among the others leaves both the recipient output and the
/// change as they were.
pub proof fn lemma_undecodable_output_ignored(outs: Seq<TxOut>, i: int, o: TxOut, recipient: Seq<char>)
    requires
        0 <= i <= outs.len(),
        regtest_address(o.script@) is None,
    ensures
        classify(decoded_model(outs.insert(i, o)), recipient) == classify(decoded_model(outs), recipient),
{
    let m = OutputModel { address: regtest_address(o.script@), value: o.value };
    assert(decoded_model(outs.insert(i, o)) =~= decoded_model(outs).insert(i, m));
    lemma_classify_ignores_inserted(decoded_model(outs), i, m, recipient);
}

/// The change is the last output whose address is not the recipient's: the
/// outputs after it that have an address all pay the recipient, and earlier
/// change outputs are not reported.
pub proof fn lemma_change_is_last_other(outs: Seq<TxOut>, j: int, recipient: Seq<char>)
    requires
        0 <= j < outs.len(),
        regtest_address(outs[j].script@) matches Some(a) && a != recipient,
        forall|k: int| j < k < outs.len() ==> #[trigger] regtest_address(outs[k].script@) is None
            || regtest_address(outs[k].script@) == Some(recipient),
    ensures
        Some(classify(decoded_model(outs), recipient).change_address) == regtest_address(outs[j].script@),
        classify(decoded_model(outs), recipient).change_amount == outs[j].value,
{
    let d = decoded_model(outs);
    assert forall|k: int| j < k < d.len() implies #[trigger] d[k].address is None
        || d[k].address == Some(recipient) by {
        assert(d[k].address == regtest_address(outs[k].script@));
    }
    lemma_change_is_last_other_model(d, j, recipient);
}

/// With exactly two outputs, one paying the recipient and one paying another
/// address, the recipient side and the change side come out the same in
/// either order, each holding its own output's address and value.
pub proof fn lemma_two_outputs_any_order(pay: TxOut, change: TxOut, recipient: Seq<char>)
    requires
        regtest_address(pay.script@) == Some(recipient),
        regtest_address(change.script@) matches Some(a) && a != recipient,
    ensures
        classify(decoded_model(seq![pay, change]), recipient) == classify(decoded_model(seq![change, pay]), recipient),
        classify(decoded_model(seq![pay, change]), recipient) == (ClassifiedModel {
            recipient_address: recipient,
            recipient_amount: pay.value,
            change_address: regtest_address(change.script@)->Some_0,
            change_amount: change.value,
        }),
{
    let pc = decoded_model(seq![pay, change]);
    let cp = decoded_model(seq![change, pay]);
    assert(pc.drop_last() =~= seq![pc[0]]);
    assert(cp.drop_last() =~= seq![cp[0]]);
    assert(seq![pc[0]].drop_last() =~= Seq::<OutputModel>::empty());
    assert(seq![cp[0]].drop_last() =~= Seq::<OutputModel>::empty());
    assert(pc[0].address == Some(recipient) && pc[1] == cp[0] && cp[1] == pc[0]);
    assert(classify(Seq::<OutputModel>::empty(), recipient) == unfilled());
    assert(seq![pc[0]].last() == pc[0] && seq![cp[0]].last() == cp[0]);
    assert(classify(seq![pc[0]], recipient) == classify_step(unfilled(), pc[0], recipient));
    assert(classify(seq![cp[0]], recipient) == classify_step(unfilled(), cp[0], recipient));
    assert(classify(pc, recipient) == classify_step(classify(seq![pc[0]], recipient), pc[1], recipient));
    assert(classify(cp, recipient) == classify_step(classify(seq![cp[0]], recipient), cp[1], recipient));
}

} // verus!
