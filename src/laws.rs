//! Laws of the conversions from the node's answers to domain values.
use vstd::prelude::*;
use crate::address::{
    byte_chunk_ok, byte_chunk_value, eth_address_parse, eth_address_text, hex_char_value, hex_digit,
    is_hex_char, strip_hex_prefix, cosmos_address_normal, uint256_accepts, EthAddress,
};
use crate::types::{
    batch_confirm_matches, batch_confirm_ok, batch_matches, batch_ok, logic_call_confirm_matches,
    logic_call_confirm_ok, logic_call_matches, logic_call_ok, token_matches, token_ok, tokens_match,
    tokens_ok, transaction_matches, transaction_ok, valset_confirm_matches, valset_confirm_ok,
    valset_matches, BatchConfirmResponse, BatchTransaction, Erc20Token, LogicCall,
    LogicCallConfirmResponse, TransactionBatch, Valset, ValsetConfirmResponse,
};
use crate::query::{
    batch_confirms_match, batch_confirms_ok, batches_match, batches_ok, logic_call_confirms_ok,
    logic_calls_ok, valset_confirms_match, valset_confirms_ok,
};
use crate::wire::{
    BatchTx, BatchTxConfirmation, ContractCallTx, ContractCallTxConfirmation, SendToEthereum,
    SignerSetTx, SignerSetTxConfirmation,
};

verus! {

proof fn lemma_hex_digit(n: int)
    requires
        0 <= n < 16,
    ensures
        is_hex_char(hex_digit(n)),
        hex_digit(n) != '+',
        hex_char_value(hex_digit(n)) == n,
{
}

/// The canonical text of 20 bytes parses back to those bytes.
pub proof fn eth_address_round_trip(b: Seq<u8>)
    requires
        b.len() == 20,
    ensures
        eth_address_parse(eth_address_text(b)) == Some(b),
{
    let t = eth_address_text(b);
    let h = strip_hex_prefix(t);
    assert(t.len() == 42);
    assert(t[0] == '0' && t[1] == 'x');
    assert(h.len() == 40);
    assert forall|i: int| 0 <= i < 20 implies byte_chunk_ok(#[trigger] h[2 * i], h[2 * i + 1])
        && byte_chunk_value(h[2 * i], h[2 * i + 1]) == b[i] as int by {
        assert(h[2 * i] == t[2 * i + 2]);
        assert(h[2 * i + 1] == t[2 * i + 3]);
        assert((2 * i) / 2 == i && (2 * i) % 2 == 0) by (nonlinear_arith);
        assert((2 * i + 1) / 2 == i && (2 * i + 1) % 2 == 1) by (nonlinear_arith);
        lemma_hex_digit(b[i] as int / 16);
        lemma_hex_digit(b[i] as int % 16);
    }
    assert(eth_address_parse(t).unwrap() =~= b);
}

/// `s` is the canonical wire text of the address.
pub open spec fn eth_wire(s: Seq<char>, a: EthAddress) -> bool {
    a.wf() && s == eth_address_text(a.bytes@)
}

/// The wire text of a member without an address.
pub open spec fn no_address_text() -> Seq<char> {
    seq!['n', 'o', 'n', 'e']
}

/// `w` is the wire form of the validator set `v`.
pub open spec fn valset_wire(w: SignerSetTx, v: Valset) -> bool {
    &&& w.nonce == v.nonce
    &&& w.signers@.len() == v.members@.len()
    &&& forall|i: int| 0 <= i < v.members@.len() ==> {
        let m = #[trigger] v.members@[i];
        let s = w.signers@[i];
        &&& s.power == m.power
        &&& match m.eth_address {
            Some(a) => eth_wire(s.ethereum_address@, a),
            None => s.ethereum_address@ == no_address_text(),
        }
    }
}

/// The two addresses hold the same bytes.
pub open spec fn eth_same(a: EthAddress, b: EthAddress) -> bool {
    a.bytes@ == b.bytes@
}

/// The two validator sets are equal field for field.
pub open spec fn valset_same(a: Valset, b: Valset) -> bool {
    &&& a.nonce == b.nonce
    &&& a.members@.len() == b.members@.len()
    &&& forall|i: int| 0 <= i < a.members@.len() ==> {
        let x = #[trigger] a.members@[i];
        let y = b.members@[i];
        &&& x.power == y.power
        &&& match (x.eth_address, y.eth_address) {
            (Some(p), Some(q)) => eth_same(p, q),
            (None, None) => true,
            _ => false,
        }
    }
}

/// A validator set put in wire form converts back to itself: the conversion's
/// contract, which fixes every field of its result, holds of `v`.
pub proof fn valset_round_trip(w: SignerSetTx, v: Valset)
    requires
        valset_wire(w, v),
    ensures
        valset_matches(w, v),
        forall|x: Valset| #[trigger] valset_matches(w, x) ==> valset_same(x, v),
{
    assert forall|i: int| 0 <= i < w.signers@.len() implies crate::types::member_matches(#[trigger] w.signers@[i], v.members@[i]) by {
        let m = v.members@[i];
        match m.eth_address {
            Some(a) => eth_address_round_trip(a.bytes@),
            None => {
                assert(strip_hex_prefix(no_address_text()) == no_address_text());
            },
        }
    }
    assert forall|x: Valset| #[trigger] valset_matches(w, x) implies valset_same(x, v) by {
        assert forall|i: int| 0 <= i < x.members@.len() implies crate::types::member_matches(#[trigger] w.signers@[i], x.members@[i])
            && crate::types::member_matches(w.signers@[i], v.members@[i]) by {}
    }
}

/// `w` is the wire form of the signature `c`.
pub open spec fn valset_confirm_wire(w: SignerSetTxConfirmation, c: ValsetConfirmResponse) -> bool {
    &&& w.signer_set_nonce == c.nonce
    &&& eth_wire(w.ethereum_signer@, c.eth_signer)
    &&& c.eth_signature.wf()
    &&& w.signature@ == c.eth_signature.bytes@
}

/// A validator set signature put in wire form converts back to itself.
pub proof fn valset_confirm_round_trip(w: SignerSetTxConfirmation, c: ValsetConfirmResponse)
    requires
        valset_confirm_wire(w, c),
    ensures
        valset_confirm_ok(w),
        valset_confirm_matches(w, c),
        forall|x: ValsetConfirmResponse| #[trigger] valset_confirm_matches(w, x) ==> {
            &&& x.nonce == c.nonce
            &&& eth_same(x.eth_signer, c.eth_signer)
            &&& x.eth_signature.bytes@ == c.eth_signature.bytes@
        },
{
    eth_address_round_trip(c.eth_signer.bytes@);
}

/// The two token amounts are equal field for field.
pub open spec fn token_same(a: Erc20Token, b: Erc20Token) -> bool {
    eth_same(a.token_contract_address, b.token_contract_address) && a.amount@ == b.amount@
}

pub open spec fn tokens_same(a: Seq<Erc20Token>, b: Seq<Erc20Token>) -> bool {
    &&& a.len() == b.len()
    &&& forall|i: int| 0 <= i < a.len() ==> token_same(#[trigger] a[i], b[i])
}

/// The two transfers are equal field for field.
pub open spec fn transaction_same(a: BatchTransaction, b: BatchTransaction) -> bool {
    &&& a.id == b.id
    &&& a.sender@ == b.sender@
    &&& eth_same(a.destination, b.destination)
    &&& token_same(a.erc20_token, b.erc20_token)
    &&& token_same(a.erc20_fee, b.erc20_fee)
}

/// The two batches are equal field for field.
pub open spec fn batch_same(a: TransactionBatch, b: TransactionBatch) -> bool {
    &&& a.nonce == b.nonce
    &&& a.batch_timeout == b.batch_timeout
    &&& eth_same(a.token_contract, b.token_contract)
    &&& a.transactions@.len() == b.transactions@.len()
    &&& forall|i: int| 0 <= i < a.transactions@.len()
        ==> transaction_same(#[trigger] a.transactions@[i], b.transactions@[i])
}

/// The two logic calls are equal field for field.
pub open spec fn logic_call_same(a: LogicCall, b: LogicCall) -> bool {
    &&& tokens_same(a.transfers@, b.transfers@)
    &&& tokens_same(a.fees@, b.fees@)
    &&& eth_same(a.logic_contract_address, b.logic_contract_address)
    &&& a.payload@ == b.payload@
    &&& a.timeout == b.timeout
    &&& a.invalidation_id@ == b.invalidation_id@
    &&& a.invalidation_nonce == b.invalidation_nonce
}

/// `w` is the wire form of the token amount `t`, whose amount text is one
/// that reads as a 256-bit amount.
pub open spec fn token_wire(w: crate::wire::Erc20Token, t: Erc20Token) -> bool {
    &&& eth_wire(w.contract@, t.token_contract_address)
    &&& uint256_accepts(t.amount@)
    &&& w.amount@ == t.amount@
}

proof fn token_round_trip(w: crate::wire::Erc20Token, t: Erc20Token)
    requires
        token_wire(w, t),
    ensures
        token_ok(w),
        token_matches(w, t),
{
    eth_address_round_trip(t.token_contract_address.bytes@);
}

pub open spec fn tokens_wire(ws: Seq<crate::wire::Erc20Token>, ts: Seq<Erc20Token>) -> bool {
    &&& ws.len() == ts.len()
    &&& forall|i: int| 0 <= i < ts.len() ==> token_wire(#[trigger] ws[i], ts[i])
}

proof fn tokens_round_trip(ws: Seq<crate::wire::Erc20Token>, ts: Seq<Erc20Token>)
    requires
        tokens_wire(ws, ts),
    ensures
        tokens_ok(ws),
        tokens_match(ws, ts),
{
    assert forall|i: int| 0 <= i < ws.len() implies token_ok(#[trigger] ws[i]) && token_matches(ws[i], ts[i]) by {
        token_round_trip(ws[i], ts[i]);
    }
}

/// `w` is the wire form of the transfer `t`, whose sender is a Cosmos
/// address in the form that `deep_space` prints.
pub open spec fn transaction_wire(w: SendToEthereum, t: BatchTransaction) -> bool {
    &&& w.id == t.id
    &&& cosmos_address_normal(t.sender@) == Some(t.sender@)
    &&& w.sender@ == t.sender@
    &&& eth_wire(w.ethereum_recipient@, t.destination)
    &&& token_wire(w.erc20_token, t.erc20_token)
    &&& token_wire(w.erc20_fee, t.erc20_fee)
}

/// `w` is the wire form of the batch `b`.
pub open spec fn batch_wire(w: BatchTx, b: TransactionBatch) -> bool {
    &&& w.batch_nonce == b.nonce
    &&& w.timeout == b.batch_timeout
    &&& eth_wire(w.token_contract@, b.token_contract)
    &&& w.transactions@.len() == b.transactions@.len()
    &&& forall|i: int| 0 <= i < b.transactions@.len()
        ==> transaction_wire(#[trigger] w.transactions@[i], b.transactions@[i])
}

/// A batch put in wire form converts back to itself.
pub proof fn batch_round_trip(w: BatchTx, b: TransactionBatch)
    requires
        batch_wire(w, b),
    ensures
        batch_ok(w),
        batch_matches(w, b),
        forall|x: TransactionBatch| #[trigger] batch_matches(w, x) ==> batch_same(x, b),
{
    eth_address_round_trip(b.token_contract.bytes@);
    assert forall|i: int| 0 <= i < w.transactions@.len() implies transaction_ok(#[trigger] w.transactions@[i])
        && transaction_matches(w.transactions@[i], b.transactions@[i]) by {
        let t = b.transactions@[i];
        let x = w.transactions@[i];
        assert(transaction_wire(x, t));
        eth_address_round_trip(t.destination.bytes@);
        token_round_trip(x.erc20_token, t.erc20_token);
        token_round_trip(x.erc20_fee, t.erc20_fee);
    }
    assert forall|x: TransactionBatch| #[trigger] batch_matches(w, x) implies batch_same(x, b) by {
        assert forall|i: int| 0 <= i < x.transactions@.len() implies transaction_same(#[trigger] x.transactions@[i], b.transactions@[i]) by {
            assert(transaction_matches(w.transactions@[i], x.transactions@[i]));
            assert(transaction_matches(w.transactions@[i], b.transactions@[i]));
        }
    }
}

/// `w` is the wire form of the batch signature `c`.
pub open spec fn batch_confirm_wire(w: BatchTxConfirmation, c: BatchConfirmResponse) -> bool {
    &&& w.batch_nonce == c.nonce
    &&& eth_wire(w.token_contract@, c.token_contract)
    &&& eth_wire(w.ethereum_signer@, c.eth_signer)
    &&& c.eth_signature.wf()
    &&& w.signature@ == c.eth_signature.bytes@
}

/// A batch signature put in wire form converts back to itself.
pub proof fn batch_confirm_round_trip(w: BatchTxConfirmation, c: BatchConfirmResponse)
    requires
        batch_confirm_wire(w, c),
    ensures
        batch_confirm_ok(w),
        batch_confirm_matches(w, c),
        forall|x: BatchConfirmResponse| #[trigger] batch_confirm_matches(w, x) ==> {
            &&& x.nonce == c.nonce
            &&& eth_same(x.token_contract, c.token_contract)
            &&& eth_same(x.eth_signer, c.eth_signer)
            &&& x.eth_signature.bytes@ == c.eth_signature.bytes@
        },
{
    eth_address_round_trip(c.token_contract.bytes@);
    eth_address_round_trip(c.eth_signer.bytes@);
}

/// `w` is the wire form of the logic call `c`.
pub open spec fn logic_call_wire(w: ContractCallTx, c: LogicCall) -> bool {
    &&& tokens_wire(w.tokens@, c.transfers@)
    &&& tokens_wire(w.fees@, c.fees@)
    &&& eth_wire(w.address@, c.logic_contract_address)
    &&& w.payload@ == c.payload@
    &&& w.timeout == c.timeout
    &&& w.invalidation_scope@ == c.invalidation_id@
    &&& w.invalidation_nonce == c.invalidation_nonce
}

/// A logic call put in wire form converts back to itself.
pub proof fn logic_call_round_trip(w: ContractCallTx, c: LogicCall)
    requires
        logic_call_wire(w, c),
    ensures
        logic_call_ok(w),
        logic_call_matches(w, c),
        forall|x: LogicCall| #[trigger] logic_call_matches(w, x) ==> logic_call_same(x, c),
{
    tokens_round_trip(w.tokens@, c.transfers@);
    tokens_round_trip(w.fees@, c.fees@);
    eth_address_round_trip(c.logic_contract_address.bytes@);
    assert forall|x: LogicCall| #[trigger] logic_call_matches(w, x) implies logic_call_same(x, c) by {
        assert forall|i: int| 0 <= i < x.transfers@.len() implies token_same(#[trigger] x.transfers@[i], c.transfers@[i]) by {
            assert(token_matches(w.tokens@[i], x.transfers@[i]));
            assert(token_matches(w.tokens@[i], c.transfers@[i]));
        }
        assert forall|i: int| 0 <= i < x.fees@.len() implies token_same(#[trigger] x.fees@[i], c.fees@[i]) by {
            assert(token_matches(w.fees@[i], x.fees@[i]));
            assert(token_matches(w.fees@[i], c.fees@[i]));
        }
    }
}

/// `w` is the wire form of the logic call signature `c`.
pub open spec fn logic_call_confirm_wire(w: ContractCallTxConfirmation, c: LogicCallConfirmResponse) -> bool {
    &&& w.invalidation_scope@ == c.invalidation_id@
    &&& w.invalidation_nonce == c.invalidation_nonce
    &&& eth_wire(w.ethereum_signer@, c.eth_signer)
    &&& c.eth_signature.wf()
    &&& w.signature@ == c.eth_signature.bytes@
}

/// A logic call signature put in wire form converts back to itself.
pub proof fn logic_call_confirm_round_trip(w: ContractCallTxConfirmation, c: LogicCallConfirmResponse)
    requires
        logic_call_confirm_wire(w, c),
    ensures
        logic_call_confirm_ok(w),
        logic_call_confirm_matches(w, c),
        forall|x: LogicCallConfirmResponse| #[trigger] logic_call_confirm_matches(w, x) ==> {
            &&& x.invalidation_id@ == c.invalidation_id@
            &&& x.invalidation_nonce == c.invalidation_nonce
            &&& eth_same(x.eth_signer, c.eth_signer)
            &&& x.eth_signature.bytes@ == c.eth_signature.bytes@
        },
{
    eth_address_round_trip(c.eth_signer.bytes@);
}

/// One malformed signature among those the node sends for a validator set
/// makes the answer fail as a whole: the accessor's contract then allows only
/// a parse failure.
pub proof fn malformed_valset_confirm_fails_all(ws: Seq<SignerSetTxConfirmation>, i: int)
    requires
        0 <= i < ws.len(),
        !valset_confirm_ok(ws[i]),
    ensures
        !valset_confirms_ok(ws),
{
}

/// One malformed signature among those the node sends for a batch makes the
/// answer fail as a whole.
pub proof fn malformed_batch_confirm_fails_all(ws: Seq<BatchTxConfirmation>, i: int)
    requires
        0 <= i < ws.len(),
        !batch_confirm_ok(ws[i]),
    ensures
        !batch_confirms_ok(ws),
{
}

/// One malformed signature among those the node sends for a logic call makes
/// the answer fail as a whole.
pub proof fn malformed_logic_call_confirm_fails_all(ws: Seq<ContractCallTxConfirmation>, i: int)
    requires
        0 <= i < ws.len(),
        !logic_call_confirm_ok(ws[i]),
    ensures
        !logic_call_confirms_ok(ws),
{
}

/// One malformed batch in a list makes the answer fail as a whole.
pub proof fn malformed_batch_fails_all(ws: Seq<BatchTx>, i: int)
    requires
        0 <= i < ws.len(),
        !batch_ok(ws[i]),
    ensures
        !batches_ok(ws),
{
}

/// One malformed logic call in a list makes the answer fail as a whole.
pub proof fn malformed_logic_call_fails_all(ws: Seq<ContractCallTx>, i: int)
    requires
        0 <= i < ws.len(),
        !logic_call_ok(ws[i]),
    ensures
        !logic_calls_ok(ws),
{
}

/// An empty answer converts without failure, and only to the empty list.
pub proof fn empty_answer_gives_empty_list(
    cs: Seq<ValsetConfirmResponse>,
    bs: Seq<TransactionBatch>,
    bcs: Seq<BatchConfirmResponse>,
)
    ensures
        valset_confirms_ok(Seq::<SignerSetTxConfirmation>::empty()),
        valset_confirms_match(Seq::<SignerSetTxConfirmation>::empty(), cs) ==> cs.len() == 0,
        batches_ok(Seq::<BatchTx>::empty()),
        batches_match(Seq::<BatchTx>::empty(), bs) ==> bs.len() == 0,
        batch_confirms_ok(Seq::<BatchTxConfirmation>::empty()),
        batch_confirms_match(Seq::<BatchTxConfirmation>::empty(), bcs) ==> bcs.len() == 0,
{
}

} // verus!
