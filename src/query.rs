//! One accessor per query of the bridge module. The exchange with the node
//! is made by the caller; each accessor takes its outcome, the node's answer
//! or the transport's status, and turns it into domain values. A transport
//! failure is handed on unchanged, and one item that does not convert fails
//! the whole query.
use vstd::prelude::*;
use crate::types::{
    batch_confirm_matches, batch_confirm_ok, batch_matches, batch_ok, logic_call_confirm_matches,
    logic_call_confirm_ok, logic_call_matches, logic_call_ok, valset_confirm_matches,
    valset_confirm_ok, valset_matches, BatchConfirmResponse, GravityError, LogicCall,
    LogicCallConfirmResponse, TransactionBatch, Valset, ValsetConfirmResponse,
};
use crate::address::{cosmos_address_normal, eth_address_display, normalize_cosmos_address, EthAddress};
use crate::wire::{
    BatchTxEthereumSignaturesRequest, ContractCallTxEthereumSignaturesRequest, SignerRequest,
    SignerSetTxConfirmationsRequest, SignerSetTxRequest, SignerSetTxsRequest,
    BatchTx, BatchTxConfirmation, ContractCallTx, ContractCallTxConfirmation, RpcStatus,
    SignerSetTx, SignerSetTxConfirmation,
};

verus! {

/// The number of latest validator sets asked for.
pub const LATEST_VALSETS_COUNT: u64 = 5;

/// The request for the validator set at `nonce`.
pub fn valset_request(nonce: u64) -> (r: SignerSetTxRequest)
    ensures
        r.nonce == nonce,
{
    SignerSetTxRequest { nonce }
}

/// The request for the current validator set: nonce 0.
pub fn current_valset_request() -> (r: SignerSetTxRequest)
    ensures
        r.nonce == 0,
{
    SignerSetTxRequest { nonce: 0 }
}

/// The request for the latest validator sets: five of them.
pub fn latest_valsets_request() -> (r: SignerSetTxsRequest)
    ensures
        r.count == LATEST_VALSETS_COUNT,
{
    SignerSetTxsRequest { count: LATEST_VALSETS_COUNT }
}

/// The request for every signature over the validator set at `nonce`.
pub fn valset_confirms_request(nonce: u64) -> (r: SignerSetTxConfirmationsRequest)
    ensures
        r.nonce == nonce,
{
    SignerSetTxConfirmationsRequest { nonce }
}

/// The request that names a signer (what it has still to sign, or the last
/// event it attested), with its address in bech32; a text that is no Cosmos
/// address fails to parse.
pub fn signer_request(address: &str) -> (r: Result<SignerRequest, GravityError>)
    ensures
        match r {
            Ok(q) => cosmos_address_normal(address@) == Some(q.address@),
            Err(e) => cosmos_address_normal(address@) is None && e is ParseError,
        },
{
    match normalize_cosmos_address(address) {
        Some(t) => Ok(SignerRequest { address: t }),
        None => Err(GravityError::ParseError),
    }
}

/// The request for every signature over the batch of `nonce` and a token
/// contract, named by its EIP-55 text.
pub fn batch_signatures_request(nonce: u64, contract_address: &EthAddress) -> (r: BatchTxEthereumSignaturesRequest)
    requires
        contract_address.wf(),
    ensures
        r.nonce == nonce,
        r.contract_address@ == eth_address_display(contract_address.bytes@),
{
    BatchTxEthereumSignaturesRequest { nonce, contract_address: contract_address.to_text() }
}

/// The request for every signature over a logic call: the signer filter is
/// left empty, so that all signers' come back.
pub fn logic_call_signatures_request(invalidation_scope: Vec<u8>, invalidation_nonce: u64) -> (r: ContractCallTxEthereumSignaturesRequest)
    ensures
        r.invalidation_scope@ == invalidation_scope@,
        r.invalidation_nonce == invalidation_nonce,
        r.address@.len() == 0,
{
    ContractCallTxEthereumSignaturesRequest { invalidation_scope, invalidation_nonce, address: String::new() }
}

/// Every validator set of `vs` is the one that the item of `ws` at the same
/// place carries.
pub open spec fn valsets_match(ws: Seq<SignerSetTx>, vs: Seq<Valset>) -> bool {
    &&& vs.len() == ws.len()
    &&& forall|i: int| 0 <= i < ws.len() ==> valset_matches(#[trigger] ws[i], vs[i])
}

pub open spec fn valset_confirms_ok(ws: Seq<SignerSetTxConfirmation>) -> bool {
    forall|i: int| 0 <= i < ws.len() ==> valset_confirm_ok(#[trigger] ws[i])
}

pub open spec fn valset_confirms_match(ws: Seq<SignerSetTxConfirmation>, cs: Seq<ValsetConfirmResponse>) -> bool {
    &&& cs.len() == ws.len()
    &&& forall|i: int| 0 <= i < ws.len() ==> valset_confirm_matches(#[trigger] ws[i], cs[i])
}

pub open spec fn batches_ok(ws: Seq<BatchTx>) -> bool {
    forall|i: int| 0 <= i < ws.len() ==> batch_ok(#[trigger] ws[i])
}

pub open spec fn batches_match(ws: Seq<BatchTx>, bs: Seq<TransactionBatch>) -> bool {
    &&& bs.len() == ws.len()
    &&& forall|i: int| 0 <= i < ws.len() ==> batch_matches(#[trigger] ws[i], bs[i])
}

pub open spec fn batch_confirms_ok(ws: Seq<BatchTxConfirmation>) -> bool {
    forall|i: int| 0 <= i < ws.len() ==> batch_confirm_ok(#[trigger] ws[i])
}

pub open spec fn batch_confirms_match(ws: Seq<BatchTxConfirmation>, cs: Seq<BatchConfirmResponse>) -> bool {
    &&& cs.len() == ws.len()
    &&& forall|i: int| 0 <= i < ws.len() ==> batch_confirm_matches(#[trigger] ws[i], cs[i])
}

pub open spec fn logic_calls_ok(ws: Seq<ContractCallTx>) -> bool {
    forall|i: int| 0 <= i < ws.len() ==> logic_call_ok(#[trigger] ws[i])
}

pub open spec fn logic_calls_match(ws: Seq<ContractCallTx>, cs: Seq<LogicCall>) -> bool {
    &&& cs.len() == ws.len()
    &&& forall|i: int| 0 <= i < ws.len() ==> logic_call_matches(#[trigger] ws[i], cs[i])
}

pub open spec fn logic_call_confirms_ok(ws: Seq<ContractCallTxConfirmation>) -> bool {
    forall|i: int| 0 <= i < ws.len() ==> logic_call_confirm_ok(#[trigger] ws[i])
}

pub open spec fn logic_call_confirms_match(
    ws: Seq<ContractCallTxConfirmation>,
    cs: Seq<LogicCallConfirmResponse>,
) -> bool {
    &&& cs.len() == ws.len()
    &&& forall|i: int| 0 <= i < ws.len() ==> logic_call_confirm_matches(#[trigger] ws[i], cs[i])
}

fn valsets_from_wire(ws: &Vec<SignerSetTx>) -> (vs: Vec<Valset>)
    ensures
        valsets_match(ws@, vs@),
{
    let mut out: Vec<Valset> = Vec::new();
    let mut i: usize = 0;
    while i < ws.len()
        invariant
            i <= ws@.len(),
            out@.len() == i,
            forall|j: int| 0 <= j < i ==> valset_matches(#[trigger] ws@[j], out@[j]),
        decreases ws@.len() - i,
    {
        out.push(Valset::from_wire(&ws[i]));
        i = i + 1;
    }
    out
}

fn valset_confirms_from_wire(ws: &Vec<SignerSetTxConfirmation>) -> (r: Result<Vec<ValsetConfirmResponse>, GravityError>)
    ensures
        match r {
            Ok(cs) => valset_confirms_ok(ws@) && valset_confirms_match(ws@, cs@),
            Err(e) => !valset_confirms_ok(ws@) && e is ParseError,
        },
{
    let mut out: Vec<ValsetConfirmResponse> = Vec::new();
    let mut i: usize = 0;
    while i < ws.len()
        invariant
            i <= ws@.len(),
            out@.len() == i,
            forall|j: int| 0 <= j < i ==> valset_confirm_ok(#[trigger] ws@[j]),
            forall|j: int| 0 <= j < i ==> valset_confirm_matches(#[trigger] ws@[j], out@[j]),
        decreases ws@.len() - i,
    {
        out.push(ValsetConfirmResponse::from_wire(&ws[i])?);
        i = i + 1;
    }
    Ok(out)
}

fn batches_from_wire(ws: &Vec<BatchTx>) -> (r: Result<Vec<TransactionBatch>, GravityError>)
    ensures
        match r {
            Ok(bs) => batches_ok(ws@) && batches_match(ws@, bs@),
            Err(e) => !batches_ok(ws@) && e is ParseError,
        },
{
    let mut out: Vec<TransactionBatch> = Vec::new();
    let mut i: usize = 0;
    while i < ws.len()
        invariant
            i <= ws@.len(),
            out@.len() == i,
            forall|j: int| 0 <= j < i ==> batch_ok(#[trigger] ws@[j]),
            forall|j: int| 0 <= j < i ==> batch_matches(#[trigger] ws@[j], out@[j]),
        decreases ws@.len() - i,
    {
        out.push(TransactionBatch::from_wire(&ws[i])?);
        i = i + 1;
    }
    Ok(out)
}

fn batch_confirms_from_wire(ws: &Vec<BatchTxConfirmation>) -> (r: Result<Vec<BatchConfirmResponse>, GravityError>)
    ensures
        match r {
            Ok(cs) => batch_confirms_ok(ws@) && batch_confirms_match(ws@, cs@),
            Err(e) => !batch_confirms_ok(ws@) && e is ParseError,
        },
{
    let mut out: Vec<BatchConfirmResponse> = Vec::new();
    let mut i: usize = 0;
    while i < ws.len()
        invariant
            i <= ws@.len(),
            out@.len() == i,
            forall|j: int| 0 <= j < i ==> batch_confirm_ok(#[trigger] ws@[j]),
            forall|j: int| 0 <= j < i ==> batch_confirm_matches(#[trigger] ws@[j], out@[j]),
        decreases ws@.len() - i,
    {
        out.push(BatchConfirmResponse::from_wire(&ws[i])?);
        i = i + 1;
    }
    Ok(out)
}

fn logic_calls_from_wire(ws: &Vec<ContractCallTx>) -> (r: Result<Vec<LogicCall>, GravityError>)
    ensures
        match r {
            Ok(cs) => logic_calls_ok(ws@) && logic_calls_match(ws@, cs@),
            Err(e) => !logic_calls_ok(ws@) && e is ParseError,
        },
{
    let mut out: Vec<LogicCall> = Vec::new();
    let mut i: usize = 0;
    while i < ws.len()
        invariant
            i <= ws@.len(),
            out@.len() == i,
            forall|j: int| 0 <= j < i ==> logic_call_ok(#[trigger] ws@[j]),
            forall|j: int| 0 <= j < i ==> logic_call_matches(#[trigger] ws@[j], out@[j]),
        decreases ws@.len() - i,
    {
        out.push(LogicCall::from_wire(&ws[i])?);
        i = i + 1;
    }
    Ok(out)
}

fn logic_call_confirms_from_wire(ws: &Vec<ContractCallTxConfirmation>) -> (r: Result<Vec<LogicCallConfirmResponse>, GravityError>)
    ensures
        match r {
            Ok(cs) => logic_call_confirms_ok(ws@) && logic_call_confirms_match(ws@, cs@),
            Err(e) => !logic_call_confirms_ok(ws@) && e is ParseError,
        },
{
    let mut out: Vec<LogicCallConfirmResponse> = Vec::new();
    let mut i: usize = 0;
    while i < ws.len()
        invariant
            i <= ws@.len(),
            out@.len() == i,
            forall|j: int| 0 <= j < i ==> logic_call_confirm_ok(#[trigger] ws@[j]),
            forall|j: int| 0 <= j < i ==> logic_call_confirm_matches(#[trigger] ws@[j], out@[j]),
        decreases ws@.len() - i,
    {
        out.push(LogicCallConfirmResponse::from_wire(&ws[i])?);
        i = i + 1;
    }
    Ok(out)
}

/// The validator set at `nonce`, from the node's answer to a request for it.
/// No set at that nonce is no error. A set that carries another nonce than
/// the one asked for, or nonce 0 (the current set, which is never to be
/// signed), is refused as impossible bridge state.
pub fn get_valset(nonce: u64, reply: Result<Option<SignerSetTx>, RpcStatus>) -> (r: Result<Option<Valset>, GravityError>)
    ensures
        match reply {
            Err(s) => r == Err::<Option<Valset>, GravityError>(GravityError::RpcError(s)),
            Ok(None) => r == Ok::<Option<Valset>, GravityError>(None),
            Ok(Some(w)) => match r {
                Ok(Some(v)) => w.nonce == nonce && nonce > 0 && valset_matches(w, v),
                Ok(None) => false,
                Err(e) => (w.nonce != nonce || nonce == 0) && e is InvalidBridgeStateError,
            },
        },
{
    match reply {
        Err(s) => Err(GravityError::RpcError(s)),
        Ok(None) => Ok(None),
        Ok(Some(w)) => {
            if w.nonce != nonce || nonce == 0 {
                Err(GravityError::InvalidBridgeStateError(String::from_str("Signer set does not carry the nonce asked for")))
            } else {
                Ok(Some(Valset::from_wire(&w)))
            }
        },
    }
}

/// The current validator set, from the node's answer to a request for nonce
/// 0. It is never to be signed. There always is one: an answer without it is
/// impossible bridge state.
pub fn get_current_valset(reply: Result<Option<SignerSetTx>, RpcStatus>) -> (r: Result<Valset, GravityError>)
    ensures
        match reply {
            Err(s) => r == Err::<Valset, GravityError>(GravityError::RpcError(s)),
            Ok(None) => r matches Err(GravityError::InvalidBridgeStateError(_)),
            Ok(Some(w)) => r matches Ok(v) && valset_matches(w, v),
        },
{
    match reply {
        Err(s) => Err(GravityError::RpcError(s)),
        Ok(None) => Err(GravityError::InvalidBridgeStateError(String::from_str("Must have a current valset!"))),
        Ok(Some(w)) => Ok(Valset::from_wire(&w)),
    }
}

/// The validator sets that a signer has not signed yet, in the node's order.
pub fn get_oldest_unsigned_valsets(reply: Result<Vec<SignerSetTx>, RpcStatus>) -> (r: Result<Vec<Valset>, GravityError>)
    ensures
        match reply {
            Err(s) => r == Err::<Vec<Valset>, GravityError>(GravityError::RpcError(s)),
            Ok(ws) => r matches Ok(vs) && valsets_match(ws@, vs@),
        },
{
    match reply {
        Err(s) => Err(GravityError::RpcError(s)),
        Ok(ws) => Ok(valsets_from_wire(&ws)),
    }
}

/// The latest validator sets (at most five are asked for), in the node's order.
pub fn get_latest_valsets(reply: Result<Vec<SignerSetTx>, RpcStatus>) -> (r: Result<Vec<Valset>, GravityError>)
    ensures
        match reply {
            Err(s) => r == Err::<Vec<Valset>, GravityError>(GravityError::RpcError(s)),
            Ok(ws) => r matches Ok(vs) && valsets_match(ws@, vs@),
        },
{
    match reply {
        Err(s) => Err(GravityError::RpcError(s)),
        Ok(ws) => Ok(valsets_from_wire(&ws)),
    }
}

/// Every signature over the validator set of a nonce.
pub fn get_all_valset_confirms(reply: Result<Vec<SignerSetTxConfirmation>, RpcStatus>) -> (r: Result<Vec<ValsetConfirmResponse>, GravityError>)
    ensures
        match reply {
            Err(s) => r == Err::<Vec<ValsetConfirmResponse>, GravityError>(GravityError::RpcError(s)),
            Ok(ws) => match r {
                Ok(cs) => valset_confirms_ok(ws@) && valset_confirms_match(ws@, cs@),
                Err(e) => !valset_confirms_ok(ws@) && e is ParseError,
            },
        },
{
    match reply {
        Err(s) => Err(GravityError::RpcError(s)),
        Ok(ws) => valset_confirms_from_wire(&ws),
    }
}

/// The first batch that the node lists as unsigned by a signer. Which one
/// that is rests on the node's order: the first item is taken, whatever it
/// holds.
pub fn get_oldest_unsigned_transaction_batch(reply: Result<Vec<BatchTx>, RpcStatus>) -> (r: Result<Option<TransactionBatch>, GravityError>)
    ensures
        match reply {
            Err(s) => r == Err::<Option<TransactionBatch>, GravityError>(GravityError::RpcError(s)),
            Ok(ws) => if ws@.len() == 0 {
                r == Ok::<Option<TransactionBatch>, GravityError>(None)
            } else {
                match r {
                    Ok(Some(b)) => batch_ok(ws@[0]) && batch_matches(ws@[0], b),
                    Ok(None) => false,
                    Err(e) => !batch_ok(ws@[0]) && e is ParseError,
                }
            },
        },
{
    match reply {
        Err(s) => Err(GravityError::RpcError(s)),
        Ok(ws) => {
            if ws.len() == 0 {
                Ok(None)
            } else {
                Ok(Some(TransactionBatch::from_wire(&ws[0])?))
            }
        },
    }
}

/// The latest batches of every token, in the node's order.
pub fn get_latest_transaction_batches(reply: Result<Vec<BatchTx>, RpcStatus>) -> (r: Result<Vec<TransactionBatch>, GravityError>)
    ensures
        match reply {
            Err(s) => r == Err::<Vec<TransactionBatch>, GravityError>(GravityError::RpcError(s)),
            Ok(ws) => match r {
                Ok(bs) => batches_ok(ws@) && batches_match(ws@, bs@),
                Err(e) => !batches_ok(ws@) && e is ParseError,
            },
        },
{
    match reply {
        Err(s) => Err(GravityError::RpcError(s)),
        Ok(ws) => batches_from_wire(&ws),
    }
}

/// Every signature over the batch of a nonce and token contract.
pub fn get_transaction_batch_signatures(reply: Result<Vec<BatchTxConfirmation>, RpcStatus>) -> (r: Result<Vec<BatchConfirmResponse>, GravityError>)
    ensures
        match reply {
            Err(s) => r == Err::<Vec<BatchConfirmResponse>, GravityError>(GravityError::RpcError(s)),
            Ok(ws) => match r {
                Ok(cs) => batch_confirms_ok(ws@) && batch_confirms_match(ws@, cs@),
                Err(e) => !batch_confirms_ok(ws@) && e is ParseError,
            },
        },
{
    match reply {
        Err(s) => Err(GravityError::RpcError(s)),
        Ok(ws) => batch_confirms_from_wire(&ws),
    }
}

/// The last event nonce that a validator attested to; the node reports 0
/// when there is none.
pub fn get_last_event_nonce(reply: Result<u64, RpcStatus>) -> (r: Result<u64, GravityError>)
    ensures
        match reply {
            Err(s) => r == Err::<u64, GravityError>(GravityError::RpcError(s)),
            Ok(n) => r == Ok::<u64, GravityError>(n),
        },
{
    match reply {
        Err(s) => Err(GravityError::RpcError(s)),
        Ok(n) => Ok(n),
    }
}

/// The latest logic calls, in the node's order.
pub fn get_latest_logic_calls(reply: Result<Vec<ContractCallTx>, RpcStatus>) -> (r: Result<Vec<LogicCall>, GravityError>)
    ensures
        match reply {
            Err(s) => r == Err::<Vec<LogicCall>, GravityError>(GravityError::RpcError(s)),
            Ok(ws) => match r {
                Ok(cs) => logic_calls_ok(ws@) && logic_calls_match(ws@, cs@),
                Err(e) => !logic_calls_ok(ws@) && e is ParseError,
            },
        },
{
    match reply {
        Err(s) => Err(GravityError::RpcError(s)),
        Ok(ws) => logic_calls_from_wire(&ws),
    }
}

/// Every signature over the logic call of an invalidation scope and nonce.
pub fn get_logic_call_signatures(reply: Result<Vec<ContractCallTxConfirmation>, RpcStatus>) -> (r: Result<Vec<LogicCallConfirmResponse>, GravityError>)
    ensures
        match reply {
            Err(s) => r == Err::<Vec<LogicCallConfirmResponse>, GravityError>(GravityError::RpcError(s)),
            Ok(ws) => match r {
                Ok(cs) => logic_call_confirms_ok(ws@) && logic_call_confirms_match(ws@, cs@),
                Err(e) => !logic_call_confirms_ok(ws@) && e is ParseError,
            },
        },
{
    match reply {
        Err(s) => Err(GravityError::RpcError(s)),
        Ok(ws) => logic_call_confirms_from_wire(&ws),
    }
}

/// The first logic call that the node lists as unsigned by a signer; as for
/// batches, the first item is taken, whatever it holds.
pub fn get_oldest_unsigned_logic_call(reply: Result<Vec<ContractCallTx>, RpcStatus>) -> (r: Result<Option<LogicCall>, GravityError>)
    ensures
        match reply {
            Err(s) => r == Err::<Option<LogicCall>, GravityError>(GravityError::RpcError(s)),
            Ok(ws) => if ws@.len() == 0 {
                r == Ok::<Option<LogicCall>, GravityError>(None)
            } else {
                match r {
                    Ok(Some(c)) => logic_call_ok(ws@[0]) && logic_call_matches(ws@[0], c),
                    Ok(None) => false,
                    Err(e) => !logic_call_ok(ws@[0]) && e is ParseError,
                }
            },
        },
{
    match reply {
        Err(s) => Err(GravityError::RpcError(s)),
        Ok(ws) => {
            if ws.len() == 0 {
                Ok(None)
            } else {
                Ok(Some(LogicCall::from_wire(&ws[0])?))
            }
        },
    }
}

} // verus!
