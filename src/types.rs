use vstd::prelude::*;
use crate::address::{
    cosmos_address_accepts, eth_address_parse, normalize_cosmos_address, cosmos_address_normal, is_uint256, parse_eth_address,
    parse_eth_signature, uint256_accepts, EthAddress, EthSignature,
};
use crate::wire::{
    BatchTx, BatchTxConfirmation, ContractCallTx, ContractCallTxConfirmation, EthereumSigner,
    RpcStatus, SendToEthereum, SignerSetTx, SignerSetTxConfirmation,
};

verus! {

/// What can go wrong in a query.
#[derive(Clone, Debug)]
pub enum GravityError {
    /// The exchange with the node failed; the transport's status, unchanged.
    RpcError(RpcStatus),
    /// An item of the node's answer does not convert to its domain type.
    ParseError,
    /// The answer is well formed but impossible under the bridge's rules.
    InvalidBridgeStateError(String),
}

/// The text is an Ethereum address.
pub open spec fn eth_text_ok(s: Seq<char>) -> bool {
    eth_address_parse(s) is Some
}

/// `a` is the address that the text denotes.
pub open spec fn eth_text_is(s: Seq<char>, a: EthAddress) -> bool {
    eth_address_parse(s) == Some(a.bytes@)
}

/// One member of a validator set: its power and, when its text parses, its
/// Ethereum address.
#[derive(Clone, Debug)]
pub struct ValsetMember {
    pub power: u64,
    pub eth_address: Option<EthAddress>,
}

/// A validator set at a nonce. Nonce 0 stands for the current set, which is
/// never to be signed.
#[derive(Clone, Debug)]
pub struct Valset {
    pub nonce: u64,
    pub members: Vec<ValsetMember>,
}

pub open spec fn member_matches(w: EthereumSigner, m: ValsetMember) -> bool {
    &&& m.power == w.power
    &&& match m.eth_address {
        Some(a) => eth_text_is(w.ethereum_address@, a),
        None => !eth_text_ok(w.ethereum_address@),
    }
}

/// `v` is the validator set that `w` carries.
pub open spec fn valset_matches(w: SignerSetTx, v: Valset) -> bool {
    &&& v.nonce == w.nonce
    &&& v.members@.len() == w.signers@.len()
    &&& forall|i: int| 0 <= i < w.signers@.len() ==> member_matches(#[trigger] w.signers@[i], v.members@[i])
}

pub fn member_from_wire(w: &EthereumSigner) -> (m: ValsetMember)
    ensures
        member_matches(*w, m),
{
    ValsetMember { power: w.power, eth_address: parse_eth_address(w.ethereum_address.as_str()) }
}

impl Valset {
    /// Converts a signer set; a member whose address does not parse is kept
    /// without one.
    pub fn from_wire(w: &SignerSetTx) -> (v: Valset)
        ensures
            valset_matches(*w, v),
    {
        let mut members: Vec<ValsetMember> = Vec::new();
        let mut i: usize = 0;
        while i < w.signers.len()
            invariant
                i <= w.signers@.len(),
                members@.len() == i,
                forall|j: int| 0 <= j < i ==> member_matches(#[trigger] w.signers@[j], members@[j]),
            decreases w.signers@.len() - i,
        {
            let m = member_from_wire(&w.signers[i]);
            members.push(m);
            i = i + 1;
        }
        Valset { nonce: w.nonce, members }
    }
}

/// A validator's signature over the validator set of a nonce.
#[derive(Clone, Debug)]
pub struct ValsetConfirmResponse {
    pub eth_signer: EthAddress,
    pub nonce: u64,
    pub eth_signature: EthSignature,
}

pub open spec fn valset_confirm_ok(w: SignerSetTxConfirmation) -> bool {
    eth_text_ok(w.ethereum_signer@) && w.signature@.len() == 65
}

pub open spec fn valset_confirm_matches(w: SignerSetTxConfirmation, c: ValsetConfirmResponse) -> bool {
    &&& c.nonce == w.signer_set_nonce
    &&& eth_text_is(w.ethereum_signer@, c.eth_signer)
    &&& c.eth_signature.bytes@ == w.signature@
}

impl ValsetConfirmResponse {
    pub fn from_wire(w: &SignerSetTxConfirmation) -> (r: Result<ValsetConfirmResponse, GravityError>)
        ensures
            match r {
                Ok(c) => valset_confirm_ok(*w) && valset_confirm_matches(*w, c),
                Err(e) => !valset_confirm_ok(*w) && e is ParseError,
            },
    {
        let eth_signer = match parse_eth_address(w.ethereum_signer.as_str()) {
            Some(a) => a,
            None => return Err(GravityError::ParseError),
        };
        let eth_signature = match parse_eth_signature(w.signature.clone()) {
            Some(s) => s,
            None => return Err(GravityError::ParseError),
        };
        Ok(ValsetConfirmResponse { eth_signer, nonce: w.signer_set_nonce, eth_signature })
    }
}

/// A token amount: the token's contract and the amount's text.
#[derive(Clone, Debug)]
pub struct Erc20Token {
    pub token_contract_address: EthAddress,
    pub amount: String,
}

pub open spec fn token_ok(w: crate::wire::Erc20Token) -> bool {
    eth_text_ok(w.contract@) && uint256_accepts(w.amount@)
}

pub open spec fn token_matches(w: crate::wire::Erc20Token, t: Erc20Token) -> bool {
    eth_text_is(w.contract@, t.token_contract_address) && t.amount@ == w.amount@
}

impl Erc20Token {
    pub fn from_wire(w: &crate::wire::Erc20Token) -> (r: Result<Erc20Token, GravityError>)
        ensures
            match r {
                Ok(t) => token_ok(*w) && token_matches(*w, t),
                Err(e) => !token_ok(*w) && e is ParseError,
            },
    {
        let token_contract_address = match parse_eth_address(w.contract.as_str()) {
            Some(a) => a,
            None => return Err(GravityError::ParseError),
        };
        if !is_uint256(w.amount.as_str()) {
            return Err(GravityError::ParseError);
        }
        Ok(Erc20Token { token_contract_address, amount: w.amount.clone() })
    }
}

pub open spec fn tokens_ok(ws: Seq<crate::wire::Erc20Token>) -> bool {
    forall|i: int| 0 <= i < ws.len() ==> token_ok(#[trigger] ws[i])
}

pub open spec fn tokens_match(ws: Seq<crate::wire::Erc20Token>, ts: Seq<Erc20Token>) -> bool {
    &&& ts.len() == ws.len()
    &&& forall|i: int| 0 <= i < ws.len() ==> token_matches(#[trigger] ws[i], ts[i])
}

pub fn tokens_from_wire(ws: &Vec<crate::wire::Erc20Token>) -> (r: Result<Vec<Erc20Token>, GravityError>)
    ensures
        match r {
            Ok(ts) => tokens_ok(ws@) && tokens_match(ws@, ts@),
            Err(e) => !tokens_ok(ws@) && e is ParseError,
        },
{
    let mut out: Vec<Erc20Token> = Vec::new();
    let mut i: usize = 0;
    while i < ws.len()
        invariant
            i <= ws@.len(),
            out@.len() == i,
            forall|j: int| 0 <= j < i ==> token_ok(#[trigger] ws@[j]),
            forall|j: int| 0 <= j < i ==> token_matches(#[trigger] ws@[j], out@[j]),
        decreases ws@.len() - i,
    {
        match Erc20Token::from_wire(&ws[i]) {
            Ok(t) => out.push(t),
            Err(e) => return Err(e),
        }
        i = i + 1;
    }
    Ok(out)
}

/// One outbound transfer of a batch.
#[derive(Clone, Debug)]
pub struct BatchTransaction {
    pub id: u64,
    /// The sender's Cosmos address, in bech32.
    pub sender: String,
    pub destination: EthAddress,
    pub erc20_token: Erc20Token,
    pub erc20_fee: Erc20Token,
}

pub open spec fn transaction_ok(w: SendToEthereum) -> bool {
    &&& cosmos_address_accepts(w.sender@)
    &&& eth_text_ok(w.ethereum_recipient@)
    &&& token_ok(w.erc20_token)
    &&& token_ok(w.erc20_fee)
}

pub open spec fn transaction_matches(w: SendToEthereum, t: BatchTransaction) -> bool {
    &&& t.id == w.id
    &&& cosmos_address_normal(w.sender@) == Some(t.sender@)
    &&& eth_text_is(w.ethereum_recipient@, t.destination)
    &&& token_matches(w.erc20_token, t.erc20_token)
    &&& token_matches(w.erc20_fee, t.erc20_fee)
}

impl BatchTransaction {
    pub fn from_wire(w: &SendToEthereum) -> (r: Result<BatchTransaction, GravityError>)
        ensures
            match r {
                Ok(t) => transaction_ok(*w) && transaction_matches(*w, t),
                Err(e) => !transaction_ok(*w) && e is ParseError,
            },
    {
        let sender = match normalize_cosmos_address(w.sender.as_str()) {
            Some(t) => t,
            None => return Err(GravityError::ParseError),
        };
        let destination = match parse_eth_address(w.ethereum_recipient.as_str()) {
            Some(a) => a,
            None => return Err(GravityError::ParseError),
        };
        let erc20_token = Erc20Token::from_wire(&w.erc20_token)?;
        let erc20_fee = Erc20Token::from_wire(&w.erc20_fee)?;
        Ok(BatchTransaction { id: w.id, sender, destination, erc20_token, erc20_fee })
    }
}

/// A batch of outbound transfers of one token, pinned to a nonce.
#[derive(Clone, Debug)]
pub struct TransactionBatch {
    pub nonce: u64,
    pub batch_timeout: u64,
    pub transactions: Vec<BatchTransaction>,
    pub token_contract: EthAddress,
}

pub open spec fn batch_ok(w: BatchTx) -> bool {
    &&& eth_text_ok(w.token_contract@)
    &&& forall|i: int| 0 <= i < w.transactions@.len() ==> transaction_ok(#[trigger] w.transactions@[i])
}

pub open spec fn batch_matches(w: BatchTx, b: TransactionBatch) -> bool {
    &&& b.nonce == w.batch_nonce
    &&& b.batch_timeout == w.timeout
    &&& eth_text_is(w.token_contract@, b.token_contract)
    &&& b.transactions@.len() == w.transactions@.len()
    &&& forall|i: int| 0 <= i < w.transactions@.len()
        ==> transaction_matches(#[trigger] w.transactions@[i], b.transactions@[i])
}

impl TransactionBatch {
    pub fn from_wire(w: &BatchTx) -> (r: Result<TransactionBatch, GravityError>)
        ensures
            match r {
                Ok(b) => batch_ok(*w) && batch_matches(*w, b),
                Err(e) => !batch_ok(*w) && e is ParseError,
            },
    {
        let mut transactions: Vec<BatchTransaction> = Vec::new();
        let mut i: usize = 0;
        while i < w.transactions.len()
            invariant
                i <= w.transactions@.len(),
                transactions@.len() == i,
                forall|j: int| 0 <= j < i ==> transaction_ok(#[trigger] w.transactions@[j]),
                forall|j: int| 0 <= j < i
                    ==> transaction_matches(#[trigger] w.transactions@[j], transactions@[j]),
            decreases w.transactions@.len() - i,
        {
            match BatchTransaction::from_wire(&w.transactions[i]) {
                Ok(t) => transactions.push(t),
                Err(e) => return Err(e),
            }
            i = i + 1;
        }
        let token_contract = match parse_eth_address(w.token_contract.as_str()) {
            Some(a) => a,
            None => return Err(GravityError::ParseError),
        };
        Ok(TransactionBatch { nonce: w.batch_nonce, batch_timeout: w.timeout, transactions, token_contract })
    }
}

/// A validator's signature over one batch.
#[derive(Clone, Debug)]
pub struct BatchConfirmResponse {
    pub nonce: u64,
    pub token_contract: EthAddress,
    pub eth_signer: EthAddress,
    pub eth_signature: EthSignature,
}

pub open spec fn batch_confirm_ok(w: BatchTxConfirmation) -> bool {
    &&& eth_text_ok(w.token_contract@)
    &&& eth_text_ok(w.ethereum_signer@)
    &&& w.signature@.len() == 65
}

pub open spec fn batch_confirm_matches(w: BatchTxConfirmation, c: BatchConfirmResponse) -> bool {
    &&& c.nonce == w.batch_nonce
    &&& eth_text_is(w.token_contract@, c.token_contract)
    &&& eth_text_is(w.ethereum_signer@, c.eth_signer)
    &&& c.eth_signature.bytes@ == w.signature@
}

impl BatchConfirmResponse {
    pub fn from_wire(w: &BatchTxConfirmation) -> (r: Result<BatchConfirmResponse, GravityError>)
        ensures
            match r {
                Ok(c) => batch_confirm_ok(*w) && batch_confirm_matches(*w, c),
                Err(e) => !batch_confirm_ok(*w) && e is ParseError,
            },
    {
        let token_contract = match parse_eth_address(w.token_contract.as_str()) {
            Some(a) => a,
            None => return Err(GravityError::ParseError),
        };
        let eth_signer = match parse_eth_address(w.ethereum_signer.as_str()) {
            Some(a) => a,
            None => return Err(GravityError::ParseError),
        };
        let eth_signature = match parse_eth_signature(w.signature.clone()) {
            Some(s) => s,
            None => return Err(GravityError::ParseError),
        };
        Ok(BatchConfirmResponse { nonce: w.batch_nonce, token_contract, eth_signer, eth_signature })
    }
}

/// A cross-chain contract call, identified by its invalidation scope and nonce.
#[derive(Clone, Debug)]
pub struct LogicCall {
    pub transfers: Vec<Erc20Token>,
    pub fees: Vec<Erc20Token>,
    pub logic_contract_address: EthAddress,
    pub payload: Vec<u8>,
    pub timeout: u64,
    pub invalidation_id: Vec<u8>,
    pub invalidation_nonce: u64,
}

pub open spec fn logic_call_ok(w: ContractCallTx) -> bool {
    &&& eth_text_ok(w.address@)
    &&& tokens_ok(w.tokens@)
    &&& tokens_ok(w.fees@)
}

pub open spec fn logic_call_matches(w: ContractCallTx, c: LogicCall) -> bool {
    &&& tokens_match(w.tokens@, c.transfers@)
    &&& tokens_match(w.fees@, c.fees@)
    &&& eth_text_is(w.address@, c.logic_contract_address)
    &&& c.payload@ == w.payload@
    &&& c.timeout == w.timeout
    &&& c.invalidation_id@ == w.invalidation_scope@
    &&& c.invalidation_nonce == w.invalidation_nonce
}

impl LogicCall {
    pub fn from_wire(w: &ContractCallTx) -> (r: Result<LogicCall, GravityError>)
        ensures
            match r {
                Ok(c) => logic_call_ok(*w) && logic_call_matches(*w, c),
                Err(e) => !logic_call_ok(*w) && e is ParseError,
            },
    {
        let transfers = tokens_from_wire(&w.tokens)?;
        let fees = tokens_from_wire(&w.fees)?;
        let logic_contract_address = match parse_eth_address(w.address.as_str()) {
            Some(a) => a,
            None => return Err(GravityError::ParseError),
        };
        Ok(LogicCall {
            transfers,
            fees,
            logic_contract_address,
            payload: w.payload.clone(),
            timeout: w.timeout,
            invalidation_id: w.invalidation_scope.clone(),
            invalidation_nonce: w.invalidation_nonce,
        })
    }
}

/// A validator's signature over one logic call.
#[derive(Clone, Debug)]
pub struct LogicCallConfirmResponse {
    pub invalidation_id: Vec<u8>,
    pub invalidation_nonce: u64,
    pub eth_signer: EthAddress,
    pub eth_signature: EthSignature,
}

pub open spec fn logic_call_confirm_ok(w: ContractCallTxConfirmation) -> bool {
    eth_text_ok(w.ethereum_signer@) && w.signature@.len() == 65
}

pub open spec fn logic_call_confirm_matches(w: ContractCallTxConfirmation, c: LogicCallConfirmResponse) -> bool {
    &&& c.invalidation_id@ == w.invalidation_scope@
    &&& c.invalidation_nonce == w.invalidation_nonce
    &&& eth_text_is(w.ethereum_signer@, c.eth_signer)
    &&& c.eth_signature.bytes@ == w.signature@
}

impl LogicCallConfirmResponse {
    pub fn from_wire(w: &ContractCallTxConfirmation) -> (r: Result<LogicCallConfirmResponse, GravityError>)
        ensures
            match r {
                Ok(c) => logic_call_confirm_ok(*w) && logic_call_confirm_matches(*w, c),
                Err(e) => !logic_call_confirm_ok(*w) && e is ParseError,
            },
    {
        let eth_signer = match parse_eth_address(w.ethereum_signer.as_str()) {
            Some(a) => a,
            None => return Err(GravityError::ParseError),
        };
        let eth_signature = match parse_eth_signature(w.signature.clone()) {
            Some(s) => s,
            None => return Err(GravityError::ParseError),
        };
        Ok(LogicCallConfirmResponse {
            invalidation_id: w.invalidation_scope.clone(),
            invalidation_nonce: w.invalidation_nonce,
            eth_signer,
            eth_signature,
        })
    }
}

} // verus!
