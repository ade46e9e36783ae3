use vstd::prelude::*;

verus! {

/// A failure of the exchange with the node: the status code and message
/// that the transport reported.
#[derive(Clone, Debug)]
pub struct RpcStatus {
    pub code: i32,
    pub message: String,
}

/// One member of a signer set as the node sends it.
#[derive(Clone, Debug)]
pub struct EthereumSigner {
    pub power: u64,
    pub ethereum_address: String,
}

/// A signer set (validator set) as the node sends it.
#[derive(Clone, Debug)]
pub struct SignerSetTx {
    pub nonce: u64,
    pub height: u64,
    pub signers: Vec<EthereumSigner>,
}

/// A validator's signature over a signer set, as the node sends it.
#[derive(Clone, Debug)]
pub struct SignerSetTxConfirmation {
    pub signer_set_nonce: u64,
    pub ethereum_signer: String,
    pub signature: Vec<u8>,
}

/// A token amount as the node sends it.
#[derive(Clone, Debug)]
pub struct Erc20Token {
    pub contract: String,
    pub amount: String,
}

/// One outbound transfer of a batch, as the node sends it.
#[derive(Clone, Debug)]
pub struct SendToEthereum {
    pub id: u64,
    pub sender: String,
    pub ethereum_recipient: String,
    pub erc20_token: Erc20Token,
    pub erc20_fee: Erc20Token,
}

/// A transaction batch as the node sends it.
#[derive(Clone, Debug)]
pub struct BatchTx {
    pub batch_nonce: u64,
    pub timeout: u64,
    pub transactions: Vec<SendToEthereum>,
    pub token_contract: String,
    pub height: u64,
}

/// A validator's signature over a batch, as the node sends it.
#[derive(Clone, Debug)]
pub struct BatchTxConfirmation {
    pub token_contract: String,
    pub batch_nonce: u64,
    pub ethereum_signer: String,
    pub signature: Vec<u8>,
}

/// A logic call as the node sends it.
#[derive(Clone, Debug)]
pub struct ContractCallTx {
    pub invalidation_nonce: u64,
    pub invalidation_scope: Vec<u8>,
    pub address: String,
    pub payload: Vec<u8>,
    pub timeout: u64,
    pub tokens: Vec<Erc20Token>,
    pub fees: Vec<Erc20Token>,
    pub height: u64,
}

/// A validator's signature over a logic call, as the node sends it.
#[derive(Clone, Debug)]
pub struct ContractCallTxConfirmation {
    pub invalidation_scope: Vec<u8>,
    pub invalidation_nonce: u64,
    pub ethereum_signer: String,
    pub signature: Vec<u8>,
}

/// Request for the signer set at a nonce (0: the current one).
#[derive(Clone, Debug)]
pub struct SignerSetTxRequest {
    pub nonce: u64,
}

/// Request for the latest signer sets, at most `count` of them.
#[derive(Clone, Debug)]
pub struct SignerSetTxsRequest {
    pub count: u64,
}

/// Request for the signatures over the signer set of a nonce.
#[derive(Clone, Debug)]
pub struct SignerSetTxConfirmationsRequest {
    pub nonce: u64,
}

/// Request for what a signer has still to sign, or the last event it attested.
#[derive(Clone, Debug)]
pub struct SignerRequest {
    pub address: String,
}

/// Request for the signatures over one batch.
#[derive(Clone, Debug)]
pub struct BatchTxEthereumSignaturesRequest {
    pub nonce: u64,
    pub contract_address: String,
}

/// Request for the signatures over one logic call; an empty `address`
/// asks for every signer's.
#[derive(Clone, Debug)]
pub struct ContractCallTxEthereumSignaturesRequest {
    pub invalidation_scope: Vec<u8>,
    pub invalidation_nonce: u64,
    pub address: String,
}

} // verus!
