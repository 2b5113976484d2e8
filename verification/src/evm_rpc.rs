//! Data model of the remote block-data service (an excluded collaborator):
//! the request and response shapes of a multi-provider block query, and the
//! reconciliation of its consistency-checked result. The transport that
//! carries these values to the providers lives outside this library.

use vstd::prelude::*;

verus! {

/// An Ethereum block header as the block-data service returns it.
#[allow(non_snake_case)]
#[derive(Clone, Debug)]
pub struct Block {
    pub miner: String,
    pub totalDifficulty: u128,
    pub receiptsRoot: String,
    pub stateRoot: String,
    pub hash: String,
    pub difficulty: u128,
    pub size: u128,
    pub uncles: Vec<String>,
    pub baseFeePerGas: u128,
    pub extraData: String,
    pub transactionsRoot: Option<String>,
    pub sha3Uncles: String,
    pub nonce: u128,
    pub number: u128,
    pub timestamp: u128,
    pub transactions: Vec<String>,
    pub gasLimit: u128,
    pub logsBloom: String,
    pub parentHash: String,
    pub gasUsed: u128,
    pub mixHash: String,
}

/// A block selector: one of the named tags, or an explicit block number.
#[derive(Clone, Debug)]
pub enum BlockTag {
    Earliest,
    Safe,
    Finalized,
    Latest,
    Number(u128),
    Pending,
}

/// One provider's answer to a block query.
#[derive(Clone, Debug)]
pub enum GetBlockByNumberResult {
    Success(Block),
    Failure(RpcError),
}

/// The reconciled answer of a multi-provider block query: one record when
/// all queried providers agree, or the per-provider answers when they do not.
#[derive(Clone, Debug)]
pub enum MultiGetBlockByNumberResult {
    Consistent(GetBlockByNumberResult),
    Inconsistent(Vec<(RpcService, GetBlockByNumberResult)>),
}

/// The mainnet providers a query may name.
#[derive(Clone, Debug)]
pub enum EthMainnetService {
    Alchemy,
    BlockPi,
    Cloudflare,
    PublicNode,
    Ankr,
}

/// The testnet providers a query may name.
#[derive(Clone, Debug)]
pub enum EthSepoliaService {
    Alchemy,
    BlockPi,
    PublicNode,
    Ankr,
}

/// The provider set of a query; with no explicit list, the service picks.
#[derive(Clone, Debug)]
pub enum RpcServices {
    EthSepolia(Option<Vec<EthSepoliaService>>),
    EthMainnet(Option<Vec<EthMainnetService>>),
}

/// The block-data service itself. The call that carries a query to it is
/// transport and lives outside this library; the reconciliation of its
/// answer is [`latest_block_outcome`].
pub struct EvmRpcCanister;

/// An access level of the block-data service.
#[derive(Clone, Debug)]
pub enum Auth {
    RegisterProvider,
    FreeRpc,
    PriorityRpc,
    Manage,
}

/// One HTTP header of a custom provider endpoint.
#[derive(Clone, Debug)]
pub struct HttpHeader {
    pub value: String,
    pub name: String,
}

/// A custom provider endpoint.
#[derive(Clone, Debug)]
pub struct RpcApi {
    pub url: String,
    pub headers: Option<Vec<HttpHeader>>,
}

/// Per-query configuration of the block-data service.
#[allow(non_snake_case)]
#[derive(Clone, Debug)]
pub struct RpcConfig {
    pub responseSizeEstimate: Option<u64>,
}

/// An error that a provider returned at the JSON-RPC level.
#[derive(Clone, Debug)]
pub struct JsonRpcError {
    pub code: i64,
    pub message: String,
}

/// An error of the provider layer itself.
#[derive(Clone, Debug)]
pub enum ProviderError {
    TooFewCycles { expected: u128, received: u128 },
    MissingRequiredProvider,
    ProviderNotFound,
    NoPermission,
}

/// A rejected query shape.
#[derive(Clone, Debug)]
pub enum ValidationError {
    CredentialPathNotAllowed,
    HostNotAllowed(String),
    CredentialHeaderNotAllowed,
    UrlParseError(String),
    Custom(String),
    InvalidHex(String),
}

/// The code with which an outbound call was rejected.
#[derive(Clone, Debug)]
pub enum RejectionCode {
    NoError,
    CanisterError,
    SysTransient,
    DestinationInvalid,
    Unknown,
    SysFatal,
    CanisterReject,
}

/// A failure of the HTTP call that carried a query to a provider.
#[allow(non_snake_case)]
#[derive(Clone, Debug)]
pub enum HttpOutcallError {
    IcError { code: RejectionCode, message: String },
    InvalidHttpJsonRpcResponse { status: u16, body: String, parsingError: Option<String> },
}

/// Any error a block query can come back with.
#[derive(Clone, Debug)]
pub enum RpcError {
    JsonRpcError(JsonRpcError),
    ProviderError(ProviderError),
    ValidationError(ValidationError),
    HttpOutcallError(HttpOutcallError),
}

/// One provider identity as the service names it in a per-provider answer.
#[derive(Clone, Debug)]
pub enum RpcService {
    EthSepolia(EthSepoliaService),
    Custom(RpcApi),
    EthMainnet(EthMainnetService),
    Chain(u64),
    Provider(u64),
}

/// Why a block query produced no block.
#[derive(Clone, Debug)]
pub enum BlockQueryError {
    /// All queried providers agreed, on this error.
    Rpc(RpcError),
    /// The queried providers disagreed; their individual answers.
    InconsistentResults(Vec<(RpcService, GetBlockByNumberResult)>),
}

/// Reconciles a multi-provider block query: the block when every provider
/// agreed on one, the agreed error when they agreed on an error, and the
/// per-provider answers when they disagreed.
pub fn latest_block_outcome(result: MultiGetBlockByNumberResult) -> (r: Result<
    Block,
    BlockQueryError,
>)
    ensures
        result matches MultiGetBlockByNumberResult::Consistent(GetBlockByNumberResult::Success(b))
            ==> r == Result::<Block, BlockQueryError>::Ok(b),
        result matches MultiGetBlockByNumberResult::Consistent(GetBlockByNumberResult::Failure(e))
            ==> r == Result::<Block, BlockQueryError>::Err(BlockQueryError::Rpc(e)),
        result matches MultiGetBlockByNumberResult::Inconsistent(v) ==> r == Result::<
            Block,
            BlockQueryError,
        >::Err(BlockQueryError::InconsistentResults(v)),
{
    match result {
        MultiGetBlockByNumberResult::Consistent(one) => match one {
            GetBlockByNumberResult::Success(block) => Ok(block),
            GetBlockByNumberResult::Failure(err) => Err(BlockQueryError::Rpc(err)),
        },
        MultiGetBlockByNumberResult::Inconsistent(answers) => Err(
            BlockQueryError::InconsistentResults(answers),
        ),
    }
}

} // verus!
