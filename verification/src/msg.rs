//! The messages that the sale takes and hands on, and what its calls return.

use crate::state::{Extension, TokenInfo};
use vstd::prelude::*;

verus! {

/// Sets up the sale and the token registry behind it.
#[derive(Clone, Debug, PartialEq)]
pub struct InstantiateMsg {
    /// Name of the collection.
    pub name: String,
    /// Symbol of the collection.
    pub symbol: String,
    /// The only identity that the registry lets mint.
    pub minter: String,
    pub payment_token: String,
    pub price: u128,
    pub treasury: String,
    /// How many purchases one address may make.
    pub limit_per_address: u64,
    pub names: Vec<String>,
    pub origins: Vec<String>,
    pub professions: Vec<String>,
    pub obsessions: Vec<String>,
    pub talents: Vec<String>,
    pub skills: Vec<String>,
    pub alignments: Vec<String>,
    /// The declared total supply.
    pub num_items: u64,
    /// Whether the allow-list is enforced.
    pub whitelist: bool,
    pub whitelist_admin: String,
    pub admin: String,
}

/// What the token registry is set up with.
#[derive(Clone, Debug, PartialEq)]
pub struct Cw721InstantiateMsg {
    pub name: String,
    pub symbol: String,
    pub minter: String,
}

impl From<InstantiateMsg> for Cw721InstantiateMsg {
    fn from(msg: InstantiateMsg) -> (registry: Cw721InstantiateMsg) {
        Cw721InstantiateMsg { name: msg.name, symbol: msg.symbol, minter: msg.minter }
    }
}

impl vstd::std_specs::convert::FromSpecImpl<InstantiateMsg> for Cw721InstantiateMsg {
    open spec fn obeys_from_spec() -> bool {
        true
    }

    open spec fn from_spec(msg: InstantiateMsg) -> Cw721InstantiateMsg {
        Cw721InstantiateMsg { name: msg.name, symbol: msg.symbol, minter: msg.minter }
    }
}

/// Asks the token registry to mint one token.
#[derive(Clone, Debug, PartialEq)]
pub struct MintMsg {
    /// The identifier of the new token.
    pub token_id: String,
    /// Who will own it.
    pub owner: String,
    pub token_uri: Option<String>,
    /// The payload that it carries.
    pub extension: Extension,
}

/// When an approval ends.
#[derive(Clone, Copy, Debug, PartialEq, Eq)]
pub enum Expiration {
    /// At this block height.
    AtHeight(u64),
    /// At this time, in nanoseconds since the epoch.
    AtTime(u64),
    Never {  },
}

/// What arrives with a payment: who paid, how much, and what for.
#[derive(Clone, Debug, PartialEq)]
pub struct Cw20ReceiveMsg {
    /// The identity that sent the payment.
    pub sender: String,
    pub amount: u128,
    pub msg: ReceiveMsg,
}

/// What a payment asks for.
#[derive(Clone, Debug, PartialEq)]
pub enum ReceiveMsg {
    Buy { mint_msg: MintMsg },
}

/// The calls that the sale takes.
#[derive(Clone, Debug, PartialEq)]
pub enum ExecuteMsg {
    /// Mint a token directly. The sale does not take this call.
    Mint(MintMsg),
    /// Move a token to another account.
    TransferNft { recipient: String, token_id: String },
    /// Move a token to a contract and trigger an action there.
    SendNft { contract: String, token_id: String, msg: Vec<u8> },
    /// Let `spender` move the token.
    Approve { spender: String, token_id: String, expires: Option<Expiration> },
    /// Take an approval back.
    Revoke { spender: String, token_id: String },
    /// Let `operator` move every token of the caller.
    ApproveAll { operator: String, expires: Option<Expiration> },
    /// Take such a permission back.
    RevokeAll { operator: String },
    /// A payment has arrived.
    Receive(Cw20ReceiveMsg),
    /// Forward collected payments to the treasury.
    WithdrawSales { amount: u128 },
    AddWhitelistAddresses { addresses: Vec<String> },
    ToggleWhitelist { whitelist: bool },
    SetWhitelistAdmin { whitelist_admin: String },
    SetAdmin { admin: String },
    /// Replace the payload of an item.
    UpdateAllMetadata { token_id: String, extension: Extension },
}

/// The calls that are handed on to the token registry.
#[derive(Clone, Debug, PartialEq)]
pub enum Cw721ExecuteMsg {
    TransferNft { recipient: String, token_id: String },
    SendNft { contract: String, token_id: String, msg: Vec<u8> },
    Approve { spender: String, token_id: String, expires: Option<Expiration> },
    Revoke { spender: String, token_id: String },
    ApproveAll { operator: String, expires: Option<Expiration> },
    RevokeAll { operator: String },
}

impl ExecuteMsg {
    /// Whether the call is one of those that the token registry serves.
    pub open spec fn is_registry_call(self) -> bool {
        ||| self is TransferNft
        ||| self is SendNft
        ||| self is Approve
        ||| self is Revoke
        ||| self is ApproveAll
        ||| self is RevokeAll
    }

    /// The registry's call that a call of the sale stands for: the variant
    /// of the same name with the same fields.
    pub open spec fn registry_call(self) -> Cw721ExecuteMsg
        recommends
            self.is_registry_call(),
    {
        match self {
            ExecuteMsg::TransferNft { recipient, token_id } => Cw721ExecuteMsg::TransferNft {
                recipient,
                token_id,
            },
            ExecuteMsg::SendNft { contract, token_id, msg } => Cw721ExecuteMsg::SendNft {
                contract,
                token_id,
                msg,
            },
            ExecuteMsg::Approve { spender, token_id, expires } => Cw721ExecuteMsg::Approve {
                spender,
                token_id,
                expires,
            },
            ExecuteMsg::Revoke { spender, token_id } => Cw721ExecuteMsg::Revoke {
                spender,
                token_id,
            },
            ExecuteMsg::ApproveAll { operator, expires } => Cw721ExecuteMsg::ApproveAll {
                operator,
                expires,
            },
            ExecuteMsg::RevokeAll { operator } => Cw721ExecuteMsg::RevokeAll { operator },
            _ => arbitrary(),
        }
    }
}

impl Cw721ExecuteMsg {
    /// Turns a call of the sale into the registry's call of the same name.
    /// Only the calls that the registry serves can be turned.
    pub fn from_execute(msg: ExecuteMsg) -> (call: Cw721ExecuteMsg)
        requires
            msg.is_registry_call(),
        ensures
            call == msg.registry_call(),
    {
        match msg {
            ExecuteMsg::TransferNft { recipient, token_id } => Cw721ExecuteMsg::TransferNft {
                recipient,
                token_id,
            },
            ExecuteMsg::SendNft { contract, token_id, msg } => Cw721ExecuteMsg::SendNft {
                contract,
                token_id,
                msg,
            },
            ExecuteMsg::Approve { spender, token_id, expires } => Cw721ExecuteMsg::Approve {
                spender,
                token_id,
                expires,
            },
            ExecuteMsg::Revoke { spender, token_id } => Cw721ExecuteMsg::Revoke {
                spender,
                token_id,
            },
            ExecuteMsg::ApproveAll { operator, expires } => Cw721ExecuteMsg::ApproveAll {
                operator,
                expires,
            },
            ExecuteMsg::RevokeAll { operator } => Cw721ExecuteMsg::RevokeAll { operator },
            _ => unreached(),
        }
    }
}

/// The questions that the sale answers.
#[derive(Clone, Debug, PartialEq)]
pub enum QueryMsg {
    OwnerOf { token_id: String, include_expired: Option<bool> },
    ApprovedForAll {
        owner: String,
        include_expired: Option<bool>,
        start_after: Option<String>,
        limit: Option<u32>,
    },
    NumTokens {  },
    ContractInfo {  },
    NftInfo { token_id: String },
    AllNftInfo { token_id: String, include_expired: Option<bool> },
    Tokens { owner: String, start_after: Option<String>, limit: Option<u32> },
    AllTokens { start_after: Option<String>, limit: Option<u32> },
    /// The allow-listed identities, page by page.
    Whitelisted { start_after: Option<String>, limit: Option<u32> },
}

/// The questions that are handed on to the token registry.
#[derive(Clone, Debug, PartialEq)]
pub enum Cw721QueryMsg {
    OwnerOf { token_id: String, include_expired: Option<bool> },
    ApprovedForAll {
        owner: String,
        include_expired: Option<bool>,
        start_after: Option<String>,
        limit: Option<u32>,
    },
    NumTokens {  },
    ContractInfo {  },
    NftInfo { token_id: String },
    AllNftInfo { token_id: String, include_expired: Option<bool> },
    Tokens { owner: String, start_after: Option<String>, limit: Option<u32> },
    AllTokens { start_after: Option<String>, limit: Option<u32> },
}

impl QueryMsg {
    /// The registry's question that a question to the sale stands for: the
    /// variant of the same name with the same fields.
    pub open spec fn registry_query(self) -> Cw721QueryMsg
        recommends
            !(self is Whitelisted),
    {
        match self {
            QueryMsg::OwnerOf { token_id, include_expired } => Cw721QueryMsg::OwnerOf {
                token_id,
                include_expired,
            },
            QueryMsg::ApprovedForAll {
                owner,
                include_expired,
                start_after,
                limit,
            } => Cw721QueryMsg::ApprovedForAll { owner, include_expired, start_after, limit },
            QueryMsg::NumTokens {  } => Cw721QueryMsg::NumTokens {  },
            QueryMsg::ContractInfo {  } => Cw721QueryMsg::ContractInfo {  },
            QueryMsg::NftInfo { token_id } => Cw721QueryMsg::NftInfo { token_id },
            QueryMsg::AllNftInfo { token_id, include_expired } => Cw721QueryMsg::AllNftInfo {
                token_id,
                include_expired,
            },
            QueryMsg::Tokens { owner, start_after, limit } => Cw721QueryMsg::Tokens {
                owner,
                start_after,
                limit,
            },
            QueryMsg::AllTokens { start_after, limit } => Cw721QueryMsg::AllTokens {
                start_after,
                limit,
            },
            QueryMsg::Whitelisted { .. } => arbitrary(),
        }
    }
}

impl Cw721QueryMsg {
    /// Turns a question to the sale into the registry's question of the same
    /// name. The question about the allow-list is the sale's own and cannot
    /// be turned.
    pub fn from_query(msg: QueryMsg) -> (query: Cw721QueryMsg)
        requires
            !(msg is Whitelisted),
        ensures
            query == msg.registry_query(),
    {
        match msg {
            QueryMsg::OwnerOf { token_id, include_expired } => Cw721QueryMsg::OwnerOf {
                token_id,
                include_expired,
            },
            QueryMsg::ApprovedForAll {
                owner,
                include_expired,
                start_after,
                limit,
            } => Cw721QueryMsg::ApprovedForAll { owner, include_expired, start_after, limit },
            QueryMsg::NumTokens {  } => Cw721QueryMsg::NumTokens {  },
            QueryMsg::ContractInfo {  } => Cw721QueryMsg::ContractInfo {  },
            QueryMsg::NftInfo { token_id } => Cw721QueryMsg::NftInfo { token_id },
            QueryMsg::AllNftInfo { token_id, include_expired } => Cw721QueryMsg::AllNftInfo {
                token_id,
                include_expired,
            },
            QueryMsg::Tokens { owner, start_after, limit } => Cw721QueryMsg::Tokens {
                owner,
                start_after,
                limit,
            },
            QueryMsg::AllTokens { start_after, limit } => Cw721QueryMsg::AllTokens {
                start_after,
                limit,
            },
            QueryMsg::Whitelisted { .. } => unreached(),
        }
    }
}

/// Asks the payment token to move funds out of the sale's custody.
#[derive(Clone, Debug, PartialEq)]
pub struct Transfer {
    /// The payment medium.
    pub token: String,
    pub amount: u128,
    /// Who receives the funds.
    pub recipient: String,
}

/// One effect that a call leaves for its caller to perform.
#[derive(Clone, Debug, PartialEq)]
pub enum Instruction {
    /// Have the token registry mint a token.
    Mint(MintMsg),
    /// Have the payment token move funds.
    Transfer(Transfer),
    /// Have the token registry store this record for a token.
    SaveToken { token_id: String, token: TokenInfo },
    /// Hand a call on to the token registry.
    Registry(Cw721ExecuteMsg),
}

/// A key and a value that a call reports about itself.
#[derive(Clone, Debug, PartialEq)]
pub struct Attribute {
    pub key: String,
    pub value: String,
}

/// What a successful call returns: what it reports, and the effects that
/// its caller is to perform, in this order.
#[derive(Clone, Debug, PartialEq)]
pub struct Response {
    pub attributes: Vec<Attribute>,
    pub messages: Vec<Instruction>,
}

impl Response {
    /// Whether the response reports nothing and leaves nothing to perform.
    pub open spec fn is_empty(self) -> bool {
        self.attributes@.len() == 0 && self.messages@.len() == 0
    }

    /// Whether the attribute at `at` has this key and this value.
    pub open spec fn reports(self, at: int, key: Seq<char>, value: Seq<char>) -> bool {
        &&& 0 <= at < self.attributes@.len()
        &&& self.attributes@[at].key@ == key
        &&& self.attributes@[at].value@ == value
    }

    /// The response that reports nothing and leaves nothing to perform.
    pub fn new() -> (response: Response)
        ensures
            response.is_empty(),
    {
        Response { attributes: Vec::new(), messages: Vec::new() }
    }

    /// The response with one more attribute at its end.
    pub fn add_attribute(self, key: &str, value: String) -> (response: Response)
        ensures
            response.attributes@.len() == self.attributes@.len() + 1,
            response.attributes@.take(self.attributes@.len() as int) == self.attributes@,
            response.reports(self.attributes@.len() as int, key@, value@),
            response.messages == self.messages,
    {
        let mut response = self;
        response.attributes.push(Attribute { key: key.to_owned(), value });
        response
    }

    /// The response with one more effect at its end.
    pub fn add_message(self, message: Instruction) -> (response: Response)
        ensures
            response.messages@ == self.messages@.push(message),
            response.attributes == self.attributes,
    {
        let mut response = self;
        response.messages.push(message);
        response
    }
}

/// What a question to the sale comes to.
#[derive(Clone, Debug, PartialEq)]
pub enum QueryResponse {
    /// The answer: one page of the allow-list.
    Whitelisted(AllWhitelisted),
    /// The question is the token registry's to answer.
    Registry(Cw721QueryMsg),
}

/// One page of the allow-list.
#[derive(Clone, PartialEq, Debug, Default)]
pub struct AllWhitelisted {
    pub accounts: Vec<String>,
}

/// Moves the sale to a new version, with a new configuration if one is given.
#[derive(Clone, PartialEq, Debug)]
pub struct MigrateMsg<T> {
    pub version: String,
    pub config: Option<T>,
}

} // verus!
