//! Balances in Ethereum tokens.
use crate::address::Address;
use crate::block::{BlockId, BlockNumberOrTag};
use crate::bytes::be_value;
use crate::client::KakarotClient;
use crate::felt::Felt;
use vstd::prelude::*;

verus! {

/// The request for the balance of `account` in the token at `token`, an Ethereum address, which the
/// Kakarot contract at `kakarot_address` reaches.
#[derive(Clone, Copy, Debug)]
pub struct TokenBalanceQuery {
    pub kakarot_address: Felt,
    pub token_address: Address,
    pub token: Felt,
    pub account: Felt,
    pub block_id: BlockId,
}

/// The request for the balances of `address` in several tokens.
#[derive(Debug)]
pub struct TokenBalancesQuery {
    pub address: Address,
    pub queries: Vec<TokenBalanceQuery>,
}

/// The balances of `address` in several tokens. `B` is the balance in one.
#[derive(Debug)]
pub struct TokenBalances<B> {
    pub address: Address,
    pub token_balances: Vec<B>,
}

/// Whether `query` asks for the balance of `address` in the token at `token_address`, through the
/// Kakarot contract at `kakarot_address` and in the latest block.
pub open spec fn asks_latest_balance(
    query: TokenBalanceQuery,
    kakarot_address: Felt,
    address: Address,
    token_address: Address,
) -> bool {
    &&& query.kakarot_address == kakarot_address
    &&& query.token_address == token_address
    &&& query.token@ == be_value(token_address.bytes@)
    &&& query.account@ == be_value(address.bytes@)
    &&& query.block_id == BlockId::Number(BlockNumberOrTag::Latest)
}

impl<P> KakarotClient<P> {
    /// Returns the balances of an address in a list of tokens.
    pub fn token_balances(&self, address: Address, token_addresses: Vec<Address>) -> (request:
        TokenBalancesQuery)
        ensures
            request.address == address,
            request.queries@.len() == token_addresses@.len(),
            forall|i: int|
                0 <= i < token_addresses@.len() ==> asks_latest_balance(
                    #[trigger] request.queries@[i],
                    self.kakarot_contract.address,
                    address,
                    token_addresses@[i],
                ),
    {
        let block_id = BlockId::Number(BlockNumberOrTag::Latest);
        let account = address.to_felt();
        let mut queries: Vec<TokenBalanceQuery> = Vec::new();
        let mut i: usize = 0;
        while i < token_addresses.len()
            invariant
                i <= token_addresses@.len(),
                queries@.len() == i,
                account@ == be_value(address.bytes@),
                block_id == BlockId::Number(BlockNumberOrTag::Latest),
                forall|j: int|
                    0 <= j < i ==> asks_latest_balance(
                        #[trigger] queries@[j],
                        self.kakarot_contract.address,
                        address,
                        token_addresses@[j],
                    ),
            decreases token_addresses@.len() - i,
        {
            let token_address = token_addresses[i];
            queries.push(
                TokenBalanceQuery {
                    kakarot_address: self.kakarot_address(),
                    token_address,
                    token: token_address.to_felt(),
                    account,
                    block_id,
                },
            );
            i = i + 1;
        }
        TokenBalancesQuery { address, queries }
    }
}

impl TokenBalancesQuery {
    /// The balances in the reply, with the address that has them. This is the outcome.
    pub fn resume<B>(self, token_balances: Vec<B>) -> (balances: TokenBalances<B>)
        ensures
            balances == (TokenBalances { address: self.address, token_balances }),
    {
        TokenBalances { address: self.address, token_balances }
    }
}

} // verus!
