//! The token registry: a table keyed by token identifier, holding for each
//! minted token its current owner and the metadata reference fixed at mint.
//!
//! A token identifier present in the table denotes an existing, unburned
//! token; absence means "never minted" or "burned", and the two are
//! indistinguishable to callers. Identifiers are never retired: a burned
//! identifier may be minted again.

use std::collections::HashMap;
use vstd::prelude::*;

verus! {

broadcast use vstd::std_specs::hash::group_hash_axioms;

/// Why a mint, transfer or burn was refused. Every error leaves the registry
/// unchanged; no partial mutation is ever observable.
#[derive(Copy, Clone, Debug, Eq, PartialEq, PartialOrd, Ord, Structural)]
pub enum NftError {
    /// The token exists but the given identity is not its current owner, or
    /// (for transfer) the token does not exist at all.
    NotOwner,
    /// A mint named a token identifier that is already present.
    TokenAlreadyMinted,
    /// A burn named a token identifier that is not present.
    TokenNotFound,
}

/// An opaque address-like identity. The registry compares identities only for
/// equality and accepts any caller-supplied value; authentication is the
/// host's concern, not the registry's.
#[derive(Copy, Clone, Debug, Eq, PartialEq, Structural)]
pub struct Address {
    pub id: u64,
}

impl Address {
    pub fn new(id: u64) -> (address: Address)
        ensures
            address.id == id,
    {
        Address { id }
    }
}

/// What the registry holds for one minted token: its current owner, and the
/// metadata reference assigned at mint and never mutated afterwards.
#[derive(Debug)]
pub struct TokenRecord {
    pub owner: Address,
    pub metadata_ref: String,
}

/// The token registry. Its abstract state, written `self@`, is a finite map
/// from token identifier to [`TokenRecord`]; every operation's contract is
/// stated over that map.
pub struct StellarNftContract {
    tokens: HashMap<u32, TokenRecord>,
}

impl View for StellarNftContract {
    type V = Map<u32, TokenRecord>;

    closed spec fn view(&self) -> Map<u32, TokenRecord> {
        self.tokens@
    }
}

impl StellarNftContract {
    /// An empty registry: no token identifier has ever been minted.
    pub fn new() -> (registry: StellarNftContract)
        ensures
            registry@ == Map::<u32, TokenRecord>::empty(),
    {
        StellarNftContract { tokens: HashMap::new() }
    }

    /// Mint a new token under a caller-chosen identifier.
    ///
    /// Fails with `TokenAlreadyMinted`, leaving the registry unchanged, if
    /// and only if the identifier is already present; otherwise inserts the
    /// record and returns the identifier. No owner validity check is made.
    pub fn mint_nft(&mut self, owner: Address, token_id: u32, metadata_ipfs_hash: String) -> (result:
        Result<u32, NftError>)
        ensures
            old(self)@.contains_key(token_id) ==> {
                &&& result == Err::<u32, NftError>(NftError::TokenAlreadyMinted)
                &&& final(self)@ == old(self)@
            },
            !old(self)@.contains_key(token_id) ==> {
                &&& result == Ok::<u32, NftError>(token_id)
                &&& final(self)@ == old(self)@.insert(
                    token_id,
                    (TokenRecord { owner, metadata_ref: metadata_ipfs_hash }),
                )
            },
    {
        if self.tokens.contains_key(&token_id) {
            return Err(NftError::TokenAlreadyMinted);
        }
        self.tokens.insert(token_id, TokenRecord { owner, metadata_ref: metadata_ipfs_hash });
        Ok(token_id)
    }

    /// Look up the current owner of a token.
    ///
    /// Absence is a normal result, not a failure: the answer is `None` if and
    /// only if the identifier was never minted or was burned.
    pub fn get_owner(&self, token_id: u32) -> (result: Option<Address>)
        ensures
            self@.contains_key(token_id) ==> result == Some(self@[token_id].owner),
            !self@.contains_key(token_id) ==> result == None::<Address>,
    {
        match self.tokens.get(&token_id) {
            Some(record) => Some(record.owner),
            None => None,
        }
    }

    /// Transfer a token from its current owner to another identity.
    ///
    /// Succeeds, replacing the owner and carrying the metadata reference over
    /// unchanged, if and only if the token exists and `from` is its current
    /// owner. Otherwise fails with `NotOwner` — a missing token and a wrong
    /// owner are deliberately reported alike — and leaves the registry
    /// unchanged.
    pub fn transfer_nft(&mut self, token_id: u32, from: Address, to: Address) -> (result: Result<
        u32,
        NftError,
    >)
        ensures
            old(self)@.contains_key(token_id) && old(self)@[token_id].owner == from ==> {
                &&& result == Ok::<u32, NftError>(token_id)
                &&& final(self)@ == old(self)@.insert(
                    token_id,
                    (TokenRecord { owner: to, metadata_ref: old(self)@[token_id].metadata_ref }),
                )
            },
            !(old(self)@.contains_key(token_id) && old(self)@[token_id].owner == from) ==> {
                &&& result == Err::<u32, NftError>(NftError::NotOwner)
                &&& final(self)@ == old(self)@
            },
    {
        let metadata: Option<String> = match self.tokens.get(&token_id) {
            Some(record) => if record.owner == from {
                Some(record.metadata_ref.clone())
            } else {
                None
            },
            None => None,
        };
        match metadata {
            Some(metadata_ref) => {
                self.tokens.insert(token_id, TokenRecord { owner: to, metadata_ref });
                Ok(token_id)
            },
            None => Err(NftError::NotOwner),
        }
    }

    /// Look up the metadata reference of a token.
    ///
    /// Same absence semantics as [`Self::get_owner`]: `None` if and only if
    /// the identifier is not present.
    pub fn get_metadata(&self, token_id: u32) -> (result: Option<String>)
        ensures
            self@.contains_key(token_id) ==> result == Some(self@[token_id].metadata_ref),
            !self@.contains_key(token_id) ==> result == None::<String>,
    {
        match self.tokens.get(&token_id) {
            Some(record) => Some(record.metadata_ref.clone()),
            None => None,
        }
    }

    /// Burn a token, removing its entry entirely.
    ///
    /// Succeeds if and only if the token exists and `caller` is its current
    /// owner. Unlike transfer, burn distinguishes its two failure causes:
    /// `TokenNotFound` when the identifier is absent, `NotOwner` when the
    /// token exists but `caller` does not own it. Either failure leaves the
    /// registry unchanged.
    pub fn burn_nft(&mut self, token_id: u32, caller: Address) -> (result: Result<(), NftError>)
        ensures
            !old(self)@.contains_key(token_id) ==> {
                &&& result == Err::<(), NftError>(NftError::TokenNotFound)
                &&& final(self)@ == old(self)@
            },
            old(self)@.contains_key(token_id) && old(self)@[token_id].owner != caller ==> {
                &&& result == Err::<(), NftError>(NftError::NotOwner)
                &&& final(self)@ == old(self)@
            },
            old(self)@.contains_key(token_id) && old(self)@[token_id].owner == caller ==> {
                &&& result == Ok::<(), NftError>(())
                &&& final(self)@ == old(self)@.remove(token_id)
            },
    {
        let owner: Option<Address> = match self.tokens.get(&token_id) {
            Some(record) => Some(record.owner),
            None => None,
        };
        match owner {
            Some(owner) => if owner == caller {
                self.tokens.remove(&token_id);
                Ok(())
            } else {
                Err(NftError::NotOwner)
            },
            None => Err(NftError::TokenNotFound),
        }
    }
}

} // verus!
