//! A typed client-side binding for an engine contract deployed into a
//! sandboxed blockchain test network.
//!
//! The crate models the data that crosses the wire as plain verified values:
//! account identifiers ([`account::AccountId`]), 20-byte addresses
//! ([`address::Address`]), the 32-byte big-endian chain identifier
//! ([`chain::into_chain_id`]) and fungible-token metadata
//! ([`metadata::FungibleTokenMetadata`]). [`EngineContractBuilder`] collects
//! the deployment parameters and turns them into a [`DeployPlan`], the exact
//! arguments of the two initialization calls that a transport layer then
//! submits to the network.

use vstd::prelude::*;

pub mod account;
pub mod address;
pub mod chain;
pub mod metadata;
pub mod operation;

use crate::account::{account_parse_error, valid_account_id, AccountId, ParseAccountError};
use crate::address::{
    address_decode_error, hex_decoded, hex_encoded, lemma_hex_round_trip, valid_hex_address,
    Address, AddressError,
};
use crate::chain::{chain_id_bytes, into_chain_id};
use crate::metadata::{default_metadata, FungibleTokenMetadata, FungibleTokenMetadataView};

verus! {

/// The chain identifier of the local sandbox network.
pub const AURORA_LOCAL_CHAIN_ID: u64 = 1313161556;

/// The owner account the builder starts with.
pub open spec fn default_owner_id() -> Seq<char> {
    "aurora.test.near"@
}

/// The prover account the builder starts with.
pub open spec fn default_prover_id() -> Seq<char> {
    "prover.test.near"@
}

/// The default owner and prover accounts are valid identifiers.
pub proof fn lemma_default_ids_valid()
    ensures
        valid_account_id(default_owner_id()),
        valid_account_id(default_prover_id()),
{
    reveal_strlit("aurora.test.near");
    reveal_strlit("prover.test.near");
}

/// The mathematical value of an [`EngineContractBuilder`].
pub struct EngineContractBuilderView {
    pub code: Option<Seq<u8>>,
    pub chain_id: Seq<u8>,
    pub owner_id: Seq<char>,
    pub prover_id: Seq<char>,
    pub custodian_address: Seq<u8>,
    pub upgrade_delay_blocks: u64,
    pub ft_metadata: FungibleTokenMetadataView,
}

/// Collects the parameters of an engine-contract deployment: the contract
/// binary, the chain identifier in wire form, the owner and prover accounts,
/// the custodian address, the upgrade delay and the token metadata.
#[derive(Debug)]
pub struct EngineContractBuilder {
    code: Option<Vec<u8>>,
    chain_id: Vec<u8>,
    owner_id: AccountId,
    prover_id: AccountId,
    custodian_address: Address,
    upgrade_delay_blocks: u64,
    ft_metadata: FungibleTokenMetadata,
}

impl View for EngineContractBuilder {
    type V = EngineContractBuilderView;

    closed spec fn view(&self) -> EngineContractBuilderView {
        EngineContractBuilderView {
            code: match self.code {
                Some(c) => Some(c@),
                None => None,
            },
            chain_id: self.chain_id@,
            owner_id: self.owner_id@,
            prover_id: self.prover_id@,
            custodian_address: self.custodian_address@,
            upgrade_delay_blocks: self.upgrade_delay_blocks,
            ft_metadata: self.ft_metadata@,
        }
    }
}

impl EngineContractBuilder {
    /// The builder is well formed: the chain identifier is 32 bytes, both
    /// accounts are valid identifiers, and the custodian address is 20 bytes.
    pub open spec fn wf(self) -> bool {
        &&& self@.chain_id.len() == 32
        &&& valid_account_id(self@.owner_id)
        &&& valid_account_id(self@.prover_id)
        &&& self@.custodian_address.len() == 20
    }

    /// A builder with the sandbox defaults: no contract binary yet, the
    /// local chain identifier, the default owner and prover accounts, the
    /// all-zero custodian address, an upgrade delay of one block, and the
    /// native-token metadata.
    pub fn new() -> (r: Result<Self, ParseAccountError>)
        ensures
            r is Ok,
            r matches Ok(b) ==> b.wf() && b@ == (EngineContractBuilderView {
                code: None,
                chain_id: chain_id_bytes(AURORA_LOCAL_CHAIN_ID),
                owner_id: default_owner_id(),
                prover_id: default_prover_id(),
                custodian_address: Seq::new(20, |i: int| 0u8),
                upgrade_delay_blocks: 1,
                ft_metadata: default_metadata(),
            }),
    {
        proof {
            lemma_default_ids_valid();
        }
        let owner_id = match AccountId::parse("aurora.test.near") {
            Ok(a) => a,
            Err(e) => {
                return Err(e);
            },
        };
        let prover_id = match AccountId::parse("prover.test.near") {
            Ok(a) => a,
            Err(e) => {
                return Err(e);
            },
        };
        let b = EngineContractBuilder {
            code: None,
            chain_id: into_chain_id(AURORA_LOCAL_CHAIN_ID),
            owner_id,
            prover_id,
            custodian_address: Address::zero(),
            upgrade_delay_blocks: 1,
            ft_metadata: FungibleTokenMetadata::default(),
        };
        proof {
            assert(b@.chain_id =~= chain_id_bytes(AURORA_LOCAL_CHAIN_ID));
            assert(b@.custodian_address =~= Seq::new(20, |i: int| 0u8));
        }
        Ok(b)
    }

    /// Sets the contract binary to deploy.
    pub fn with_code(self, code: Vec<u8>) -> (r: Self)
        ensures
            r@ == (EngineContractBuilderView { code: Some(code@), ..self@ }),
    {
        EngineContractBuilder { code: Some(code), ..self }
    }

    /// Sets the chain identifier, stored in its 32-byte wire form.
    pub fn with_chain_id(self, chain_id: u64) -> (r: Self)
        ensures
            r@ == (EngineContractBuilderView { chain_id: chain_id_bytes(chain_id), ..self@ }),
    {
        let bytes = into_chain_id(chain_id);
        proof {
            assert(bytes@ =~= chain_id_bytes(chain_id));
        }
        EngineContractBuilder { chain_id: bytes, ..self }
    }

    /// Sets the owner account; accepts exactly the strings that
    /// [`valid_account_id`] admits.
    pub fn with_owner_id(self, owner_id: &str) -> (r: Result<Self, ParseAccountError>)
        ensures
            r is Ok <==> valid_account_id(owner_id@),
            r matches Ok(b) ==> b@ == (EngineContractBuilderView {
                owner_id: owner_id@,
                ..self@
            }),
            r matches Err(e) ==> e == account_parse_error(owner_id@),
    {
        let owner_id = match AccountId::parse(owner_id) {
            Ok(a) => a,
            Err(e) => {
                return Err(e);
            },
        };
        Ok(EngineContractBuilder { owner_id, ..self })
    }

    /// Sets the prover account; accepts exactly the strings that
    /// [`valid_account_id`] admits.
    pub fn with_prover_id(self, prover_id: &str) -> (r: Result<Self, ParseAccountError>)
        ensures
            r is Ok <==> valid_account_id(prover_id@),
            r matches Ok(b) ==> b@ == (EngineContractBuilderView {
                prover_id: prover_id@,
                ..self@
            }),
            r matches Err(e) ==> e == account_parse_error(prover_id@),
    {
        let prover_id = match AccountId::parse(prover_id) {
            Ok(a) => a,
            Err(e) => {
                return Err(e);
            },
        };
        Ok(EngineContractBuilder { prover_id, ..self })
    }

    /// Sets the custodian address from its 40-character hexadecimal form;
    /// accepts exactly the strings that [`valid_hex_address`] admits.
    pub fn with_custodian_address(self, address: &str) -> (r: Result<Self, AddressError>)
        ensures
            r is Ok <==> valid_hex_address(address@),
            r matches Ok(b) ==> b@ == (EngineContractBuilderView {
                custodian_address: hex_decoded(address@),
                ..self@
            }),
            r matches Err(e) ==> e == address_decode_error(address@),
    {
        let custodian_address = match Address::decode(address) {
            Ok(a) => a,
            Err(e) => {
                return Err(e);
            },
        };
        proof {
            assert(custodian_address@ =~= hex_decoded(address@));
        }
        Ok(EngineContractBuilder { custodian_address, ..self })
    }

    /// Sets how many blocks a staged upgrade must wait.
    pub fn with_upgrade_delay_blocks(self, upgrade_delay_blocks: u64) -> (r: Self)
        ensures
            r@ == (EngineContractBuilderView { upgrade_delay_blocks, ..self@ }),
    {
        EngineContractBuilder { upgrade_delay_blocks, ..self }
    }

    /// Sets the metadata of the token the contract exposes.
    pub fn with_ft_metadata(self, ft_metadata: FungibleTokenMetadata) -> (r: Self)
        ensures
            r@ == (EngineContractBuilderView { ft_metadata: ft_metadata@, ..self@ }),
    {
        EngineContractBuilder { ft_metadata, ..self }
    }

    /// The exact arguments of the deployment and of the two initialization
    /// calls, or `None` while no contract binary is set.
    pub fn deploy_plan(self) -> (r: Option<DeployPlan>)
        ensures
            r is Some <==> self@.code is Some,
            r matches Some(p) ==> {
                &&& self@.code matches Some(c) && p.code@ == c
                &&& p.chain_id@ == self@.chain_id
                &&& p.owner_id@ == self@.owner_id
                &&& p.upgrade_delay_blocks == self@.upgrade_delay_blocks
                &&& p.prover_id@ == self@.prover_id
                &&& p.eth_custodian_address@ == hex_encoded(self@.custodian_address)
                &&& p.ft_metadata@ == self@.ft_metadata
                &&& (self.wf() ==> p.wf())
            },
    {
        let code = match self.code {
            Some(c) => c,
            None => {
                return None;
            },
        };
        let eth_custodian_address = self.custodian_address.encode();
        proof {
            lemma_hex_round_trip(self.custodian_address@);
        }
        Some(
            DeployPlan {
                code,
                chain_id: self.chain_id,
                owner_id: self.owner_id,
                upgrade_delay_blocks: self.upgrade_delay_blocks,
                prover_id: self.prover_id,
                eth_custodian_address,
                ft_metadata: self.ft_metadata,
            },
        )
    }
}

/// Everything a transport layer needs to deploy and initialize the engine
/// contract: the binary to deploy, the arguments of the contract's `new`
/// call (chain identifier, owner, upgrade delay), and the arguments of its
/// `new_eth_connector` call (prover, custodian address in hexadecimal form,
/// token metadata).
#[derive(Debug)]
pub struct DeployPlan {
    /// The contract binary to deploy.
    pub code: Vec<u8>,
    /// The chain identifier in its 32-byte wire form.
    pub chain_id: Vec<u8>,
    /// The account that owns the deployed contract.
    pub owner_id: AccountId,
    /// How many blocks a staged upgrade must wait.
    pub upgrade_delay_blocks: u64,
    /// The account of the bridge prover.
    pub prover_id: AccountId,
    /// The custodian address, as 40 lowercase hexadecimal characters.
    pub eth_custodian_address: String,
    /// The metadata of the token the contract exposes.
    pub ft_metadata: FungibleTokenMetadata,
}

impl DeployPlan {
    /// The plan is well formed: the chain identifier is 32 bytes, both
    /// accounts are valid identifiers, and the custodian address is the
    /// text form of a 20-byte address.
    pub open spec fn wf(self) -> bool {
        &&& self.chain_id@.len() == 32
        &&& valid_account_id(self.owner_id@)
        &&& valid_account_id(self.prover_id@)
        &&& valid_hex_address(self.eth_custodian_address@)
    }
}

} // verus!
