//! The operations exported by the deployed engine contract.
//!
//! Two closed enumerations mirror the contract's interface: [`Call`] for the
//! mutating operations and [`View`] for the read-only queries. Each variant
//! maps to exactly one stable wire-level method name and one decode rule for
//! what the method returns; the mapping is pinned by the `ensures` of
//! [`Call::as_ref`], [`View::as_ref`], [`Call::return_format`] and
//! [`View::return_format`].

use vstd::prelude::*;
use vstd::view::View as _;

verus! {

/// How the bytes an operation returns are decoded into a typed value.
#[derive(Debug, Clone, PartialEq, Eq, Structural)]
pub enum ReturnFormat {
    /// No value beyond success comes back.
    Unit,
    /// The value comes back as JSON.
    Json,
    /// The value comes back in the binary record codec.
    Borsh,
    /// A 32-byte hash in the binary record codec.
    BorshH256,
    /// A 256-bit integer in the binary record codec.
    BorshU256,
    /// Raw bytes that the caller's own conversion reads.
    TryFrom,
}

/// A mutating operation on the deployed engine contract.
#[derive(Debug, Clone, PartialEq, Eq, PartialOrd, Ord, Hash)]
pub enum Call {
    New,
    NewEthConnector,
    DeployCode,
    DeployErc20Token,
    Call,
    Submit,
    RegisterRelayer,
    FtOnTransfer,
    Withdraw,
    Deposit,
    FtTransfer,
    FtTransferCall,
    StorageDeposit,
    StorageUnregister,
    StorageWithdraw,
    PausePrecompiles,
    StageUpgrade,
    DeployUpgrade,
    StateMigration,
    ResumePrecompiles,
    FactoryUpdate,
    FundXccSubAccount,
    FactorySetWNearAddress,
    SetEthConnectorContractData,
    FactoryUpdateAddressVersion,
    RefundOnError,
    MintAccount,
}

impl Call {
    /// The wire-level method name this operation maps to.
    pub open spec fn method_name(self) -> Seq<char> {
        match self {
            Call::New => "new"@,
            Call::NewEthConnector => "new_eth_connector"@,
            Call::DeployCode => "deploy_code"@,
            Call::DeployErc20Token => "deploy_erc20_token"@,
            Call::Call => "call"@,
            Call::Submit => "submit"@,
            Call::RegisterRelayer => "register_relayer"@,
            Call::FtOnTransfer => "ft_on_transfer"@,
            Call::Withdraw => "withdraw"@,
            Call::Deposit => "deposit"@,
            Call::FtTransfer => "ft_transfer"@,
            Call::FtTransferCall => "ft_transfer_call"@,
            Call::StorageDeposit => "storage_deposit"@,
            Call::StorageUnregister => "storage_unregister"@,
            Call::StorageWithdraw => "storage_withdraw"@,
            Call::PausePrecompiles => "pause_precompiles"@,
            Call::StageUpgrade => "stage_upgrade"@,
            Call::DeployUpgrade => "deploy_upgrade"@,
            Call::StateMigration => "state_migration"@,
            Call::ResumePrecompiles => "resume_precompiles"@,
            Call::FactoryUpdate => "factory_update"@,
            Call::FundXccSubAccount => "fund_xcc_sub_account"@,
            Call::FactorySetWNearAddress => "factory_set_wnear_address"@,
            Call::SetEthConnectorContractData => "set_eth_connector_contract_data"@,
            Call::FactoryUpdateAddressVersion => "factory_update_address_version"@,
            Call::RefundOnError => "refund_on_error"@,
            Call::MintAccount => "mint_account"@,
        }
    }

    /// How this operation's returned bytes are decoded.
    pub open spec fn spec_return_format(self) -> ReturnFormat {
        match self {
            Call::FtTransferCall => ReturnFormat::TryFrom,
            Call::StorageDeposit => ReturnFormat::Json,
            Call::StorageUnregister => ReturnFormat::Json,
            Call::StorageWithdraw => ReturnFormat::Json,
            Call::FtOnTransfer => ReturnFormat::Json,
            Call::Withdraw => ReturnFormat::Borsh,
            Call::DeployCode => ReturnFormat::Borsh,
            Call::DeployErc20Token => ReturnFormat::Borsh,
            Call::Call => ReturnFormat::Borsh,
            Call::Submit => ReturnFormat::Borsh,
            _ => ReturnFormat::Unit,
        }
    }

    /// The decode rule of this operation, exactly
    /// [`Call::spec_return_format`].
    pub fn return_format(&self) -> (r: ReturnFormat)
        ensures
            r == self.spec_return_format(),
    {
        match self {
            Call::FtTransferCall => ReturnFormat::TryFrom,
            Call::StorageDeposit => ReturnFormat::Json,
            Call::StorageUnregister => ReturnFormat::Json,
            Call::StorageWithdraw => ReturnFormat::Json,
            Call::FtOnTransfer => ReturnFormat::Json,
            Call::Withdraw => ReturnFormat::Borsh,
            Call::DeployCode => ReturnFormat::Borsh,
            Call::DeployErc20Token => ReturnFormat::Borsh,
            Call::Call => ReturnFormat::Borsh,
            Call::Submit => ReturnFormat::Borsh,
            _ => ReturnFormat::Unit,
        }
    }

    /// The method name as a string slice, exactly [`Call::method_name`].
    pub fn as_ref(&self) -> (r: &'static str)
        ensures
            r@ == self.method_name(),
    {
        match self {
            Call::New => "new",
            Call::NewEthConnector => "new_eth_connector",
            Call::DeployCode => "deploy_code",
            Call::DeployErc20Token => "deploy_erc20_token",
            Call::Call => "call",
            Call::Submit => "submit",
            Call::RegisterRelayer => "register_relayer",
            Call::FtOnTransfer => "ft_on_transfer",
            Call::Withdraw => "withdraw",
            Call::Deposit => "deposit",
            Call::FtTransfer => "ft_transfer",
            Call::FtTransferCall => "ft_transfer_call",
            Call::StorageDeposit => "storage_deposit",
            Call::StorageUnregister => "storage_unregister",
            Call::StorageWithdraw => "storage_withdraw",
            Call::PausePrecompiles => "pause_precompiles",
            Call::StageUpgrade => "stage_upgrade",
            Call::DeployUpgrade => "deploy_upgrade",
            Call::StateMigration => "state_migration",
            Call::ResumePrecompiles => "resume_precompiles",
            Call::FactoryUpdate => "factory_update",
            Call::FundXccSubAccount => "fund_xcc_sub_account",
            Call::FactorySetWNearAddress => "factory_set_wnear_address",
            Call::SetEthConnectorContractData => "set_eth_connector_contract_data",
            Call::FactoryUpdateAddressVersion => "factory_update_address_version",
            Call::RefundOnError => "refund_on_error",
            Call::MintAccount => "mint_account",
        }
    }
}

/// A read-only query on the deployed engine contract.
#[derive(Debug, Clone, PartialEq, Eq, PartialOrd, Ord, Hash)]
pub enum View {
    Version,
    Owner,
    BridgeProver,
    ChainId,
    UpgradeIndex,
    PausedPrecompiles,
    BlockHash,
    Code,
    Balance,
    Nonce,
    StorageAt,
    View,
    IsUsedProof,
    FtTotalSupply,
    FtBalanceOf,
    FtBalanceOfEth,
    FtTotalEthSupplyOnAurora,
    FtMetadata,
    StorageBalanceOf,
    PausedFlags,
    Erc20FromNep141,
    Nep141FromErc20,
}

impl View {
    /// The wire-level method name this query maps to.
    pub open spec fn method_name(self) -> Seq<char> {
        match self {
            View::Version => "get_version"@,
            View::Owner => "get_owner"@,
            View::BridgeProver => "get_bridge_prover"@,
            View::ChainId => "get_chain_id"@,
            View::UpgradeIndex => "get_upgrade_index"@,
            View::PausedPrecompiles => "get_paused_precompiles"@,
            View::BlockHash => "get_block_hash"@,
            View::Code => "get_code"@,
            View::Balance => "get_balance"@,
            View::Nonce => "get_nonce"@,
            View::StorageAt => "get_storage_at"@,
            View::View => "get_view"@,
            View::IsUsedProof => "is_used_proof"@,
            View::FtTotalSupply => "ft_total_supply"@,
            View::FtBalanceOf => "ft_balance_of"@,
            View::FtBalanceOfEth => "ft_balance_of_eth"@,
            View::FtTotalEthSupplyOnAurora => "ft_total_eth_supply_on_aurora"@,
            View::FtMetadata => "ft_metadata"@,
            View::StorageBalanceOf => "storage_balance_of"@,
            View::PausedFlags => "get_paused_flags"@,
            View::Erc20FromNep141 => "get_erc20_from_nep141"@,
            View::Nep141FromErc20 => "get_nep141_from_erc20"@,
        }
    }

    /// How this query's returned bytes are decoded.
    pub open spec fn spec_return_format(self) -> ReturnFormat {
        match self {
            View::FtTotalSupply => ReturnFormat::Json,
            View::FtBalanceOf => ReturnFormat::Json,
            View::StorageBalanceOf => ReturnFormat::Json,
            View::FtMetadata => ReturnFormat::Json,
            View::BlockHash => ReturnFormat::BorshH256,
            View::StorageAt => ReturnFormat::BorshH256,
            View::Balance => ReturnFormat::BorshU256,
            View::Nonce => ReturnFormat::BorshU256,
            View::FtTotalEthSupplyOnAurora => ReturnFormat::BorshU256,
            View::FtBalanceOfEth => ReturnFormat::BorshU256,
            _ => ReturnFormat::Borsh,
        }
    }

    /// The decode rule of this query, exactly [`View::spec_return_format`].
    pub fn return_format(&self) -> (r: ReturnFormat)
        ensures
            r == self.spec_return_format(),
    {
        match self {
            View::FtTotalSupply => ReturnFormat::Json,
            View::FtBalanceOf => ReturnFormat::Json,
            View::StorageBalanceOf => ReturnFormat::Json,
            View::FtMetadata => ReturnFormat::Json,
            View::BlockHash => ReturnFormat::BorshH256,
            View::StorageAt => ReturnFormat::BorshH256,
            View::Balance => ReturnFormat::BorshU256,
            View::Nonce => ReturnFormat::BorshU256,
            View::FtTotalEthSupplyOnAurora => ReturnFormat::BorshU256,
            View::FtBalanceOfEth => ReturnFormat::BorshU256,
            _ => ReturnFormat::Borsh,
        }
    }

    /// The method name as a string slice, exactly [`View::method_name`].
    pub fn as_ref(&self) -> (r: &'static str)
        ensures
            r@ == self.method_name(),
    {
        match self {
            View::Version => "get_version",
            View::Owner => "get_owner",
            View::BridgeProver => "get_bridge_prover",
            View::ChainId => "get_chain_id",
            View::UpgradeIndex => "get_upgrade_index",
            View::PausedPrecompiles => "get_paused_precompiles",
            View::BlockHash => "get_block_hash",
            View::Code => "get_code",
            View::Balance => "get_balance",
            View::Nonce => "get_nonce",
            View::StorageAt => "get_storage_at",
            View::View => "get_view",
            View::IsUsedProof => "is_used_proof",
            View::FtTotalSupply => "ft_total_supply",
            View::FtBalanceOf => "ft_balance_of",
            View::FtBalanceOfEth => "ft_balance_of_eth",
            View::FtTotalEthSupplyOnAurora => "ft_total_eth_supply_on_aurora",
            View::FtMetadata => "ft_metadata",
            View::StorageBalanceOf => "storage_balance_of",
            View::PausedFlags => "get_paused_flags",
            View::Erc20FromNep141 => "get_erc20_from_nep141",
            View::Nep141FromErc20 => "get_nep141_from_erc20",
        }
    }
}

} // verus!
