use workspace_engine::account::ParseAccountError;
use workspace_engine::address::AddressError;
use workspace_engine::metadata::FungibleTokenMetadata;
use workspace_engine::EngineContractBuilder;

#[test]
fn new_builder_carries_the_sandbox_defaults() {
    let plan = EngineContractBuilder::new()
        .unwrap()
        .with_code(vec![1, 2, 3])
        .deploy_plan()
        .unwrap();
    assert_eq!(plan.code, vec![1, 2, 3]);
    assert_eq!(&plan.chain_id[..24], &[0u8; 24]);
    assert_eq!(&plan.chain_id[24..], 1313161556u64.to_be_bytes().as_slice());
    assert_eq!(plan.owner_id.as_str(), "aurora.test.near");
    assert_eq!(plan.prover_id.as_str(), "prover.test.near");
    assert_eq!(plan.upgrade_delay_blocks, 1);
    assert_eq!(plan.eth_custodian_address, "0".repeat(40));
    assert_eq!(plan.ft_metadata, FungibleTokenMetadata::default());
}

#[test]
fn default_metadata_describes_ether() {
    let metadata = FungibleTokenMetadata::default();
    assert_eq!(metadata.spec_version, "ft-1.0.0");
    assert_eq!(metadata.name, "Ether");
    assert_eq!(metadata.symbol, "ETH");
    assert_eq!(metadata.icon, None);
    assert_eq!(metadata.reference, None);
    assert_eq!(metadata.reference_hash, None);
    assert_eq!(metadata.decimals, 18);
}

#[test]
fn deploy_plan_needs_a_contract_binary() {
    assert!(EngineContractBuilder::new().unwrap().deploy_plan().is_none());
}

#[test]
fn setters_reach_the_plan() {
    let metadata = FungibleTokenMetadata {
        spec_version: "ft-1.0.0".to_owned(),
        name: "Wrapped Thing".to_owned(),
        symbol: "WTH".to_owned(),
        icon: Some("data:,x".to_owned()),
        reference: None,
        reference_hash: Some(vec![7; 32]),
        decimals: 24,
    };
    let plan = EngineContractBuilder::new()
        .unwrap()
        .with_code(vec![0; 8])
        .with_chain_id(1313161555)
        .with_owner_id("owner.near")
        .unwrap()
        .with_prover_id("prover.near")
        .unwrap()
        .with_custodian_address("000000000000000000000000000000000000beef")
        .unwrap()
        .with_upgrade_delay_blocks(19)
        .with_ft_metadata(metadata.clone())
        .deploy_plan()
        .unwrap();
    assert_eq!(&plan.chain_id[24..], 1313161555u64.to_be_bytes().as_slice());
    assert_eq!(plan.owner_id.as_str(), "owner.near");
    assert_eq!(plan.prover_id.as_str(), "prover.near");
    assert_eq!(
        plan.eth_custodian_address,
        "000000000000000000000000000000000000beef"
    );
    assert_eq!(plan.upgrade_delay_blocks, 19);
    assert_eq!(plan.ft_metadata, metadata);
}

#[test]
fn custodian_address_is_reencoded_lowercase() {
    let plan = EngineContractBuilder::new()
        .unwrap()
        .with_code(vec![1])
        .with_custodian_address("000000000000000000000000000000000000BEEF")
        .unwrap()
        .deploy_plan()
        .unwrap();
    assert_eq!(
        plan.eth_custodian_address,
        "000000000000000000000000000000000000beef"
    );
}

#[test]
fn invalid_owner_and_custodian_are_rejected() {
    let builder = EngineContractBuilder::new().unwrap();
    assert_eq!(
        builder.with_owner_id("UPPER.near").unwrap_err(),
        ParseAccountError::Invalid
    );
    let builder = EngineContractBuilder::new().unwrap();
    assert_eq!(
        builder.with_prover_id("p").unwrap_err(),
        ParseAccountError::TooShort
    );
    let builder = EngineContractBuilder::new().unwrap();
    assert_eq!(
        builder.with_custodian_address("beef").unwrap_err(),
        AddressError::IncorrectLength
    );
    let builder = EngineContractBuilder::new().unwrap();
    assert_eq!(
        builder
            .with_custodian_address("00000000000000000000000000000000000000zz")
            .unwrap_err(),
        AddressError::FailedDecodeHex
    );
}
