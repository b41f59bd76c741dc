//! Metadata of the fungible token the engine contract exposes.
//!
//! A plain record in the standard fungible-token metadata shape. The default
//! value describes the native token of the engine: the `ft-1.0.0` metadata
//! specification, name `Ether`, symbol `ETH`, 18 decimals, and no icon,
//! reference or reference hash.

use vstd::prelude::*;

verus! {

/// The mathematical value of a [`FungibleTokenMetadata`] record.
pub struct FungibleTokenMetadataView {
    pub spec_version: Seq<char>,
    pub name: Seq<char>,
    pub symbol: Seq<char>,
    pub icon: Option<Seq<char>>,
    pub reference: Option<Seq<char>>,
    pub reference_hash: Option<Seq<u8>>,
    pub decimals: u8,
}

/// Metadata of a fungible token: the metadata-specification version, the
/// human-readable name and symbol, an optional icon and reference, and the
/// number of decimals.
#[derive(Debug, Clone, PartialEq, Eq)]
pub struct FungibleTokenMetadata {
    /// The version of the fungible-token metadata specification the record
    /// follows, such as `ft-1.0.0`.
    pub spec_version: String,
    /// The human-readable token name.
    pub name: String,
    /// The token symbol.
    pub symbol: String,
    /// An optional icon, usually a data URL.
    pub icon: Option<String>,
    /// An optional link to further metadata.
    pub reference: Option<String>,
    /// An optional hash of the referenced metadata.
    pub reference_hash: Option<Vec<u8>>,
    /// How many decimal places the token amount carries.
    pub decimals: u8,
}

impl View for FungibleTokenMetadata {
    type V = FungibleTokenMetadataView;

    open spec fn view(&self) -> FungibleTokenMetadataView {
        FungibleTokenMetadataView {
            spec_version: self.spec_version@,
            name: self.name@,
            symbol: self.symbol@,
            icon: match self.icon {
                Some(s) => Some(s@),
                None => None,
            },
            reference: match self.reference {
                Some(s) => Some(s@),
                None => None,
            },
            reference_hash: match self.reference_hash {
                Some(h) => Some(h@),
                None => None,
            },
            decimals: self.decimals,
        }
    }
}

/// The metadata of the engine's native token.
pub open spec fn default_metadata() -> FungibleTokenMetadataView {
    FungibleTokenMetadataView {
        spec_version: "ft-1.0.0"@,
        name: "Ether"@,
        symbol: "ETH"@,
        icon: None,
        reference: None,
        reference_hash: None,
        decimals: 18,
    }
}

impl Default for FungibleTokenMetadata {
    /// The metadata of the engine's native token: exactly
    /// [`default_metadata`].
    fn default() -> (d: Self)
        ensures
            d@ == default_metadata(),
    {
        FungibleTokenMetadata {
            spec_version: "ft-1.0.0".to_owned(),
            name: "Ether".to_owned(),
            symbol: "ETH".to_owned(),
            icon: None,
            reference: None,
            reference_hash: None,
            decimals: 18,
        }
    }
}

} // verus!
