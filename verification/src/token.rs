//! What a mintable asset says of itself.

use vstd::prelude::*;

verus! {

/// The description of a mintable asset: its name, its symbol, and how many decimal
/// places its amounts have. The balances themselves are kept by the asset service.
pub struct PSP22MintableContract {
    name: Option<String>,
    symbol: Option<String>,
    decimals: u8,
}

/// The description of an asset as plain values.
pub ghost struct PSP22MintableContractView {
    pub name: Option<Seq<char>>,
    pub symbol: Option<Seq<char>>,
    pub decimals: u8,
}

/// The text of an optional string.
pub open spec fn text_of(text: Option<String>) -> Option<Seq<char>> {
    match text {
        Some(text) => Some(text@),
        None => None,
    }
}

impl View for PSP22MintableContract {
    type V = PSP22MintableContractView;

    closed spec fn view(&self) -> PSP22MintableContractView {
        PSP22MintableContractView {
            name: text_of(self.name),
            symbol: text_of(self.symbol),
            decimals: self.decimals,
        }
    }
}

impl PSP22MintableContract {
    /// An asset described by `name`, `symbol` and `decimal`.
    pub fn new(name: Option<String>, symbol: Option<String>, decimal: u8) -> (token:
        PSP22MintableContract)
        ensures
            token@ == (PSP22MintableContractView {
                name: text_of(name),
                symbol: text_of(symbol),
                decimals: decimal,
            }),
    {
        PSP22MintableContract { name, symbol, decimals: decimal }
    }

    /// The name, if the asset has one.
    pub fn token_name(&self) -> (name: &Option<String>)
        ensures
            text_of(*name) == self@.name,
    {
        &self.name
    }

    /// The symbol, if the asset has one.
    pub fn token_symbol(&self) -> (symbol: &Option<String>)
        ensures
            text_of(*symbol) == self@.symbol,
    {
        &self.symbol
    }

    /// How many decimal places the amounts of the asset have.
    pub fn token_decimals(&self) -> (decimals: u8)
        ensures
            decimals == self@.decimals,
    {
        self.decimals
    }
}

} // verus!
