//! Network kinds and network-upgrade activation heights.

use vstd::prelude::*;
use vstd::string::*;

verus! {

/// The kind of network a validator runs.
#[derive(Clone, Copy, Debug, PartialEq, Eq, Structural)]
pub enum Network {
    Mainnet,
    Testnet,
    Regtest,
}

/// The name a validator's configuration gives a network kind.
pub open spec fn network_name(n: Network) -> Seq<char> {
    match n {
        Network::Mainnet => "Mainnet"@,
        Network::Testnet => "Testnet"@,
        Network::Regtest => "Regtest"@,
    }
}

impl Network {
    /// The name of this network kind, as validators spell it.
    pub fn to_string(&self) -> (r: String)
        ensures
            r@ == network_name(*self),
    {
        match self {
            Network::Mainnet => String::from_str("Mainnet"),
            Network::Testnet => String::from_str("Testnet"),
            Network::Regtest => String::from_str("Regtest"),
        }
    }
}

/// Activation heights of the network upgrades, in upgrade order.
#[derive(Clone, Copy, Debug, PartialEq, Eq, Structural)]
pub struct ActivationHeights {
    pub overwinter: u32,
    pub sapling: u32,
    pub blossom: u32,
    pub heartwood: u32,
    pub canopy: u32,
    pub nu5: u32,
}

impl ActivationHeights {
    /// Every height is positive and the heights do not decrease in upgrade order.
    pub open spec fn well_formed(&self) -> bool {
        &&& 1 <= self.overwinter
        &&& self.overwinter <= self.sapling
        &&& self.sapling <= self.blossom
        &&& self.blossom <= self.heartwood
        &&& self.heartwood <= self.canopy
        &&& self.canopy <= self.nu5
    }

    /// Tells whether the heights are positive and ordered.
    pub fn is_well_formed(&self) -> (r: bool)
        ensures
            r == self.well_formed(),
    {
        1 <= self.overwinter && self.overwinter <= self.sapling && self.sapling <= self.blossom
            && self.blossom <= self.heartwood && self.heartwood <= self.canopy
            && self.canopy <= self.nu5
    }
}

impl Default for ActivationHeights {
    /// Every upgrade active from height 1.
    fn default() -> (r: ActivationHeights)
        ensures
            r == (ActivationHeights {
                overwinter: 1,
                sapling: 1,
                blossom: 1,
                heartwood: 1,
                canopy: 1,
                nu5: 1,
            }),
    {
        ActivationHeights { overwinter: 1, sapling: 1, blossom: 1, heartwood: 1, canopy: 1, nu5: 1 }
    }
}

} // verus!
