use vstd::prelude::*;

verus! {

/// The three public networks an IDL record can be fetched from.
pub enum Cluster {
    Devnet,
    Testnet,
    Mainnet,
}

/// The fixed HTTPS endpoint each cluster maps to.
pub open spec fn spec_cluster_url(c: Cluster) -> Seq<char> {
    match c {
        Cluster::Devnet => "https://api.devnet.solana.com"@,
        Cluster::Testnet => "https://api.testnet.solana.com"@,
        Cluster::Mainnet => "https://api.mainnet-beta.solana.com"@,
    }
}

impl Cluster {
    /// The RPC endpoint URL for this cluster.
    pub fn url(&self) -> (r: String)
        ensures
            r@ == spec_cluster_url(*self),
    {
        match self {
            Cluster::Devnet => "https://api.devnet.solana.com".to_owned(),
            Cluster::Testnet => "https://api.testnet.solana.com".to_owned(),
            Cluster::Mainnet => "https://api.mainnet-beta.solana.com".to_owned(),
        }
    }
}

} // verus!
