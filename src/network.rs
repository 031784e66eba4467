use vstd::prelude::*;

verus! {

/// The chains a wallet export can target.
#[derive(Clone, Copy, Debug, PartialEq, Eq, Structural)]
pub enum Network {
    Main,
    Test,
}

/// Every way an import can fail; all of them are recoverable.
#[derive(Clone, Copy, Debug, PartialEq, Eq, Structural)]
pub enum ImportError {
    /// The export document or its derivation path is malformed.
    Parse,
    /// The chain tag is unknown, or the network is not allowed here.
    UnsupportedNetwork,
    /// The extended public key does not decode.
    KeyParse,
    /// The descriptors do not fit together or do not match the client's network.
    WalletConstruction,
    /// The chain-data source could not be reached or answered badly.
    Sync,
}

pub open spec fn tag_xtn() -> Seq<char> {
    seq!['X', 'T', 'N']
}

pub open spec fn tag_btc() -> Seq<char> {
    seq!['B', 'T', 'C']
}

/// The network that a chain tag names.
pub open spec fn network_of_tag(tag: Seq<char>) -> Result<Network, ImportError> {
    if tag == tag_xtn() {
        Ok(Network::Test)
    } else if tag == tag_btc() {
        Ok(Network::Main)
    } else {
        Err(ImportError::UnsupportedNetwork)
    }
}

/// Maps a chain tag of an export (`XTN`, `BTC`) to its network; any other tag
/// is refused.
pub fn resolve_network(tag: &str) -> (r: Result<Network, ImportError>)
    ensures
        r == network_of_tag(tag@),
{
    let t = tag.to_owned();
    let xtn = "XTN".to_owned();
    let btc = "BTC".to_owned();
    proof {
        reveal_strlit("XTN");
        reveal_strlit("BTC");
        assert(xtn@ =~= tag_xtn());
        assert(btc@ =~= tag_btc());
    }
    if t == xtn {
        Ok(Network::Test)
    } else if t == btc {
        Ok(Network::Main)
    } else {
        Err(ImportError::UnsupportedNetwork)
    }
}

} // verus!
