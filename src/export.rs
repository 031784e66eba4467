use std::str::FromStr;

use bdk::bitcoin::util::bip32::{ChildNumber, DerivationPath};
use vstd::prelude::*;

use crate::network::{network_of_tag, resolve_network, ImportError, Network};

verus! {

/// One step of a derivation path: a child index below 2^31, hardened or not.
#[derive(Clone, Copy, Debug, PartialEq, Eq, Structural)]
pub struct ChildStep {
    pub index: u32,
    pub hardened: bool,
}

/// The steps that a derivation path string such as `m/84'/1'/0'` denotes, or
/// `None` where the string is not such a path.
pub uninterp spec fn path_of(s: Seq<char>) -> Option<Seq<ChildStep>>;

/// Relies on `DerivationPath::from_str` of the bitcoin crate: it accepts `m`
/// followed by `/`-separated child numbers, each marked hardened by a final
/// `'` or `h`, and refuses any index of 2^31 or more.
#[verifier::external_body]
fn parse_path(s: &str) -> (r: Option<Vec<ChildStep>>)
    ensures
        match r {
            Some(v) => path_of(s@) == Some(v@) && forall|i: int|
                0 <= i < v@.len() ==> #[trigger] v@[i].index < 0x8000_0000u32,
            None => path_of(s@) is None,
        },
{
    DerivationPath::from_str(s).ok().map(
        |p| p.as_ref().iter().map(|c| match *c {
            ChildNumber::Normal { index } => ChildStep { index, hardened: false },
            ChildNumber::Hardened { index } => ChildStep { index, hardened: true },
        }).collect(),
    )
}

/// The native-segwit account record of a signing-device export.
#[derive(Clone, Debug)]
pub struct Bip84Json {
    pub _pub: String,
    pub deriv: String,
    pub first: String,
    pub name: String,
    pub xfp: String,
    pub xpub: String,
}

/// A signing-device export as read from its document, not yet validated.
#[derive(Clone, Debug)]
pub struct ColdcardJson {
    pub chain: String,
    pub xfp: String,
    pub xpub: String,
    pub account: u64,
    pub bip84: Bip84Json,
}

/// What a validated export holds, over mathematical values.
pub struct ExportModel {
    pub network: Network,
    pub master_fingerprint: Seq<char>,
    pub account_xpub: Seq<char>,
    pub derivation_path: Seq<ChildStep>,
    pub first_address: Seq<char>,
}

/// A validated export: its network is known and its path is well formed.
#[derive(Clone, Debug)]
pub struct ExportDocument {
    pub network: Network,
    pub master_fingerprint: String,
    pub account_xpub: String,
    pub derivation_path: Vec<ChildStep>,
    pub first_address: String,
}

impl View for ExportDocument {
    type V = ExportModel;

    open spec fn view(&self) -> ExportModel {
        ExportModel {
            network: self.network,
            master_fingerprint: self.master_fingerprint@,
            account_xpub: self.account_xpub@,
            derivation_path: self.derivation_path@,
            first_address: self.first_address@,
        }
    }
}

impl ExportDocument {
    /// Every step of the path has an index below 2^31.
    pub open spec fn wf(&self) -> bool {
        forall|i: int|
            0 <= i < self.derivation_path@.len() ==> #[trigger] self.derivation_path@[i].index
                < 0x8000_0000u32
    }
}

/// The validated export that a raw export yields: the chain tag must name a
/// network and the derivation path must parse.
pub open spec fn export_of(j: &ColdcardJson) -> Result<ExportModel, ImportError> {
    match network_of_tag(j.chain@) {
        Err(e) => Err(e),
        Ok(network) => match path_of(j.bip84.deriv@) {
            None => Err(ImportError::Parse),
            Some(path) => Ok(
                ExportModel {
                    network,
                    master_fingerprint: j.xfp@,
                    account_xpub: j.bip84.xpub@,
                    derivation_path: path,
                    first_address: j.bip84.first@,
                },
            ),
        },
    }
}

impl ColdcardJson {
    /// The network that the export's chain tag names.
    pub fn get_network(&self) -> (r: Result<Network, ImportError>)
        ensures
            r == network_of_tag(self.chain@),
    {
        resolve_network(self.chain.as_str())
    }

    /// Validates the export: resolves its network and parses its path.
    pub fn to_export(&self) -> (r: Result<ExportDocument, ImportError>)
        ensures
            match r {
                Ok(d) => export_of(self) == Ok::<ExportModel, ImportError>(d@) && d.wf(),
                Err(e) => export_of(self) == Err::<ExportModel, ImportError>(e),
            },
    {
        let network = match self.get_network() {
            Ok(n) => n,
            Err(e) => return Err(e),
        };
        let derivation_path = match parse_path(self.bip84.deriv.as_str()) {
            Some(p) => p,
            None => return Err(ImportError::Parse),
        };
        let doc = ExportDocument {
            network,
            master_fingerprint: self.xfp.clone(),
            account_xpub: self.bip84.xpub.clone(),
            derivation_path,
            first_address: self.bip84.first.clone(),
        };
        Ok(doc)
    }
}

} // verus!
