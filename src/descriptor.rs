use std::str::FromStr;

use bdk::bitcoin::util::bip32::ExtendedPubKey;
use vstd::prelude::*;
use vstd::string::StringExecFns;

use crate::export::{export_of, ChildStep, ColdcardJson, ExportDocument, ExportModel};
use crate::network::{ImportError, Network};

verus! {

/// The subtree of an account: receive addresses or change addresses.
#[derive(Clone, Copy, Debug, PartialEq, Eq, Structural)]
pub enum Branch {
    External,
    Change,
}

/// The child index of a branch under the account: 0 to receive, 1 for change.
pub open spec fn branch_index(b: Branch) -> u32 {
    match b {
        Branch::External => 0,
        Branch::Change => 1,
    }
}

/// Whether a string decodes as an extended public key.
pub uninterp spec fn xpub_is_valid(s: Seq<char>) -> bool;

/// Relies on `ExtendedPubKey::from_str` of the bitcoin crate, which decodes a
/// base58check extended public key; only whether it succeeds is used.
#[verifier::external_body]
fn check_xpub(s: &str) -> (r: bool)
    ensures
        r == xpub_is_valid(s@),
{
    ExtendedPubKey::from_str(s).is_ok()
}

/// What an output descriptor holds, over mathematical values.
pub struct DescriptorModel {
    pub xpub: Seq<char>,
    pub account_path: Seq<ChildStep>,
    pub branch: Branch,
    pub network: Network,
}

/// The full path of a descriptor's keys: the account path and the branch step.
pub open spec fn full_path(m: DescriptorModel) -> Seq<ChildStep> {
    m.account_path.push(ChildStep { index: branch_index(m.branch), hardened: false })
}

/// A watch-only native-segwit descriptor for one branch of an account.
#[derive(Clone, Debug)]
pub struct OutputDescriptor {
    pub xpub: String,
    pub account_path: Vec<ChildStep>,
    pub branch: Branch,
    pub network: Network,
}

impl View for OutputDescriptor {
    type V = DescriptorModel;

    open spec fn view(&self) -> DescriptorModel {
        DescriptorModel {
            xpub: self.xpub@,
            account_path: self.account_path@,
            branch: self.branch,
            network: self.network,
        }
    }
}

/// What derivation yields for an export and a branch: only test-network
/// exports with a decodable key are derived.
pub open spec fn derive_of(doc: ExportModel, branch: Branch) -> Result<
    DescriptorModel,
    ImportError,
> {
    if doc.network != Network::Test {
        Err(ImportError::UnsupportedNetwork)
    } else if !xpub_is_valid(doc.account_xpub) {
        Err(ImportError::KeyParse)
    } else {
        Ok(
            DescriptorModel {
                xpub: doc.account_xpub,
                account_path: doc.derivation_path,
                branch,
                network: doc.network,
            },
        )
    }
}

/// Derives the output descriptor of one branch of the export's account.
pub fn derive(export: &ExportDocument, branch: Branch) -> (r: Result<OutputDescriptor, ImportError>)
    ensures
        match r {
            Ok(d) => derive_of(export@, branch) == Ok::<DescriptorModel, ImportError>(d@),
            Err(e) => derive_of(export@, branch) == Err::<DescriptorModel, ImportError>(e),
        },
{
    if export.network != Network::Test {
        return Err(ImportError::UnsupportedNetwork);
    }
    if !check_xpub(export.account_xpub.as_str()) {
        return Err(ImportError::KeyParse);
    }
    let d = OutputDescriptor {
        xpub: export.account_xpub.clone(),
        account_path: copy_steps(&export.derivation_path),
        branch,
        network: export.network,
    };
    Ok(d)
}

fn copy_steps(v: &Vec<ChildStep>) -> (r: Vec<ChildStep>)
    ensures
        r@ == v@,
{
    let mut r: Vec<ChildStep> = Vec::new();
    let mut i: usize = 0;
    while i < v.len()
        invariant
            i <= v@.len(),
            r@ == v@.subrange(0, i as int),
        decreases v@.len() - i,
    {
        r.push(v[i]);
        i = i + 1;
        assert(r@ =~= v@.subrange(0, i as int));
    }
    assert(r@ =~= v@);
    r
}

/// The text of a descriptor: `wpkh(<xpub>/<branch>/*)`, every address index
/// under the branch step.
pub open spec fn descriptor_text_of(m: DescriptorModel) -> Seq<char> {
    seq!['w', 'p', 'k', 'h', '('] + m.xpub + seq![
        '/',
        if m.branch == Branch::External {
            '0'
        } else {
            '1'
        },
        '/',
        '*',
        ')',
    ]
}

impl OutputDescriptor {
    /// The full derivation path of the descriptor's keys.
    pub fn path(&self) -> (r: Vec<ChildStep>)
        ensures
            r@ == full_path(self@),
    {
        let mut r = copy_steps(&self.account_path);
        let index: u32 = match self.branch {
            Branch::External => 0,
            Branch::Change => 1,
        };
        r.push(ChildStep { index, hardened: false });
        r
    }

    /// The descriptor in the text form that wallet libraries read.
    pub fn to_text(&self) -> (r: String)
        ensures
            r@ == descriptor_text_of(self@),
    {
        let mut r = "wpkh(".to_owned();
        r.append(self.xpub.as_str());
        let tail = match self.branch {
            Branch::External => "/0/*)",
            Branch::Change => "/1/*)",
        };
        r.append(tail);
        proof {
            reveal_strlit("wpkh(");
            reveal_strlit("/0/*)");
            reveal_strlit("/1/*)");
            assert(r@ =~= descriptor_text_of(self@));
        }
        r
    }
}

/// On a test-network export whose key decodes, the receive and change
/// descriptors both succeed, both report the test network, and differ only in
/// the last step of their paths: 0 for receive, 1 for change.
pub proof fn receive_and_change_differ_only_in_branch(doc: ExportModel)
    requires
        doc.network == Network::Test,
        xpub_is_valid(doc.account_xpub),
    ensures
        derive_of(doc, Branch::External) is Ok,
        derive_of(doc, Branch::Change) is Ok,
        ({
            let e = derive_of(doc, Branch::External)->Ok_0;
            let c = derive_of(doc, Branch::Change)->Ok_0;
            &&& e.xpub == c.xpub
            &&& e.account_path == c.account_path
            &&& e.network == Network::Test && c.network == Network::Test
            &&& full_path(e).drop_last() == full_path(c).drop_last()
            &&& full_path(e).last() == ChildStep { index: 0, hardened: false }
            &&& full_path(c).last() == ChildStep { index: 1, hardened: false }
        }),
{
}

/// An export for any network but the test network is refused with
/// `UnsupportedNetwork`, whatever the branch, and yields no descriptor.
pub proof fn other_networks_are_refused(doc: ExportModel, branch: Branch)
    requires
        doc.network != Network::Test,
    ensures
        derive_of(doc, branch) == Err::<DescriptorModel, ImportError>(ImportError::UnsupportedNetwork),
{
}

/// Derivation is deterministic: equal exports and branches give equal outcomes.
pub proof fn derive_is_deterministic(a: ExportModel, b: ExportModel, branch: Branch)
    requires
        a == b,
    ensures
        derive_of(a, branch) == derive_of(b, branch),
{
}

/// Parsing an export and deriving its two descriptors twice gives the same
/// pair both times, and on success both descriptors come from that export.
pub proof fn rederiving_is_idempotent(j: &ColdcardJson)
    ensures
        (descriptor_of(j, false), descriptor_of(j, true)) == (
            descriptor_of(j, false),
            descriptor_of(j, true),
        ),
        descriptor_of(j, false) is Ok ==> export_of(j) is Ok && descriptor_of(j, false)->Ok_0.xpub
            == export_of(j)->Ok_0.account_xpub && descriptor_of(j, true)->Ok_0.account_path
            == export_of(j)->Ok_0.derivation_path,
{
}

/// What `build_descriptor` yields for a raw export.
pub open spec fn descriptor_of(j: &ColdcardJson, is_change: bool) -> Result<
    DescriptorModel,
    ImportError,
> {
    match export_of(j) {
        Err(e) => Err(e),
        Ok(doc) => derive_of(doc, if is_change { Branch::Change } else { Branch::External }),
    }
}

impl ColdcardJson {
    /// Validates the export and derives the descriptor of its change branch
    /// (`is_change`) or of its receive branch.
    pub fn build_descriptor(&self, is_change: bool) -> (r: Result<OutputDescriptor, ImportError>)
        ensures
            match r {
                Ok(d) => descriptor_of(self, is_change) == Ok::<DescriptorModel, ImportError>(d@),
                Err(e) => descriptor_of(self, is_change) == Err::<DescriptorModel, ImportError>(e),
            },
    {
        let doc = match self.to_export() {
            Ok(d) => d,
            Err(e) => return Err(e),
        };
        let branch = if is_change {
            Branch::Change
        } else {
            Branch::External
        };
        derive(&doc, branch)
    }
}

} // verus!
