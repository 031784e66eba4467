use vstd::prelude::*;

use crate::descriptor::{Branch, OutputDescriptor};
use crate::export::ExportDocument;
use crate::network::{ImportError, Network};

verus! {

/// The total value of a sequence of outputs.
pub open spec fn total_of(values: Seq<u64>) -> int
    decreases values.len(),
{
    if values.len() == 0 {
        0
    } else {
        total_of(values.drop_last()) + values.last()
    }
}

/// Whether two descriptors are the receive and change descriptors of one
/// account, both on the given network.
pub open spec fn descriptors_fit(
    external: &OutputDescriptor,
    change: &OutputDescriptor,
    network: Network,
) -> bool {
    &&& external.network == network
    &&& change.network == network
    &&& external.branch == Branch::External
    &&& change.branch == Branch::Change
    &&& external.xpub@ == change.xpub@
    &&& external.account_path@ == change.account_path@
}

/// A live watch-only wallet: its two descriptors, fixed for its lifetime, and
/// the cached values of the outputs that they control.
#[derive(Clone, Debug)]
pub struct WalletSession {
    pub document: ExportDocument,
    pub external: OutputDescriptor,
    pub change: OutputDescriptor,
    pub network: Network,
    pub unspent: Vec<u64>,
    pub total: u64,
}

impl WalletSession {
    /// The descriptors fit the session's network and the cached total is the
    /// sum of the cached outputs.
    pub open spec fn wf(&self) -> bool {
        &&& descriptors_fit(&self.external, &self.change, self.network)
        &&& self.total as int == total_of(self.unspent@)
    }

    /// Opens a session with an empty cache over the two descriptors of an
    /// export, for a chain-data client on `network`.
    pub fn open(
        document: ExportDocument,
        external: OutputDescriptor,
        change: OutputDescriptor,
        network: Network,
    ) -> (r: Result<WalletSession, ImportError>)
        ensures
            descriptors_fit(&external, &change, network) <==> r is Ok,
            r is Err ==> r == Err::<WalletSession, ImportError>(ImportError::WalletConstruction),
            r matches Ok(s) ==> s.wf() && s.document == document && s.external == external
                && s.change == change && s.network == network && s.unspent@.len() == 0,
    {
        if external.network != network || change.network != network {
            return Err(ImportError::WalletConstruction);
        }
        match (external.branch, change.branch) {
            (Branch::External, Branch::Change) => {},
            _ => return Err(ImportError::WalletConstruction),
        }
        if !(external.xpub == change.xpub) || !same_steps(&external, &change) {
            return Err(ImportError::WalletConstruction);
        }
        let s = WalletSession { document, external, change, network, unspent: Vec::new(), total: 0 };
        proof {
            assert(s.unspent@.len() == 0);
        }
        Ok(s)
    }

    /// The value held by the cached outputs; reads the cache only.
    pub fn balance(&self) -> (r: u64)
        requires
            self.wf(),
        ensures
            r as int == total_of(self.unspent@),
    {
        self.total
    }

    /// Takes in what a sync fetched: on success the cache becomes the fetched
    /// outputs; on a failed fetch, or a total that no amount can hold, the cache
    /// is left as it was and `Sync` is returned.
    pub fn apply_sync(&mut self, fetched: Result<Vec<u64>, ImportError>) -> (r: Result<
        (),
        ImportError,
    >)
        requires
            old(self).wf(),
        ensures
            final(self).wf(),
            final(self).document == old(self).document,
            final(self).external == old(self).external,
            final(self).change == old(self).change,
            final(self).network == old(self).network,
            match fetched {
                Ok(v) => if total_of(v@) <= u64::MAX {
                    r is Ok && final(self).unspent@ == v@
                } else {
                    r == Err::<(), ImportError>(ImportError::Sync) && final(self).unspent@
                        == old(self).unspent@
                },
                Err(_) => r == Err::<(), ImportError>(ImportError::Sync) && final(self).unspent@
                    == old(self).unspent@,
            },
    {
        match fetched {
            Err(_) => Err(ImportError::Sync),
            Ok(v) => match sum_values(&v) {
                None => Err(ImportError::Sync),
                Some(t) => {
                    self.unspent = v;
                    self.total = t;
                    Ok(())
                },
            },
        }
    }
}

fn same_steps(a: &OutputDescriptor, b: &OutputDescriptor) -> (r: bool)
    ensures
        r == (a.account_path@ == b.account_path@),
{
    let n = a.account_path.len();
    if n != b.account_path.len() {
        return false;
    }
    let mut i: usize = 0;
    while i < n
        invariant
            n == a.account_path@.len() == b.account_path@.len(),
            i <= n,
            forall|k: int| 0 <= k < i ==> a.account_path@[k] == b.account_path@[k],
        decreases n - i,
    {
        if a.account_path[i] != b.account_path[i] {
            return false;
        }
        i = i + 1;
    }
    assert(a.account_path@ =~= b.account_path@);
    true
}

/// The total of the values, or `None` where it exceeds what a `u64` holds.
fn sum_values(v: &Vec<u64>) -> (r: Option<u64>)
    ensures
        match r {
            Some(t) => t as int == total_of(v@),
            None => total_of(v@) > u64::MAX,
        },
{
    let mut t: u64 = 0;
    let mut i: usize = 0;
    while i < v.len()
        invariant
            i <= v@.len(),
            t as int == total_of(v@.subrange(0, i as int)),
        decreases v@.len() - i,
    {
        assert(v@.subrange(0, i + 1).drop_last() =~= v@.subrange(0, i as int));
        match t.checked_add(v[i]) {
            None => {
                proof {
                    lemma_total_grows(v@, i as int + 1);
                }
                return None;
            },
            Some(s) => {
                t = s;
            },
        }
        i = i + 1;
    }
    assert(v@.subrange(0, i as int) =~= v@);
    Some(t)
}

proof fn lemma_total_grows(v: Seq<u64>, n: int)
    requires
        0 <= n <= v.len(),
    ensures
        total_of(v.subrange(0, n)) <= total_of(v),
    decreases v.len() - n,
{
    if n < v.len() {
        lemma_total_grows(v, n + 1);
        assert(v.subrange(0, n + 1).drop_last() =~= v.subrange(0, n));
    } else {
        assert(v.subrange(0, n) =~= v);
    }
}

} // verus!
