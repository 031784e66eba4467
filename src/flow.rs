use vstd::prelude::*;

use crate::descriptor::{derive_of, Branch, DescriptorModel};
use crate::export::{ExportDocument, ExportModel};
use crate::network::{ImportError, Network};
use crate::session::WalletSession;

verus! {

/// Where the import stands: waiting for an export, asking the user to confirm
/// one, or holding the one active wallet.
#[derive(Clone, Debug)]
pub enum ImportFlowState {
    AwaitingExport,
    ConfirmingExport(ExportDocument),
    ActiveWallet(WalletSession),
}

/// What the user or a finished piece of outside work reports.
#[derive(Debug)]
pub enum ImportEvent {
    /// The user asks to pick an export.
    ExportRequested,
    /// The picked export was read and validated, or failed to be.
    ExportLoaded(Result<ExportDocument, ImportError>),
    /// The user accepts the export shown.
    ImportConfirmed,
    /// The user turns the export shown down.
    ImportCancelled,
    /// The user asks for a sync of the active wallet.
    SyncRequested,
    /// A sync ended with the fetched output values, or failed.
    SyncFinished(Result<Vec<u64>, ImportError>),
    /// The wallet library could not be set up over the session's descriptors.
    WalletUnavailable(ImportError),
}

/// What the caller has to do after a transition.
#[derive(Clone, Copy, Debug, PartialEq, Eq, Structural)]
pub enum Effect {
    Nothing,
    /// Let the user pick an export, then report `ExportLoaded`.
    SelectExport,
    /// Set up the wallet over the new session's descriptors and sync it.
    StartWallet,
    /// Sync the active wallet, then report `SyncFinished`.
    StartSync,
    /// Show the error to the user.
    Report(ImportError),
    /// The event does not apply to the current state; it was ignored.
    Rejected,
}

/// A transition's next state and the effect the caller owes.
pub struct Transition {
    pub state: ImportFlowState,
    pub effect: Effect,
}

impl ImportFlowState {
    /// An active wallet's session is well formed.
    pub open spec fn wf(&self) -> bool {
        match self {
            ImportFlowState::ActiveWallet(s) => s.wf(),
            _ => true,
        }
    }
}

/// The receive and change descriptors that confirming an export yields, for a
/// chain-data client on `network`.
pub open spec fn confirm_outcome(doc: ExportModel, network: Network) -> Result<
    (DescriptorModel, DescriptorModel),
    ImportError,
> {
    match derive_of(doc, Branch::External) {
        Err(e) => Err(e),
        Ok(x) => match derive_of(doc, Branch::Change) {
            Err(e) => Err(e),
            Ok(c) => if x.network == network {
                Ok((x, c))
            } else {
                Err(ImportError::WalletConstruction)
            },
        },
    }
}

/// Applies one event to the import flow. Events that do not apply to the
/// current state leave it as it is and are reported as `Rejected`.
pub fn transition(state: ImportFlowState, event: ImportEvent, network: Network) -> (r: Transition)
    requires
        state.wf(),
    ensures
        r.state.wf(),
        match state {
            ImportFlowState::AwaitingExport => match event {
                ImportEvent::ExportRequested => r.state is AwaitingExport && r.effect
                    == Effect::SelectExport,
                ImportEvent::ExportLoaded(Ok(d)) => r.state == ImportFlowState::ConfirmingExport(d)
                    && r.effect == Effect::Nothing,
                ImportEvent::ExportLoaded(Err(e)) => r.state is AwaitingExport && r.effect
                    == Effect::Report(e),
                _ => r.state is AwaitingExport && r.effect == Effect::Rejected,
            },
            ImportFlowState::ConfirmingExport(d) => match event {
                ImportEvent::ImportCancelled => r.state is AwaitingExport && r.effect
                    == Effect::Nothing,
                ImportEvent::ImportConfirmed => match confirm_outcome(d@, network) {
                    Ok((x, c)) => r.effect == Effect::StartWallet && (r.state matches ImportFlowState::ActiveWallet(s)
                        && s.document == d && s.external@ == x && s.change@ == c && s.network
                        == network && s.unspent@.len() == 0),
                    Err(e) => r.state == ImportFlowState::ConfirmingExport(d) && r.effect
                        == Effect::Report(e),
                },
                _ => r.state == ImportFlowState::ConfirmingExport(d) && r.effect == Effect::Rejected,
            },
            ImportFlowState::ActiveWallet(s) => match event {
                ImportEvent::SyncRequested => r.state == ImportFlowState::ActiveWallet(s)
                    && r.effect == Effect::StartSync,
                ImportEvent::SyncFinished(f) => r.state matches ImportFlowState::ActiveWallet(t)
                    && t.document == s.document && t.external == s.external && t.change
                    == s.change && t.network == s.network && (match f {
                    Ok(v) => if crate::session::total_of(v@) <= u64::MAX {
                        t.unspent@ == v@ && r.effect == Effect::Nothing
                    } else {
                        t.unspent@ == s.unspent@ && r.effect == Effect::Report(ImportError::Sync)
                    },
                    Err(_) => t.unspent@ == s.unspent@ && r.effect == Effect::Report(
                        ImportError::Sync,
                    ),
                }),
                ImportEvent::WalletUnavailable(e) => r.state == ImportFlowState::ConfirmingExport(
                    s.document,
                ) && r.effect == Effect::Report(e),
                _ => r.state == ImportFlowState::ActiveWallet(s) && r.effect == Effect::Rejected,
            },
        },
{
    match state {
        ImportFlowState::AwaitingExport => match event {
            ImportEvent::ExportRequested => Transition {
                state: ImportFlowState::AwaitingExport,
                effect: Effect::SelectExport,
            },
            ImportEvent::ExportLoaded(Ok(d)) => Transition {
                state: ImportFlowState::ConfirmingExport(d),
                effect: Effect::Nothing,
            },
            ImportEvent::ExportLoaded(Err(e)) => Transition {
                state: ImportFlowState::AwaitingExport,
                effect: Effect::Report(e),
            },
            _ => Transition { state: ImportFlowState::AwaitingExport, effect: Effect::Rejected },
        },
        ImportFlowState::ConfirmingExport(d) => match event {
            ImportEvent::ImportCancelled => Transition {
                state: ImportFlowState::AwaitingExport,
                effect: Effect::Nothing,
            },
            ImportEvent::ImportConfirmed => confirm(d, network),
            _ => Transition { state: ImportFlowState::ConfirmingExport(d), effect: Effect::Rejected },
        },
        ImportFlowState::ActiveWallet(s) => match event {
            ImportEvent::SyncRequested => Transition {
                state: ImportFlowState::ActiveWallet(s),
                effect: Effect::StartSync,
            },
            ImportEvent::SyncFinished(f) => {
                let mut t = s;
                let effect = match t.apply_sync(f) {
                    Ok(()) => Effect::Nothing,
                    Err(e) => Effect::Report(e),
                };
                Transition { state: ImportFlowState::ActiveWallet(t), effect }
            },
            ImportEvent::WalletUnavailable(e) => Transition {
                state: ImportFlowState::ConfirmingExport(s.document),
                effect: Effect::Report(e),
            },
            _ => Transition { state: ImportFlowState::ActiveWallet(s), effect: Effect::Rejected },
        },
    }
}

/// Derives both descriptors of the export and opens a session over them.
fn confirm(d: ExportDocument, network: Network) -> (r: Transition)
    ensures
        r.state.wf(),
        match confirm_outcome(d@, network) {
            Ok((x, c)) => r.effect == Effect::StartWallet && (r.state matches ImportFlowState::ActiveWallet(s)
                && s.document == d && s.external@ == x && s.change@ == c && s.network == network
                && s.unspent@.len() == 0),
            Err(e) => r.state == ImportFlowState::ConfirmingExport(d) && r.effect == Effect::Report(
                e,
            ),
        },
{
    let external = match crate::descriptor::derive(&d, Branch::External) {
        Ok(x) => x,
        Err(e) => return Transition {
            state: ImportFlowState::ConfirmingExport(d),
            effect: Effect::Report(e),
        },
    };
    let change = match crate::descriptor::derive(&d, Branch::Change) {
        Ok(c) => c,
        Err(e) => return Transition {
            state: ImportFlowState::ConfirmingExport(d),
            effect: Effect::Report(e),
        },
    };
    if external.network != network {
        return Transition {
            state: ImportFlowState::ConfirmingExport(d),
            effect: Effect::Report(ImportError::WalletConstruction),
        };
    }
    match WalletSession::open(d, external, change, network) {
        Ok(s) => Transition { state: ImportFlowState::ActiveWallet(s), effect: Effect::StartWallet },
        Err(e) => {
            proof {
                assert(false);
            }
            Transition { state: ImportFlowState::AwaitingExport, effect: Effect::Report(e) }
        },
    }
}

} // verus!
