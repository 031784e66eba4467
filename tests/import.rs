use coldcard_import::descriptor::{Branch, OutputDescriptor};
use coldcard_import::export::{Bip84Json, ChildStep, ColdcardJson, ExportDocument};
use coldcard_import::flow::{transition, Effect, ImportEvent, ImportFlowState};
use coldcard_import::network::{resolve_network, ImportError, Network};
use coldcard_import::session::WalletSession;

const TPUB: &str = "tpubDDYkZojQFQjht8Tm4jsS3iuEmKjTiEGjG6KnuFNKKJb5A6ZUCUZKdvLdSDWofKi4ToRCwb9poe1XdqfUnP4jaJjCB2Zwv11ZLgSbnZSNecE";

fn export(chain: &str, deriv: &str, xpub: &str) -> ColdcardJson {
    ColdcardJson {
        chain: chain.to_string(),
        xfp: "0F056943".to_string(),
        xpub: xpub.to_string(),
        account: 0,
        bip84: Bip84Json {
            _pub: String::new(),
            deriv: deriv.to_string(),
            first: "tb1qfirst".to_string(),
            name: "p2wpkh".to_string(),
            xfp: "0F056943".to_string(),
            xpub: xpub.to_string(),
        },
    }
}

fn hardened(index: u32) -> ChildStep {
    ChildStep { index, hardened: true }
}

fn normal(index: u32) -> ChildStep {
    ChildStep { index, hardened: false }
}

fn test_document() -> ExportDocument {
    export("XTN", "m/84'/1'/0'", TPUB).to_export().unwrap()
}

#[test]
fn resolve_network_known_tags() {
    assert_eq!(resolve_network("XTN"), Ok(Network::Test));
    assert_eq!(resolve_network("BTC"), Ok(Network::Main));
}

#[test]
fn resolve_network_unknown_tag() {
    assert_eq!(resolve_network("anything-else"), Err(ImportError::UnsupportedNetwork));
    assert_eq!(resolve_network(""), Err(ImportError::UnsupportedNetwork));
    assert_eq!(resolve_network("xtn"), Err(ImportError::UnsupportedNetwork));
}

#[test]
fn get_network_of_export() {
    assert_eq!(export("BTC", "m/84'/0'/0'", TPUB).get_network(), Ok(Network::Main));
    assert_eq!(export("XRT", "m/84'/1'/0'", TPUB).get_network(), Err(ImportError::UnsupportedNetwork));
}

#[test]
fn to_export_parses_path() {
    let doc = test_document();
    assert_eq!(doc.network, Network::Test);
    assert_eq!(doc.derivation_path, vec![hardened(84), hardened(1), hardened(0)]);
    assert_eq!(doc.master_fingerprint, "0F056943");
    assert_eq!(doc.account_xpub, TPUB);
    assert_eq!(doc.first_address, "tb1qfirst");
}

#[test]
fn to_export_accepts_h_and_normal_steps() {
    let doc = export("XTN", "m/84h/1h/0h/7", TPUB).to_export().unwrap();
    assert_eq!(doc.derivation_path, vec![hardened(84), hardened(1), hardened(0), normal(7)]);
    let bare = export("XTN", "m", TPUB).to_export().unwrap();
    assert!(bare.derivation_path.is_empty());
}

#[test]
fn to_export_refuses_malformed_path() {
    for bad in ["84'/1'/0'", "m/84'/x/0'", "m/2147483648", "", "m//1"] {
        assert_eq!(export("XTN", bad, TPUB).to_export().err(), Some(ImportError::Parse), "{}", bad);
    }
}

#[test]
fn to_export_refuses_unknown_chain() {
    assert_eq!(export("LTC", "m/84'/1'/0'", TPUB).to_export().err(), Some(ImportError::UnsupportedNetwork));
}

#[test]
fn derive_testnet_paths() {
    let external = export("XTN", "m/84'/1'/0'", TPUB).build_descriptor(false).unwrap();
    let change = export("XTN", "m/84'/1'/0'", TPUB).build_descriptor(true).unwrap();
    assert_eq!(external.path(), vec![hardened(84), hardened(1), hardened(0), normal(0)]);
    assert_eq!(change.path(), vec![hardened(84), hardened(1), hardened(0), normal(1)]);
    assert_eq!(external.network, Network::Test);
    assert_eq!(change.network, Network::Test);
}

#[test]
fn derive_mainnet_refused() {
    let doc = export("BTC", "m/84'/1'/0'", TPUB);
    assert_eq!(doc.build_descriptor(false).err(), Some(ImportError::UnsupportedNetwork));
    assert_eq!(doc.build_descriptor(true).err(), Some(ImportError::UnsupportedNetwork));
    let validated = doc.to_export().unwrap();
    assert_eq!(coldcard_import::descriptor::derive(&validated, Branch::External).err(), Some(ImportError::UnsupportedNetwork));
}

#[test]
fn derive_refuses_malformed_key() {
    let doc = export("XTN", "m/84'/1'/0'", "tpubNOTAKEY").to_export().unwrap();
    assert_eq!(coldcard_import::descriptor::derive(&doc, Branch::Change).err(), Some(ImportError::KeyParse));
    let mut broken = TPUB.to_string();
    broken.pop();
    broken.push('F');
    assert_eq!(export("XTN", "m/84'/1'/0'", &broken).build_descriptor(false).err(), Some(ImportError::KeyParse));
}

#[test]
fn receive_and_change_differ_only_in_branch() {
    let doc = test_document();
    let e = coldcard_import::descriptor::derive(&doc, Branch::External).unwrap();
    let c = coldcard_import::descriptor::derive(&doc, Branch::Change).unwrap();
    assert_eq!(e.xpub, c.xpub);
    assert_eq!(e.account_path, c.account_path);
    assert_eq!(e.network, c.network);
    assert_eq!(e.branch, Branch::External);
    assert_eq!(c.branch, Branch::Change);
}

#[test]
fn derive_is_deterministic_on_values() {
    let doc = test_document();
    let a = coldcard_import::descriptor::derive(&doc, Branch::External).unwrap();
    let b = coldcard_import::descriptor::derive(&doc, Branch::External).unwrap();
    assert_eq!(a.to_text(), b.to_text());
    assert_eq!(a.path(), b.path());
}

#[test]
fn rederiving_gives_same_pair() {
    let json = export("XTN", "m/84'/1'/0'", TPUB);
    let first = (json.build_descriptor(false).unwrap(), json.build_descriptor(true).unwrap());
    let second = (json.build_descriptor(false).unwrap(), json.build_descriptor(true).unwrap());
    assert_eq!(first.0.to_text(), second.0.to_text());
    assert_eq!(first.1.to_text(), second.1.to_text());
    assert_eq!(first.0.path(), second.0.path());
    assert_eq!(first.1.path(), second.1.path());
}

#[test]
fn descriptor_text_names_branch() {
    let doc = test_document();
    let e: OutputDescriptor = coldcard_import::descriptor::derive(&doc, Branch::External).unwrap();
    let c = coldcard_import::descriptor::derive(&doc, Branch::Change).unwrap();
    assert_eq!(e.to_text(), format!("wpkh({}/0/*)", TPUB));
    assert_eq!(c.to_text(), format!("wpkh({}/1/*)", TPUB));
}

fn open_session() -> WalletSession {
    let doc = test_document();
    let e = coldcard_import::descriptor::derive(&doc, Branch::External).unwrap();
    let c = coldcard_import::descriptor::derive(&doc, Branch::Change).unwrap();
    WalletSession::open(doc, e, c, Network::Test).unwrap()
}

#[test]
fn fresh_session_balance_is_zero() {
    let s = open_session();
    assert_eq!(s.balance(), 0);
    assert!(s.unspent.is_empty());
}

#[test]
fn open_refuses_mismatched_descriptors() {
    let doc = test_document();
    let e = coldcard_import::descriptor::derive(&doc, Branch::External).unwrap();
    let c = coldcard_import::descriptor::derive(&doc, Branch::Change).unwrap();
    assert_eq!(WalletSession::open(doc.clone(), e.clone(), c.clone(), Network::Main).err().map(|_| ()), Some(()));
    assert!(matches!(WalletSession::open(doc.clone(), c.clone(), e.clone(), Network::Test), Err(ImportError::WalletConstruction)));
    let mut other = c.clone();
    other.account_path.push(normal(5));
    assert!(matches!(WalletSession::open(doc, e, other, Network::Test), Err(ImportError::WalletConstruction)));
}

#[test]
fn sync_updates_balance() {
    let mut s = open_session();
    assert_eq!(s.apply_sync(Ok(vec![1000, 2500, 7])), Ok(()));
    assert_eq!(s.balance(), 3507);
    assert_eq!(s.apply_sync(Err(ImportError::Sync)), Err(ImportError::Sync));
    assert_eq!(s.balance(), 3507);
    assert_eq!(s.apply_sync(Ok(vec![u64::MAX, 1])), Err(ImportError::Sync));
    assert_eq!(s.balance(), 3507);
    assert_eq!(s.unspent, vec![1000, 2500, 7]);
    assert_eq!(s.apply_sync(Ok(vec![])), Ok(()));
    assert_eq!(s.balance(), 0);
}

#[test]
fn flow_requests_export() {
    let t = transition(ImportFlowState::AwaitingExport, ImportEvent::ExportRequested, Network::Test);
    assert!(matches!(t.state, ImportFlowState::AwaitingExport));
    assert_eq!(t.effect, Effect::SelectExport);
}

#[test]
fn flow_failed_load_keeps_waiting() {
    let t = transition(ImportFlowState::AwaitingExport, ImportEvent::ExportLoaded(Err(ImportError::Parse)), Network::Test);
    assert!(matches!(t.state, ImportFlowState::AwaitingExport));
    assert_eq!(t.effect, Effect::Report(ImportError::Parse));
}

#[test]
fn flow_cancel_discards_export() {
    let bad = export("BTC", "m/1", "junk").to_export().unwrap();
    for doc in [test_document(), bad] {
        let t = transition(ImportFlowState::ConfirmingExport(doc), ImportEvent::ImportCancelled, Network::Test);
        assert!(matches!(t.state, ImportFlowState::AwaitingExport));
        assert_eq!(t.effect, Effect::Nothing);
    }
}

#[test]
fn flow_full_import() {
    let t = transition(ImportFlowState::AwaitingExport, ImportEvent::ExportLoaded(Ok(test_document())), Network::Test);
    assert!(matches!(t.state, ImportFlowState::ConfirmingExport(_)));
    let t = transition(t.state, ImportEvent::ImportConfirmed, Network::Test);
    assert_eq!(t.effect, Effect::StartWallet);
    let t = transition(t.state, ImportEvent::SyncFinished(Ok(vec![40, 2])), Network::Test);
    assert_eq!(t.effect, Effect::Nothing);
    match &t.state {
        ImportFlowState::ActiveWallet(s) => {
            assert_eq!(s.balance(), 42);
            assert_eq!(s.external.path(), vec![hardened(84), hardened(1), hardened(0), normal(0)]);
        }
        _ => panic!("expected an active wallet"),
    }
    let t = transition(t.state, ImportEvent::SyncRequested, Network::Test);
    assert_eq!(t.effect, Effect::StartSync);
    let t = transition(t.state, ImportEvent::SyncFinished(Err(ImportError::Sync)), Network::Test);
    assert_eq!(t.effect, Effect::Report(ImportError::Sync));
    match &t.state {
        ImportFlowState::ActiveWallet(s) => assert_eq!(s.balance(), 42),
        _ => panic!("expected an active wallet"),
    }
}

#[test]
fn flow_confirm_failure_keeps_export() {
    let main = export("BTC", "m/84'/0'/0'", TPUB).to_export().unwrap();
    let t = transition(ImportFlowState::ConfirmingExport(main), ImportEvent::ImportConfirmed, Network::Test);
    assert!(matches!(t.state, ImportFlowState::ConfirmingExport(_)));
    assert_eq!(t.effect, Effect::Report(ImportError::UnsupportedNetwork));
    let t = transition(ImportFlowState::ConfirmingExport(test_document()), ImportEvent::ImportConfirmed, Network::Main);
    assert!(matches!(t.state, ImportFlowState::ConfirmingExport(_)));
    assert_eq!(t.effect, Effect::Report(ImportError::WalletConstruction));
}

#[test]
fn flow_wallet_unavailable_returns_to_confirm() {
    let t = transition(ImportFlowState::ConfirmingExport(test_document()), ImportEvent::ImportConfirmed, Network::Test);
    let t = transition(t.state, ImportEvent::WalletUnavailable(ImportError::WalletConstruction), Network::Test);
    assert_eq!(t.effect, Effect::Report(ImportError::WalletConstruction));
    match t.state {
        ImportFlowState::ConfirmingExport(d) => assert_eq!(d.account_xpub, TPUB),
        _ => panic!("expected the export back"),
    }
}

#[test]
fn flow_illegal_events_are_rejected() {
    let t = transition(ImportFlowState::AwaitingExport, ImportEvent::SyncRequested, Network::Test);
    assert!(matches!(t.state, ImportFlowState::AwaitingExport));
    assert_eq!(t.effect, Effect::Rejected);
    let t = transition(ImportFlowState::ConfirmingExport(test_document()), ImportEvent::ExportRequested, Network::Test);
    assert!(matches!(t.state, ImportFlowState::ConfirmingExport(_)));
    assert_eq!(t.effect, Effect::Rejected);
    let t = transition(ImportFlowState::ActiveWallet(open_session()), ImportEvent::ImportCancelled, Network::Test);
    assert!(matches!(t.state, ImportFlowState::ActiveWallet(_)));
    assert_eq!(t.effect, Effect::Rejected);
}
