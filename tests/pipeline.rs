use frost_byte::pipeline::{wallet_listed, Outcome, SetupError, Stage};
use frost_byte::registry::{Clients, Slot};
use frost_byte::WalletMessage;

fn connected() -> Clients<u32> {
    let mut reg: Clients<u32> = Clients::new();
    assert_eq!(Stage::EstablishConnection.prepare(&reg), Ok(()));
    let r = Stage::EstablishConnection.finish(&mut reg, Outcome::Connected(1, 2));
    assert_eq!(r, Ok(()));
    reg
}

#[test]
fn establish_then_derive_echo_twice() {
    let mut reg = connected();
    assert_eq!(reg.connection, Some(1));
    assert_eq!(reg.context, Some(2));

    assert_eq!(Stage::DeriveEcho.prepare(&reg), Ok(()));
    assert_eq!(Stage::DeriveEcho.finish(&mut reg, Outcome::Derived(10)), Ok(()));
    assert_eq!(reg.echo, Some(10));

    // a second derivation submitted before the first one is awaited
    assert_eq!(Stage::DeriveEcho.prepare(&reg), Ok(()));
    assert_eq!(Stage::DeriveEcho.prepare(&reg), Ok(()));
    assert_eq!(Stage::DeriveEcho.finish(&mut reg, Outcome::Derived(11)), Ok(()));
    assert_eq!(Stage::DeriveEcho.finish(&mut reg, Outcome::Derived(12)), Ok(()));
    assert_eq!(reg.echo, Some(12));
    assert_eq!(reg.connection, Some(1));
    assert_eq!(reg.context, Some(2));
}

#[test]
fn derive_node_without_context_is_not_ready() {
    let reg: Clients<u32> = Clients::new();
    assert_eq!(
        Stage::DeriveNode.prepare(&reg),
        Err(SetupError::DependencyNotReady(Slot::Connection))
    );
    assert_eq!(reg.node, None);
    assert_eq!(reg.context, None);

    let mut only_connection: Clients<u32> = Clients::new();
    only_connection.write(Slot::Connection, 5);
    assert_eq!(
        Stage::DeriveNode.prepare(&only_connection),
        Err(SetupError::DependencyNotReady(Slot::Context))
    );
    assert_eq!(only_connection.connection, Some(5));
    assert_eq!(only_connection.node, None);
}

#[test]
fn create_wallet_confirmed_by_listing() {
    let mut reg = connected();
    assert_eq!(Stage::DeriveNode.finish(&mut reg, Outcome::Derived(3)), Ok(()));
    assert_eq!(Stage::DeriveWalletLoader.prepare(&reg), Ok(()));
    assert_eq!(Stage::DeriveWalletLoader.finish(&mut reg, Outcome::Derived(4)), Ok(()));
    let stage = Stage::CreateWallet("name".to_string());
    assert_eq!(stage.prepare(&reg), Ok(()));
    let names = vec!["other".to_string(), "name".to_string()];
    assert_eq!(stage.finish(&mut reg, Outcome::Listed(names)), Ok(()));
    assert_eq!(reg.wallet_loader, Some(4));
}

#[test]
fn create_wallet_not_listed_fails() {
    let mut reg = connected();
    reg.write(Slot::WalletLoader, 4);
    let stage = Stage::CreateWallet("name".to_string());
    let names = vec!["other".to_string()];
    assert_eq!(
        stage.finish(&mut reg, Outcome::Listed(names)),
        Err(SetupError::RemoteOperationError)
    );
    assert_eq!(
        stage.finish(&mut reg, Outcome::Listed(Vec::new())),
        Err(SetupError::RemoteOperationError)
    );
}

#[test]
fn create_wallet_before_loader_is_not_ready() {
    let reg = connected();
    assert_eq!(
        Stage::CreateWallet("w".to_string()).prepare(&reg),
        Err(SetupError::DependencyNotReady(Slot::WalletLoader))
    );
}

#[test]
fn wallet_loader_needs_node() {
    let reg = connected();
    assert_eq!(
        Stage::DeriveWalletLoader.prepare(&reg),
        Err(SetupError::DependencyNotReady(Slot::Node))
    );
}

#[test]
fn send_echo_needs_echo() {
    let mut reg = connected();
    assert_eq!(
        Stage::SendEcho.prepare(&reg),
        Err(SetupError::DependencyNotReady(Slot::Echo))
    );
    reg.write(Slot::Echo, 9);
    assert_eq!(Stage::SendEcho.prepare(&reg), Ok(()));
    assert_eq!(Stage::SendEcho.finish(&mut reg, Outcome::Done), Ok(()));
    assert_eq!(reg.echo, Some(9));
}

#[test]
fn independent_echo_and_chain() {
    let mut one = connected();
    let mut two = connected();
    assert_eq!(Stage::DeriveEcho.prepare(&one), Ok(()));
    assert_eq!(Stage::DeriveChain.prepare(&one), Ok(()));
    assert_eq!(Stage::DeriveEcho.finish(&mut one, Outcome::Derived(7)), Ok(()));
    assert_eq!(Stage::DeriveChain.finish(&mut one, Outcome::Derived(8)), Ok(()));
    assert_eq!(Stage::DeriveChain.finish(&mut two, Outcome::Derived(8)), Ok(()));
    assert_eq!(Stage::DeriveEcho.finish(&mut two, Outcome::Derived(7)), Ok(()));
    for reg in [&one, &two] {
        assert_eq!(reg.echo, Some(7));
        assert_eq!(reg.chain, Some(8));
        assert_eq!(reg.node, None);
        assert_eq!(reg.wallet_loader, None);
        assert_eq!(reg.connection, Some(1));
        assert_eq!(reg.context, Some(2));
    }
}

#[test]
fn failed_connection_is_connection_error() {
    let mut reg: Clients<u32> = Clients::new();
    assert_eq!(
        Stage::EstablishConnection.finish(&mut reg, Outcome::Failed),
        Err(SetupError::ConnectionError)
    );
    assert_eq!(reg.connection, None);
    assert_eq!(reg.context, None);
}

#[test]
fn failed_derivation_keeps_registry() {
    let mut reg = connected();
    reg.write(Slot::Node, 3);
    assert_eq!(
        Stage::DeriveNode.finish(&mut reg, Outcome::Failed),
        Err(SetupError::RemoteOperationError)
    );
    assert_eq!(reg.node, Some(3));
    assert_eq!(
        Stage::SendEcho.finish(&mut reg, Outcome::Failed),
        Err(SetupError::RemoteOperationError)
    );
}

#[test]
fn reconnect_overwrites() {
    let mut reg = connected();
    assert_eq!(Stage::EstablishConnection.finish(&mut reg, Outcome::Connected(20, 21)), Ok(()));
    assert_eq!(reg.connection, Some(20));
    assert_eq!(reg.context, Some(21));
}

#[test]
fn accepts_matches_stage_shape() {
    assert!(Stage::EstablishConnection.accepts(&Outcome::Connected(1u32, 2)));
    assert!(!Stage::DeriveEcho.accepts(&Outcome::Connected(1u32, 2)));
    assert!(Stage::DeriveWalletLoader.accepts(&Outcome::Derived(1u32)));
    assert!(!Stage::SendEcho.accepts(&Outcome::Derived(1u32)));
    assert!(Stage::SendEcho.accepts(&Outcome::<u32>::Done));
    assert!(Stage::CreateWallet("a".to_string()).accepts(&Outcome::<u32>::Listed(vec![])));
    assert!(!Stage::DeriveNode.accepts(&Outcome::<u32>::Listed(vec![])));
    assert!(Stage::DeriveNode.accepts(&Outcome::<u32>::Failed));
}

#[test]
fn dependencies_in_order() {
    assert_eq!(Stage::EstablishConnection.dependencies(), Vec::<Slot>::new());
    assert_eq!(Stage::DeriveChain.dependencies(), vec![Slot::Connection, Slot::Context]);
    assert_eq!(Stage::DeriveWalletLoader.dependencies(), vec![Slot::Node, Slot::Context]);
    assert_eq!(
        Stage::CreateWallet("x".to_string()).dependencies(),
        vec![Slot::WalletLoader, Slot::Context]
    );
}

#[test]
fn wallet_listed_finds_exact_name() {
    let names = vec!["alpha".to_string(), "beta".to_string()];
    assert!(wallet_listed(&names, &"beta".to_string()));
    assert!(!wallet_listed(&names, &"bet".to_string()));
    assert!(!wallet_listed(&Vec::new(), &"beta".to_string()));
}

#[test]
fn registry_read_and_write() {
    let mut reg: Clients<&str> = Clients::new();
    assert!(!reg.holds(Slot::Chain));
    assert_eq!(reg.read(Slot::Chain), None);
    reg.write(Slot::Chain, "chain");
    assert!(reg.holds(Slot::Chain));
    assert_eq!(reg.read(Slot::Chain), Some(&"chain"));
    assert_eq!(reg.read(Slot::Echo), None);
    reg.write(Slot::Chain, "again");
    assert_eq!(reg.read(Slot::Chain), Some(&"again"));
}

#[test]
fn create_new_wallet_message_stages() {
    let stages = WalletMessage::CreateNewWallet.stages(&"frost".to_string());
    assert_eq!(stages.len(), 3);
    assert!(matches!(stages[0], Stage::DeriveNode));
    assert!(matches!(stages[1], Stage::DeriveWalletLoader));
    assert!(matches!(&stages[2], Stage::CreateWallet(n) if n == "frost"));
}
