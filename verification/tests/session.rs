use std::sync::atomic::{AtomicBool, Ordering};
use std::sync::Arc;

use jade_client::entropy::contribution;
use jade_client::protocol::{result_bool, result_text};
use jade_client::{
    Jade, JadeError, JadeNetwork, JadePingStatus, JadeState, Request, Value, VersionReply,
    WireVersionInfo,
};

fn summary(version: &str, state: &str) -> VersionReply {
    VersionReply::Summary(WireVersionInfo {
        jade_version: version.to_string(),
        jade_state: state.to_string(),
        jade_networks: "MAIN".to_string(),
        jade_has_pin: true,
    })
}

fn connected(version: &str, state: &str) -> Jade {
    let (request, next) = Jade::connect(Arc::new(AtomicBool::new(false)));
    assert_eq!(request.method(), "get_version_info");
    let (request, next) = next.on_version(summary(version, state)).unwrap();
    assert_eq!(request.method(), "add_entropy");
    match next.on_reply(Ok(Value::Bool(true))) {
        Ok(jade) => jade,
        Err(error) => panic!("{error:?}"),
    }
}

fn unlocked(network: JadeNetwork) -> Jade {
    let mut jade = connected("1.0.41", "LOCKED");
    let unlocking = jade.unlock_with(network).ok().unwrap();
    let request = jade.on_unlocked(unlocking, Ok(())).unwrap();
    assert_eq!(request.method(), "get_version_info");
    jade.refresh_version_info(summary("1.0.41", "READY")).unwrap();
    jade
}

#[test]
fn connecting_reads_the_version_and_contributes_entropy() {
    let (request, next) = Jade::connect(Arc::new(AtomicBool::new(false)));
    assert_eq!(request.method(), "get_version_info");
    assert_eq!(request.timeout_secs(), 60);
    let (request, next) = next.on_version(summary("1.0.41", "LOCKED")).unwrap();
    match request {
        Request::AddEntropy { entropy } => {
            assert_eq!(entropy.len(), 32);
            assert_ne!(entropy, vec![0u8; 32]);
        }
        other => panic!("{other:?}"),
    }
    let jade = next.on_reply(Ok(Value::Bool(true))).ok().unwrap();
    assert_eq!(jade.version_info().jade_version, "1.0.41");
    assert_eq!(jade.version_info().jade_state, JadeState::Locked);
    assert_eq!(jade.version_info().jade_networks, "MAIN");
    assert!(jade.version_info().jade_has_pin);
    assert_eq!(jade.unlocked_network(), None);
}

#[test]
fn connecting_fails_with_the_version_read() {
    let (_, next) = Jade::connect(Arc::new(AtomicBool::new(false)));
    match next.on_version(VersionReply::Malformed("missing field".to_string())) {
        Err(JadeError::ProtocolError { error_details }) => {
            assert_eq!(error_details, "unexpected get_version_info reply: missing field");
        }
        _ => panic!("a malformed summary was taken"),
    }
    let (_, next) = Jade::connect(Arc::new(AtomicBool::new(false)));
    assert!(matches!(
        next.on_version(VersionReply::Failed(JadeError::Timeout)),
        Err(JadeError::Timeout)
    ));
}

#[test]
fn connecting_fails_with_the_entropy_reply() {
    let (_, next) = Jade::connect(Arc::new(AtomicBool::new(false)));
    let (_, next) = next.on_version(summary("1.0.41", "LOCKED")).unwrap();
    match next.on_reply(Ok(Value::Text("yes".to_string()))) {
        Err(JadeError::ProtocolError { error_details }) => {
            assert_eq!(error_details, "expected a boolean result");
        }
        _ => panic!("a text was taken for a truth value"),
    }
}

#[test]
fn two_contributions_differ() {
    let first = jade_client::entropy::fresh().unwrap();
    let second = jade_client::entropy::fresh().unwrap();
    assert_eq!(first.len(), 32);
    assert_ne!(first, second);
}

#[test]
fn contribution_takes_what_the_system_left() {
    assert_eq!(contribution(true, &vec![7, 8, 9]).unwrap(), vec![7, 8, 9]);
    match contribution(false, &vec![7, 8, 9]) {
        Err(JadeError::IoError { error_details }) => {
            assert_eq!(error_details, "the operating system has no entropy");
        }
        _ => panic!("a failed read was contributed"),
    }
}

#[test]
fn handles_share_the_flag_of_the_session() {
    let flag = Arc::new(AtomicBool::new(false));
    let (_, next) = Jade::connect(flag.clone());
    let (_, next) = next.on_version(summary("1.0.41", "READY")).unwrap();
    let jade = next.on_reply(Ok(Value::Bool(true))).ok().unwrap();
    let handle = jade.cancel_handle().clone();
    assert!(!flag.load(Ordering::SeqCst));
    handle.abort();
    assert!(flag.load(Ordering::SeqCst));
    assert!(jade.cancel_handle().aborted().load(Ordering::SeqCst));
}

#[test]
fn device_without_wallet_is_not_unlocked() {
    let jade = connected("1.0.41", "UNINIT");
    assert!(matches!(
        jade.unlock_with(JadeNetwork::Testnet),
        Err(JadeError::DeviceUninitialized)
    ));
}

#[test]
fn failed_unlock_leaves_the_session_as_it_was() {
    let mut jade = connected("1.0.41", "LOCKED");
    let unlocking = jade.unlock_with(JadeNetwork::Testnet).ok().unwrap();
    assert_eq!(unlocking.network(), JadeNetwork::Testnet);
    assert!(jade.on_unlocked(unlocking, Err(JadeError::Timeout)).is_err());
    assert_eq!(jade.unlocked_network(), None);
}

#[test]
fn unlocked_network_is_the_only_one() {
    let jade = unlocked(JadeNetwork::Testnet);
    assert_eq!(jade.unlocked_network(), Some(JadeNetwork::Testnet));
    assert_eq!(jade.version_info().jade_state, JadeState::Ready);
    assert!(jade.check_network(JadeNetwork::Testnet).is_ok());
    match jade.check_network(JadeNetwork::Mainnet) {
        Err(JadeError::NetworkMismatch { error_details }) => assert_eq!(
            error_details,
            "the device was unlocked for testnet but the request is for mainnet"
        ),
        _ => panic!("another network was accepted"),
    }
    match unlocked(JadeNetwork::Regtest).check_network(JadeNetwork::Testnet) {
        Err(JadeError::NetworkMismatch { error_details }) => assert_eq!(
            error_details,
            "the device was unlocked for localtest but the request is for testnet"
        ),
        _ => panic!("another network was accepted"),
    }
}

#[test]
fn locked_device_takes_any_network() {
    let jade = connected("1.0.41", "READY");
    assert!(jade.check_network(JadeNetwork::Mainnet).is_ok());
    assert!(jade.check_network(JadeNetwork::Testnet).is_ok());
}

#[test]
fn logout_forgets_the_network() {
    let mut jade = unlocked(JadeNetwork::Mainnet);
    assert_eq!(jade.logout().method(), "logout");
    assert!(jade.on_logout(Err(JadeError::Timeout)).is_err());
    assert_eq!(jade.unlocked_network(), Some(JadeNetwork::Mainnet));
    let request = jade.on_logout(Ok(Value::Bool(true))).unwrap();
    assert_eq!(request.method(), "get_version_info");
    assert_eq!(jade.unlocked_network(), None);
    assert!(jade.check_network(JadeNetwork::Testnet).is_ok());
}

#[test]
fn failed_refresh_keeps_the_summary() {
    let mut jade = connected("1.0.41", "LOCKED");
    assert!(jade
        .refresh_version_info(VersionReply::Failed(JadeError::DeviceDisconnected))
        .is_err());
    assert_eq!(jade.version_info().jade_state, JadeState::Locked);
    let info = jade.refresh_version_info(summary("1.0.42", "READY")).unwrap();
    assert_eq!(info.jade_version, "1.0.42");
    assert_eq!(jade.version_info().jade_state, JadeState::Ready);
}

#[test]
fn ping_reports_the_status() {
    let jade = connected("1.0.41", "READY");
    assert_eq!(jade.ping().method(), "ping");
    assert_eq!(jade.on_ping(Ok(Value::Integer(0))).unwrap(), JadePingStatus::Idle);
    assert_eq!(jade.on_ping(Ok(Value::Integer(1))).unwrap(), JadePingStatus::Busy);
    assert_eq!(jade.on_ping(Ok(Value::Integer(2))).unwrap(), JadePingStatus::AwaitingUser);
    assert_eq!(jade.on_ping(Ok(Value::Integer(9))).unwrap(), JadePingStatus::Unknown);
    for value in [
        Value::Integer(-1),
        Value::Integer(1 << 64),
        Value::Bool(true),
        Value::Bytes(vec![0]),
        Value::Other,
    ] {
        match jade.on_ping(Ok(value)) {
            Err(JadeError::ProtocolError { error_details }) => {
                assert_eq!(error_details, "expected an integer ping result");
            }
            _ => panic!("not a status"),
        }
    }
}

#[test]
fn states_go_by_their_names() {
    assert_eq!(JadeState::from_wire("READY"), JadeState::Ready);
    assert_eq!(JadeState::from_wire("TEMP"), JadeState::Temp);
    assert_eq!(JadeState::from_wire("LOCKED"), JadeState::Locked);
    assert_eq!(JadeState::from_wire("UNSAVED"), JadeState::Unsaved);
    assert_eq!(JadeState::from_wire("UNINIT"), JadeState::Uninit);
    assert_eq!(JadeState::from_wire("locked"), JadeState::Unknown);
}

#[test]
fn results_are_of_the_expected_kind() {
    assert_eq!(result_text(Ok(Value::Text("x".to_string()))).unwrap(), "x");
    match result_text(Ok(Value::Bool(true))) {
        Err(JadeError::ProtocolError { error_details }) => {
            assert_eq!(error_details, "expected a text result");
        }
        _ => panic!("not a text"),
    }
    assert!(!result_bool(Ok(Value::Bool(false))).unwrap());
    assert!(matches!(result_text(Err(JadeError::Timeout)), Err(JadeError::Timeout)));
}

#[test]
fn confirmations_are_waited_for_longer() {
    let quick = Request::GetXpub { network: "mainnet", path: vec![] };
    let slow = [
        Request::GetReceiveAddress { network: "mainnet", variant: "tr(k)", path: vec![] },
        Request::SignMessage { message: String::new(), path: vec![] },
        Request::SignPsbt { network: "mainnet", psbt: vec![] },
    ];
    assert_eq!(quick.method(), "get_xpub");
    assert_eq!(quick.timeout_secs(), 60);
    assert_eq!(slow[0].method(), "get_receive_address");
    assert_eq!(slow[1].method(), "sign_message");
    assert_eq!(slow[2].method(), "sign_psbt");
    for request in slow {
        assert_eq!(request.timeout_secs(), 300);
    }
}

#[test]
fn failed_reread_is_no_failure_of_unlock_or_logout() {
    let mut jade = connected("1.0.41", "LOCKED");
    let unlocking = jade.unlock_with(JadeNetwork::Testnet).ok().unwrap();
    assert_eq!(jade.on_unlocked(unlocking, Ok(())).unwrap().method(), "get_version_info");
    jade.on_reread(VersionReply::Failed(JadeError::Timeout));
    assert_eq!(jade.unlocked_network(), Some(JadeNetwork::Testnet));
    assert_eq!(jade.version_info().jade_state, JadeState::Locked);
    jade.on_reread(VersionReply::Malformed("missing field".to_string()));
    assert_eq!(jade.version_info().jade_state, JadeState::Locked);
    jade.on_reread(summary("1.0.41", "READY"));
    assert_eq!(jade.unlocked_network(), Some(JadeNetwork::Testnet));
    assert_eq!(jade.version_info().jade_state, JadeState::Ready);

    jade.on_logout(Ok(Value::Bool(true))).unwrap();
    jade.on_reread(VersionReply::Failed(JadeError::DeviceDisconnected));
    assert_eq!(jade.unlocked_network(), None);
    assert_eq!(jade.version_info().jade_state, JadeState::Ready);
    jade.on_reread(summary("1.0.41", "LOCKED"));
    assert_eq!(jade.unlocked_network(), None);
    assert_eq!(jade.version_info().jade_state, JadeState::Locked);
}

#[test]
fn version_summary_is_asked_for() {
    let jade = connected("1.0.41", "READY");
    let request = jade.request_version_info();
    assert_eq!(request.method(), "get_version_info");
    assert_eq!(request.timeout_secs(), 60);
}
