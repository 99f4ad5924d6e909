use mntool::bridge::plan_bridge;
use mntool::bridge::resolve_interface;
use mntool::bridge::BridgeError;
use mntool::bridge::BridgeSession;
use mntool::bridge::DirectionId;
use mntool::bridge::SessionPhase;
use mntool::relay::RelayAction;
use mntool::relay::RelayEvent;

fn names(list: &[&str]) -> Vec<String> {
    list.iter().map(|s| s.to_string()).collect()
}

#[test]
fn resolve_finds_exact_match() {
    let visible = names(&["lo", "eth0", "veth0"]);
    assert_eq!(resolve_interface(&visible, &"veth0".to_string()), Some(2));
    assert_eq!(resolve_interface(&visible, &"lo".to_string()), Some(0));
}

#[test]
fn resolve_first_match_wins() {
    let visible = names(&["eth0", "veth0", "veth0"]);
    assert_eq!(resolve_interface(&visible, &"veth0".to_string()), Some(1));
}

#[test]
fn resolve_no_normalization() {
    let visible = names(&["veth0"]);
    assert_eq!(resolve_interface(&visible, &"VETH0".to_string()), None);
    assert_eq!(resolve_interface(&visible, &"veth".to_string()), None);
    assert_eq!(resolve_interface(&visible, &"".to_string()), None);
}

#[test]
fn unknown_interface() {
    let visible = names(&["lo", "eth0"]);
    let r = plan_bridge(&visible, &"veth0".to_string(), &"eth0".to_string());
    assert_eq!(r, Err(BridgeError::InterfaceNotFound));
    let r = plan_bridge(&visible, &"eth0".to_string(), &"veth9".to_string());
    assert_eq!(r, Err(BridgeError::InterfaceNotFound));
    let r = plan_bridge(&Vec::new(), &"eth0".to_string(), &"eth0".to_string());
    assert_eq!(r, Err(BridgeError::InterfaceNotFound));
}

#[test]
fn plan_resolves_both() {
    let visible = names(&["lo", "veth0", "veth1"]);
    let r = plan_bridge(&visible, &"veth0".to_string(), &"veth1".to_string());
    assert_eq!(r, Ok((1, 2)));
}

#[test]
fn channel_open_failure_surfaces_first_error() {
    let r = BridgeSession::start(&"veth0".to_string(), &"veth1".to_string(), Err("permission denied".to_string()), Ok(()));
    match r {
        Err(BridgeError::ChannelOpenFailed(msg)) => assert_eq!(msg, "permission denied"),
        _ => panic!("expected ChannelOpenFailed"),
    }
    let r = BridgeSession::start(&"veth0".to_string(), &"veth1".to_string(), Ok(()), Err("interface down".to_string()));
    match r {
        Err(BridgeError::ChannelOpenFailed(msg)) => assert_eq!(msg, "interface down"),
        _ => panic!("expected ChannelOpenFailed"),
    }
}

#[test]
fn session_starts_running() {
    let session = BridgeSession::start(&"veth0".to_string(), &"veth1".to_string(), Ok(()), Ok(())).expect("both channels opened");
    assert!(session.direction_running(DirectionId::AToB));
    assert!(session.direction_running(DirectionId::BToA));
    assert!(!session.is_stopped());
    assert_eq!(session.phase(), SessionPhase::Running);

    // the two directions are cross-wired between the two interfaces
    let (a_to_b, b_to_a) = session.into_directions();
    assert_eq!(a_to_b.label(), (&"veth0".to_string(), &"veth1".to_string()));
    assert_eq!(b_to_a.label(), (&"veth1".to_string(), &"veth0".to_string()));
}

#[test]
fn direction_independence() {
    let session = BridgeSession::start(&"veth0".to_string(), &"veth1".to_string(), Ok(()), Ok(())).expect("both channels opened");
    let (mut a_to_b, mut b_to_a) = session.into_directions();

    // force a failure on the A-to-B path
    assert_eq!(a_to_b.on_event(RelayEvent::Failed), RelayAction::Halt);
    assert!(!a_to_b.is_running());

    // frames keep flowing B-to-A, in order, unmodified
    for payload in [vec![1u8, 2, 3], vec![4u8; 100]] {
        assert!(b_to_a.is_running());
        match b_to_a.on_event(RelayEvent::Received(payload.clone())) {
            RelayAction::Forward(out) => assert_eq!(out, payload),
            RelayAction::Halt => panic!("B-to-A must keep relaying after A-to-B failed"),
        }
    }
    assert!(b_to_a.is_running());
}

#[test]
fn concrete_scenario() {
    // veth0 and veth1 are both live
    let visible = names(&["lo", "veth0", "veth1"]);
    let (ia, ib) =
        plan_bridge(&visible, &"veth0".to_string(), &"veth1".to_string()).expect("both live");
    assert_eq!((ia, ib), (1, 2));

    let session = BridgeSession::start(&"veth0".to_string(), &"veth1".to_string(), Ok(()), Ok(())).expect("both channels opened");
    let (mut a_to_b, mut b_to_a) = session.into_directions();

    // a 64-byte frame injected into veth0 emerges towards veth1: length 64, identical bytes
    let frame_a: Vec<u8> = (0..64).map(|i| i as u8).collect();
    match a_to_b.on_event(RelayEvent::Received(frame_a.clone())) {
        RelayAction::Forward(out) => {
            assert_eq!(out.len(), 64);
            assert_eq!(out, frame_a);
        }
        RelayAction::Halt => panic!("running direction must forward"),
    }

    // a different 128-byte frame injected into veth1 emerges towards veth0
    let frame_b: Vec<u8> = (0..128).map(|i| (255 - i) as u8).collect();
    match b_to_a.on_event(RelayEvent::Received(frame_b.clone())) {
        RelayAction::Forward(out) => {
            assert_eq!(out.len(), 128);
            assert_eq!(out, frame_b);
        }
        RelayAction::Halt => panic!("running direction must forward"),
    }

    assert!(a_to_b.is_running());
    assert!(b_to_a.is_running());
}
