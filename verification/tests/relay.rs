use mntool::relay::RelayAction;
use mntool::relay::RelayDirection;
use mntool::relay::RelayEvent;

fn forward_or_panic(dir: &mut RelayDirection, frame: Vec<u8>) -> Vec<u8> {
    assert!(dir.is_running());
    match dir.on_event(RelayEvent::Received(frame)) {
        RelayAction::Forward(out) => out,
        RelayAction::Halt => panic!("a running direction must forward a received frame"),
    }
}

fn direction() -> RelayDirection {
    RelayDirection::new("veth0".to_string(), "veth1".to_string())
}

#[test]
fn direction_carries_its_label() {
    let dir = direction();
    let (from, to) = dir.label();
    assert_eq!(from, "veth0");
    assert_eq!(to, "veth1");
}

#[test]
fn order_preservation() {
    let mut dir = direction();
    let frames: Vec<Vec<u8>> = vec![vec![1, 2, 3], vec![4], vec![], vec![5, 6, 7, 8, 9]];
    let mut seen: Vec<Vec<u8>> = Vec::new();
    for f in &frames {
        seen.push(forward_or_panic(&mut dir, f.clone()));
    }
    assert_eq!(seen, frames);
    assert!(dir.is_running());
}

#[test]
fn no_frame_mutation() {
    let mut dir = direction();
    let frame: Vec<u8> = (0..64).map(|i| (i * 37 % 251) as u8).collect();
    let out = forward_or_panic(&mut dir, frame.clone());
    assert_eq!(out.len(), 64);
    assert_eq!(out, frame);
}

#[test]
fn failure_halts_direction() {
    let mut dir = direction();
    forward_or_panic(&mut dir, vec![9, 9]);
    assert!(dir.is_running());
    let act = dir.on_event(RelayEvent::Failed);
    assert_eq!(act, RelayAction::Halt);
    assert!(!dir.is_running());
}

#[test]
fn empty_frame_forwarded() {
    let mut dir = direction();
    let out = forward_or_panic(&mut dir, Vec::new());
    assert_eq!(out.len(), 0);
}
