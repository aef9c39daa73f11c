use sandpit::client::interpret_recvmsg;
use sandpit::client::OpenReply;
use sandpit::client::DENIAL_MARKER;
use sandpit::policy::permitted;
use sandpit::policy::permitted_under;
use sandpit::policy::PolicyAction;
use sandpit::response;
use sandpit::server::clamp_to_buffer;
use sandpit::server::conclude_open;
use sandpit::server::dispatch;
use sandpit::server::OpenOutcome;
use sandpit::server::Reaction;
use sandpit::server::ServerCore;
use sandpit::server::RECV_BUF_LEN;
use sandpit::util::flag_content;
use sandpit::util::join_path;

#[test]
fn policy_denies_paths_outside_workdir() {
    assert_eq!(permitted(b"/etc/passwd"), PolicyAction::Deny);
    assert_eq!(permitted(b"/tmp/other"), PolicyAction::Deny);
    assert_eq!(permitted(b"/tmp/sandpit.sandbo"), PolicyAction::Deny);
    assert_eq!(permitted(b""), PolicyAction::Deny);
}

#[test]
fn policy_allows_paths_under_workdir() {
    assert_eq!(permitted(b"/tmp/sandpit.sandbox/demo.txt"), PolicyAction::Allow);
    assert_eq!(permitted(b"/tmp/sandpit.sandbox"), PolicyAction::Allow);
}

#[test]
fn policy_prefix_is_caller_swappable() {
    assert_eq!(permitted_under(b"/srv/jail", b"/srv/jail/a"), PolicyAction::Allow);
    assert_eq!(permitted_under(b"/srv/jail", b"/etc/passwd"), PolicyAction::Deny);
}

#[test]
fn ping_datagram_draws_one_pong() {
    assert_eq!(dispatch(b"ping\0"), Reaction::Pong);
    let reply = response::encode_pong();
    assert_eq!(reply, b"pong\0".to_vec());
    assert_eq!(response::parse(&reply), Some(()));
}

#[test]
fn repeated_pings_react_identically() {
    let first = dispatch(b"ping\0");
    let second = dispatch(b"ping\0");
    assert_eq!(first, Reaction::Pong);
    assert_eq!(first, second);
}

#[test]
fn allowed_open_attempts_requested_path() {
    let demo = join_path(b"/tmp/sandpit.sandbox", b"demo.txt");
    let mut message = b"open ".to_vec();
    message.extend_from_slice(&demo);
    message.push(0);
    match dispatch(&message) {
        Reaction::OpenFile(p) => assert_eq!(p, demo),
        other => panic!("unexpected reaction: {:?}", other),
    }
    assert_eq!(conclude_open(true), OpenOutcome::SendDescriptor);
    assert_eq!(flag_content(b"not_a_flag"), b"flag{not_a_flag}\n".to_vec());
}

#[test]
fn denied_open_draws_denial_marker() {
    assert_eq!(dispatch(b"open /etc/passwd\0"), Reaction::Denial);
}

#[test]
fn failed_open_draws_same_denial_as_refusal() {
    assert_eq!(conclude_open(false), OpenOutcome::SendDenial);
}

#[test]
fn malformed_datagrams_are_dropped_silently() {
    assert_eq!(dispatch(b"ping"), Reaction::Ignore);
    assert_eq!(dispatch(b"open /etc/passwd"), Reaction::Ignore);
    assert_eq!(dispatch(b""), Reaction::Ignore);
    assert_eq!(dispatch(b"gibberish\0"), Reaction::Ignore);
}

#[test]
fn oversized_datagram_truncates_and_is_dropped() {
    let long_name: Vec<u8> = vec![b'a'; 80];
    let path = join_path(b"/tmp/sandpit.sandbox", &long_name);
    let mut message = b"open ".to_vec();
    message.extend_from_slice(&path);
    message.push(0);
    assert!(message.len() > RECV_BUF_LEN);

    let received = clamp_to_buffer(&message);
    assert_eq!(received.len(), RECV_BUF_LEN);
    assert_eq!(received, message[..RECV_BUF_LEN].to_vec());
    // the terminator was cut off, so the truncated datagram is malformed
    // and draws no reply at all
    assert_eq!(dispatch(&received), Reaction::Ignore);
}

#[test]
fn short_datagram_survives_the_buffer_whole() {
    let message = b"ping\0".to_vec();
    let received = clamp_to_buffer(&message);
    assert_eq!(received, message);
    assert_eq!(dispatch(&received), Reaction::Pong);
}

#[test]
fn server_slot_drains_after_every_turn() {
    let mut core = ServerCore::new();
    assert!(core.is_idle());
    assert_eq!(core.take_turn(), None);

    core.receive(b"ping\0".to_vec());
    assert!(!core.is_idle());
    assert_eq!(core.take_turn(), Some(Reaction::Pong));
    assert!(core.is_idle());

    // the observable turn state after a ping equals the state before it,
    // so a second ping reacts identically
    core.receive(b"ping\0".to_vec());
    assert_eq!(core.take_turn(), Some(Reaction::Pong));
    assert!(core.is_idle());

    core.receive(b"open /etc/passwd\0".to_vec());
    assert_eq!(core.take_turn(), Some(Reaction::Denial));
    assert!(core.is_idle());
}

#[test]
fn recvmsg_denial_marker_reads_as_denied() {
    assert_eq!(interpret_recvmsg(DENIAL_MARKER, 0, -1), OpenReply::Denied);
}

#[test]
fn recvmsg_success_hands_out_descriptor() {
    assert_eq!(interpret_recvmsg(0, 0, 5), OpenReply::Descriptor(5));
}

#[test]
fn recvmsg_errors_read_as_failure() {
    assert_eq!(interpret_recvmsg(-1, 2, -1), OpenReply::Failure);
    assert_eq!(interpret_recvmsg(0, 13, 5), OpenReply::Failure);
    assert_eq!(interpret_recvmsg(0, 0, -1), OpenReply::Failure);
}
