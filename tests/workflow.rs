use mullvad_lock_sign::{check_exit, Action, Error, InvocationError, LockStatus, Peer, Phase, Workflow};

fn peer(name: &str, key: &str) -> Peer {
    Peer {
        name: name.to_string(),
        id: 1,
        stable_id: "s".to_string(),
        tailscale_ips: vec![],
        node_key: key.to_string(),
    }
}

fn status(filtered: Vec<Peer>, visible: Vec<Peer>) -> LockStatus {
    LockStatus {
        enabled: true,
        head: vec![],
        public_key: String::new(),
        node_key: String::new(),
        node_key_signed: false,
        trusted_keys: vec![],
        visible_peers: visible,
        filtered_peers: filtered,
    }
}

fn sign(key: &str) -> Action {
    Action::Sign { key: key.to_string() }
}

#[test]
fn no_matching_peers_fails_with_no_nodes_found() {
    let mut w = Workflow::new(false, true);
    assert_eq!(w.start(), Action::FetchStatus);
    let s = status(vec![peer("a.other.", "k1")], vec![peer("b.mullvad.ts.net.", "k2")]);
    assert_eq!(w.on_status(Ok(s)), Action::Fail(Error::NoNodesFound));
    assert_eq!(w.phase(), Phase::Failed);
}

#[test]
fn fetch_error_is_reported() {
    let mut w = Workflow::new(true, false);
    w.start();
    let e = Error::FetchLockStatus(InvocationError::SubprocessFailed(Some(2)));
    assert_eq!(w.on_status(Err(e.clone())), Action::Fail(e));
    assert_eq!(w.phase(), Phase::Failed);
}

#[test]
fn parse_error_is_reported() {
    let mut w = Workflow::new(false, false);
    w.start();
    let e = Error::ParseOutput("missing field `Head`".to_string());
    assert_eq!(w.on_status(Err(e.clone())), Action::Fail(e));
}

#[test]
fn signing_stops_at_first_failure() {
    let mut w = Workflow::new(false, true);
    w.start();
    let s = status(
        vec![
            peer("a.mullvad.ts.net.", "k0"),
            peer("b.mullvad.ts.net.", "k1"),
            peer("c.mullvad.ts.net.", "k2"),
            peer("d.mullvad.ts.net.", "k3"),
        ],
        vec![],
    );
    assert_eq!(w.on_status(Ok(s)), sign("k0"));
    assert_eq!(w.on_signed(Ok(())), sign("k1"));
    let cause = InvocationError::SubprocessFailed(Some(1));
    assert_eq!(
        w.on_signed(Err(cause.clone())),
        Action::Fail(Error::SignNode { index: 1, key: "k1".to_string(), cause })
    );
    assert_eq!(w.phase(), Phase::Failed);
    assert_eq!(w.signed(), 1);
}

#[test]
fn confirmed_run_signs_everything_in_order() {
    let mut w = Workflow::new(true, false);
    w.start();
    let s = status(
        vec![peer("a.mullvad.ts.net.", "k0")],
        vec![peer("a.mullvad.ts.net.", "k0"), peer("b.mullvad.ts.net.", "k1")],
    );
    assert_eq!(w.on_status(Ok(s)), Action::Confirm);
    assert_eq!(w.phase(), Phase::ConfirmPending);
    assert_eq!(w.targets().len(), 3);
    assert_eq!(w.on_confirm(true), sign("k0"));
    assert_eq!(w.on_signed(Ok(())), sign("k0"));
    assert_eq!(w.on_signed(Ok(())), sign("k1"));
    assert_eq!(w.on_signed(Ok(())), Action::Finish);
    assert_eq!(w.phase(), Phase::Done);
    assert_eq!(w.signed(), 3);
}

#[test]
fn declined_run_signs_nothing() {
    let mut w = Workflow::new(false, false);
    w.start();
    let s = status(vec![peer("a.mullvad.ts.net.", "k0")], vec![]);
    assert_eq!(w.on_status(Ok(s)), Action::Confirm);
    assert_eq!(w.on_confirm(false), Action::Abort);
    assert_eq!(w.phase(), Phase::Declined);
    assert_eq!(w.signed(), 0);
}

#[test]
fn launch_failure_while_signing_is_reported() {
    let mut w = Workflow::new(false, true);
    w.start();
    let s = status(vec![peer("a.mullvad.ts.net.", "k0")], vec![]);
    assert_eq!(w.on_status(Ok(s)), sign("k0"));
    let cause = InvocationError::LaunchFailed("not found".to_string());
    assert_eq!(
        w.on_signed(Err(cause.clone())),
        Action::Fail(Error::SignNode { index: 0, key: "k0".to_string(), cause })
    );
}

#[test]
fn exit_code_zero_is_success() {
    assert_eq!(check_exit(Some(0)), Ok(()));
    assert_eq!(check_exit(Some(1)), Err(InvocationError::SubprocessFailed(Some(1))));
    assert_eq!(check_exit(None), Err(InvocationError::SubprocessFailed(None)));
}
