use minecli::auth::{
    first_user_hash, identity_token, poll_decision, profile_status_check, rps_ticket,
    xsts_failure_message, PollClock, PollDecision,
};

#[test]
fn poll_answers() {
    assert!(matches!(poll_decision(true, "{}"), PollDecision::ParseToken));
    assert!(matches!(
        poll_decision(false, "{\"error\":\"authorization_pending\"}"),
        PollDecision::Pending
    ));
    match poll_decision(false, "{\"error\":\"expired_token\"}") {
        PollDecision::Failed(m) => assert_eq!(m, "Error polling token: {\"error\":\"expired_token\"}"),
        _ => panic!("expected a failure"),
    }
}

#[test]
fn xbox_tokens() {
    assert_eq!(rps_ticket("abc"), "d=abc");
    assert_eq!(identity_token("uhs", "xsts"), "XBL3.0 x=uhs;xsts");
    assert_eq!(first_user_hash(&vec!["h1".to_string(), "h2".to_string()]), Ok("h1".to_string()));
    assert_eq!(
        first_user_hash(&vec![]),
        Err("No user hash found in Xbox Live response".to_string())
    );
}

#[test]
fn xsts_failures_explained() {
    assert_eq!(
        xsts_failure_message("{\"XErr\":2148916233}"),
        "Microsoft account does not have an Xbox Live profile. Please create one on xbox.com."
    );
    assert_eq!(
        xsts_failure_message("{\"XErr\":2148916238}"),
        "Account belongs to a minor and requires parental consent on Xbox."
    );
    assert_eq!(xsts_failure_message("denied"), "XSTS token request failed: denied");
}

#[test]
fn profile_status() {
    assert_eq!(
        profile_status_check(404),
        Err("User does not own Minecraft Java Edition on this account.".to_string())
    );
    assert_eq!(profile_status_check(200), Ok(()));
}

#[test]
fn cli_polling_counts_down_to_zero() {
    let mut clock = PollClock::new(0, 12);
    assert_eq!(clock.interval, 1);
    let mut clock5 = PollClock::new(5, 12);
    let mut polls = 0;
    while clock5.step_cli() {
        polls += 1;
    }
    assert_eq!(polls, 3);
    assert_eq!(clock5.remaining, 0);
    assert!(clock.step_cli());
    assert_eq!(clock.remaining, 11);
}

#[test]
fn interface_polling_needs_a_whole_interval() {
    let mut clock = PollClock::new(5, 12);
    assert!(clock.step_tui());
    assert!(clock.step_tui());
    assert_eq!(clock.remaining, 2);
    assert!(!clock.step_tui());
    assert_eq!(clock.remaining, 2);
}
