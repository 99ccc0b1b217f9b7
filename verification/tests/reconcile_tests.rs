use voice_score::ids::{GuildId, GuildUser, UserId};
use voice_score::presence::VoiceStates;
use voice_score::reconcile::{reconcile, reconcile_member};

fn member(guild: u64, user: u64) -> GuildUser {
    GuildUser(GuildId(guild), UserId(user))
}

#[test]
fn sweep_opens_only_untracked_members() {
    let mut states = VoiceStates::new();
    let already_open = member(1, 10);
    let missed = member(1, 11);
    states.open(already_open, 100);

    let present = vec![already_open, missed];
    let opened = reconcile(&mut states, &present, 5000);
    assert_eq!(opened, 1);
    // the already-tracked member keeps its running clock
    assert_eq!(states.session_start(already_open), Some(100));
    // the missed member is tracked from the sweep onward
    assert_eq!(states.session_start(missed), Some(5000));
}

// Reconciliation run twice in a row with no intervening events is
// idempotent: the second run opens zero sessions and changes none.
#[test]
fn second_sweep_is_a_no_op() {
    let mut states = VoiceStates::new();
    states.open(member(1, 10), 100);
    let present = vec![member(1, 10), member(1, 11), member(2, 12)];

    let opened_first = reconcile(&mut states, &present, 5000);
    assert_eq!(opened_first, 2);
    let opened_second = reconcile(&mut states, &present, 6000);
    assert_eq!(opened_second, 0);
    assert_eq!(states.session_start(member(1, 10)), Some(100));
    assert_eq!(states.session_start(member(1, 11)), Some(5000));
    assert_eq!(states.session_start(member(2, 12)), Some(5000));
}

#[test]
fn absent_members_stay_absent() {
    let mut states = VoiceStates::new();
    let gone = member(3, 30);
    states.open(gone, 100);
    let present = vec![member(3, 31)];
    reconcile(&mut states, &present, 2000);
    // the sweep only opens; closing a drifted session is the event path's job
    assert_eq!(states.session_start(gone), Some(100));
    assert!(!states.is_open(member(9, 9)));
}

#[test]
fn duplicate_listing_counts_once() {
    let mut states = VoiceStates::new();
    let m = member(4, 40);
    let present = vec![m, m, m];
    let opened = reconcile(&mut states, &present, 700);
    assert_eq!(opened, 1);
    assert_eq!(states.session_start(m), Some(700));
}

#[test]
fn reconcile_member_reports_whether_it_opened() {
    let mut states = VoiceStates::new();
    let m = member(5, 50);
    assert!(reconcile_member(&mut states, m, 900));
    assert!(!reconcile_member(&mut states, m, 950));
    assert_eq!(states.session_start(m), Some(900));
}

// End to end: a member enters voice at T0, the process restarts (losing the
// in-memory store), and a sweep at T1 finds the member still present. A
// fresh session opens at T1: the time T0..T1 is not credited, by design.
#[test]
fn restart_loses_untracked_time() {
    let t0: u64 = 1000;
    let t1: u64 = 4000;
    let m = member(6, 60);

    let mut states = VoiceStates::new();
    states.open(m, t0);

    // the restart: presence state is volatile
    let mut states = VoiceStates::new();
    assert!(!states.is_open(m));

    let opened = reconcile(&mut states, &vec![m], t1);
    assert_eq!(opened, 1);
    assert_eq!(states.session_start(m), Some(t1));
    // leaving at T1+500 credits only the post-sweep time
    assert_eq!(states.close_and_take(m, t1 + 500), Some(500));
}
