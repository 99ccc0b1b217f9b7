use voice_score::ids::{GuildId, GuildUser, UserId};
use voice_score::presence::VoiceStates;

fn member(guild: u64, user: u64) -> GuildUser {
    GuildUser(GuildId(guild), UserId(user))
}

#[test]
fn open_then_close_reports_duration() {
    let mut states = VoiceStates::new();
    let m = member(1, 10);
    states.open(m, 100);
    assert!(states.is_open(m));
    assert_eq!(states.session_start(m), Some(100));
    let taken = states.close_and_take(m, 250);
    assert_eq!(taken, Some(150));
    assert!(!states.is_open(m));
}

#[test]
fn close_without_open_reports_nothing() {
    let mut states = VoiceStates::new();
    let m = member(1, 10);
    assert_eq!(states.close_and_take(m, 500), None);
    assert!(!states.is_open(m));
}

#[test]
fn duplicate_open_keeps_the_clock() {
    let mut states = VoiceStates::new();
    let m = member(3, 7);
    states.open(m, 100);
    states.open(m, 400);
    assert_eq!(states.session_start(m), Some(100));
    assert_eq!(states.close_and_take(m, 700), Some(600));
}

#[test]
fn members_do_not_interfere() {
    let mut states = VoiceStates::new();
    let a = member(1, 10);
    let b = member(1, 11);
    let c = member(2, 10);
    states.open(a, 100);
    states.open(b, 200);
    states.open(c, 300);
    assert_eq!(states.session_start(a), Some(100));
    assert_eq!(states.session_start(b), Some(200));
    assert_eq!(states.session_start(c), Some(300));
    assert_eq!(states.close_and_take(b, 260), Some(60));
    assert_eq!(states.session_start(a), Some(100));
    assert_eq!(states.session_start(c), Some(300));
}

#[test]
fn clear_drops_every_session() {
    let mut states = VoiceStates::new();
    states.open(member(1, 10), 100);
    states.open(member(2, 20), 200);
    states.clear();
    assert!(!states.is_open(member(1, 10)));
    assert!(!states.is_open(member(2, 20)));
}

// The accounting law on concrete values: opens and closes on one key, with
// an idempotent open and a spurious close along the way. Credited time is
// (last close - first open) minus the gap spent absent.
#[test]
fn accounting_over_a_history() {
    let mut states = VoiceStates::new();
    let m = member(9, 9);
    let mut credited: u64 = 0;

    states.open(m, 1000);
    states.open(m, 1100); // duplicate enter: must not reset the clock
    credited += states.close_and_take(m, 1500).unwrap(); // 500
    assert_eq!(states.close_and_take(m, 1600), None); // spurious leave: no credit
    states.open(m, 2000); // gap 1500..2000 is absent time
    credited += states.close_and_take(m, 2300).unwrap(); // 300
    assert_eq!(credited, 800);
    // (last close - first open) - gaps = (2300 - 1000) - 500 = 800
    assert_eq!(credited, (2300 - 1000) - 500);
}

#[test]
fn close_at_the_open_instant_is_zero_not_negative() {
    let mut states = VoiceStates::new();
    let m = member(4, 4);
    states.open(m, 800);
    assert_eq!(states.close_and_take(m, 800), Some(0));
}
