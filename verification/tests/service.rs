use login_gate::attempt::LoginAttempt;
use login_gate::ban_store::{BanRecord, BanStore};
use login_gate::challenge::Challenge;
use login_gate::service::{
    check_ban, compose_alert, notify, report_fail, Notice, LOCKOUT_SECS,
};
use login_gate::verdict::{Verdict, STATUS_FORBIDDEN, STATUS_OK};

fn login(address: &str, code: &str) -> Challenge {
    Challenge {
        code: String::from(code),
        owner: LoginAttempt {
            username: String::from("alice"),
            address: String::from(address),
            service: String::from("sshd"),
            command: None,
        },
    }
}

#[test]
fn lockout_lasts_fifteen_minutes() {
    assert_eq!(LOCKOUT_SECS, 15 * 60);
}

#[test]
fn verdicts_have_their_status_codes() {
    assert_eq!(STATUS_OK, 200);
    assert_eq!(STATUS_FORBIDDEN, 403);
    assert_eq!(Verdict::Clear.status_code(), 200);
    assert_eq!(Verdict::Forbidden.status_code(), 403);
}

#[test]
fn new_store_is_empty() {
    let store = BanStore::new();
    assert_eq!(store.len(), 0);
    assert_eq!(store.expires_at("203.0.113.7"), None);
}

#[test]
fn unknown_address_is_clear() {
    let mut store = BanStore::new();
    assert_eq!(check_ban(&mut store, "203.0.113.7", 0), Verdict::Clear);
    assert_eq!(check_ban(&mut store, "203.0.113.7", u64::MAX), Verdict::Clear);
    assert_eq!(store.len(), 0);
}

#[test]
fn reported_address_is_forbidden_at_once() {
    let mut store = BanStore::new();
    report_fail(&mut store, String::from("203.0.113.7"), 1000);
    assert_eq!(check_ban(&mut store, "203.0.113.7", 1000), Verdict::Forbidden);
    assert_eq!(store.len(), 1);
}

#[test]
fn report_sets_expiry_fifteen_minutes_ahead() {
    let mut store = BanStore::new();
    report_fail(&mut store, String::from("203.0.113.7"), 1000);
    assert_eq!(store.expires_at("203.0.113.7"), Some(1900));
    report_fail(&mut store, String::from("198.51.100.2"), 0);
    assert_eq!(store.expires_at("198.51.100.2"), Some(900));
    assert_eq!(store.len(), 2);
}

#[test]
fn report_at_the_latest_time_that_fits() {
    let mut store = BanStore::new();
    report_fail(&mut store, String::from("203.0.113.7"), u64::MAX - 900);
    assert_eq!(store.expires_at("203.0.113.7"), Some(u64::MAX));
    assert_eq!(check_ban(&mut store, "203.0.113.7", u64::MAX - 1), Verdict::Forbidden);
    assert_eq!(check_ban(&mut store, "203.0.113.7", u64::MAX), Verdict::Clear);
}

#[test]
fn lockout_holds_until_the_last_second() {
    let mut store = BanStore::new();
    report_fail(&mut store, String::from("203.0.113.7"), 1000);
    assert_eq!(check_ban(&mut store, "203.0.113.7", 1001), Verdict::Forbidden);
    assert_eq!(check_ban(&mut store, "203.0.113.7", 1899), Verdict::Forbidden);
    assert_eq!(store.expires_at("203.0.113.7"), Some(1900));
}

#[test]
fn lockout_is_over_at_its_expiry() {
    let mut store = BanStore::new();
    report_fail(&mut store, String::from("203.0.113.7"), 1000);
    assert_eq!(check_ban(&mut store, "203.0.113.7", 1900), Verdict::Clear);
    assert_eq!(store.expires_at("203.0.113.7"), None);
    assert_eq!(store.len(), 0);
}

#[test]
fn expired_lockout_is_evicted_by_the_query() {
    let mut store = BanStore::new();
    report_fail(&mut store, String::from("203.0.113.7"), 1000);
    assert_eq!(check_ban(&mut store, "203.0.113.7", 5000), Verdict::Clear);
    assert_eq!(store.expires_at("203.0.113.7"), None);
    assert_eq!(check_ban(&mut store, "203.0.113.7", 1000), Verdict::Clear);
}

#[test]
fn expired_lockout_stays_until_it_is_queried() {
    let mut store = BanStore::new();
    report_fail(&mut store, String::from("203.0.113.7"), 1000);
    report_fail(&mut store, String::from("198.51.100.2"), 1000);
    assert_eq!(check_ban(&mut store, "198.51.100.2", 5000), Verdict::Clear);
    assert_eq!(store.expires_at("203.0.113.7"), Some(1900));
    assert_eq!(store.len(), 1);
}

#[test]
fn query_for_one_address_leaves_the_others() {
    let mut store = BanStore::new();
    report_fail(&mut store, String::from("203.0.113.7"), 1000);
    assert_eq!(check_ban(&mut store, "203.0.113.8", 1000), Verdict::Clear);
    assert_eq!(check_ban(&mut store, "203.0.113.7", 1000), Verdict::Forbidden);
    assert_eq!(store.len(), 1);
}

#[test]
fn second_report_restarts_the_lockout() {
    let mut store = BanStore::new();
    report_fail(&mut store, String::from("203.0.113.7"), 1000);
    report_fail(&mut store, String::from("203.0.113.7"), 1600);
    assert_eq!(store.expires_at("203.0.113.7"), Some(2500));
    assert_eq!(store.len(), 1);
    assert_eq!(check_ban(&mut store, "203.0.113.7", 2499), Verdict::Forbidden);
    assert_eq!(check_ban(&mut store, "203.0.113.7", 2500), Verdict::Clear);
}

#[test]
fn second_report_wins_even_when_it_is_earlier() {
    let mut store = BanStore::new();
    report_fail(&mut store, String::from("203.0.113.7"), 1600);
    report_fail(&mut store, String::from("203.0.113.7"), 1000);
    assert_eq!(store.expires_at("203.0.113.7"), Some(1900));
    assert_eq!(check_ban(&mut store, "203.0.113.7", 1900), Verdict::Clear);
}

#[test]
fn store_query_tells_whether_a_lockout_is_active() {
    let mut store = BanStore::new();
    store.upsert(BanRecord { address: String::from("203.0.113.7"), expires_at: 50 });
    assert!(store.query("203.0.113.7", 49));
    assert_eq!(store.len(), 1);
    assert!(!store.query("203.0.113.7", 50));
    assert_eq!(store.len(), 0);
    assert!(!store.query("203.0.113.7", 0));
}

#[test]
fn store_upsert_overwrites() {
    let mut store = BanStore::new();
    store.upsert(BanRecord { address: String::from("203.0.113.7"), expires_at: 50 });
    store.upsert(BanRecord { address: String::from("203.0.113.7"), expires_at: 20 });
    assert_eq!(store.expires_at("203.0.113.7"), Some(20));
    assert_eq!(store.len(), 1);
}

#[test]
fn store_hands_out_the_record_of_an_address() {
    let mut store = BanStore::new();
    assert_eq!(store.record("203.0.113.7"), None);
    store.upsert(BanRecord { address: String::from("203.0.113.7"), expires_at: 50 });
    assert_eq!(
        store.record("203.0.113.7"),
        Some(BanRecord { address: String::from("203.0.113.7"), expires_at: 50 })
    );
    assert_eq!(store.record("203.0.113.8"), None);
}

#[test]
fn record_is_active_before_its_expiry_only() {
    let record = BanRecord { address: String::from("203.0.113.7"), expires_at: 50 };
    assert!(record.is_active(0));
    assert!(record.is_active(49));
    assert!(!record.is_active(50));
    assert!(!record.is_active(51));
}

#[test]
fn report_creates_the_record() {
    let mut store = BanStore::new();
    report_fail(&mut store, String::from("203.0.113.7"), 1000);
    assert_eq!(
        store.record("203.0.113.7"),
        Some(BanRecord { address: String::from("203.0.113.7"), expires_at: 1900 })
    );
}

#[test]
fn alert_without_a_command() {
    let alert = compose_alert(&login("203.0.113.7", "482913"));
    assert_eq!(
        alert,
        "\u{1F6A8} *Auth Attempt*\n\n\
         \u{1F464} *User:* `alice`\n\
         \u{1F310} *IP:* `203\\.0\\.113\\.7`\n\
         \u{1F6E0} *Service:* `sshd`\n\
         \u{1F511} *Verification Code:* `482913`"
    );
}

#[test]
fn alert_with_a_command() {
    let challenge = Challenge {
        code: String::from("100000"),
        owner: LoginAttempt {
            username: String::from("deploy_bot"),
            address: String::from("host-1.example"),
            service: String::from("sudo"),
            command: Some(String::from("/usr/bin/apt-get update")),
        },
    };
    let alert = compose_alert(&challenge);
    assert_eq!(
        alert,
        "\u{1F6A8} *Auth Attempt*\n\n\
         \u{1F464} *User:* `deploy\\_bot`\n\
         \u{1F310} *IP:* `host\\-1\\.example`\n\
         \u{1F6E0} *Service:* `sudo`\n\
         \u{1F4DD} *Command:* `/usr/bin/apt\\-get update`\n\
         \u{1F511} *Verification Code:* `100000`"
    );
}

#[test]
fn alert_escapes_the_code_too() {
    let alert = compose_alert(&login("::1", "a.b"));
    assert!(alert.ends_with("\u{1F511} *Verification Code:* `a\\.b`"));
}

#[test]
fn notify_for_a_clear_address_delivers_the_alert() {
    let mut store = BanStore::new();
    let challenge = login("203.0.113.7", "482913");
    let notice = notify(&mut store, &challenge, 1000);
    assert_eq!(notice.verdict(), Verdict::Clear);
    assert_eq!(notice, Notice::Deliver { alert: compose_alert(&challenge) });
    assert_eq!(store.len(), 0);
}

#[test]
fn notify_for_a_locked_out_address_is_refused() {
    let mut store = BanStore::new();
    report_fail(&mut store, String::from("203.0.113.7"), 1000);
    let notice = notify(&mut store, &login("203.0.113.7", "482913"), 1500);
    assert_eq!(notice, Notice::Refused);
    assert_eq!(notice.verdict(), Verdict::Forbidden);
    assert_eq!(store.expires_at("203.0.113.7"), Some(1900));
}

#[test]
fn notify_goes_by_the_address_of_the_attempt() {
    let mut store = BanStore::new();
    report_fail(&mut store, String::from("203.0.113.7"), 1000);
    let notice = notify(&mut store, &login("203.0.113.8", "482913"), 1500);
    assert_eq!(notice.verdict(), Verdict::Clear);
}

#[test]
fn notify_evicts_an_expired_lockout() {
    let mut store = BanStore::new();
    report_fail(&mut store, String::from("203.0.113.7"), 1000);
    let notice = notify(&mut store, &login("203.0.113.7", "482913"), 1900);
    assert_eq!(notice.verdict(), Verdict::Clear);
    assert_eq!(store.expires_at("203.0.113.7"), None);
}
