//! The lockout service: answers ban queries, prepares alerts for dispatch and
//! records failures, all over a ban store that it is handed.

use crate::challenge::{Challenge, ChallengeView};
use crate::ban_store::{after_query, is_active, BanRecord, BanStore};
use crate::text::{escaped, push_escaped};
use crate::verdict::Verdict;
use vstd::prelude::*;
use vstd::string::StringExecFns;

verus! {

/// How long a failed challenge locks an address out, in seconds.
pub const LOCKOUT_SECS: u64 = 900;

/// First line of an alert.
pub const ALERT_TITLE: &'static str = "\u{1F6A8} *Auth Attempt*\n\n";

/// What stands before the name of the user.
pub const USER_LABEL: &'static str = "\u{1F464} *User:* ";

/// What stands before the address.
pub const ADDRESS_LABEL: &'static str = "\u{1F310} *IP:* ";

/// What stands before the name of the service.
pub const SERVICE_LABEL: &'static str = "\u{1F6E0} *Service:* ";

/// What stands before the command.
pub const COMMAND_LABEL: &'static str = "\u{1F4DD} *Command:* ";

/// What stands before the code.
pub const CODE_LABEL: &'static str = "\u{1F511} *Verification Code:* ";

/// The verdict on `address` at `now`.
pub open spec fn verdict_at(bans: Map<Seq<char>, u64>, address: Seq<char>, now: u64) -> Verdict {
    if is_active(bans, address, now) {
        Verdict::Forbidden
    } else {
        Verdict::Clear
    }
}

/// `bans` after a failure of `address` was reported at `now`.
pub open spec fn after_report(bans: Map<Seq<char>, u64>, address: Seq<char>, now: u64) -> Map<
    Seq<char>,
    u64,
> {
    bans.insert(address, (now + LOCKOUT_SECS) as u64)
}

/// `label`, then `value` escaped and in backticks.
pub open spec fn labelled(label: Seq<char>, value: Seq<char>) -> Seq<char> {
    label + seq!['`'] + escaped(value) + seq!['`']
}

/// The alert that tells of the attempt behind `challenge` and carries its
/// code: the title, then a line each for the user, the address, the service
/// and, where there is one, the command, then the code.
pub open spec fn alert_text(challenge: ChallengeView) -> Seq<char> {
    ALERT_TITLE@ + labelled(USER_LABEL@, challenge.owner.username) + seq!['\n'] + labelled(
        ADDRESS_LABEL@,
        challenge.owner.address,
    ) + seq!['\n'] + labelled(SERVICE_LABEL@, challenge.owner.service) + seq!['\n'] + (
    match challenge.owner.command {
        Some(command) => labelled(COMMAND_LABEL@, command) + seq!['\n'],
        None => Seq::empty(),
    }) + labelled(CODE_LABEL@, challenge.code)
}

fn push_labelled(out: &mut String, label: &str, value: &str)
    ensures
        final(out)@ == old(out)@ + labelled(label@, value@),
{
    out.append(label);
    out.push('`');
    push_escaped(out, value);
    out.push('`');
}

/// The alert that tells of the attempt behind `challenge` and carries its code.
pub fn compose_alert(challenge: &Challenge) -> (alert: String)
    ensures
        alert@ == alert_text(challenge@),
{
    let mut alert = String::from_str(ALERT_TITLE);
    push_labelled(&mut alert, USER_LABEL, challenge.owner.username.as_str());
    alert.push('\n');
    push_labelled(&mut alert, ADDRESS_LABEL, challenge.owner.address.as_str());
    alert.push('\n');
    push_labelled(&mut alert, SERVICE_LABEL, challenge.owner.service.as_str());
    alert.push('\n');
    match &challenge.owner.command {
        Some(command) => {
            push_labelled(&mut alert, COMMAND_LABEL, command.as_str());
            alert.push('\n');
        },
        None => {},
    }
    push_labelled(&mut alert, CODE_LABEL, challenge.code.as_str());
    alert
}

/// What the service does with a request to notify.
#[derive(Debug, PartialEq, Eq)]
pub enum Notice {
    /// The address is locked out: nothing is sent.
    Refused,
    /// The alert goes to every recipient. The answer to the request does not
    /// wait for what becomes of it.
    Deliver { alert: String },
}

/// A notice as plain values.
pub enum NoticeView {
    Refused,
    Deliver { alert: Seq<char> },
}

impl View for Notice {
    type V = NoticeView;

    open spec fn view(&self) -> NoticeView {
        match self {
            Notice::Refused => NoticeView::Refused,
            Notice::Deliver { alert } => NoticeView::Deliver { alert: alert@ },
        }
    }
}

impl NoticeView {
    /// The verdict that answers the request.
    pub open spec fn verdict(self) -> Verdict {
        match self {
            NoticeView::Refused => Verdict::Forbidden,
            NoticeView::Deliver { .. } => Verdict::Clear,
        }
    }
}

impl Notice {
    /// The verdict that answers the request.
    pub fn verdict(&self) -> (verdict: Verdict)
        ensures
            verdict == self@.verdict(),
    {
        match self {
            Notice::Refused => Verdict::Forbidden,
            Notice::Deliver { .. } => Verdict::Clear,
        }
    }
}

/// The notice on a request at `now` to dispatch `challenge`.
pub open spec fn notice_at(bans: Map<Seq<char>, u64>, challenge: ChallengeView, now: u64) -> NoticeView {
    if is_active(bans, challenge.owner.address, now) {
        NoticeView::Refused
    } else {
        NoticeView::Deliver { alert: alert_text(challenge) }
    }
}

/// Answers whether `address` is locked out at `now`. A lockout of `address`
/// that is over leaves the store.
pub fn check_ban(store: &mut BanStore, address: &str, now: u64) -> (verdict: Verdict)
    ensures
        verdict == verdict_at(old(store)@, address@, now),
        final(store)@ == after_query(old(store)@, address@, now),
{
    if store.query(address, now) {
        Verdict::Forbidden
    } else {
        Verdict::Clear
    }
}

/// Decides on a request at `now` to dispatch `challenge`: refused where the
/// address of its owner is locked out, else the alert to deliver. The store
/// changes as on a ban query for that address.
pub fn notify(store: &mut BanStore, challenge: &Challenge, now: u64) -> (notice: Notice)
    ensures
        notice@ == notice_at(old(store)@, challenge@, now),
        final(store)@ == after_query(old(store)@, challenge@.owner.address, now),
{
    if store.query(challenge.owner.address.as_str(), now) {
        Notice::Refused
    } else {
        Notice::Deliver { alert: compose_alert(challenge) }
    }
}

/// Records that `address` failed a challenge at `now`: it is locked out for
/// `LOCKOUT_SECS` from `now`, whatever the store held for it.
pub fn report_fail(store: &mut BanStore, address: String, now: u64)
    requires
        now + LOCKOUT_SECS <= u64::MAX,
    ensures
        final(store)@ == after_report(old(store)@, address@, now),
{
    store.upsert(BanRecord { address, expires_at: now + LOCKOUT_SECS });
}

/// Right after a failure is reported, and until the lockout is over, a ban
/// query for the address is answered with forbidden, and the lockout stays.
pub proof fn law_reported_address_is_forbidden(
    bans: Map<Seq<char>, u64>,
    address: Seq<char>,
    reported: u64,
    now: u64,
)
    requires
        reported + LOCKOUT_SECS <= u64::MAX,
        now < reported + LOCKOUT_SECS,
    ensures
        verdict_at(after_report(bans, address, reported), address, now) == Verdict::Forbidden,
        after_query(after_report(bans, address, reported), address, now) == after_report(
            bans,
            address,
            reported,
        ),
{
}

/// Once the lockout of an address is over, a ban query for it is answered with
/// clear, and afterwards the store holds nothing for the address.
pub proof fn law_expired_lockout_is_evicted(
    bans: Map<Seq<char>, u64>,
    address: Seq<char>,
    now: u64,
)
    requires
        bans.contains_key(address),
        now >= bans[address],
    ensures
        verdict_at(bans, address, now) == Verdict::Clear,
        !after_query(bans, address, now).contains_key(address),
        after_query(bans, address, now) == bans.remove(address),
{
}

/// An address that the store holds nothing for is clear, and a query leaves
/// the store as it was.
pub proof fn law_unknown_address_is_clear(bans: Map<Seq<char>, u64>, address: Seq<char>, now: u64)
    requires
        !bans.contains_key(address),
    ensures
        verdict_at(bans, address, now) == Verdict::Clear,
        after_query(bans, address, now) == bans,
{
    assert(bans.remove(address) == bans);
}

/// A second report replaces the first: the lockout then ends `LOCKOUT_SECS`
/// after the second, whether that is later or earlier than the first gave,
/// and the store is as if the first had never been made.
pub proof fn law_last_report_wins(
    bans: Map<Seq<char>, u64>,
    address: Seq<char>,
    first: u64,
    second: u64,
)
    requires
        first + LOCKOUT_SECS <= u64::MAX,
        second + LOCKOUT_SECS <= u64::MAX,
    ensures
        after_report(after_report(bans, address, first), address, second)[address] == second
            + LOCKOUT_SECS,
        after_report(after_report(bans, address, first), address, second) == after_report(
            bans,
            address,
            second,
        ),
{
}

/// A request to notify is refused exactly where a ban query would be answered
/// with forbidden; else it is answered with clear and the alert is to be
/// delivered. Either way the store changes as on the ban query.
pub proof fn law_notify_follows_ban(bans: Map<Seq<char>, u64>, challenge: ChallengeView, now: u64)
    ensures
        notice_at(bans, challenge, now).verdict() == verdict_at(
            bans,
            challenge.owner.address,
            now,
        ),
        is_active(bans, challenge.owner.address, now) <==> notice_at(bans, challenge, now)
            is Refused,
        !is_active(bans, challenge.owner.address, now) ==> notice_at(bans, challenge, now) == (
        NoticeView::Deliver { alert: alert_text(challenge) }),
{
}

} // verus!
