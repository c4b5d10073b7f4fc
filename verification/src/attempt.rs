//! One request to authenticate, as the host describes it.

use vstd::prelude::*;
use vstd::string::StringExecFns;

verus! {

/// What stands for a name that the host could not give.
pub const UNKNOWN: &'static str = "unknown";

/// The service name that marks a privilege escalation.
pub const ESCALATION_SERVICE: &'static str = "sudo";

/// The characters of `text`, if there is a text.
pub open spec fn text_of(text: Option<String>) -> Option<Seq<char>> {
    match text {
        Some(t) => Some(t@),
        None => None,
    }
}

/// `name`, or the placeholder where the host gave none.
pub open spec fn or_unknown(name: Option<Seq<char>>) -> Seq<char> {
    match name {
        Some(n) => n,
        None => UNKNOWN@,
    }
}

/// `name`, or the placeholder where the host gave none.
pub fn name_or_unknown(name: Option<String>) -> (resolved: String)
    ensures
        resolved@ == or_unknown(text_of(name)),
{
    match name {
        Some(n) => n,
        None => String::from_str(UNKNOWN),
    }
}

/// Whether a service of this name is a privilege escalation.
pub open spec fn is_escalation(service: Seq<char>) -> bool {
    service == ESCALATION_SERVICE@
}

/// A copy of `text`, if there is a text.
pub fn copy_of(text: &Option<String>) -> (copy: Option<String>)
    ensures
        copy == *text,
{
    match text {
        Some(t) => Some(t.clone()),
        None => None,
    }
}

/// Who asks to be let in, from where, and to what.
#[derive(Debug, PartialEq, Eq)]
pub struct LoginAttempt {
    /// The account that logs in.
    pub username: String,
    /// The network origin of the client.
    pub address: String,
    /// The authentication context that asks.
    pub service: String,
    /// The command to run with raised privileges, in an escalation only.
    pub command: Option<String>,
}

/// A login attempt as plain values.
pub struct LoginAttemptView {
    pub username: Seq<char>,
    pub address: Seq<char>,
    pub service: Seq<char>,
    pub command: Option<Seq<char>>,
}

impl View for LoginAttempt {
    type V = LoginAttemptView;

    open spec fn view(&self) -> LoginAttemptView {
        LoginAttemptView {
            username: self.username@,
            address: self.address@,
            service: self.service@,
            command: text_of(self.command),
        }
    }
}

impl Clone for LoginAttempt {
    fn clone(&self) -> (copy: LoginAttempt)
        ensures
            copy == *self,
    {
        LoginAttempt {
            username: self.username.clone(),
            address: self.address.clone(),
            service: self.service.clone(),
            command: copy_of(&self.command),
        }
    }
}

impl LoginAttemptView {
    /// A command is named in an escalation only.
    pub open spec fn wf(self) -> bool {
        self.command is Some ==> is_escalation(self.service)
    }

    /// The attempt that the host describes: the command counts in an
    /// escalation, and is left out of anything else.
    pub open spec fn described(
        address: Seq<char>,
        username: Seq<char>,
        service: Seq<char>,
        command: Option<Seq<char>>,
    ) -> Self {
        LoginAttemptView {
            username,
            address,
            service,
            command: if is_escalation(service) {
                command
            } else {
                None
            },
        }
    }
}

/// A service whose name the host could not give is no privilege escalation.
pub proof fn lemma_unknown_service_is_no_escalation()
    ensures
        !is_escalation(UNKNOWN@),
{
    reveal_strlit("unknown");
    reveal_strlit("sudo");
    assert(UNKNOWN@.len() == 7);
    assert(ESCALATION_SERVICE@.len() == 4);
}

/// Whether a service of this name is a privilege escalation.
pub fn escalates(service: &str) -> (b: bool)
    ensures
        b == is_escalation(service@),
{
    service.eq(ESCALATION_SERVICE)
}

impl LoginAttempt {
    /// A command is named in an escalation only.
    pub open spec fn wf(&self) -> bool {
        self@.wf()
    }

    /// The attempt that the host describes: the command counts in an
    /// escalation, and is left out of anything else.
    pub fn describe(
        address: String,
        username: String,
        service: String,
        command: Option<String>,
    ) -> (attempt: LoginAttempt)
        ensures
            attempt@ == LoginAttemptView::described(
                address@,
                username@,
                service@,
                text_of(command),
            ),
            attempt.wf(),
    {
        let command = if escalates(service.as_str()) {
            command
        } else {
            None
        };
        LoginAttempt { username, address, service, command }
    }
}

} // verus!
