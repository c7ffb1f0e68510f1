//! The contact pipeline as a state machine. The host performs each action it
//! returns (asks the verification service, hands the email to the relay) and
//! feeds the answer back; the machine decides every step and the final answer.

use vstd::prelude::*;
use vstd::string::*;
use crate::address::{AddressParseError, ClientAddress};
use crate::message::{
    compose, is_email_for, mailbox_ok, ComposeError, Config, ContactSubmission, OutboundMessage,
};

verus! {

/// Where a submission stands.
#[derive(Debug, Clone, Copy, PartialEq, Eq)]
pub enum Phase {
    Received,
    AddressResolved,
    Verified,
    Rejected,
    Sent,
    SendFailed,
}

/// The three answers a visitor can get.
#[derive(Debug, Clone, Copy, PartialEq, Eq)]
pub enum Outcome {
    Accepted,
    InvalidCaptcha,
    SendFailed,
}

pub open spec fn status_of(o: Outcome) -> u32 {
    match o {
        Outcome::Accepted => 200,
        Outcome::InvalidCaptcha => 403,
        Outcome::SendFailed => 500,
    }
}

pub open spec fn message_of(o: Outcome) -> Seq<char> {
    match o {
        Outcome::Accepted => "Thanks for contacting me :)"@,
        Outcome::InvalidCaptcha => "Invalid Captcha"@,
        Outcome::SendFailed => "Oops! Something went wrong when sending the email"@,
    }
}

/// The answer handed back to the visitor.
pub struct SubmissionResult {
    pub status: u32,
    pub message: String,
}

pub open spec fn answers(r: SubmissionResult, o: Outcome) -> bool {
    r.status == status_of(o) && r.message@ == message_of(o)
}

/// The answer for an outcome.
pub fn respond(o: Outcome) -> (r: SubmissionResult)
    ensures
        answers(r, o),
{
    match o {
        Outcome::Accepted => SubmissionResult {
            status: 200,
            message: String::from_str("Thanks for contacting me :)"),
        },
        Outcome::InvalidCaptcha => SubmissionResult {
            status: 403,
            message: String::from_str("Invalid Captcha"),
        },
        Outcome::SendFailed => SubmissionResult {
            status: 500,
            message: String::from_str("Oops! Something went wrong when sending the email"),
        },
    }
}

/// What the host must do next.
pub enum Action {
    /// Ask the verification service about the token, from this address.
    Verify(ClientAddress),
    /// Hand this email to the mail relay, once.
    Relay(OutboundMessage),
    /// Answer the visitor; the submission is over.
    Respond(SubmissionResult),
}

pub open spec fn phase_after_address(ok: bool) -> Phase {
    if ok {
        Phase::AddressResolved
    } else {
        Phase::Rejected
    }
}

pub open spec fn phase_after_compose(ok: bool) -> Phase {
    if ok {
        Phase::Verified
    } else {
        Phase::SendFailed
    }
}

pub open spec fn phase_after_relay(sent: bool) -> Phase {
    if sent {
        Phase::Sent
    } else {
        Phase::SendFailed
    }
}

pub open spec fn is_terminal(p: Phase) -> bool {
    p == Phase::Rejected || p == Phase::Sent || p == Phase::SendFailed
}

/// The answer a terminal phase stands for.
pub open spec fn outcome_of(p: Phase) -> Outcome {
    match p {
        Phase::Sent => Outcome::Accepted,
        Phase::Rejected => Outcome::InvalidCaptcha,
        _ => Outcome::SendFailed,
    }
}

/// One submission on its way through the pipeline.
pub struct Contact {
    phase: Phase,
    relays: u32,
}

impl Contact {
    /// The relay is asked at most once, and only once the token was verified.
    #[verifier::type_invariant]
    spec fn relay_only_after_verification(&self) -> bool {
        &&& self.relays <= 1
        &&& self.relays == 1 ==> (self.phase == Phase::Verified || self.phase == Phase::Sent
            || self.phase == Phase::SendFailed)
    }

    pub closed spec fn phase_spec(&self) -> Phase {
        self.phase
    }

    /// How many times this submission asked the relay to send.
    pub closed spec fn relays_spec(&self) -> nat {
        self.relays as nat
    }

    /// The relay was asked at most once, and never before the token was verified.
    pub open spec fn relay_discipline(&self) -> bool {
        &&& self.relays_spec() <= 1
        &&& self.relays_spec() == 1 ==> (self.phase_spec() == Phase::Verified || self.phase_spec()
            == Phase::Sent || self.phase_spec() == Phase::SendFailed)
    }

    pub open spec fn awaits_relay(&self) -> bool {
        self.phase_spec() == Phase::Verified && self.relays_spec() == 1
    }

    pub fn new() -> (r: Contact)
        ensures
            r.phase_spec() == Phase::Received,
            r.relays_spec() == 0,
            r.relay_discipline(),
    {
        Contact { phase: Phase::Received, relays: 0 }
    }

    pub fn phase(&self) -> (r: Phase)
        ensures
            r == self.phase_spec(),
    {
        self.phase
    }

    pub fn relays(&self) -> (r: u32)
        ensures
            r as nat == self.relays_spec(),
    {
        self.relays
    }

    /// Takes the extracted caller address. Without one the token cannot be
    /// checked, so the submission is denied as an invalid captcha.
    pub fn on_address(&mut self, address: Result<ClientAddress, AddressParseError>) -> (r: Action)
        requires
            old(self).phase_spec() == Phase::Received,
        ensures
            final(self).relay_discipline(),
            final(self).phase_spec() == phase_after_address(address is Ok),
            final(self).relays_spec() == old(self).relays_spec(),
            address matches Ok(a) ==> r == Action::Verify(a),
            address is Err ==> (r matches Action::Respond(res) && answers(
                res,
                Outcome::InvalidCaptcha,
            )),
    {
        proof {
            use_type_invariant(&*self);
        }
        match address {
            Ok(a) => {
                self.phase = Phase::AddressResolved;
                Action::Verify(a)
            },
            Err(_) => {
                self.phase = Phase::Rejected;
                Action::Respond(respond(Outcome::InvalidCaptcha))
            },
        }
    }

    /// Takes the composed email, once the token was verified: the relay is
    /// asked to send it, or, where none could be composed, the send failed.
    pub fn on_composed(&mut self, composed: Result<OutboundMessage, ComposeError>) -> (r: Action)
        requires
            old(self).phase_spec() == Phase::Verified,
            old(self).relays_spec() == 0,
        ensures
            final(self).relay_discipline(),
            final(self).phase_spec() == phase_after_compose(composed is Ok),
            final(self).relays_spec() == if composed is Ok {
                1nat
            } else {
                0nat
            },
            composed matches Ok(m) ==> r == Action::Relay(m),
            composed is Err ==> (r matches Action::Respond(res) && answers(res, Outcome::SendFailed)),
    {
        proof {
            use_type_invariant(&*self);
        }
        match composed {
            Ok(m) => {
                self.relays = 1;
                Action::Relay(m)
            },
            Err(_) => {
                self.phase = Phase::SendFailed;
                Action::Respond(respond(Outcome::SendFailed))
            },
        }
    }

    /// Takes the verification verdict. A refusal denies the submission; a
    /// pass composes the email and asks the relay to send it.
    pub fn on_verification(
        &mut self,
        verified: bool,
        config: &Config,
        submission: &ContactSubmission,
    ) -> (r: Action)
        requires
            old(self).phase_spec() == Phase::AddressResolved,
            old(self).relays_spec() == 0,
        ensures
            final(self).relay_discipline(),
            !verified ==> final(self).phase_spec() == Phase::Rejected && final(self).relays_spec()
                == 0 && (r matches Action::Respond(res) && answers(res, Outcome::InvalidCaptcha)),
            verified && !mailbox_ok(submission.sender_email@) ==> final(self).phase_spec()
                == Phase::SendFailed && final(self).relays_spec() == 0 && (r matches Action::Respond(
                res,
            ) && answers(res, Outcome::SendFailed)),
            verified && mailbox_ok(submission.sender_email@) ==> final(self).phase_spec()
                == Phase::Verified && final(self).relays_spec() == 1 && (r matches Action::Relay(m)
                && is_email_for(m, *config, *submission)),
    {
        proof {
            use_type_invariant(&*self);
        }
        if !verified {
            self.phase = Phase::Rejected;
            return Action::Respond(respond(Outcome::InvalidCaptcha));
        }
        self.phase = Phase::Verified;
        let composed = compose(config, submission);
        self.on_composed(composed)
    }

    /// Takes the relay's answer. There is no second attempt: either way the
    /// submission is over.
    pub fn on_relay(&mut self, sent: bool) -> (r: SubmissionResult)
        requires
            old(self).awaits_relay(),
        ensures
            final(self).relay_discipline(),
            final(self).phase_spec() == phase_after_relay(sent),
            final(self).relays_spec() == old(self).relays_spec(),
            is_terminal(final(self).phase_spec()),
            answers(r, outcome_of(final(self).phase_spec())),
    {
        proof {
            use_type_invariant(&*self);
        }
        if sent {
            self.phase = Phase::Sent;
            respond(Outcome::Accepted)
        } else {
            self.phase = Phase::SendFailed;
            respond(Outcome::SendFailed)
        }
    }
}

} // verus!
