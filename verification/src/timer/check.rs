//! The sweep over the certificates: which of them are renewed, and how one
//! renewal goes. Whoever drives the sweep reads the clock and the vault and
//! runs the issuances; the decisions are made here.

use crate::acme::error::AcmeError;
use crate::keyvault::{cert_name, cert_name_of, domain, domain_of};
use vstd::prelude::*;

verus! {

/// The time before its expiry from which on a certificate is renewed:
/// thirty days, in nanoseconds.
pub const RENEWAL_WINDOW: i128 = 2_592_000_000_000_000;

/// Whether a certificate that expires at `expires_on` is due at `now`: it
/// expires in less than thirty days. Both are nanoseconds since the epoch.
pub open spec fn due(expires_on: int, now: int) -> bool {
    expires_on - RENEWAL_WINDOW < now
}

/// Whether a certificate that expires at `expires_on` is due at `now`.
pub fn is_due(expires_on: i128, now: i128) -> (is_due: bool)
    ensures
        is_due == due(expires_on as int, now as int),
{
    match expires_on.checked_sub(RENEWAL_WINDOW) {
        Some(renew_from) => renew_from < now,
        None => true,
    }
}

/// A certificate in the vault: its identifier and, where the vault knows
/// it, its expiry in nanoseconds since the epoch.
pub struct Certificate {
    pub id: String,
    pub expires_on: Option<i128>,
}

/// Why a renewal failed.
#[derive(Clone, Copy, Debug, PartialEq, Eq, Structural)]
pub enum UpdateError {
    /// The identifier of the certificate gives no name.
    NameNotFound,
    /// The subject of the certificate gives no domain.
    DomainNotFound,
    /// The vault knows no expiry date of the certificate.
    ExpiryNotFound,
    /// The vault failed.
    Vault,
    /// The issuance failed.
    Issuance(AcmeError),
}

/// What the sweep did with a certificate.
#[derive(Clone, Copy, Debug, PartialEq, Eq, Structural)]
pub enum Outcome {
    /// The certificate expires in more than thirty days.
    NotDue,
    /// A new certificate was issued.
    Renewed,
    /// The renewal failed.
    Failed(UpdateError),
}

/// What the sweep does next.
#[derive(Clone, Copy, Debug, PartialEq, Eq, Structural)]
pub enum SweepStep {
    /// The certificate at `index` is due: it is to be renewed, and the
    /// result reported.
    Renew { index: usize },
    /// A certificate was not due and has been passed over.
    Skipped,
    /// A certificate has no expiry date: it has been noted as failed and
    /// passed over.
    NoExpiry,
    /// Every certificate has been dealt with.
    Finished,
}

/// A sweep over the certificates under way: the certificates, and what was
/// done with those that have been dealt with so far, in their order.
pub struct Sweep {
    pub certificates: Vec<Certificate>,
    pub outcomes: Vec<Outcome>,
}

/// What the sweep does next when it has dealt with the first `done` of the
/// certificates and the time is `now`. It is finished when all certificates
/// have been dealt with, and not before; what became of the certificates
/// before has no part in it.
pub open spec fn step_at(certificates: Seq<Certificate>, done: int, now: int) -> SweepStep {
    if done >= certificates.len() {
        SweepStep::Finished
    } else {
        match certificates[done].expires_on {
            None => SweepStep::NoExpiry,
            Some(expires_on) => if due(expires_on as int, now) {
                SweepStep::Renew { index: done as usize }
            } else {
                SweepStep::Skipped
            },
        }
    }
}

/// What a step notes of the certificate that it passes over: that it was
/// not due, or that it failed for want of an expiry date. A step that asks
/// for a renewal notes nothing yet, and neither does the end.
pub open spec fn noted(step: SweepStep) -> Option<Outcome> {
    match step {
        SweepStep::Skipped => Some(Outcome::NotDue),
        SweepStep::NoExpiry => Some(Outcome::Failed(UpdateError::ExpiryNotFound)),
        SweepStep::Renew { .. } => None,
        SweepStep::Finished => None,
    }
}

/// The outcome that the result of a renewal stands for.
pub open spec fn outcome_of(result: Result<(), UpdateError>) -> Outcome {
    match result {
        Ok(_) => Outcome::Renewed,
        Err(error) => Outcome::Failed(error),
    }
}

/// Begins a sweep over the certificates `certificates`.
pub fn run(certificates: Vec<Certificate>) -> (sweep: Sweep)
    ensures
        sweep.certificates == certificates,
        sweep.outcomes@ == Seq::<Outcome>::empty(),
        sweep.wf(),
{
    Sweep { certificates, outcomes: Vec::new() }
}

impl Sweep {
    /// Whether no more certificates have been dealt with than there are.
    pub open spec fn wf(&self) -> bool {
        self.outcomes@.len() <= self.certificates@.len()
    }

    /// Looks at the next certificate at the time `now`. One that is not due
    /// is passed over and noted as such, and one without an expiry date is
    /// noted as failed and passed over; for one that is due, the renewal is
    /// asked for, and the sweep stays where it is until the result is
    /// reported. The sweep is finished only when every certificate has been
    /// dealt with.
    pub fn next(&mut self, now: i128) -> (step: SweepStep)
        requires
            old(self).wf(),
        ensures
            step == step_at(old(self).certificates@, old(self).outcomes@.len() as int, now as int),
            final(self).certificates == old(self).certificates,
            final(self).outcomes@ == (match noted(step) {
                Some(outcome) => old(self).outcomes@.push(outcome),
                None => old(self).outcomes@,
            }),
            final(self).wf(),
    {
        let done = self.outcomes.len();
        if done >= self.certificates.len() {
            return SweepStep::Finished;
        }
        match self.certificates[done].expires_on {
            None => {
                self.outcomes.push(Outcome::Failed(UpdateError::ExpiryNotFound));
                SweepStep::NoExpiry
            },
            Some(expires_on) => {
                if is_due(expires_on, now) {
                    SweepStep::Renew { index: done }
                } else {
                    self.outcomes.push(Outcome::NotDue);
                    SweepStep::Skipped
                }
            },
        }
    }

    /// Notes the result of the renewal that was asked for, and goes on to
    /// the next certificate, whether the renewal failed or not.
    pub fn report(&mut self, result: Result<(), UpdateError>)
        requires
            old(self).outcomes@.len() < old(self).certificates@.len(),
        ensures
            final(self).certificates == old(self).certificates,
            final(self).outcomes@ == old(self).outcomes@.push(outcome_of(result)),
            final(self).wf(),
    {
        let outcome = match result {
            Ok(_) => Outcome::Renewed,
            Err(error) => Outcome::Failed(error),
        };
        self.outcomes.push(outcome);
    }
}

/// A failure stays with its certificate: what the sweep does next is the
/// same whatever became of the certificate before, be it renewed, passed
/// over, failed in its renewal or failed for want of an expiry date; and
/// while certificates are left, the sweep is not finished.
pub proof fn lemma_failure_is_isolated(
    certificates: Seq<Certificate>,
    outcomes: Seq<Outcome>,
    one: Outcome,
    other: Outcome,
    now: int,
)
    ensures
        step_at(certificates, outcomes.push(one).len() as int, now) == step_at(
            certificates,
            outcomes.push(other).len() as int,
            now,
        ),
        outcomes.len() + 1 < certificates.len() ==> step_at(
            certificates,
            outcomes.push(one).len() as int,
            now,
        ) != SweepStep::Finished,
{
}

/// The sweep ends at the end and nowhere else: it is finished exactly when
/// every certificate has been dealt with. Before that, each step is for the
/// certificate whose turn it is, and depends on that certificate alone.
pub proof fn lemma_sweep_ends_at_the_end(
    certificates: Seq<Certificate>,
    others: Seq<Certificate>,
    done: int,
    now: int,
)
    requires
        0 <= done,
    ensures
        step_at(certificates, done, now) == SweepStep::Finished <==> done >= certificates.len(),
        done < certificates.len() && done < others.len() && certificates[done] == others[done]
            ==> step_at(certificates, done, now) == step_at(others, done, now),
{
}

/// A certificate without an expiry date does not stop the sweep: it is
/// noted as failed, and the step after it is the one for the certificate
/// that follows.
pub proof fn lemma_missing_expiry_is_passed_over(
    certificates: Seq<Certificate>,
    outcomes: Seq<Outcome>,
    now: int,
)
    requires
        outcomes.len() < certificates.len(),
        certificates[outcomes.len() as int].expires_on is None,
    ensures
        step_at(certificates, outcomes.len() as int, now) == SweepStep::NoExpiry,
        noted(SweepStep::NoExpiry) == Some(Outcome::Failed(UpdateError::ExpiryNotFound)),
        outcomes.len() + 1 < certificates.len() ==> step_at(
            certificates,
            outcomes.push(Outcome::Failed(UpdateError::ExpiryNotFound)).len() as int,
            now,
        ) != SweepStep::Finished,
{
}

/// The renewal of one certificate under way.
pub enum Update {
    /// The certificate has been asked for.
    Fetching { cert_name: String },
    /// The vault has been asked whether an operation on the certificate is
    /// pending.
    Checking { cert_name: String, domain: String },
    /// The pending operation is being deleted.
    Clearing { cert_name: String, domain: String },
    /// The issuance is under way.
    Issuing,
    /// The renewal has ended.
    Done { result: Result<(), UpdateError> },
}

/// What the vault or the issuance brought.
pub enum UpdateEvent {
    /// The certificate, of which the subject is read.
    Certificate { subject: String },
    /// Whether the vault holds a pending operation on the certificate.
    Operation { pending: bool },
    /// The pending operation is deleted.
    OperationDeleted,
    /// The issuance ended.
    Issued { result: Result<(), AcmeError> },
    /// The vault failed.
    Failure,
}

/// What is to be done next for a renewal.
pub enum UpdateAction {
    /// Fetch the certificate `cert_name` from the vault.
    GetCertificate { cert_name: String },
    /// Ask the vault for the pending operation on `cert_name`.
    GetOperation { cert_name: String },
    /// Delete the pending operation on `cert_name`.
    DeleteOperation { cert_name: String },
    /// Issue a certificate for `domain` and keep it under `cert_name`.
    Issue { domain: String, cert_name: String },
    /// The renewal has ended with `result`.
    Finish { result: Result<(), UpdateError> },
}

/// Whether a renewal ends with `result`.
pub open spec fn finishes(after: Update, action: UpdateAction, result: Result<(), UpdateError>) -> bool {
    after == (Update::Done { result }) && action == (UpdateAction::Finish { result })
}

/// Whether a renewal goes on to the issuance for `domain` under the name
/// `name`.
pub open spec fn issues(
    after: Update,
    action: UpdateAction,
    domain: Seq<char>,
    name: Seq<char>,
) -> bool {
    &&& after == Update::Issuing
    &&& action matches UpdateAction::Issue { domain: for_domain, cert_name }
    &&& for_domain@ == domain
    &&& cert_name@ == name
}

/// What a step of a renewal may do: from `before`, on `event`, it goes to
/// `after` and asks for `action`. A pending operation on the certificate is
/// deleted before the issuance begins. A failure of the vault, a
/// certificate without a domain in its subject, and an answer that was not
/// asked for end the renewal.
pub open spec fn update_transition(
    before: Update,
    event: UpdateEvent,
    after: Update,
    action: UpdateAction,
) -> bool {
    match (before, event) {
        (Update::Done { result }, _) => finishes(after, action, result),
        (Update::Fetching { cert_name }, UpdateEvent::Certificate { subject }) => match domain_of(
            subject@,
        ) {
            None => finishes(after, action, Err(UpdateError::DomainNotFound)),
            Some(domain) => {
                &&& after matches Update::Checking { cert_name: name, domain: for_domain }
                &&& name@ == cert_name@
                &&& for_domain@ == domain
                &&& action matches UpdateAction::GetOperation { cert_name: asked }
                &&& asked@ == cert_name@
            },
        },
        (Update::Checking { cert_name, domain }, UpdateEvent::Operation { pending }) => if pending {
            &&& after == (Update::Clearing { cert_name, domain })
            &&& action matches UpdateAction::DeleteOperation { cert_name: asked }
            &&& asked@ == cert_name@
        } else {
            issues(after, action, domain@, cert_name@)
        },
        (Update::Clearing { cert_name, domain }, UpdateEvent::OperationDeleted) => issues(
            after,
            action,
            domain@,
            cert_name@,
        ),
        (Update::Issuing, UpdateEvent::Issued { result }) => match result {
            Ok(_) => finishes(after, action, Ok(())),
            Err(error) => finishes(after, action, Err(UpdateError::Issuance(error))),
        },
        _ => finishes(after, action, Err(UpdateError::Vault)),
    }
}

/// The end of a renewal.
fn finish(result: Result<(), UpdateError>) -> (out: (Update, UpdateAction))
    ensures
        finishes(out.0, out.1, result),
{
    (Update::Done { result }, UpdateAction::Finish { result })
}

/// Begins the renewal of the certificate with the identifier `id`: the
/// certificate is fetched under the name that the identifier gives. Without
/// a name the renewal ends at once.
pub fn update_cert(id: &str) -> (out: (Update, UpdateAction))
    ensures
        match cert_name_of(id@) {
            None => finishes(out.0, out.1, Err(UpdateError::NameNotFound)),
            Some(name) => {
                &&& out.0 matches Update::Fetching { cert_name }
                &&& cert_name@ == name
                &&& out.1 matches UpdateAction::GetCertificate { cert_name: asked }
                &&& asked@ == name
            },
        },
{
    match cert_name(id) {
        None => finish(Err(UpdateError::NameNotFound)),
        Some(cert_name) => {
            let asked = cert_name.clone();
            (Update::Fetching { cert_name }, UpdateAction::GetCertificate { cert_name: asked })
        },
    }
}

impl Update {
    /// Takes one step of the renewal.
    pub fn step(self, event: UpdateEvent) -> (out: (Update, UpdateAction))
        ensures
            update_transition(self, event, out.0, out.1),
    {
        match (self, event) {
            (Update::Done { result }, _) => finish(result),
            (Update::Fetching { cert_name }, UpdateEvent::Certificate { subject }) => {
                match domain(subject.as_str()) {
                    None => finish(Err(UpdateError::DomainNotFound)),
                    Some(domain) => {
                        let asked = cert_name.clone();
                        (
                            Update::Checking { cert_name, domain },
                            UpdateAction::GetOperation { cert_name: asked },
                        )
                    },
                }
            },
            (Update::Checking { cert_name, domain }, UpdateEvent::Operation { pending }) => {
                if pending {
                    let asked = cert_name.clone();
                    (
                        Update::Clearing { cert_name, domain },
                        UpdateAction::DeleteOperation { cert_name: asked },
                    )
                } else {
                    (Update::Issuing, UpdateAction::Issue { domain, cert_name })
                }
            },
            (Update::Clearing { cert_name, domain }, UpdateEvent::OperationDeleted) => (
                Update::Issuing,
                UpdateAction::Issue { domain, cert_name },
            ),
            (Update::Issuing, UpdateEvent::Issued { result }) => match result {
                Ok(_) => finish(Ok(())),
                Err(error) => finish(Err(UpdateError::Issuance(error))),
            },
            _ => finish(Err(UpdateError::Vault)),
        }
    }
}

} // verus!
