use crate::payload::{classify_payload, json_text_at, payload_kind_of, PayloadKind};
use crate::rollout::patch_document;
use crate::signature::{
    hmac_sha256, lemma_signature_text_injective, signature_text, verify,
    verify_outcome, view_of, AuthError, MAX_SECRET_LEN,
};
use vstd::prelude::*;
use vstd::string::StringSliceAdditionalSpecFns;

verus! {

/// Why a verified request is answered without touching the cluster.
#[derive(Debug, Clone, Copy, PartialEq, Eq, Structural)]
pub enum IgnoreReason {
    /// The body is not JSON or lacks a `workflow_run.name` string.
    ParseFailure,
    /// The body names another workflow.
    NameMismatch,
    /// Rollouts are switched off in the configuration.
    TriggerDisabled,
}

/// Which step of a rollout failed.
#[derive(Debug, Clone, Copy, PartialEq, Eq, Structural)]
pub enum ClusterError {
    /// No cluster client could be built from the ambient credentials.
    Client,
    /// Fetching the Deployment failed.
    Fetch,
    /// Applying the merge patch failed.
    Patch,
    /// The system clock could not give the instant for the label.
    Clock,
    /// A cluster call took too long and was abandoned.
    Timeout,
}

/// The end state of one request.
#[derive(Debug, Clone, Copy, PartialEq, Eq, Structural)]
pub enum Outcome {
    Rejected(AuthError),
    Ignored(IgnoreReason),
    Completed,
    Failed(ClusterError),
}

/// What to do with a request once it has been authenticated and read.
#[derive(Debug, Clone, Copy, PartialEq, Eq, Structural)]
pub enum Decision {
    /// Answer now with this outcome.
    Respond(Outcome),
    /// Run the rollout, starting at `RolloutStep::Connect` and going on as
    /// `advance` says.
    Trigger,
}

/// Settings read once by the process.
pub struct Config {
    /// The shared HMAC secret, `None` where it is not configured.
    pub secret: Option<Vec<u8>>,
    /// Whether a delivery payload restarts the Deployment.
    pub rollout_enabled: bool,
}

/// The HTTP status of an outcome: refusals and cluster failures are one
/// generic server error, everything else is success.
pub open spec fn status_of(o: Outcome) -> u16 {
    match o {
        Outcome::Rejected(_) => 500,
        Outcome::Failed(_) => 500,
        _ => 200,
    }
}

/// The decision for a request whose authentication gave `auth` and whose
/// payload is of kind `kind`.
pub open spec fn decision_after(
    auth: Result<(), AuthError>,
    enabled: bool,
    kind: PayloadKind,
) -> Decision {
    match auth {
        Err(e) => Decision::Respond(Outcome::Rejected(e)),
        Ok(()) => if !enabled {
            Decision::Respond(Outcome::Ignored(IgnoreReason::TriggerDisabled))
        } else {
            match kind {
                PayloadKind::Unreadable => Decision::Respond(
                    Outcome::Ignored(IgnoreReason::ParseFailure),
                ),
                PayloadKind::OtherWorkflow => Decision::Respond(
                    Outcome::Ignored(IgnoreReason::NameMismatch),
                ),
                PayloadKind::Delivery => Decision::Trigger,
            }
        },
    }
}

/// The authentication result that a decision records.
pub open spec fn auth_part(d: Decision) -> Result<(), AuthError> {
    match d {
        Decision::Respond(Outcome::Rejected(e)) => Err(e),
        _ => Ok(()),
    }
}

/// The payload kind that a decision records (`Unreadable` where it records none).
pub open spec fn kind_part(d: Decision) -> PayloadKind {
    match d {
        Decision::Respond(Outcome::Ignored(IgnoreReason::NameMismatch)) => PayloadKind::OtherWorkflow,
        Decision::Trigger => PayloadKind::Delivery,
        _ => PayloadKind::Unreadable,
    }
}

/// What `decide` may answer: the decision follows from an authentication
/// result that `verify` may give and, for a verified request with rollouts
/// enabled, from the workflow-run name that the body holds.
pub open spec fn decide_allows(
    secret: Option<Seq<u8>>,
    enabled: bool,
    header: Option<Seq<u8>>,
    body: Seq<u8>,
    d: Decision,
) -> bool {
    &&& verify_outcome(secret, body, header, auth_part(d))
    &&& d == decision_after(auth_part(d), enabled, kind_part(d))
    &&& (auth_part(d) is Ok && enabled) ==> kind_part(d) == payload_kind_of(
        json_text_at(body, "workflow_run"@, "name"@),
    )
}

/// One step of a rollout, in the order they run.
#[derive(Debug, Clone, Copy, PartialEq, Eq, Structural)]
pub enum RolloutStep {
    /// Build a cluster client from the ambient credentials.
    Connect,
    /// Fetch the Deployment by name.
    Fetch,
    /// Build the merge patch from the current instant.
    Stamp,
    /// Apply the merge patch to the Deployment.
    Patch,
}

/// How one step went.
#[derive(Debug, Clone, Copy, PartialEq, Eq, Structural)]
pub enum StepResult {
    Succeeded,
    Failed,
    TimedOut,
}

/// What follows a step.
#[derive(Debug, Clone, Copy, PartialEq, Eq, Structural)]
pub enum Next {
    /// Run this step.
    Run(RolloutStep),
    /// The rollout is over, with this outcome.
    Finished(Outcome),
}

/// The error that names a failed step.
pub open spec fn step_error(step: RolloutStep) -> ClusterError {
    match step {
        RolloutStep::Connect => ClusterError::Client,
        RolloutStep::Fetch => ClusterError::Fetch,
        RolloutStep::Stamp => ClusterError::Clock,
        RolloutStep::Patch => ClusterError::Patch,
    }
}

/// What follows `step` once it went as `result`: the next step in order,
/// completion after the patch, or failure at the first step that does not
/// succeed.
pub open spec fn next_after(step: RolloutStep, result: StepResult) -> Next {
    match result {
        StepResult::Failed => Next::Finished(Outcome::Failed(step_error(step))),
        StepResult::TimedOut => Next::Finished(Outcome::Failed(ClusterError::Timeout)),
        StepResult::Succeeded => match step {
            RolloutStep::Connect => Next::Run(RolloutStep::Fetch),
            RolloutStep::Fetch => Next::Run(RolloutStep::Stamp),
            RolloutStep::Stamp => Next::Run(RolloutStep::Patch),
            RolloutStep::Patch => Next::Finished(Outcome::Completed),
        },
    }
}

/// The decision for a request once its authentication and payload kind are known.
pub fn decide_after(auth: Result<(), AuthError>, enabled: bool, kind: PayloadKind) -> (r: Decision)
    ensures
        r == decision_after(auth, enabled, kind),
{
    match auth {
        Err(e) => Decision::Respond(Outcome::Rejected(e)),
        Ok(()) => if !enabled {
            Decision::Respond(Outcome::Ignored(IgnoreReason::TriggerDisabled))
        } else {
            match kind {
                PayloadKind::Unreadable => Decision::Respond(
                    Outcome::Ignored(IgnoreReason::ParseFailure),
                ),
                PayloadKind::OtherWorkflow => Decision::Respond(
                    Outcome::Ignored(IgnoreReason::NameMismatch),
                ),
                PayloadKind::Delivery => Decision::Trigger,
            }
        },
    }
}

/// Authenticates a request against the raw body bytes and, only if that
/// succeeds and rollouts are enabled, reads the payload.
pub fn decide(config: &Config, header: Option<&[u8]>, body: &[u8]) -> (r: Decision)
    ensures
        decide_allows(
            match config.secret {
                Some(s) => Some(s@),
                None => None,
            },
            config.rollout_enabled,
            view_of(header),
            body@,
            r,
        ),
{
    let secret: Option<&[u8]> = match &config.secret {
        Some(s) => Some(s.as_slice()),
        None => None,
    };
    let auth = verify(secret, body, header);
    let kind = if auth.is_ok() && config.rollout_enabled {
        classify_payload(body)
    } else {
        PayloadKind::Unreadable
    };
    decide_after(auth, config.rollout_enabled, kind)
}

/// The step that follows `step`, or the outcome of the rollout.
pub fn advance(step: RolloutStep, result: StepResult) -> (r: Next)
    ensures
        r == next_after(step, result),
{
    match result {
        StepResult::Failed => Next::Finished(
            Outcome::Failed(
                match step {
                    RolloutStep::Connect => ClusterError::Client,
                    RolloutStep::Fetch => ClusterError::Fetch,
                    RolloutStep::Stamp => ClusterError::Clock,
                    RolloutStep::Patch => ClusterError::Patch,
                },
            ),
        ),
        StepResult::TimedOut => Next::Finished(Outcome::Failed(ClusterError::Timeout)),
        StepResult::Succeeded => match step {
            RolloutStep::Connect => Next::Run(RolloutStep::Fetch),
            RolloutStep::Fetch => Next::Run(RolloutStep::Stamp),
            RolloutStep::Stamp => Next::Run(RolloutStep::Patch),
            RolloutStep::Patch => Next::Finished(Outcome::Completed),
        },
    }
}

impl Outcome {
    /// The HTTP status that answers this outcome.
    pub fn status_code(&self) -> (r: u16)
        ensures
            r == status_of(*self),
    {
        match self {
            Outcome::Rejected(_) => 500,
            Outcome::Failed(_) => 500,
            _ => 200,
        }
    }
}

/// A request without a signature header is refused with the generic server
/// error, whatever its body and whatever the configuration.
pub proof fn lemma_missing_header_refused(
    secret: Option<Seq<u8>>,
    enabled: bool,
    body: Seq<u8>,
    d: Decision,
)
    requires
        decide_allows(secret, enabled, None, body, d),
    ensures
        d == Decision::Respond(Outcome::Rejected(AuthError::MissingCredential)),
        status_of(Outcome::Rejected(AuthError::MissingCredential)) == 500,
{
}

/// The header computed from the secret and the body itself is never refused
/// as an invalid signature; only a failure to compute the tag can refuse it.
/// Any other header is refused.
pub proof fn lemma_genuine_signature_accepted(
    key: Seq<u8>,
    body: Seq<u8>,
    header: Seq<u8>,
    r: Result<(), AuthError>,
)
    requires
        key.len() <= MAX_SECRET_LEN,
        verify_outcome(Some(key), body, Some(header), r),
    ensures
        header == signature_text(hmac_sha256(key, body)) ==> (r == Ok::<(), AuthError>(()) || r
            == Err::<(), AuthError>(AuthError::ConfigurationError)),
        header != signature_text(hmac_sha256(key, body)) ==> r is Err,
{
}

/// A verified request is answered with success unless it triggers a rollout;
/// it triggers exactly when rollouts are enabled and the payload names the
/// delivery workflow. A payload that cannot be read is ignored, not refused.
pub proof fn lemma_verified_request_outcomes(enabled: bool, kind: PayloadKind)
    ensures
        decision_after(Ok(()), enabled, kind) is Trigger <==> (enabled && kind
            == PayloadKind::Delivery),
        decision_after(Ok(()), enabled, kind) matches Decision::Respond(o) ==> status_of(o) == 200,
        enabled && kind == PayloadKind::Unreadable ==> decision_after(Ok(()), enabled, kind)
            == Decision::Respond(Outcome::Ignored(IgnoreReason::ParseFailure)),
        enabled && kind == PayloadKind::OtherWorkflow ==> decision_after(Ok(()), enabled, kind)
            == Decision::Respond(Outcome::Ignored(IgnoreReason::NameMismatch)),
{
}

/// Requests are decided independently: two delivery requests, however close
/// in time, both trigger, and a rollout whose steps all succeed completes with
/// success. Two patches are the same document exactly when their labels are
/// equal, so a second rollout within the same second repeats the first patch.
pub proof fn lemma_repeated_delivery_succeeds(label1: Seq<u8>, label2: Seq<u8>)
    ensures
        decision_after(Ok(()), true, PayloadKind::Delivery) == Decision::Trigger,
        next_after(RolloutStep::Connect, StepResult::Succeeded) == Next::Run(RolloutStep::Fetch),
        next_after(RolloutStep::Fetch, StepResult::Succeeded) == Next::Run(RolloutStep::Stamp),
        next_after(RolloutStep::Stamp, StepResult::Succeeded) == Next::Run(RolloutStep::Patch),
        next_after(RolloutStep::Patch, StepResult::Succeeded) == Next::Finished(
            Outcome::Completed,
        ),
        status_of(Outcome::Completed) == 200,
        (patch_document(label1) == patch_document(label2)) <==> (label1 == label2),
{
    if patch_document(label1) == patch_document(label2) {
        lemma_patch_label(label1);
        lemma_patch_label(label2);
    }
}

proof fn lemma_patch_label(label: Seq<u8>)
    ensures
        patch_document(label).subrange(
            crate::rollout::PATCH_HEAD.spec_bytes().len() as int,
            patch_document(label).len() - crate::rollout::PATCH_TAIL.spec_bytes().len(),
        ) == label,
{
    let doc = patch_document(label);
    assert(doc.subrange(
        crate::rollout::PATCH_HEAD.spec_bytes().len() as int,
        doc.len() - crate::rollout::PATCH_TAIL.spec_bytes().len(),
    ) =~= label);
}

/// A header computed for one body is refused for another body whose tag
/// differs, even where the two bodies mean the same JSON: authentication
/// covers the raw bytes.
pub proof fn lemma_altered_body_refused(
    key: Seq<u8>,
    signed: Seq<u8>,
    received: Seq<u8>,
    r: Result<(), AuthError>,
)
    requires
        key.len() <= MAX_SECRET_LEN,
        hmac_sha256(key, signed) != hmac_sha256(key, received),
        verify_outcome(Some(key), received, Some(signature_text(hmac_sha256(key, signed))), r),
    ensures
        r is Err,
{
    if signature_text(hmac_sha256(key, signed)) == signature_text(hmac_sha256(key, received)) {
        lemma_signature_text_injective(hmac_sha256(key, signed), hmac_sha256(key, received));
    }
}

} // verus!
