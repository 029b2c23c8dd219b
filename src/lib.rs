//! Authentication and rollout decisions for a CI webhook receiver.
//!
//! A request is accepted only when its `X-Hub-Signature-256` header equals
//! `sha256=` followed by the lowercase hex of the HMAC-SHA256 of the raw body.
//! An accepted request whose payload names the delivery workflow asks for a
//! merge patch that stamps the Deployment's pod template with a fresh label.

pub mod payload;
pub mod request;
pub mod rollout;
pub mod signature;

pub use payload::{
    classify_payload, classify_run_name, workflow_run_name, PayloadKind, TARGET_WORKFLOW,
};
pub use request::{
    advance, decide, decide_after, ClusterError, Config, Decision, IgnoreReason, Next, Outcome,
    RolloutStep, StepResult,
};
pub use rollout::{
    digits_only, merge_patch, release_label, rollout_patch, rollout_patch_for, DEPLOYMENT_NAME,
};
pub use signature::{check_signature, verify, AuthError, MAX_SECRET_LEN};
