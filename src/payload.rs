use serde_json::Value;
use vstd::prelude::*;

verus! {

/// The name of the workflow whose completion triggers a rollout.
pub const TARGET_WORKFLOW: &'static str = "continuous-delivery";

/// What a verified payload asks for.
#[derive(Debug, Clone, Copy, PartialEq, Eq, Structural)]
pub enum PayloadKind {
    /// The body is not JSON, or has no `workflow_run.name` string.
    Unreadable,
    /// The body names some other workflow.
    OtherWorkflow,
    /// The body names the delivery workflow.
    Delivery,
}

/// The kind of a payload whose `workflow_run.name` was read as `name`
/// (`None` where it could not be read).
pub open spec fn payload_kind_of(name: Option<Seq<char>>) -> PayloadKind {
    match name {
        None => PayloadKind::Unreadable,
        Some(n) => if n == TARGET_WORKFLOW@ {
            PayloadKind::Delivery
        } else {
            PayloadKind::OtherWorkflow
        },
    }
}

/// The text of the string at `inner` inside the object at `outer` of the JSON
/// document `body`, as serde_json reads it; `None` where the body is not JSON
/// or no such string is there.
pub uninterp spec fn json_text_at(body: Seq<u8>, outer: Seq<char>, inner: Seq<char>) -> Option<
    Seq<char>,
>;

/// The contents of an optional string.
pub open spec fn opt_text(s: Option<String>) -> Option<Seq<char>> {
    match s {
        Some(t) => Some(t@),
        None => None,
    }
}

/// Relies on `serde_json::from_slice` into a `Value`, then `Value::get` twice
/// and `Value::as_str`: the result depends on the three arguments alone.
#[verifier::external_body]
fn json_text(body: &[u8], outer: &str, inner: &str) -> (r: Option<String>)
    ensures
        opt_text(r) == json_text_at(body@, outer@, inner@),
{
    let doc: Value = serde_json::from_slice(body).ok()?;
    doc.get(outer)?.get(inner)?.as_str().map(str::to_owned)
}

/// Reads `workflow_run.name` out of a JSON body, if it is there and is a
/// string. Other fields are ignored.
pub fn workflow_run_name(body: &[u8]) -> (r: Option<String>)
    ensures
        opt_text(r) == json_text_at(body@, "workflow_run"@, "name"@),
{
    json_text(body, "workflow_run", "name")
}

/// Classifies a payload by its workflow-run name.
pub fn classify_run_name(name: &Option<String>) -> (r: PayloadKind)
    ensures
        r == payload_kind_of(opt_text(*name)),
{
    match name {
        None => PayloadKind::Unreadable,
        Some(n) => {
            let target = TARGET_WORKFLOW.to_owned();
            if *n == target {
                PayloadKind::Delivery
            } else {
                PayloadKind::OtherWorkflow
            }
        },
    }
}

/// Classifies a raw body: reads its workflow-run name, then classifies that.
pub fn classify_payload(body: &[u8]) -> (r: PayloadKind)
    ensures
        r == payload_kind_of(json_text_at(body@, "workflow_run"@, "name"@)),
{
    let name = workflow_run_name(body);
    classify_run_name(&name)
}

} // verus!
