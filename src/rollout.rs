use vstd::prelude::*;
use vstd::string::StringSliceAdditionalSpecFns;

verus! {

/// The Deployment that a delivery restarts.
pub const DEPLOYMENT_NAME: &'static str = "simple-budget";

/// What precedes the label value in the merge patch.
pub const PATCH_HEAD: &'static str = "{\"spec\":{\"template\":{\"metadata\":{\"labels\":{\"released\":\"";

/// What follows the label value in the merge patch.
pub const PATCH_TAIL: &'static str = "\"}}}}}";

/// An ASCII decimal digit.
pub open spec fn is_digit(c: u8) -> bool {
    48 <= c <= 57
}

/// Every byte of `s` is a decimal digit.
pub open spec fn all_digits(s: Seq<u8>) -> bool {
    forall|i: int| 0 <= i < s.len() ==> is_digit(#[trigger] s[i])
}

/// The decimal digits of `s`, in order, with every other byte dropped.
pub open spec fn digits_of(s: Seq<u8>) -> Seq<u8> {
    s.filter(|c: u8| is_digit(c))
}

/// The merge patch that sets the pod template's `released` label to `label`.
pub open spec fn patch_document(label: Seq<u8>) -> Seq<u8> {
    PATCH_HEAD.spec_bytes() + label + PATCH_TAIL.spec_bytes()
}

/// Relies on `SystemTime::elapsed` of `UNIX_EPOCH`: the whole seconds and
/// the nanoseconds below one second since the epoch, or `None` where the
/// system clock reads before it.
#[verifier::external_body]
fn unix_now() -> (r: Option<(u64, u32)>)
    ensures
        r matches Some((_, nanos)) ==> nanos < 1_000_000_000,
{
    std::time::UNIX_EPOCH.elapsed().ok().map(|d| (d.as_secs(), d.subsec_nanos()))
}

/// Relies on chrono's `DateTime::<Utc>::from_timestamp` and its `Display`:
/// `None` for an instant out of chrono's range, else the instant as text,
/// which always writes at least four year digits and two digits each for
/// month, day, hour, minute and second.
#[verifier::external_body]
fn utc_text(secs: i64, nanos: u32) -> (r: Option<Vec<u8>>)
    ensures
        r matches Some(t) ==> digits_of(t@).len() >= 14,
{
    k8s_openapi::chrono::DateTime::<k8s_openapi::chrono::Utc>::from_timestamp(secs, nanos)
        .map(|t| t.to_string().into_bytes())
}

/// The current UTC instant as text, or `None` where the system clock cannot
/// give it.
fn clock_text() -> (r: Option<Vec<u8>>)
    ensures
        r matches Some(t) ==> digits_of(t@).len() >= 14,
{
    let (secs, nanos) = unix_now()?;
    if secs > i64::MAX as u64 {
        return None;
    }
    utc_text(secs as i64, nanos)
}

/// Keeps the decimal digits of `text` and drops everything else.
pub fn digits_only(text: &[u8]) -> (r: Vec<u8>)
    ensures
        r@ == digits_of(text@),
{
    let mut r: Vec<u8> = Vec::new();
    let mut i: usize = 0;
    while i < text.len()
        invariant
            i <= text@.len(),
            r@ == digits_of(text@.subrange(0, i as int)),
        decreases text@.len() - i,
    {
        let c = text[i];
        proof {
            let pre = text@.subrange(0, i as int + 1);
            assert(pre.drop_last() =~= text@.subrange(0, i as int));
            assert(pre.last() == c);
            reveal(Seq::filter);
        }
        if 48 <= c && c <= 57 {
            r.push(c);
        }
        i = i + 1;
    }
    assert(text@.subrange(0, text@.len() as int) =~= text@);
    r
}

/// A label value for a rollout started now: the digits of the current UTC
/// instant, so two rollouts in different seconds get different labels.
/// `None` where the system clock cannot give the instant.
pub fn release_label() -> (r: Option<Vec<u8>>)
    ensures
        r matches Some(l) ==> all_digits(l@) && l@.len() >= 14,
{
    let text = clock_text()?;
    let r = digits_only(text.as_slice());
    proof {
        lemma_digits_are_digits(text@);
    }
    Some(r)
}

proof fn lemma_digits_are_digits(s: Seq<u8>)
    ensures
        all_digits(digits_of(s)),
{
    assert forall|i: int| 0 <= i < digits_of(s).len() implies is_digit(#[trigger] digits_of(s)[i]) by {
        s.lemma_filter_pred(|c: u8| is_digit(c), i);
    }
}

/// The JSON merge patch that sets the pod template's `released` label.
pub fn merge_patch(label: &[u8]) -> (r: Vec<u8>)
    ensures
        r@ == patch_document(label@),
{
    let mut r: Vec<u8> = Vec::new();
    r.extend_from_slice(PATCH_HEAD.as_bytes());
    r.extend_from_slice(label);
    r.extend_from_slice(PATCH_TAIL.as_bytes());
    r
}

/// The merge patch whose label is the digits of the clock text `clock`.
pub fn rollout_patch_for(clock: &[u8]) -> (r: Vec<u8>)
    ensures
        r@ == patch_document(digits_of(clock@)),
{
    let label = digits_only(clock);
    merge_patch(label.as_slice())
}

/// The merge patch for a rollout started now, or `None` where the system
/// clock cannot give the instant.
pub fn rollout_patch() -> (r: Option<Vec<u8>>)
    ensures
        r matches Some(doc) ==> exists|label: Seq<u8>|
            all_digits(label) && label.len() >= 14 && doc@ == patch_document(label),
{
    let text = clock_text()?;
    let doc = rollout_patch_for(text.as_slice());
    proof {
        lemma_digits_are_digits(text@);
    }
    assert(all_digits(digits_of(text@)) && digits_of(text@).len() >= 14);
    Some(doc)
}

} // verus!
