//! Audio endpoint state: the volume scalar handed over by the audio
//! subsystem, the percent shown to the UI, and the snapshot type built from
//! them.
//!
//! The subsystem reports the master volume as a scalar of full scale. This
//! crate carries that scalar as a plain integer count of ten-thousandths of
//! full scale (0 = silent, 10_000 = full volume), so every derivation from it
//! is verified; the shell converts the subsystem's value at the boundary.

use vstd::prelude::*;
use vstd::string::*;

verus! {

/// A master-volume scalar in ten-thousandths of full scale.
///
/// The audio subsystem promises values within full scale, but pathological
/// values slightly above it are representable on purpose: the notification
/// path must pass them through unclamped, while the query path clamps.
#[derive(Clone, Copy, Debug, PartialEq, Eq, Structural)]
pub struct VolumeScalar(pub u32);

/// Immutable snapshot of the endpoint's state, created fresh on every query
/// and on every notification.
#[derive(Clone, Debug, PartialEq, Eq, Structural)]
pub struct AudioState {
    pub volume_percent: u32,
    pub is_muted: bool,
}

/// Marks an execution context whose audio-subsystem threading mode is
/// initialized. The shell creates the real per-context initialization and
/// drops it on teardown; inside the library this token stands for that
/// resource, so the worker lifecycle can account for it.
#[derive(Debug)]
pub struct ComGuard {}

/// Errors of the audio module, one variant per failure class: initializing
/// the subsystem for a context, and any other platform call.
#[derive(Clone, Debug, PartialEq, Eq)]
pub enum AudioError {
    ComInit(String),
    WinApi(String),
}

impl AudioError {
    /// The human-readable message surfaced at the UI boundary.
    pub fn message(&self) -> (r: String)
        ensures
            self matches AudioError::ComInit(d) ==> r@ == "COM initialization failed: "@ + d@,
            self matches AudioError::WinApi(d) ==> r@ == "Windows API error: "@ + d@,
    {
        match self {
            AudioError::ComInit(d) => "COM initialization failed: ".to_owned().concat(d.as_str()),
            AudioError::WinApi(d) => "Windows API error: ".to_owned().concat(d.as_str()),
        }
    }
}

/// The audio-subsystem calls that can fail behind a query or set request.
/// Each failure is reported once, named after its step, with the platform
/// diagnostic attached — never retried.
#[derive(Clone, Copy, Debug, PartialEq, Eq, Structural)]
pub enum AudioApiStep {
    CreateEnumerator,
    DefaultDevice,
    Activate,
    GetVolumeScalar,
    GetMute,
    SetVolumeScalar,
    SetMute,
}

/// The diagnostic prefix identifying a failing step.
pub open spec fn step_prefix(s: AudioApiStep) -> Seq<char> {
    match s {
        AudioApiStep::CreateEnumerator => "CoCreateInstance: "@,
        AudioApiStep::DefaultDevice => "GetDefaultAudioEndpoint: "@,
        AudioApiStep::Activate => "Activate: "@,
        AudioApiStep::GetVolumeScalar => "GetMasterVolumeLevelScalar: "@,
        AudioApiStep::GetMute => "GetMute: "@,
        AudioApiStep::SetVolumeScalar => "SetMasterVolumeLevelScalar: "@,
        AudioApiStep::SetMute => "SetMute: "@,
    }
}

/// The typed error for one failing subsystem call: the step's name with the
/// platform diagnostic attached, so the failing step stays identifiable up
/// to the UI boundary.
pub fn api_error(step: AudioApiStep, diagnostic: &str) -> (e: AudioError)
    ensures
        e matches AudioError::WinApi(m) && m@ == step_prefix(step) + diagnostic@,
{
    match step {
        AudioApiStep::CreateEnumerator => AudioError::WinApi(
            "CoCreateInstance: ".to_owned().concat(diagnostic),
        ),
        AudioApiStep::DefaultDevice => AudioError::WinApi(
            "GetDefaultAudioEndpoint: ".to_owned().concat(diagnostic),
        ),
        AudioApiStep::Activate => AudioError::WinApi("Activate: ".to_owned().concat(diagnostic)),
        AudioApiStep::GetVolumeScalar => AudioError::WinApi(
            "GetMasterVolumeLevelScalar: ".to_owned().concat(diagnostic),
        ),
        AudioApiStep::GetMute => AudioError::WinApi("GetMute: ".to_owned().concat(diagnostic)),
        AudioApiStep::SetVolumeScalar => AudioError::WinApi(
            "SetMasterVolumeLevelScalar: ".to_owned().concat(diagnostic),
        ),
        AudioApiStep::SetMute => AudioError::WinApi("SetMute: ".to_owned().concat(diagnostic)),
    }
}

/// Percent corresponding to a scalar, rounded to the nearest whole percent
/// (halves away from zero), with no clamp.
pub open spec fn rounded_percent(s: nat) -> nat {
    (s + 50) / 100
}

/// The query path's percent: rounded, then clamped into 0..=100.
pub open spec fn clamped_percent(s: nat) -> nat {
    if rounded_percent(s) > 100 {
        100
    } else {
        rounded_percent(s)
    }
}

/// The scalar written when the UI asks for a percent: values above 100 are
/// silently capped down, never rejected.
pub open spec fn spec_scalar_for_percent(p: u32) -> int {
    if p > 100 {
        10000
    } else {
        p * 100
    }
}

/// Percent for a delivered notification: deliberately unclamped, so an
/// out-of-range scalar reported by the subsystem shows through.
pub fn notify_percent(s: VolumeScalar) -> (p: u32)
    ensures
        p == rounded_percent(s.0 as nat),
{
    let wide: u64 = (s.0 as u64 + 50) / 100;
    assert(wide == rounded_percent(s.0 as nat));
    wide as u32
}

/// Percent for a query result: rounded and clamped into 0..=100.
pub fn query_percent(s: VolumeScalar) -> (p: u32)
    ensures
        p == clamped_percent(s.0 as nat),
        p <= 100,
{
    let rounded = notify_percent(s);
    if rounded > 100 {
        100
    } else {
        rounded
    }
}

/// The scalar to hand the subsystem for a requested percent.
pub fn scalar_for_percent(percent: u32) -> (s: VolumeScalar)
    ensures
        s.0 == spec_scalar_for_percent(percent),
{
    let capped: u32 = if percent > 100 {
        100
    } else {
        percent
    };
    VolumeScalar(capped * 100)
}

/// Builds the snapshot a query returns, from the two values read off the
/// endpoint. The percent is clamped, unlike the notification path.
pub fn audio_state_from_parts(scalar: VolumeScalar, muted: bool) -> (st: AudioState)
    ensures
        st.volume_percent == clamped_percent(scalar.0 as nat),
        st.volume_percent <= 100,
        st.is_muted == muted,
{
    AudioState { volume_percent: query_percent(scalar), is_muted: muted }
}

/// The snapshot carried by a notification, as a spec-level value.
pub open spec fn spec_notification_state(scalar: VolumeScalar, muted: bool) -> AudioState {
    AudioState { volume_percent: rounded_percent(scalar.0 as nat) as u32, is_muted: muted }
}

/// Builds the snapshot a notification delivers: same shape as a query result,
/// but the percent is not clamped.
pub fn notification_state(scalar: VolumeScalar, muted: bool) -> (st: AudioState)
    ensures
        st == spec_notification_state(scalar, muted),
{
    let p = notify_percent(scalar);
    assert(p == rounded_percent(scalar.0 as nat) as u32);
    AudioState { volume_percent: p, is_muted: muted }
}

/// For every scalar within full scale, the query path's clamp changes
/// nothing: the clamped and the unclamped percent agree, and stay within
/// 0..=100. Only out-of-range scalars are affected by the clamp.
pub proof fn lemma_clamp_vacuous_in_range(s: nat)
    requires
        s <= 10000,
    ensures
        clamped_percent(s) == rounded_percent(s),
        rounded_percent(s) <= 100,
{
    assert((s + 50) / 100 <= 100) by (nonlinear_arith)
        requires s <= 10000;
}

/// Setting the volume to a percent and reading it back returns that percent,
/// capped at 100: the set path's cap and the query path's rounding compose to
/// the identity on 0..=100.
pub proof fn lemma_set_get_round_trip(p: u32)
    ensures
        clamped_percent(spec_scalar_for_percent(p) as nat) == if p > 100 { 100 as nat } else { p as nat },
{
    let s = spec_scalar_for_percent(p) as nat;
    assert((s + 50) / 100 == if p > 100 { 100 as nat } else { p as nat }) by (nonlinear_arith)
        requires s == if p > 100 { 10000 as nat } else { (p * 100) as nat };
}

} // verus!
