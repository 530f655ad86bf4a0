//! Decisions of the monitoring loop: which alert to raise for a pair of
//! debounced detections, and how to interpret interval settings. The loop
//! itself (camera, clock, notifications) lives with the caller, which hands
//! these functions the detection flags and elapsed times.

use vstd::prelude::*;

verus! {

/// Fewest seconds between two user-visible alerts.
pub const ALERT_COOLDOWN_SECS: u64 = 10;

/// Fallback monitoring interval when the caller supplies none, in seconds.
pub const DEFAULT_MONITORING_SECS: u64 = 3;

/// The translation key of the alert a flag pair warrants, or `None` when
/// no alert is due: either because neither condition is detected or because
/// the last alert was under the cooldown ago.
pub open spec fn spec_alert_key(
    turtle_neck: bool,
    shoulder_misalignment: bool,
    elapsed_secs: u64,
) -> Option<Seq<char>> {
    if (turtle_neck || shoulder_misalignment) && elapsed_secs >= ALERT_COOLDOWN_SECS {
        if turtle_neck && shoulder_misalignment {
            Some("alert_both"@)
        } else if turtle_neck {
            Some("alert_turtle"@)
        } else {
            Some("alert_shoulder"@)
        }
    } else {
        None
    }
}

/// Decides whether an alert is due, and which: both conditions name the
/// combined alert; the cooldown since the last alert must have passed.
pub fn alert_decision(
    turtle_neck: bool,
    shoulder_misalignment: bool,
    elapsed_secs: u64,
) -> (r: Option<&'static str>)
    ensures
        match (r, spec_alert_key(turtle_neck, shoulder_misalignment, elapsed_secs)) {
            (Some(a), Some(b)) => a@ == b,
            (None, None) => true,
            _ => false,
        },
{
    if (turtle_neck || shoulder_misalignment) && elapsed_secs >= ALERT_COOLDOWN_SECS {
        if turtle_neck && shoulder_misalignment {
            Some("alert_both")
        } else if turtle_neck {
            Some("alert_turtle")
        } else {
            Some("alert_shoulder")
        }
    } else {
        None
    }
}

/// The monitoring interval a settings call selects: explicit seconds win,
/// else minutes are converted, else the default applies.
pub open spec fn spec_resolved_interval(secs: Option<u64>, mins: Option<u64>) -> int {
    match secs {
        Some(s) => s as int,
        None => match mins {
            Some(m) => m * 60,
            None => DEFAULT_MONITORING_SECS as int,
        },
    }
}

/// Resolves a settings call's interval choice to seconds.
pub fn resolve_interval_secs(interval_secs: Option<u64>, interval_mins: Option<u64>) -> (r: u64)
    requires
        interval_mins matches Some(m) ==> m <= u64::MAX / 60,
    ensures
        r == spec_resolved_interval(interval_secs, interval_mins),
{
    match interval_secs {
        Some(s) => s,
        None => match interval_mins {
            Some(m) => m * 60,
            None => DEFAULT_MONITORING_SECS,
        },
    }
}

/// The general posture advice shown on request, independent of any frame.
pub fn get_pose_recommendations() -> (r: Vec<String>)
    ensures
        r.deep_view() == seq![
            "목을 곧게 펴고 어깨를 뒤로 당기세요"@,
            "모니터를 눈높이에 맞춰 조정하세요"@,
            "30분마다 스트레칭을 해주세요"@,
            "의자에 등을 완전히 기대고 앉으세요"@,
            "발은 바닥에 평평하게 놓으세요"@,
        ],
{
    let mut recommendations: Vec<String> = Vec::new();
    recommendations.push("목을 곧게 펴고 어깨를 뒤로 당기세요".to_owned());
    recommendations.push("모니터를 눈높이에 맞춰 조정하세요".to_owned());
    recommendations.push("30분마다 스트레칭을 해주세요".to_owned());
    recommendations.push("의자에 등을 완전히 기대고 앉으세요".to_owned());
    recommendations.push("발은 바닥에 평평하게 놓으세요".to_owned());
    proof {
        assert(recommendations.deep_view() =~= seq![
            "목을 곧게 펴고 어깨를 뒤로 당기세요"@,
            "모니터를 눈높이에 맞춰 조정하세요"@,
            "30분마다 스트레칭을 해주세요"@,
            "의자에 등을 완전히 기대고 앉으세요"@,
            "발은 바닥에 평평하게 놓으세요"@,
        ]);
    }
    recommendations
}

} // verus!
