use pose_nudge::i18n::Translations;
use pose_nudge::monitor::{alert_decision, get_pose_recommendations, resolve_interval_secs};

fn sample_tables() -> Translations {
    let en = vec![
        ("alert_turtle".to_owned(), "Straighten your neck".to_owned()),
        ("alert_both".to_owned(), "Fix your posture".to_owned()),
    ];
    let ko = vec![("alert_turtle".to_owned(), "목을 펴세요".to_owned())];
    Translations::new(vec![("en".to_owned(), en), ("ko".to_owned(), ko)])
}

#[test]
fn translation_lookup_hits_the_requested_language() {
    let t = sample_tables();
    assert_eq!(t.get("ko", "alert_turtle"), "목을 펴세요");
    assert_eq!(t.get("en", "alert_turtle"), "Straighten your neck");
}

#[test]
fn translation_falls_back_to_english() {
    let t = sample_tables();
    assert_eq!(t.get("ko", "alert_both"), "Fix your posture");
    assert_eq!(t.get("ja", "alert_turtle"), "Straighten your neck");
}

#[test]
fn translation_falls_back_to_the_key() {
    let t = sample_tables();
    assert_eq!(t.get("ko", "alert_shoulder"), "alert_shoulder");
    assert_eq!(t.get("zz", "missing_key"), "missing_key");
}

#[test]
fn alert_decision_picks_the_right_key() {
    assert_eq!(alert_decision(true, true, 10), Some("alert_both"));
    assert_eq!(alert_decision(true, false, 10), Some("alert_turtle"));
    assert_eq!(alert_decision(false, true, 10), Some("alert_shoulder"));
    assert_eq!(alert_decision(false, false, 10), None);
}

#[test]
fn alert_decision_respects_the_cooldown() {
    assert_eq!(alert_decision(true, true, 9), None);
    assert_eq!(alert_decision(true, true, 10), Some("alert_both"));
}

#[test]
fn interval_resolution_prefers_seconds() {
    assert_eq!(resolve_interval_secs(Some(42), Some(5)), 42);
    assert_eq!(resolve_interval_secs(None, Some(5)), 300);
    assert_eq!(resolve_interval_secs(None, None), 3);
}

#[test]
fn general_recommendations_list() {
    let r = get_pose_recommendations();
    assert_eq!(r.len(), 5);
    assert_eq!(r[0], "목을 곧게 펴고 어깨를 뒤로 당기세요");
    assert_eq!(r[4], "발은 바닥에 평평하게 놓으세요");
}
