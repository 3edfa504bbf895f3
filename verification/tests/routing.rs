use synapse::routing::{OnnxStrategy, RoutingError};

#[test]
fn load_without_feature_is_unavailable() {
    // With the `onnx` feature compiled out, loading must fail gracefully
    let err = OnnxStrategy::load("does-not-matter.onnx").unwrap_err();
    assert!(matches!(err, RoutingError::FeatureNotAvailable { .. }));
}

#[test]
fn unavailable_feature_is_named() {
    match OnnxStrategy::load("model.onnx") {
        Err(RoutingError::FeatureNotAvailable { feature }) => assert_eq!(feature, "onnx"),
        _ => panic!("expected feature error"),
    }
}

use synapse::routing::{decide_route, RoutingReason};

fn profiles() -> Vec<(String, String)> {
    vec![
        ("openai".to_owned(), "gpt-4o".to_owned()),
        ("mistral".to_owned(), "mistral-large".to_owned()),
        ("openai".to_owned(), "gpt-4o-mini".to_owned()),
    ]
}

#[test]
fn route_without_profiles_fails() {
    assert!(matches!(decide_route(&Vec::new(), None, None), Err(RoutingError::NoProfiles)));
}

#[test]
fn route_prefers_cheapest_meeting_bar() {
    let d = decide_route(&profiles(), Some(2), Some(1)).expect("routed");
    assert_eq!(d.provider, "openai");
    assert_eq!(d.model, "gpt-4o-mini");
    assert_eq!(d.reason, RoutingReason::OnnxRouted);
    assert_eq!(
        d.alternatives,
        vec![
            ("openai".to_owned(), "gpt-4o".to_owned()),
            ("mistral".to_owned(), "mistral-large".to_owned()),
        ]
    );
}

#[test]
fn route_falls_back_to_best_quality() {
    let d = decide_route(&profiles(), None, Some(1)).expect("routed");
    assert_eq!(d.model, "mistral-large");
    assert_eq!(d.reason, RoutingReason::BestQuality);
    assert_eq!(d.alternatives.len(), 2);
}

#[test]
fn route_with_nothing_chosen_fails() {
    assert!(matches!(decide_route(&profiles(), None, None), Err(RoutingError::NoProfiles)));
}
