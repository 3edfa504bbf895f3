use std::collections::HashMap;

use synapse::billing::{build_metadata, record_plan, MeterKeys, MeterRecord};

fn metadata_map(model: &str, provider: &str, estimated_cost_usd: f64) -> HashMap<String, String> {
    build_metadata(model, provider, &estimated_cost_usd.to_string())
        .into_iter()
        .collect()
}

fn meters(plan: &[MeterRecord]) -> Vec<&str> {
    plan.iter().map(|r| r.meter.as_str()).collect()
}

#[test]
fn default_meter_keys() {
    let keys = MeterKeys::default();
    assert_eq!(keys.input_tokens, "input_tokens");
    assert_eq!(keys.output_tokens, "output_tokens");
    assert_eq!(keys.requests, "requests");
    assert_eq!(keys.messages, "messages");
}

#[test]
fn byok_event_with_zero_tokens_still_records_request() {
    // A bring-your-own-key event has zero tokens but still counts a request
    let metadata = metadata_map("gpt-4o", "openai", 0.0);
    assert_eq!(metadata.get("model"), Some(&"gpt-4o".to_owned()));

    let plan = record_plan(&MeterKeys::default(), 0, 0, "byok-key-1");
    assert!(meters(&plan).contains(&"requests"));
    assert!(!meters(&plan).contains(&"input_tokens"));
    assert!(!meters(&plan).contains(&"output_tokens"));
}

#[test]
fn build_metadata_includes_fields() {
    let metadata = metadata_map("gpt-4o", "openai", 0.01);
    assert_eq!(metadata.get("model"), Some(&"gpt-4o".to_owned()));
    assert_eq!(metadata.get("provider"), Some(&"openai".to_owned()));
    assert!(metadata.contains_key("estimated_cost_usd"));
}

#[test]
fn byok_zero_token_event_records_request_count_to_aether() {
    let plan = record_plan(&MeterKeys::default(), 0, 0, "byok-idem-1");
    // Request and message counts are always recorded, token meters are skipped
    assert_eq!(meters(&plan), vec!["requests", "messages"]);
    assert!(plan.iter().all(|r| r.delta == 1));
}

#[test]
fn managed_event_records_all_three_meters() {
    let plan = record_plan(&MeterKeys::default(), 500, 200, "managed-idem-1");
    assert_eq!(meters(&plan), vec!["input_tokens", "output_tokens", "requests", "messages"]);
    let deltas: Vec<u32> = plan.iter().map(|r| r.delta).collect();
    assert_eq!(deltas, vec![500, 200, 1, 1]);
}

#[test]
fn plan_idempotency_keys_carry_meter_suffixes() {
    let plan = record_plan(&MeterKeys::default(), 3, 4, "evt");
    let keys: Vec<&str> = plan.iter().map(|r| r.idempotency_key.as_str()).collect();
    assert_eq!(keys, vec!["evt-input", "evt-output", "evt-req", "evt-msg"]);
}

#[test]
fn plan_with_only_output_tokens() {
    let plan = record_plan(&MeterKeys::default(), 0, 7, "k");
    assert_eq!(meters(&plan), vec!["output_tokens", "requests", "messages"]);
    assert_eq!(plan[0].delta, 7);
    assert_eq!(plan[0].idempotency_key, "k-output");
}

#[test]
fn plan_uses_configured_meter_keys() {
    let keys = MeterKeys {
        input_tokens: "in".to_owned(),
        output_tokens: "out".to_owned(),
        requests: "req".to_owned(),
        messages: "msg".to_owned(),
    };
    let plan = record_plan(&keys, 1, 0, "x");
    assert_eq!(meters(&plan), vec!["in", "req", "msg"]);
}

#[test]
fn metadata_entries_in_order() {
    let metadata = build_metadata("m", "p", "0.5");
    assert_eq!(
        metadata,
        vec![
            ("model".to_owned(), "m".to_owned()),
            ("provider".to_owned(), "p".to_owned()),
            ("estimated_cost_usd".to_owned(), "0.5".to_owned()),
        ]
    );
}
