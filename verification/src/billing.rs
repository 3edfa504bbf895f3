//! Usage metering: which meter updates one usage event turns into.

use vstd::prelude::*;

verus! {

/// Configuration for meter key names
#[derive(Debug, Clone)]
pub struct MeterKeys {
    /// Meter key for input tokens
    pub input_tokens: String,
    /// Meter key for output tokens
    pub output_tokens: String,
    /// Meter key for request count
    pub requests: String,
    /// Meter key for message count
    pub messages: String,
}

impl Default for MeterKeys {
    fn default() -> (keys: Self)
        ensures
            keys.input_tokens@ == "input_tokens"@,
            keys.output_tokens@ == "output_tokens"@,
            keys.requests@ == "requests"@,
            keys.messages@ == "messages"@,
    {
        MeterKeys {
            input_tokens: "input_tokens".to_owned(),
            output_tokens: "output_tokens".to_owned(),
            requests: "requests".to_owned(),
            messages: "messages".to_owned(),
        }
    }
}

/// One meter update to send to the billing service
#[derive(Debug, Clone)]
pub struct MeterRecord {
    /// Meter key
    pub meter: String,
    /// Amount by which the meter grows
    pub delta: u32,
    /// Idempotency key of this update
    pub idempotency_key: String,
}

impl View for MeterRecord {
    type V = (Seq<char>, u32, Seq<char>);

    open spec fn view(&self) -> (Seq<char>, u32, Seq<char>) {
        (self.meter@, self.delta, self.idempotency_key@)
    }
}

/// Suffix of the idempotency key of the input-token update
pub open spec fn input_suffix() -> Seq<char> {
    "-input"@
}

/// Suffix of the idempotency key of the output-token update
pub open spec fn output_suffix() -> Seq<char> {
    "-output"@
}

/// Suffix of the idempotency key of the request-count update
pub open spec fn request_suffix() -> Seq<char> {
    "-req"@
}

/// Suffix of the idempotency key of the message-count update
pub open spec fn message_suffix() -> Seq<char> {
    "-msg"@
}

/// The meter updates of one usage event, in the order they are sent: input
/// tokens and output tokens when there are any, then one request and one
/// message, each under the event's idempotency key with a per-meter suffix.
pub open spec fn planned_records(
    keys: MeterKeys,
    input_tokens: u32,
    output_tokens: u32,
    idempotency_key: Seq<char>,
) -> Seq<(Seq<char>, u32, Seq<char>)> {
    let input_part = if input_tokens > 0 {
        seq![(keys.input_tokens@, input_tokens, idempotency_key + input_suffix())]
    } else {
        Seq::empty()
    };
    let output_part = if output_tokens > 0 {
        seq![(keys.output_tokens@, output_tokens, idempotency_key + output_suffix())]
    } else {
        Seq::empty()
    };
    input_part + output_part + seq![
        (keys.requests@, 1u32, idempotency_key + request_suffix()),
        (keys.messages@, 1u32, idempotency_key + message_suffix()),
    ]
}

/// The meter updates that record one usage event
pub fn record_plan(
    meter_keys: &MeterKeys,
    input_tokens: u32,
    output_tokens: u32,
    idempotency_key: &str,
) -> (plan: Vec<MeterRecord>)
    ensures
        plan@.map_values(|r: MeterRecord| r@) == planned_records(
            *meter_keys,
            input_tokens,
            output_tokens,
            idempotency_key@,
        ),
{
    let mut plan: Vec<MeterRecord> = Vec::new();
    if input_tokens > 0 {
        plan.push(
            MeterRecord {
                meter: meter_keys.input_tokens.clone(),
                delta: input_tokens,
                idempotency_key: idempotency_key.to_owned().concat("-input"),
            },
        );
    }
    if output_tokens > 0 {
        plan.push(
            MeterRecord {
                meter: meter_keys.output_tokens.clone(),
                delta: output_tokens,
                idempotency_key: idempotency_key.to_owned().concat("-output"),
            },
        );
    }
    plan.push(
        MeterRecord {
            meter: meter_keys.requests.clone(),
            delta: 1,
            idempotency_key: idempotency_key.to_owned().concat("-req"),
        },
    );
    plan.push(
        MeterRecord {
            meter: meter_keys.messages.clone(),
            delta: 1,
            idempotency_key: idempotency_key.to_owned().concat("-msg"),
        },
    );
    assert(plan@.map_values(|r: MeterRecord| r@) =~= planned_records(
        *meter_keys,
        input_tokens,
        output_tokens,
        idempotency_key@,
    ));
    plan
}


/// Metadata attached to every meter update of an event: the model, the
/// provider and the estimated cost in USD (as rendered text), in that order
pub fn build_metadata(model: &str, provider: &str, estimated_cost_usd: &str) -> (metadata: Vec<
    (String, String),
>)
    ensures
        metadata@.map_values(|p: (String, String)| (p.0@, p.1@)) == seq![
            ("model"@, model@),
            ("provider"@, provider@),
            ("estimated_cost_usd"@, estimated_cost_usd@),
        ],
{
    let mut metadata: Vec<(String, String)> = Vec::new();
    metadata.push(("model".to_owned(), model.to_owned()));
    metadata.push(("provider".to_owned(), provider.to_owned()));
    metadata.push(("estimated_cost_usd".to_owned(), estimated_cost_usd.to_owned()));
    assert(metadata@.map_values(|p: (String, String)| (p.0@, p.1@)) =~= seq![
        ("model"@, model@),
        ("provider"@, provider@),
        ("estimated_cost_usd"@, estimated_cost_usd@),
    ]);
    metadata
}

proof fn lemma_suffix_cancel(prefix: Seq<char>, s1: Seq<char>, s2: Seq<char>)
    requires
        prefix + s1 == prefix + s2,
    ensures
        s1 == s2,
{
    assert(s1 =~= (prefix + s1).subrange(prefix.len() as int, (prefix + s1).len() as int));
    assert(s2 =~= (prefix + s2).subrange(prefix.len() as int, (prefix + s2).len() as int));
}

proof fn lemma_suffixes_distinct()
    ensures
        input_suffix() != output_suffix(),
        input_suffix() != request_suffix(),
        input_suffix() != message_suffix(),
        output_suffix() != request_suffix(),
        output_suffix() != message_suffix(),
        request_suffix() != message_suffix(),
{
    reveal_strlit("-input");
    reveal_strlit("-output");
    reveal_strlit("-req");
    reveal_strlit("-msg");
    assert(input_suffix().len() == 6);
    assert(output_suffix().len() == 7);
    assert(request_suffix().len() == 4);
    assert(message_suffix().len() == 4);
    assert(request_suffix()[1] != message_suffix()[1]);
}

/// Recording an event always counts one request and one message, whatever
/// its token counts (a bring-your-own-key event with no tokens included),
/// and each token meter is updated exactly when its count is positive, by
/// that count. Nothing else is recorded.
pub proof fn lemma_plan_shape(keys: MeterKeys, input_tokens: u32, output_tokens: u32, idempotency_key: Seq<char>)
    ensures
        ({
            let plan = planned_records(keys, input_tokens, output_tokens, idempotency_key);
            let n_tokens = (if input_tokens > 0 { 1int } else { 0int }) + (if output_tokens > 0 { 1int } else { 0int });
            &&& plan.len() == n_tokens + 2
            &&& plan[plan.len() - 2] == (keys.requests@, 1u32, idempotency_key + request_suffix())
            &&& plan[plan.len() - 1] == (keys.messages@, 1u32, idempotency_key + message_suffix())
            &&& input_tokens > 0 ==> plan[0] == (keys.input_tokens@, input_tokens, idempotency_key + input_suffix())
            &&& output_tokens > 0 ==> plan[n_tokens - 1] == (keys.output_tokens@, output_tokens, idempotency_key + output_suffix())
        }),
{
}

/// An event with no tokens records exactly the request and the message count
pub proof fn lemma_zero_tokens_records_counts_only(keys: MeterKeys, idempotency_key: Seq<char>)
    ensures
        planned_records(keys, 0, 0, idempotency_key) == seq![
            (keys.requests@, 1u32, idempotency_key + request_suffix()),
            (keys.messages@, 1u32, idempotency_key + message_suffix()),
        ],
{
    assert(planned_records(keys, 0, 0, idempotency_key) =~= seq![
        (keys.requests@, 1u32, idempotency_key + request_suffix()),
        (keys.messages@, 1u32, idempotency_key + message_suffix()),
    ]);
}

/// No two meter updates of one event share an idempotency key, so the
/// billing service never drops one update as a duplicate of another
pub proof fn lemma_plan_idempotency_keys_distinct(
    keys: MeterKeys,
    input_tokens: u32,
    output_tokens: u32,
    idempotency_key: Seq<char>,
)
    ensures
        ({
            let plan = planned_records(keys, input_tokens, output_tokens, idempotency_key);
            forall|i: int, j: int| 0 <= i < j < plan.len() ==> #[trigger] plan[i].2 != #[trigger] plan[j].2
        }),
{
    let plan = planned_records(keys, input_tokens, output_tokens, idempotency_key);
    lemma_suffixes_distinct();
    assert forall|i: int, j: int| 0 <= i < j < plan.len() implies #[trigger] plan[i].2 != #[trigger] plan[j].2 by {
        let si = if input_tokens > 0 && i == 0 {
            input_suffix()
        } else if i == plan.len() - 1 {
            message_suffix()
        } else if i == plan.len() - 2 {
            request_suffix()
        } else {
            output_suffix()
        };
        let sj = if input_tokens > 0 && j == 0 {
            input_suffix()
        } else if j == plan.len() - 1 {
            message_suffix()
        } else if j == plan.len() - 2 {
            request_suffix()
        } else {
            output_suffix()
        };
        assert(plan[i].2 == idempotency_key + si);
        assert(plan[j].2 == idempotency_key + sj);
        assert(si != sj);
        if plan[i].2 == plan[j].2 {
            lemma_suffix_cancel(idempotency_key, si, sj);
        }
    }
}

} // verus!
