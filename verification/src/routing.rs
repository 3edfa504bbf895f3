//! ONNX-based ML routing strategy.
//!
//! A model predicts the quality a query needs; the route then takes the
//! cheapest registered model meeting that bar, or the best available one,
//! and offers every other registered model as an alternative. That selection
//! is decided here. Loading a model needs the ONNX runtime, which this build
//! does not carry (the `onnx` feature is off): the strategy reports that the
//! feature is not available, so the registry can skip it rather than fail.

use vstd::prelude::*;

verus! {

/// Routing errors
#[derive(Debug)]
pub enum RoutingError {
    /// No model profiles are registered
    NoProfiles,
    /// Query analysis or model inference failed
    AnalysisFailed(String),
    /// A feature needed by the strategy was not compiled in
    FeatureNotAvailable { feature: String },
}

/// Why a model was chosen
#[derive(Debug, Clone, Copy, PartialEq, Eq)]
pub enum RoutingReason {
    /// The model is the cheapest one meeting the predicted quality bar
    OnnxRouted,
    /// No model met the bar; the best available quality was taken
    BestQuality,
}

/// The outcome of routing: the chosen model and the ones that could stand in
#[derive(Debug)]
pub struct RoutingDecision {
    /// Provider of the chosen model
    pub provider: String,
    /// The chosen model
    pub model: String,
    /// Why it was chosen
    pub reason: RoutingReason,
    /// Every other registered (provider, model), in registry order
    pub alternatives: Vec<(String, String)>,
}

/// The registered (provider, model) pairs as text
pub open spec fn profiles_view(profiles: Seq<(String, String)>) -> Seq<(Seq<char>, Seq<char>)> {
    profiles.map_values(|p: (String, String)| (p.0@, p.1@))
}

/// The registered pairs other than `chosen`, in registry order
pub open spec fn other_profiles(
    profiles: Seq<(Seq<char>, Seq<char>)>,
    chosen: (Seq<char>, Seq<char>),
) -> Seq<(Seq<char>, Seq<char>)> {
    profiles.filter(differs_from(chosen))
}

/// Holds of the pairs other than `chosen`
pub open spec fn differs_from(chosen: (Seq<char>, Seq<char>)) -> spec_fn((Seq<char>, Seq<char>)) -> bool {
    |p: (Seq<char>, Seq<char>)| p != chosen
}

/// Which registered model the ONNX route picks: the cheapest one meeting the
/// predicted bar when there is one, else the best available
pub open spec fn chosen_index(cheapest_meeting_bar: Option<usize>, best_quality: Option<usize>) -> Option<(usize, RoutingReason)> {
    match cheapest_meeting_bar {
        Some(i) => Some((i, RoutingReason::OnnxRouted)),
        None => match best_quality {
            Some(j) => Some((j, RoutingReason::BestQuality)),
            None => None,
        },
    }
}

/// The selection step of the ONNX route, once the model has predicted the
/// quality a query needs and the registry has been asked which of its
/// `profiles` is the cheapest meeting that bar and which has the best quality
/// (each as an index into `profiles`, absent when there is none).
pub fn decide_route(
    profiles: &Vec<(String, String)>,
    cheapest_meeting_bar: Option<usize>,
    best_quality: Option<usize>,
) -> (res: Result<RoutingDecision, RoutingError>)
    requires
        cheapest_meeting_bar matches Some(i) ==> i < profiles@.len(),
        best_quality matches Some(j) ==> j < profiles@.len(),
    ensures
        cheapest_meeting_bar matches Some(i) ==> (res matches Ok(d) && d.provider@ == profiles@[i as int].0@
            && d.model@ == profiles@[i as int].1@ && d.reason == RoutingReason::OnnxRouted),
        cheapest_meeting_bar is None ==> (best_quality matches Some(j) ==> (res matches Ok(d)
            && d.provider@ == profiles@[j as int].0@ && d.model@ == profiles@[j as int].1@ && d.reason
            == RoutingReason::BestQuality)),
        (cheapest_meeting_bar is None && best_quality is None) ==> res matches Err(
            RoutingError::NoProfiles,
        ),
        profiles@.len() == 0 || chosen_index(cheapest_meeting_bar, best_quality) is None <==> res
            matches Err(RoutingError::NoProfiles),
        res is Ok || res matches Err(RoutingError::NoProfiles),
        res matches Ok(d) ==> ({
            let (i, reason) = chosen_index(cheapest_meeting_bar, best_quality).unwrap();
            &&& d.provider@ == profiles@[i as int].0@
            &&& d.model@ == profiles@[i as int].1@
            &&& d.reason == reason
            &&& d.alternatives@.map_values(|p: (String, String)| (p.0@, p.1@)) == other_profiles(
                profiles_view(profiles@),
                (d.provider@, d.model@),
            )
        }),
{
    if profiles.len() == 0 {
        return Err(RoutingError::NoProfiles);
    }
    let (index, reason) = match cheapest_meeting_bar {
        Some(i) => (i, RoutingReason::OnnxRouted),
        None => match best_quality {
            Some(j) => (j, RoutingReason::BestQuality),
            None => return Err(RoutingError::NoProfiles),
        },
    };
    let provider = profiles[index].0.clone();
    let model = profiles[index].1.clone();
    let ghost chosen = (provider@, model@);
    let ghost pv = profiles_view(profiles@);
    let mut alternatives: Vec<(String, String)> = Vec::new();
    let mut k: usize = 0;
    while k < profiles.len()
        invariant
            k <= profiles@.len(),
            pv == profiles_view(profiles@),
            chosen == (provider@, model@),
            alternatives@.map_values(|p: (String, String)| (p.0@, p.1@)) == other_profiles(
                pv.take(k as int),
                chosen,
            ),
        decreases profiles@.len() - k,
    {
        let ghost before = alternatives@.map_values(|p: (String, String)| (p.0@, p.1@));
        proof {
            reveal_with_fuel(Seq::filter, 1);
            assert(pv.take(k as int + 1).drop_last() =~= pv.take(k as int));
            assert(pv.take(k as int + 1).last() == pv[k as int]);
        }
        if profiles[k].0 != provider || profiles[k].1 != model {
            alternatives.push((profiles[k].0.clone(), profiles[k].1.clone()));
            assert(alternatives@.map_values(|p: (String, String)| (p.0@, p.1@)) =~= before.push(
                pv[k as int],
            ));
        }
        k = k + 1;
    }
    assert(pv.take(profiles@.len() as int) =~= pv);
    assert(pv.len() == profiles@.len());
    Ok(RoutingDecision { provider, model, reason, alternatives })
}

/// The cheapest model meeting the bar is taken whenever there is one, at any
/// index; the best-quality model is taken only when none meets the bar; with
/// neither, nothing is chosen
pub proof fn lemma_choice_prefers_cheapest_meeting_bar(i: usize, j: usize, best_quality: Option<usize>)
    ensures
        chosen_index(Some(i), best_quality) == Some((i, RoutingReason::OnnxRouted)),
        chosen_index(None, Some(j)) == Some((j, RoutingReason::BestQuality)),
        chosen_index(None, None) is None,
{
}

/// The alternatives keep registry order: with no models there are none; a
/// single model is an alternative exactly when it is not the chosen one; and
/// the alternatives of two consecutive parts of the registry are those of the
/// first part followed by those of the second
pub proof fn lemma_alternatives_in_registry_order(
    front: Seq<(Seq<char>, Seq<char>)>,
    back: Seq<(Seq<char>, Seq<char>)>,
    p: (Seq<char>, Seq<char>),
    chosen: (Seq<char>, Seq<char>),
)
    ensures
        other_profiles(Seq::empty(), chosen) == Seq::<(Seq<char>, Seq<char>)>::empty(),
        other_profiles(seq![p], chosen) == (if p == chosen {
            Seq::<(Seq<char>, Seq<char>)>::empty()
        } else {
            seq![p]
        }),
        other_profiles(front + back, chosen) == other_profiles(front, chosen) + other_profiles(
            back,
            chosen,
        ),
{
    reveal_with_fuel(Seq::filter, 2);
    let e = Seq::<(Seq<char>, Seq<char>)>::empty();
    assert(seq![p].drop_last() =~= e);
    Seq::filter_distributes_over_add(front, back, differs_from(chosen));
    if p == chosen {
        assert(other_profiles(seq![p], chosen) =~= e);
    } else {
        assert(other_profiles(seq![p], chosen) =~= seq![p]);
    }
}

/// The chosen model is never offered as its own alternative, and every other
/// registered model is
pub proof fn lemma_alternatives_are_the_others(
    profiles: Seq<(Seq<char>, Seq<char>)>,
    chosen: (Seq<char>, Seq<char>),
)
    ensures
        !other_profiles(profiles, chosen).contains(chosen),
        forall|i: int|
            0 <= i < profiles.len() && profiles[i] != chosen ==> other_profiles(
                profiles,
                chosen,
            ).contains(#[trigger] profiles[i]),
        forall|p: (Seq<char>, Seq<char>)|
            other_profiles(profiles, chosen).contains(p) ==> #[trigger] profiles.contains(p),
{
    let pred = differs_from(chosen);
    let alts = other_profiles(profiles, chosen);
    if alts.contains(chosen) {
        let i = choose|i: int| 0 <= i < alts.len() && alts[i] == chosen;
        profiles.lemma_filter_pred(pred, i);
    }
    assert forall|i: int| 0 <= i < profiles.len() && profiles[i] != chosen implies alts.contains(
        #[trigger] profiles[i],
    ) by {
        profiles.lemma_filter_contains(pred, i);
    }
    assert forall|p: (Seq<char>, Seq<char>)| alts.contains(p) implies #[trigger] profiles.contains(p) by {
        profiles.lemma_filter_contains_rev(pred, p);
    }
}

/// ONNX ML-based routing strategy; without the `onnx` feature it is a
/// placeholder that can never be loaded
#[derive(Debug)]
pub struct OnnxStrategy {
    _phantom: (),
}

impl OnnxStrategy {
    /// Load an ONNX model from disk: always refused, since the `onnx`
    /// feature is not enabled
    pub fn load(_model_path: &str) -> (res: Result<Self, RoutingError>)
        ensures
            res matches Err(RoutingError::FeatureNotAvailable { feature }) && feature@ == "onnx"@,
    {
        Err(RoutingError::FeatureNotAvailable { feature: "onnx".to_owned() })
    }

    /// Route a query: without the `onnx` feature no model can be consulted,
    /// so routing is refused whatever the query profile, the registry and the
    /// feedback are
    pub fn route<Profile, Registry, Feedback>(
        &self,
        _profile: &Profile,
        _registry: &Registry,
        _feedback: Option<&Feedback>,
    ) -> (res: Result<RoutingDecision, RoutingError>)
        ensures
            res matches Err(RoutingError::FeatureNotAvailable { feature }) && feature@ == "onnx"@,
    {
        Err(RoutingError::FeatureNotAvailable { feature: "onnx".to_owned() })
    }

    /// The strategy's name
    pub fn name(&self) -> (name: &'static str)
        ensures
            name@ == "onnx"@,
    {
        "onnx"
    }
}

} // verus!
