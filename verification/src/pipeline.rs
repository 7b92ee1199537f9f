//! The provisioning pipeline as an ordered list of named steps. A
//! progress event is emitted before each step; the first failure emits
//! the terminal `Failed` event and aborts the rest; completing every step
//! emits `Complete`. The runner itself never retries a step.

use vstd::prelude::*;
use crate::wizard::WizardStep;

verus! {

/// The ten operational steps, in execution order.
pub open spec fn pipeline_steps_spec() -> Seq<WizardStep> {
    seq![
        WizardStep::Cleanup,
        WizardStep::SetupFolders,
        WizardStep::DownloadLauncher,
        WizardStep::WriteResources,
        WizardStep::ExtractResources,
        WizardStep::InitializeWine,
        WizardStep::InstallRuntimes,
        WizardStep::SetupDXVK,
        WizardStep::FinalizeSetup,
        WizardStep::ValidateInstallation,
    ]
}

/// The ten operational steps, in execution order.
pub fn pipeline_steps() -> (r: Vec<WizardStep>)
    ensures
        r@ == pipeline_steps_spec(),
{
    let mut r: Vec<WizardStep> = Vec::new();
    r.push(WizardStep::Cleanup);
    r.push(WizardStep::SetupFolders);
    r.push(WizardStep::DownloadLauncher);
    r.push(WizardStep::WriteResources);
    r.push(WizardStep::ExtractResources);
    r.push(WizardStep::InitializeWine);
    r.push(WizardStep::InstallRuntimes);
    r.push(WizardStep::SetupDXVK);
    r.push(WizardStep::FinalizeSetup);
    r.push(WizardStep::ValidateInstallation);
    proof {
        assert(r@ =~= pipeline_steps_spec());
    }
    r
}

/// The index of the first failing step, if any.
pub open spec fn first_failure(results: Seq<bool>) -> Option<int>
    decreases results.len(),
{
    if results.len() == 0 {
        None
    } else if !results[0] {
        Some(0)
    } else {
        match first_failure(results.skip(1)) {
            Some(i) => Some(i + 1),
            None => None,
        }
    }
}

/// A failure at `i` preceded by successes only is the first failure.
pub proof fn lemma_first_failure_at(results: Seq<bool>, i: int)
    requires
        0 <= i < results.len(),
        !results[i],
        forall|j: int| 0 <= j < i ==> results[j],
    ensures
        first_failure(results) == Some(i),
    decreases results.len(),
{
    if i == 0 {
    } else {
        assert(results[0]);
        assert(results.skip(1)[i - 1] == results[i]);
        assert(forall|j: int| 0 <= j < i - 1 ==> results.skip(1)[j] == results[j + 1]);
        lemma_first_failure_at(results.skip(1), i - 1);
    }
}

/// With every step succeeding there is no first failure.
pub proof fn lemma_first_failure_none(results: Seq<bool>)
    requires
        forall|j: int| 0 <= j < results.len() ==> results[j],
    ensures
        first_failure(results) is None,
    decreases results.len(),
{
    if results.len() == 0 {
    } else {
        assert(results[0]);
        assert(forall|j: int|
            0 <= j < results.skip(1).len() ==> results.skip(1)[j] == results[j + 1]);
        lemma_first_failure_none(results.skip(1));
    }
}

/// The event sequence of one pipeline run, given each step's outcome: on
/// the success path every step in order and then `Complete` (eleven
/// events in all); with a first failure at step `k`, the steps up to and
/// including `k` and then `Failed`, never a step beyond `k`.
pub open spec fn pipeline_events_spec(results: Seq<bool>) -> Seq<WizardStep> {
    match first_failure(results) {
        Some(k) => pipeline_steps_spec().take(k + 1).push(WizardStep::Failed),
        None => pipeline_steps_spec().push(WizardStep::Complete),
    }
}

/// The events one run emits, given the outcome of each of the ten
/// operational steps.
pub fn pipeline_events(results: &Vec<bool>) -> (r: Vec<WizardStep>)
    requires
        results@.len() == pipeline_steps_spec().len(),
    ensures
        r@ == pipeline_events_spec(results@),
{
    let steps = pipeline_steps();
    let mut r: Vec<WizardStep> = Vec::new();
    let mut i: usize = 0;
    while i < steps.len()
        invariant
            steps@ == pipeline_steps_spec(),
            results@.len() == steps@.len(),
            i <= steps@.len(),
            forall|j: int| 0 <= j < i ==> results@[j],
            r@ =~= pipeline_steps_spec().take(i as int),
        decreases steps@.len() - i,
    {
        r.push(steps[i]);
        if !results[i] {
            r.push(WizardStep::Failed);
            proof {
                lemma_first_failure_at(results@, i as int);
                assert(r@ =~= pipeline_steps_spec().take(i as int + 1).push(WizardStep::Failed));
            }
            return r;
        }
        i += 1;
    }
    r.push(WizardStep::Complete);
    proof {
        lemma_first_failure_none(results@);
        assert(pipeline_steps_spec().take(pipeline_steps_spec().len() as int)
            =~= pipeline_steps_spec());
        assert(r@ =~= pipeline_steps_spec().push(WizardStep::Complete));
    }
    r
}

/// A successful run emits exactly the fixed eleven-event sequence: the
/// ten steps in order, ending in `Complete`.
pub proof fn lemma_pipeline_success(results: Seq<bool>)
    requires
        results.len() == pipeline_steps_spec().len(),
        forall|j: int| 0 <= j < results.len() ==> results[j],
    ensures
        pipeline_events_spec(results) == pipeline_steps_spec().push(WizardStep::Complete),
        pipeline_events_spec(results).len() == 11,
        pipeline_events_spec(results).last() == WizardStep::Complete,
{
    lemma_first_failure_none(results);
}

/// A run whose first failure is at step `k` emits the steps up to and
/// including `k` and then `Failed` — and nothing beyond `k`.
pub proof fn lemma_pipeline_failure(results: Seq<bool>, k: int)
    requires
        results.len() == pipeline_steps_spec().len(),
        0 <= k < results.len(),
        !results[k],
        forall|j: int| 0 <= j < k ==> results[j],
    ensures
        pipeline_events_spec(results) == pipeline_steps_spec().take(k + 1).push(WizardStep::Failed),
        pipeline_events_spec(results).len() == k + 2,
        pipeline_events_spec(results).last() == WizardStep::Failed,
        forall|j: int|
            0 <= j <= k ==> pipeline_events_spec(results)[j] == pipeline_steps_spec()[j],
{
    lemma_first_failure_at(results, k);
}

} // verus!
