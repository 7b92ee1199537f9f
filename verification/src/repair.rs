//! Startup validation and self-repair: the startup pass collects every
//! repairable defect without short-circuiting, each defect kind maps to
//! exactly one remediation, the remediations run in finding order, and a
//! full re-validation follows. Repair is attempted once, never
//! recursively.

use vstd::prelude::*;
use crate::error::ValidationError;
use crate::validate::EnvironmentProbe;
use crate::validate::dxvk_ok;
use crate::validate::launcher_ok;
use crate::validate::prefix_ok;

verus! {

/// One remediation procedure. Each [`ValidationError`] maps to exactly
/// one of these; the match in [`repair_action_for`] makes adding a
/// finding kind a compile-time obligation to handle it.
#[derive(Debug, Clone, Copy, PartialEq, Eq, Structural)]
pub enum RepairAction {
    /// Re-run the prefix bootstrap.
    ReinitializePrefix,
    /// Re-download the target application and install it into the prefix
    /// afresh.
    ReinstallGameLauncher,
    /// Re-acquire the graphics layer if its directory is absent, then
    /// re-run the binding step.
    RebindDxvk,
}

/// The remediation for one finding.
pub open spec fn repair_action_spec(e: ValidationError) -> RepairAction {
    match e {
        ValidationError::MissingWinePrefix => RepairAction::ReinitializePrefix,
        ValidationError::MissingGameLauncher => RepairAction::ReinstallGameLauncher,
        ValidationError::MissingDXVKSymlinks => RepairAction::RebindDxvk,
    }
}

/// The remediation for one finding.
pub fn repair_action_for(e: &ValidationError) -> (r: RepairAction)
    ensures
        r == repair_action_spec(*e),
{
    match e {
        ValidationError::MissingWinePrefix => RepairAction::ReinitializePrefix,
        ValidationError::MissingGameLauncher => RepairAction::ReinstallGameLauncher,
        ValidationError::MissingDXVKSymlinks => RepairAction::RebindDxvk,
    }
}

/// The ordered remediation list for a finding list: one action per
/// finding, in finding order.
pub fn attempt_repair(errors: &Vec<ValidationError>) -> (r: Vec<RepairAction>)
    ensures
        r@ == errors@.map_values(|e: ValidationError| repair_action_spec(e)),
{
    let mut out: Vec<RepairAction> = Vec::new();
    let mut i: usize = 0;
    while i < errors.len()
        invariant
            i <= errors@.len(),
            out@.len() == i,
            forall|j: int| 0 <= j < i ==> out@[j] == repair_action_spec(errors@[j]),
        decreases errors@.len() - i,
    {
        out.push(repair_action_for(&errors[i]));
        i += 1;
    }
    proof {
        assert(out@ =~= errors@.map_values(|e: ValidationError| repair_action_spec(e)));
    }
    out
}

/// The findings of one startup validation pass, in check order. Only the
/// three repairable kinds are collected; a missing binary directory and
/// missing runtimes are diagnosed but deliberately not auto-repaired.
pub open spec fn startup_findings(p: EnvironmentProbe) -> Seq<ValidationError> {
    (if !prefix_ok(p) {
        seq![ValidationError::MissingWinePrefix]
    } else {
        Seq::empty()
    }) + (if !launcher_ok(p) {
        seq![ValidationError::MissingGameLauncher]
    } else {
        Seq::empty()
    }) + (if !dxvk_ok(p) {
        seq![ValidationError::MissingDXVKSymlinks]
    } else {
        Seq::empty()
    })
}

/// The remediation list the startup pass asks for.
pub open spec fn startup_repair_plan(p: EnvironmentProbe) -> Seq<RepairAction> {
    startup_findings(p).map_values(|e: ValidationError| repair_action_spec(e))
}

/// The startup validation pass: every repairable defect of the observed
/// environment, in check order and without duplicates.
pub fn validate_on_startup(probe: &EnvironmentProbe) -> (r: Vec<ValidationError>)
    ensures
        r@ == startup_findings(*probe),
{
    let mut errors: Vec<ValidationError> = Vec::new();
    if crate::validate::check_wine_prefix(&probe.markers).is_err() {
        errors.push(ValidationError::MissingWinePrefix);
    }
    if crate::validate::check_game_launcher_exe(probe.launcher_exe_exists).is_err() {
        errors.push(ValidationError::MissingGameLauncher);
    }
    if crate::validate::check_dxvk_symlinks(probe.dxvk_path.as_str(), &probe.dxvk).is_err() {
        errors.push(ValidationError::MissingDXVKSymlinks);
    }
    proof {
        assert(errors@ =~= startup_findings(*probe));
    }
    errors
}

/// A startup pass reports each defect kind at most once: the finding list
/// holds no duplicates.
pub proof fn lemma_findings_distinct(p: EnvironmentProbe)
    ensures
        forall|i: int, j: int|
            0 <= i < j < startup_findings(p).len() ==> startup_findings(p)[i] != startup_findings(
                p,
            )[j],
{
}

/// What faithfully executing a remediation list guarantees of the
/// environment observed afterwards. Re-running the bootstrap leaves the
/// markers complete; reinstalling the application leaves the executable
/// present; rebinding the graphics layer leaves its directory present and
/// every expected binding a correct-target link. What no action touches
/// is observed unchanged.
pub open spec fn repairs_applied(
    p: EnvironmentProbe,
    actions: Seq<RepairAction>,
    q: EnvironmentProbe,
) -> bool {
    &&& (if actions.contains(RepairAction::ReinitializePrefix) {
        q.markers.complete()
    } else {
        q.markers == p.markers
    })
    &&& (if actions.contains(RepairAction::ReinstallGameLauncher) {
        q.launcher_exe_exists
    } else {
        q.launcher_exe_exists == p.launcher_exe_exists
    })
    &&& (if actions.contains(RepairAction::RebindDxvk) {
        dxvk_ok(q)
    } else {
        &&& q.dxvk_path@ == p.dxvk_path@
        &&& q.dxvk.dxvk_dir_exists == p.dxvk.dxvk_dir_exists
        &&& q.dxvk.x64_entries@ == p.dxvk.x64_entries@
        &&& q.dxvk.x32_entries@ == p.dxvk.x32_entries@
    })
}

/// The startup plan asks to reinitialize the prefix exactly when the
/// prefix check failed, and likewise for the other two repairable kinds.
pub proof fn lemma_plan_matches_findings(p: EnvironmentProbe)
    ensures
        startup_repair_plan(p).contains(RepairAction::ReinitializePrefix) <==> !prefix_ok(p),
        startup_repair_plan(p).contains(RepairAction::ReinstallGameLauncher) <==> !launcher_ok(p),
        startup_repair_plan(p).contains(RepairAction::RebindDxvk) <==> !dxvk_ok(p),
{
    let f = startup_findings(p);
    let plan = startup_repair_plan(p);
    assert(forall|i: int| 0 <= i < f.len() ==> plan[i] == repair_action_spec(f[i]));
    if !prefix_ok(p) {
        assert(f[0] == ValidationError::MissingWinePrefix);
        assert(plan[0] == RepairAction::ReinitializePrefix);
        assert(plan.contains(RepairAction::ReinitializePrefix));
    }
    if !launcher_ok(p) {
        let i = if !prefix_ok(p) { 1int } else { 0int };
        assert(f[i] == ValidationError::MissingGameLauncher);
        assert(plan[i] == RepairAction::ReinstallGameLauncher);
        assert(plan.contains(RepairAction::ReinstallGameLauncher));
    }
    if !dxvk_ok(p) {
        let i = f.len() - 1;
        assert(f[i] == ValidationError::MissingDXVKSymlinks);
        assert(plan[i] == RepairAction::RebindDxvk);
        assert(plan.contains(RepairAction::RebindDxvk));
    }
    assert(forall|i: int| 0 <= i < f.len() ==> (f[i] == ValidationError::MissingWinePrefix
        ==> !prefix_ok(p)));
    assert(forall|i: int| 0 <= i < f.len() ==> (f[i] == ValidationError::MissingGameLauncher
        ==> !launcher_ok(p)));
    assert(forall|i: int| 0 <= i < f.len() ==> (f[i] == ValidationError::MissingDXVKSymlinks
        ==> !dxvk_ok(p)));
}

/// Re-running the prefix bootstrap against an already-initialized
/// environment is a no-op with respect to the three marker files: they
/// are observed afterwards exactly as they were.
pub proof fn lemma_reinitialize_idempotent(p: EnvironmentProbe, q: EnvironmentProbe)
    requires
        p.markers.complete(),
        repairs_applied(p, seq![RepairAction::ReinitializePrefix], q),
    ensures
        q.markers == p.markers,
{
    assert(seq![RepairAction::ReinitializePrefix][0] == RepairAction::ReinitializePrefix);
    assert(seq![RepairAction::ReinitializePrefix].contains(RepairAction::ReinitializePrefix));
}

/// Repair is complete for the defect kinds it claims to handle: whatever
/// the startup pass found, an environment observed after its remediation
/// list was faithfully executed shows no repairable finding at all.
pub proof fn lemma_repair_complete(p: EnvironmentProbe, q: EnvironmentProbe)
    requires
        repairs_applied(p, startup_repair_plan(p), q),
    ensures
        startup_findings(q).len() == 0,
{
    lemma_plan_matches_findings(p);
    assert(prefix_ok(q));
    assert(launcher_ok(q));
    if startup_repair_plan(p).contains(RepairAction::RebindDxvk) {
        assert(dxvk_ok(q));
    } else {
        assert(dxvk_ok(p));
        assert(q.dxvk_path@ + "/x64"@ == p.dxvk_path@ + "/x64"@);
        assert(q.dxvk_path@ + "/x32"@ == p.dxvk_path@ + "/x32"@);
        assert(dxvk_ok(q));
    }
    assert(startup_findings(q) =~= Seq::<ValidationError>::empty());
}

} // verus!
