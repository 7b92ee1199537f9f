use sbrw_utility::error::ValidationError;
use sbrw_utility::pipeline::pipeline_events;
use sbrw_utility::pipeline::pipeline_steps;
use sbrw_utility::poll::run_poll;
use sbrw_utility::poll::PollOutcome;
use sbrw_utility::repair::attempt_repair;
use sbrw_utility::repair::repair_action_for;
use sbrw_utility::repair::validate_on_startup;
use sbrw_utility::repair::RepairAction;
use sbrw_utility::validate::DllEntry;
use sbrw_utility::validate::DxvkProbe;
use sbrw_utility::validate::EntryState;
use sbrw_utility::validate::EnvironmentProbe;
use sbrw_utility::validate::PrefixMarkers;
use sbrw_utility::wine::initialize_wine_environment;
use sbrw_utility::wine::marker_poll_schedule;
use sbrw_utility::wine::vc_poll_schedule;
use sbrw_utility::wizard::WizardStep;
use sbrw_utility::error::SetupError;

fn installed_reg_lines() -> Vec<String> {
    vec![
        "[Software\\\\Microsoft\\\\VisualStudio\\\\14.0\\\\VC\\\\Runtimes\\\\x64]".to_string(),
        "\"Installed\"=dword:00000001".to_string(),
        "[Software\\\\Wow6432Node\\\\Microsoft\\\\VisualStudio\\\\14.0\\\\VC\\\\Runtimes\\\\x86]".to_string(),
        "\"Installed\"=dword:00000001".to_string(),
    ]
}

fn probe_with_defects() -> EnvironmentProbe {
    EnvironmentProbe {
        markers: PrefixMarkers { user_reg: false, system_reg: false, userdef_reg: false },
        launcher_exe_exists: false,
        wine_bin_dir_exists: true,
        dxvk_path: "/layer".to_string(),
        dxvk: DxvkProbe {
            dxvk_dir_exists: true,
            x64_entries: vec![DllEntry { name: "d3d11.dll".to_string(), state: EntryState::Missing }],
            x32_entries: vec![],
        },
        system_reg_lines: installed_reg_lines(),
    }
}

fn repaired_probe() -> EnvironmentProbe {
    EnvironmentProbe {
        markers: PrefixMarkers { user_reg: true, system_reg: true, userdef_reg: true },
        launcher_exe_exists: true,
        wine_bin_dir_exists: true,
        dxvk_path: "/layer".to_string(),
        dxvk: DxvkProbe {
            dxvk_dir_exists: true,
            x64_entries: vec![DllEntry {
                name: "d3d11.dll".to_string(),
                state: EntryState::Symlink("/layer/x64/d3d11.dll".to_string()),
            }],
            x32_entries: vec![],
        },
        system_reg_lines: installed_reg_lines(),
    }
}

#[test]
fn startup_pass_collects_all_defects_in_order() {
    let findings = validate_on_startup(&probe_with_defects());
    assert_eq!(
        findings,
        vec![
            ValidationError::MissingWinePrefix,
            ValidationError::MissingGameLauncher,
            ValidationError::MissingDXVKSymlinks,
        ]
    );
}

#[test]
fn repair_dispatch_is_one_to_one() {
    assert_eq!(
        repair_action_for(&ValidationError::MissingWinePrefix),
        RepairAction::ReinitializePrefix
    );
    assert_eq!(
        repair_action_for(&ValidationError::MissingGameLauncher),
        RepairAction::ReinstallGameLauncher
    );
    assert_eq!(
        repair_action_for(&ValidationError::MissingDXVKSymlinks),
        RepairAction::RebindDxvk
    );
}

#[test]
fn repair_plan_follows_finding_order() {
    let findings = validate_on_startup(&probe_with_defects());
    let plan = attempt_repair(&findings);
    assert_eq!(
        plan,
        vec![
            RepairAction::ReinitializePrefix,
            RepairAction::ReinstallGameLauncher,
            RepairAction::RebindDxvk,
        ]
    );
}

#[test]
fn revalidation_after_repair_finds_nothing() {
    let before = validate_on_startup(&probe_with_defects());
    assert_eq!(before.len(), 3);
    let after = validate_on_startup(&repaired_probe());
    assert!(after.is_empty());
}

#[test]
fn pipeline_has_ten_ordered_steps() {
    let steps = pipeline_steps();
    assert_eq!(
        steps,
        vec![
            WizardStep::Cleanup,
            WizardStep::SetupFolders,
            WizardStep::DownloadLauncher,
            WizardStep::WriteResources,
            WizardStep::ExtractResources,
            WizardStep::InitializeWine,
            WizardStep::InstallRuntimes,
            WizardStep::SetupDXVK,
            WizardStep::FinalizeSetup,
            WizardStep::ValidateInstallation,
        ]
    );
}

#[test]
fn successful_run_emits_eleven_events_ending_complete() {
    let events = pipeline_events(&vec![true; 10]);
    assert_eq!(events.len(), 11);
    let mut expected = pipeline_steps();
    expected.push(WizardStep::Complete);
    assert_eq!(events, expected);
}

#[test]
fn failure_at_step_k_emits_steps_up_to_k_then_failed() {
    let mut results = vec![true; 10];
    results[2] = false;
    let events = pipeline_events(&results);
    assert_eq!(
        events,
        vec![
            WizardStep::Cleanup,
            WizardStep::SetupFolders,
            WizardStep::DownloadLauncher,
            WizardStep::Failed,
        ]
    );
}

#[test]
fn failure_at_first_step_emits_only_it_and_failed() {
    let mut results = vec![true; 10];
    results[0] = false;
    let events = pipeline_events(&results);
    assert_eq!(events, vec![WizardStep::Cleanup, WizardStep::Failed]);
}

#[test]
fn poll_succeeds_on_first_true_observation() {
    assert_eq!(run_poll(120, &vec![false, false, true, false]), PollOutcome::Satisfied(3));
    assert_eq!(run_poll(120, &vec![true]), PollOutcome::Satisfied(1));
}

#[test]
fn poll_times_out_after_the_whole_budget() {
    assert_eq!(run_poll(120, &vec![false; 200]), PollOutcome::TimedOut(120));
    assert_eq!(run_poll(60, &vec![false; 60]), PollOutcome::TimedOut(60));
}

#[test]
fn initialization_times_out_after_120_attempts_at_500ms() {
    let sched = marker_poll_schedule();
    assert_eq!(sched.interval_ms, 500);
    assert_eq!(sched.max_attempts, 120);
    assert_eq!(sched.warn_at, 60);
    let r = initialize_wine_environment(true, &vec![false; 200]);
    assert!(matches!(r, Err(SetupError::Timeout(_))));
}

#[test]
fn initialization_on_ready_prefix_stops_after_one_look() {
    let r = initialize_wine_environment(true, &vec![true; 200]);
    assert_eq!(r.unwrap(), 1);
}

#[test]
fn initialization_reports_a_failed_bootstrap_command() {
    let r = initialize_wine_environment(false, &vec![true]);
    assert!(matches!(r, Err(SetupError::CommandFailed(_))));
}

#[test]
fn detection_poll_is_sixty_seconds_with_midpoint_warning() {
    let sched = vc_poll_schedule();
    assert_eq!(sched.interval_ms, 1000);
    assert_eq!(sched.max_attempts, 60);
    assert_eq!(sched.warn_at, 30);
}
