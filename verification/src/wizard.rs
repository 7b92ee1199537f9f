//! The named stages of the provisioning pipeline, as reported to the
//! progress observer.

use vstd::prelude::*;

verus! {

/// One progress event of the provisioning pipeline. The stages before
/// `Complete` are emitted strictly in this order on the success path;
/// `Complete` and `Failed` are the two terminal events.
#[derive(Debug, Clone, Copy, PartialEq, Eq, Structural)]
pub enum WizardStep {
    Cleanup,
    SetupFolders,
    DownloadLauncher,
    WriteResources,
    ExtractResources,
    InitializeWine,
    InstallRuntimes,
    SetupDXVK,
    FinalizeSetup,
    ValidateInstallation,
    Complete,
    Failed,
}

} // verus!
