//! Values exchanged between the build pipeline and its front end.
use vstd::prelude::*;

verus! {

/// What the user asked to build.
#[derive(Debug, Clone)]
pub struct BuildOptions {
    pub app_id: String,
    pub app_name: String,
    pub version_name: String,
    pub version_code: u32,
    pub icon_path: Option<String>,
    pub storepass: String,
    pub keypass: String,
    /// `"RpgMakerMV"`, `"RpgMakerMZ"`, `"TyranoBuilder"` or `"RenPy"`.
    pub engine: String,
}

/// Where the signed package went, and what the build warned about.
#[derive(Debug, Clone)]
pub struct BuildResult {
    pub apk_path: String,
    pub warnings: Vec<String>,
}

/// The stages of a build, in the order in which they run.
#[derive(Debug, Clone, Copy, PartialEq, Eq, Structural)]
pub enum PipelineStage {
    Validate,
    Scaffold,
    CopyAssets,
    PatchConfig,
    AddPlatform,
    Build,
    Align,
    Sign,
    Output,
}

/// The state of one stage.
#[derive(Debug, Clone, Copy, PartialEq, Eq, Structural)]
pub enum StageStatus {
    Pending,
    Running,
    Done,
    Failed,
}

/// A stage changed its state.
#[derive(Debug, Clone, Copy, PartialEq, Eq, Structural)]
pub struct PipelineStageEvent {
    pub stage: PipelineStage,
    pub status: StageStatus,
}

/// One line of build output.
#[derive(Debug, Clone)]
pub struct LogLine {
    pub level: String,
    pub message: String,
    pub timestamp: u64,
}

/// Whether a game folder can be built, and why not.
#[derive(Debug, Clone)]
pub struct ValidationResult {
    pub valid: bool,
    pub issues: Vec<String>,
}

} // verus!
