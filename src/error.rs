use vstd::prelude::*;
use crate::shader::StageKind;

verus! {

/// The fatal failures of bringing up the pipeline. None is transient, so
/// none is retried: each ends the run with its diagnostic shown.
#[derive(Debug)]
pub enum RenderError {
    /// No usable graphics backend or configuration on this host.
    ContextCreation { reason: String },
    /// A stage did not compile; `log` is the compiler's output verbatim.
    ShaderCompile { stage: StageKind, log: String },
    /// The stages did not link; `log` is the linker's output verbatim.
    ProgramLink { log: String },
    /// The backend's diagnostic log was not UTF-8; `bytes` is the log as
    /// it came.
    DiagnosticEncoding { bytes: Vec<u8> },
}

} // verus!
