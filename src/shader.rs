use vstd::prelude::*;
use vstd::utf8::*;
use crate::command::GlCommand;
use crate::error::RenderError;

verus! {

/// The kind of a shader stage.
#[derive(Clone, Copy, Debug, PartialEq, Eq, Structural)]
pub enum StageKind {
    Vertex,
    Fragment,
}

/// A compiled shader stage: its kind, the source it was compiled from and
/// the backend's shader object. Consumed by linking.
#[derive(Debug)]
pub struct ShaderStage {
    pub kind: StageKind,
    pub source: String,
    pub handle: u32,
}

/// A linked program object, ready to be made the active program.
#[derive(Clone, Copy, Debug, PartialEq, Eq, Structural)]
pub struct ShaderProgram {
    pub handle: u32,
}

/// Relies on `String::from_utf8`: it succeeds exactly when the bytes are
/// well-formed UTF-8, and then the string holds those bytes.
#[verifier::external_body]
fn utf8_string(bytes: Vec<u8>) -> (r: Option<String>)
    ensures
        r is Some <==> valid_utf8(bytes@),
        r matches Some(s) ==> s@ == decode_utf8(bytes@),
{
    String::from_utf8(bytes).ok()
}

/// How many bytes of a log buffer hold text, given the count the backend
/// reported as written (the terminating zero not included).
pub open spec fn log_text_len(buf_len: nat, written: int) -> nat {
    if written <= 0 {
        0
    } else if written >= buf_len {
        buf_len
    } else {
        written as nat
    }
}

/// Cuts an info-log buffer down to the text the backend wrote into it,
/// dropping the terminating zero and any unused space.
pub fn trim_info_log(buf: Vec<u8>, written: i32) -> (r: Vec<u8>)
    ensures
        r@ == buf@.take(log_text_len(buf@.len(), written as int) as int),
{
    let ghost whole = buf@;
    let mut buf = buf;
    if written <= 0 {
        buf.truncate(0);
    } else if (written as usize) < buf.len() {
        buf.truncate(written as usize);
    }
    assert(buf@ =~= whole.take(log_text_len(whole.len(), written as int) as int));
    buf
}

/// The error a failed compile reports for `kind`: the log as text where it
/// is UTF-8, else an encoding error that keeps every byte.
pub open spec fn compile_failure(kind: StageKind, log: Seq<u8>, e: RenderError) -> bool {
    if valid_utf8(log) {
        e matches RenderError::ShaderCompile { stage, log: text } && stage == kind && text@
            == decode_utf8(log)
    } else {
        e matches RenderError::DiagnosticEncoding { bytes } && bytes@ == log
    }
}

/// The error a failed link reports, with the same treatment of the log.
pub open spec fn link_failure(log: Seq<u8>, e: RenderError) -> bool {
    if valid_utf8(log) {
        e matches RenderError::ProgramLink { log: text } && text@ == decode_utf8(log)
    } else {
        e matches RenderError::DiagnosticEncoding { bytes } && bytes@ == log
    }
}

/// What compiling `source` as a `kind` stage into the shader object
/// `handle` yields, given the backend's status and log.
pub open spec fn compile_outcome(
    kind: StageKind,
    source: Seq<char>,
    handle: u32,
    compiled: bool,
    log: Seq<u8>,
    r: Result<ShaderStage, RenderError>,
) -> bool {
    if compiled {
        r matches Ok(st) && st.kind == kind && st.source@ == source && st.handle == handle
    } else {
        r matches Err(e) && compile_failure(kind, log, e)
    }
}

/// What linking into the program object `program` yields, given the
/// backend's status and log.
pub open spec fn link_outcome(
    program: u32,
    linked: bool,
    log: Seq<u8>,
    r: Result<ShaderProgram, RenderError>,
) -> bool {
    if linked {
        r == Ok::<ShaderProgram, RenderError>(ShaderProgram { handle: program })
    } else {
        r matches Err(e) && link_failure(log, e)
    }
}

/// Finishes compiling one stage once the backend has reported its status.
/// `log` is the compiler's output (read only on failure); on failure it is
/// surfaced verbatim, or as an encoding error if it is not UTF-8.
pub fn finish_compile(kind: StageKind, source: String, handle: u32, compiled: bool, log: Vec<u8>) -> (r:
    Result<ShaderStage, RenderError>)
    ensures
        compile_outcome(kind, source@, handle, compiled, log@, r),
{
    if compiled {
        Ok(ShaderStage { kind, source, handle })
    } else {
        match utf8_string(log.clone()) {
            Some(text) => Err(RenderError::ShaderCompile { stage: kind, log: text }),
            None => Err(RenderError::DiagnosticEncoding { bytes: log }),
        }
    }
}

/// The commands that link two stages into `program`: attach both, link,
/// then detach and release both stages whatever the outcome.
pub open spec fn link_sequence(program: u32, vertex: u32, fragment: u32) -> Seq<GlCommand> {
    seq![
        GlCommand::AttachShader { program, shader: vertex },
        GlCommand::AttachShader { program, shader: fragment },
        GlCommand::LinkProgram(program),
        GlCommand::DetachShader { program, shader: vertex },
        GlCommand::DetachShader { program, shader: fragment },
        GlCommand::DeleteShader(vertex),
        GlCommand::DeleteShader(fragment),
    ]
}

/// Consumes both stages and returns the commands that link them into the
/// program object `program`. The stages' objects are released by these
/// commands, so no stage outlives linking.
pub fn link_commands(program: u32, vertex: ShaderStage, fragment: ShaderStage) -> (r: Vec<GlCommand>)
    ensures
        r@ == link_sequence(program, vertex.handle, fragment.handle),
{
    let v = vertex.handle;
    let f = fragment.handle;
    let r = vec![
        GlCommand::AttachShader { program, shader: v },
        GlCommand::AttachShader { program, shader: f },
        GlCommand::LinkProgram(program),
        GlCommand::DetachShader { program, shader: v },
        GlCommand::DetachShader { program, shader: f },
        GlCommand::DeleteShader(v),
        GlCommand::DeleteShader(f),
    ];
    assert(r@ =~= link_sequence(program, v, f));
    r
}

/// Finishes linking once the backend has reported the link status of
/// `program`; `log` is the linker's output (read only on failure).
pub fn finish_link(program: u32, linked: bool, log: Vec<u8>) -> (r: Result<ShaderProgram, RenderError>)
    ensures
        link_outcome(program, linked, log@, r),
{
    if linked {
        Ok(ShaderProgram { handle: program })
    } else {
        match utf8_string(log.clone()) {
            Some(text) => Err(RenderError::ProgramLink { log: text }),
            None => Err(RenderError::DiagnosticEncoding { bytes: log }),
        }
    }
}

/// Decoding a non-empty well-formed log gives non-empty text.
proof fn lemma_decoded_log_nonempty(log: Seq<u8>)
    requires
        valid_utf8(log),
        log.len() > 0,
    ensures
        decode_utf8(log).len() > 0,
{
}

/// A stage that fails to compile reports a compile error for its kind whose
/// log is not empty, whenever the backend's log is non-empty UTF-8.
pub proof fn lemma_compile_failure_reports_log(
    kind: StageKind,
    source: Seq<char>,
    handle: u32,
    log: Seq<u8>,
    r: Result<ShaderStage, RenderError>,
)
    requires
        compile_outcome(kind, source, handle, false, log, r),
        valid_utf8(log),
        log.len() > 0,
    ensures
        r matches Err(RenderError::ShaderCompile { stage, log: text }) && stage == kind && text@.len()
            > 0,
{
    lemma_decoded_log_nonempty(log);
}

/// Stages that fail to link give a link error carrying the linker's log;
/// a log that is not UTF-8 is never dropped but reported as such.
pub proof fn lemma_link_failure_reports_link_error(
    program: u32,
    log: Seq<u8>,
    r: Result<ShaderProgram, RenderError>,
)
    requires
        link_outcome(program, false, log, r),
    ensures
        valid_utf8(log) ==> (r matches Err(RenderError::ProgramLink { log: text }) && text@
            == decode_utf8(log)),
        !valid_utf8(log) ==> (r matches Err(RenderError::DiagnosticEncoding { bytes }) && bytes@
            == log),
{
}

} // verus!
