use glboot::command::GlCommand;
use glboot::error::RenderError;
use glboot::shader::{finish_compile, finish_link, link_commands, trim_info_log, ShaderProgram, StageKind};

#[test]
fn compiled_stage_keeps_kind_source_and_handle() {
    let src = String::from("#version 330 core\nvoid main() {}");
    let st = finish_compile(StageKind::Vertex, src.clone(), 7, true, Vec::new()).unwrap();
    assert_eq!(st.kind, StageKind::Vertex);
    assert_eq!(st.source, src);
    assert_eq!(st.handle, 7);
}

#[test]
fn syntax_error_reports_compile_error_with_log() {
    let log = b"0:3(1): error: syntax error, unexpected '}'".to_vec();
    match finish_compile(StageKind::Fragment, String::from("void main( {"), 3, false, log) {
        Err(RenderError::ShaderCompile { stage, log }) => {
            assert_eq!(stage, StageKind::Fragment);
            assert_eq!(log, "0:3(1): error: syntax error, unexpected '}'");
            assert!(!log.is_empty());
        }
        other => panic!("unexpected {:?}", other),
    }
}

#[test]
fn non_utf8_log_is_an_encoding_error() {
    let log = vec![b'e', 0xff, b'r'];
    match finish_compile(StageKind::Vertex, String::from("x"), 1, false, log.clone()) {
        Err(RenderError::DiagnosticEncoding { bytes }) => assert_eq!(bytes, log),
        other => panic!("unexpected {:?}", other),
    }
    match finish_link(9, false, vec![0xc3]) {
        Err(RenderError::DiagnosticEncoding { bytes }) => assert_eq!(bytes, vec![0xc3]),
        other => panic!("unexpected {:?}", other),
    }
}

#[test]
fn multibyte_log_is_decoded() {
    let log = "fehler: ungültig".as_bytes().to_vec();
    match finish_link(2, false, log) {
        Err(RenderError::ProgramLink { log }) => assert_eq!(log, "fehler: ungültig"),
        other => panic!("unexpected {:?}", other),
    }
}

#[test]
fn info_log_is_cut_to_written_text() {
    let buf = b"bad\0\0\0".to_vec();
    assert_eq!(trim_info_log(buf.clone(), 3), b"bad".to_vec());
    assert_eq!(trim_info_log(buf.clone(), 0), Vec::<u8>::new());
    assert_eq!(trim_info_log(buf.clone(), -2), Vec::<u8>::new());
    assert_eq!(trim_info_log(buf.clone(), 40), buf);
}

#[test]
fn link_attaches_links_then_releases_both_stages() {
    let v = finish_compile(StageKind::Vertex, String::from("v"), 4, true, Vec::new()).unwrap();
    let f = finish_compile(StageKind::Fragment, String::from("f"), 5, true, Vec::new()).unwrap();
    let cmds = link_commands(10, v, f);
    assert_eq!(
        cmds,
        vec![
            GlCommand::AttachShader { program: 10, shader: 4 },
            GlCommand::AttachShader { program: 10, shader: 5 },
            GlCommand::LinkProgram(10),
            GlCommand::DetachShader { program: 10, shader: 4 },
            GlCommand::DetachShader { program: 10, shader: 5 },
            GlCommand::DeleteShader(4),
            GlCommand::DeleteShader(5),
        ]
    );
}

#[test]
fn successful_link_yields_program_handle() {
    assert_eq!(finish_link(10, true, Vec::new()).unwrap(), ShaderProgram { handle: 10 });
}

#[test]
fn mismatched_interface_reports_link_error() {
    let log = b"error: fragment shader input `color' has no matching output".to_vec();
    match finish_link(10, false, log) {
        Err(RenderError::ProgramLink { log }) => {
            assert_eq!(log, "error: fragment shader input `color' has no matching output")
        }
        other => panic!("unexpected {:?}", other),
    }
}
