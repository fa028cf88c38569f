use glboot::command::GlCommand;
use glboot::geometry::{plan_upload, upload_commands, AttributeBinding, UploadError, VertexBuffer, VertexLayout};

fn position_color() -> VertexLayout {
    VertexLayout {
        stride: 6,
        attributes: vec![
            AttributeBinding { location: 0, components: 3, offset: 0 },
            AttributeBinding { location: 1, components: 3, offset: 3 },
        ],
    }
}

#[test]
fn whole_vertices_are_accepted() {
    let plan = plan_upload(18, position_color()).unwrap();
    assert_eq!(plan.vertex_count, 3);
    assert_eq!(plan.byte_len, 72);
    assert_eq!(plan.layout.stride, 6);
    let empty = plan_upload(0, position_color()).unwrap();
    assert_eq!(empty.vertex_count, 0);
    assert_eq!(empty.byte_len, 0);
}

#[test]
fn partial_vertex_is_rejected() {
    assert_eq!(plan_upload(17, position_color()).unwrap_err(), UploadError::PartialVertex);
    assert_eq!(plan_upload(20, position_color()).unwrap_err(), UploadError::PartialVertex);
}

#[test]
fn attribute_past_stride_is_rejected() {
    let layout = VertexLayout {
        stride: 6,
        attributes: vec![
            AttributeBinding { location: 0, components: 3, offset: 0 },
            AttributeBinding { location: 1, components: 4, offset: 3 },
        ],
    };
    assert_eq!(plan_upload(18, layout).unwrap_err(), UploadError::InvalidLayout);
    let zero = VertexLayout { stride: 0, attributes: Vec::new() };
    assert_eq!(plan_upload(0, zero).unwrap_err(), UploadError::InvalidLayout);
    let wide = VertexLayout { stride: 8, attributes: vec![AttributeBinding { location: 0, components: 5, offset: 0 }] };
    assert_eq!(plan_upload(8, wide).unwrap_err(), UploadError::InvalidLayout);
    let none = VertexLayout { stride: 8, attributes: vec![AttributeBinding { location: 0, components: 0, offset: 0 }] };
    assert_eq!(plan_upload(8, none).unwrap_err(), UploadError::InvalidLayout);
    let huge = VertexLayout { stride: 0x2000_0000, attributes: Vec::new() };
    assert_eq!(plan_upload(0, huge).unwrap_err(), UploadError::InvalidLayout);
}

#[test]
fn too_many_vertices_is_rejected() {
    let layout = VertexLayout { stride: 1, attributes: vec![AttributeBinding { location: 0, components: 1, offset: 0 }] };
    assert_eq!(plan_upload(0x8000_0000, layout).unwrap_err(), UploadError::TooManyVertices);
    let layout = VertexLayout { stride: 1, attributes: vec![AttributeBinding { location: 0, components: 1, offset: 0 }] };
    assert_eq!(plan_upload(0x7fff_ffff, layout).unwrap().vertex_count, 0x7fff_ffff);
}

#[test]
fn upload_binds_copies_and_configures_each_attribute() {
    let plan = plan_upload(18, position_color()).unwrap();
    let (buffer, cmds) = upload_commands(&plan, 1, 2);
    assert_eq!(buffer, VertexBuffer { vao: 1, vbo: 2, vertex_count: 3 });
    assert_eq!(
        cmds,
        vec![
            GlCommand::BindVertexArray(1),
            GlCommand::BindArrayBuffer(2),
            GlCommand::StaticBufferData { byte_len: 72 },
            GlCommand::FloatAttribPointer { location: 0, components: 3, stride_bytes: 24, offset_bytes: 0 },
            GlCommand::EnableAttribArray(0),
            GlCommand::FloatAttribPointer { location: 1, components: 3, stride_bytes: 24, offset_bytes: 12 },
            GlCommand::EnableAttribArray(1),
            GlCommand::BindVertexArray(0),
        ]
    );
}
