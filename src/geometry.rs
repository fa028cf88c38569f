use vstd::prelude::*;
use crate::command::GlCommand;

verus! {

/// One float attribute of an interleaved vertex: its shader location, how
/// many components it has, and where it starts within a vertex, counted in
/// floats.
#[derive(Clone, Copy, Debug, PartialEq, Eq, Structural)]
pub struct AttributeBinding {
    pub location: u32,
    pub components: u32,
    pub offset: u32,
}

/// The layout of an interleaved float buffer: the stride of one vertex in
/// floats, and its attributes in the order they are configured.
#[derive(Debug)]
pub struct VertexLayout {
    pub stride: u32,
    pub attributes: Vec<AttributeBinding>,
}

/// Why vertex data could not be uploaded. Both are caller errors.
#[derive(Clone, Copy, Debug, PartialEq, Eq, Structural)]
pub enum UploadError {
    /// The stride is zero or too large, or an attribute has no components,
    /// more than four, or reaches past the end of the vertex.
    InvalidLayout,
    /// The data does not split into whole vertices.
    PartialVertex,
    /// The data holds more vertices than one draw call can name.
    TooManyVertices,
}

/// A validated upload: the number of vertices, the byte length of the data
/// and the layout to configure.
#[derive(Debug)]
pub struct UploadPlan {
    pub vertex_count: i32,
    pub byte_len: usize,
    pub layout: VertexLayout,
}

/// The vertex-array and buffer objects holding uploaded geometry, and how
/// many vertices they hold.
#[derive(Clone, Copy, Debug, PartialEq, Eq, Structural)]
pub struct VertexBuffer {
    pub vao: u32,
    pub vbo: u32,
    pub vertex_count: i32,
}

/// An attribute's components lie inside one vertex of `stride` floats.
pub open spec fn attribute_fits(a: AttributeBinding, stride: u32) -> bool {
    1 <= a.components <= 4 && a.offset + a.components <= stride
}

/// A layout that can be handed to the backend: a non-zero stride whose byte
/// size fits the backend's signed stride, and attributes that all fit.
pub open spec fn layout_fits(stride: u32, attrs: Seq<AttributeBinding>) -> bool {
    &&& 0 < stride
    &&& stride * 4 <= i32::MAX
    &&& forall|i: int| 0 <= i < attrs.len() ==> attribute_fits(#[trigger] attrs[i], stride)
}

/// What uploading `len` floats with the given layout yields.
pub open spec fn upload_outcome(
    len: nat,
    stride: u32,
    attrs: Seq<AttributeBinding>,
    r: Result<UploadPlan, UploadError>,
) -> bool {
    if !layout_fits(stride, attrs) {
        r == Err::<UploadPlan, UploadError>(UploadError::InvalidLayout)
    } else if len % (stride as nat) != 0 {
        r == Err::<UploadPlan, UploadError>(UploadError::PartialVertex)
    } else if len / (stride as nat) > i32::MAX {
        r == Err::<UploadPlan, UploadError>(UploadError::TooManyVertices)
    } else {
        r matches Ok(p) && p.vertex_count == len / (stride as nat) && p.byte_len == len * 4
            && p.layout.stride == stride && p.layout.attributes@ == attrs
    }
}

/// Checks that `len` floats of vertex data can be uploaded with `layout`.
/// The data's byte length is bounded as that of any allocated float buffer.
pub fn plan_upload(len: usize, layout: VertexLayout) -> (r: Result<UploadPlan, UploadError>)
    requires
        len * 4 <= isize::MAX,
    ensures
        upload_outcome(len as nat, layout.stride, layout.attributes@, r),
{
    let stride = layout.stride;
    if stride == 0 || stride > 0x1fff_ffff {
        return Err(UploadError::InvalidLayout);
    }
    let n = layout.attributes.len();
    let mut i: usize = 0;
    while i < n
        invariant
            n == layout.attributes@.len(),
            stride == layout.stride,
            0 < stride && stride * 4 <= i32::MAX,
            i <= n,
            forall|j: int| 0 <= j < i ==> attribute_fits(#[trigger] layout.attributes@[j], stride),
        decreases n - i,
    {
        let a = layout.attributes[i];
        if a.components < 1 || a.components > 4 || a.components > stride || a.offset > stride
            - a.components {
            assert(!attribute_fits(layout.attributes@[i as int], stride));
            return Err(UploadError::InvalidLayout);
        }
        i = i + 1;
    }
    if len % (stride as usize) != 0 {
        return Err(UploadError::PartialVertex);
    }
    let count = len / (stride as usize);
    if count > 0x7fff_ffff {
        return Err(UploadError::TooManyVertices);
    }
    Ok(UploadPlan { vertex_count: count as i32, byte_len: len * 4, layout })
}

/// The commands that describe a run of attributes to the bound buffer:
/// for each in order, its pointer and then its enable.
pub open spec fn attribute_commands(attrs: Seq<AttributeBinding>, stride: u32) -> Seq<GlCommand>
    decreases attrs.len(),
{
    if attrs.len() == 0 {
        seq![]
    } else {
        let a = attrs.last();
        attribute_commands(attrs.drop_last(), stride) + seq![
            GlCommand::FloatAttribPointer {
                location: a.location,
                components: a.components as i32,
                stride_bytes: (stride * 4) as i32,
                offset_bytes: (a.offset * 4) as usize,
            },
            GlCommand::EnableAttribArray(a.location),
        ]
    }
}

/// The commands that upload geometry into `vao` and `vbo`: bind both, copy
/// the data, configure every attribute, and unbind the vertex array.
pub open spec fn upload_sequence(
    vao: u32,
    vbo: u32,
    byte_len: usize,
    stride: u32,
    attrs: Seq<AttributeBinding>,
) -> Seq<GlCommand> {
    seq![
        GlCommand::BindVertexArray(vao),
        GlCommand::BindArrayBuffer(vbo),
        GlCommand::StaticBufferData { byte_len },
    ] + attribute_commands(attrs, stride) + seq![GlCommand::BindVertexArray(0)]
}

/// Returns the buffer that a validated upload into the fresh objects `vao`
/// and `vbo` produces, and the commands that perform it.
pub fn upload_commands(plan: &UploadPlan, vao: u32, vbo: u32) -> (r: (VertexBuffer, Vec<GlCommand>))
    requires
        layout_fits(plan.layout.stride, plan.layout.attributes@),
    ensures
        r.0 == (VertexBuffer { vao, vbo, vertex_count: plan.vertex_count }),
        r.1@ == upload_sequence(vao, vbo, plan.byte_len, plan.layout.stride, plan.layout.attributes@),
{
    let stride = plan.layout.stride;
    let attrs = &plan.layout.attributes;
    let mut cmds: Vec<GlCommand> = vec![
        GlCommand::BindVertexArray(vao),
        GlCommand::BindArrayBuffer(vbo),
        GlCommand::StaticBufferData { byte_len: plan.byte_len },
    ];
    let ghost head = cmds@;
    let n = attrs.len();
    let mut i: usize = 0;
    while i < n
        invariant
            n == attrs@.len(),
            i <= n,
            layout_fits(stride, attrs@),
            head == seq![
                GlCommand::BindVertexArray(vao),
                GlCommand::BindArrayBuffer(vbo),
                GlCommand::StaticBufferData { byte_len: plan.byte_len },
            ],
            cmds@ == head + attribute_commands(attrs@.take(i as int), stride),
        decreases n - i,
    {
        let a = attrs[i];
        assert(attribute_fits(attrs@[i as int], stride));
        cmds.push(
            GlCommand::FloatAttribPointer {
                location: a.location,
                components: a.components as i32,
                stride_bytes: (stride * 4) as i32,
                offset_bytes: (a.offset as usize) * 4,
            },
        );
        cmds.push(GlCommand::EnableAttribArray(a.location));
        assert(attrs@.take(i + 1).drop_last() =~= attrs@.take(i as int));
        i = i + 1;
        assert(cmds@ =~= head + attribute_commands(attrs@.take(i as int), stride));
    }
    assert(attrs@.take(n as int) =~= attrs@);
    cmds.push(GlCommand::BindVertexArray(0));
    assert(cmds@ =~= upload_sequence(vao, vbo, plan.byte_len, stride, attrs@));
    (VertexBuffer { vao, vbo, vertex_count: plan.vertex_count }, cmds)
}

/// With a layout that fits, and no more vertices than a draw call can name,
/// an upload succeeds exactly when the data is a whole number of vertices.
pub proof fn lemma_upload_accepts_whole_vertices(
    len: nat,
    stride: u32,
    attrs: Seq<AttributeBinding>,
    r: Result<UploadPlan, UploadError>,
)
    requires
        upload_outcome(len, stride, attrs, r),
        layout_fits(stride, attrs),
        len / (stride as nat) <= i32::MAX,
    ensures
        r is Ok <==> len % (stride as nat) == 0,
        r is Err ==> r == Err::<UploadPlan, UploadError>(UploadError::PartialVertex),
{
}

} // verus!
