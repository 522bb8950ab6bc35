//! Vertex buffer layouts and the built-in mesh. Each layout's attribute
//! offsets are the running sum of the preceding attribute sizes and stay
//! inside the stride; the mesh's index list addresses only existing
//! vertices.

use crate::fx::Fx;
use crate::vec3::Vec3;
use vstd::prelude::*;

verus! {

#[derive(Clone, Copy, Debug, PartialEq, Eq, Structural)]
pub enum VertexFormat {
    Float32x2,
    Float32x3,
    Float32x4,
}

/// Size in bytes of one attribute of this format.
pub open spec fn format_size(f: VertexFormat) -> int {
    match f {
        VertexFormat::Float32x2 => 8,
        VertexFormat::Float32x3 => 12,
        VertexFormat::Float32x4 => 16,
    }
}

#[derive(Clone, Copy, Debug, PartialEq, Eq, Structural)]
pub enum StepMode {
    Vertex,
    Instance,
}

#[derive(Clone, Copy, Debug, PartialEq, Eq, Structural)]
pub struct VertexAttribute {
    pub offset: u64,
    pub shader_location: u32,
    pub format: VertexFormat,
}

pub struct VertexBufferLayout {
    pub array_stride: u64,
    pub step_mode: StepMode,
    pub attributes: Vec<VertexAttribute>,
}

/// Attributes are laid out back to back from offset zero and fit in the
/// stride, and no two claim the same shader location.
pub open spec fn layout_wf(l: VertexBufferLayout) -> bool {
    &&& forall|i: int|
        0 <= i < l.attributes@.len() ==> (#[trigger] l.attributes@[i]).offset + format_size(
            l.attributes@[i].format,
        ) <= l.array_stride
    &&& (l.attributes@.len() > 0 ==> l.attributes@[0].offset == 0)
    &&& forall|i: int|
        1 <= i < l.attributes@.len() ==> (#[trigger] l.attributes@[i]).offset == l.attributes@[i
            - 1].offset + format_size(l.attributes@[i - 1].format)
    &&& forall|i: int, j: int|
        0 <= i < j < l.attributes@.len() ==> (#[trigger] l.attributes@[i]).shader_location != (
        #[trigger] l.attributes@[j]).shader_location
}

/// The layout of a position + texture-coordinate vertex: 20-byte stride,
/// position at location 0, texture coordinates at location 1.
pub fn vertex_desc() -> (r: VertexBufferLayout)
    ensures
        r.array_stride == 20,
        r.step_mode == StepMode::Vertex,
        r.attributes@.len() == 2,
        r.attributes@[0] == (VertexAttribute {
            offset: 0,
            shader_location: 0,
            format: VertexFormat::Float32x3,
        }),
        r.attributes@[1] == (VertexAttribute {
            offset: 12,
            shader_location: 1,
            format: VertexFormat::Float32x2,
        }),
        layout_wf(r),
{
    let mut attributes: Vec<VertexAttribute> = Vec::new();
    attributes.push(VertexAttribute { offset: 0, shader_location: 0, format: VertexFormat::Float32x3 });
    attributes.push(
        VertexAttribute { offset: 12, shader_location: 1, format: VertexFormat::Float32x2 },
    );
    VertexBufferLayout { array_stride: 20, step_mode: StepMode::Vertex, attributes }
}

/// The layout of a lit model vertex: position, texture coordinates and a
/// normal, 32-byte stride.
pub fn model_vertex_desc() -> (r: VertexBufferLayout)
    ensures
        r.array_stride == 32,
        r.step_mode == StepMode::Vertex,
        r.attributes@.len() == 3,
        r.attributes@[0] == (VertexAttribute {
            offset: 0,
            shader_location: 0,
            format: VertexFormat::Float32x3,
        }),
        r.attributes@[1] == (VertexAttribute {
            offset: 12,
            shader_location: 1,
            format: VertexFormat::Float32x2,
        }),
        r.attributes@[2] == (VertexAttribute {
            offset: 20,
            shader_location: 2,
            format: VertexFormat::Float32x3,
        }),
        layout_wf(r),
{
    let mut attributes: Vec<VertexAttribute> = Vec::new();
    attributes.push(VertexAttribute { offset: 0, shader_location: 0, format: VertexFormat::Float32x3 });
    attributes.push(
        VertexAttribute { offset: 12, shader_location: 1, format: VertexFormat::Float32x2 },
    );
    attributes.push(
        VertexAttribute { offset: 20, shader_location: 2, format: VertexFormat::Float32x3 },
    );
    VertexBufferLayout { array_stride: 32, step_mode: StepMode::Vertex, attributes }
}

/// The layout of one packed instance: a 4x4 matrix as four vec4 columns,
/// stepped per instance, at shader locations 5 through 8.
#[verifier::rlimit(60)]
pub fn instance_raw_desc() -> (r: VertexBufferLayout)
    ensures
        r.array_stride == 64,
        r.step_mode == StepMode::Instance,
        r.attributes@.len() == 4,
        r.attributes@[0] == (VertexAttribute {
            offset: 0,
            shader_location: 5,
            format: VertexFormat::Float32x4,
        }),
        r.attributes@[1] == (VertexAttribute {
            offset: 16,
            shader_location: 6,
            format: VertexFormat::Float32x4,
        }),
        r.attributes@[2] == (VertexAttribute {
            offset: 32,
            shader_location: 7,
            format: VertexFormat::Float32x4,
        }),
        r.attributes@[3] == (VertexAttribute {
            offset: 48,
            shader_location: 8,
            format: VertexFormat::Float32x4,
        }),
        layout_wf(r),
{
    let mut attributes: Vec<VertexAttribute> = Vec::new();
    attributes.push(VertexAttribute { offset: 0, shader_location: 5, format: VertexFormat::Float32x4 });
    attributes.push(
        VertexAttribute { offset: 16, shader_location: 6, format: VertexFormat::Float32x4 },
    );
    attributes.push(
        VertexAttribute { offset: 32, shader_location: 7, format: VertexFormat::Float32x4 },
    );
    attributes.push(
        VertexAttribute { offset: 48, shader_location: 8, format: VertexFormat::Float32x4 },
    );
    VertexBufferLayout { array_stride: 64, step_mode: StepMode::Instance, attributes }
}

/// A vertex kind that knows its own buffer layout.
pub trait Vertex {
    fn desc() -> (r: VertexBufferLayout)
        ensures
            layout_wf(r),
    ;
}

/// A vertex of the built-in textured mesh.
#[derive(Clone, Copy, Debug, PartialEq, Eq, Structural)]
pub struct MeshVertex {
    pub position: Vec3,
    pub tex_u: Fx,
    pub tex_v: Fx,
}

impl Vertex for MeshVertex {
    /// The 20-byte position + texture-coordinate layout.
    fn desc() -> (r: VertexBufferLayout)
        ensures
            r.array_stride == 20,
            r.step_mode == StepMode::Vertex,
            r.attributes@.len() == 2,
            r.attributes@[0] == (VertexAttribute {
                offset: 0,
                shader_location: 0,
                format: VertexFormat::Float32x3,
            }),
            r.attributes@[1] == (VertexAttribute {
                offset: 12,
                shader_location: 1,
                format: VertexFormat::Float32x2,
            }),
    {
        vertex_desc()
    }
}

/// A vertex of a lit model: position, texture coordinates and a normal.
#[derive(Clone, Copy, Debug, PartialEq, Eq, Structural)]
pub struct ModelVertex {
    pub position: Vec3,
    pub tex_u: Fx,
    pub tex_v: Fx,
    pub normal: Vec3,
}

impl Vertex for ModelVertex {
    /// The 32-byte position + texture-coordinate + normal layout.
    fn desc() -> (r: VertexBufferLayout)
        ensures
            r.array_stride == 32,
            r.step_mode == StepMode::Vertex,
            r.attributes@.len() == 3,
            r.attributes@[0] == (VertexAttribute {
                offset: 0,
                shader_location: 0,
                format: VertexFormat::Float32x3,
            }),
            r.attributes@[1] == (VertexAttribute {
                offset: 12,
                shader_location: 1,
                format: VertexFormat::Float32x2,
            }),
            r.attributes@[2] == (VertexAttribute {
                offset: 20,
                shader_location: 2,
                format: VertexFormat::Float32x3,
            }),
    {
        model_vertex_desc()
    }
}

/// The five vertices of the built-in pyramid: a square half-unit base and
/// an apex half a unit up, with their texture coordinates.
pub open spec fn pyramid_vertices_spec() -> Seq<MeshVertex> {
    seq![
        MeshVertex {
            position: Vec3 { x: Fx { raw: ((-32768) as i64) }, y: Fx { raw: ((-32768) as i64) }, z: Fx { raw: 32768 } },
            tex_u: Fx { raw: 0 },
            tex_v: Fx { raw: 65536 },
        },
        MeshVertex {
            position: Vec3 { x: Fx { raw: 32768 }, y: Fx { raw: ((-32768) as i64) }, z: Fx { raw: 32768 } },
            tex_u: Fx { raw: 65536 },
            tex_v: Fx { raw: 65536 },
        },
        MeshVertex {
            position: Vec3 { x: Fx { raw: 0 }, y: Fx { raw: 32768 }, z: Fx { raw: 0 } },
            tex_u: Fx { raw: 32768 },
            tex_v: Fx { raw: 0 },
        },
        MeshVertex {
            position: Vec3 { x: Fx { raw: 32768 }, y: Fx { raw: ((-32768) as i64) }, z: Fx { raw: ((-32768) as i64) } },
            tex_u: Fx { raw: 0 },
            tex_v: Fx { raw: 65536 },
        },
        MeshVertex {
            position: Vec3 { x: Fx { raw: ((-32768) as i64) }, y: Fx { raw: ((-32768) as i64) }, z: Fx { raw: ((-32768) as i64) } },
            tex_u: Fx { raw: 65536 },
            tex_v: Fx { raw: 65536 },
        },
    ]
}

/// The pyramid's vertex list, exactly as `pyramid_vertices_spec` gives it.
pub fn pyramid_vertices() -> (r: Vec<MeshVertex>)
    ensures
        r@ == pyramid_vertices_spec(),
        r@.len() == 5,
        forall|i: int|
            0 <= i < 5 ==> -32768 <= (#[trigger] r@[i]).position.x.raw <= 32768 && -32768
                <= r@[i].position.y.raw <= 32768 && -32768 <= r@[i].position.z.raw <= 32768 && 0
                <= r@[i].tex_u.raw <= 65536 && 0 <= r@[i].tex_v.raw <= 65536,
{
    let h: i64 = 32768;
    let mut out: Vec<MeshVertex> = Vec::new();
    out.push(
        MeshVertex {
            position: Vec3 { x: Fx { raw: -h }, y: Fx { raw: -h }, z: Fx { raw: h } },
            tex_u: Fx { raw: 0 },
            tex_v: Fx { raw: 65536 },
        },
    );
    out.push(
        MeshVertex {
            position: Vec3 { x: Fx { raw: h }, y: Fx { raw: -h }, z: Fx { raw: h } },
            tex_u: Fx { raw: 65536 },
            tex_v: Fx { raw: 65536 },
        },
    );
    out.push(
        MeshVertex {
            position: Vec3 { x: Fx { raw: 0 }, y: Fx { raw: h }, z: Fx { raw: 0 } },
            tex_u: Fx { raw: 32768 },
            tex_v: Fx { raw: 0 },
        },
    );
    out.push(
        MeshVertex {
            position: Vec3 { x: Fx { raw: h }, y: Fx { raw: -h }, z: Fx { raw: -h } },
            tex_u: Fx { raw: 0 },
            tex_v: Fx { raw: 65536 },
        },
    );
    out.push(
        MeshVertex {
            position: Vec3 { x: Fx { raw: -h }, y: Fx { raw: -h }, z: Fx { raw: -h } },
            tex_u: Fx { raw: 65536 },
            tex_v: Fx { raw: 65536 },
        },
    );
    proof {
        assert(out@ =~= pyramid_vertices_spec());
    }
    out
}

/// The pyramid's index list: six triangles, every index addressing one of
/// the five vertices.
pub fn pyramid_indices() -> (r: Vec<u16>)
    ensures
        r@ == seq![
            0u16,
            1u16,
            2u16,
            1u16,
            3u16,
            2u16,
            3u16,
            4u16,
            2u16,
            2u16,
            4u16,
            0u16,
            0u16,
            4u16,
            3u16,
            0u16,
            3u16,
            1u16,
        ],
        r@.len() == 18,
        forall|i: int| 0 <= i < r@.len() ==> r@[i] < 5,
{
    let mut out: Vec<u16> = Vec::new();
    out.push(0);
    out.push(1);
    out.push(2);
    out.push(1);
    out.push(3);
    out.push(2);
    out.push(3);
    out.push(4);
    out.push(2);
    out.push(2);
    out.push(4);
    out.push(0);
    out.push(0);
    out.push(4);
    out.push(3);
    out.push(0);
    out.push(3);
    out.push(1);
    proof {
        assert(out@ =~= seq![
            0u16,
            1u16,
            2u16,
            1u16,
            3u16,
            2u16,
            3u16,
            4u16,
            2u16,
            2u16,
            4u16,
            0u16,
            0u16,
            4u16,
            3u16,
            0u16,
            3u16,
            1u16,
        ]);
    }
    out
}

} // verus!
