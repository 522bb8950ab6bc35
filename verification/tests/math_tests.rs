use scene_renderer::fx::{Fx, DIV_LIM, SCALE};
use scene_renderer::layout::{
    instance_raw_desc, model_vertex_desc, pyramid_indices, pyramid_vertices, vertex_desc, StepMode,
    VertexFormat,
};
use scene_renderer::model::{draw_model_instanced, DrawCommand, IndexFormat, Material, Mesh, Model};
use scene_renderer::pipeline::{build, select_pipeline, BlendMode, CompareFunction, CullMode,
    FrontFace, PipelineChoice, PolygonMode, PrimitiveTopology};
use scene_renderer::surface::TextureFormat;
use scene_renderer::trig::{cos_fx, isqrt_u128, sin_fx};
use scene_renderer::vec3::Vec3;

fn fxv(raw: i64) -> Fx {
    Fx { raw }
}

fn units(n: i64) -> Fx {
    Fx { raw: n * SCALE }
}

fn to_f64(v: Fx) -> f64 {
    v.raw as f64 / SCALE as f64
}

#[test]
fn fixed_point_products_truncate_toward_zero() {
    assert_eq!(units(3).times(units(4)).raw, 12 * SCALE);
    assert_eq!(units(-3).times(units(4)).raw, -12 * SCALE);
    // 1.5 * 1.5 = 2.25 exactly.
    assert_eq!(fxv(98304).times(fxv(98304)).raw, 147456);
    // (1/3) * 3 truncates just below one.
    let third = units(1).over(units(3)).unwrap();
    assert_eq!(third.raw, 21845);
    assert_eq!(third.times(units(3)).raw, 65535);
}

#[test]
fn division_reports_failure_exactly() {
    assert!(units(1).over(fxv(0)).is_none());
    // A quotient beyond the division bound is refused.
    let huge = fxv(DIV_LIM * 65536 / 2);
    assert!(huge.over(fxv(1)).is_none());
    // An in-range quotient is exact.
    assert_eq!(units(7).over(units(2)).unwrap().raw, 7 * SCALE / 2);
    assert_eq!(units(-7).over(units(2)).unwrap().raw, -(7 * SCALE / 2));
}

#[test]
fn integer_square_roots_are_floors() {
    assert_eq!(isqrt_u128(0), 0);
    assert_eq!(isqrt_u128(1), 1);
    assert_eq!(isqrt_u128(3), 1);
    assert_eq!(isqrt_u128(4), 2);
    assert_eq!(isqrt_u128(99), 9);
    assert_eq!(isqrt_u128(100), 10);
    assert_eq!(isqrt_u128(1 << 60), 1 << 30);
}

#[test]
fn sine_and_cosine_track_the_reference() {
    for deg in [-170i64, -90, -45, -10, 0, 10, 30, 45, 90, 170] {
        let rad = (deg as f64).to_radians();
        let x = fxv((rad * SCALE as f64) as i64);
        let s = to_f64(sin_fx(x));
        let c = to_f64(cos_fx(x));
        assert!((s - rad.sin()).abs() < 0.002, "sin({}) = {}", deg, s);
        assert!((c - rad.cos()).abs() < 0.002, "cos({}) = {}", deg, c);
    }
}

#[test]
fn trig_reduces_large_angles() {
    // 370 degrees behaves as 10 degrees.
    let big = fxv((370.0f64.to_radians() * SCALE as f64) as i64);
    let small = fxv((10.0f64.to_radians() * SCALE as f64) as i64);
    assert!((to_f64(sin_fx(big)) - to_f64(sin_fx(small))).abs() < 0.002);
}

#[test]
fn normalization_produces_unit_vectors() {
    let v = Vec3 { x: units(3), y: units(0), z: units(4) };
    let n = v.normalized().unwrap();
    assert!((to_f64(n.x) - 0.6).abs() < 0.001);
    assert_eq!(n.y.raw, 0);
    assert!((to_f64(n.z) - 0.8).abs() < 0.001);
    let zero = Vec3 { x: fxv(0), y: fxv(0), z: fxv(0) };
    assert!(zero.normalized().is_none());
}

#[test]
fn vertex_layouts_have_packed_offsets() {
    let v = vertex_desc();
    assert_eq!(v.array_stride, 20);
    assert_eq!(v.step_mode, StepMode::Vertex);
    assert_eq!(v.attributes.len(), 2);
    assert_eq!(v.attributes[1].offset, 12);
    assert_eq!(v.attributes[1].format, VertexFormat::Float32x2);

    let m = model_vertex_desc();
    assert_eq!(m.array_stride, 32);
    assert_eq!(m.attributes[2].offset, 20);
    assert_eq!(m.attributes[2].shader_location, 2);

    let i = instance_raw_desc();
    assert_eq!(i.array_stride, 64);
    assert_eq!(i.step_mode, StepMode::Instance);
    assert_eq!(i.attributes.len(), 4);
    for (k, attr) in i.attributes.iter().enumerate() {
        assert_eq!(attr.offset, 16 * k as u64);
        assert_eq!(attr.shader_location, 5 + k as u32);
        assert_eq!(attr.format, VertexFormat::Float32x4);
    }
}

#[test]
fn pyramid_mesh_is_consistent() {
    let verts = pyramid_vertices();
    let idx = pyramid_indices();
    assert_eq!(verts.len(), 5);
    assert_eq!(idx.len(), 18);
    for &i in idx.iter() {
        assert!((i as usize) < verts.len());
    }
}

#[test]
fn model_draw_emits_commands_in_mesh_order() {
    let model = Model {
        meshes: vec![
            Mesh { name: b"base".to_vec(), num_elements: 18, material: 0 },
            Mesh { name: b"roof".to_vec(), num_elements: 6, material: 0 },
        ],
        materials: vec![Material { name: b"stone".to_vec(), texture: 0 }],
    };
    let cmds = draw_model_instanced(&model, 0, 100);
    assert_eq!(cmds.len(), 10);
    assert_eq!(cmds[0], DrawCommand::SetVertexBuffer { slot: 0, mesh: 0 });
    assert_eq!(cmds[1], DrawCommand::SetIndexBuffer { mesh: 0, format: IndexFormat::Uint32 });
    assert_eq!(cmds[2], DrawCommand::BindMaterial { group: 0, material: 0 });
    assert_eq!(cmds[3], DrawCommand::BindCamera { group: 1 });
    assert_eq!(
        cmds[4],
        DrawCommand::DrawIndexed {
            index_count: 18,
            base_vertex: 0,
            start_instance: 0,
            end_instance: 100
        }
    );
    assert_eq!(cmds[5], DrawCommand::SetVertexBuffer { slot: 0, mesh: 1 });
    assert_eq!(
        cmds[9],
        DrawCommand::DrawIndexed {
            index_count: 6,
            base_vertex: 0,
            start_instance: 0,
            end_instance: 100
        }
    );
}

#[test]
fn pipeline_policy_is_fixed() {
    let layouts = vec![vertex_desc(), instance_raw_desc()];
    let p = build(3, layouts, TextureFormat::Bgra8UnormSrgb, Some(TextureFormat::Depth32Float));
    assert_eq!(p.shader, 3);
    assert_eq!(p.topology, PrimitiveTopology::TriangleList);
    assert_eq!(p.front_face, FrontFace::Ccw);
    assert_eq!(p.cull_mode, CullMode::Back);
    assert_eq!(p.polygon_mode, PolygonMode::Fill);
    assert_eq!(p.blend, BlendMode::Replace);
    assert_eq!(p.sample_count, 1);
    let d = p.depth.unwrap();
    assert_eq!(d.format, TextureFormat::Depth32Float);
    assert!(d.depth_write_enabled);
    assert_eq!(d.compare, CompareFunction::Less);

    let q = build(4, Vec::new(), TextureFormat::Rgba8UnormSrgb, None);
    assert!(q.depth.is_none());
}

#[test]
fn pipeline_toggle_selects_variant() {
    assert_eq!(select_pipeline(false), PipelineChoice::Standard);
    assert_eq!(select_pipeline(true), PipelineChoice::Challenge);
}
