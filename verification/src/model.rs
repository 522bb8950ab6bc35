//! Textured multi-mesh models and the command stream that draws them. A
//! model owns its meshes and materials; a mesh references its material by
//! index only, so materials can be shared. Drawing produces the exact
//! sequence of bind and draw commands, mesh by mesh in order, that the
//! render pass replays.

use vstd::prelude::*;

verus! {

/// A material: its display name and the handle of its diffuse texture's
/// binding, as the GPU side registered it.
pub struct Material {
    pub name: Vec<u8>,
    pub texture: usize,
}

/// A mesh: its name, how many indices a draw covers and which material it
/// uses, by index into the owning model's material list.
pub struct Mesh {
    pub name: Vec<u8>,
    pub num_elements: u32,
    pub material: usize,
}

/// A model exclusively owns its meshes and materials.
pub struct Model {
    pub meshes: Vec<Mesh>,
    pub materials: Vec<Material>,
}

/// Every mesh's material index addresses an owned material.
pub open spec fn model_wf(m: Model) -> bool {
    forall|i: int|
        0 <= i < m.meshes@.len() ==> (#[trigger] m.meshes@[i]).material < m.materials@.len()
}

/// How the bound index buffer is to be read.
#[derive(Clone, Copy, Debug, PartialEq, Eq, Structural)]
pub enum IndexFormat {
    Uint16,
    Uint32,
}

/// One recorded step of a render pass.
#[derive(Clone, Copy, Debug, PartialEq, Eq, Structural)]
pub enum DrawCommand {
    SetVertexBuffer { slot: u32, mesh: usize },
    SetIndexBuffer { mesh: usize, format: IndexFormat },
    BindMaterial { group: u32, material: usize },
    BindCamera { group: u32 },
    DrawIndexed { index_count: u32, base_vertex: i32, start_instance: u32, end_instance: u32 },
}

/// The five commands that draw one mesh: bind its vertex and index
/// buffers (32-bit indices), its material at group 0 and the camera at
/// group 1, then one indexed draw over the instance range from the first
/// vertex.
pub open spec fn mesh_cmds_spec(m: Model, mi: int, start: u32, end: u32) -> Seq<DrawCommand> {
    seq![
        DrawCommand::SetVertexBuffer { slot: 0, mesh: mi as usize },
        DrawCommand::SetIndexBuffer { mesh: mi as usize, format: IndexFormat::Uint32 },
        DrawCommand::BindMaterial { group: 0, material: m.meshes@[mi].material },
        DrawCommand::BindCamera { group: 1 },
        DrawCommand::DrawIndexed {
            index_count: m.meshes@[mi].num_elements,
            base_vertex: 0,
            start_instance: start,
            end_instance: end,
        },
    ]
}

/// The commands for the first `n` meshes, in order.
pub open spec fn model_cmds_spec(m: Model, start: u32, end: u32, n: nat) -> Seq<DrawCommand>
    decreases n,
{
    if n == 0 {
        Seq::empty()
    } else {
        model_cmds_spec(m, start, end, (n - 1) as nat) + mesh_cmds_spec(m, n - 1, start, end)
    }
}

/// The command stream for one mesh over an instance range.
pub fn draw_mesh_instanced(model: &Model, mesh: usize, start: u32, end: u32) -> (r: Vec<
    DrawCommand,
>)
    requires
        mesh < model.meshes@.len(),
    ensures
        r@ == mesh_cmds_spec(*model, mesh as int, start, end),
{
    let m = &model.meshes[mesh];
    let mut out: Vec<DrawCommand> = Vec::new();
    out.push(DrawCommand::SetVertexBuffer { slot: 0, mesh });
    out.push(DrawCommand::SetIndexBuffer { mesh, format: IndexFormat::Uint32 });
    out.push(DrawCommand::BindMaterial { group: 0, material: m.material });
    out.push(DrawCommand::BindCamera { group: 1 });
    out.push(
        DrawCommand::DrawIndexed {
            index_count: m.num_elements,
            base_vertex: 0,
            start_instance: start,
            end_instance: end,
        },
    );
    proof {
        assert(out@ =~= mesh_cmds_spec(*model, mesh as int, start, end));
    }
    out
}

/// The command stream for one mesh, a single instance.
pub fn draw_mesh(model: &Model, mesh: usize) -> (r: Vec<DrawCommand>)
    requires
        mesh < model.meshes@.len(),
    ensures
        r@ == mesh_cmds_spec(*model, mesh as int, 0, 1),
{
    draw_mesh_instanced(model, mesh, 0, 1)
}

/// The command stream for the whole model over an instance range: each
/// mesh's commands in order, materials looked up by the meshes' indices.
pub fn draw_model_instanced(model: &Model, start: u32, end: u32) -> (r: Vec<DrawCommand>)
    requires
        model_wf(*model),
    ensures
        r@ == model_cmds_spec(*model, start, end, model.meshes@.len()),
{
    let n = model.meshes.len();
    let mut out: Vec<DrawCommand> = Vec::new();
    let mut i: usize = 0;
    while i < n
        invariant
            i <= n,
            n == model.meshes@.len(),
            model_wf(*model),
            out@ == model_cmds_spec(*model, start, end, i as nat),
        decreases n - i,
    {
        let mut cmds = draw_mesh_instanced(model, i, start, end);
        out.append(&mut cmds);
        i = i + 1;
        proof {
            assert(out@ =~= model_cmds_spec(*model, start, end, i as nat));
        }
    }
    out
}

/// The command stream for the whole model, a single instance.
pub fn draw_model(model: &Model) -> (r: Vec<DrawCommand>)
    requires
        model_wf(*model),
    ensures
        r@ == model_cmds_spec(*model, 0, 1, model.meshes@.len()),
{
    draw_model_instanced(model, 0, 1)
}

/// Every material index a model's command stream binds addresses an owned
/// material.
pub proof fn lemma_model_cmds_materials_valid(m: Model, start: u32, end: u32, n: nat)
    requires
        model_wf(m),
        n <= m.meshes@.len(),
    ensures
        forall|k: int|
            0 <= k < model_cmds_spec(m, start, end, n).len() ==> match #[trigger] model_cmds_spec(
                m,
                start,
                end,
                n,
            )[k] {
                DrawCommand::BindMaterial { group, material } => material < m.materials@.len(),
                _ => true,
            },
    decreases n,
{
    if n > 0 {
        lemma_model_cmds_materials_valid(m, start, end, (n - 1) as nat);
    }
}

} // verus!
