//! The set of per-object transforms. A deterministic generator lays the
//! instances out on a centred lattice; each frame every orientation is
//! left-multiplied by an incremental Y-axis rotation scaled by the elapsed
//! time; packing produces the flat sequence of model matrices the instance
//! buffer uploads, in index order.

use crate::fx::{fx_mul, lemma_fx_mul_mag, lemma_fx_mul_zero, lemma_mul_mag, tz_div, Fx, SCALE};
use crate::mat::{mat_mul_spec, rot_mat_spec, translation_spec, Mat4};
use crate::quat::{
    clamp_quat_spec, lemma_clamp_within, lemma_quat_identity_left, q_bounded, quat_from_axis_deg,
    quat_identity, quat_mul_spec, unit_y_v, y_rotation_spec, Quat, Q_LIM,
};
use crate::trig::{cos_poly, rad_of_deg, reduce_rad, sin_poly};
use crate::vec3::{normalize_spec, v3_bounded, Vec3};
use vstd::arithmetic::div_mod::{lemma_div_of0, lemma_fundamental_div_mod_converse};
use vstd::prelude::*;

verus! {

/// Magnitude bound kept on instance positions.
pub const POS_LIM: i64 = 0x1_0000_0000;

/// The fixed lattice rotation angle, 45 fixed-point degrees.
pub const GRID_ANGLE_FX: i64 = 2949120;

/// One object: a position and an orientation.
#[derive(Clone, Copy, Debug, PartialEq, Eq, Structural)]
pub struct Instance {
    pub position: Vec3,
    pub rotation: Quat,
}

/// The packed, upload-ready form of one instance: its model matrix.
#[derive(Clone, Copy, Debug, PartialEq, Eq, Structural)]
pub struct InstanceRaw {
    pub model: Mat4,
}

pub open spec fn inst_wf(i: Instance) -> bool {
    &&& v3_bounded(i.position, POS_LIM as int)
    &&& q_bounded(i.rotation, Q_LIM as int)
}

pub open spec fn set_wf(s: Seq<Instance>) -> bool {
    forall|i: int| 0 <= i < s.len() ==> inst_wf(#[trigger] s[i])
}

/// Lattice position of the instance at (row, col): column and row scaled by
/// the spacing, then displaced by half the grid extent so the grid is
/// centred at the origin.
pub open spec fn grid_pos(row: int, col: int, rows: int, cols: int, spacing: int) -> Vec3 {
    Vec3 {
        x: Fx { raw: (col * spacing - tz_div(cols * spacing, 2)) as i64 },
        y: Fx { raw: 0 },
        z: Fx { raw: (row * spacing - tz_div(rows * spacing, 2)) as i64 },
    }
}

/// The lattice rotation: identity exactly at the origin (the degenerate
/// axis), otherwise the fixed angle about the instance's own normalized
/// position.
pub open spec fn grid_rotation(p: Vec3) -> Quat {
    if p.x.raw == 0 && p.y.raw == 0 && p.z.raw == 0 {
        quat_identity()
    } else {
        quat_from_axis_deg(normalize_spec(p), GRID_ANGLE_FX as int)
    }
}

pub open spec fn grid_instance(row: int, col: int, rows: int, cols: int, spacing: int) -> Instance {
    let p = grid_pos(row, col, rows, cols, spacing);
    Instance { position: p, rotation: grid_rotation(p) }
}

/// The whole lattice, row-major: index `i` is row `i / cols`, column
/// `i % cols`.
pub open spec fn grid_spec(rows: int, cols: int, spacing: int) -> Seq<Instance> {
    Seq::new((rows * cols) as nat, |i: int| grid_instance(i / cols, i % cols, rows, cols, spacing))
}

/// The per-tick rotation angle in fixed-point degrees: rate times elapsed
/// seconds.
pub open spec fn tick_angle(rate: int, dt: int) -> int {
    fx_mul(rate, dt)
}

/// One tick of one instance: the position is untouched; the orientation is
/// left-multiplied by the incremental Y rotation and clamped.
pub open spec fn tick_instance(i: Instance, angle: int) -> Instance {
    Instance {
        position: i.position,
        rotation: clamp_quat_spec(quat_mul_spec(y_rotation_spec(angle), i.rotation)),
    }
}

pub open spec fn tick_spec(s: Seq<Instance>, angle: int) -> Seq<Instance> {
    Seq::new(s.len(), |i: int| tick_instance(s[i], angle))
}

/// The model matrix of one instance: translation times rotation, in that
/// order.
pub open spec fn instance_raw_spec(i: Instance) -> Mat4 {
    mat_mul_spec(translation_spec(i.position), rot_mat_spec(i.rotation))
}

/// `n` ticks in sequence, each by the same angle.
pub open spec fn ticks_spec(s: Seq<Instance>, angle: int, n: nat) -> Seq<Instance>
    decreases n,
{
    if n == 0 {
        s
    } else {
        tick_spec(ticks_spec(s, angle, (n - 1) as nat), angle)
    }
}

impl InstanceRaw {
    /// The vertex buffer layout of the packed form: one 64-byte matrix per
    /// instance, its four columns as consecutive vec4 attributes at shader
    /// locations 5 through 8.
    pub fn desc() -> (r: crate::layout::VertexBufferLayout)
        ensures
            crate::layout::layout_wf(r),
            r.array_stride == 64,
            r.step_mode == crate::layout::StepMode::Instance,
            r.attributes@.len() == 4,
            r.attributes@[0] == (crate::layout::VertexAttribute {
                offset: 0,
                shader_location: 5,
                format: crate::layout::VertexFormat::Float32x4,
            }),
            r.attributes@[1] == (crate::layout::VertexAttribute {
                offset: 16,
                shader_location: 6,
                format: crate::layout::VertexFormat::Float32x4,
            }),
            r.attributes@[2] == (crate::layout::VertexAttribute {
                offset: 32,
                shader_location: 7,
                format: crate::layout::VertexFormat::Float32x4,
            }),
            r.attributes@[3] == (crate::layout::VertexAttribute {
                offset: 48,
                shader_location: 8,
                format: crate::layout::VertexFormat::Float32x4,
            }),
    {
        crate::layout::instance_raw_desc()
    }
}

impl Instance {
    /// The packed form of this instance.
    pub fn to_raw(&self) -> (r: InstanceRaw)
        requires
            inst_wf(*self),
        ensures
            r.model == instance_raw_spec(*self),
    {
        let t = Mat4::translation(self.position);
        let rm = Mat4::rotation(self.rotation);
        InstanceRaw { model: t.mat_mul(&rm) }
    }
}

/// An ordered, index-stable set of instances.
pub struct InstanceSet {
    instances: Vec<Instance>,
}

impl View for InstanceSet {
    type V = Seq<Instance>;

    closed spec fn view(&self) -> Seq<Instance> {
        self.instances@
    }
}

impl InstanceSet {
    pub fn new() -> (r: InstanceSet)
        ensures
            r@.len() == 0,
    {
        InstanceSet { instances: Vec::new() }
    }

    pub fn len(&self) -> (r: usize)
        ensures
            r == self@.len(),
    {
        self.instances.len()
    }

    pub fn get(&self, i: usize) -> (r: Instance)
        requires
            i < self@.len(),
        ensures
            r == self@[i as int],
    {
        self.instances[i]
    }

    /// Deterministically populates `rows * cols` instances on a rectangular
    /// lattice centred at the origin; the instance landing exactly on the
    /// origin receives the identity rotation, every other one the fixed
    /// angle about its own normalized position.
    pub fn generate_grid(rows: u32, cols: u32, spacing: Fx) -> (r: InstanceSet)
        requires
            rows <= 1024,
            cols <= 1024,
            -0x10_0000 <= spacing.raw <= 0x10_0000,
        ensures
            r@ == grid_spec(rows as int, cols as int, spacing.raw as int),
            r@.len() == rows * cols,
            set_wf(r@),
    {
        proof {
            lemma_mul_mag(cols as int, spacing.raw as int, 1024, 0x10_0000);
            lemma_mul_mag(rows as int, spacing.raw as int, 1024, 0x10_0000);
            lemma_mul_mag(rows as int, cols as int, 1024, 1024);
        }
        let sx: i64 = (cols as i64) * spacing.raw;
        let sz: i64 = (rows as i64) * spacing.raw;
        let disp_x: Fx = Fx { raw: sx }.div_trunc(2);
        let disp_z: Fx = Fx { raw: sz }.div_trunc(2);
        let mut out: Vec<Instance> = Vec::new();
        let ghost gs = grid_spec(rows as int, cols as int, spacing.raw as int);
        let mut z: u32 = 0;
        while z < rows
            invariant
                z <= rows,
                rows <= 1024,
                cols <= 1024,
                -0x10_0000 <= spacing.raw <= 0x10_0000,
                disp_x.raw == tz_div(cols as int * spacing.raw, 2),
                disp_z.raw == tz_div(rows as int * spacing.raw, 2),
                -0x2000_0000 <= disp_x.raw <= 0x2000_0000,
                -0x2000_0000 <= disp_z.raw <= 0x2000_0000,
                gs == grid_spec(rows as int, cols as int, spacing.raw as int),
                out@.len() == z * cols,
                forall|k: int| 0 <= k < out@.len() ==> out@[k] == gs[k] && inst_wf(#[trigger] out@[k]),
            decreases rows - z,
        {
            let mut x: u32 = 0;
            while x < cols
                invariant
                    z < rows,
                    x <= cols,
                    rows <= 1024,
                    cols <= 1024,
                    -0x10_0000 <= spacing.raw <= 0x10_0000,
                    disp_x.raw == tz_div(cols as int * spacing.raw, 2),
                    disp_z.raw == tz_div(rows as int * spacing.raw, 2),
                    -0x2000_0000 <= disp_x.raw <= 0x2000_0000,
                    -0x2000_0000 <= disp_z.raw <= 0x2000_0000,
                    gs == grid_spec(rows as int, cols as int, spacing.raw as int),
                    out@.len() == z * cols + x,
                    forall|k: int|
                        0 <= k < out@.len() ==> out@[k] == gs[k] && inst_wf(#[trigger] out@[k]),
                decreases cols - x,
            {
                proof {
                    lemma_mul_mag(x as int, spacing.raw as int, 1024, 0x10_0000);
                    lemma_mul_mag(z as int, spacing.raw as int, 1024, 0x10_0000);
                }
                let px: i64 = (x as i64) * spacing.raw - disp_x.raw;
                let pz: i64 = (z as i64) * spacing.raw - disp_z.raw;
                let pos = Vec3::new(Fx { raw: px }, Fx { raw: 0 }, Fx { raw: pz });
                proof {
                    assert(pos == grid_pos(
                        z as int,
                        x as int,
                        rows as int,
                        cols as int,
                        spacing.raw as int,
                    ));
                }
                let rotation: Quat = if pos.is_zero() {
                    Quat::identity()
                } else {
                    match pos.normalized() {
                        Some(axis) => Quat::from_axis_angle(axis, Fx { raw: GRID_ANGLE_FX }),
                        None => Quat::identity(),
                    }
                };
                proof {
                    assert(rotation == grid_rotation(pos));
                }
                let inst = Instance { position: pos, rotation };
                proof {
                    let k = out@.len() as int;
                    assert(k == z * cols + x);
                    assert(0 <= k < rows as int * cols as int) by (nonlinear_arith)
                        requires
                            k == z as int * cols as int + x as int,
                            0 <= (z as int) && (z as int) < (rows as int),
                            0 <= (x as int) && (x as int) < (cols as int),
                    ;
                    lemma_fundamental_div_mod_converse(k, cols as int, z as int, x as int);
                    assert(gs[k] == grid_instance(
                        z as int,
                        x as int,
                        rows as int,
                        cols as int,
                        spacing.raw as int,
                    ));
                    assert(inst_wf(inst));
                }
                out.push(inst);
                x = x + 1;
                proof {
                    assert(out@.len() == z * cols + x);
                }
            }
            z = z + 1;
            proof {
                assert(z * cols == (z - 1) * cols + cols) by (nonlinear_arith);
            }
        }
        proof {
            assert(rows * cols == rows as int * cols as int);
            assert(out@ =~= gs);
        }
        InstanceSet { instances: out }
    }

    /// One frame of spin: every orientation is left-multiplied by the
    /// incremental Y rotation of `rate * dt` fixed-point degrees; positions
    /// and order are untouched.
    pub fn tick(&mut self, dt: Fx, rate: Fx)
        requires
            -0x10_0000 <= dt.raw <= 0x10_0000,
            -0x4000_0000 <= rate.raw <= 0x4000_0000,
            set_wf(old(self)@),
        ensures
            final(self)@ == tick_spec(old(self)@, tick_angle(rate.raw as int, dt.raw as int)),
            final(self)@.len() == old(self)@.len(),
            set_wf(final(self)@),
    {
        proof {
            lemma_fx_mul_mag(rate.raw as int, dt.raw as int, 0x4000_0000, 0x10_0000);
        }
        let angle = rate.times(dt);
        let yq = Quat::y_rotation(angle);
        let n = self.instances.len();
        let mut out: Vec<Instance> = Vec::new();
        let ghost orig = self.instances@;
        let ghost ts = tick_spec(orig, tick_angle(rate.raw as int, dt.raw as int));
        let mut i: usize = 0;
        while i < n
            invariant
                i <= n,
                n == orig.len(),
                self.instances@ == orig,
                set_wf(orig),
                yq == y_rotation_spec(tick_angle(rate.raw as int, dt.raw as int)),
                q_bounded(yq, Q_LIM as int),
                ts == tick_spec(orig, tick_angle(rate.raw as int, dt.raw as int)),
                out@.len() == i,
                forall|k: int| 0 <= k < i ==> out@[k] == ts[k] && inst_wf(#[trigger] out@[k]),
            decreases n - i,
        {
            let inst = self.instances[i];
            let rotated = yq.mul_quat(inst.rotation).clamped();
            out.push(Instance { position: inst.position, rotation: rotated });
            i = i + 1;
        }
        proof {
            assert(out@ =~= ts);
        }
        self.instances = out;
    }

    /// The flat sequence of model matrices for upload, in index order.
    pub fn packed(&self) -> (r: Vec<InstanceRaw>)
        requires
            set_wf(self@),
        ensures
            r@.len() == self@.len(),
            forall|i: int| 0 <= i < r@.len() ==> (#[trigger] r@[i]).model == instance_raw_spec(
                self@[i],
            ),
    {
        let n = self.instances.len();
        let mut out: Vec<InstanceRaw> = Vec::new();
        let mut i: usize = 0;
        while i < n
            invariant
                i <= n,
                n == self@.len(),
                set_wf(self@),
                out@.len() == i,
                forall|k: int| 0 <= k < i ==> (#[trigger] out@[k]).model == instance_raw_spec(
                    self@[k],
                ),
            decreases n - i,
        {
            let inst = self.instances[i];
            out.push(inst.to_raw());
            i = i + 1;
        }
        out
    }
}

/// The lattice is deterministic: the generated sequence is a function of
/// (rows, cols, spacing) alone, so two generations agree exactly.
pub proof fn lemma_grid_deterministic(
    a: Seq<Instance>,
    b: Seq<Instance>,
    rows: int,
    cols: int,
    spacing: int,
)
    requires
        a == grid_spec(rows, cols, spacing),
        b == grid_spec(rows, cols, spacing),
    ensures
        a == b,
{
}

/// The instance displaced exactly onto the origin carries the identity
/// rotation; every other instance's rotation is the fixed angle about its
/// own normalized position.
pub proof fn lemma_grid_rotation_law(rows: int, cols: int, spacing: int, i: int)
    requires
        cols > 0,
        0 <= i < rows * cols,
    ensures
        ({
            let inst = grid_spec(rows, cols, spacing)[i];
            &&& (inst.position.x.raw == 0 && inst.position.y.raw == 0 && inst.position.z.raw == 0)
                ==> inst.rotation == quat_identity()
            &&& !(inst.position.x.raw == 0 && inst.position.y.raw == 0 && inst.position.z.raw == 0)
                ==> inst.rotation == quat_from_axis_deg(
                normalize_spec(inst.position),
                GRID_ANGLE_FX as int,
            )
        }),
{
}

/// The zero-angle incremental rotation is the identity quaternion.
pub proof fn lemma_zero_angle_rotation()
    ensures
        y_rotation_spec(0) == quat_identity(),
{
    let s = SCALE as int;
    lemma_div_of0(2);
    assert(tz_div(0, 2) == 0);
    lemma_fx_mul_zero(crate::trig::RAD_PER_DEG as int);
    assert(rad_of_deg(0) == 0);
    assert(reduce_rad(0) == 0) by {
        lemma_div_of0(crate::trig::TWO_PI_FX as int);
        assert(tz_div(0, crate::trig::TWO_PI_FX as int) == 0);
        assert(0 - 0 * (crate::trig::TWO_PI_FX as int) == 0) by (nonlinear_arith);
    }
    assert(sin_poly(0) == 0) by {
        lemma_fx_mul_zero(0);
        lemma_div_of0(SCALE as int);
        lemma_div_of0(6);
        lemma_div_of0(120);
        lemma_div_of0(5040);
        lemma_div_of0(362880);
        lemma_div_of0(39916800);
        lemma_div_of0(6227020800);
    }
    assert(cos_poly(0) == s) by {
        lemma_fx_mul_zero(0);
        lemma_div_of0(SCALE as int);
        lemma_div_of0(2);
        lemma_div_of0(24);
        lemma_div_of0(720);
        lemma_div_of0(40320);
        lemma_div_of0(3628800);
        lemma_div_of0(479001600);
    }
    lemma_fx_mul_zero(unit_y_v().x.raw as int);
    lemma_fx_mul_zero(unit_y_v().y.raw as int);
    lemma_fx_mul_zero(unit_y_v().z.raw as int);
}

/// A tick with `dt == 0` is a no-op: the set, and hence its packed output,
/// is unchanged.
pub proof fn lemma_tick_zero_noop(s: Seq<Instance>, rate: int)
    requires
        set_wf(s),
    ensures
        tick_spec(s, tick_angle(rate, 0)) == s,
{
    lemma_fx_mul_zero(rate);
    assert(tick_angle(rate, 0) == 0);
    lemma_zero_angle_rotation();
    assert forall|i: int| 0 <= i < s.len() implies tick_spec(s, 0)[i] == s[i] by {
        lemma_quat_identity_left(s[i].rotation);
        lemma_clamp_within(s[i].rotation);
    }
    assert(tick_spec(s, tick_angle(rate, 0)) =~= s);
}

/// Ticks never move an instance: after any number of ticks every position,
/// and the number and order of instances, is exactly as generated.
pub proof fn lemma_ticks_preserve_positions(s: Seq<Instance>, angle: int, n: nat)
    ensures
        ticks_spec(s, angle, n).len() == s.len(),
        forall|i: int| 0 <= i < s.len() ==> ticks_spec(s, angle, n)[i].position == s[i].position,
    decreases n,
{
    if n > 0 {
        lemma_ticks_preserve_positions(s, angle, (n - 1) as nat);
    }
}

} // verus!
