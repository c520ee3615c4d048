//! The double-buffered flocking simulation: resources, `prepare` and `paint`.

use crate::bindings::{
    BindGroupDesc, BindGroupView, BindLayout, BindingEntry, BindingKind, BindingSlot,
    BufferDesc, Resource, Usages, all_admitted, element_buffer_usage, entries_of,
    uniform_block_usage,
};
use crate::dispatch::{clamp_count, clamped, div_ceil, workgroup_count};
use crate::layout::{block_layout, SimParams, SIM_PARAMS_SIZE};
use crate::resources::{
    BufferWrite, Dispatch, DrawPlan, InitialContents, PreparePlan, ResourceCommand, ResourcePool,
};
use crate::swap::{DoubleBuffer, DoubleBufferView};
use vstd::prelude::*;

verus! {

/// Largest number of particles the buffers are allocated for.
pub const MAX_PARTICLES: u32 = 100_000;

/// Invocations per workgroup of the flocking compute shader.
pub const BOIDS_WORKGROUP_SIZE: u32 = 256;

/// Bytes per particle: a position and a velocity, two `f32` each.
pub const PARTICLE_STRIDE: u64 = 16;

/// Seed of the generator that fills both particle buffers at start.
pub const PARTICLE_SEED: u64 = 42;

/// Vertices of the triangle drawn for each particle.
pub const PARTICLE_VERTICES: u32 = 3;

/// Binding slots of the flocking compute shader: the parameter block, the
/// particles read and the particles written.
pub open spec fn boids_slots() -> Seq<BindingSlot> {
    seq![
        BindingSlot { group: 0, binding: 0, kind: BindingKind::UniformBuffer },
        BindingSlot { group: 0, binding: 1, kind: BindingKind::StorageBuffer { read_only: true } },
        BindingSlot { group: 0, binding: 2, kind: BindingKind::StorageBuffer { read_only: false } },
    ]
}

pub fn boids_compute_slots() -> (r: Vec<BindingSlot>)
    ensures
        r@ == boids_slots(),
{
    let r = vec![
        BindingSlot { group: 0, binding: 0, kind: BindingKind::UniformBuffer },
        BindingSlot { group: 0, binding: 1, kind: BindingKind::StorageBuffer { read_only: true } },
        BindingSlot { group: 0, binding: 2, kind: BindingKind::StorageBuffer { read_only: false } },
    ];
    assert(r@ =~= boids_slots());
    r
}

/// Entries of the bind group that reads `src` and writes `dst`.
pub open spec fn boids_wiring(params: u64, src: u64, dst: u64) -> Seq<BindingEntry> {
    seq![
        BindingEntry { binding: 0, resource: params },
        BindingEntry { binding: 1, resource: src },
        BindingEntry { binding: 2, resource: dst },
    ]
}

/// The parameter block as uploaded: the live count replaced by `count`.
pub open spec fn with_count(params: SimParams, count: u32) -> SimParams {
    SimParams { num_particles: count, ..params }
}

/// Model of a particle system.
pub struct ParticleSystemView {
    pub capacity: nat,
    pub workgroup_size: nat,
    pub params_buffer: BufferDesc,
    pub particle_buffers: Seq<BufferDesc>,
    /// `bind_groups[i]` reads `particle_buffers[i]` and writes the other one.
    pub bind_groups: Seq<BindGroupView>,
    pub pass: DoubleBufferView,
    /// Particles simulated and drawn, never above the capacity.
    pub live_count: nat,
}

impl ParticleSystemView {
    pub open spec fn wf(self) -> bool {
        &&& self.workgroup_size > 0
        &&& self.capacity <= u32::MAX
        &&& self.live_count <= self.capacity
        &&& self.particle_buffers.len() == 2
        &&& self.bind_groups.len() == 2
        &&& self.params_buffer.size == SIM_PARAMS_SIZE
        &&& self.params_buffer.usage == uniform_block_usage()
        &&& forall|i: int|
            0 <= i < 2 ==> {
                let b = #[trigger] self.particle_buffers[i];
                &&& b.size == self.capacity * PARTICLE_STRIDE
                &&& b.usage == element_buffer_usage()
            }
        &&& self.params_buffer.id != self.particle_buffers[0].id
        &&& self.params_buffer.id != self.particle_buffers[1].id
        &&& self.particle_buffers[0].id != self.particle_buffers[1].id
        &&& self.bind_groups[0].id != self.bind_groups[1].id
        &&& forall|i: int|
            0 <= i < 2 ==> {
                &&& (#[trigger] self.bind_groups[i]).layout == BindLayout::BoidsCompute
                &&& self.bind_groups[i].entries == boids_wiring(
                    self.params_buffer.id,
                    self.particle_buffers[i].id,
                    self.particle_buffers[1 - i].id,
                )
                &&& all_admitted(
                    boids_slots(),
                    seq![
                        Resource::Buffer(self.params_buffer),
                        Resource::Buffer(self.particle_buffers[i]),
                        Resource::Buffer(self.particle_buffers[1 - i]),
                    ],
                )
            }
        &&& self.pass.wf()
        &&& self.pass.base == 0
    }

    /// The buffer a render pass reads: the one written last.
    pub open spec fn read_buffer(self) -> BufferDesc {
        self.particle_buffers[(self.pass.generation % 2) as int]
    }

    /// The dispatch made `j` dispatches after the current generation, for
    /// `count` live particles.
    pub open spec fn dispatch_at(self, j: nat, count: nat) -> Dispatch {
        Dispatch {
            bind_group: self.bind_groups[((self.pass.generation + j) % 2) as int].id,
            x: div_ceil(count, self.workgroup_size) as u32,
            y: 1,
            z: 1,
        }
    }
}

/// The model after a `prepare` of `steps` dispatches for a requested live
/// count of `requested`.
pub open spec fn prepared(v: ParticleSystemView, steps: nat, requested: nat) -> ParticleSystemView {
    ParticleSystemView {
        pass: DoubleBufferView { generation: v.pass.generation + steps, base: v.pass.base },
        live_count: clamped(requested, v.capacity),
        ..v
    }
}

/// The plan of a `prepare` from model `v` with `steps` dispatches and
/// parameters `params`: no resource changes, one upload of the parameter
/// block with the clamped live count into the parameter buffer, and `steps`
/// dispatches over alternating bind groups.
pub open spec fn frame_plan(v: ParticleSystemView, steps: nat, params: SimParams, plan: PreparePlan) -> bool {
    let live = clamped(params.num_particles as nat, v.capacity);
    &&& plan.resources@.len() == 0
    &&& plan.writes@.len() == 1
    &&& plan.writes@[0].buffer == v.params_buffer.id
    &&& block_layout(with_count(params, live as u32).fields(), plan.writes@[0].bytes@)
    &&& plan.dispatches@.len() == steps
    &&& forall|j: int| 0 <= j < steps ==> #[trigger] plan.dispatches@[j] == v.dispatch_at(j as nat, live)
}

/// The model after a run of frames, each given as (steps, requested count).
pub open spec fn run_frames(v: ParticleSystemView, frames: Seq<(nat, nat)>) -> ParticleSystemView
    decreases frames.len(),
{
    if frames.len() == 0 {
        v
    } else {
        let last = frames.last();
        prepared(run_frames(v, frames.drop_last()), last.0, last.1)
    }
}

/// Total steps of a run of frames.
pub open spec fn total_steps(frames: Seq<(nat, nat)>) -> nat
    decreases frames.len(),
{
    if frames.len() == 0 {
        0
    } else {
        total_steps(frames.drop_last()) + frames.last().0
    }
}

/// Persistent state of the flocking simulation: the parameter buffer, the
/// pair of particle buffers, the two bind groups that orient them, and the
/// generation counter that selects between them.
pub struct ParticleSystem {
    capacity: u32,
    workgroup_size: u32,
    params_buffer: BufferDesc,
    particle_buffers: Vec<BufferDesc>,
    bind_groups: Vec<BindGroupDesc>,
    pass: DoubleBuffer,
    live_count: u32,
}

impl View for ParticleSystem {
    type V = ParticleSystemView;

    closed spec fn view(&self) -> ParticleSystemView {
        ParticleSystemView {
            capacity: self.capacity as nat,
            workgroup_size: self.workgroup_size as nat,
            params_buffer: self.params_buffer,
            particle_buffers: self.particle_buffers@,
            bind_groups: self.bind_groups@.map_values(|g: BindGroupDesc| g@),
            pass: self.pass@,
            live_count: self.live_count as nat,
        }
    }
}

impl ParticleSystem {
    /// Lays out the resources for `capacity` particles simulated by a
    /// compute shader with `workgroup_size` invocations per workgroup. Both
    /// particle buffers start with the same seeded particles; all of them
    /// are live until the first `prepare`.
    pub fn init(capacity: u32, workgroup_size: u32) -> (r: Self)
        requires
            workgroup_size > 0,
        ensures
            r@.wf(),
            r@.capacity == capacity,
            r@.workgroup_size == workgroup_size,
            r@.pass.generation == 0,
            r@.live_count == capacity,
    {
        let mut pool = ResourcePool::new();
        let params_usage = Usages { uniform: true, copy_dst: true, ..Usages::none() };
        let params_buffer = pool.allocate_buffer(SIM_PARAMS_SIZE as u64, params_usage);
        let particle_usage = Usages { vertex: true, storage: true, copy_dst: true, ..Usages::none() };
        let size: u64 = capacity as u64 * PARTICLE_STRIDE;
        let first = pool.allocate_buffer(size, particle_usage);
        let second = pool.allocate_buffer(size, particle_usage);
        let slots = boids_compute_slots();
        let forward = vec![Resource::Buffer(params_buffer), Resource::Buffer(first), Resource::Buffer(second)];
        let backward = vec![Resource::Buffer(params_buffer), Resource::Buffer(second), Resource::Buffer(first)];
        proof {
            assert(all_admitted(slots@, forward@));
            assert(all_admitted(slots@, backward@));
        }
        let g0 = pool.allocate_bind_group(BindLayout::BoidsCompute, &slots, &forward).unwrap();
        let g1 = pool.allocate_bind_group(BindLayout::BoidsCompute, &slots, &backward).unwrap();
        let particle_buffers = vec![first, second];
        let bind_groups = vec![g0, g1];
        let r = ParticleSystem {
            capacity,
            workgroup_size,
            params_buffer,
            particle_buffers,
            bind_groups,
            pass: DoubleBuffer::new(),
            live_count: capacity,
        };
        proof {
            assert(entries_of(slots@, forward@) =~= boids_wiring(params_buffer.id, first.id, second.id));
            assert(entries_of(slots@, backward@) =~= boids_wiring(params_buffer.id, second.id, first.id));
            assert(forward@ =~= seq![
                Resource::Buffer(r@.params_buffer),
                Resource::Buffer(r@.particle_buffers[0]),
                Resource::Buffer(r@.particle_buffers[1]),
            ]);
            assert(backward@ =~= seq![
                Resource::Buffer(r@.params_buffer),
                Resource::Buffer(r@.particle_buffers[1]),
                Resource::Buffer(r@.particle_buffers[0]),
            ]);
        }
        r
    }

    /// The resources to create before the first frame, in order: the
    /// parameter buffer, the two seeded particle buffers, the two bind groups.
    pub fn setup(&self) -> (r: Vec<ResourceCommand>)
        requires
            self@.wf(),
        ensures
            r@.len() == 5,
            r@[0] matches ResourceCommand::CreateBuffer { buffer, contents } && buffer
                == self@.params_buffer && contents == InitialContents::Zeroed,
            forall|i: int|
                0 <= i < 2 ==> ((#[trigger] r@[i + 1]) matches ResourceCommand::CreateBuffer {
                    buffer,
                    contents,
                } && buffer == self@.particle_buffers[i] && contents == (InitialContents::Seeded {
                    seed: PARTICLE_SEED,
                    count: self@.capacity as u32,
                })),
            forall|i: int|
                0 <= i < 2 ==> ((#[trigger] r@[i + 3]) matches ResourceCommand::CreateBindGroup {
                    group,
                } && group@ == self@.bind_groups[i]),
    {
        let seeded = InitialContents::Seeded { seed: PARTICLE_SEED, count: self.capacity };
        let r = vec![
            ResourceCommand::CreateBuffer { buffer: self.params_buffer, contents: InitialContents::Zeroed },
            ResourceCommand::CreateBuffer { buffer: self.particle_buffers[0], contents: seeded },
            ResourceCommand::CreateBuffer { buffer: self.particle_buffers[1], contents: seeded },
            ResourceCommand::CreateBindGroup { group: self.bind_groups[0].duplicate() },
            ResourceCommand::CreateBindGroup { group: self.bind_groups[1].duplicate() },
        ];
        proof {
            assert(self@.bind_groups[0] == self.bind_groups@[0]@);
            assert(self@.bind_groups[1] == self.bind_groups@[1]@);
        }
        r
    }

    /// Encodes one frame's simulation work: uploads the parameter block with
    /// the live count clamped to the capacity, then `steps` dispatches, each
    /// reading the buffer written by the one before it.
    pub fn prepare(&mut self, steps: u64, params: SimParams) -> (plan: PreparePlan)
        requires
            old(self)@.wf(),
            old(self)@.pass.generation + steps <= u64::MAX,
        ensures
            final(self)@ == prepared(old(self)@, steps as nat, params.num_particles as nat),
            final(self)@.wf(),
            frame_plan(old(self)@, steps as nat, params, plan),
    {
        let ghost v0 = self@;
        let live = clamp_count(params.num_particles, self.capacity);
        self.live_count = live;
        let upload = SimParams { num_particles: live, ..params };
        let bytes = upload.to_bytes();
        let writes = vec![BufferWrite { buffer: self.params_buffer.id, bytes }];
        let groups = workgroup_count(live, self.workgroup_size);
        let mut dispatches: Vec<Dispatch> = Vec::new();
        let mut j: u64 = 0;
        while j < steps
            invariant
                j <= steps,
                v0.wf(),
                v0.pass.generation + steps <= u64::MAX,
                self@ == (ParticleSystemView {
                    pass: DoubleBufferView { generation: v0.pass.generation + j as nat, base: v0.pass.base },
                    live_count: live as nat,
                    ..v0
                }),
                groups == div_ceil(live as nat, v0.workgroup_size),
                dispatches@.len() == j,
                forall|k: int|
                    0 <= k < j ==> #[trigger] dispatches@[k] == v0.dispatch_at(k as nat, live as nat),
            decreases steps - j,
        {
            let (src, _dst) = self.pass.current_pair();
            dispatches.push(Dispatch { bind_group: self.bind_groups[src].id, x: groups, y: 1, z: 1 });
            self.pass.advance();
            j = j + 1;
        }
        PreparePlan { resources: Vec::new(), writes, dispatches }
    }

    /// Encodes the draw: one triangle per live particle, read from the
    /// buffer written last, which holds the newest generation.
    pub fn paint(&self) -> (r: DrawPlan)
        requires
            self@.wf(),
        ensures
            r.bind_groups@.len() == 0,
            r.vertex_buffer == Some(self@.read_buffer().id),
            self@.pass.holds(self@.pass.generation % 2) == self@.pass.generation,
            r.vertex_count == PARTICLE_VERTICES,
            r.instance_count == self@.live_count,
    {
        let read = self.pass.read_index();
        DrawPlan {
            bind_groups: Vec::new(),
            vertex_buffer: Some(self.particle_buffers[read].id),
            vertex_count: PARTICLE_VERTICES,
            instance_count: self.live_count,
        }
    }

    pub fn capacity(&self) -> (r: u32)
        ensures
            r == self@.capacity,
    {
        self.capacity
    }

    pub fn generation(&self) -> (r: u64)
        ensures
            r == self@.pass.generation,
    {
        self.pass.generation()
    }

    pub fn live_count(&self) -> (r: u32)
        ensures
            r == self@.live_count,
    {
        self.live_count
    }
}

/// The inputs of one frame: the parameter block and the number of steps.
/// A plain value, built afresh each frame; the state lives in the
/// `ParticleSystem` it is applied to.
#[derive(Clone, Copy, Debug)]
pub struct RenderCallback {
    pub sim_params: SimParams,
    pub num_sim_updates: u64,
}

impl RenderCallback {
    /// The `prepare` phase of this frame.
    pub fn prepare(&self, system: &mut ParticleSystem) -> (plan: PreparePlan)
        requires
            old(system)@.wf(),
            old(system)@.pass.generation + self.num_sim_updates <= u64::MAX,
        ensures
            final(system)@ == prepared(
                old(system)@,
                self.num_sim_updates as nat,
                self.sim_params.num_particles as nat,
            ),
            final(system)@.wf(),
            frame_plan(old(system)@, self.num_sim_updates as nat, self.sim_params, plan),
    {
        system.prepare(self.num_sim_updates, self.sim_params)
    }

    /// The `paint` phase of this frame.
    pub fn paint(&self, system: &ParticleSystem) -> (r: DrawPlan)
        requires
            system@.wf(),
        ensures
            r.bind_groups@.len() == 0,
            r.vertex_buffer == Some(system@.read_buffer().id),
            r.vertex_count == PARTICLE_VERTICES,
            r.instance_count == system@.live_count,
    {
        system.paint()
    }
}

/// `prepare` keeps the system well formed.
pub proof fn lemma_prepared_wf(v: ParticleSystemView, steps: nat, requested: nat)
    requires
        v.wf(),
    ensures
        prepared(v, steps, requested).wf(),
{
    let w = prepared(v, steps, requested);
    assert(forall|i: int| 0 <= i < 2 ==> #[trigger] w.bind_groups[i] == v.bind_groups[i]);
    assert(forall|i: int| 0 <= i < 2 ==> #[trigger] w.particle_buffers[i] == v.particle_buffers[i]);
}

/// Over any run of frames from a well-formed system, the counter advances
/// by exactly the steps of the frames; from generation 0, after `N` steps
/// in all, the draw reads buffer `N % 2`, which holds generation `N`.
pub proof fn lemma_frames_parity(v: ParticleSystemView, frames: Seq<(nat, nat)>)
    requires
        v.wf(),
    ensures
        run_frames(v, frames).wf(),
        run_frames(v, frames).particle_buffers == v.particle_buffers,
        run_frames(v, frames).pass.generation == v.pass.generation + total_steps(frames),
        v.pass.generation == 0 ==> run_frames(v, frames).read_buffer() == v.particle_buffers[(
        total_steps(frames) % 2) as int],
        run_frames(v, frames).pass.holds(run_frames(v, frames).pass.generation % 2) == run_frames(
            v,
            frames,
        ).pass.generation,
    decreases frames.len(),
{
    if frames.len() > 0 {
        lemma_frames_parity(v, frames.drop_last());
        let u = run_frames(v, frames.drop_last());
        lemma_prepared_wf(u, frames.last().0, frames.last().1);
    }
}

/// Frames with no steps leave the counter, both particle buffers and both
/// bind groups exactly as they were, whatever live counts they request.
pub proof fn lemma_pause_is_idempotent(v: ParticleSystemView, frames: Seq<(nat, nat)>)
    requires
        v.wf(),
        forall|i: int| 0 <= i < frames.len() ==> (#[trigger] frames[i]).0 == 0,
    ensures
        run_frames(v, frames).pass == v.pass,
        run_frames(v, frames).particle_buffers == v.particle_buffers,
        run_frames(v, frames).bind_groups == v.bind_groups,
        run_frames(v, frames).params_buffer == v.params_buffer,
        forall|i: nat| run_frames(v, frames).pass.holds(i) == v.pass.holds(i),
    decreases frames.len(),
{
    if frames.len() > 0 {
        let prefix = frames.drop_last();
        assert forall|i: int| 0 <= i < prefix.len() implies (#[trigger] prefix[i]).0 == 0 by {
            assert(prefix[i] == frames[i]);
        }
        lemma_pause_is_idempotent(v, prefix);
        assert(frames.last() == frames[frames.len() - 1]);
    }
}

proof fn lemma_div_ceil_at_most(a: nat, w: nat)
    requires
        w > 0,
    ensures
        div_ceil(a, w) <= a,
{
    vstd::arithmetic::div_mod::lemma_fundamental_div_mod(a as int, w as int);
    if a % w != 0 {
        assert(w >= 2);
        assert(a / w + 1 <= w * (a / w) + a % w) by (nonlinear_arith)
            requires
                w >= 2,
                a % w >= 1,
                a / w >= 0,
        ;
    } else {
        assert(a / w <= w * (a / w)) by (nonlinear_arith)
            requires
                w >= 1,
                a / w >= 0,
        ;
    }
}

/// A requested live count above the capacity is clamped to the capacity:
/// the uploaded count, every dispatch and the draw cover at most `capacity`
/// elements.
pub proof fn lemma_capacity_clamp(v: ParticleSystemView, steps: nat, requested: nat, j: nat)
    requires
        v.wf(),
        j < steps,
    ensures
        prepared(v, steps, requested).live_count <= v.capacity,
        requested > v.capacity ==> prepared(v, steps, requested).live_count == v.capacity,
        requested <= v.capacity ==> prepared(v, steps, requested).live_count == requested,
        v.dispatch_at(j, prepared(v, steps, requested).live_count).x == div_ceil(
            prepared(v, steps, requested).live_count,
            v.workgroup_size,
        ),
        div_ceil(prepared(v, steps, requested).live_count, v.workgroup_size) <= div_ceil(
            v.capacity,
            v.workgroup_size,
        ),
{
    let live = prepared(v, steps, requested).live_count;
    let w = v.workgroup_size;
    lemma_div_ceil_at_most(live, w);
    vstd::arithmetic::div_mod::lemma_div_is_ordered(live as int, v.capacity as int, w as int);
    if live % w != 0 && v.capacity % w == 0 && live / w == v.capacity / w {
        vstd::arithmetic::div_mod::lemma_fundamental_div_mod(live as int, w as int);
        vstd::arithmetic::div_mod::lemma_fundamental_div_mod(v.capacity as int, w as int);
    }
}

/// After a frame with at least one step, the draw reads the buffer that the
/// frame's last dispatch wrote.
pub proof fn lemma_draw_reads_last_destination(v: ParticleSystemView, steps: nat, requested: nat)
    requires
        v.wf(),
        steps > 0,
    ensures
        v.bind_groups[((v.pass.generation + steps - 1) % 2) as int].entries[2].resource == prepared(
            v,
            steps,
            requested,
        ).read_buffer().id,
{
}

/// Dispatch `j` of a frame reads the buffer that holds generation `g + j`,
/// the newest state at that point, and writes the other buffer of the pair.
pub proof fn lemma_dispatch_reads_latest(v: ParticleSystemView, j: nat)
    requires
        v.wf(),
    ensures
        ({
            let k = ((v.pass.generation + j) % 2) as int;
            let entries = v.bind_groups[k].entries;
            &&& entries[1].resource == v.particle_buffers[k].id
            &&& entries[2].resource == v.particle_buffers[1 - k].id
            &&& entries[1].resource != entries[2].resource
            &&& crate::swap::after_dispatches(v.pass, j).holds(k as nat) == v.pass.generation + j
        }),
{
}

} // verus!
