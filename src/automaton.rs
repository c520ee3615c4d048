//! The cellular automaton: a texture pair read and written in turn, which
//! is reallocated when the grid size changes.

use crate::bindings::{
    BindGroupDesc, BindGroupView, BindLayout, BindingEntry, BindingKind, BindingSlot, BufferDesc,
    Resource, TexelFormat, TextureDesc, Usages, all_admitted, cell_texture_usage, entries_of,
    uniform_block_usage,
};
use crate::dispatch::{div_ceil, workgroups_2d};
use crate::layout::{block_layout, CameraParams, CAMERA_SIZE};
use crate::resources::{
    BufferWrite, Dispatch, DrawPlan, GroupBinding, InitialContents, PreparePlan, ResourceCommand,
    ResourcePool,
};
use crate::swap::{DoubleBuffer, DoubleBufferView};
use vstd::prelude::*;

verus! {

/// Invocations of the automaton compute shader along x per workgroup.
pub const CELL_WORKGROUP_X: u32 = 8;

/// Invocations of the automaton compute shader along y per workgroup.
pub const CELL_WORKGROUP_Y: u32 = 8;

/// Vertices of the textured quad (a triangle strip).
pub const QUAD_VERTICES: u32 = 4;

/// Bind group index of the cell textures.
pub const CELLS_GROUP: u32 = 0;

/// Bind group index of the camera block.
pub const CAMERA_GROUP: u32 = 1;

/// The camera block the quad starts with: origin (0, 0) and scale
/// (9/16, 1), the bit patterns of those `f32` values.
pub open spec fn initial_camera_spec() -> CameraParams {
    CameraParams {
        origin_x_bits: 0,
        origin_y_bits: 0,
        scale_x_bits: 0x3F10_0000,
        scale_y_bits: 0x3F80_0000,
    }
}

pub fn initial_camera() -> (r: CameraParams)
    ensures
        r == initial_camera_spec(),
{
    CameraParams {
        origin_x_bits: 0,
        origin_y_bits: 0,
        scale_x_bits: 0x3F10_0000,
        scale_y_bits: 0x3F80_0000,
    }
}

/// Slots of the cell textures: the current generation, read-only, and the
/// next one, write-only.
pub open spec fn cell_slots() -> Seq<BindingSlot> {
    seq![
        BindingSlot { group: 0, binding: 0, kind: BindingKind::StorageTexture { write_only: false } },
        BindingSlot { group: 0, binding: 1, kind: BindingKind::StorageTexture { write_only: true } },
    ]
}

/// Slot of the camera block.
pub open spec fn camera_slots() -> Seq<BindingSlot> {
    seq![BindingSlot { group: 1, binding: 0, kind: BindingKind::UniformBuffer }]
}

pub fn cell_texture_slots() -> (r: Vec<BindingSlot>)
    ensures
        r@ == cell_slots(),
{
    let r = vec![
        BindingSlot { group: 0, binding: 0, kind: BindingKind::StorageTexture { write_only: false } },
        BindingSlot { group: 0, binding: 1, kind: BindingKind::StorageTexture { write_only: true } },
    ];
    assert(r@ =~= cell_slots());
    r
}

pub fn camera_block_slots() -> (r: Vec<BindingSlot>)
    ensures
        r@ == camera_slots(),
{
    let r = vec![BindingSlot { group: 1, binding: 0, kind: BindingKind::UniformBuffer }];
    assert(r@ =~= camera_slots());
    r
}

/// Entries of the cell bind group that reads `cur` and writes `next`.
pub open spec fn cell_wiring(cur: u64, next: u64) -> Seq<BindingEntry> {
    seq![BindingEntry { binding: 0, resource: cur }, BindingEntry { binding: 1, resource: next }]
}

/// A texture pair of `width` by `height` cells and its two bind groups:
/// `groups[i]` reads `textures[i]` and writes the other.
pub open spec fn cells_wired(
    textures: Seq<TextureDesc>,
    groups: Seq<BindGroupView>,
    width: nat,
    height: nat,
) -> bool {
    &&& textures.len() == 2
    &&& groups.len() == 2
    &&& textures[0].id != textures[1].id
    &&& groups[0].id != groups[1].id
    &&& forall|i: int|
        0 <= i < 2 ==> {
            let t = #[trigger] textures[i];
            &&& t.width == width && t.height == height
            &&& t.format == TexelFormat::R32Uint
            &&& t.usage == cell_texture_usage()
        }
    &&& forall|i: int|
        0 <= i < 2 ==> {
            &&& (#[trigger] groups[i]).layout == BindLayout::CellTextures
            &&& groups[i].entries == cell_wiring(textures[i].id, textures[1 - i].id)
        }
}

/// Model of the automaton renderer.
pub struct SceneRendererView {
    /// The id the next allocation receives.
    pub next_id: nat,
    pub camera_buffer: BufferDesc,
    pub camera_group: BindGroupView,
    pub width: nat,
    pub height: nat,
    pub textures: Seq<TextureDesc>,
    pub texture_groups: Seq<BindGroupView>,
    pub pass: DoubleBufferView,
    /// Whether the compute shader writes a live seed cell at (0, 0).
    pub seed_mode: bool,
    /// Every id released so far.
    pub retired: Set<u64>,
}

impl SceneRendererView {
    /// The ids of the resources the renderer holds now.
    pub open spec fn held_ids(self) -> Set<u64> {
        set![
            self.camera_buffer.id,
            self.camera_group.id,
            self.textures[0].id,
            self.textures[1].id,
            self.texture_groups[0].id,
            self.texture_groups[1].id,
        ]
    }

    /// The ids of the texture pair and its bind groups.
    pub open spec fn cell_ids(self) -> Set<u64> {
        set![self.textures[0].id, self.textures[1].id, self.texture_groups[0].id, self.texture_groups[1].id]
    }

    pub open spec fn wf(self) -> bool {
        &&& !self.cell_ids().contains(self.camera_buffer.id)
        &&& !self.cell_ids().contains(self.camera_group.id)
        &&& cells_wired(self.textures, self.texture_groups, self.width, self.height)
        &&& self.width > 0 && self.height > 0
        &&& self.camera_buffer.size == CAMERA_SIZE
        &&& self.camera_buffer.usage == uniform_block_usage()
        &&& self.camera_group.layout == BindLayout::Camera
        &&& self.camera_group.entries == seq![BindingEntry { binding: 0, resource: self.camera_buffer.id }]
        &&& self.camera_buffer.id != self.camera_group.id
        &&& forall|id: u64| #[trigger] self.held_ids().contains(id) ==> id < self.next_id
        &&& forall|id: u64| #[trigger] self.retired.contains(id) ==> id < self.next_id
        &&& forall|id: u64| #[trigger] self.held_ids().contains(id) ==> !self.retired.contains(id)
        &&& self.pass.wf()
    }

    /// The dispatch made `j` dispatches after the current generation.
    pub open spec fn dispatch_at(self, j: nat) -> Dispatch {
        Dispatch {
            bind_group: self.texture_groups[((self.pass.generation + j) % 2) as int].id,
            x: div_ceil(self.width, CELL_WORKGROUP_X as nat) as u32,
            y: div_ceil(self.height, CELL_WORKGROUP_Y as nat) as u32,
            z: 1,
        }
    }
}

/// Whether a frame asking for a `width` by `height` grid reallocates.
pub open spec fn needs_resize(v: SceneRendererView, width: nat, height: nat) -> bool {
    width != v.width || height != v.height
}

/// The dispatch `j` of a frame that starts at generation `generation`, over
/// the bind groups `groups` of a `width` by `height` grid.
pub open spec fn cell_dispatch(groups: Seq<BindGroupView>, generation: nat, j: nat, width: nat, height: nat) -> Dispatch {
    Dispatch {
        bind_group: groups[((generation + j) % 2) as int].id,
        x: div_ceil(width, CELL_WORKGROUP_X as nat) as u32,
        y: div_ceil(height, CELL_WORKGROUP_Y as nat) as u32,
        z: 1,
    }
}

/// The resource commands of a resize from `v` to `w`: the new textures and
/// bind groups are created first, then the old bind groups and textures are
/// released, so nothing is left referring to a released resource.
pub open spec fn resize_commands(v: SceneRendererView, w: SceneRendererView, cmds: Seq<ResourceCommand>) -> bool {
    &&& cmds.len() == 8
    &&& cmds[0] matches ResourceCommand::CreateTexture { texture } && texture == w.textures[0]
    &&& cmds[1] matches ResourceCommand::CreateTexture { texture } && texture == w.textures[1]
    &&& cmds[2] matches ResourceCommand::CreateBindGroup { group } && group@ == w.texture_groups[0]
    &&& cmds[3] matches ResourceCommand::CreateBindGroup { group } && group@ == w.texture_groups[1]
    &&& cmds[4] == ResourceCommand::Release { id: v.texture_groups[0].id }
    &&& cmds[5] == ResourceCommand::Release { id: v.texture_groups[1].id }
    &&& cmds[6] == ResourceCommand::Release { id: v.textures[0].id }
    &&& cmds[7] == ResourceCommand::Release { id: v.textures[1].id }
}

/// Persistent state of the cellular automaton: a pair of cell textures read
/// and written in turn by a compute shader, their two bind groups, and the
/// camera block that places the textured quad.
pub struct SceneRenderer {
    pool: ResourcePool,
    camera_buffer: BufferDesc,
    camera_group: BindGroupDesc,
    texture_size: (u32, u32),
    textures: Vec<TextureDesc>,
    texture_groups: Vec<BindGroupDesc>,
    pass: DoubleBuffer,
    seed_mode: bool,
    retired: Ghost<Set<u64>>,
}

impl View for SceneRenderer {
    type V = SceneRendererView;

    closed spec fn view(&self) -> SceneRendererView {
        SceneRendererView {
            next_id: self.pool@,
            camera_buffer: self.camera_buffer,
            camera_group: self.camera_group@,
            width: self.texture_size.0 as nat,
            height: self.texture_size.1 as nat,
            textures: self.textures@,
            texture_groups: self.texture_groups@.map_values(|g: BindGroupDesc| g@),
            pass: self.pass@,
            seed_mode: self.seed_mode,
            retired: self.retired@,
        }
    }
}

/// Allocates a `width` by `height` texture pair and the two bind groups that
/// orient it; all four take fresh ids.
fn create_texture_bind_groups(pool: &mut ResourcePool, width: u32, height: u32) -> (r: (
    Vec<TextureDesc>,
    Vec<BindGroupDesc>,
))
    requires
        old(pool)@ + 4 <= u64::MAX,
    ensures
        final(pool)@ == old(pool)@ + 4,
        cells_wired(r.0@, r.1@.map_values(|g: BindGroupDesc| g@), width as nat, height as nat),
        r.0@[0].id == old(pool)@ && r.0@[1].id == old(pool)@ + 1,
        r.1@[0].id == old(pool)@ + 2 && r.1@[1].id == old(pool)@ + 3,
{
    let usage = Usages { storage_binding: true, ..Usages::none() };
    let cur = pool.allocate_texture(width, height, TexelFormat::R32Uint, usage);
    let next = pool.allocate_texture(width, height, TexelFormat::R32Uint, usage);
    let slots = cell_texture_slots();
    let forward = vec![Resource::Texture(cur), Resource::Texture(next)];
    let backward = vec![Resource::Texture(next), Resource::Texture(cur)];
    proof {
        assert(all_admitted(slots@, forward@));
        assert(all_admitted(slots@, backward@));
    }
    let g0 = pool.allocate_bind_group(BindLayout::CellTextures, &slots, &forward).unwrap();
    let g1 = pool.allocate_bind_group(BindLayout::CellTextures, &slots, &backward).unwrap();
    let textures = vec![cur, next];
    let groups = vec![g0, g1];
    proof {
        assert(entries_of(slots@, forward@) =~= cell_wiring(cur.id, next.id));
        assert(entries_of(slots@, backward@) =~= cell_wiring(next.id, cur.id));
        let gv = groups@.map_values(|g: BindGroupDesc| g@);
        assert(gv[0] == g0@ && gv[1] == g1@);
    }
    (textures, groups)
}

impl SceneRenderer {
    /// Lays out the camera buffer and a 1 by 1 texture pair. `seed_mode`
    /// keeps the cell at (0, 0) alive in every generation.
    pub fn init(seed_mode: bool) -> (r: Self)
        ensures
            r@.wf(),
            r@.width == 1 && r@.height == 1,
            r@.pass.generation == 0,
            r@.seed_mode == seed_mode,
            r@.retired.is_empty(),
            r@.next_id == 6,
    {
        let mut pool = ResourcePool::new();
        let camera_usage = Usages { uniform: true, copy_dst: true, ..Usages::none() };
        let camera_buffer = pool.allocate_buffer(CAMERA_SIZE as u64, camera_usage);
        let slots = camera_block_slots();
        let resources = vec![Resource::Buffer(camera_buffer)];
        proof {
            assert(all_admitted(slots@, resources@));
        }
        let camera_group = pool.allocate_bind_group(BindLayout::Camera, &slots, &resources).unwrap();
        let (textures, texture_groups) = create_texture_bind_groups(&mut pool, 1, 1);
        let r = SceneRenderer {
            pool,
            camera_buffer,
            camera_group,
            texture_size: (1, 1),
            textures,
            texture_groups,
            pass: DoubleBuffer::new(),
            seed_mode,
            retired: Ghost(Set::empty()),
        };
        proof {
            assert(entries_of(slots@, resources@) =~= seq![
                BindingEntry { binding: 0, resource: camera_buffer.id },
            ]);
        }
        r
    }

    /// The resources to create before the first frame, in order: the camera
    /// buffer, holding the initial camera block, and its bind group, the two
    /// textures, their two bind groups.
    pub fn setup(&self) -> (r: Vec<ResourceCommand>)
        requires
            self@.wf(),
        ensures
            r@.len() == 6,
            r@[0] matches ResourceCommand::CreateBuffer { buffer, contents } && buffer
                == self@.camera_buffer && contents == (InitialContents::Camera {
                camera: initial_camera_spec(),
            }),
            r@[1] matches ResourceCommand::CreateBindGroup { group } && group@ == self@.camera_group,
            r@[2] matches ResourceCommand::CreateTexture { texture } && texture == self@.textures[0],
            r@[3] matches ResourceCommand::CreateTexture { texture } && texture == self@.textures[1],
            r@[4] matches ResourceCommand::CreateBindGroup { group } && group@ == self@.texture_groups[0],
            r@[5] matches ResourceCommand::CreateBindGroup { group } && group@ == self@.texture_groups[1],
    {
        let r = vec![
            ResourceCommand::CreateBuffer {
                buffer: self.camera_buffer,
                contents: InitialContents::Camera { camera: initial_camera() },
            },
            ResourceCommand::CreateBindGroup { group: self.camera_group.duplicate() },
            ResourceCommand::CreateTexture { texture: self.textures[0] },
            ResourceCommand::CreateTexture { texture: self.textures[1] },
            ResourceCommand::CreateBindGroup { group: self.texture_groups[0].duplicate() },
            ResourceCommand::CreateBindGroup { group: self.texture_groups[1].duplicate() },
        ];
        proof {
            assert(self@.texture_groups[0] == self.texture_groups@[0]@);
            assert(self@.texture_groups[1] == self.texture_groups@[1]@);
        }
        r
    }

    /// Encodes one frame: reallocates the texture pair first if the grid
    /// size changed, uploads the camera block, then makes `steps`
    /// dispatches over the (new) pair, each covering the whole grid.
    pub fn prepare(&mut self, steps: u64, size: (u32, u32), camera: CameraParams) -> (plan: PreparePlan)
        requires
            old(self)@.wf(),
            size.0 > 0,
            size.1 > 0,
            old(self)@.pass.generation + steps <= u64::MAX,
            old(self)@.next_id + 4 <= u64::MAX,
        ensures
            final(self)@.wf(),
            final(self)@.width == size.0,
            final(self)@.height == size.1,
            final(self)@.pass.generation == old(self)@.pass.generation + steps,
            final(self)@.camera_buffer == old(self)@.camera_buffer,
            final(self)@.camera_group == old(self)@.camera_group,
            final(self)@.seed_mode == old(self)@.seed_mode,
            old(self)@.retired.subset_of(final(self)@.retired),
            needs_resize(old(self)@, size.0 as nat, size.1 as nat) ==> {
                &&& resize_commands(old(self)@, final(self)@, plan.resources@)
                &&& final(self)@.next_id == old(self)@.next_id + 4
                &&& forall|i: int|
                    0 <= i < 2 ==> (#[trigger] final(self)@.textures[i]).id >= old(self)@.next_id
                        && final(self)@.texture_groups[i].id >= old(self)@.next_id
                &&& final(self)@.retired == old(self)@.retired.union(old(self)@.cell_ids())
                &&& final(self)@.pass.base == old(self)@.pass.generation
            },
            !needs_resize(old(self)@, size.0 as nat, size.1 as nat) ==> {
                &&& plan.resources@.len() == 0
                &&& final(self)@.next_id == old(self)@.next_id
                &&& final(self)@.textures == old(self)@.textures
                &&& final(self)@.texture_groups == old(self)@.texture_groups
                &&& final(self)@.retired == old(self)@.retired
                &&& final(self)@.pass.base == old(self)@.pass.base
            },
            plan.writes@.len() == 1,
            plan.writes@[0].buffer == old(self)@.camera_buffer.id,
            block_layout(camera.fields(), plan.writes@[0].bytes@),
            plan.dispatches@.len() == steps,
            forall|j: int|
                0 <= j < steps ==> #[trigger] plan.dispatches@[j] == cell_dispatch(
                    final(self)@.texture_groups,
                    old(self)@.pass.generation,
                    j as nat,
                    size.0 as nat,
                    size.1 as nat,
                ),
    {
        let ghost v0 = self@;
        let mut resources: Vec<ResourceCommand> = Vec::new();
        if size.0 != self.texture_size.0 || size.1 != self.texture_size.1 {
            let (textures, groups) = create_texture_bind_groups(&mut self.pool, size.0, size.1);
            resources.push(ResourceCommand::CreateTexture { texture: textures[0] });
            resources.push(ResourceCommand::CreateTexture { texture: textures[1] });
            resources.push(ResourceCommand::CreateBindGroup { group: groups[0].duplicate() });
            resources.push(ResourceCommand::CreateBindGroup { group: groups[1].duplicate() });
            resources.push(ResourceCommand::Release { id: self.texture_groups[0].id });
            resources.push(ResourceCommand::Release { id: self.texture_groups[1].id });
            resources.push(ResourceCommand::Release { id: self.textures[0].id });
            resources.push(ResourceCommand::Release { id: self.textures[1].id });
            self.retired = Ghost(self.retired@.union(v0.cell_ids()));
            self.textures = textures;
            self.texture_groups = groups;
            self.texture_size = size;
            self.pass.restart();
            proof {
                let w = self@;
                assert(w.texture_groups[0] == self.texture_groups@[0]@);
                assert(w.texture_groups[1] == self.texture_groups@[1]@);
                assert forall|id: u64| #[trigger] w.held_ids().contains(id) implies id < w.next_id
                    && !w.retired.contains(id) by {
                    if w.cell_ids().contains(id) {
                        assert(id >= v0.next_id);
                        if v0.cell_ids().contains(id) {
                            assert(v0.held_ids().contains(id));
                        }
                        assert(!v0.retired.contains(id));
                    } else {
                        assert(id == w.camera_buffer.id || id == w.camera_group.id);
                        assert(v0.held_ids().contains(id));
                        assert(!v0.cell_ids().contains(id));
                    }
                }
                assert forall|id: u64| #[trigger] w.retired.contains(id) implies id < w.next_id by {
                    assert(w.next_id == v0.next_id + 4);
                    if v0.cell_ids().contains(id) {
                        assert(id == v0.textures[0].id || id == v0.textures[1].id
                            || id == v0.texture_groups[0].id || id == v0.texture_groups[1].id);
                        assert(v0.held_ids().contains(id));
                    } else {
                        assert(v0.retired.contains(id));
                    }
                }
                assert(resize_commands(v0, w, resources@));
                assert(v0.held_ids().contains(v0.camera_buffer.id));
                assert(v0.held_ids().contains(v0.camera_group.id));
                assert(!w.cell_ids().contains(w.camera_buffer.id));
                assert(!w.cell_ids().contains(w.camera_group.id));
                assert(cells_wired(w.textures, w.texture_groups, w.width, w.height));
                assert(w.wf());
            }
        }
        let ghost v1 = self@;
        let bytes = camera.to_bytes();
        let writes = vec![BufferWrite { buffer: self.camera_buffer.id, bytes }];
        let (x, y, z) = workgroups_2d(size.0, size.1, CELL_WORKGROUP_X, CELL_WORKGROUP_Y);
        let mut dispatches: Vec<Dispatch> = Vec::new();
        let mut j: u64 = 0;
        while j < steps
            invariant
                j <= steps,
                v1.wf(),
                v1.width == size.0 && v1.height == size.1,
                v1.pass.generation == v0.pass.generation,
                v0.pass.generation + steps <= u64::MAX,
                self@ == (SceneRendererView {
                    pass: DoubleBufferView { generation: v1.pass.generation + j as nat, base: v1.pass.base },
                    ..v1
                }),
                x == div_ceil(size.0 as nat, CELL_WORKGROUP_X as nat),
                y == div_ceil(size.1 as nat, CELL_WORKGROUP_Y as nat),
                z == 1,
                dispatches@.len() == j,
                forall|k: int|
                    0 <= k < j ==> #[trigger] dispatches@[k] == cell_dispatch(
                        v1.texture_groups,
                        v0.pass.generation,
                        k as nat,
                        size.0 as nat,
                        size.1 as nat,
                    ),
            decreases steps - j,
        {
            let (src, _dst) = self.pass.current_pair();
            proof {
                assert(self@.texture_groups[src as int] == self.texture_groups@[src as int]@);
            }
            dispatches.push(Dispatch { bind_group: self.texture_groups[src].id, x, y, z });
            self.pass.advance();
            j = j + 1;
        }
        proof {
            assert(self@.held_ids() == v1.held_ids());
            assert(self@.cell_ids() == v1.cell_ids());
        }
        PreparePlan { resources, writes, dispatches }
    }

    /// Encodes the draw of the textured quad: the cell bind group whose
    /// read slot holds the texture written last, and the camera block.
    pub fn render(&self) -> (r: DrawPlan)
        requires
            self@.wf(),
        ensures
            r.bind_groups@ == seq![
                GroupBinding {
                    group: CELLS_GROUP,
                    bind_group: self@.texture_groups[(self@.pass.generation % 2) as int].id,
                },
                GroupBinding { group: CAMERA_GROUP, bind_group: self@.camera_group.id },
            ],
            self@.texture_groups[(self@.pass.generation % 2) as int].entries[0].resource
                == self@.textures[(self@.pass.generation % 2) as int].id,
            self@.pass.holds(self@.pass.generation % 2) == self@.pass.generation,
            r.vertex_buffer is None,
            r.vertex_count == QUAD_VERTICES,
            r.instance_count == 1,
    {
        let read = self.pass.read_index();
        proof {
            assert(self@.texture_groups[read as int] == self.texture_groups@[read as int]@);
        }
        let bind_groups = vec![
            GroupBinding { group: CELLS_GROUP, bind_group: self.texture_groups[read].id },
            GroupBinding { group: CAMERA_GROUP, bind_group: self.camera_group.id },
        ];
        assert(bind_groups@ =~= seq![
            GroupBinding {
                group: CELLS_GROUP,
                bind_group: self@.texture_groups[(self@.pass.generation % 2) as int].id,
            },
            GroupBinding { group: CAMERA_GROUP, bind_group: self@.camera_group.id },
        ]);
        DrawPlan { bind_groups, vertex_buffer: None, vertex_count: QUAD_VERTICES, instance_count: 1 }
    }

    pub fn texture_size(&self) -> (r: (u32, u32))
        ensures
            r.0 == self@.width && r.1 == self@.height,
    {
        self.texture_size
    }

    pub fn generation(&self) -> (r: u64)
        ensures
            r == self@.pass.generation,
    {
        self.pass.generation()
    }

    pub fn seed_mode(&self) -> (r: bool)
        ensures
            r == self@.seed_mode,
    {
        self.seed_mode
    }

    pub fn next_id(&self) -> (r: u64)
        ensures
            r == self@.next_id,
    {
        self.pool.next_id()
    }
}

/// Every handle that a dispatch or a draw can bind, the cell bind groups,
/// the camera bind group and every resource their entries name, is held
/// now and has never been released.
pub proof fn lemma_no_stale_handles(v: SceneRendererView)
    requires
        v.wf(),
    ensures
        forall|i: int, k: int|
            0 <= i < 2 && 0 <= k < v.texture_groups[i].entries.len() ==> !v.retired.contains(
                #[trigger] v.texture_groups[i].entries[k].resource,
            ),
        forall|i: int| 0 <= i < 2 ==> !v.retired.contains(#[trigger] v.texture_groups[i].id),
        !v.retired.contains(v.camera_group.id),
        !v.retired.contains(v.camera_buffer.id),
{
    assert(v.held_ids().contains(v.textures[0].id));
    assert(v.held_ids().contains(v.textures[1].id));
    assert(v.held_ids().contains(v.texture_groups[0].id));
    assert(v.held_ids().contains(v.texture_groups[1].id));
    assert(v.held_ids().contains(v.camera_group.id));
    assert(v.held_ids().contains(v.camera_buffer.id));
}

/// Once the texture pair of state `v` has been replaced and released, in
/// any later well-formed state `u` neither the cell bind groups nor any
/// resource they bind belongs to `v`'s pair: the new bind groups reference
/// only newly allocated textures.
pub proof fn lemma_resize_safety(v: SceneRendererView, u: SceneRendererView)
    requires
        v.wf(),
        u.wf(),
        v.cell_ids().subset_of(u.retired),
    ensures
        forall|i: int, k: int|
            0 <= i < 2 && 0 <= k < u.texture_groups[i].entries.len() ==> !v.cell_ids().contains(
                #[trigger] u.texture_groups[i].entries[k].resource,
            ),
        forall|i: int| 0 <= i < 2 ==> !v.cell_ids().contains(#[trigger] u.texture_groups[i].id),
{
    lemma_no_stale_handles(u);
}

} // verus!
