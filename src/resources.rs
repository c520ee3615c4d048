//! The resource pool that hands out handles, and the plans of a frame.

use crate::bindings::{
    build_bind_group, BindError, BindGroupDesc, BindLayout, BindingSlot, BufferDesc, Resource,
    TexelFormat, TextureDesc, Usages, entries_of, all_admitted,
};
use crate::layout::CameraParams;
use vstd::prelude::*;

verus! {

/// Hands out resource descriptions with fresh identifiers: every id is
/// larger than all ids handed out before it, so a new allocation never
/// shares a handle with an old one.
pub struct ResourcePool {
    next_id: u64,
}

impl View for ResourcePool {
    type V = nat;

    /// The id the next allocation receives.
    closed spec fn view(&self) -> nat {
        self.next_id as nat
    }
}

impl ResourcePool {
    pub fn new() -> (r: Self)
        ensures
            r@ == 0,
    {
        ResourcePool { next_id: 0 }
    }

    /// The id the next allocation receives.
    pub fn next_id(&self) -> (r: u64)
        ensures
            r == self@,
    {
        self.next_id
    }

    fn fresh_id(&mut self) -> (r: u64)
        requires
            old(self)@ < u64::MAX,
        ensures
            r == old(self)@,
            final(self)@ == old(self)@ + 1,
    {
        let id = self.next_id;
        self.next_id = self.next_id + 1;
        id
    }

    /// A buffer of `size` bytes with usage `usage`.
    pub fn allocate_buffer(&mut self, size: u64, usage: Usages) -> (r: BufferDesc)
        requires
            old(self)@ < u64::MAX,
        ensures
            r == (BufferDesc { id: old(self)@ as u64, size, usage }),
            final(self)@ == old(self)@ + 1,
    {
        let id = self.fresh_id();
        BufferDesc { id, size, usage }
    }

    /// A `width` by `height` texture of texel format `format`.
    pub fn allocate_texture(&mut self, width: u32, height: u32, format: TexelFormat, usage: Usages) -> (r:
        TextureDesc)
        requires
            old(self)@ < u64::MAX,
        ensures
            r == (TextureDesc { id: old(self)@ as u64, width, height, format, usage }),
            final(self)@ == old(self)@ + 1,
    {
        let id = self.fresh_id();
        TextureDesc { id, width, height, format, usage }
    }

    /// A bind group binding `resources[i]` at `slots[i]`; it takes a fresh id
    /// only when it can be built.
    pub fn allocate_bind_group(
        &mut self,
        layout: BindLayout,
        slots: &Vec<BindingSlot>,
        resources: &Vec<Resource>,
    ) -> (r: Result<BindGroupDesc, BindError>)
        requires
            old(self)@ < u64::MAX,
        ensures
            slots.len() == resources.len() && all_admitted(slots@, resources@) <==> r is Ok,
            slots.len() != resources.len() <==> r == Err::<BindGroupDesc, BindError>(
                BindError::SlotCountMismatch,
            ),
            r is Ok ==> r->Ok_0@.id == old(self)@ && r->Ok_0@.layout == layout
                && r->Ok_0@.entries == entries_of(slots@, resources@) && final(self)@ == old(self)@ + 1,
            r is Err ==> final(self)@ == old(self)@,
    {
        let built = build_bind_group(self.next_id, layout, slots, resources);
        if built.is_ok() {
            self.next_id = self.next_id + 1;
        }
        built
    }
}

/// What a newly created buffer holds.
#[derive(Clone, Copy, Debug, PartialEq, Eq, Structural)]
pub enum InitialContents {
    /// All bytes zero.
    Zeroed,
    /// `count` elements drawn from a random generator seeded with `seed`;
    /// the same seed gives the same elements.
    Seeded { seed: u64, count: u32 },
    /// The camera block `camera`, laid out as `CameraParams::to_bytes` gives it.
    Camera { camera: CameraParams },
}

/// A change to the set of GPU resources, executed in order.
#[derive(Debug)]
pub enum ResourceCommand {
    CreateBuffer { buffer: BufferDesc, contents: InitialContents },
    /// A new texture; its texels start at zero.
    CreateTexture { texture: TextureDesc },
    CreateBindGroup { group: BindGroupDesc },
    /// Drops the resource with this id; nothing refers to it afterwards.
    Release { id: u64 },
}

/// Bytes written at the start of a buffer.
#[derive(Debug)]
pub struct BufferWrite {
    pub buffer: u64,
    pub bytes: Vec<u8>,
}

/// One compute dispatch: the bind group set at group 0 and the workgroup
/// counts per axis.
#[derive(Clone, Copy, Debug, PartialEq, Eq, Structural)]
pub struct Dispatch {
    pub bind_group: u64,
    pub x: u32,
    pub y: u32,
    pub z: u32,
}

/// Everything `prepare` asks of the GPU for one frame, in this order:
/// resource changes, buffer writes, then the dispatches, encoded in sequence
/// into a single compute pass.
#[derive(Debug)]
pub struct PreparePlan {
    pub resources: Vec<ResourceCommand>,
    pub writes: Vec<BufferWrite>,
    pub dispatches: Vec<Dispatch>,
}

/// A bind group set at a group index for a draw.
#[derive(Clone, Copy, Debug, PartialEq, Eq, Structural)]
pub struct GroupBinding {
    pub group: u32,
    pub bind_group: u64,
}

/// The draw that `paint` issues: it only reads resources.
#[derive(Debug)]
pub struct DrawPlan {
    pub bind_groups: Vec<GroupBinding>,
    pub vertex_buffer: Option<u64>,
    pub vertex_count: u32,
    pub instance_count: u32,
}

} // verus!
