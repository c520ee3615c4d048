//! Binding slots, resource usages and bind-group construction.

use vstd::prelude::*;

verus! {

/// What a buffer or texture may be used for, fixed when it is allocated.
#[derive(Clone, Copy, Debug, PartialEq, Eq, Structural)]
pub struct Usages {
    pub uniform: bool,
    pub storage: bool,
    pub vertex: bool,
    pub copy_dst: bool,
    pub texture_binding: bool,
    pub storage_binding: bool,
}

impl Usages {
    /// No usage at all; the starting point of a combination.
    pub fn none() -> (r: Usages)
        ensures
            !r.uniform && !r.storage && !r.vertex && !r.copy_dst && !r.texture_binding
                && !r.storage_binding,
    {
        Usages {
            uniform: false,
            storage: false,
            vertex: false,
            copy_dst: false,
            texture_binding: false,
            storage_binding: false,
        }
    }
}

/// Exactly the uniform and copy-destination usages: a uniform block that the
/// host rewrites each frame.
pub open spec fn uniform_block_usage() -> Usages {
    Usages {
        uniform: true,
        storage: false,
        vertex: false,
        copy_dst: true,
        texture_binding: false,
        storage_binding: false,
    }
}

/// Exactly the vertex, storage and copy-destination usages: an element
/// buffer read and written by compute passes and drawn from.
pub open spec fn element_buffer_usage() -> Usages {
    Usages {
        uniform: false,
        storage: true,
        vertex: true,
        copy_dst: true,
        texture_binding: false,
        storage_binding: false,
    }
}

/// Exactly the storage-binding usage: a texture read or written by a
/// compute shader.
pub open spec fn cell_texture_usage() -> Usages {
    Usages {
        uniform: false,
        storage: false,
        vertex: false,
        copy_dst: false,
        texture_binding: false,
        storage_binding: true,
    }
}

/// Texel formats of the textures the renderers allocate.
#[derive(Clone, Copy, Debug, PartialEq, Eq, Structural)]
pub enum TexelFormat {
    R32Uint,
    Rgba8Unorm,
}

/// The kind of resource a shader binding slot declares.
#[derive(Clone, Copy, Debug, PartialEq, Eq, Structural)]
pub enum BindingKind {
    UniformBuffer,
    StorageBuffer { read_only: bool },
    /// A storage texture of 32-bit unsigned texels, read-only or write-only.
    StorageTexture { write_only: bool },
}

/// A binding slot of a shader: group index, binding index and resource kind.
#[derive(Clone, Copy, Debug, PartialEq, Eq, Structural)]
pub struct BindingSlot {
    pub group: u32,
    pub binding: u32,
    pub kind: BindingKind,
}

/// A buffer of the resource pool.
#[derive(Clone, Copy, Debug, PartialEq, Eq, Structural)]
pub struct BufferDesc {
    pub id: u64,
    pub size: u64,
    pub usage: Usages,
}

/// A 2D texture of the resource pool.
#[derive(Clone, Copy, Debug, PartialEq, Eq, Structural)]
pub struct TextureDesc {
    pub id: u64,
    pub width: u32,
    pub height: u32,
    pub format: TexelFormat,
    pub usage: Usages,
}

/// A resource that a bind group can reference.
#[derive(Clone, Copy, Debug, PartialEq, Eq, Structural)]
pub enum Resource {
    Buffer(BufferDesc),
    Texture(TextureDesc),
}

impl Resource {
    pub open spec fn spec_id(self) -> u64 {
        match self {
            Resource::Buffer(b) => b.id,
            Resource::Texture(t) => t.id,
        }
    }

    pub fn id(&self) -> (r: u64)
        ensures
            r == self.spec_id(),
    {
        match self {
            Resource::Buffer(b) => b.id,
            Resource::Texture(t) => t.id,
        }
    }
}

/// Whether `res` can be bound to a slot of kind `kind`: it is a resource of
/// the right type, allocated with the usage that the slot needs.
pub open spec fn admits(res: Resource, kind: BindingKind) -> bool {
    match kind {
        BindingKind::UniformBuffer => res is Buffer && res->Buffer_0.usage.uniform,
        BindingKind::StorageBuffer { .. } => res is Buffer && res->Buffer_0.usage.storage,
        BindingKind::StorageTexture { .. } => res is Texture && res->Texture_0.usage.storage_binding
            && res->Texture_0.format == TexelFormat::R32Uint,
    }
}

/// Decides `admits`.
pub fn check_admits(res: &Resource, kind: BindingKind) -> (r: bool)
    ensures
        r == admits(*res, kind),
{
    match kind {
        BindingKind::UniformBuffer => match res {
            Resource::Buffer(b) => b.usage.uniform,
            Resource::Texture(_) => false,
        },
        BindingKind::StorageBuffer { .. } => match res {
            Resource::Buffer(b) => b.usage.storage,
            Resource::Texture(_) => false,
        },
        BindingKind::StorageTexture { .. } => match res {
            Resource::Buffer(_) => false,
            Resource::Texture(t) => t.usage.storage_binding && match t.format {
                TexelFormat::R32Uint => true,
                TexelFormat::Rgba8Unorm => false,
            },
        },
    }
}

/// The bind group layouts the pipelines declare.
#[derive(Clone, Copy, Debug, PartialEq, Eq, Structural)]
pub enum BindLayout {
    /// Parameters, source particles, destination particles.
    BoidsCompute,
    /// Current and next automaton cell textures.
    CellTextures,
    /// The automaton camera block.
    Camera,
}

/// One entry of a bind group: a binding index and the resource bound there.
#[derive(Clone, Copy, Debug, PartialEq, Eq, Structural)]
pub struct BindingEntry {
    pub binding: u32,
    pub resource: u64,
}

/// An immutable binding of resources to the slots of a layout.
#[derive(Debug)]
pub struct BindGroupDesc {
    pub id: u64,
    pub layout: BindLayout,
    pub entries: Vec<BindingEntry>,
}

/// Model of a bind group.
pub struct BindGroupView {
    pub id: u64,
    pub layout: BindLayout,
    pub entries: Seq<BindingEntry>,
}

impl View for BindGroupDesc {
    type V = BindGroupView;

    open spec fn view(&self) -> BindGroupView {
        BindGroupView { id: self.id, layout: self.layout, entries: self.entries@ }
    }
}

impl BindGroupDesc {
    /// A copy with the same id, layout and entries.
    pub fn duplicate(&self) -> (r: BindGroupDesc)
        ensures
            r@ == self@,
    {
        let entries = self.entries.clone();
        assert(entries@ =~= self.entries@);
        BindGroupDesc { id: self.id, layout: self.layout, entries }
    }
}

/// Why a bind group could not be built.
#[derive(Clone, Copy, Debug, PartialEq, Eq, Structural)]
pub enum BindError {
    /// The number of resources differs from the number of slots.
    SlotCountMismatch,
    /// The resource for this binding index has the wrong type or lacks the usage.
    UsageMismatch { binding: u32 },
}

/// Whether every resource can be bound to the slot at the same position.
pub open spec fn all_admitted(slots: Seq<BindingSlot>, resources: Seq<Resource>) -> bool {
    forall|i: int| 0 <= i < slots.len() ==> admits(#[trigger] resources[i], slots[i].kind)
}

/// The entries that bind `resources[i]` at `slots[i]`.
pub open spec fn entries_of(slots: Seq<BindingSlot>, resources: Seq<Resource>) -> Seq<BindingEntry> {
    Seq::new(
        slots.len(),
        |i: int| BindingEntry { binding: slots[i].binding, resource: resources[i].spec_id() },
    )
}

/// Builds a bind group with id `id` for `layout`, binding `resources[i]` at
/// `slots[i]`. Mismatched usage is refused here, when the group is built,
/// and never reaches a dispatch.
pub fn build_bind_group(
    id: u64,
    layout: BindLayout,
    slots: &Vec<BindingSlot>,
    resources: &Vec<Resource>,
) -> (r: Result<BindGroupDesc, BindError>)
    ensures
        slots.len() != resources.len() <==> r == Err::<BindGroupDesc, BindError>(
            BindError::SlotCountMismatch,
        ),
        slots.len() == resources.len() && all_admitted(slots@, resources@) <==> r is Ok,
        r is Ok ==> r->Ok_0.id == id && r->Ok_0.layout == layout && r->Ok_0.entries@ == entries_of(
            slots@,
            resources@,
        ),
        r matches Err(BindError::UsageMismatch { binding }) ==> exists|i: int|
            0 <= i < slots.len() && !admits(#[trigger] resources@[i], slots@[i].kind)
                && slots@[i].binding == binding && all_admitted(
                slots@.subrange(0, i),
                resources@.subrange(0, i),
            ),
{
    if slots.len() != resources.len() {
        return Err(BindError::SlotCountMismatch);
    }
    let mut entries: Vec<BindingEntry> = Vec::new();
    let mut k: usize = 0;
    while k < slots.len()
        invariant
            k <= slots.len(),
            slots.len() == resources.len(),
            all_admitted(slots@.subrange(0, k as int), resources@.subrange(0, k as int)),
            entries@ =~= entries_of(slots@.subrange(0, k as int), resources@.subrange(0, k as int)),
        decreases slots.len() - k,
    {
        if !check_admits(&resources[k], slots[k].kind) {
            proof {
                if all_admitted(slots@, resources@) {
                    assert(admits(resources@[k as int], slots@[k as int].kind));
                }
            }
            return Err(BindError::UsageMismatch { binding: slots[k].binding });
        }
        entries.push(BindingEntry { binding: slots[k].binding, resource: resources[k].id() });
        k = k + 1;
        assert forall|i: int| 0 <= i < k implies admits(
            #[trigger] resources@.subrange(0, k as int)[i],
            slots@.subrange(0, k as int)[i].kind,
        ) by {
            if i < k - 1 {
                assert(resources@.subrange(0, k as int)[i] == resources@.subrange(0, k - 1)[i]);
                assert(slots@.subrange(0, k as int)[i] == slots@.subrange(0, k - 1)[i]);
            }
        }
    }
    assert(slots@.subrange(0, k as int) =~= slots@);
    assert(resources@.subrange(0, k as int) =~= resources@);
    Ok(BindGroupDesc { id, layout, entries })
}

} // verus!
