//! The state of a texture and of the store that budgets texture memory, and
//! the decisions that the texture operations take on them. Each operation
//! returns what the WebGL context has to be asked for; the caller performs
//! those calls and plans each queued upload with
//! [`plan_texture_upload`](super::texture_upload::plan_texture_upload).
use vstd::prelude::*;

use super::binding::{keys_contain, keys_insert, keys_remove, BindingKey, BindingTable};
use super::conversion::ToGlEnum;
use super::error::Error;
use super::store::{has_id, MemoryStore, StoreEntry, MAX_AVAILABLE_MEMORY};
use super::texture::{
    SamplerParameterKind, TextureLayout, TextureParameterKind, TextureTarget, TextureUnit,
};
use super::texture_upload::{plan_texture_uploads, uploads_planned, TextureUpload, TextureUploadCommand};

verus! {

impl BindingKey for TextureUnit {
    fn same(&self, other: &Self) -> (r: bool) {
        *self == *other
    }
}

/// A texture binding point: a texture unit and a target on it.
#[derive(Debug, Clone, Copy, PartialEq, Eq, Hash, Structural)]
pub struct TextureBindingPoint {
    pub unit: TextureUnit,
    pub target: TextureTarget,
}

impl BindingKey for TextureBindingPoint {
    fn same(&self, other: &Self) -> (r: bool) {
        self.unit == other.unit && self.target == other.target
    }
}

impl BindingKey for TextureParameterKind {
    fn same(&self, other: &Self) -> (r: bool) {
        *self == *other
    }
}

impl BindingKey for SamplerParameterKind {
    fn same(&self, other: &Self) -> (r: bool) {
        *self == *other
    }
}

/// The arguments of the `texStorage2D` call (when `depth` is `None`) or the
/// `texStorage3D` call that allocates a texture, and the bytes it occupies.
#[derive(Debug, Clone, Copy, PartialEq, Eq, Structural)]
pub struct TextureStorage {
    pub target: u32,
    pub levels: i32,
    pub internal_format: u32,
    pub width: i32,
    pub height: i32,
    pub depth: Option<i32>,
    pub byte_length: usize,
}

/// The storage a texture of `layout` needs.
pub open spec fn storage_for(layout: TextureLayout) -> TextureStorage {
    TextureStorage {
        target: layout.target.gl_value(),
        levels: layout.levels as i32,
        internal_format: layout.internal_format.gl_value(),
        width: layout.width as i32,
        height: layout.height as i32,
        depth: if layout.target == TextureTarget::TEXTURE_2D || layout.target == TextureTarget::TEXTURE_CUBE_MAP {
            None
        } else {
            Some(layout.depth as i32)
        },
        byte_length: layout.spec_byte_length() as usize,
    }
}

/// Returns the storage a texture of `layout` needs.
pub fn texture_storage(layout: &TextureLayout) -> (r: TextureStorage)
    requires
        layout.byte_length_fits(),
    ensures
        r == storage_for(*layout),
{
    let depth = match layout.target {
        TextureTarget::TEXTURE_2D | TextureTarget::TEXTURE_CUBE_MAP => None,
        TextureTarget::TEXTURE_2D_ARRAY | TextureTarget::TEXTURE_3D => Some(layout.depth as i32),
    };
    TextureStorage {
        target: layout.target.gl_enum(),
        levels: layout.levels as i32,
        internal_format: layout.internal_format.gl_enum(),
        width: layout.width as i32,
        height: layout.height as i32,
        depth,
        byte_length: layout.byte_length(),
    }
}

/// Parameters of one kind each, in the order they were first set.
pub open spec fn parameter_set<K, P>(params: Seq<(K, P)>, kind: K, value: P, result: Seq<(K, P)>) -> bool {
    (exists|i: int| 0 <= i < params.len() && params[i].0 == kind && result == params.update(i, (kind, value)))
        || ((forall|i: int| 0 <= i < params.len() ==> params[i].0 != kind) && result == params.push((kind, value)))
}

/// Sets parameter `kind` to `value`: replaces the parameter of the same kind
/// in place, or appends it when there is none.
pub fn set_parameter<K: BindingKey, P>(params: &mut Vec<(K, P)>, kind: K, value: P)
    ensures
        parameter_set(old(params)@, kind, value, final(params)@),
{
    let mut i: usize = 0;
    while i < params.len()
        invariant
            i <= params@.len(),
            params@ == old(params)@,
            forall|j: int| 0 <= j < i ==> params@[j].0 != kind,
        decreases params@.len() - i,
    {
        if params[i].0.same(&kind) {
            params.set(i, (kind, value));
            return;
        }
        i = i + 1;
    }
    params.push((kind, value));
}

/// What a texture knows of its GPU side once initialized.
pub struct TextureRuntimeState {
    /// Whether the GPU texture and sampler have been created.
    pub has_texture: bool,
    /// Bytes the GPU texture occupies.
    pub byte_length: usize,
    /// Texture units the texture is bound to.
    pub bindings: Vec<TextureUnit>,
}

/// The WebGL calls that clear a texture's binding to a texture unit: making
/// `active_texture` (the unit's enumeration) the active unit, then binding
/// nothing to `target` (the texture's target) there, for texture unit `unit`.
#[derive(Debug, Clone, Copy, PartialEq, Eq, Structural)]
pub struct TextureUnbinding {
    pub unit: TextureUnit,
    pub active_texture: u32,
    pub target: u32,
}

/// The calls that clear the binding of a texture of `target` to `unit`.
pub open spec fn unbinding_of(unit: TextureUnit, target: TextureTarget) -> TextureUnbinding {
    TextureUnbinding { unit, active_texture: unit.gl_value(), target: target.gl_value() }
}

/// What binding or uploading a texture asks of the WebGL context: creating
/// the texture with `create` first when given, binding it to the unit when
/// `newly_bound`, and performing the queued `uploads` in order.
#[verifier::reject_recursive_types(Q)]
pub struct TextureBindPlan<Q> {
    pub create: Option<TextureStorage>,
    pub newly_bound: bool,
    pub uploads: Vec<Q>,
}

/// What freeing a texture's memory did: when `released`, the texture gave
/// back `byte_length` bytes, deleting its GPU texture when `delete_texture`.
pub struct TextureFreeOutcome {
    pub released: bool,
    pub delete_texture: bool,
    pub byte_length: usize,
}

/// A texture: its layout, parameters, memory policy, queued uploads and GPU side.
#[verifier::reject_recursive_types(Q)]
#[verifier::reject_recursive_types(TP)]
#[verifier::reject_recursive_types(SP)]
pub struct TextureState<Q, TP, SP> {
    pub layout: TextureLayout,
    pub texture_params: Vec<(TextureParameterKind, TP)>,
    pub sampler_params: Vec<(SamplerParameterKind, SP)>,
    /// Whether the memory policy lets the store free the texture's memory
    /// (it is restorable).
    pub restorable: bool,
    pub queue: Vec<Q>,
    pub initialized: bool,
    pub runtime: TextureRuntimeState,
}

impl<Q, TP, SP> TextureState<Q, TP, SP> {
    /// The layout's size fits in memory, no unit is recorded twice, a bound
    /// texture exists on the GPU, and the GPU side is empty until
    /// initialization and occupies the layout's bytes once created.
    pub open spec fn wf(&self) -> bool {
        &&& self.layout.byte_length_fits()
        &&& self.runtime.bindings@.no_duplicates()
        &&& self.runtime.bindings@.len() > 0 ==> self.runtime.has_texture
        &&& !self.initialized ==> !self.runtime.has_texture && self.runtime.byte_length == 0
            && self.runtime.bindings@.len() == 0
    }

    /// Constructs a texture of `layout`, not yet initialized.
    pub fn new(
        layout: TextureLayout,
        texture_params: Vec<(TextureParameterKind, TP)>,
        sampler_params: Vec<(SamplerParameterKind, SP)>,
        restorable: bool,
        queue: Vec<Q>,
    ) -> (r: Self)
        requires
            layout.byte_length_fits(),
        ensures
            r.wf(),
            r.layout == layout,
            r.texture_params == texture_params,
            r.sampler_params == sampler_params,
            r.restorable == restorable,
            r.queue == queue,
            !r.initialized,
    {
        TextureState {
            layout,
            texture_params,
            sampler_params,
            restorable,
            queue,
            initialized: false,
            runtime: TextureRuntimeState { has_texture: false, byte_length: 0, bindings: Vec::new() },
        }
    }

    /// Initializes this texture by a WebGL context; `same_context` tells
    /// whether that context is the one it was initialized with before, if it was.
    pub fn init(&mut self, same_context: bool) -> (r: Result<(), Error>)
        requires
            old(self).wf(),
        ensures
            final(self).wf(),
            old(self).initialized ==> *final(self) == *old(self) && r == if same_context {
                Ok::<(), Error>(())
            } else {
                Err(Error::TextureAlreadyInitialized)
            },
            !old(self).initialized ==> r is Ok && final(self).initialized && final(self).runtime
                == old(self).runtime && final(self).queue == old(self).queue && final(self).layout
                == old(self).layout,
    {
        if self.initialized {
            if same_context {
                Ok(())
            } else {
                Err(Error::TextureAlreadyInitialized)
            }
        } else {
            self.initialized = true;
            Ok(())
        }
    }

    /// Creates the GPU texture when there is none: fails when the context
    /// does not support the internal format (`supported` is `false`).
    fn ensure_texture(&mut self, supported: bool) -> (r: Result<Option<TextureStorage>, Error>)
        requires
            old(self).wf(),
            old(self).initialized,
        ensures
            final(self).wf(),
            old(self).runtime.has_texture ==> r == Ok::<Option<TextureStorage>, Error>(None)
                && *final(self) == *old(self),
            !old(self).runtime.has_texture && !supported ==> r == Err::<Option<TextureStorage>, Error>(
                Error::TextureInternalFormatUnsupported(old(self).layout.internal_format),
            ) && *final(self) == *old(self),
            !old(self).runtime.has_texture && supported ==> r == Ok::<Option<TextureStorage>, Error>(
                Some(storage_for(old(self).layout)),
            ) && final(self).runtime.has_texture && final(self).runtime.byte_length
                == old(self).layout.spec_byte_length() && final(self).runtime.bindings
                == old(self).runtime.bindings && final(self).queue == old(self).queue
                && final(self).layout == old(self).layout && final(self).initialized,
            final(self).restorable == old(self).restorable,
            final(self).texture_params == old(self).texture_params,
            final(self).sampler_params == old(self).sampler_params,
    {
        if self.runtime.has_texture {
            return Ok(None);
        }
        if !supported {
            return Err(Error::TextureInternalFormatUnsupported(self.layout.internal_format));
        }
        let storage = texture_storage(&self.layout);
        self.runtime.has_texture = true;
        self.runtime.byte_length = storage.byte_length;
        Ok(Some(storage))
    }

    /// Binds texture to a texture unit; `occupied` tells whether another
    /// texture of the same store holds that unit for this texture's target,
    /// `supported` whether the context supports the internal format. A newly
    /// bound texture is created on the GPU when it has no texture yet.
    /// Hands the queued uploads over.
    pub fn bind(&mut self, unit: TextureUnit, occupied: bool, supported: bool) -> (r: Result<TextureBindPlan<Q>, Error>)
        requires
            old(self).wf(),
        ensures
            final(self).wf(),
            !old(self).initialized ==> r == Err::<TextureBindPlan<Q>, Error>(Error::TextureUninitialized)
                && *final(self) == *old(self),
            old(self).initialized && occupied ==> r == Err::<TextureBindPlan<Q>, Error>(
                Error::TextureTargetOccupied(unit, old(self).layout.target),
            ) && *final(self) == *old(self),
            old(self).initialized && !occupied && old(self).runtime.bindings@.contains(unit) ==> (r matches Ok(plan)
                && plan.create is None && !plan.newly_bound && plan.uploads@ == old(self).queue@
                && final(self).queue@.len() == 0 && final(self).runtime == old(self).runtime),
            old(self).initialized && !occupied && !old(self).runtime.bindings@.contains(unit)
                && !old(self).runtime.has_texture && !supported ==> r == Err::<TextureBindPlan<Q>, Error>(
                Error::TextureInternalFormatUnsupported(old(self).layout.internal_format),
            ) && *final(self) == *old(self),
            old(self).initialized && !occupied && !old(self).runtime.bindings@.contains(unit)
                && (old(self).runtime.has_texture || supported) ==> (r matches Ok(plan) && {
                &&& plan.create == if old(self).runtime.has_texture {
                    None
                } else {
                    Some(storage_for(old(self).layout))
                }
                &&& plan.newly_bound
                &&& plan.uploads@ == old(self).queue@
                &&& final(self).queue@.len() == 0
                &&& final(self).runtime.has_texture
                &&& final(self).runtime.bindings@ == old(self).runtime.bindings@.push(unit)
                &&& final(self).runtime.byte_length == if old(self).runtime.has_texture {
                    old(self).runtime.byte_length as nat
                } else {
                    old(self).layout.spec_byte_length()
                }
            }),
            final(self).layout == old(self).layout,
            final(self).initialized == old(self).initialized,
            final(self).restorable == old(self).restorable,
            final(self).texture_params == old(self).texture_params,
            final(self).sampler_params == old(self).sampler_params,
    {
        if !self.initialized {
            return Err(Error::TextureUninitialized);
        }
        if occupied {
            return Err(Error::TextureTargetOccupied(unit, self.layout.target));
        }
        if keys_contain(&self.runtime.bindings, &unit) {
            let mut uploads: Vec<Q> = Vec::new();
            std::mem::swap(&mut uploads, &mut self.queue);
            return Ok(TextureBindPlan { create: None, newly_bound: false, uploads });
        }
        let create = match self.ensure_texture(supported) {
            Ok(create) => create,
            Err(e) => {
                return Err(e);
            },
        };
        keys_insert(&mut self.runtime.bindings, unit);
        let mut uploads: Vec<Q> = Vec::new();
        std::mem::swap(&mut uploads, &mut self.queue);
        Ok(TextureBindPlan { create, newly_bound: true, uploads })
    }

    /// Uploads the queued data, creating the GPU texture when there is none
    /// (`supported` tells whether the context supports the internal format).
    pub fn upload(&mut self, supported: bool) -> (r: Result<TextureBindPlan<Q>, Error>)
        requires
            old(self).wf(),
        ensures
            final(self).wf(),
            !old(self).initialized ==> r == Err::<TextureBindPlan<Q>, Error>(Error::TextureUninitialized)
                && *final(self) == *old(self),
            old(self).initialized && !old(self).runtime.has_texture && !supported ==> r == Err::<
                TextureBindPlan<Q>,
                Error,
            >(Error::TextureInternalFormatUnsupported(old(self).layout.internal_format)) && *final(self)
                == *old(self),
            old(self).initialized && (old(self).runtime.has_texture || supported) ==> (r matches Ok(plan) && {
                &&& plan.create == if old(self).runtime.has_texture {
                    None
                } else {
                    Some(storage_for(old(self).layout))
                }
                &&& !plan.newly_bound
                &&& plan.uploads@ == old(self).queue@
                &&& final(self).queue@.len() == 0
                &&& final(self).runtime.has_texture
                &&& final(self).runtime.bindings == old(self).runtime.bindings
            }),
            final(self).layout == old(self).layout,
            final(self).initialized == old(self).initialized,
            final(self).restorable == old(self).restorable,
    {
        if !self.initialized {
            return Err(Error::TextureUninitialized);
        }
        let create = match self.ensure_texture(supported) {
            Ok(create) => create,
            Err(e) => {
                return Err(e);
            },
        };
        let mut uploads: Vec<Q> = Vec::new();
        std::mem::swap(&mut uploads, &mut self.queue);
        Ok(TextureBindPlan { create, newly_bound: false, uploads })
    }

    /// Unbinds texture from a texture unit; returns whether it was bound
    /// there (and the WebGL binding has to be cleared).
    pub fn unbind(&mut self, unit: TextureUnit) -> (r: Result<bool, Error>)
        requires
            old(self).wf(),
        ensures
            final(self).wf(),
            !old(self).initialized ==> r == Err::<bool, Error>(Error::TextureUninitialized) && *final(self)
                == *old(self),
            old(self).initialized ==> r == Ok::<bool, Error>(old(self).runtime.bindings@.contains(unit))
                && (forall|u: TextureUnit| #[trigger] final(self).runtime.bindings@.contains(u)
                <==> old(self).runtime.bindings@.contains(u) && u != unit)
                && final(self).runtime.has_texture == old(self).runtime.has_texture
                && final(self).runtime.byte_length == old(self).runtime.byte_length
                && final(self).queue == old(self).queue && final(self).layout == old(self).layout
                && final(self).initialized,
    {
        if !self.initialized {
            return Err(Error::TextureUninitialized);
        }
        let removed = keys_remove(&mut self.runtime.bindings, &unit);
        Ok(removed)
    }

    /// Unbinds texture from every texture unit; returns, for each unit it
    /// was bound to, in order, the WebGL calls that clear the binding.
    pub fn unbind_all(&mut self) -> (r: Result<Vec<TextureUnbinding>, Error>)
        requires
            old(self).wf(),
        ensures
            final(self).wf(),
            !old(self).initialized ==> r == Err::<Vec<TextureUnbinding>, Error>(Error::TextureUninitialized)
                && *final(self) == *old(self),
            old(self).initialized ==> (r matches Ok(unbindings) && unbindings@.len()
                == old(self).runtime.bindings@.len() && (forall|i: int|
                0 <= i < unbindings@.len() ==> #[trigger] unbindings@[i] == unbinding_of(
                    old(self).runtime.bindings@[i],
                    old(self).layout.target,
                )) && final(self).runtime.bindings@.len() == 0
                && final(self).runtime.has_texture == old(self).runtime.has_texture
                && final(self).runtime.byte_length == old(self).runtime.byte_length
                && final(self).queue == old(self).queue && final(self).layout == old(self).layout
                && final(self).initialized),
    {
        if !self.initialized {
            return Err(Error::TextureUninitialized);
        }
        let mut units: Vec<TextureUnit> = Vec::new();
        std::mem::swap(&mut units, &mut self.runtime.bindings);
        let target = self.layout.target;
        let mut unbindings: Vec<TextureUnbinding> = Vec::new();
        let mut i: usize = 0;
        while i < units.len()
            invariant
                i <= units@.len(),
                unbindings@.len() == i,
                forall|j: int| 0 <= j < i ==> #[trigger] unbindings@[j] == unbinding_of(units@[j], target),
            decreases units@.len() - i,
        {
            let unit = units[i];
            unbindings.push(TextureUnbinding { unit, active_texture: unit.gl_enum(), target: target.gl_enum() });
            i = i + 1;
        }
        Ok(unbindings)
    }

    /// Sets a texture parameter, replacing the one of the same kind; returns
    /// whether the GPU texture exists, so that the parameter is applied to it now.
    pub fn set_texture_parameter(&mut self, kind: TextureParameterKind, value: TP) -> (r: bool)
        ensures
            parameter_set(old(self).texture_params@, kind, value, final(self).texture_params@),
            r == (old(self).initialized && old(self).runtime.has_texture),
            final(self).sampler_params == old(self).sampler_params,
            final(self).runtime == old(self).runtime,
            final(self).queue == old(self).queue,
            final(self).layout == old(self).layout,
            final(self).initialized == old(self).initialized,
            final(self).restorable == old(self).restorable,
    {
        set_parameter(&mut self.texture_params, kind, value);
        self.initialized && self.runtime.has_texture
    }

    /// Sets a sampler parameter, replacing the one of the same kind; returns
    /// whether the GPU sampler exists, so that the parameter is applied to it now.
    pub fn set_sampler_parameter(&mut self, kind: SamplerParameterKind, value: SP) -> (r: bool)
        ensures
            parameter_set(old(self).sampler_params@, kind, value, final(self).sampler_params@),
            r == (old(self).initialized && old(self).runtime.has_texture),
            final(self).texture_params == old(self).texture_params,
            final(self).runtime == old(self).runtime,
            final(self).queue == old(self).queue,
            final(self).layout == old(self).layout,
            final(self).initialized == old(self).initialized,
            final(self).restorable == old(self).restorable,
    {
        set_parameter(&mut self.sampler_params, kind, value);
        self.initialized && self.runtime.has_texture
    }

    /// Whether freeing this texture would give its memory back: it is
    /// initialized, bound to no unit, and restorable.
    pub open spec fn spec_freeable(&self) -> bool {
        self.initialized && self.runtime.bindings@.len() == 0 && self.restorable
    }

    /// Returns whether freeing this texture would give its memory back.
    pub fn freeable(&self) -> (r: bool)
        ensures
            r == self.spec_freeable(),
    {
        self.initialized && self.runtime.bindings.len() == 0 && self.restorable
    }

    /// Frees the texture's GPU memory, as its store asks when it runs over
    /// budget. Nothing happens unless the texture is freeable. Otherwise the
    /// uploads `restored` (which the memory policy's restorer produced) are
    /// queued in front of the queued ones, and the GPU texture is deleted
    /// when there is one.
    pub fn free(&mut self, restored: Vec<Q>) -> (r: TextureFreeOutcome)
        requires
            old(self).wf(),
        ensures
            final(self).wf(),
            r.released == old(self).spec_freeable(),
            !r.released ==> !r.delete_texture && r.byte_length == 0 && *final(self) == *old(self),
            r.released ==> {
                &&& final(self).queue@ == restored@ + old(self).queue@
                &&& r.delete_texture == old(self).runtime.has_texture
                &&& r.byte_length == if old(self).runtime.has_texture {
                    old(self).runtime.byte_length
                } else {
                    0
                }
                &&& !final(self).runtime.has_texture
                &&& final(self).runtime.byte_length == if old(self).runtime.has_texture {
                    0
                } else {
                    old(self).runtime.byte_length
                }
                &&& final(self).runtime.bindings == old(self).runtime.bindings
                &&& final(self).layout == old(self).layout
                &&& final(self).initialized
                &&& final(self).restorable
            },
    {
        if !self.freeable() {
            return TextureFreeOutcome { released: false, delete_texture: false, byte_length: 0 };
        }
        let delete_texture = self.runtime.has_texture;
        let mut byte_length: usize = 0;
        if delete_texture {
            byte_length = self.runtime.byte_length;
            self.runtime.has_texture = false;
            self.runtime.byte_length = 0;
        }
        let mut queue = restored;
        let ghost front = queue@;
        let ghost back = self.queue@;
        queue.append(&mut self.queue);
        assert(queue@ =~= front + back);
        self.queue = queue;
        TextureFreeOutcome { released: true, delete_texture, byte_length }
    }
}

/// The bookkeeping of a texture store: its memory budget and which texture
/// holds each binding point.
pub struct TextureStoreState {
    id: u64,
    memory: MemoryStore,
    bindings: BindingTable<TextureBindingPoint>,
}

impl TextureStoreState {
    /// The identifier of this store.
    pub closed spec fn spec_id(&self) -> u64 {
        self.id
    }

    /// Returns the identifier of this store.
    pub fn id(&self) -> (r: u64)
        ensures
            r == self.spec_id(),
    {
        self.id
    }

    /// The memory budget.
    pub closed spec fn spec_memory(&self) -> MemoryStore {
        self.memory
    }

    /// Which texture holds each binding point.
    pub closed spec fn spec_bindings(&self) -> Map<TextureBindingPoint, u64> {
        self.bindings@
    }

    /// The budget and the table are consistent.
    pub closed spec fn wf(&self) -> bool {
        &&& self.memory.wf()
        &&& self.bindings.wf()
    }

    /// Constructs a new texture store, identified by `id`, with `i32::MAX`
    /// bytes memory limitation.
    pub fn new(id: u64) -> (r: Self)
        ensures
            r.wf(),
            r.spec_id() == id,
            r.spec_memory().spec_available() == MAX_AVAILABLE_MEMORY,
            r.spec_memory().spec_used() == 0,
            r.spec_memory().spec_entries().len() == 0,
            r.spec_bindings() == Map::<TextureBindingPoint, u64>::empty(),
    {
        Self::with_available_memory(id, MAX_AVAILABLE_MEMORY)
    }

    /// Constructs a new texture store, identified by `id`, with a maximum
    /// available memory. Maximum available memory is clamped to `i32::MAX` if
    /// larger than `i32::MAX`.
    pub fn with_available_memory(id: u64, available_memory: usize) -> (r: Self)
        ensures
            r.wf(),
            r.spec_id() == id,
            r.spec_memory().spec_available() == if available_memory <= MAX_AVAILABLE_MEMORY {
                available_memory as nat
            } else {
                MAX_AVAILABLE_MEMORY as nat
            },
            r.spec_memory().spec_used() == 0,
            r.spec_memory().spec_entries().len() == 0,
            r.spec_bindings() == Map::<TextureBindingPoint, u64>::empty(),
    {
        TextureStoreState { id, memory: MemoryStore::with_available_memory(available_memory), bindings: BindingTable::new() }
    }

    /// Returns the maximum available memory in bytes.
    pub fn available_memory(&self) -> (r: usize)
        ensures
            r == self.spec_memory().spec_available(),
    {
        self.memory.available_memory()
    }

    /// Returns current used memory in bytes.
    pub fn used_memory(&self) -> (r: usize)
        ensures
            r == self.spec_memory().spec_used(),
    {
        self.memory.used_memory()
    }

    /// Gives mutable access to the memory budget, keeping the binding table.
    pub fn memory_mut(&mut self) -> (r: &mut MemoryStore)
        requires
            old(self).wf(),
        ensures
            *r == old(self).spec_memory(),
            final(self).spec_memory() == *final(r),
            final(self).spec_bindings() == old(self).spec_bindings(),
            final(r).wf() ==> final(self).wf(),
            final(self).spec_id() == old(self).spec_id(),
    {
        &mut self.memory
    }

    /// Whether another texture than `id` holds `unit` for `target`.
    pub fn is_occupied(&self, unit: TextureUnit, target: TextureTarget, id: u64) -> (r: bool)
        requires
            self.wf(),
        ensures
            r == ({
                let point = TextureBindingPoint { unit, target };
                self.spec_bindings().contains_key(point) && self.spec_bindings()[point] != id
            }),
    {
        self.bindings.is_held_by_other(&TextureBindingPoint { unit, target }, id)
    }

    /// Records that texture `id` holds `unit` for `target`.
    pub fn add_binding(&mut self, unit: TextureUnit, target: TextureTarget, id: u64)
        requires
            old(self).wf(),
        ensures
            final(self).wf(),
            final(self).spec_id() == old(self).spec_id(),
            final(self).spec_bindings() == old(self).spec_bindings().insert(TextureBindingPoint { unit, target }, id),
            final(self).spec_memory() == old(self).spec_memory(),
    {
        self.bindings.insert(TextureBindingPoint { unit, target }, id);
    }

    /// Forgets who holds `unit` for `target`.
    pub fn remove_binding(&mut self, unit: TextureUnit, target: TextureTarget)
        requires
            old(self).wf(),
        ensures
            final(self).wf(),
            final(self).spec_id() == old(self).spec_id(),
            final(self).spec_bindings() == old(self).spec_bindings().remove(TextureBindingPoint { unit, target }),
            final(self).spec_memory() == old(self).spec_memory(),
    {
        self.bindings.remove(&TextureBindingPoint { unit, target });
    }

    /// Registers texture `id`, of `target`, which occupies `byte_length`
    /// bytes and is bound to `units`; `registered_to` is the store the texture
    /// is registered to already, if any. Registering a texture to this store
    /// twice changes nothing. Fails, changing nothing, when the texture is
    /// registered to another store, or when another texture holds one of
    /// those units for `target`.
    pub fn register(
        &mut self,
        id: u64,
        registered_to: Option<u64>,
        byte_length: usize,
        freeable: bool,
        target: TextureTarget,
        units: &Vec<TextureUnit>,
    ) -> (r: Result<(), Error>)
        requires
            old(self).wf(),
            old(self).spec_memory().spec_used() + byte_length <= usize::MAX,
        ensures
            final(self).wf(),
            final(self).spec_id() == old(self).spec_id(),
            registered_to matches Some(store) && store != old(self).spec_id() ==> r == Err::<(), Error>(
                Error::RegisterTextureToMultipleStore,
            ) && *final(self) == *old(self),
            registered_to == Some(old(self).spec_id()) ==> r is Ok && *final(self) == *old(self),
            registered_to is None && has_id(old(self).spec_memory().spec_entries(), id) ==> r is Ok && *final(self)
                == *old(self),
            registered_to is None && !has_id(old(self).spec_memory().spec_entries(), id) ==> {
                let taken = exists|u: TextureUnit| #[trigger] units@.contains(u)
                    && old(self).spec_bindings().contains_key(TextureBindingPoint { unit: u, target });
                &&& taken ==> (r matches Err(Error::TextureTargetOccupied(u, t)) && t == target
                    && units@.contains(u) && old(self).spec_bindings().contains_key(
                    TextureBindingPoint { unit: u, target },
                )) && *final(self) == *old(self)
                &&& !taken ==> {
                    &&& r is Ok
                    &&& final(self).spec_memory().spec_entries() == old(self).spec_memory().spec_entries().push(
                        StoreEntry { id, byte_length, freeable, cached: false },
                    )
                    &&& final(self).spec_memory().spec_used() == old(self).spec_memory().spec_used() + byte_length
                    &&& final(self).spec_memory().spec_available() == old(self).spec_memory().spec_available()
                    &&& forall|p: TextureBindingPoint| #[trigger] final(self).spec_bindings().contains_key(p)
                        <==> old(self).spec_bindings().contains_key(p) || (p.target == target
                        && units@.contains(p.unit))
                    &&& forall|p: TextureBindingPoint| p.target == target && units@.contains(p.unit)
                        ==> #[trigger] final(self).spec_bindings()[p] == id
                    &&& forall|p: TextureBindingPoint| old(self).spec_bindings().contains_key(p)
                        ==> #[trigger] final(self).spec_bindings()[p] == old(self).spec_bindings()[p]
                }
            },
    {
        match registered_to {
            Some(store) => {
                if store != self.id {
                    return Err(Error::RegisterTextureToMultipleStore);
                }
                return Ok(());
            },
            None => {},
        }
        if self.memory.contains(id) {
            return Ok(());
        }
        let mut i: usize = 0;
        while i < units.len()
            invariant
                self.wf(),
                *self == *old(self),
                registered_to is None,
                !has_id(old(self).spec_memory().spec_entries(), id),
                i <= units@.len(),
                forall|j: int| 0 <= j < i ==> !self.spec_bindings().contains_key(
                    TextureBindingPoint { unit: #[trigger] units@[j], target },
                ),
            decreases units@.len() - i,
        {
            if self.bindings.get(&TextureBindingPoint { unit: units[i], target }).is_some() {
                assert(units@.contains(units@[i as int]));
                return Err(Error::TextureTargetOccupied(units[i], target));
            }
            i = i + 1;
        }
        assert forall|u: TextureUnit| #[trigger] units@.contains(u) implies !self.spec_bindings().contains_key(
            TextureBindingPoint { unit: u, target },
        ) by {
            let j = choose|j: int| 0 <= j < units@.len() && units@[j] == u;
        }
        let ghost b0 = self.bindings@;
        self.memory.register(id, byte_length, freeable);
        let ghost m1 = self.memory;
        let mut i: usize = 0;
        while i < units.len()
            invariant
                self.bindings.wf(),
                self.memory == m1,
                m1.wf(),
                self.id == old(self).id,
                i <= units@.len(),
                forall|u: TextureUnit| #[trigger] units@.contains(u) ==> !b0.contains_key(
                    TextureBindingPoint { unit: u, target },
                ),
                forall|p: TextureBindingPoint| #[trigger] self.bindings@.contains_key(p)
                    <==> b0.contains_key(p) || (p.target == target && units@.subrange(0, i as int).contains(p.unit)),
                forall|p: TextureBindingPoint| p.target == target && units@.subrange(0, i as int).contains(p.unit)
                    ==> #[trigger] self.bindings@[p] == id,
                forall|p: TextureBindingPoint| b0.contains_key(p) ==> #[trigger] self.bindings@[p] == b0[p],
            decreases units@.len() - i,
        {
            let u = units[i];
            self.bindings.insert(TextureBindingPoint { unit: u, target }, id);
            proof {
                let pre = units@.subrange(0, i as int);
                let post = units@.subrange(0, i + 1);
                assert forall|x: TextureUnit| #[trigger] post.contains(x) <==> pre.contains(x) || x == u by {
                    if post.contains(x) {
                        let j = choose|j: int| 0 <= j < post.len() && post[j] == x;
                        if j < i {
                            assert(pre[j] == x);
                        }
                    }
                    if pre.contains(x) {
                        let j = choose|j: int| 0 <= j < pre.len() && pre[j] == x;
                        assert(post[j] == x);
                    }
                    if x == u {
                        assert(post[i as int] == x);
                    }
                }
                assert forall|p: TextureBindingPoint| b0.contains_key(p) implies #[trigger] self.bindings@[p]
                    == b0[p] by {
                    if p == (TextureBindingPoint { unit: u, target }) {
                        assert(units@.contains(u));
                    }
                }
                assert forall|p: TextureBindingPoint| p.target == target && post.contains(p.unit) implies
                    #[trigger] self.bindings@[p] == id by {
                    if p != (TextureBindingPoint { unit: u, target }) {
                        assert(pre.contains(p.unit));
                    }
                }
            }
            i = i + 1;
        }
        assert(units@.subrange(0, units@.len() as int) =~= units@);
        Ok(())
    }

    /// Records that texture `id`, of `target`, is bound to none of `units`
    /// any more: the store forgets each of those units for `target` where
    /// it records `id` there. The memory budget does not change.
    pub fn record_unbind_all(&mut self, id: u64, target: TextureTarget, units: &Vec<TextureUnit>)
        requires
            old(self).wf(),
        ensures
            final(self).wf(),
            final(self).spec_id() == old(self).spec_id(),
            final(self).spec_memory() == old(self).spec_memory(),
            forall|p: TextureBindingPoint| #[trigger] final(self).spec_bindings().contains_key(p)
                <==> old(self).spec_bindings().contains_key(p) && !(p.target == target && units@.contains(p.unit)
                && old(self).spec_bindings()[p] == id),
            forall|p: TextureBindingPoint| #[trigger] final(self).spec_bindings().contains_key(p)
                ==> final(self).spec_bindings()[p] == old(self).spec_bindings()[p],
    {
        let ghost b0 = self.bindings@;
        let mut i: usize = 0;
        while i < units.len()
            invariant
                self.bindings.wf(),
                self.memory == old(self).memory,
                self.memory.wf(),
                self.id == old(self).id,
                b0 == old(self).bindings@,
                i <= units@.len(),
                forall|p: TextureBindingPoint| #[trigger] self.bindings@.contains_key(p)
                    <==> b0.contains_key(p) && !(p.target == target && units@.subrange(0, i as int).contains(p.unit)
                    && b0[p] == id),
                forall|p: TextureBindingPoint| #[trigger] self.bindings@.contains_key(p) ==> self.bindings@[p] == b0[p],
            decreases units@.len() - i,
        {
            let u = units[i];
            self.bindings.release(&TextureBindingPoint { unit: u, target }, id);
            proof {
                let pre = units@.subrange(0, i as int);
                let post = units@.subrange(0, i + 1);
                assert forall|x: TextureUnit| #[trigger] post.contains(x) <==> pre.contains(x) || x == u by {
                    if post.contains(x) {
                        let j = choose|j: int| 0 <= j < post.len() && post[j] == x;
                        if j < i {
                            assert(pre[j] == x);
                        }
                    }
                    if pre.contains(x) {
                        let j = choose|j: int| 0 <= j < pre.len() && pre[j] == x;
                        assert(post[j] == x);
                    }
                    if x == u {
                        assert(post[i as int] == x);
                    }
                }
            }
            i = i + 1;
        }
        assert(units@.subrange(0, units@.len() as int) =~= units@);
    }

    /// Unregisters texture `id`, of `target` and bound to `units`: gives its
    /// bytes back and forgets those of the bindings that it holds. Returns `false`, changing
    /// nothing, when it is not registered.
    pub fn unregister(&mut self, id: u64, target: TextureTarget, units: &Vec<TextureUnit>) -> (r: bool)
        requires
            old(self).wf(),
        ensures
            final(self).wf(),
            final(self).spec_id() == old(self).spec_id(),
            r == has_id(old(self).spec_memory().spec_entries(), id),
            !r ==> *final(self) == *old(self),
            r ==> exists|i: int|
                0 <= i < old(self).spec_memory().spec_entries().len()
                    && old(self).spec_memory().spec_entries()[i].id == id
                    && final(self).spec_memory().spec_entries() == old(self).spec_memory().spec_entries().remove(i)
                    && final(self).spec_memory().spec_used() == old(self).spec_memory().spec_used()
                        - old(self).spec_memory().spec_entries()[i].byte_length,
            final(self).spec_memory().spec_available() == old(self).spec_memory().spec_available(),
            r ==> forall|p: TextureBindingPoint| #[trigger] final(self).spec_bindings().contains_key(p)
                <==> old(self).spec_bindings().contains_key(p) && !(p.target == target && units@.contains(p.unit)
                && old(self).spec_bindings()[p] == id),
            r ==> forall|p: TextureBindingPoint| #[trigger] final(self).spec_bindings().contains_key(p)
                ==> final(self).spec_bindings()[p] == old(self).spec_bindings()[p],
    {
        if !self.memory.unregister(id) {
            return false;
        }
        let ghost idx = choose|i: int|
            0 <= i < old(self).spec_memory().spec_entries().len() && old(self).spec_memory().spec_entries()[i].id
                == id && self.memory.spec_entries() == old(self).spec_memory().spec_entries().remove(i)
                && self.memory.spec_used() == old(self).spec_memory().spec_used()
                - old(self).spec_memory().spec_entries()[i].byte_length;
        let ghost m1 = self.memory;
        let ghost b0 = self.bindings@;
        let mut i: usize = 0;
        while i < units.len()
            invariant
                self.bindings.wf(),
                self.memory == m1,
                m1.wf(),
                self.id == old(self).id,
                i <= units@.len(),
                forall|p: TextureBindingPoint| #[trigger] self.bindings@.contains_key(p)
                    <==> b0.contains_key(p) && !(p.target == target && units@.subrange(0, i as int).contains(p.unit)
                    && b0[p] == id),
                forall|p: TextureBindingPoint| #[trigger] self.bindings@.contains_key(p) ==> self.bindings@[p] == b0[p],
            decreases units@.len() - i,
        {
            let u = units[i];
            self.bindings.release(&TextureBindingPoint { unit: u, target }, id);
            proof {
                let pre = units@.subrange(0, i as int);
                let post = units@.subrange(0, i + 1);
                assert forall|x: TextureUnit| #[trigger] post.contains(x) <==> pre.contains(x) || x == u by {
                    if post.contains(x) {
                        let j = choose|j: int| 0 <= j < post.len() && post[j] == x;
                        if j < i {
                            assert(pre[j] == x);
                        }
                    }
                    if pre.contains(x) {
                        let j = choose|j: int| 0 <= j < pre.len() && pre[j] == x;
                        assert(post[j] == x);
                    }
                    if x == u {
                        assert(post[i as int] == x);
                    }
                }
            }
            i = i + 1;
        }
        assert(units@.subrange(0, units@.len() as int) =~= units@);
        assert(0 <= idx < old(self).spec_memory().spec_entries().len()
            && old(self).spec_memory().spec_entries()[idx].id == id
            && self.spec_memory().spec_entries() == old(self).spec_memory().spec_entries().remove(idx)
            && self.spec_memory().spec_used() == old(self).spec_memory().spec_used()
                - old(self).spec_memory().spec_entries()[idx].byte_length);
        true
    }
}

/// What binding or uploading a texture asks of the WebGL context, with the
/// queued uploads planned: creating the GPU texture with `create` when
/// given, binding it to the new unit when `newly_bound`, performing
/// `commands` in order, and then failing with `error` when there is one.
#[verifier::reject_recursive_types(B)]
pub struct TextureUploadsPlan<B> {
    pub create: Option<TextureStorage>,
    pub newly_bound: bool,
    pub commands: Vec<(TextureUploadCommand, B)>,
    pub error: Option<Error>,
}

impl<B, TP, SP> TextureState<TextureUpload<B>, TP, SP> {
    /// Uploads the queued data, creating the GPU texture when there is none
    /// (`supported` tells whether the context supports the internal format).
    /// The queue is emptied; its uploads are planned in order until the first
    /// one whose data does not match the texture's internal format, which
    /// fails the upload with [`Error::TextureInternalFormatMismatched`] after
    /// the uploads before it, and drops it and the rest.
    pub fn upload_queue(&mut self, supported: bool) -> (r: Result<TextureUploadsPlan<B>, Error>)
        requires
            old(self).wf(),
        ensures
            final(self).wf(),
            !old(self).initialized ==> r == Err::<TextureUploadsPlan<B>, Error>(Error::TextureUninitialized)
                && *final(self) == *old(self),
            old(self).initialized && !old(self).runtime.has_texture && !supported ==> r == Err::<
                TextureUploadsPlan<B>,
                Error,
            >(Error::TextureInternalFormatUnsupported(old(self).layout.internal_format)) && *final(self)
                == *old(self),
            old(self).initialized && (old(self).runtime.has_texture || supported) ==> (r matches Ok(plan) && {
                &&& plan.create == if old(self).runtime.has_texture {
                    None
                } else {
                    Some(storage_for(old(self).layout))
                }
                &&& !plan.newly_bound
                &&& uploads_planned(old(self).layout.internal_format, old(self).queue@, plan.commands@, plan.error)
                &&& final(self).queue@.len() == 0
                &&& final(self).runtime.has_texture
                &&& final(self).runtime.bindings == old(self).runtime.bindings
            }),
            final(self).layout == old(self).layout,
            final(self).initialized == old(self).initialized,
            final(self).restorable == old(self).restorable,
    {
        let format = self.layout.internal_format;
        match self.upload(supported) {
            Ok(plan) => {
                let (commands, error) = plan_texture_uploads(format, plan.uploads);
                Ok(TextureUploadsPlan { create: plan.create, newly_bound: plan.newly_bound, commands, error })
            },
            Err(e) => Err(e),
        }
    }

    /// Binds the texture to `unit` as [`TextureState::bind`] does, and plans
    /// its queued uploads as [`TextureState::upload_queue`] does.
    pub fn bind_queue(&mut self, unit: TextureUnit, occupied: bool, supported: bool) -> (r: Result<
        TextureUploadsPlan<B>,
        Error,
    >)
        requires
            old(self).wf(),
        ensures
            final(self).wf(),
            !old(self).initialized ==> r == Err::<TextureUploadsPlan<B>, Error>(Error::TextureUninitialized)
                && *final(self) == *old(self),
            old(self).initialized && occupied ==> r == Err::<TextureUploadsPlan<B>, Error>(
                Error::TextureTargetOccupied(unit, old(self).layout.target),
            ) && *final(self) == *old(self),
            old(self).initialized && !occupied && old(self).runtime.bindings@.contains(unit) ==> (r matches Ok(plan)
                && plan.create is None && !plan.newly_bound
                && uploads_planned(old(self).layout.internal_format, old(self).queue@, plan.commands@, plan.error)
                && final(self).queue@.len() == 0 && final(self).runtime == old(self).runtime),
            old(self).initialized && !occupied && !old(self).runtime.bindings@.contains(unit)
                && !old(self).runtime.has_texture && !supported ==> r == Err::<TextureUploadsPlan<B>, Error>(
                Error::TextureInternalFormatUnsupported(old(self).layout.internal_format),
            ) && *final(self) == *old(self),
            old(self).initialized && !occupied && !old(self).runtime.bindings@.contains(unit)
                && (old(self).runtime.has_texture || supported) ==> (r matches Ok(plan) && {
                &&& plan.create == if old(self).runtime.has_texture {
                    None
                } else {
                    Some(storage_for(old(self).layout))
                }
                &&& plan.newly_bound
                &&& uploads_planned(old(self).layout.internal_format, old(self).queue@, plan.commands@, plan.error)
                &&& final(self).queue@.len() == 0
                &&& final(self).runtime.has_texture
                &&& final(self).runtime.bindings@ == old(self).runtime.bindings@.push(unit)
                &&& final(self).runtime.byte_length == if old(self).runtime.has_texture {
                    old(self).runtime.byte_length as nat
                } else {
                    old(self).layout.spec_byte_length()
                }
            }),
            final(self).layout == old(self).layout,
            final(self).initialized == old(self).initialized,
            final(self).restorable == old(self).restorable,
            final(self).texture_params == old(self).texture_params,
            final(self).sampler_params == old(self).sampler_params,
    {
        let format = self.layout.internal_format;
        match self.bind(unit, occupied, supported) {
            Ok(plan) => {
                let (commands, error) = plan_texture_uploads(format, plan.uploads);
                Ok(TextureUploadsPlan { create: plan.create, newly_bound: plan.newly_bound, commands, error })
            },
            Err(e) => Err(e),
        }
    }
}

} // verus!
