//! The state of a buffer and of the store that budgets buffer memory, and
//! the decisions that the buffer operations take on them. Each operation
//! returns what the WebGL context has to be asked for; the caller performs
//! those calls.
use vstd::prelude::*;

use super::binding::{keys_contain, keys_insert, keys_remove, BindingTable};
use super::buffer::{BufferTarget, BufferUsage, MemoryPolicyKind};
use super::buffer_queue::{source_item, sub_data_queued, BufferQueue, QueueItem, UploadPlan};
use super::error::Error;
use super::store::{has_id, MemoryStore};

verus! {

/// Memory policies: what a buffer does when its store frees its memory.
#[verifier::reject_recursive_types(S)]
pub enum MemoryPolicy<S> {
    /// The memory is never freed.
    Unfree,
    /// The memory is freed; the buffer keeps its length.
    ReadBack,
    /// The memory is freed and `source`, of `byte_length` bytes, is queued to
    /// restore the buffer's data.
    Restorable { source: S, byte_length: usize },
}

impl<S> MemoryPolicy<S> {
    /// Constructs a unfree-able memory policy.
    pub fn unfree() -> (r: Self)
        ensures
            r is Unfree,
    {
        MemoryPolicy::Unfree
    }

    /// Constructs a read back memory policy.
    pub fn read_back() -> (r: Self)
        ensures
            r is ReadBack,
    {
        MemoryPolicy::ReadBack
    }

    /// Constructs a restorable memory policy.
    pub fn restorable(source: S, byte_length: usize) -> (r: Self)
        ensures
            r == (MemoryPolicy::Restorable { source, byte_length }),
    {
        MemoryPolicy::Restorable { source, byte_length }
    }

    /// The kind of this policy.
    pub open spec fn spec_kind(&self) -> MemoryPolicyKind {
        match self {
            MemoryPolicy::Unfree => MemoryPolicyKind::Unfree,
            MemoryPolicy::ReadBack => MemoryPolicyKind::ReadBack,
            MemoryPolicy::Restorable { .. } => MemoryPolicyKind::Restorable,
        }
    }

    /// Returns [`MemoryPolicyKind`] associated with the [`MemoryPolicy`].
    pub fn kind(&self) -> (r: MemoryPolicyKind)
        ensures
            r == self.spec_kind(),
    {
        match self {
            MemoryPolicy::Unfree => MemoryPolicyKind::Unfree,
            MemoryPolicy::ReadBack => MemoryPolicyKind::ReadBack,
            MemoryPolicy::Restorable { .. } => MemoryPolicyKind::Restorable,
        }
    }
}

/// What a buffer knows of its GPU side once initialized.
pub struct BufferRuntimeState {
    /// Whether a GPU buffer has been created.
    pub has_buffer: bool,
    /// Bytes the GPU buffer holds.
    pub buffer_byte_length: usize,
    /// Targets the buffer is bound to.
    pub bindings: Vec<BufferTarget>,
    /// Uniform buffer mount points the buffer is bound to.
    pub binding_ubos: Vec<u32>,
}

impl BufferRuntimeState {
    /// The state of a buffer with no GPU side yet.
    pub open spec fn is_empty(&self) -> bool {
        &&& !self.has_buffer
        &&& self.buffer_byte_length == 0
        &&& self.bindings@.len() == 0
        &&& self.binding_ubos@.len() == 0
    }

    /// No binding is recorded twice, and a bound buffer exists on the GPU.
    pub open spec fn wf(&self) -> bool {
        &&& self.bindings@.no_duplicates()
        &&& self.binding_ubos@.no_duplicates()
        &&& (self.bindings@.len() > 0 || self.binding_ubos@.len() > 0) ==> self.has_buffer
    }

    /// Constructs the state of a buffer with no GPU side yet.
    pub fn new() -> (r: Self)
        ensures
            r.is_empty(),
            r.wf(),
    {
        BufferRuntimeState { has_buffer: false, buffer_byte_length: 0, bindings: Vec::new(), binding_ubos: Vec::new() }
    }
}

/// What a binding or an upload asks of the WebGL context: binding the buffer
/// to the new point when `newly_bound`, and uploading as `upload` describes.
#[verifier::reject_recursive_types(S)]
pub struct BindPlan<S> {
    pub newly_bound: bool,
    pub upload: UploadPlan<S>,
}

/// What clearing a buffer asks of the WebGL context: unbinding it from the
/// listed points and deleting the GPU buffer when `delete_buffer`. The GPU
/// buffer held `old_byte_length` bytes and now holds none.
pub struct ClearPlan {
    pub delete_buffer: bool,
    pub unbound_ubos: Vec<u32>,
    pub unbound_targets: Vec<BufferTarget>,
    pub old_byte_length: usize,
}

/// What freeing a buffer's memory did: when `released`, the buffer gave back
/// `byte_length` bytes (its store must record that), deleting its GPU buffer
/// when `delete_buffer`.
pub struct FreeOutcome {
    pub released: bool,
    pub delete_buffer: bool,
    pub byte_length: usize,
}

/// Uploading queue `q` into a GPU buffer of `len` bytes left queue `q2` and a
/// buffer of `len2` bytes, as `plan` describes.
pub open spec fn uploaded<S>(q: BufferQueue<S>, len: usize, plan: UploadPlan<S>, q2: BufferQueue<S>, len2: usize) -> bool {
    &&& q2.spec_required() == q.spec_required()
    &&& q2.spec_items() == Seq::<QueueItem<S>>::empty()
    &&& if q.spec_items().len() == 0 {
        &&& plan.allocate is None
        &&& plan.writes@ == Seq::<QueueItem<S>>::empty()
        &&& plan.new_byte_length == 0
        &&& plan.old_byte_length == 0
        &&& len2 == len
    } else {
        &&& plan.allocate == if q.spec_required() > len {
            Some(q.spec_required() as usize)
        } else {
            None
        }
        &&& plan.writes@ == q.spec_items()
        &&& plan.new_byte_length == q.spec_required()
        &&& plan.old_byte_length == len
        &&& len2 == q.spec_required()
    }
}

fn upload_queue<S>(queue: &mut BufferQueue<S>, runtime: &mut BufferRuntimeState) -> (r: UploadPlan<S>)
    ensures
        uploaded(*old(queue), old(runtime).buffer_byte_length, r, *final(queue), final(runtime).buffer_byte_length),
        final(runtime).has_buffer == old(runtime).has_buffer,
        final(runtime).bindings == old(runtime).bindings,
        final(runtime).binding_ubos == old(runtime).binding_ubos,
{
    let plan = queue.take_upload(runtime.buffer_byte_length);
    if plan.writes.len() > 0 {
        runtime.buffer_byte_length = plan.new_byte_length;
    }
    plan
}

/// A buffer: its usage, memory policy, queued writes and GPU side.
#[verifier::reject_recursive_types(S)]
pub struct BufferState<S> {
    pub usage: BufferUsage,
    pub memory_policy: MemoryPolicy<S>,
    pub queue: BufferQueue<S>,
    /// Whether the buffer has been initialized with a WebGL context.
    pub initialized: bool,
    pub runtime: BufferRuntimeState,
}

impl<S> BufferState<S> {
    /// The GPU side is consistent, and empty until initialization.
    pub open spec fn wf(&self) -> bool {
        &&& self.runtime.wf()
        &&& !self.initialized ==> self.runtime.is_empty()
    }

    /// Constructs a new buffer with specified [`BufferUsage`] and [`MemoryPolicy`].
    pub fn new(usage: BufferUsage, memory_policy: MemoryPolicy<S>) -> (r: Self)
        ensures
            r.wf(),
            r.usage == usage,
            r.memory_policy == memory_policy,
            r.queue.spec_required() == 0,
            r.queue.spec_items() == Seq::<QueueItem<S>>::empty(),
            !r.initialized,
    {
        BufferState { usage, memory_policy, queue: BufferQueue::new(), initialized: false, runtime: BufferRuntimeState::new() }
    }

    /// Initializes this buffer by a WebGL context; `same_context` tells
    /// whether that context is the one it was initialized with before, if it was.
    pub fn init(&mut self, same_context: bool) -> (r: Result<(), Error>)
        requires
            old(self).wf(),
        ensures
            final(self).wf(),
            old(self).initialized ==> *final(self) == *old(self) && r == if same_context {
                Ok::<(), Error>(())
            } else {
                Err(Error::BufferAlreadyInitialized)
            },
            !old(self).initialized ==> r is Ok && final(self).initialized && final(self).runtime.is_empty()
                && final(self).usage == old(self).usage && final(self).memory_policy == old(self).memory_policy
                && final(self).queue == old(self).queue,
    {
        if self.initialized {
            if same_context {
                Ok(())
            } else {
                Err(Error::BufferAlreadyInitialized)
            }
        } else {
            self.initialized = true;
            Ok(())
        }
    }

    /// Binds buffer to specified [`BufferTarget`]; `occupied` tells whether
    /// another buffer of the same store holds that target. A newly bound
    /// buffer is created on the GPU first when it has no GPU buffer yet.
    /// Uploads the queued writes.
    pub fn bind(&mut self, target: BufferTarget, occupied: bool) -> (r: Result<BindPlan<S>, Error>)
        requires
            old(self).wf(),
        ensures
            final(self).wf(),
            !old(self).initialized ==> r == Err::<BindPlan<S>, Error>(Error::BufferUninitialized)
                && *final(self) == *old(self),
            old(self).initialized && occupied ==> r == Err::<BindPlan<S>, Error>(
                Error::BufferTargetOccupied(target),
            ) && *final(self) == *old(self),
            old(self).initialized && !occupied ==> (r matches Ok(plan) && {
                &&& plan.newly_bound == !old(self).runtime.bindings@.contains(target)
                &&& final(self).runtime.bindings@ == if plan.newly_bound {
                    old(self).runtime.bindings@.push(target)
                } else {
                    old(self).runtime.bindings@
                }
                &&& final(self).runtime.binding_ubos == old(self).runtime.binding_ubos
                &&& final(self).runtime.has_buffer
                &&& uploaded(old(self).queue, old(self).runtime.buffer_byte_length, plan.upload,
                    final(self).queue, final(self).runtime.buffer_byte_length)
                &&& final(self).initialized
                &&& final(self).usage == old(self).usage
                &&& final(self).memory_policy == old(self).memory_policy
            }),
    {
        if !self.initialized {
            return Err(Error::BufferUninitialized);
        }
        if occupied {
            return Err(Error::BufferTargetOccupied(target));
        }
        let newly_bound = !keys_contain(&self.runtime.bindings, &target);
        self.runtime.has_buffer = true;
        let upload = upload_queue(&mut self.queue, &mut self.runtime);
        keys_insert(&mut self.runtime.bindings, target);
        Ok(BindPlan { newly_bound, upload })
    }

    /// Binds buffer to the uniform buffer object `mount_point`; `occupied`
    /// tells whether another buffer of the same store holds that mount point.
    /// Creates the GPU buffer when there is none and uploads the queued writes.
    pub fn bind_ubo(&mut self, mount_point: u32, occupied: bool) -> (r: Result<BindPlan<S>, Error>)
        requires
            old(self).wf(),
        ensures
            final(self).wf(),
            !old(self).initialized ==> r == Err::<BindPlan<S>, Error>(Error::BufferUninitialized)
                && *final(self) == *old(self),
            old(self).initialized && occupied ==> r == Err::<BindPlan<S>, Error>(
                Error::UniformBufferObjectMountPointOccupied(mount_point),
            ) && *final(self) == *old(self),
            old(self).initialized && !occupied ==> (r matches Ok(plan) && {
                &&& plan.newly_bound == !old(self).runtime.binding_ubos@.contains(mount_point)
                &&& final(self).runtime.binding_ubos@ == if plan.newly_bound {
                    old(self).runtime.binding_ubos@.push(mount_point)
                } else {
                    old(self).runtime.binding_ubos@
                }
                &&& final(self).runtime.bindings == old(self).runtime.bindings
                &&& final(self).runtime.has_buffer
                &&& uploaded(old(self).queue, old(self).runtime.buffer_byte_length, plan.upload,
                    final(self).queue, final(self).runtime.buffer_byte_length)
                &&& final(self).initialized
                &&& final(self).usage == old(self).usage
                &&& final(self).memory_policy == old(self).memory_policy
            }),
    {
        if !self.initialized {
            return Err(Error::BufferUninitialized);
        }
        if occupied {
            return Err(Error::UniformBufferObjectMountPointOccupied(mount_point));
        }
        self.runtime.has_buffer = true;
        let upload = upload_queue(&mut self.queue, &mut self.runtime);
        let newly_bound = !keys_contain(&self.runtime.binding_ubos, &mount_point);
        keys_insert(&mut self.runtime.binding_ubos, mount_point);
        Ok(BindPlan { newly_bound, upload })
    }

    /// Binds a range of the buffer to the uniform buffer object
    /// `mount_point`, as [`BufferState::bind_ubo`] does, except that the range
    /// is bound every time (`newly_bound` is always `true`).
    pub fn bind_ubo_range(&mut self, mount_point: u32, occupied: bool) -> (r: Result<BindPlan<S>, Error>)
        requires
            old(self).wf(),
        ensures
            final(self).wf(),
            !old(self).initialized ==> r == Err::<BindPlan<S>, Error>(Error::BufferUninitialized)
                && *final(self) == *old(self),
            old(self).initialized && occupied ==> r == Err::<BindPlan<S>, Error>(
                Error::UniformBufferObjectMountPointOccupied(mount_point),
            ) && *final(self) == *old(self),
            old(self).initialized && !occupied ==> (r matches Ok(plan) && {
                &&& plan.newly_bound
                &&& final(self).runtime.binding_ubos@ == if old(self).runtime.binding_ubos@.contains(mount_point) {
                    old(self).runtime.binding_ubos@
                } else {
                    old(self).runtime.binding_ubos@.push(mount_point)
                }
                &&& final(self).runtime.bindings == old(self).runtime.bindings
                &&& final(self).runtime.has_buffer
                &&& uploaded(old(self).queue, old(self).runtime.buffer_byte_length, plan.upload,
                    final(self).queue, final(self).runtime.buffer_byte_length)
                &&& final(self).initialized
                &&& final(self).usage == old(self).usage
                &&& final(self).memory_policy == old(self).memory_policy
            }),
    {
        if !self.initialized {
            return Err(Error::BufferUninitialized);
        }
        if occupied {
            return Err(Error::UniformBufferObjectMountPointOccupied(mount_point));
        }
        self.runtime.has_buffer = true;
        let upload = upload_queue(&mut self.queue, &mut self.runtime);
        keys_insert(&mut self.runtime.binding_ubos, mount_point);
        Ok(BindPlan { newly_bound: true, upload })
    }

    /// Unbinds buffer from specified [`BufferTarget`]; returns whether it was
    /// bound there (and the WebGL binding has to be cleared).
    pub fn unbind(&mut self, target: BufferTarget) -> (r: Result<bool, Error>)
        requires
            old(self).wf(),
        ensures
            final(self).wf(),
            !old(self).initialized ==> r == Err::<bool, Error>(Error::BufferUninitialized) && *final(self)
                == *old(self),
            old(self).initialized ==> r == Ok::<bool, Error>(old(self).runtime.bindings@.contains(target)) && {
                &&& forall|t: BufferTarget| #[trigger] final(self).runtime.bindings@.contains(t)
                    <==> old(self).runtime.bindings@.contains(t) && t != target
                &&& final(self).runtime.binding_ubos == old(self).runtime.binding_ubos
                &&& final(self).runtime.has_buffer == old(self).runtime.has_buffer
                &&& final(self).runtime.buffer_byte_length == old(self).runtime.buffer_byte_length
                &&& final(self).queue == old(self).queue
                &&& final(self).initialized
                &&& final(self).usage == old(self).usage
                &&& final(self).memory_policy == old(self).memory_policy
            },
    {
        if !self.initialized {
            return Err(Error::BufferUninitialized);
        }
        let removed = keys_remove(&mut self.runtime.bindings, &target);
        Ok(removed)
    }

    /// Unbinds buffer from specified uniform buffer object index; returns
    /// whether it was bound there.
    pub fn unbind_ubo(&mut self, index: u32) -> (r: Result<bool, Error>)
        requires
            old(self).wf(),
        ensures
            final(self).wf(),
            !old(self).initialized ==> r == Err::<bool, Error>(Error::BufferUninitialized) && *final(self)
                == *old(self),
            old(self).initialized ==> r == Ok::<bool, Error>(old(self).runtime.binding_ubos@.contains(index)) && {
                &&& forall|u: u32| #[trigger] final(self).runtime.binding_ubos@.contains(u)
                    <==> old(self).runtime.binding_ubos@.contains(u) && u != index
                &&& final(self).runtime.bindings == old(self).runtime.bindings
                &&& final(self).runtime.has_buffer == old(self).runtime.has_buffer
                &&& final(self).runtime.buffer_byte_length == old(self).runtime.buffer_byte_length
                &&& final(self).queue == old(self).queue
                &&& final(self).initialized
                &&& final(self).usage == old(self).usage
                &&& final(self).memory_policy == old(self).memory_policy
            },
    {
        if !self.initialized {
            return Err(Error::BufferUninitialized);
        }
        let removed = keys_remove(&mut self.runtime.binding_ubos, &index);
        Ok(removed)
    }

    /// Unbinds buffer from all bindings, including uniform buffer objects;
    /// returns the mount points and the targets it was bound to.
    pub fn unbind_all(&mut self) -> (r: Result<(Vec<u32>, Vec<BufferTarget>), Error>)
        requires
            old(self).wf(),
        ensures
            final(self).wf(),
            !old(self).initialized ==> r is Err && *final(self) == *old(self)
                && r == Err::<(Vec<u32>, Vec<BufferTarget>), Error>(Error::BufferUninitialized),
            old(self).initialized ==> (r matches Ok((ubos, targets)) && {
                &&& ubos@ == old(self).runtime.binding_ubos@
                &&& targets@ == old(self).runtime.bindings@
                &&& final(self).runtime.binding_ubos@.len() == 0
                &&& final(self).runtime.bindings@.len() == 0
                &&& final(self).runtime.has_buffer == old(self).runtime.has_buffer
                &&& final(self).runtime.buffer_byte_length == old(self).runtime.buffer_byte_length
                &&& final(self).queue == old(self).queue
                &&& final(self).initialized
                &&& final(self).usage == old(self).usage
                &&& final(self).memory_policy == old(self).memory_policy
            }),
    {
        if !self.initialized {
            return Err(Error::BufferUninitialized);
        }
        let mut ubos: Vec<u32> = Vec::new();
        let mut targets: Vec<BufferTarget> = Vec::new();
        std::mem::swap(&mut ubos, &mut self.runtime.binding_ubos);
        std::mem::swap(&mut targets, &mut self.runtime.bindings);
        Ok((ubos, targets))
    }

    /// Uploads the queued writes to the GPU buffer, creating it when there is none.
    pub fn upload(&mut self) -> (r: Result<UploadPlan<S>, Error>)
        requires
            old(self).wf(),
        ensures
            final(self).wf(),
            !old(self).initialized ==> r == Err::<UploadPlan<S>, Error>(Error::BufferUninitialized)
                && *final(self) == *old(self),
            old(self).initialized ==> (r matches Ok(plan) && {
                &&& uploaded(old(self).queue, old(self).runtime.buffer_byte_length, plan,
                    final(self).queue, final(self).runtime.buffer_byte_length)
                &&& final(self).runtime.has_buffer
                &&& final(self).runtime.bindings == old(self).runtime.bindings
                &&& final(self).runtime.binding_ubos == old(self).runtime.binding_ubos
                &&& final(self).initialized
                &&& final(self).usage == old(self).usage
                &&& final(self).memory_policy == old(self).memory_policy
            }),
    {
        if !self.initialized {
            return Err(Error::BufferUninitialized);
        }
        self.runtime.has_buffer = true;
        let plan = upload_queue(&mut self.queue, &mut self.runtime);
        Ok(plan)
    }

    /// Clears and unbinds buffer from WebGL runtime as well as replacing a
    /// new [`BufferUsage`]. `read_back` is the data read back from the GPU
    /// (with its length) when it is to be kept: it is inserted to the first
    /// place of the queue, as its only write, and the buffer keeps needing the
    /// bytes it held, so that the next upload allocates them again. Without a
    /// GPU side nothing but the usage and the queue change.
    pub fn clear(&mut self, read_back: Option<(S, usize)>, new_usage: Option<BufferUsage>) -> (r: ClearPlan)
        requires
            old(self).wf(),
        ensures
            final(self).wf(),
            final(self).usage == match new_usage {
                Some(u) => u,
                None => old(self).usage,
            },
            final(self).memory_policy == old(self).memory_policy,
            final(self).initialized == old(self).initialized,
            final(self).queue.spec_required() == match read_back {
                Some((data, length)) => if old(self).initialized {
                    if length > old(self).runtime.buffer_byte_length {
                        length as nat
                    } else {
                        old(self).runtime.buffer_byte_length as nat
                    }
                } else {
                    0
                },
                None => 0,
            },
            final(self).queue.spec_items() == match read_back {
                Some((data, length)) => if old(self).initialized {
                    seq![source_item(data, length, 0)]
                } else {
                    Seq::<QueueItem<S>>::empty()
                },
                None => Seq::<QueueItem<S>>::empty(),
            },
            !old(self).initialized ==> !r.delete_buffer && r.unbound_ubos@.len() == 0
                && r.unbound_targets@.len() == 0 && r.old_byte_length == 0 && final(self).runtime == old(self).runtime,
            old(self).initialized ==> {
                &&& r.old_byte_length == old(self).runtime.buffer_byte_length
                &&& final(self).runtime.buffer_byte_length == 0
                &&& !final(self).runtime.has_buffer
                &&& r.delete_buffer == old(self).runtime.has_buffer
                &&& r.delete_buffer ==> r.unbound_ubos@ == old(self).runtime.binding_ubos@
                    && r.unbound_targets@ == old(self).runtime.bindings@
                    && final(self).runtime.bindings@.len() == 0
                    && final(self).runtime.binding_ubos@.len() == 0
                &&& !r.delete_buffer ==> r.unbound_ubos@.len() == 0 && r.unbound_targets@.len() == 0
                    && final(self).runtime.bindings == old(self).runtime.bindings
                    && final(self).runtime.binding_ubos == old(self).runtime.binding_ubos
            },
    {
        if let Some(usage) = new_usage {
            self.usage = usage;
        }
        self.queue.clear();
        if !self.initialized {
            return ClearPlan { delete_buffer: false, unbound_ubos: Vec::new(), unbound_targets: Vec::new(), old_byte_length: 0 };
        }
        let old_byte_length = self.runtime.buffer_byte_length;
        if let Some((data, length)) = read_back {
            self.queue.push_front(data, length);
            self.queue.require(old_byte_length);
            self.queue.require(length);
        }
        let mut unbound_ubos: Vec<u32> = Vec::new();
        let mut unbound_targets: Vec<BufferTarget> = Vec::new();
        let delete_buffer = self.runtime.has_buffer;
        if delete_buffer {
            std::mem::swap(&mut unbound_ubos, &mut self.runtime.binding_ubos);
            std::mem::swap(&mut unbound_targets, &mut self.runtime.bindings);
            self.runtime.has_buffer = false;
        }
        self.runtime.buffer_byte_length = 0;
        ClearPlan { delete_buffer, unbound_ubos, unbound_targets, old_byte_length }
    }

    /// Overrides existing data and then buffers new data.
    pub fn buffer_data(&mut self, source: S, byte_length: usize)
        ensures
            final(self).queue.wf(),
            final(self).queue.spec_required() == byte_length,
            final(self).queue.spec_items() == seq![source_item(source, byte_length, 0)],
            final(self).usage == old(self).usage,
            final(self).memory_policy == old(self).memory_policy,
            final(self).initialized == old(self).initialized,
            final(self).runtime == old(self).runtime,
    {
        self.queue.buffer_data(source, byte_length);
    }

    /// Whether buffering `byte_length` bytes at `dst_byte_offset` needs the
    /// data on the GPU read back first: the write extends the buffer from
    /// elsewhere than its start, and the GPU holds data.
    pub fn needs_read_back(&self, byte_length: usize, dst_byte_offset: usize) -> (r: bool)
        requires
            dst_byte_offset + byte_length <= usize::MAX,
        ensures
            r == (self.initialized && self.runtime.has_buffer && self.runtime.buffer_byte_length != 0
                && super::buffer_queue::extends_buffer(self.queue.spec_required(), byte_length as nat, dst_byte_offset as nat)),
    {
        self.initialized && self.runtime.has_buffer && self.runtime.buffer_byte_length != 0
            && self.queue.extends_buffer(byte_length, dst_byte_offset)
    }

    /// Buffers sub data; `read_back` is the data read back from the GPU when
    /// [`BufferState::needs_read_back`] asks for it.
    pub fn buffer_sub_data(&mut self, source: S, byte_length: usize, dst_byte_offset: usize, read_back: Option<(S, usize)>)
        requires
            dst_byte_offset + byte_length <= usize::MAX,
        ensures
            final(self).usage == old(self).usage,
            final(self).memory_policy == old(self).memory_policy,
            final(self).initialized == old(self).initialized,
            final(self).runtime == old(self).runtime,
            sub_data_queued(old(self).queue, final(self).queue, source, byte_length, dst_byte_offset, read_back),
            old(self).queue.wf() && (read_back matches Some((data, length)) ==> length <= dst_byte_offset
                + byte_length) ==> final(self).queue.wf(),
    {
        self.queue.buffer_sub_data(source, byte_length, dst_byte_offset, read_back);
    }

    /// Whether freeing this buffer would give its GPU memory back: it is
    /// initialized, bound nowhere and its policy allows freeing.
    pub open spec fn spec_freeable(&self) -> bool {
        &&& self.initialized
        &&& self.runtime.bindings@.len() == 0
        &&& self.runtime.binding_ubos@.len() == 0
        &&& !(self.memory_policy is Unfree)
    }

    /// Returns whether freeing this buffer would give its GPU memory back.
    pub fn freeable(&self) -> (r: bool)
        ensures
            r == self.spec_freeable(),
    {
        self.initialized && self.runtime.bindings.len() == 0 && self.runtime.binding_ubos.len() == 0
            && match &self.memory_policy {
            MemoryPolicy::Unfree => false,
            _ => true,
        }
    }
}

/// The larger of `a` and `b`.
pub open spec fn max_of(a: nat, b: nat) -> nat {
    if a >= b { a } else { b }
}

impl<S> BufferState<S> {
    /// Whether freeing this buffer needs its data read back from the GPU
    /// first: it would be released, keeps its data by reading it back, and
    /// has a GPU buffer holding some bytes.
    pub fn needs_free_read_back(&self) -> (r: bool)
        ensures
            r == (self.spec_freeable() && self.memory_policy is ReadBack && self.runtime.has_buffer
                && self.runtime.buffer_byte_length != 0),
    {
        self.freeable() && match &self.memory_policy {
            MemoryPolicy::ReadBack => true,
            _ => false,
        } && self.runtime.has_buffer && self.runtime.buffer_byte_length != 0
    }
}

impl<S: Clone> BufferState<S> {
    /// Frees the buffer's GPU memory, as its store asks when it runs over
    /// budget. Nothing happens when the buffer is not initialized, is bound,
    /// or its policy is [`MemoryPolicy::Unfree`]. Otherwise the GPU buffer is
    /// deleted when there is one and the buffer's length is kept as the
    /// queue's required length. A read back buffer queues `read_back`, the
    /// data read back from the GPU (with its length) when
    /// [`BufferState::needs_free_read_back`] asks for it, first of all; a
    /// restorable buffer queues a clone of its restoring source first of all.
    pub fn free(&mut self, read_back: Option<(S, usize)>) -> (r: FreeOutcome)
        requires
            old(self).wf(),
        ensures
            final(self).wf(),
            r.released == old(self).spec_freeable(),
            !r.released ==> !r.delete_buffer && r.byte_length == 0 && *final(self) == *old(self),
            r.released ==> {
                &&& r.byte_length == old(self).runtime.buffer_byte_length
                &&& r.delete_buffer == old(self).runtime.has_buffer
                &&& !final(self).runtime.has_buffer
                &&& final(self).runtime.buffer_byte_length == if old(self).runtime.has_buffer {
                    0
                } else {
                    old(self).runtime.buffer_byte_length
                }
                &&& final(self).runtime.bindings == old(self).runtime.bindings
                &&& final(self).runtime.binding_ubos == old(self).runtime.binding_ubos
                &&& final(self).initialized
                &&& final(self).usage == old(self).usage
                &&& final(self).memory_policy == old(self).memory_policy
            },
            (r.released && old(self).memory_policy is ReadBack && !old(self).runtime.has_buffer) ==> {
                &&& final(self).queue == old(self).queue
            },
            (r.released && old(self).memory_policy is ReadBack && old(self).runtime.has_buffer) ==> {
                &&& final(self).queue.spec_items() == match read_back {
                    Some((data, length)) => old(self).queue.spec_items().insert(0, source_item(data, length, 0)),
                    None => old(self).queue.spec_items(),
                }
                &&& final(self).queue.spec_required() == max_of(
                    max_of(old(self).queue.spec_required(), old(self).runtime.buffer_byte_length as nat),
                    match read_back {
                        Some((data, length)) => length as nat,
                        None => 0,
                    },
                )
            },
            old(self).memory_policy matches MemoryPolicy::Restorable { source, byte_length } ==> r.released ==> {
                &&& final(self).queue.spec_items().len() == old(self).queue.spec_items().len() + 1
                &&& final(self).queue.spec_items().subrange(1, final(self).queue.spec_items().len() as int)
                    == old(self).queue.spec_items()
                &&& final(self).queue.spec_items()[0].byte_length == byte_length
                &&& final(self).queue.spec_items()[0].dst_byte_offset == 0
                &&& (final(self).queue.spec_items()[0].source matches super::buffer_queue::QueueSource::Source(c)
                    && cloned(source, c))
                &&& final(self).queue.spec_required() == if old(self).runtime.buffer_byte_length
                    > old(self).queue.spec_required() {
                    old(self).runtime.buffer_byte_length as nat
                } else {
                    old(self).queue.spec_required()
                }
            },
    {
        if !self.freeable() {
            return FreeOutcome { released: false, delete_buffer: false, byte_length: 0 };
        }
        let byte_length = self.runtime.buffer_byte_length;
        let delete_buffer = self.runtime.has_buffer;
        match &self.memory_policy {
            MemoryPolicy::Unfree => {},
            MemoryPolicy::ReadBack => {
                if delete_buffer {
                    if let Some((data, length)) = read_back {
                        self.queue.push_front(data, length);
                        self.queue.require(length);
                    }
                    self.runtime.has_buffer = false;
                    self.queue.require(byte_length);
                    self.runtime.buffer_byte_length = 0;
                }
            },
            MemoryPolicy::Restorable { source, byte_length: restore_length } => {
                if delete_buffer {
                    self.runtime.has_buffer = false;
                    self.runtime.buffer_byte_length = 0;
                }
                let restorer = source.clone();
                let ghost before = self.queue.spec_items();
                self.queue.push_front(restorer, *restore_length);
                assert(self.queue.spec_items().subrange(1, self.queue.spec_items().len() as int) =~= before);
                self.queue.require(byte_length);
            },
        }
        FreeOutcome { released: true, delete_buffer, byte_length }
    }
}

/// The bookkeeping of a buffer store: its memory budget and which buffer
/// holds each target and each uniform buffer mount point.
pub struct BufferStoreState {
    id: u64,
    memory: MemoryStore,
    bindings: BindingTable<BufferTarget>,
    binding_ubos: BindingTable<u32>,
}

impl BufferStoreState {
    /// The identifier of this store.
    pub closed spec fn spec_id(&self) -> u64 {
        self.id
    }

    /// Returns the identifier of this store.
    pub fn id(&self) -> (r: u64)
        ensures
            r == self.spec_id(),
    {
        self.id
    }

    /// The memory budget.
    pub closed spec fn spec_memory(&self) -> MemoryStore {
        self.memory
    }

    /// Which buffer holds each target.
    pub closed spec fn spec_bindings(&self) -> Map<BufferTarget, u64> {
        self.bindings@
    }

    /// Which buffer holds each uniform buffer mount point.
    pub closed spec fn spec_binding_ubos(&self) -> Map<u32, u64> {
        self.binding_ubos@
    }

    /// The budget and both tables are consistent.
    pub closed spec fn wf(&self) -> bool {
        &&& self.memory.wf()
        &&& self.bindings.wf()
        &&& self.binding_ubos.wf()
    }

    /// Constructs a new buffer store, identified by `id`, with unlimited
    /// memory (`i32::MAX` bytes).
    pub fn new(id: u64) -> (r: Self)
        ensures
            r.wf(),
            r.spec_id() == id,
            r.spec_memory().spec_available() == super::store::MAX_AVAILABLE_MEMORY,
            r.spec_memory().spec_used() == 0,
            r.spec_memory().spec_entries().len() == 0,
            r.spec_bindings() == Map::<BufferTarget, u64>::empty(),
            r.spec_binding_ubos() == Map::<u32, u64>::empty(),
    {
        Self::with_available_memory(id, super::store::MAX_AVAILABLE_MEMORY)
    }

    /// Constructs a new buffer store, identified by `id`, with a maximum
    /// available memory. Maximum available memory is clamped to `i32::MAX`
    /// if larger than `i32::MAX`.
    pub fn with_available_memory(id: u64, available_memory: usize) -> (r: Self)
        ensures
            r.wf(),
            r.spec_id() == id,
            r.spec_memory().spec_available() == if available_memory <= super::store::MAX_AVAILABLE_MEMORY {
                available_memory as nat
            } else {
                super::store::MAX_AVAILABLE_MEMORY as nat
            },
            r.spec_memory().spec_used() == 0,
            r.spec_memory().spec_entries().len() == 0,
            r.spec_bindings() == Map::<BufferTarget, u64>::empty(),
            r.spec_binding_ubos() == Map::<u32, u64>::empty(),
    {
        BufferStoreState {
            id,
            memory: MemoryStore::with_available_memory(available_memory),
            bindings: BindingTable::new(),
            binding_ubos: BindingTable::new(),
        }
    }

    /// Returns the maximum available memory in bytes.
    pub fn available_memory(&self) -> (r: usize)
        ensures
            r == self.spec_memory().spec_available(),
    {
        self.memory.available_memory()
    }

    /// Returns current used memory in bytes.
    pub fn used_memory(&self) -> (r: usize)
        ensures
            r == self.spec_memory().spec_used(),
    {
        self.memory.used_memory()
    }

    /// Returns the memory budget.
    pub fn memory(&self) -> (r: &MemoryStore)
        ensures
            *r == self.spec_memory(),
    {
        &self.memory
    }

    /// Whether another buffer than `id` holds `target`.
    pub fn is_occupied(&self, target: BufferTarget, id: u64) -> (r: bool)
        requires
            self.wf(),
        ensures
            r == (self.spec_bindings().contains_key(target) && self.spec_bindings()[target] != id),
    {
        self.bindings.is_held_by_other(&target, id)
    }

    /// Whether another buffer than `id` holds the uniform buffer mount point `index`.
    pub fn is_occupied_ubo(&self, index: u32, id: u64) -> (r: bool)
        requires
            self.wf(),
        ensures
            r == (self.spec_binding_ubos().contains_key(index) && self.spec_binding_ubos()[index] != id),
    {
        self.binding_ubos.is_held_by_other(&index, id)
    }

    /// Records that buffer `id` holds `target`.
    pub fn add_binding(&mut self, target: BufferTarget, id: u64)
        requires
            old(self).wf(),
        ensures
            final(self).wf(),
            final(self).spec_id() == old(self).spec_id(),
            final(self).spec_bindings() == old(self).spec_bindings().insert(target, id),
            final(self).spec_binding_ubos() == old(self).spec_binding_ubos(),
            final(self).spec_memory() == old(self).spec_memory(),
    {
        self.bindings.insert(target, id);
    }

    /// Records that buffer `id` holds the uniform buffer mount point `index`.
    pub fn add_binding_ubo(&mut self, index: u32, id: u64)
        requires
            old(self).wf(),
        ensures
            final(self).wf(),
            final(self).spec_id() == old(self).spec_id(),
            final(self).spec_binding_ubos() == old(self).spec_binding_ubos().insert(index, id),
            final(self).spec_bindings() == old(self).spec_bindings(),
            final(self).spec_memory() == old(self).spec_memory(),
    {
        self.binding_ubos.insert(index, id);
    }

    /// Forgets who holds `target`.
    pub fn remove_binding(&mut self, target: BufferTarget)
        requires
            old(self).wf(),
        ensures
            final(self).wf(),
            final(self).spec_id() == old(self).spec_id(),
            final(self).spec_bindings() == old(self).spec_bindings().remove(target),
            final(self).spec_binding_ubos() == old(self).spec_binding_ubos(),
            final(self).spec_memory() == old(self).spec_memory(),
    {
        self.bindings.remove(&target);
    }

    /// Forgets who holds the uniform buffer mount point `index`.
    pub fn remove_binding_ubo(&mut self, index: u32)
        requires
            old(self).wf(),
        ensures
            final(self).wf(),
            final(self).spec_id() == old(self).spec_id(),
            final(self).spec_binding_ubos() == old(self).spec_binding_ubos().remove(index),
            final(self).spec_bindings() == old(self).spec_bindings(),
            final(self).spec_memory() == old(self).spec_memory(),
    {
        self.binding_ubos.remove(&index);
    }

    /// Gives mutable access to the memory budget, keeping the binding tables.
    pub fn memory_mut(&mut self) -> (r: &mut MemoryStore)
        requires
            old(self).wf(),
        ensures
            *r == old(self).spec_memory(),
            final(self).spec_memory() == *final(r),
            final(self).spec_bindings() == old(self).spec_bindings(),
            final(self).spec_binding_ubos() == old(self).spec_binding_ubos(),
            final(r).wf() ==> final(self).wf(),
            final(self).spec_id() == old(self).spec_id(),
    {
        &mut self.memory
    }

    /// Registers buffer `id`, which occupies `byte_length` bytes and is bound
    /// to `targets` and `ubos`; `registered_to` is the store the buffer is
    /// registered to already, if any. Registering a buffer to this store
    /// twice changes nothing. Fails, changing nothing, when the buffer is
    /// registered to another store, or when another buffer holds one of those
    /// targets (checked first) or mount points.
    pub fn register(
        &mut self,
        id: u64,
        registered_to: Option<u64>,
        byte_length: usize,
        freeable: bool,
        targets: &Vec<BufferTarget>,
        ubos: &Vec<u32>,
    ) -> (r: Result<(), Error>)
        requires
            old(self).wf(),
            old(self).spec_memory().spec_used() + byte_length <= usize::MAX,
        ensures
            final(self).wf(),
            final(self).spec_id() == old(self).spec_id(),
            registered_to matches Some(store) && store != old(self).spec_id() ==> r == Err::<(), Error>(
                Error::RegisterBufferToMultipleStore,
            ) && *final(self) == *old(self),
            registered_to == Some(old(self).spec_id()) ==> r is Ok && *final(self) == *old(self),
            registered_to is None && has_id(old(self).spec_memory().spec_entries(), id) ==> r is Ok && *final(self)
                == *old(self),
            registered_to is None && !has_id(old(self).spec_memory().spec_entries(), id) ==> {
                let target_taken = exists|t: BufferTarget| #[trigger] targets@.contains(t)
                    && old(self).spec_bindings().contains_key(t);
                let ubo_taken = exists|u: u32| #[trigger] ubos@.contains(u) && old(self).spec_binding_ubos().contains_key(u);
                &&& target_taken ==> (r matches Err(Error::BufferTargetOccupied(t)) && targets@.contains(t)
                    && old(self).spec_bindings().contains_key(t))
                &&& !target_taken && ubo_taken ==> (r matches Err(Error::UniformBufferObjectMountPointOccupied(u))
                    && ubos@.contains(u) && old(self).spec_binding_ubos().contains_key(u))
                &&& (target_taken || ubo_taken) ==> *final(self) == *old(self)
                &&& !target_taken && !ubo_taken ==> {
                    &&& r is Ok
                    &&& final(self).spec_memory().spec_entries() == old(self).spec_memory().spec_entries().push(
                        super::store::StoreEntry { id, byte_length, freeable, cached: false },
                    )
                    &&& final(self).spec_memory().spec_used() == old(self).spec_memory().spec_used() + byte_length
                    &&& final(self).spec_memory().spec_available() == old(self).spec_memory().spec_available()
                    &&& forall|t: BufferTarget| #[trigger] final(self).spec_bindings().contains_key(t)
                        <==> old(self).spec_bindings().contains_key(t) || targets@.contains(t)
                    &&& forall|t: BufferTarget| targets@.contains(t) ==> #[trigger] final(self).spec_bindings()[t] == id
                    &&& forall|t: BufferTarget| old(self).spec_bindings().contains_key(t)
                        ==> #[trigger] final(self).spec_bindings()[t] == old(self).spec_bindings()[t]
                    &&& forall|u: u32| #[trigger] final(self).spec_binding_ubos().contains_key(u)
                        <==> old(self).spec_binding_ubos().contains_key(u) || ubos@.contains(u)
                    &&& forall|u: u32| ubos@.contains(u) ==> #[trigger] final(self).spec_binding_ubos()[u] == id
                    &&& forall|u: u32| old(self).spec_binding_ubos().contains_key(u)
                        ==> #[trigger] final(self).spec_binding_ubos()[u] == old(self).spec_binding_ubos()[u]
                }
            },
    {
        match registered_to {
            Some(store) => {
                if store != self.id {
                    return Err(Error::RegisterBufferToMultipleStore);
                }
                return Ok(());
            },
            None => {},
        }
        if self.memory.contains(id) {
            return Ok(());
        }
        let mut i: usize = 0;
        while i < targets.len()
            invariant
                self.wf(),
                *self == *old(self),
                registered_to is None,
                !has_id(old(self).spec_memory().spec_entries(), id),
                i <= targets@.len(),
                forall|j: int| 0 <= j < i ==> !self.spec_bindings().contains_key(#[trigger] targets@[j]),
            decreases targets@.len() - i,
        {
            if self.bindings.get(&targets[i]).is_some() {
                assert(targets@.contains(targets@[i as int]));
                return Err(Error::BufferTargetOccupied(targets[i]));
            }
            i = i + 1;
        }
        let mut i: usize = 0;
        while i < ubos.len()
            invariant
                self.wf(),
                *self == *old(self),
                registered_to is None,
                !has_id(old(self).spec_memory().spec_entries(), id),
                i <= ubos@.len(),
                forall|j: int| 0 <= j < i ==> !self.spec_binding_ubos().contains_key(#[trigger] ubos@[j]),
                forall|j: int| 0 <= j < targets@.len() ==> !self.spec_bindings().contains_key(#[trigger] targets@[j]),
            decreases ubos@.len() - i,
        {
            if self.binding_ubos.get(&ubos[i]).is_some() {
                assert(ubos@.contains(ubos@[i as int]));
                assert forall|t: BufferTarget| #[trigger] targets@.contains(t) implies !self.spec_bindings().contains_key(t) by {
                    let j = choose|j: int| 0 <= j < targets@.len() && targets@[j] == t;
                }
                return Err(Error::UniformBufferObjectMountPointOccupied(ubos[i]));
            }
            i = i + 1;
        }
        let ghost b0 = self.bindings@;
        let ghost u0 = self.binding_ubos@;
        self.memory.register(id, byte_length, freeable);
        let ghost m1 = self.memory;
        let mut i: usize = 0;
        while i < targets.len()
            invariant
                self.bindings.wf(),
                self.binding_ubos.wf(),
                self.binding_ubos@ == u0,
                self.memory == m1,
                m1.wf(),
                self.id == old(self).id,
                i <= targets@.len(),
                forall|j: int| 0 <= j < targets@.len() ==> !b0.contains_key(#[trigger] targets@[j]),
                forall|t: BufferTarget| #[trigger] self.bindings@.contains_key(t)
                    <==> b0.contains_key(t) || targets@.subrange(0, i as int).contains(t),
                forall|t: BufferTarget| targets@.subrange(0, i as int).contains(t) ==> #[trigger] self.bindings@[t] == id,
                forall|t: BufferTarget| b0.contains_key(t) ==> #[trigger] self.bindings@[t] == b0[t],
            decreases targets@.len() - i,
        {
            let t = targets[i];
            self.bindings.insert(t, id);
            proof {
                let pre = targets@.subrange(0, i as int);
                let post = targets@.subrange(0, i + 1);
                assert forall|x: BufferTarget| #[trigger] post.contains(x) <==> pre.contains(x) || x == t by {
                    if post.contains(x) {
                        let j = choose|j: int| 0 <= j < post.len() && post[j] == x;
                        if j < i {
                            assert(pre[j] == x);
                        }
                    }
                    if pre.contains(x) {
                        let j = choose|j: int| 0 <= j < pre.len() && pre[j] == x;
                        assert(post[j] == x);
                    }
                    if x == t {
                        assert(post[i as int] == x);
                    }
                }
                assert forall|x: BufferTarget| b0.contains_key(x) implies #[trigger] self.bindings@[x] == b0[x] by {
                    if x == t {
                        assert(targets@[i as int] == t);
                    }
                }
            }
            i = i + 1;
        }
        assert(targets@.subrange(0, targets@.len() as int) =~= targets@);
        let mut i: usize = 0;
        let ghost b1 = self.bindings@;
        while i < ubos.len()
            invariant
                self.binding_ubos.wf(),
                self.bindings.wf(),
                self.bindings@ == b1,
                self.memory == m1,
                m1.wf(),
                self.id == old(self).id,
                i <= ubos@.len(),
                forall|j: int| 0 <= j < ubos@.len() ==> !u0.contains_key(#[trigger] ubos@[j]),
                forall|u: u32| #[trigger] self.binding_ubos@.contains_key(u)
                    <==> u0.contains_key(u) || ubos@.subrange(0, i as int).contains(u),
                forall|u: u32| ubos@.subrange(0, i as int).contains(u) ==> #[trigger] self.binding_ubos@[u] == id,
                forall|u: u32| u0.contains_key(u) ==> #[trigger] self.binding_ubos@[u] == u0[u],
            decreases ubos@.len() - i,
        {
            let u = ubos[i];
            self.binding_ubos.insert(u, id);
            proof {
                let pre = ubos@.subrange(0, i as int);
                let post = ubos@.subrange(0, i + 1);
                assert forall|x: u32| #[trigger] post.contains(x) <==> pre.contains(x) || x == u by {
                    if post.contains(x) {
                        let j = choose|j: int| 0 <= j < post.len() && post[j] == x;
                        if j < i {
                            assert(pre[j] == x);
                        }
                    }
                    if pre.contains(x) {
                        let j = choose|j: int| 0 <= j < pre.len() && pre[j] == x;
                        assert(post[j] == x);
                    }
                    if x == u {
                        assert(post[i as int] == x);
                    }
                }
                assert forall|x: u32| u0.contains_key(x) implies #[trigger] self.binding_ubos@[x] == u0[x] by {
                    if x == u {
                        assert(ubos@[i as int] == u);
                    }
                }
            }
            i = i + 1;
        }
        assert(ubos@.subrange(0, ubos@.len() as int) =~= ubos@);
        Ok(())
    }

    /// Records that buffer `id` was cleared: the store forgets each of
    /// `targets` and `ubos` where it records `id` there, and the buffer now
    /// occupies no memory, so that the memory in use drops by the bytes it
    /// occupied. Changes no memory when the buffer is not registered.
    pub fn record_clear(&mut self, id: u64, targets: &Vec<BufferTarget>, ubos: &Vec<u32>)
        requires
            old(self).wf(),
        ensures
            final(self).wf(),
            final(self).spec_id() == old(self).spec_id(),
            final(self).spec_memory().spec_available() == old(self).spec_memory().spec_available(),
            !has_id(old(self).spec_memory().spec_entries(), id) ==> final(self).spec_memory() == old(self).spec_memory(),
            has_id(old(self).spec_memory().spec_entries(), id) ==> exists|i: int|
                0 <= i < old(self).spec_memory().spec_entries().len()
                    && old(self).spec_memory().spec_entries()[i].id == id
                    && final(self).spec_memory().spec_entries() == old(self).spec_memory().spec_entries().update(
                    i,
                    super::store::StoreEntry { byte_length: 0, ..old(self).spec_memory().spec_entries()[i] },
                ) && final(self).spec_memory().spec_used() == old(self).spec_memory().spec_used()
                    - old(self).spec_memory().spec_entries()[i].byte_length,
            forall|t: BufferTarget| #[trigger] final(self).spec_bindings().contains_key(t)
                <==> old(self).spec_bindings().contains_key(t) && !(targets@.contains(t)
                && old(self).spec_bindings()[t] == id),
            forall|t: BufferTarget| #[trigger] final(self).spec_bindings().contains_key(t)
                ==> final(self).spec_bindings()[t] == old(self).spec_bindings()[t],
            forall|u: u32| #[trigger] final(self).spec_binding_ubos().contains_key(u)
                <==> old(self).spec_binding_ubos().contains_key(u) && !(ubos@.contains(u)
                && old(self).spec_binding_ubos()[u] == id),
            forall|u: u32| #[trigger] final(self).spec_binding_ubos().contains_key(u)
                ==> final(self).spec_binding_ubos()[u] == old(self).spec_binding_ubos()[u],
    {
        super::binding::release_all(&mut self.bindings, targets, id);
        super::binding::release_all(&mut self.binding_ubos, ubos, id);
        proof {
            self.memory.lemma_used_fits();
        }
        self.memory.set_byte_length(id, 0);
    }

    /// Unregisters buffer `id`, bound to `targets` and `ubos`: gives its bytes
    /// back and forgets the bindings it holds among those. Returns `false`,
    /// changing nothing, when it is not registered.
    pub fn unregister(&mut self, id: u64, targets: &Vec<BufferTarget>, ubos: &Vec<u32>) -> (r: bool)
        requires
            old(self).wf(),
        ensures
            final(self).wf(),
            final(self).spec_id() == old(self).spec_id(),
            r == has_id(old(self).spec_memory().spec_entries(), id),
            !r ==> *final(self) == *old(self),
            r ==> exists|i: int|
                0 <= i < old(self).spec_memory().spec_entries().len()
                    && old(self).spec_memory().spec_entries()[i].id == id
                    && final(self).spec_memory().spec_entries() == old(self).spec_memory().spec_entries().remove(i)
                    && final(self).spec_memory().spec_used() == old(self).spec_memory().spec_used()
                        - old(self).spec_memory().spec_entries()[i].byte_length,
            final(self).spec_memory().spec_available() == old(self).spec_memory().spec_available(),
            r ==> forall|t: BufferTarget| #[trigger] final(self).spec_bindings().contains_key(t)
                <==> old(self).spec_bindings().contains_key(t) && !(targets@.contains(t)
                && old(self).spec_bindings()[t] == id),
            r ==> forall|t: BufferTarget| #[trigger] final(self).spec_bindings().contains_key(t)
                ==> final(self).spec_bindings()[t] == old(self).spec_bindings()[t],
            r ==> forall|u: u32| #[trigger] final(self).spec_binding_ubos().contains_key(u)
                <==> old(self).spec_binding_ubos().contains_key(u) && !(ubos@.contains(u)
                && old(self).spec_binding_ubos()[u] == id),
            r ==> forall|u: u32| #[trigger] final(self).spec_binding_ubos().contains_key(u)
                ==> final(self).spec_binding_ubos()[u] == old(self).spec_binding_ubos()[u],
    {
        let ghost e0 = self.memory.spec_entries();
        let ghost used0 = self.memory.spec_used();
        if !self.memory.unregister(id) {
            return false;
        }
        let ghost idx = choose|i: int|
            0 <= i < e0.len() && e0[i].id == id && self.memory.spec_entries() == e0.remove(i)
                && self.memory.spec_used() == used0 - e0[i].byte_length;
        let ghost m1 = self.memory;
        let ghost b0 = self.bindings@;
        let ghost u0 = self.binding_ubos@;
        let mut i: usize = 0;
        while i < targets.len()
            invariant
                self.bindings.wf(),
                self.binding_ubos.wf(),
                self.binding_ubos@ == u0,
                self.memory == m1,
                self.id == old(self).id,
                m1.wf(),
                i <= targets@.len(),
                forall|t: BufferTarget| #[trigger] self.bindings@.contains_key(t)
                    <==> b0.contains_key(t) && !(targets@.subrange(0, i as int).contains(t) && b0[t] == id),
                forall|t: BufferTarget| #[trigger] self.bindings@.contains_key(t) ==> self.bindings@[t] == b0[t],
            decreases targets@.len() - i,
        {
            let t = targets[i];
            self.bindings.release(&t, id);
            proof {
                let pre = targets@.subrange(0, i as int);
                let post = targets@.subrange(0, i + 1);
                assert forall|x: BufferTarget| #[trigger] post.contains(x) <==> pre.contains(x) || x == t by {
                    if post.contains(x) {
                        let j = choose|j: int| 0 <= j < post.len() && post[j] == x;
                        if j < i {
                            assert(pre[j] == x);
                        }
                    }
                    if pre.contains(x) {
                        let j = choose|j: int| 0 <= j < pre.len() && pre[j] == x;
                        assert(post[j] == x);
                    }
                    if x == t {
                        assert(post[i as int] == x);
                    }
                }
            }
            i = i + 1;
        }
        assert(targets@.subrange(0, targets@.len() as int) =~= targets@);
        let ghost b1 = self.bindings@;
        let mut i: usize = 0;
        while i < ubos.len()
            invariant
                self.bindings.wf(),
                self.binding_ubos.wf(),
                self.bindings@ == b1,
                self.memory == m1,
                self.id == old(self).id,
                m1.wf(),
                i <= ubos@.len(),
                forall|u: u32| #[trigger] self.binding_ubos@.contains_key(u)
                    <==> u0.contains_key(u) && !(ubos@.subrange(0, i as int).contains(u) && u0[u] == id),
                forall|u: u32| #[trigger] self.binding_ubos@.contains_key(u) ==> self.binding_ubos@[u] == u0[u],
            decreases ubos@.len() - i,
        {
            let u = ubos[i];
            self.binding_ubos.release(&u, id);
            proof {
                let pre = ubos@.subrange(0, i as int);
                let post = ubos@.subrange(0, i + 1);
                assert forall|x: u32| #[trigger] post.contains(x) <==> pre.contains(x) || x == u by {
                    if post.contains(x) {
                        let j = choose|j: int| 0 <= j < post.len() && post[j] == x;
                        if j < i {
                            assert(pre[j] == x);
                        }
                    }
                    if pre.contains(x) {
                        let j = choose|j: int| 0 <= j < pre.len() && pre[j] == x;
                        assert(post[j] == x);
                    }
                    if x == u {
                        assert(post[i as int] == x);
                    }
                }
            }
            i = i + 1;
        }
        assert(ubos@.subrange(0, ubos@.len() as int) =~= ubos@);
        assert(0 <= idx < old(self).spec_memory().spec_entries().len()
            && old(self).spec_memory().spec_entries()[idx].id == id
            && self.spec_memory().spec_entries() == old(self).spec_memory().spec_entries().remove(idx)
            && self.spec_memory().spec_used() == old(self).spec_memory().spec_used()
                - old(self).spec_memory().spec_entries()[idx].byte_length);
        true
    }
}

} // verus!
