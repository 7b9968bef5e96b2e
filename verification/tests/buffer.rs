use webgl_core::renderer::webgl::buffer::{BufferComponentSize, BufferDataType, BufferTarget, BufferUsage, MemoryPolicyKind};
use webgl_core::renderer::webgl::buffer_queue::{BufferQueue, Preallocation, QueueSource};
use webgl_core::renderer::webgl::buffer_state::{BufferState, BufferStoreState, MemoryPolicy};
use webgl_core::renderer::webgl::conversion::ToGlEnum;
use webgl_core::renderer::webgl::error::Error;
use webgl_core::renderer::webgl::store::MemoryStore;

fn source_of<S: Copy>(q: &BufferQueue<S>, i: usize) -> Option<S> {
    match &q.items()[i].source {
        QueueSource::Source(s) => Some(*s),
        QueueSource::Preallocation(_) => None,
    }
}

#[test]
fn test_buffer_data_type_byte_length() {
    assert_eq!(BufferDataType::FLOAT.byte_length(), 4);
    assert_eq!(BufferDataType::BYTE.byte_length(), 1);
    assert_eq!(BufferDataType::UNSIGNED_SHORT.byte_length(), 2);
    assert_eq!(BufferDataType::HALF_FLOAT.byte_length(), 2);
    assert_eq!(BufferDataType::INT_2_10_10_10_REV.byte_length(), 4);
    assert_eq!(BufferComponentSize::Three.count(), 3);
}

#[test]
fn test_buffer_gl_enums() {
    assert_eq!(BufferTarget::ARRAY_BUFFER.gl_enum(), 34962);
    assert_eq!(BufferTarget::UNIFORM_BUFFER.gl_enum(), 35345);
    assert_eq!(BufferUsage::STATIC_DRAW.gl_enum(), 35044);
    assert_eq!(BufferDataType::FLOAT.gl_enum(), 5126);
}

#[test]
fn test_preallocation() {
    let p = Preallocation::new(128);
    assert_eq!(p.byte_length(), 128);
}

#[test]
fn test_queue_buffer_data_replaces_everything() {
    let mut q: BufferQueue<u32> = BufferQueue::new();
    q.buffer_data(1, 16);
    q.buffer_sub_data(2, 4, 4, None);
    q.buffer_data(3, 8);
    assert_eq!(q.required_byte_length(), 8);
    assert_eq!(q.len(), 1);
    assert_eq!(source_of(&q, 0), Some(3));
    assert_eq!(q.items()[0].dst_byte_offset, 0);
}

#[test]
fn test_queue_sub_data_within_buffer_is_appended() {
    let mut q: BufferQueue<u32> = BufferQueue::new();
    q.buffer_data(1, 16);
    q.buffer_sub_data(2, 4, 8, None);
    q.buffer_sub_data(3, 4, 0, None);
    assert_eq!(q.required_byte_length(), 16);
    assert_eq!(q.len(), 3);
    assert_eq!(source_of(&q, 1), Some(2));
    assert_eq!(q.items()[1].dst_byte_offset, 8);
    assert_eq!(source_of(&q, 2), Some(3));
}

#[test]
fn test_queue_sub_data_covering_buffer_replaces_queue() {
    let mut q: BufferQueue<u32> = BufferQueue::new();
    q.buffer_data(1, 16);
    q.buffer_sub_data(2, 32, 0, None);
    assert_eq!(q.required_byte_length(), 32);
    assert_eq!(q.len(), 1);
    assert_eq!(source_of(&q, 0), Some(2));
}

#[test]
fn test_queue_sub_data_extending_buffer_preallocates() {
    let mut q: BufferQueue<u32> = BufferQueue::new();
    q.buffer_data(1, 16);
    assert!(q.extends_buffer(8, 12));
    assert!(!q.extends_buffer(4, 12));
    q.buffer_sub_data(2, 8, 12, Some((9, 16)));
    assert_eq!(q.required_byte_length(), 20);
    assert_eq!(q.len(), 4);
    match &q.items()[0].source {
        QueueSource::Preallocation(p) => assert_eq!(p.byte_length(), 20),
        QueueSource::Source(_) => panic!("expected a preallocation first"),
    }
    assert_eq!(q.items()[0].byte_length, 20);
    assert_eq!(source_of(&q, 1), Some(9));
    assert_eq!(source_of(&q, 2), Some(1));
    assert_eq!(source_of(&q, 3), Some(2));
    assert_eq!(q.items()[3].dst_byte_offset, 12);
}

#[test]
fn test_queue_take_upload_reallocates_when_shorter() {
    let mut q: BufferQueue<u32> = BufferQueue::new();
    let plan = q.take_upload(10);
    assert_eq!(plan.allocate, None);
    assert_eq!(plan.writes.len(), 0);
    assert_eq!((plan.new_byte_length, plan.old_byte_length), (0, 0));

    q.buffer_data(1, 16);
    let plan = q.take_upload(10);
    assert_eq!(plan.allocate, Some(16));
    assert_eq!(plan.writes.len(), 1);
    assert_eq!((plan.new_byte_length, plan.old_byte_length), (16, 10));
    assert_eq!(q.len(), 0);
    assert_eq!(q.required_byte_length(), 16);

    q.buffer_sub_data(2, 4, 0, None);
    let plan = q.take_upload(16);
    assert_eq!(plan.allocate, None);
    assert_eq!((plan.new_byte_length, plan.old_byte_length), (16, 16));
}

#[test]
fn test_buffer_state_needs_initialization() {
    let mut b: BufferState<u32> = BufferState::new(BufferUsage::STATIC_DRAW, MemoryPolicy::read_back());
    assert!(matches!(b.bind(BufferTarget::ARRAY_BUFFER, false), Err(Error::BufferUninitialized)));
    assert!(matches!(b.upload(), Err(Error::BufferUninitialized)));
    assert!(matches!(b.unbind(BufferTarget::ARRAY_BUFFER), Err(Error::BufferUninitialized)));
    assert!(b.init(true).is_ok());
    assert!(b.init(true).is_ok());
    assert!(matches!(b.init(false), Err(Error::BufferAlreadyInitialized)));
}

#[test]
fn test_buffer_state_bind_uploads_queue() {
    let mut b: BufferState<u32> = BufferState::new(BufferUsage::DYNAMIC_DRAW, MemoryPolicy::read_back());
    b.init(true).unwrap();
    b.buffer_data(7, 64);
    assert!(matches!(
        b.bind(BufferTarget::ARRAY_BUFFER, true),
        Err(Error::BufferTargetOccupied(BufferTarget::ARRAY_BUFFER))
    ));
    let plan = b.bind(BufferTarget::ARRAY_BUFFER, false).unwrap();
    assert!(plan.newly_bound);
    assert_eq!(plan.upload.allocate, Some(64));
    assert_eq!(plan.upload.writes.len(), 1);
    assert_eq!(b.runtime.buffer_byte_length, 64);
    assert!(b.runtime.has_buffer);
    let again = b.bind(BufferTarget::ARRAY_BUFFER, false).unwrap();
    assert!(!again.newly_bound);
    assert_eq!(again.upload.writes.len(), 0);
    assert_eq!(b.unbind(BufferTarget::ARRAY_BUFFER).unwrap(), true);
    assert_eq!(b.unbind(BufferTarget::ARRAY_BUFFER).unwrap(), false);
}

#[test]
fn test_buffer_state_ubo_bindings() {
    let mut b: BufferState<u32> = BufferState::new(BufferUsage::STATIC_DRAW, MemoryPolicy::unfree());
    b.init(true).unwrap();
    assert!(matches!(b.bind_ubo(3, true), Err(Error::UniformBufferObjectMountPointOccupied(3))));
    assert!(b.bind_ubo(3, false).unwrap().newly_bound);
    assert!(!b.bind_ubo(3, false).unwrap().newly_bound);
    assert!(b.bind_ubo_range(3, false).unwrap().newly_bound);
    assert_eq!(b.runtime.binding_ubos, vec![3]);
    b.bind(BufferTarget::UNIFORM_BUFFER, false).unwrap();
    let (ubos, targets) = b.unbind_all().unwrap();
    assert_eq!(ubos, vec![3]);
    assert_eq!(targets, vec![BufferTarget::UNIFORM_BUFFER]);
    assert!(b.runtime.bindings.is_empty() && b.runtime.binding_ubos.is_empty());
}

#[test]
fn test_buffer_state_free_by_policy() {
    let mut unfree: BufferState<u32> = BufferState::new(BufferUsage::STATIC_DRAW, MemoryPolicy::unfree());
    unfree.init(true).unwrap();
    unfree.buffer_data(1, 32);
    unfree.upload().unwrap();
    assert!(!unfree.freeable());
    assert!(!unfree.needs_free_read_back());
    assert!(!unfree.free(None).released);

    let mut read_back: BufferState<u32> = BufferState::new(BufferUsage::STATIC_DRAW, MemoryPolicy::read_back());
    read_back.init(true).unwrap();
    read_back.buffer_data(1, 32);
    read_back.bind(BufferTarget::ARRAY_BUFFER, false).unwrap();
    assert!(!read_back.freeable());
    read_back.unbind(BufferTarget::ARRAY_BUFFER).unwrap();
    assert!(read_back.freeable());
    assert!(read_back.needs_free_read_back());
    let out = read_back.free(Some((7, 32)));
    assert!(out.released && out.delete_buffer);
    assert_eq!(out.byte_length, 32);
    assert_eq!(read_back.runtime.buffer_byte_length, 0);
    assert!(!read_back.runtime.has_buffer);
    assert_eq!(read_back.queue.required_byte_length(), 32);
    assert_eq!(source_of(&read_back.queue, 0), Some(7));
    assert_eq!(read_back.queue.items()[0].byte_length, 32);
    assert_eq!(read_back.queue.len(), 1);
    assert!(!read_back.needs_free_read_back());

    let mut restorable: BufferState<u32> =
        BufferState::new(BufferUsage::STATIC_DRAW, MemoryPolicy::restorable(42, 24));
    assert_eq!(restorable.memory_policy.kind(), MemoryPolicyKind::Restorable);
    restorable.init(true).unwrap();
    restorable.buffer_data(1, 24);
    restorable.upload().unwrap();
    let out = restorable.free(None);
    assert!(out.released && out.delete_buffer);
    assert_eq!(out.byte_length, 24);
    assert_eq!(restorable.queue.len(), 1);
    assert_eq!(source_of(&restorable.queue, 0), Some(42));
    assert_eq!(restorable.queue.items()[0].byte_length, 24);
}

#[test]
fn test_buffer_state_clear() {
    let mut b: BufferState<u32> = BufferState::new(BufferUsage::STATIC_DRAW, MemoryPolicy::read_back());
    b.init(true).unwrap();
    b.buffer_data(1, 16);
    b.bind(BufferTarget::ARRAY_BUFFER, false).unwrap();
    b.bind_ubo(2, false).unwrap();
    let plan = b.clear(Some((5, 16)), Some(BufferUsage::STREAM_DRAW));
    assert!(plan.delete_buffer);
    assert_eq!(plan.old_byte_length, 16);
    assert_eq!(plan.unbound_ubos, vec![2]);
    assert_eq!(plan.unbound_targets, vec![BufferTarget::ARRAY_BUFFER]);
    assert_eq!(b.usage, BufferUsage::STREAM_DRAW);
    assert_eq!(b.queue.required_byte_length(), 16);
    assert_eq!(b.queue.len(), 1);
    assert_eq!(source_of(&b.queue, 0), Some(5));
    assert!(!b.runtime.has_buffer);
    assert!(b.needs_read_back(4, 4) == false);
}

#[test]
fn test_buffer_state_needs_read_back() {
    let mut b: BufferState<u32> = BufferState::new(BufferUsage::STATIC_DRAW, MemoryPolicy::read_back());
    b.buffer_data(1, 16);
    assert!(!b.needs_read_back(8, 12));
    b.init(true).unwrap();
    b.upload().unwrap();
    assert!(b.needs_read_back(8, 12));
    assert!(!b.needs_read_back(8, 0));
    assert!(!b.needs_read_back(4, 4));
}

#[test]
fn test_memory_store_clamps_budget() {
    assert_eq!(MemoryStore::new().available_memory(), i32::MAX as usize);
    assert_eq!(MemoryStore::with_available_memory(usize::MAX).available_memory(), i32::MAX as usize);
    assert_eq!(MemoryStore::with_available_memory(1000).available_memory(), 1000);
}

#[test]
fn test_memory_store_accounting() {
    let mut m = MemoryStore::with_available_memory(100);
    assert!(m.register(1, 40, true));
    assert!(!m.register(1, 40, true));
    assert!(m.register(2, 30, false));
    assert_eq!(m.used_memory(), 70);
    m.set_byte_length(1, 10);
    assert_eq!(m.used_memory(), 40);
    assert!(m.unregister(2));
    assert!(!m.unregister(2));
    assert_eq!(m.used_memory(), 10);
}

#[test]
fn test_memory_store_frees_least_recently_used_first() {
    let mut m = MemoryStore::with_available_memory(100);
    m.register(1, 50, true);
    m.register(2, 50, true);
    m.register(3, 50, false);
    m.register(4, 50, true);
    m.cache(1);
    m.cache(2);
    m.cache(3);
    m.cache(4);
    m.cache(1);
    assert_eq!(m.used_memory(), 200);
    let freed = m.free();
    assert_eq!(freed, vec![2, 4]);
    assert_eq!(m.used_memory(), 100);
    assert!(m.free().is_empty());
}

#[test]
fn test_memory_store_within_budget_frees_nothing() {
    let mut m = MemoryStore::with_available_memory(100);
    m.register(1, 60, true);
    m.cache(1);
    assert!(m.free().is_empty());
    assert_eq!(m.used_memory(), 60);
}

#[test]
fn test_memory_store_stops_when_nothing_left() {
    let mut m = MemoryStore::with_available_memory(10);
    m.register(1, 60, false);
    m.register(2, 20, true);
    m.cache(1);
    m.cache(2);
    m.uncache(2);
    assert!(m.free().is_empty());
    assert_eq!(m.used_memory(), 80);
    m.cache(2);
    assert_eq!(m.free(), vec![2]);
    assert_eq!(m.used_memory(), 60);
}

#[test]
fn test_buffer_store_bindings() {
    let mut s = BufferStoreState::new(7);
    assert!(s.register(1, None, 16, true, &vec![BufferTarget::ARRAY_BUFFER], &vec![0]).is_ok());
    assert!(s.is_occupied(BufferTarget::ARRAY_BUFFER, 2));
    assert!(!s.is_occupied(BufferTarget::ARRAY_BUFFER, 1));
    assert!(s.is_occupied_ubo(0, 2));
    assert!(matches!(
        s.register(2, None, 8, true, &vec![BufferTarget::ARRAY_BUFFER], &vec![]),
        Err(Error::BufferTargetOccupied(BufferTarget::ARRAY_BUFFER))
    ));
    assert!(matches!(
        s.register(2, None, 8, true, &vec![], &vec![0]),
        Err(Error::UniformBufferObjectMountPointOccupied(0))
    ));
    assert_eq!(s.used_memory(), 16);
    assert!(s.register(1, None, 16, true, &vec![], &vec![]).is_ok());
    assert_eq!(s.used_memory(), 16);
    s.add_binding(BufferTarget::ELEMENT_ARRAY_BUFFER, 1);
    assert!(s.is_occupied(BufferTarget::ELEMENT_ARRAY_BUFFER, 3));
    s.remove_binding(BufferTarget::ELEMENT_ARRAY_BUFFER);
    assert!(!s.is_occupied(BufferTarget::ELEMENT_ARRAY_BUFFER, 3));
    assert!(s.unregister(1, &vec![BufferTarget::ARRAY_BUFFER], &vec![0]));
    assert!(!s.is_occupied(BufferTarget::ARRAY_BUFFER, 2));
    assert!(!s.is_occupied_ubo(0, 2));
    assert_eq!(s.used_memory(), 0);
    assert!(!s.unregister(1, &vec![], &vec![]));
}

#[test]
fn test_buffer_store_refuses_other_store() {
    let mut s = BufferStoreState::new(7);
    assert_eq!(s.id(), 7);
    assert!(matches!(
        s.register(1, Some(8), 16, true, &vec![BufferTarget::ARRAY_BUFFER], &vec![]),
        Err(Error::RegisterBufferToMultipleStore)
    ));
    assert_eq!(s.used_memory(), 0);
    assert!(!s.is_occupied(BufferTarget::ARRAY_BUFFER, 2));
    assert!(s.register(1, Some(7), 16, true, &vec![BufferTarget::ARRAY_BUFFER], &vec![]).is_ok());
    assert_eq!(s.used_memory(), 0);
}

#[test]
fn test_buffer_store_budget() {
    let s = BufferStoreState::with_available_memory(7, 4096);
    assert_eq!(s.available_memory(), 4096);
    assert_eq!(BufferStoreState::new(7).available_memory(), i32::MAX as usize);
}

#[test]
fn test_memory_store_unregister_undoes_register() {
    let mut m = MemoryStore::with_available_memory(100);
    m.register(1, 40, true);
    m.register(2, 30, false);
    m.cache(1);
    let before = m.entries().clone();
    assert!(m.register(3, 25, true));
    assert_eq!(m.used_memory(), 95);
    assert!(m.unregister(3));
    assert_eq!(m.entries(), &before);
    assert_eq!(m.used_memory(), 70);
}

#[test]
fn test_memory_store_record_use() {
    let mut m = MemoryStore::with_available_memory(100);
    m.register(1, 10, false);
    m.register(2, 20, false);
    m.record_use(1, 30, true);
    assert_eq!(m.used_memory(), 50);
    assert_eq!(m.entries()[1].id, 1);
    assert!(m.entries()[1].cached && m.entries()[1].freeable);
    assert_eq!(m.entries()[1].byte_length, 30);
    m.record_use(9, 5, true);
    assert_eq!(m.used_memory(), 50);
    assert_eq!(m.entries().len(), 2);
}

#[test]
fn test_buffer_store_record_clear() {
    let mut s = BufferStoreState::new(1);
    assert!(s.register(4, None, 64, true, &vec![BufferTarget::ARRAY_BUFFER], &vec![2]).is_ok());
    assert!(s.register(5, None, 16, true, &vec![BufferTarget::ELEMENT_ARRAY_BUFFER], &vec![]).is_ok());
    assert_eq!(s.used_memory(), 80);
    s.record_clear(4, &vec![BufferTarget::ARRAY_BUFFER, BufferTarget::ELEMENT_ARRAY_BUFFER], &vec![2]);
    assert_eq!(s.used_memory(), 16);
    assert!(!s.is_occupied(BufferTarget::ARRAY_BUFFER, 9));
    assert!(!s.is_occupied_ubo(2, 9));
    assert!(s.is_occupied(BufferTarget::ELEMENT_ARRAY_BUFFER, 9));
    s.record_clear(7, &vec![], &vec![]);
    assert_eq!(s.used_memory(), 16);
}
