//! The queue of writes a buffer collects before they reach the GPU, and the
//! plan that turns the queue into GPU commands.
use vstd::prelude::*;

verus! {

/// Preallocated buffer source.
#[derive(Debug)]
pub struct Preallocation(usize);

impl Preallocation {
    /// Number of bytes preallocated.
    pub closed spec fn size(&self) -> nat {
        self.0 as nat
    }

    /// Constructs a new preallocated buffer source with specified size.
    pub fn new(size: usize) -> (r: Self)
        ensures
            r.size() == size,
    {
        Preallocation(size)
    }

    /// Returns the number of bytes preallocated.
    pub fn byte_length(&self) -> (r: usize)
        ensures
            r == self.size(),
    {
        self.0
    }
}

/// Where a queued write takes its bytes from: a preallocation of zeroes or a
/// source of the caller.
#[verifier::reject_recursive_types(S)]
pub enum QueueSource<S> {
    Preallocation(Preallocation),
    Source(S),
}

/// One queued write: `byte_length` bytes from `source`, written at
/// `dst_byte_offset` in the buffer.
#[verifier::reject_recursive_types(S)]
pub struct QueueItem<S> {
    pub source: QueueSource<S>,
    pub byte_length: usize,
    pub dst_byte_offset: usize,
}

/// A write of a caller's source.
pub open spec fn source_item<S>(source: S, byte_length: usize, dst_byte_offset: usize) -> QueueItem<S> {
    QueueItem { source: QueueSource::Source(source), byte_length, dst_byte_offset }
}

/// A write of `byte_length` zero bytes at the start of the buffer.
pub open spec fn is_preallocation<S>(item: QueueItem<S>, byte_length: nat) -> bool {
    &&& item.source matches QueueSource::Preallocation(p) && p.size() == byte_length
    &&& item.byte_length == byte_length
    &&& item.dst_byte_offset == 0
}

/// A write of `byte_length` bytes at `dst_byte_offset` would make the buffer
/// longer than `required_byte_length`, without starting at its beginning: the
/// data already in the buffer has to be kept in front of it.
pub open spec fn extends_buffer(required_byte_length: nat, byte_length: nat, dst_byte_offset: nat) -> bool {
    dst_byte_offset != 0 && dst_byte_offset + byte_length > required_byte_length
}

/// `q2` is queue `q` after buffering the `byte_length` bytes of `source` at
/// `dst_byte_offset`, with `read_back` (data read back from the GPU, with
/// its length) kept in front when the write extends the buffer.
pub open spec fn sub_data_queued<S>(
    q: BufferQueue<S>,
    q2: BufferQueue<S>,
    source: S,
    byte_length: usize,
    dst_byte_offset: usize,
    read_back: Option<(S, usize)>,
) -> bool {
    let end = (dst_byte_offset + byte_length) as nat;
    let req = q.spec_required();
    let queued = q.spec_items();
    let item = source_item(source, byte_length, dst_byte_offset);
    if dst_byte_offset == 0 && end >= req {
        &&& q2.spec_required() == end
        &&& q2.spec_items() == seq![item]
    } else if !extends_buffer(req, byte_length as nat, dst_byte_offset as nat) {
        &&& q2.spec_required() == req
        &&& q2.spec_items() == queued.push(item)
    } else {
        let front = match read_back {
            Some((data, length)) => 2int,
            None => 1int,
        };
        &&& q2.spec_required() == end
        &&& q2.spec_items().len() == queued.len() + front + 1
        &&& is_preallocation(q2.spec_items()[0], end)
        &&& (read_back matches Some((data, length)) ==> q2.spec_items()[1] == source_item(data, length, 0))
        &&& q2.spec_items().subrange(front, front + queued.len()) == queued
        &&& q2.spec_items().last() == item
    }
}

/// Writes queued for a buffer, and the byte length the buffer needs to hold them.
#[verifier::reject_recursive_types(S)]
pub struct BufferQueue<S> {
    required_byte_length: usize,
    items: Vec<QueueItem<S>>,
}

/// What uploading a queue asks of the GPU: allocating a buffer of
/// `allocate` bytes first, when given, then performing `writes` in order.
/// The buffer then holds `new_byte_length` bytes, having held
/// `old_byte_length`; both are `0` when nothing was queued.
#[verifier::reject_recursive_types(S)]
pub struct UploadPlan<S> {
    pub allocate: Option<usize>,
    pub writes: Vec<QueueItem<S>>,
    pub new_byte_length: usize,
    pub old_byte_length: usize,
}

impl<S> BufferQueue<S> {
    /// The byte length the buffer needs.
    pub closed spec fn spec_required(&self) -> nat {
        self.required_byte_length as nat
    }

    /// The queued writes, in the order they are performed.
    pub closed spec fn spec_items(&self) -> Seq<QueueItem<S>> {
        self.items@
    }

    /// Every queued write lies within the byte length the buffer needs.
    pub open spec fn wf(&self) -> bool {
        forall|i: int|
            0 <= i < self.spec_items().len() ==> #[trigger] self.spec_items()[i].dst_byte_offset
                + self.spec_items()[i].byte_length <= self.spec_required()
    }

    /// Constructs an empty queue.
    pub fn new() -> (r: Self)
        ensures
            r.wf(),
            r.spec_required() == 0,
            r.spec_items() == Seq::<QueueItem<S>>::empty(),
    {
        BufferQueue { required_byte_length: 0, items: Vec::new() }
    }

    /// Returns the byte length the buffer needs.
    pub fn required_byte_length(&self) -> (r: usize)
        ensures
            r == self.spec_required(),
    {
        self.required_byte_length
    }

    /// Returns the queued writes.
    pub fn items(&self) -> (r: &Vec<QueueItem<S>>)
        ensures
            r@ == self.spec_items(),
    {
        &self.items
    }

    /// Returns the number of queued writes.
    pub fn len(&self) -> (r: usize)
        ensures
            r == self.spec_items().len(),
    {
        self.items.len()
    }

    /// Drops every queued write and the required byte length.
    pub fn clear(&mut self)
        ensures
            final(self).wf(),
            final(self).spec_required() == 0,
            final(self).spec_items() == Seq::<QueueItem<S>>::empty(),
    {
        self.items.clear();
        self.required_byte_length = 0;
    }

    /// Sets the required byte length to `byte_length` when that is more.
    pub fn require(&mut self, byte_length: usize)
        ensures
            final(self).spec_items() == old(self).spec_items(),
            final(self).spec_required() == if byte_length > old(self).spec_required() {
                byte_length as nat
            } else {
                old(self).spec_required()
            },
            old(self).wf() ==> final(self).wf(),
    {
        if byte_length > self.required_byte_length {
            self.required_byte_length = byte_length;
        }
    }

    /// Queues a write of `source` at the start of the buffer, before every
    /// other write.
    pub fn push_front(&mut self, source: S, byte_length: usize)
        ensures
            final(self).spec_required() == old(self).spec_required(),
            final(self).spec_items() == old(self).spec_items().insert(0, source_item(source, byte_length, 0)),
    {
        self.items.insert(0, QueueItem { source: QueueSource::Source(source), byte_length, dst_byte_offset: 0 });
    }

    /// Overrides existing data and then buffers new data: the buffer will
    /// hold exactly the `byte_length` bytes of `source`.
    pub fn buffer_data(&mut self, source: S, byte_length: usize)
        ensures
            final(self).wf(),
            final(self).spec_required() == byte_length,
            final(self).spec_items() == seq![source_item(source, byte_length, 0)],
    {
        self.required_byte_length = byte_length;
        self.items.clear();
        self.items.push(QueueItem { source: QueueSource::Source(source), byte_length, dst_byte_offset: 0 });
    }

    /// Whether a write of `byte_length` bytes at `dst_byte_offset` extends the
    /// buffer beyond its required length without starting at its beginning, in
    /// which case the data already on the GPU is read back and kept.
    pub fn extends_buffer(&self, byte_length: usize, dst_byte_offset: usize) -> (r: bool)
        requires
            dst_byte_offset + byte_length <= usize::MAX,
        ensures
            r == extends_buffer(self.spec_required(), byte_length as nat, dst_byte_offset as nat),
    {
        dst_byte_offset != 0 && dst_byte_offset + byte_length > self.required_byte_length
    }

    /// Buffers sub data: a write of the `byte_length` bytes of `source` at
    /// `dst_byte_offset`.
    ///
    /// A write from the start that covers the whole buffer replaces every
    /// queued write. A write that extends the buffer from elsewhere queues,
    /// in front of every other write, a zeroed buffer of the new length and
    /// then `read_back` (the data read back from the GPU, with its length),
    /// when given. Any other write is queued last.
    pub fn buffer_sub_data(
        &mut self,
        source: S,
        byte_length: usize,
        dst_byte_offset: usize,
        read_back: Option<(S, usize)>,
    )
        requires
            dst_byte_offset + byte_length <= usize::MAX,
        ensures
            sub_data_queued(*old(self), *final(self), source, byte_length, dst_byte_offset, read_back),
            old(self).wf() && (read_back matches Some((data, length)) ==> length <= dst_byte_offset
                + byte_length) ==> final(self).wf(),
    {
        let end = dst_byte_offset + byte_length;
        let ghost item = source_item(source, byte_length, dst_byte_offset);
        if dst_byte_offset == 0 {
            if end >= self.required_byte_length {
                self.required_byte_length = end;
                self.items.clear();
                self.items.push(QueueItem { source: QueueSource::Source(source), byte_length, dst_byte_offset: 0 });
                assert(self.items@ =~= seq![item]);
            } else {
                let ghost queued = self.items@;
                self.items.push(QueueItem { source: QueueSource::Source(source), byte_length, dst_byte_offset });
                assert(self.items@ =~= queued.push(item));
            }
        } else if end <= self.required_byte_length {
            let ghost queued = self.items@;
            self.items.push(QueueItem { source: QueueSource::Source(source), byte_length, dst_byte_offset });
            assert(self.items@ =~= queued.push(item));
        } else {
            let ghost queued = self.items@;
            let ghost front: int = if read_back is Some { 2 } else { 1 };
            let zeroes = Preallocation::new(end);
            self.items.insert(0, QueueItem { source: QueueSource::Preallocation(zeroes), byte_length: end, dst_byte_offset: 0 });
            match read_back {
                Some((data, length)) => {
                    self.items.insert(1, QueueItem { source: QueueSource::Source(data), byte_length: length, dst_byte_offset: 0 });
                    assert(self.items@.subrange(2, 2 + queued.len() as int) =~= queued);
                },
                None => {
                    assert(self.items@.subrange(1, 1 + queued.len() as int) =~= queued);
                },
            }
            self.items.push(QueueItem { source: QueueSource::Source(source), byte_length, dst_byte_offset });
            assert(self.items@.subrange(front, front + queued.len()) =~= queued);
            self.required_byte_length = end;
        }
    }

    /// Hands the queued writes over for upload into a GPU buffer that holds
    /// `current_byte_length` bytes, leaving the queue empty (the required
    /// byte length stays). The buffer is reallocated when it is shorter than
    /// required.
    pub fn take_upload(&mut self, current_byte_length: usize) -> (r: UploadPlan<S>)
        ensures
            final(self).spec_required() == old(self).spec_required(),
            final(self).spec_items() == Seq::<QueueItem<S>>::empty(),
            old(self).spec_items().len() == 0 ==> {
                &&& r.allocate is None
                &&& r.writes@ == Seq::<QueueItem<S>>::empty()
                &&& r.new_byte_length == 0
                &&& r.old_byte_length == 0
            },
            old(self).spec_items().len() != 0 ==> {
                &&& r.allocate == if old(self).spec_required() > current_byte_length {
                    Some(old(self).spec_required() as usize)
                } else {
                    None
                }
                &&& r.writes@ == old(self).spec_items()
                &&& r.new_byte_length == old(self).spec_required()
                &&& r.old_byte_length == current_byte_length
            },
            final(self).wf(),
    {
        if self.items.len() == 0 {
            return UploadPlan { allocate: None, writes: Vec::new(), new_byte_length: 0, old_byte_length: 0 };
        }
        let required = self.required_byte_length;
        let allocate = if required > current_byte_length {
            Some(required)
        } else {
            None
        };
        let mut writes: Vec<QueueItem<S>> = Vec::new();
        std::mem::swap(&mut writes, &mut self.items);
        UploadPlan { allocate, writes, new_byte_length: required, old_byte_length: current_byte_length }
    }
}

} // verus!
