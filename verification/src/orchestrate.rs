//! The streaming load orchestrator's decisions, and the bounded channel
//! that bridges the blocking decode domain and the orchestration domain.
//!
//! The channel model carries ownership of each decoded batch in first-in,
//! first-out order and holds at most its capacity; a full channel suspends
//! the producer, which is the backpressure that throttles network reads to
//! the database's ingestion speed. `run_pipeline` plays both domains
//! against each other deterministically — the consumer drains only while
//! the producer is suspended — and shows that every item is delivered, in
//! decode order, and that the first suspension happens exactly when one
//! more item than the capacity has been decoded.

use vstd::prelude::*;
use crate::batch::Batch;
use crate::convert::decimals_in_range;
use crate::convert::first_unsupported;
use crate::convert::get_token_rows;
use crate::convert::is_converted_rows;
use crate::convert::kind_name_spec;
use crate::error::LakeApi2SqlError;
use crate::types::ColumnType;
use crate::types::TokenRow;

verus! {

/// How many decoded batches may be in flight between the domains.
pub const CHANNEL_CAPACITY: usize = 2;

/// A bounded, ordered, single-producer single-consumer channel model.
pub struct BoundedQueue<T> {
    capacity: usize,
    items: Vec<T>,
}

impl<T> View for BoundedQueue<T> {
    type V = Seq<T>;

    closed spec fn view(&self) -> Seq<T> {
        self.items@
    }
}

impl<T> BoundedQueue<T> {
    /// The bound the queue was created with.
    pub closed spec fn capacity(self) -> nat {
        self.capacity as nat
    }

    /// The queue never holds more than its capacity.
    pub closed spec fn inv(self) -> bool {
        self.items@.len() <= self.capacity
    }

    /// An empty queue with the given bound.
    pub fn new(capacity: usize) -> (q: BoundedQueue<T>)
        ensures
            q.inv(),
            q@ == Seq::<T>::empty(),
            q.capacity() == capacity,
    {
        let q = BoundedQueue { capacity, items: Vec::new() };
        proof {
            assert(q@ =~= Seq::<T>::empty());
        }
        q
    }

    /// The number of items waiting.
    pub fn len(&self) -> (n: usize)
        ensures
            n == self@.len(),
    {
        self.items.len()
    }

    /// Appends `x` if there is room; hands it back if the queue is full, in
    /// which case a real producer suspends.
    pub fn try_send(&mut self, x: T) -> (r: Result<(), T>)
        requires
            old(self).inv(),
        ensures
            final(self).inv(),
            final(self).capacity() == old(self).capacity(),
            match r {
                Ok(()) => old(self)@.len() < old(self).capacity() && final(self)@ == old(
                    self,
                )@.push(x),
                Err(y) => old(self)@.len() == old(self).capacity() && final(self)@ == old(self)@
                    && y == x,
            },
    {
        if self.items.len() < self.capacity {
            self.items.push(x);
            Ok(())
        } else {
            Err(x)
        }
    }

    /// Removes and returns the oldest item, if any.
    pub fn try_recv(&mut self) -> (r: Option<T>)
        requires
            old(self).inv(),
        ensures
            final(self).inv(),
            final(self).capacity() == old(self).capacity(),
            match r {
                Some(x) => old(self)@.len() > 0 && x == old(self)@[0] && final(self)@ == old(
                    self,
                )@.drop_first(),
                None => old(self)@.len() == 0 && final(self)@ == old(self)@,
            },
    {
        if self.items.len() > 0 {
            let x = self.items.remove(0);
            proof {
                assert(self.items@ =~= old(self).items@.drop_first());
            }
            Some(x)
        } else {
            None
        }
    }
}

/// Appending one more source item to the in-flight tail extends the
/// delivered-plus-queued prefix by exactly that item.
proof fn lemma_prefix_extends<T>(a: Seq<T>, b: Seq<T>, s: Seq<T>, n: int, x: T)
    requires
        a + b == s.subrange(0, n),
        0 <= n < s.len(),
        x == s[n],
    ensures
        a + b.push(x) == s.subrange(0, n + 1),
{
    assert(a + b.push(x) =~= (a + b).push(x));
    assert((s.subrange(0, n)).push(x) =~= s.subrange(0, n + 1));
}

/// Moving the oldest queued item to the delivered side leaves the combined
/// prefix unchanged.
proof fn lemma_prefix_rotates<T>(a: Seq<T>, b: Seq<T>)
    requires
        b.len() > 0,
    ensures
        a.push(b[0]) + b.drop_first() == a + b,
{
    assert(a.push(b[0]) + b.drop_first() =~= a + b);
}

/// Feeds every item of `source`, in order, through a bounded channel from a
/// producer to a consumer that drains only while the producer is suspended
/// on a full channel, then drains the rest.
///
/// Delivery is complete and in decode order, and the producer first
/// suspends — if it ever does — exactly when it has decoded one item more
/// than the channel holds: with capacity `c`, after `c` items are queued
/// and item `c` (counting from zero) is ready to send.
pub fn run_pipeline<T>(source: Vec<T>, capacity: usize) -> (r: (Vec<T>, Option<usize>))
    requires
        capacity >= 1,
    ensures
        r.0@ == source@,
        match r.1 {
            Some(i) => source@.len() > capacity && i == capacity,
            None => source@.len() <= capacity,
        },
{
    let ghost src0: Seq<T> = source@;
    let total: usize = source.len();
    proof {
        assert(src0.len() == total);
    }
    let mut source = source;
    let mut q: BoundedQueue<T> = BoundedQueue::new(capacity);
    let mut delivered: Vec<T> = Vec::new();
    let mut first_stall: Option<usize> = None;
    let mut sent: usize = 0;
    while source.len() > 0
        invariant
            q.inv(),
            q.capacity() == capacity,
            capacity >= 1,
            src0.len() == total,
            sent <= src0.len(),
            source@ == src0.subrange(sent as int, src0.len() as int),
            delivered@ + q@ =~= src0.subrange(0, sent as int),
            q@.len() <= sent,
            match first_stall {
                Some(i) => src0.len() > capacity && i == capacity,
                None => delivered@.len() == 0 && sent <= capacity,
            },
        decreases source@.len(),
    {
        let item = source.remove(0);
        proof {
            assert(item == src0[sent as int]);
            assert(sent < src0.len());
        }
        let ghost q0: Seq<T> = q@;
        let ghost d0: Seq<T> = delivered@;
        match q.try_send(item) {
            Ok(()) => {
                proof {
                    assert(d0 + q0 == src0.subrange(0, sent as int));
                    lemma_prefix_extends(d0, q0, src0, sent as int, src0[sent as int]);
                    assert(delivered@ + q@ == src0.subrange(0, sent + 1));
                }
            },
            Err(back) => {
                // The channel is full: the producer suspends here until the
                // consumer has drained one batch, then hands the same item in.
                if first_stall.is_none() {
                    first_stall = Some(sent);
                    proof {
                        assert(d0.len() == 0);
                        assert(q0.len() == capacity);
                        assert((d0 + q0).len() == sent);
                        assert(sent == capacity);
                    }
                }
                match q.try_recv() {
                    Some(got) => {
                        delivered.push(got);
                        proof {
                            assert(d0 + q0 == src0.subrange(0, sent as int));
                            lemma_prefix_rotates(d0, q0);
                            assert(delivered@ + q@ == src0.subrange(0, sent as int));
                        }
                    },
                    None => {
                        proof {
                            assert(false);
                        }
                    },
                }
                let ghost d1: Seq<T> = delivered@;
                let ghost q1: Seq<T> = q@;
                match q.try_send(back) {
                    Ok(()) => {
                        proof {
                            assert(d1 + q1 == src0.subrange(0, sent as int));
                            lemma_prefix_extends(d1, q1, src0, sent as int, src0[sent as int]);
                            assert(delivered@ + q@ == src0.subrange(0, sent + 1));
                        }
                    },
                    Err(_) => {
                        proof {
                            assert(false);
                        }
                    },
                }
            },
        }
        sent = sent + 1;
        proof {
            assert(source@ =~= src0.subrange(sent as int, src0.len() as int));
        }
    }
    loop
        invariant
            q.inv(),
            src0.len() == total,
            sent == src0.len(),
            delivered@ + q@ =~= src0,
            match first_stall {
                Some(i) => src0.len() > capacity && i == capacity,
                None => sent <= capacity,
            },
        ensures
            delivered@ =~= src0,
            match first_stall {
                Some(i) => src0.len() > capacity && i == capacity,
                None => src0.len() <= capacity,
            },
        decreases q@.len(),
    {
        match q.try_recv() {
            Some(got) => {
                delivered.push(got);
                proof {
                    assert(delivered@ + q@ =~= src0);
                }
            },
            None => {
                proof {
                    assert(delivered@ =~= delivered@ + q@);
                }
                break ;
            },
        }
    }
    (delivered, first_stall)
}

/// How far the load has progressed: what the aggregate result reports.
pub struct LoadProgress {
    pub batches_loaded: u64,
    pub batches_skipped: u64,
    pub rows_sent: u64,
}

/// One occurrence the orchestration domain reacts to.
pub enum LoadEvent {
    /// The decode domain delivered one batch through the channel.
    BatchDecoded(Batch),
    /// One batch failed to parse; the stream itself goes on.
    BatchCorrupt(String),
    /// The stream ended and the channel is drained.
    StreamEnded,
}

/// What the orchestration domain must do next.
pub enum LoadAction {
    /// Open one bulk-load session against the destination table under an
    /// exclusive table lock, send these rows in order into it, and
    /// finalize the session before handling the next event.
    Transmit(Vec<TokenRow>),
    /// Log the corrupt batch and go on with the stream.
    Skip,
    /// Await the decode worker's own outcome and return the resolved
    /// schema.
    Finish,
    /// Abort the whole load with this error; the open session, if any, is
    /// left uncommitted.
    Abort(LakeApi2SqlError),
}

/// Decides the orchestration domain's next action for one event.
///
/// A decoded batch is converted against the resolved column list: in full
/// success its rows are transmitted, one session per batch, and the
/// counters advance; a conversion failure aborts the whole load with the
/// error that names both types. A corrupt batch is skipped, never fatal.
/// The end of the stream finishes the load.
pub fn load_step(
    progress: &mut LoadProgress,
    collist: &Vec<(String, ColumnType)>,
    event: LoadEvent,
) -> (a: LoadAction)
    requires
        event matches LoadEvent::BatchDecoded(b) ==> b.wf() && decimals_in_range(b, collist@)
            && b.num_rows <= u64::MAX - old(progress).rows_sent,
        old(progress).batches_loaded < u64::MAX,
        old(progress).batches_skipped < u64::MAX,
    ensures
        event matches LoadEvent::BatchDecoded(b) ==> match first_unsupported(b, collist@) {
            None => {
                &&& a matches LoadAction::Transmit(rows) && is_converted_rows(b, collist@, rows@)
                &&& final(progress).batches_loaded == old(progress).batches_loaded + 1
                &&& final(progress).rows_sent == old(progress).rows_sent + b.num_rows
                &&& final(progress).batches_skipped == old(progress).batches_skipped
            },
            Some(j) => {
                &&& a matches LoadAction::Abort(e) && {
                    let ci = b.index_of(collist@[j].0@)->Some_0;
                    e matches LakeApi2SqlError::NotSupported { dtype, column_type }
                        && dtype@ == kind_name_spec(b.columns[ci].data) && column_type
                        == collist@[j].1
                }
                &&& *final(progress) == *old(progress)
            },
        },
        event matches LoadEvent::BatchCorrupt(m) ==> a is Skip && final(progress).batches_skipped
            == old(progress).batches_skipped + 1 && final(progress).batches_loaded == old(
            progress,
        ).batches_loaded && final(progress).rows_sent == old(progress).rows_sent,
        event is StreamEnded ==> a is Finish && *final(progress) == *old(progress),
{
    match event {
        LoadEvent::BatchDecoded(b) => {
            match get_token_rows(&b, collist) {
                Ok(rows) => {
                    progress.batches_loaded = progress.batches_loaded + 1;
                    progress.rows_sent = progress.rows_sent + b.num_rows as u64;
                    LoadAction::Transmit(rows)
                },
                Err(e) => LoadAction::Abort(e),
            }
        },
        LoadEvent::BatchCorrupt(_) => {
            progress.batches_skipped = progress.batches_skipped + 1;
            LoadAction::Skip
        },
        LoadEvent::StreamEnded => LoadAction::Finish,
    }
}

} // verus!
