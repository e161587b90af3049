//! The plugin bus: a bounded channel for discrete events, handed out in
//! priority order, and a triple buffer that carries the latest audio frame
//! from the audio thread to the render thread.
use vstd::prelude::*;
use vstd::rwlock::{RwLock, RwLockPredicate};
use std::sync::Arc;
use crossbeam::channel::{Receiver, Sender};

use crate::event::{event_priority, BusEvent};

verus! {

broadcast use vstd::seq_lib::group_seq_properties;

/// Capacity of the discrete event channel.
pub const EVENT_CHANNEL_CAPACITY: usize = 4096;

// ---------------------------------------------------------------------------
// Triple buffer protocol
// ---------------------------------------------------------------------------

/// What the reader of a triple buffer can observe: the frame published by the
/// writer and not yet taken (if any), and the frame the reader holds.
pub struct TripleBufferView<F> {
    pub pending: Option<F>,
    pub held: F,
}

/// Three buffers rotate between the writer, the middle and the reader roles.
/// The `shared` byte encodes the middle index (bits 0-1) and a dirty flag
/// (bit 2). Writer and reader each own one index and swap it with the middle,
/// so no two roles ever hold the same buffer.
pub struct TripleBuffer<F> {
    buffers: Vec<F>,
    shared: u8,
    write_idx: usize,
    read_idx: usize,
}

proof fn lemma_shared_bits(x: u8)
    requires
        x < 3,
    ensures
        (x | 4u8) & 3u8 == x,
        (x | 4u8) & 4u8 == 4u8,
        (x | 4u8) < 8,
        x & 3u8 == x,
        x & 4u8 == 0u8,
{
    assert((x | 4u8) & 3u8 == x) by (bit_vector)
        requires
            x < 3,
    ;
    assert((x | 4u8) & 4u8 == 4u8) by (bit_vector);
    assert((x | 4u8) < 8) by (bit_vector)
        requires
            x < 3,
    ;
    assert(x & 3u8 == x) by (bit_vector)
        requires
            x < 3,
    ;
    assert(x & 4u8 == 0u8) by (bit_vector)
        requires
            x < 3,
    ;
}

proof fn lemma_middle_bits(x: u8)
    ensures
        (x & 3u8) <= 3,
        x & 4u8 == 0u8 || x & 4u8 == 4u8,
{
    assert((x & 3u8) <= 3) by (bit_vector);
    assert(x & 4u8 == 0u8 || x & 4u8 == 4u8) by (bit_vector);
}

/// The frame the writer published last, while the reader has not taken it.
pub open spec fn spec_write<F>(v: TripleBufferView<F>, frame: F) -> TripleBufferView<F> {
    TripleBufferView { pending: Some(frame), held: v.held }
}

/// A read takes the pending frame, if there is one, and keeps it.
pub open spec fn spec_read<F>(v: TripleBufferView<F>) -> TripleBufferView<F> {
    match v.pending {
        Some(f) => TripleBufferView { pending: None, held: f },
        None => v,
    }
}

impl<F> TripleBuffer<F> {
    pub closed spec fn middle(&self) -> int {
        (self.shared & 3u8) as int
    }

    pub closed spec fn dirty(&self) -> bool {
        self.shared & 4u8 == 4u8
    }

    /// The writer's buffer index.
    pub closed spec fn writer(&self) -> int {
        self.write_idx as int
    }

    /// The reader's buffer index.
    pub closed spec fn reader(&self) -> int {
        self.read_idx as int
    }

    /// The shared byte: the middle index and the dirty flag.
    pub closed spec fn shared_byte(&self) -> u8 {
        self.shared
    }

    /// The three roles hold three distinct buffers.
    pub closed spec fn wf(&self) -> bool {
        &&& self.buffers@.len() == 3
        &&& self.shared < 8
        &&& self.write_idx < 3
        &&& self.read_idx < 3
        &&& self.middle() < 3
        &&& self.write_idx != self.read_idx
        &&& self.write_idx != self.middle()
        &&& self.read_idx != self.middle()
    }

    pub closed spec fn view(&self) -> TripleBufferView<F> {
        TripleBufferView {
            pending: if self.dirty() {
                Some(self.buffers@[self.middle()])
            } else {
                None
            },
            held: self.buffers@[self.read_idx as int],
        }
    }

    /// In a well-formed triple buffer the writer, the middle and the reader
    /// hold the three buffers 0, 1 and 2, one each, and the shared byte has
    /// no bit set above bit 2: a write and a read never touch the same buffer.
    pub proof fn lemma_roles_distinct(&self)
        requires
            self.wf(),
        ensures
            0 <= self.writer() < 3,
            0 <= self.middle() < 3,
            0 <= self.reader() < 3,
            self.writer() != self.middle(),
            self.writer() != self.reader(),
            self.middle() != self.reader(),
            self.shared_byte() < 8,
            self.middle() == (self.shared_byte() & 3u8) as int,
    {
    }

    /// Three buffers holding `initial`; writer 0, middle 1, reader 2.
    pub fn new(initial: F) -> (tb: Self)
        where F: Copy,
        ensures
            tb.wf(),
            tb.view() == (TripleBufferView { pending: None, held: initial }),
    {
        let mut buffers: Vec<F> = Vec::new();
        buffers.push(initial);
        buffers.push(initial);
        buffers.push(initial);
        proof {
            lemma_shared_bits(1u8);
        }
        TripleBuffer { buffers, shared: 1, write_idx: 0, read_idx: 2 }
    }

    /// Writes `frame` into the writer's buffer, swaps it into the middle and
    /// marks it fresh.
    pub fn write(&mut self, frame: F)
        requires
            old(self).wf(),
        ensures
            final(self).wf(),
            final(self).view() == spec_write(old(self).view(), frame),
    {
        let w = self.write_idx;
        self.buffers.set(w, frame);
        let old_shared = self.shared;
        proof {
            lemma_shared_bits(w as u8);
            lemma_middle_bits(old_shared);
        }
        self.shared = (w as u8) | 4u8;
        self.write_idx = (old_shared & 3u8) as usize;
        assert(self.view().held == old(self).view().held);
    }

    /// If the writer published a frame since the last read, takes it into the
    /// reader's buffer and copies it into `target`; else leaves `target` as it
    /// is.
    pub fn read(&mut self, target: &mut F)
        where F: Copy,
        requires
            old(self).wf(),
        ensures
            final(self).wf(),
            final(self).view() == spec_read(old(self).view()),
            *final(target) == match old(self).view().pending {
                Some(f) => f,
                None => *old(target),
            },
    {
        let shared = self.shared;
        proof {
            lemma_middle_bits(shared);
        }
        if shared & 4u8 == 0u8 {
            return;
        }
        let r = self.read_idx;
        proof {
            lemma_shared_bits(r as u8);
        }
        self.shared = r as u8;
        self.read_idx = (shared & 3u8) as usize;
        *target = self.buffers[self.read_idx];
    }
}

/// The law of the triple buffer: a read hands out the frame of the latest
/// write, whatever was written before it.
pub proof fn triple_buffer_latest_write_wins<F>(v: TripleBufferView<F>, a: F, b: F)
    ensures
        spec_read(spec_write(spec_write(v, a), b)).held == b,
        spec_read(spec_write(v, a)).held == a,
{
}

/// A read with nothing new published changes nothing.
pub proof fn triple_buffer_read_without_write_keeps<F>(v: TripleBufferView<F>)
    ensures
        spec_read(spec_read(v)) == spec_read(v),
        spec_read(v).pending is None,
{
}

/// The lock predicate of the shared triple buffer: its roles stay distinct.
pub struct TripleBufferWf;

impl<F> RwLockPredicate<TripleBuffer<F>> for TripleBufferWf {
    open spec fn inv(self, v: TripleBuffer<F>) -> bool {
        v.wf()
    }
}

/// A triple buffer shared between the audio thread (writer) and the render
/// thread (reader).
pub struct AudioTripleBuffer<F> {
    lock: RwLock<TripleBuffer<F>, TripleBufferWf>,
}

impl<F> AudioTripleBuffer<F> {
    /// Whether the lock admits `v` as the buffer it guards.
    pub closed spec fn admits(&self, v: TripleBuffer<F>) -> bool {
        self.lock.inv(v)
    }

    /// The buffer behind the lock is well formed whenever the lock is free:
    /// every write and read releases it with the three roles distinct.
    pub proof fn lemma_guarded_roles_distinct(&self, v: TripleBuffer<F>)
        requires
            self.admits(v),
        ensures
            v.wf(),
    {
    }
}

impl<F: Copy + Default> AudioTripleBuffer<F> {
    /// A shared buffer whose three slots hold `F::default()`.
    pub fn new() -> (b: Arc<Self>) {
        Arc::new(Self::default())
    }

    /// Called by the audio thread: publishes `frame` as the latest frame.
    pub fn write(&self, frame: &F) {
        let (mut tb, handle) = self.lock.acquire_write();
        tb.write(*frame);
        handle.release_write(tb);
    }

    /// Called by the render thread: copies the latest published frame into
    /// `target` if one was published since the last read; else leaves it.
    pub fn read(&self, target: &mut F) {
        let (mut tb, handle) = self.lock.acquire_write();
        tb.read(target);
        handle.release_write(tb);
    }
}

impl<F: Copy + Default> Default for AudioTripleBuffer<F> {
    /// A buffer whose three slots hold `F::default()`, nothing published.
    fn default() -> Self {
        let tb = TripleBuffer::new(F::default());
        AudioTripleBuffer { lock: RwLock::new(tb, Ghost(TripleBufferWf)) }
    }
}

// ---------------------------------------------------------------------------
// Priority order of discrete events
// ---------------------------------------------------------------------------

/// The events of `s` whose priority is `p`, in their order in `s`.
pub open spec fn with_priority<V>(s: Seq<BusEvent<V>>, p: u8) -> Seq<BusEvent<V>>
    decreases s.len(),
{
    if s.len() == 0 {
        Seq::empty()
    } else {
        let rest = with_priority(s.drop_last(), p);
        if event_priority(s.last()) == p {
            rest.push(s.last())
        } else {
            rest
        }
    }
}

/// The events of `s` with a priority below `p`, grouped by priority in
/// increasing order, each group in its order in `s`.
pub open spec fn below_priority<V>(s: Seq<BusEvent<V>>, p: nat) -> Seq<BusEvent<V>>
    decreases p,
{
    if p == 0 {
        Seq::empty()
    } else {
        below_priority(s, (p - 1) as nat) + with_priority(s, (p - 1) as u8)
    }
}

/// `s` in the order in which the render loop handles it: by priority, and in
/// arrival order among events of equal priority.
pub open spec fn priority_order<V>(s: Seq<BusEvent<V>>) -> Seq<BusEvent<V>> {
    below_priority(s, 4)
}

/// Priorities never decrease along `s`.
pub open spec fn is_priority_sorted<V>(s: Seq<BusEvent<V>>) -> bool {
    forall|i: int, j: int|
        0 <= i <= j < s.len() ==> event_priority(#[trigger] s[i]) <= event_priority(#[trigger] s[j])
}

proof fn lemma_with_priority_all<V>(s: Seq<BusEvent<V>>, p: u8)
    ensures
        forall|i: int|
            0 <= i < with_priority(s, p).len() ==> event_priority(
                #[trigger] with_priority(s, p)[i],
            ) == p,
    decreases s.len(),
{
    if s.len() > 0 {
        let rest = with_priority(s.drop_last(), p);
        lemma_with_priority_all(s.drop_last(), p);
        if event_priority(s.last()) == p {
            assert forall|i: int|
                0 <= i < rest.push(s.last()).len() implies event_priority(
                #[trigger] rest.push(s.last())[i],
            ) == p by {
                if i < rest.len() {
                    assert(rest.push(s.last())[i] == rest[i]);
                }
            }
        }
    }
}

proof fn lemma_below_priority_bound<V>(s: Seq<BusEvent<V>>, p: nat)
    ensures
        forall|i: int|
            0 <= i < below_priority(s, p).len() ==> (event_priority(
                #[trigger] below_priority(s, p)[i],
            ) as nat) < p,
    decreases p,
{
    if p > 0 {
        let q = (p - 1) as nat;
        lemma_below_priority_bound(s, q);
        lemma_with_priority_all(s, q as u8);
        let a = below_priority(s, q);
        let b = with_priority(s, q as u8);
        assert forall|i: int| 0 <= i < (a + b).len() implies (event_priority(
            #[trigger] (a + b)[i],
        ) as nat) < p by {
            if i < a.len() {
                assert((a + b)[i] == a[i]);
            } else {
                assert((a + b)[i] == b[i - a.len()]);
            }
        }
    }
}

proof fn lemma_below_priority_sorted<V>(s: Seq<BusEvent<V>>, p: nat)
    requires
        p <= 256,
    ensures
        is_priority_sorted(below_priority(s, p)),
    decreases p,
{
    if p > 0 {
        let q = (p - 1) as nat;
        lemma_below_priority_sorted(s, q);
        lemma_below_priority_bound(s, q);
        lemma_with_priority_all(s, q as u8);
        let a = below_priority(s, q);
        let b = with_priority(s, q as u8);
        assert forall|i: int, j: int| 0 <= i <= j < (a + b).len() implies event_priority(
            #[trigger] (a + b)[i],
        ) <= event_priority(#[trigger] (a + b)[j]) by {
            if j < a.len() {
                assert((a + b)[i] == a[i]);
                assert((a + b)[j] == a[j]);
            } else if i < a.len() {
                assert((a + b)[i] == a[i]);
                assert((a + b)[j] == b[j - a.len()]);
            } else {
                assert((a + b)[i] == b[i - a.len()]);
                assert((a + b)[j] == b[j - a.len()]);
            }
        }
    }
}

proof fn lemma_with_priority_push<V>(s: Seq<BusEvent<V>>, e: BusEvent<V>, p: u8)
    ensures
        with_priority(s.push(e), p) == if event_priority(e) == p {
            with_priority(s, p).push(e)
        } else {
            with_priority(s, p)
        },
{
    assert(s.push(e).drop_last() =~= s);
}

proof fn lemma_below_priority_multiset<V>(s: Seq<BusEvent<V>>, p: nat)
    requires
        p <= 256,
    ensures
        below_priority(s, p).to_multiset() =~= s.to_multiset().filter(
            |e: BusEvent<V>| (event_priority(e) as nat) < p,
        ),
    decreases s.len(), p,
{
    broadcast use vstd::multiset::group_multiset_axioms;
    broadcast use vstd::seq_lib::lemma_multiset_commutative;

    if s.len() == 0 {
        lemma_below_priority_empty(s, p);
    } else {
        let t = s.drop_last();
        let e = s.last();
        assert(t.push(e) =~= s);
        lemma_below_priority_multiset(t, p);
        lemma_below_priority_push_multiset(t, e, p);
    }
}

proof fn lemma_below_priority_empty<V>(s: Seq<BusEvent<V>>, p: nat)
    requires
        s.len() == 0,
    ensures
        below_priority(s, p).len() == 0,
        below_priority(s, p).to_multiset() =~= s.to_multiset().filter(
            |e: BusEvent<V>| (event_priority(e) as nat) < p,
        ),
    decreases p,
{
    broadcast use vstd::multiset::group_multiset_axioms;

    if p > 0 {
        lemma_below_priority_empty(s, (p - 1) as nat);
        assert(with_priority(s, (p - 1) as u8).len() == 0);
        assert(below_priority(s, p) =~= Seq::empty());
    } else {
        assert(below_priority(s, p) =~= Seq::empty());
    }
}

proof fn lemma_below_priority_push_multiset<V>(t: Seq<BusEvent<V>>, e: BusEvent<V>, p: nat)
    requires
        p <= 256,
    ensures
        below_priority(t.push(e), p).to_multiset() =~= if (event_priority(e) as nat) < p {
            below_priority(t, p).to_multiset().insert(e)
        } else {
            below_priority(t, p).to_multiset()
        },
    decreases p,
{
    broadcast use vstd::multiset::group_multiset_axioms;
    broadcast use vstd::seq_lib::lemma_multiset_commutative;

    if p > 0 {
        let q = (p - 1) as nat;
        lemma_below_priority_push_multiset(t, e, q);
        lemma_with_priority_push(t, e, q as u8);
        let a = below_priority(t.push(e), q);
        let b = with_priority(t.push(e), q as u8);
        assert((a + b).to_multiset() =~= a.to_multiset().add(b.to_multiset()));
        let a0 = below_priority(t, q);
        let b0 = with_priority(t, q as u8);
        assert((a0 + b0).to_multiset() =~= a0.to_multiset().add(b0.to_multiset()));
        if event_priority(e) as nat == q {
            assert(b.to_multiset() =~= b0.to_multiset().insert(e));
        }
    }
}

/// The priority order holds every event of `s` exactly as often as `s` does.
pub proof fn priority_order_is_permutation<V>(s: Seq<BusEvent<V>>)
    ensures
        priority_order(s).to_multiset() =~= s.to_multiset(),
{
    broadcast use vstd::multiset::group_multiset_axioms;

    lemma_below_priority_multiset(s, 4);
    assert forall|e: BusEvent<V>| #[trigger] s.to_multiset().count(e) > 0 implies (event_priority(e) as nat) < 4 by {
    }
    assert(s.to_multiset().filter(|e: BusEvent<V>| (event_priority(e) as nat) < 4) =~= s.to_multiset());
}

/// The priority order is sorted by priority.
pub proof fn priority_order_is_sorted<V>(s: Seq<BusEvent<V>>)
    ensures
        is_priority_sorted(priority_order(s)),
{
    lemma_below_priority_sorted(s, 4);
}

/// Among events of equal priority, the priority order keeps arrival order:
/// the events of priority `p` in it are those of `s`, in the same order.
pub proof fn priority_order_is_stable<V>(s: Seq<BusEvent<V>>, p: u8)
    requires
        p <= 3,
    ensures
        with_priority(priority_order(s), p) == with_priority(s, p),
{
    lemma_with_priority_of_below(s, 4, p);
}

proof fn lemma_with_priority_concat<V>(a: Seq<BusEvent<V>>, b: Seq<BusEvent<V>>, p: u8)
    ensures
        with_priority(a + b, p) == with_priority(a, p) + with_priority(b, p),
    decreases b.len(),
{
    if b.len() == 0 {
        assert(a + b =~= a);
        assert(with_priority(a, p) + with_priority(b, p) =~= with_priority(a, p));
    } else {
        let b0 = b.drop_last();
        lemma_with_priority_concat(a, b0, p);
        assert((a + b).drop_last() =~= a + b0);
        assert((a + b).last() == b.last());
        if event_priority(b.last()) == p {
            assert(with_priority(a, p) + with_priority(b, p) =~= (with_priority(a, p)
                + with_priority(b0, p)).push(b.last()));
        }
    }
}

proof fn lemma_with_priority_idem<V>(s: Seq<BusEvent<V>>, q: u8, p: u8)
    ensures
        with_priority(with_priority(s, q), p) == if q == p {
            with_priority(s, p)
        } else {
            Seq::<BusEvent<V>>::empty()
        },
    decreases s.len(),
{
    if s.len() == 0 {
        assert(with_priority(with_priority(s, q), p) =~= Seq::<BusEvent<V>>::empty());
    } else {
        let t = s.drop_last();
        lemma_with_priority_idem(t, q, p);
        if event_priority(s.last()) == q {
            lemma_with_priority_push(with_priority(t, q), s.last(), p);
        }
    }
}

proof fn lemma_with_priority_of_below<V>(s: Seq<BusEvent<V>>, n: nat, p: u8)
    requires
        n <= 256,
    ensures
        with_priority(below_priority(s, n), p) == if (p as nat) < n {
            with_priority(s, p)
        } else {
            Seq::<BusEvent<V>>::empty()
        },
    decreases n,
{
    if n == 0 {
        assert(with_priority(below_priority(s, n), p) =~= Seq::<BusEvent<V>>::empty());
    } else {
        let q = (n - 1) as nat;
        lemma_with_priority_of_below(s, q, p);
        lemma_with_priority_concat(below_priority(s, q), with_priority(s, q as u8), p);
        lemma_with_priority_idem(s, q as u8, p);
        if (p as nat) < q {
            assert(with_priority(s, p) + Seq::<BusEvent<V>>::empty() =~= with_priority(s, p));
        } else if p as nat == q {
            assert(Seq::<BusEvent<V>>::empty() + with_priority(s, p) =~= with_priority(s, p));
        } else {
            assert(Seq::<BusEvent<V>>::empty() + Seq::<BusEvent<V>>::empty() =~= Seq::<BusEvent<V>>::empty());
        }
    }
}

/// Clears `buf` and fills it with `events` in priority order, keeping
/// arrival order among events of equal priority. `buf` keeps its allocation.
pub fn fill_in_priority_order<V: Copy>(events: &Vec<BusEvent<V>>, buf: &mut Vec<BusEvent<V>>)
    ensures
        final(buf)@ == priority_order(events@),
{
    buf.clear();
    let n = events.len();
    let mut p: u8 = 0;
    while p < 4
        invariant
            p <= 4,
            n == events@.len(),
            buf@ == below_priority(events@, p as nat),
        decreases 4 - p,
    {
        let mut i: usize = 0;
        while i < n
            invariant
                p < 4,
                i <= n,
                n == events@.len(),
                buf@ == below_priority(events@, p as nat) + with_priority(
                    events@.take(i as int),
                    p,
                ),
            decreases n - i,
        {
            let e = events[i];
            proof {
                assert(events@.take(i + 1) =~= events@.take(i as int).push(e));
                lemma_with_priority_push(events@.take(i as int), e, p);
            }
            if e.priority() == p {
                buf.push(e);
            }
            i = i + 1;
        }
        assert(events@.take(n as int) =~= events@);
        p = p + 1;
    }
}

// ---------------------------------------------------------------------------
// The bus
// ---------------------------------------------------------------------------

#[verifier::external_type_specification]
#[verifier::external_body]
#[verifier::reject_recursive_types(T)]
pub struct ExSender<T>(Sender<T>);

#[verifier::external_type_specification]
#[verifier::external_body]
#[verifier::reject_recursive_types(T)]
pub struct ExReceiver<T>(Receiver<T>);

/// `crossbeam::channel::bounded`: a channel that holds at most `cap`
/// messages. Nothing is stated of the pair: what the channel holds later
/// depends on the threads that use it. A huge `cap` overflows the channel's
/// index arithmetic (a panic) or exhausts memory, so `cap` is kept to the
/// bus's own capacity.
#[verifier::external_body]
fn channel_bounded<T>(cap: usize) -> (Sender<T>, Receiver<T>)
    requires
        cap <= EVENT_CHANNEL_CAPACITY,
{
    crossbeam::channel::bounded(cap)
}

/// `Sender::clone` of crossbeam: another handle on the same channel. The
/// clone counts one more sender in the channel's shared counter and holds the
/// same flavor and the same pointer to that counter as `sender`, so it equals
/// `sender`.
#[verifier::external_body]
fn sender_clone<T>(sender: &Sender<T>) -> (r: Sender<T>)
    ensures
        r == *sender,
{
    sender.clone()
}

/// `Receiver::try_iter` of crossbeam, collected: every message that the
/// channel yields without blocking, in the order received. What that is
/// depends on other threads, so nothing is stated of it.
#[verifier::external_body]
fn take_pending<T>(receiver: &Receiver<T>) -> Vec<T> {
    receiver.try_iter().collect()
}

/// `Sender::try_send` of crossbeam: sends `msg` unless the channel is full or
/// disconnected; returns whether it was sent. That depends on other threads,
/// so nothing is stated of it.
#[verifier::external_body]
pub(crate) fn try_send<T>(sender: &Sender<T>, msg: T) -> bool {
    sender.try_send(msg).is_ok()
}

/// `Arc::clone` of std: another pointer to the same value.
#[verifier::external_body]
fn arc_clone<T>(arc: &Arc<T>) -> (r: Arc<T>)
    ensures
        r == *arc,
{
    Arc::clone(arc)
}

/// Plugin bus: a bounded channel for discrete events and a triple buffer for
/// continuous audio data.
#[verifier::reject_recursive_types(V)]
pub struct PluginBus<V, F> {
    event_sender: Sender<BusEvent<V>>,
    event_receiver: Receiver<BusEvent<V>>,
    audio_buffer: Arc<AudioTripleBuffer<F>>,
}

impl<V, F> PluginBus<V, F> {
    /// The audio buffer that the bus shares with the audio thread.
    pub closed spec fn shared_audio(&self) -> Arc<AudioTripleBuffer<F>> {
        self.audio_buffer
    }

    /// The sending handle of the bus's event channel.
    pub closed spec fn channel_sender(&self) -> Sender<BusEvent<V>> {
        self.event_sender
    }
}

impl<V: Copy, F: Copy + Default> PluginBus<V, F> {
    pub fn new() -> Self {
        let (event_sender, event_receiver) = channel_bounded(EVENT_CHANNEL_CAPACITY);
        PluginBus { event_sender, event_receiver, audio_buffer: AudioTripleBuffer::new() }
    }

    /// A sender for plugins and I/O handlers: a handle on the bus's own event
    /// channel, whose events `drain_events` hands out.
    pub fn event_sender(&self) -> (s: Sender<BusEvent<V>>)
        ensures
            s == self.channel_sender(),
    {
        sender_clone(&self.event_sender)
    }

    /// The shared audio buffer, for the audio thread to write into.
    pub fn audio_buffer(&self) -> (b: Arc<AudioTripleBuffer<F>>)
        ensures
            b == self.shared_audio(),
    {
        arc_clone(&self.audio_buffer)
    }

    /// Replaces the contents of `buf` with the events that were waiting, in
    /// priority order (arrival order among equal priorities). `buf` keeps its
    /// allocation.
    pub fn drain_events(&self, buf: &mut Vec<BusEvent<V>>)
        ensures
            exists|received: Seq<BusEvent<V>>| final(buf)@ == priority_order(received),
            is_priority_sorted(final(buf)@),
    {
        let pending = take_pending(&self.event_receiver);
        fill_in_priority_order(&pending, buf);
        proof {
            priority_order_is_sorted(pending@);
        }
    }

    /// Copies the latest audio frame into `target`, if a new one was written.
    pub fn read_audio(&self, target: &mut F) {
        self.audio_buffer.read(target);
    }
}

impl<V: Copy, F: Copy + Default> Default for PluginBus<V, F> {
    fn default() -> Self {
        Self::new()
    }
}

} // verus!
