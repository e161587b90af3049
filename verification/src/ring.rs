//! Fixed-size ring buffers of audio samples: pushes overwrite the oldest
//! samples, reads copy out the most recent ones, oldest first.
use vstd::prelude::*;
use vstd::rwlock::{RwLock, RwLockPredicate};
use std::sync::Arc;

verus! {

/// The position `k` places after `base` in a ring of `len` slots.
pub open spec fn ring_index(base: int, k: int, len: int) -> int {
    if base + k < len {
        base + k
    } else {
        base + k - len
    }
}

/// The last `n` elements of `s` (all of `s` if it is shorter).
pub open spec fn last_n<T>(s: Seq<T>, n: nat) -> Seq<T> {
    if s.len() <= n {
        s
    } else {
        s.skip(s.len() - n)
    }
}

/// The law of the ring buffer: after pushing at least `n` samples, a read of
/// `n <= capacity` samples gives the last `n` pushed, oldest first.
pub proof fn ring_reads_latest_pushed<T>(held: Seq<T>, pushed: Seq<T>, n: nat)
    requires
        n <= held.len(),
        n <= pushed.len(),
    ensures
        last_n(held + pushed, held.len()).skip(held.len() - n) == pushed.skip(pushed.len() - n),
{
    let all = held + pushed;
    let cap = held.len();
    let kept = last_n(all, cap);
    assert(kept.len() == cap);
    assert forall|i: int| 0 <= i < n implies #[trigger] kept.skip(cap - n)[i] == pushed.skip(
        pushed.len() - n,
    )[i] by {
        assert(kept.skip(cap - n)[i] == kept[cap - n + i]);
        if all.len() > cap {
            assert(kept[cap - n + i] == all[all.len() - cap + cap - n + i]);
        }
        assert(all[all.len() - n + i] == pushed[pushed.len() - n + i]);
    }
    assert(kept.skip(cap - n) =~= pushed.skip(pushed.len() - n));
}

/// The capacity of the capture ring for a stream of `sample_rate` samples per
/// second: about 200 ms of audio, and never less than 8192 samples.
pub open spec fn spec_ring_capacity(sample_rate: u32) -> nat {
    let fifth = (sample_rate / 5) as nat;
    if fifth > 8192 {
        fifth
    } else {
        8192
    }
}

pub fn ring_capacity(sample_rate: u32) -> (n: usize)
    ensures
        n == spec_ring_capacity(sample_rate),
        n >= 8192,
{
    let fifth = (sample_rate / 5) as usize;
    if fifth > 8192 {
        fifth
    } else {
        8192
    }
}

/// A fixed-size single-threaded ring buffer.
pub struct RingBuffer<T> {
    data: Vec<T>,
    write_pos: usize,
    len: usize,
}

impl<T> RingBuffer<T> {
    pub closed spec fn wf(&self) -> bool {
        &&& self.data@.len() == self.len
        &&& (self.len > 0 ==> self.write_pos < self.len)
        &&& (self.len == 0 ==> self.write_pos == 0)
    }

    /// The number of samples the buffer holds.
    pub closed spec fn capacity(&self) -> nat {
        self.len as nat
    }

    /// The held samples, oldest first.
    pub closed spec fn view(&self) -> Seq<T> {
        Seq::new(
            self.len as nat,
            |k: int| self.data@[ring_index(self.write_pos as int, k, self.len as int)],
        )
    }

    /// A buffer of `capacity` samples, each what `T::default()` gives.
    pub fn new(capacity: usize) -> (rb: Self)
        where T: Copy + Default,
        ensures
            rb.wf(),
            rb.capacity() == capacity,
            rb.view().len() == capacity,
            forall|i: int, j: int|
                0 <= i < capacity && 0 <= j < capacity ==> rb.view()[i] == rb.view()[j],
            forall|i: int| 0 <= i < capacity ==> call_ensures(T::default, (), #[trigger] rb.view()[i]),
    {
        let fill = T::default();
        let mut data: Vec<T> = Vec::new();
        let mut i: usize = 0;
        while i < capacity
            invariant
                i <= capacity,
                data@.len() == i,
                forall|k: int| 0 <= k < i ==> data@[k] == fill,
            decreases capacity - i,
        {
            data.push(fill);
            i = i + 1;
        }
        RingBuffer { data, write_pos: 0, len: capacity }
    }

    /// push samples, overwriting oldest data.
    pub fn push(&mut self, samples: &[T])
        where T: Copy,
        requires
            old(self).wf(),
            old(self).capacity() > 0 || samples@.len() == 0,
        ensures
            final(self).wf(),
            final(self).capacity() == old(self).capacity(),
            final(self).view() == last_n(old(self).view() + samples@, old(self).capacity()),
    {
        let n = samples.len();
        let ghost v0 = self.view();
        let mut i: usize = 0;
        while i < n
            invariant
                self.wf(),
                self.len == old(self).len,
                n == samples@.len(),
                i <= n,
                self.len > 0 || n == 0,
                self.view() == (v0 + samples@.take(i as int)).skip(i as int),
            decreases n - i,
        {
            let ghost before = self.view();
            let s = samples[i];
            let wp = self.write_pos;
            self.data.set(wp, s);
            if wp + 1 < self.len {
                self.write_pos = wp + 1;
            } else {
                self.write_pos = 0;
            }
            proof {
                let len = self.len as int;
                assert(self.view() =~= before.drop_first().push(s)) by {
                    assert forall|k: int| 0 <= k < len implies #[trigger] self.view()[k] == before.drop_first().push(s)[k] by {
                        if k < len - 1 {
                            assert(before.drop_first()[k] == before[k + 1]);
                        }
                    }
                }
                assert((v0 + samples@.take(i + 1)).skip(i + 1) =~= ((v0 + samples@.take(i as int)).skip(
                    i as int,
                )).drop_first().push(s));
            }
            i = i + 1;
        }
        proof {
            assert(samples@.take(n as int) =~= samples@);
            let cap = self.len as nat;
            let all = v0 + samples@;
            if all.len() <= cap {
                assert(n == 0);
                assert(all.skip(0) =~= all);
            }
        }
    }

    /// read the last `out.len()` samples oldest-first into `out`.
    /// returns the number of samples actually written.
    pub fn read_last_into(&self, out: &mut [T]) -> (count: usize)
        where T: Copy,
        requires
            self.wf(),
            self.capacity() > 0,
        ensures
            count == (if old(out)@.len() < self.capacity() { old(out)@.len() as int } else { self.capacity() as int }),
            final(out)@.len() == old(out)@.len(),
            final(out)@.take(count as int) == self.view().skip(self.capacity() - count),
            final(out)@.skip(count as int) == old(out)@.skip(count as int),
    {
        let len = self.len;
        let count = if out.len() < len { out.len() } else { len };
        let wp = self.write_pos;
        let start = if wp >= count { wp - count } else { wp + (len - count) };
        let mut i: usize = 0;
        while i < count
            invariant
                self.wf(),
                len == self.len,
                len > 0,
                count <= len,
                count <= out@.len(),
                out@.len() == old(out)@.len(),
                wp == self.write_pos,
                start == ring_index(wp as int, len - count, len as int),
                i <= count,
                forall|k: int| 0 <= k < i ==> out@[k] == self.view()[len - count + k],
                forall|k: int| count <= k < out@.len() ==> out@[k] == old(out)@[k],
            decreases count - i,
        {
            let idx = if i < len - start { start + i } else { i - (len - start) };
            assert(idx == ring_index(wp as int, len - count + i, len as int));
            out[i] = self.data[idx];
            i = i + 1;
        }
        assert(out@.take(count as int) =~= self.view().skip(len - count));
        assert(out@.skip(count as int) =~= old(out)@.skip(count as int));
        count
    }
}

/// The lock predicate of the shared ring: it is well formed and holds
/// `capacity` samples; a ring of no samples never has new data.
pub struct SpscRingWf {
    pub capacity: usize,
}

/// The state behind the shared ring's lock.
pub struct SpscState<T> {
    pub ring: RingBuffer<T>,
    pub has_new_data: bool,
}

impl<T> RwLockPredicate<SpscState<T>> for SpscRingWf {
    open spec fn inv(self, v: SpscState<T>) -> bool {
        &&& v.ring.wf()
        &&& v.ring.capacity() == self.capacity
        &&& (self.capacity == 0 ==> !v.has_new_data)
    }
}

/// A ring buffer that passes audio samples from the capture callback to the
/// processing thread.
pub struct SpscRingBuffer<T> {
    lock: RwLock<SpscState<T>, SpscRingWf>,
    capacity: usize,
}

impl<T> SpscRingBuffer<T> {
    /// The number of samples the ring holds.
    pub closed spec fn spec_capacity(&self) -> nat {
        self.capacity as nat
    }

    /// The ring behind the lock holds `capacity` samples.
    #[verifier::type_invariant]
    spec fn capacity_matches(&self) -> bool {
        self.lock.pred() == (SpscRingWf { capacity: self.capacity })
    }
}

impl<T: Copy + Default> SpscRingBuffer<T> {
    /// A shared ring of `capacity` samples.
    pub fn new(capacity: usize) -> (r: Arc<Self>)
        ensures
            r.spec_capacity() == capacity,
    {
        let ring = RingBuffer::new(capacity);
        Arc::new(
            SpscRingBuffer {
                lock: RwLock::new(
                    SpscState { ring, has_new_data: false },
                    Ghost(SpscRingWf { capacity }),
                ),
                capacity,
            },
        )
    }

    /// push samples, called from the capture callback; marks new data. A ring
    /// of no samples takes no pushes: a read after one would have nowhere to
    /// read from.
    pub fn push(&self, samples: &[T])
        requires
            self.spec_capacity() > 0,
    {
        proof {
            use_type_invariant(self);
        }
        let (mut state, handle) = self.lock.acquire_write();
        state.ring.push(samples);
        state.has_new_data = true;
        handle.release_write(state);
    }

    /// read the last `out.len()` samples oldest-first into `out`, if new data
    /// arrived since the last read; returns whether it did. Without new data
    /// `out` is left as it is; with it, only its first `capacity` slots are
    /// written. A ring of no samples never has new data.
    pub fn read_last_into(&self, out: &mut [T]) -> (had_new: bool)
        ensures
            self.spec_capacity() == 0 ==> !had_new,
            final(out)@.len() == old(out)@.len(),
            !had_new ==> final(out)@ == old(out)@,
            forall|i: int|
                self.spec_capacity() <= i < old(out)@.len() ==> #[trigger] final(out)@[i] == old(out)@[i],
    {
        proof {
            use_type_invariant(self);
        }
        let (mut state, handle) = self.lock.acquire_write();
        let had_new = state.has_new_data;
        if had_new {
            let count = state.ring.read_last_into(out);
            proof {
                assert forall|i: int| self.spec_capacity() <= i < old(out)@.len() implies out@[i] == old(out)@[i] by {
                    assert(out@[i] == out@.skip(count as int)[i - count]);
                    assert(old(out)@[i] == old(out)@.skip(count as int)[i - count]);
                }
            }
            state.has_new_data = false;
        }
        handle.release_write(state);
        had_new
    }

    /// The number of samples the ring holds.
    pub fn capacity(&self) -> (n: usize)
        ensures
            n == self.spec_capacity(),
    {
        self.capacity
    }
}

} // verus!
