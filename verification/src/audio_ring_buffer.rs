//! Ring buffer of audio samples between a decoder and an audio callback.
//!
//! One producer appends, one consumer reads. Only the producer moves the write
//! position and only the consumer moves the read position. A write that runs
//! past the capacity overwrites the oldest samples; the consumer notices that
//! it was lapped and continues with the oldest sample that is still held.
//!
//! A sample is held as the bit pattern of its 32-bit float.

use crate::wrapping::lemma_wraps_on;
use vstd::arithmetic::div_mod::{
    lemma_fundamental_div_mod, lemma_fundamental_div_mod_converse, lemma_mod_bound,
    lemma_mod_multiples_vanish, lemma_small_mod,
};
use vstd::arithmetic::power2::{
    lemma2_to64, lemma2_to64_rest, lemma_pow2_adds, lemma_pow2_pos, lemma_pow2_strictly_increases,
    lemma_pow2_unfold, pow2,
};
use vstd::prelude::*;

verus! {

/// Capacity and prefill threshold of a ring buffer, in interleaved samples.
#[derive(Debug, Clone, Copy, PartialEq, Eq, Structural)]
pub struct RingBufferConfig {
    pub capacity_samples: usize,
    /// Samples that must be buffered before the first one is handed out.
    pub prefill_samples: usize,
}

impl RingBufferConfig {
    /// Half a second of capacity and a twentieth of prefill, so that playback
    /// recovers quickly from a seek.
    pub fn for_vod(sample_rate: u32, channels: u16) -> (config: Self)
        requires
            sample_rate * channels <= usize::MAX,
        ensures
            config.capacity_samples == (sample_rate * channels) / 2,
            config.prefill_samples == (sample_rate * channels) / 20,
    {
        let sps: usize = product(sample_rate, channels);
        RingBufferConfig { capacity_samples: sps / 2, prefill_samples: sps / 20 }
    }

    /// Two seconds of capacity and half a second of prefill, to absorb the
    /// bursts of a live stream.
    pub fn for_format(sample_rate: u32, channels: u16) -> (config: Self)
        requires
            sample_rate * channels * 2 <= usize::MAX,
        ensures
            config.capacity_samples == sample_rate * channels * 2,
            config.prefill_samples == (sample_rate * channels) / 2,
    {
        let sps: usize = product(sample_rate, channels);
        RingBufferConfig { capacity_samples: sps * 2, prefill_samples: sps / 2 }
    }
}

impl Default for RingBufferConfig {
    /// The live format at 48 kHz stereo.
    fn default() -> (config: Self)
        ensures
            config.capacity_samples == 192_000,
            config.prefill_samples == 48_000,
    {
        RingBufferConfig::for_format(48_000, 2)
    }
}

fn product(sample_rate: u32, channels: u16) -> (sps: usize)
    requires
        sample_rate * channels <= usize::MAX,
    ensures
        sps == sample_rate * channels,
{
    assert(sample_rate * channels <= u32::MAX * u16::MAX) by (nonlinear_arith)
        requires
            0 <= sample_rate <= u32::MAX,
            0 <= channels <= u16::MAX,
    ;
    assert(0 <= sample_rate * channels) by (nonlinear_arith)
        requires
            0 <= sample_rate,
            0 <= channels,
    ;
    (sample_rate as u64 * channels as u64) as usize
}

/// The least power of two that is not below `n`.
pub fn next_power_of_two(n: usize) -> (p: usize)
    requires
        n <= usize::MAX / 2 + 1,
    ensures
        n <= p,
        exists|e: nat| e < usize::BITS && p == #[trigger] pow2(e),
        forall|e: nat| n <= #[trigger] pow2(e) ==> p <= pow2(e),
{
    let mut p: usize = 1;
    let ghost mut k: nat = 0;
    proof {
        lemma2_to64();
        lemma2_to64_rest();
        assert(usize::BITS == 32 || usize::BITS == 64);
    }
    while p < n
        invariant
            n <= usize::MAX / 2 + 1,
            p == pow2(k),
            k < usize::BITS,
            p >= 1,
            k > 0 ==> pow2((k - 1) as nat) < n,
            usize::BITS == 32 ==> usize::MAX / 2 + 1 == pow2(31),
            usize::BITS == 64 ==> usize::MAX / 2 + 1 == pow2(63),
            usize::BITS == 32 || usize::BITS == 64,
        decreases usize::MAX - p,
    {
        proof {
            lemma_pow2_unfold(k + 1);
            if k + 1 >= usize::BITS {
                assert(false);
            }
            k = k + 1;
        }
        p = p * 2;
    }
    proof {
        assert forall|e: nat| n <= #[trigger] pow2(e) implies p <= pow2(e) by {
            lemma_pow2_pos(e);
            if k > 0 && e < k {
                if e < k - 1 {
                    lemma_pow2_strictly_increases(e, (k - 1) as nat);
                }
            } else if e > k {
                lemma_pow2_strictly_increases(k, e);
            }
        }
    }
    p
}

/// What one read of the consumer brought.
#[derive(Debug, Clone, Copy, PartialEq, Eq, Structural)]
pub enum ReadSample {
    /// The bits of a sample.
    Sample(u32),
    /// The producer asked for a flush; everything buffered was dropped.
    Flushed,
    /// Nothing to read: still filling up, or empty.
    Empty,
}

/// Counters of a ring buffer.
#[derive(Debug, Clone, Copy, PartialEq, Eq, Structural)]
pub struct RingBufferMetrics {
    pub fill_samples: usize,
    pub capacity_samples: usize,
    pub total_written: u64,
    pub total_read: u64,
    /// Writes that overwrote samples not yet read.
    pub overflow_count: u64,
    /// Reads that found the buffer empty after it had filled up.
    pub stall_count: u64,
    pub producer_alive: bool,
}

/// The state that the two halves share.
///
/// Positions count samples and wrap around at the width of `usize`; the slot
/// of a position is its remainder by the capacity.
#[derive(Debug)]
pub struct RingBufferShared {
    pub buffer: Vec<u32>,
    pub write_pos: usize,
    /// End of the write that is under way, samples not yet published included.
    pub write_head: usize,
    pub read_pos: usize,
    pub capacity: usize,
    pub prefilled: bool,
    pub prefill_threshold: usize,
    pub total_written: u64,
    pub total_read: u64,
    pub overflow_count: u64,
    pub underrun_count: u64,
    pub alive: bool,
    pub flush_generation: u64,
}

/// The slot of a position.
pub open spec fn slot(pos: int, capacity: int) -> int {
    pos % capacity
}

impl RingBufferShared {
    pub open spec fn wf(&self) -> bool {
        &&& self.capacity >= 1024
        &&& self.buffer@.len() == self.capacity
        &&& (usize::MAX + 1) % (self.capacity as int) == 0
        &&& self.prefill_threshold <= self.capacity / 2
    }

    /// Samples between the read and the write position.
    pub open spec fn distance(&self) -> usize {
        self.write_pos.wrapping_sub(self.read_pos)
    }

    /// Samples that the consumer can still get, after it has made up for
    /// having been lapped.
    pub open spec fn readable(&self) -> int {
        if self.distance() > self.capacity {
            self.capacity as int
        } else {
            self.distance() as int
        }
    }

    /// The samples that the consumer can still get, oldest first.
    pub open spec fn pending(&self) -> Seq<u32> {
        Seq::new(
            self.readable() as nat,
            |i: int| self.buffer@[slot(self.write_pos - self.readable() + i, self.capacity as int)],
        )
    }

    /// True where the slot at the head of [`Self::pending`] may belong to a
    /// write that is not published yet.
    pub open spec fn head_is_being_overwritten(&self) -> bool {
        self.write_head.wrapping_sub(self.head_pos()) > self.capacity
    }

    /// The position of the head of [`Self::pending`].
    pub open spec fn head_pos(&self) -> usize {
        if self.distance() > self.capacity {
            self.write_pos.wrapping_sub(self.capacity)
        } else {
            self.read_pos
        }
    }

    /// The state before and after a write.
    pub open spec fn wrote(self, after: RingBufferShared, samples: Seq<u32>) -> bool {
        &&& samples.len() == 0 ==> after == self
        &&& samples.len() > 0 ==> {
            let len = samples.len() as usize;
            let end = self.write_pos.wrapping_add(len);
            let filled = end.wrapping_sub(self.read_pos);
            after == (RingBufferShared {
                buffer: after.buffer,
                write_pos: end,
                write_head: end,
                prefilled: self.prefilled || filled >= self.prefill_threshold,
                total_written: self.total_written.wrapping_add(len as u64),
                overflow_count: (if filled > self.capacity {
                    self.overflow_count.wrapping_add(1)
                } else {
                    self.overflow_count
                }),
                ..self
            })
        }
        // The last samples written stand in their slots ...
        &&& forall|j: int|
            0 <= j < samples.len() && samples.len() - self.capacity <= j
                ==> after.buffer@[#[trigger] slot(self.write_pos + j, self.capacity as int)]
                == samples[j]
        // ... and the slots that no sample reached are as they were.
        &&& forall|j: int|
            samples.len() <= j < self.capacity ==> after.buffer@[#[trigger] slot(
                self.write_pos + j,
                self.capacity as int,
            )] == self.buffer@[slot(self.write_pos + j, self.capacity as int)]
        // Seen by the consumer: appended, and cut to the newest that the buffer holds.
        &&& self.distance() + samples.len() <= self.capacity ==> after.pending()
            =~= self.pending() + samples
        &&& self.capacity < self.distance() + samples.len() <= usize::MAX ==> after.pending()
            =~= (self.pending() + samples).skip(
            self.readable() + samples.len() - self.capacity,
        )
    }

    pub open spec fn spec_metrics(&self) -> RingBufferMetrics {
        RingBufferMetrics {
            fill_samples: (if self.distance() <= self.capacity {
                self.distance()
            } else {
                self.capacity
            }),
            capacity_samples: self.capacity,
            total_written: self.total_written,
            total_read: self.total_read,
            overflow_count: self.overflow_count,
            stall_count: self.underrun_count,
            producer_alive: self.alive,
        }
    }

    /// The state after one read by a consumer that last saw `generation`, and
    /// what the read brings.
    pub open spec fn after_read(self, generation: u64) -> (RingBufferShared, ReadSample) {
        if self.flush_generation != generation {
            (
                RingBufferShared { read_pos: self.write_pos, prefilled: false, ..self },
                ReadSample::Flushed,
            )
        } else if !self.prefilled {
            (self, ReadSample::Empty)
        } else if self.read_pos == self.write_pos {
            (
                RingBufferShared { underrun_count: self.underrun_count.wrapping_add(1), ..self },
                ReadSample::Empty,
            )
        } else if self.head_is_being_overwritten() {
            (RingBufferShared { read_pos: self.head_pos(), ..self }, ReadSample::Empty)
        } else {
            (
                RingBufferShared {
                    read_pos: self.head_pos().wrapping_add(1),
                    total_read: self.total_read.wrapping_add(1),
                    ..self
                },
                ReadSample::Sample(self.pending()[0]),
            )
        }
    }

    fn fill(&self) -> (fill: usize)
        ensures
            fill == self.spec_metrics().fill_samples,
    {
        let distance: usize = self.write_pos.wrapping_sub(self.read_pos);
        if distance <= self.capacity {
            distance
        } else {
            self.capacity
        }
    }

    fn counters(&self) -> (m: RingBufferMetrics)
        ensures
            m == self.spec_metrics(),
    {
        RingBufferMetrics {
            fill_samples: self.fill(),
            capacity_samples: self.capacity,
            total_written: self.total_written,
            total_read: self.total_read,
            overflow_count: self.overflow_count,
            stall_count: self.underrun_count,
            producer_alive: self.alive,
        }
    }
}

/// The writing half, owned by the decoder.
#[derive(Debug)]
pub struct RingBufferProducer;

/// The reading half, owned by the audio callback.
#[derive(Debug)]
pub struct RingBufferConsumer {
    /// The flush generation that was seen last.
    pub consumer_generation: u64,
}

proof fn lemma_power_of_two_divides(capacity: int, e: nat)
    requires
        capacity == pow2(e),
        e < usize::BITS,
    ensures
        capacity > 0,
        (usize::MAX + 1) % capacity == 0,
{
    lemma2_to64();
    lemma_pow2_pos(e);
    let bits: nat = usize::BITS as nat;
    let rest: nat = (bits - e) as nat;
    lemma_pow2_adds(e, rest);
    assert(usize::MAX + 1 == pow2(bits)) by {
        assert(bits == 32 || bits == 64);
    }
    lemma_mod_multiples_vanish(pow2(rest) as int, 0, capacity);
    lemma_small_mod(0, capacity as nat);
}

/// Two positions that differ by a whole turn of the counter share a slot.
proof fn lemma_slot_wraps(pos: int, capacity: int)
    requires
        capacity > 0,
        (usize::MAX + 1) % capacity == 0,
    ensures
        slot(pos + (usize::MAX + 1), capacity) == slot(pos, capacity),
        slot(pos - (usize::MAX + 1), capacity) == slot(pos, capacity),
{
    let turn: int = usize::MAX + 1;
    lemma_fundamental_div_mod(turn, capacity);
    let k: int = turn / capacity;
    lemma_mod_multiples_vanish(k, pos, capacity);
    lemma_mod_multiples_vanish(-k, pos, capacity);
    assert(capacity * (-k) == -(capacity * k)) by (nonlinear_arith);
}

/// Positions less than one capacity apart have slots of their own.
proof fn lemma_slots_distinct(pos: int, step: int, capacity: int)
    requires
        capacity > 0,
        0 < step < capacity,
    ensures
        slot(pos + step, capacity) != slot(pos, capacity),
{
    lemma_fundamental_div_mod(pos, capacity);
    lemma_fundamental_div_mod(pos + step, capacity);
    if slot(pos + step, capacity) == slot(pos, capacity) {
        let a: int = (pos + step) / capacity;
        let b: int = pos / capacity;
        assert(capacity * a - capacity * b == step);
        assert(capacity * (a - b) == capacity * a - capacity * b) by (nonlinear_arith);
        assert(false) by (nonlinear_arith)
            requires
                capacity * (a - b) == step,
                0 < step < capacity,
        ;
    }
}

/// A position one capacity further has the same slot.
proof fn lemma_slot_period(pos: int, capacity: int)
    requires
        capacity > 0,
    ensures
        slot(pos + capacity, capacity) == slot(pos, capacity),
        0 <= slot(pos, capacity) < capacity,
{
    lemma_mod_multiples_vanish(1, pos, capacity);
    lemma_mod_bound(pos, capacity);
}

/// A buffer that was just made to `config`: its capacity is the least power of
/// two that is enough, and nothing is in it.
pub open spec fn is_fresh_ring(
    config: RingBufferConfig,
    consumer: RingBufferConsumer,
    shared: RingBufferShared,
) -> bool {
    &&& consumer.consumer_generation == 0
    &&& shared.wf()
    &&& shared.capacity >= config.capacity_samples
    &&& exists|e: nat| e < usize::BITS && shared.capacity == #[trigger] pow2(e)
    &&& forall|e: nat|
        1024 <= #[trigger] pow2(e) && config.capacity_samples <= pow2(e) ==> shared.capacity
            <= pow2(e)
    &&& shared.prefill_threshold == (if config.prefill_samples <= shared.capacity / 2 {
        config.prefill_samples as int
    } else {
        shared.capacity as int / 2
    })
    &&& forall|i: int| 0 <= i < shared.capacity ==> shared.buffer@[i] == 0
    &&& shared.write_pos == 0
    &&& shared.write_head == 0
    &&& shared.read_pos == 0
    &&& !shared.prefilled
    &&& shared.total_written == 0
    &&& shared.total_read == 0
    &&& shared.overflow_count == 0
    &&& shared.underrun_count == 0
    &&& shared.alive
    &&& shared.flush_generation == 0
    &&& shared.pending() =~= Seq::<u32>::empty()
}

/// A ring buffer of at least the wanted capacity, empty and not yet prefilled.
pub fn audio_ring_buffer(config: RingBufferConfig) -> (halves: (
    RingBufferProducer,
    RingBufferConsumer,
    RingBufferShared,
))
    requires
        config.capacity_samples <= usize::MAX / 16 + 1,
    ensures
        is_fresh_ring(config, halves.1, halves.2),
{
    let wanted: usize = if config.capacity_samples < 1024 {
        1024
    } else {
        config.capacity_samples
    };
    let capacity: usize = next_power_of_two(wanted);
    proof {
        let e: nat = choose|e: nat| e < usize::BITS && capacity == #[trigger] pow2(e);
        lemma_power_of_two_divides(capacity as int, e);
    }
    let mut buffer: Vec<u32> = Vec::new();
    let mut i: usize = 0;
    while i < capacity
        invariant
            i <= capacity,
            buffer@.len() == i,
            forall|k: int| 0 <= k < i ==> buffer@[k] == 0,
        decreases capacity - i,
    {
        buffer.push(0);
        i = i + 1;
    }
    let prefill_threshold: usize = if config.prefill_samples <= capacity / 2 {
        config.prefill_samples
    } else {
        capacity / 2
    };
    let shared = RingBufferShared {
        buffer,
        write_pos: 0,
        write_head: 0,
        read_pos: 0,
        capacity,
        prefilled: false,
        prefill_threshold,
        total_written: 0,
        total_read: 0,
        overflow_count: 0,
        underrun_count: 0,
        alive: true,
        flush_generation: 0,
    };
    (RingBufferProducer, RingBufferConsumer { consumer_generation: 0 }, shared)
}

impl RingBufferProducer {
    /// Asks for a flush, as on a seek: the next read drops everything that is
    /// buffered, and nothing is handed out until the buffer has filled up anew.
    pub fn request_flush(&self, shared: &mut RingBufferShared)
        ensures
            *final(shared) == (RingBufferShared {
                prefilled: false,
                flush_generation: old(shared).flush_generation.wrapping_add(1),
                ..*old(shared)
            }),
    {
        shared.prefilled = false;
        shared.flush_generation = shared.flush_generation.wrapping_add(1);
    }

    /// Appends samples. Never refuses: where the buffer is full the oldest
    /// samples are overwritten.
    pub fn write(&self, shared: &mut RingBufferShared, samples: &[u32])
        requires
            old(shared).wf(),
        ensures
            final(shared).wf(),
            old(shared).wrote(*final(shared), samples@),
    {
        let len: usize = samples.len();
        if len == 0 {
            return;
        }
        let ghost before = *shared;
        let ghost cap: int = shared.capacity as int;
        let wp: usize = shared.write_pos;
        let end: usize = wp.wrapping_add(len);
        let filled: usize = end.wrapping_sub(shared.read_pos);
        if filled > shared.capacity {
            shared.overflow_count = shared.overflow_count.wrapping_add(1);
        }
        // The reservation stands before any slot is touched.
        shared.write_head = end;
        proof {
            lemma_mod_bound(wp as int, cap);
        }
        let mut idx: usize = wp % shared.capacity;
        let mut i: usize = 0;
        let ghost reserved = *shared;
        while i < len
            invariant
                i <= len,
                len == samples@.len(),
                reserved.wf(),
                cap == reserved.capacity,
                *shared == (RingBufferShared { buffer: shared.buffer, ..reserved }),
                shared.buffer@.len() == cap,
                idx < cap,
                idx as int == slot(wp + i, cap),
                forall|j: int|
                    0 <= j < i && i - cap <= j ==> shared.buffer@[#[trigger] slot(wp + j, cap)]
                        == samples@[j],
                forall|j: int|
                    i <= j < cap ==> shared.buffer@[#[trigger] slot(wp + j, cap)]
                        == reserved.buffer@[slot(wp + j, cap)],
            decreases len - i,
        {
            let ghost old_buffer = shared.buffer@;
            shared.buffer.set(idx, samples[i]);
            proof {
                assert(shared.buffer@ == old_buffer.update(slot(wp + i, cap), samples@[i as int]));
                assert forall|j: int|
                    0 <= j < i + 1 && i + 1 - cap <= j implies shared.buffer@[#[trigger] slot(
                    wp + j,
                    cap,
                )] == samples@[j] by {
                    lemma_slot_period(wp + j, cap);
                    if j < i {
                        lemma_slots_distinct(wp + j, i - j, cap);
                    }
                }
                assert forall|j: int|
                    i + 1 <= j < cap implies shared.buffer@[#[trigger] slot(wp + j, cap)]
                    == reserved.buffer@[slot(wp + j, cap)] by {
                    lemma_slot_period(wp + j, cap);
                    lemma_slots_distinct(wp + i, j - i, cap);
                }
                lemma_next_slot(wp + i, cap);
            }
            idx = if idx + 1 == shared.capacity {
                0
            } else {
                idx + 1
            };
            i = i + 1;
        }
        shared.write_pos = end;
        shared.total_written = shared.total_written.wrapping_add(len as u64);
        if !shared.prefilled {
            let new_fill: usize = shared.write_pos.wrapping_sub(shared.read_pos);
            if new_fill >= shared.prefill_threshold {
                shared.prefilled = true;
            }
        }
        proof {
            lemma_write_seen(before, *shared, samples@);
        }
    }

    /// Samples that wait to be read, at most the capacity.
    pub fn fill_level(&self, shared: &RingBufferShared) -> (fill: usize)
        ensures
            fill == shared.spec_metrics().fill_samples,
    {
        shared.fill()
    }

    pub fn capacity(&self, shared: &RingBufferShared) -> (capacity: usize)
        ensures
            capacity == shared.capacity,
    {
        shared.capacity
    }

    pub fn metrics(&self, shared: &RingBufferShared) -> (m: RingBufferMetrics)
        ensures
            m == shared.spec_metrics(),
    {
        shared.counters()
    }

    /// Ends the writing half. What is buffered can still be read.
    pub fn close(self, shared: &mut RingBufferShared)
        ensures
            *final(shared) == (RingBufferShared { alive: false, ..*old(shared) }),
    {
        shared.alive = false;
    }
}

proof fn lemma_next_slot(pos: int, cap: int)
    requires
        cap > 1,
    ensures
        slot(pos + 1, cap) == (if slot(pos, cap) + 1 == cap {
            0
        } else {
            slot(pos, cap) + 1
        }),
{
    lemma_fundamental_div_mod(pos, cap);
    lemma_mod_bound(pos, cap);
    let q: int = pos / cap;
    let r: int = pos % cap;
    assert(q * cap == cap * q) by (nonlinear_arith);
    if r + 1 < cap {
        lemma_fundamental_div_mod_converse(pos + 1, cap, q, r + 1);
    } else {
        assert((q + 1) * cap == cap * q + cap) by (nonlinear_arith);
        lemma_fundamental_div_mod_converse(pos + 1, cap, q + 1, 0);
    }
}

/// How a write changes what the consumer can get.
proof fn lemma_write_seen(before: RingBufferShared, after: RingBufferShared, samples: Seq<u32>)
    requires
        before.wf(),
        after.capacity == before.capacity,
        after.read_pos == before.read_pos,
        after.buffer@.len() == before.capacity,
        samples.len() <= usize::MAX,
        after.write_pos == before.write_pos.wrapping_add(samples.len() as usize),
        forall|j: int|
            0 <= j < samples.len() && samples.len() - before.capacity <= j
                ==> after.buffer@[#[trigger] slot(before.write_pos + j, before.capacity as int)]
                == samples[j],
        forall|j: int|
            samples.len() <= j < before.capacity ==> after.buffer@[#[trigger] slot(
                before.write_pos + j,
                before.capacity as int,
            )] == before.buffer@[slot(before.write_pos + j, before.capacity as int)],
    ensures
        before.distance() + samples.len() <= before.capacity ==> after.pending()
            =~= before.pending() + samples,
        before.capacity < before.distance() + samples.len() <= usize::MAX ==> after.pending()
            =~= (before.pending() + samples).skip(
            before.readable() + samples.len() - before.capacity,
        ),
{
    let cap: int = before.capacity as int;
    let len: int = samples.len() as int;
    let wp: int = before.write_pos as int;
    if before.distance() + len <= usize::MAX {
        assert(after.distance() == before.distance() + len);
        let n: int = after.readable();
        let m: int = before.readable();
        assert(n <= cap);
        assert forall|i: int| 0 <= i < n implies #[trigger] after.pending()[i] == (before.pending()
            + samples)[m + len - n + i] by {
            let j: int = len - n + i;
            lemma_slot_wraps(wp + j, cap);
            assert(slot(after.write_pos - n + i, cap) == slot(wp + j, cap));
            if j >= 0 {
                assert(after.buffer@[slot(wp + j, cap)] == samples[j]);
            } else {
                lemma_slot_period(wp + j, cap);
                assert(slot(wp + (j + cap), cap) == slot(wp + j, cap));
                assert(after.buffer@[slot(wp + (j + cap), cap)] == before.buffer@[slot(
                    wp + (j + cap),
                    cap,
                )]);
                assert(before.pending()[m + j] == before.buffer@[slot(wp - m + (m + j), cap)]);
            }
        }
        if after.distance() <= cap {
            assert(after.pending() =~= before.pending() + samples);
        } else {
            assert(n == cap);
            assert(after.pending() =~= (before.pending() + samples).skip(m + len - n));
        }
    }
}

impl RingBufferConsumer {
    /// Reads one sample.
    ///
    /// A flush comes before everything else; nothing is handed out before the
    /// prefill threshold was reached, counted from the flush that was seen last; a
    /// consumer that was lapped continues with the oldest sample that is still held;
    /// and a slot that a write under way may already have taken is not handed out as
    /// an old sample.
    pub fn read_sample(&mut self, shared: &mut RingBufferShared) -> (r: ReadSample)
        requires
            old(shared).wf(),
        ensures
            final(shared).wf(),
            final(self).consumer_generation == old(shared).flush_generation,
            *final(shared) == old(shared).after_read(old(self).consumer_generation).0,
            r == old(shared).after_read(old(self).consumer_generation).1,
            r is Flushed ==> final(shared).pending() =~= Seq::<u32>::empty(),
            r is Empty ==> final(shared).pending() =~= old(shared).pending(),
            r is Sample ==> old(shared).pending().len() > 0 && final(shared).pending() =~= old(
                shared,
            ).pending().skip(1),
    {
        let ghost before = *shared;
        let gen: u64 = shared.flush_generation;
        if gen != self.consumer_generation {
            self.consumer_generation = gen;
            shared.read_pos = shared.write_pos;
            shared.prefilled = false;
            return ReadSample::Flushed;
        }
        if !shared.prefilled {
            return ReadSample::Empty;
        }
        let mut rp: usize = shared.read_pos;
        let wp: usize = shared.write_pos;
        if rp == wp {
            shared.underrun_count = shared.underrun_count.wrapping_add(1);
            return ReadSample::Empty;
        }
        let fill: usize = wp.wrapping_sub(rp);
        if fill > shared.capacity {
            rp = wp.wrapping_sub(shared.capacity);
            shared.read_pos = rp;
        }
        proof {
            lemma_read_seen(before, *shared);
            lemma_mod_bound(rp as int, shared.capacity as int);
        }
        let idx: usize = rp % shared.capacity;
        let sample: u32 = shared.buffer[idx];
        if shared.write_head.wrapping_sub(rp) > shared.capacity {
            return ReadSample::Empty;
        }
        shared.read_pos = rp.wrapping_add(1);
        shared.total_read = shared.total_read.wrapping_add(1);
        proof {
            lemma_read_advances(before, *shared);
        }
        ReadSample::Sample(sample)
    }

    pub fn metrics(&self, shared: &RingBufferShared) -> (m: RingBufferMetrics)
        ensures
            m == shared.spec_metrics(),
    {
        shared.counters()
    }

    pub fn is_producer_alive(&self, shared: &RingBufferShared) -> (alive: bool)
        ensures
            alive == shared.alive,
    {
        shared.alive
    }
}

/// Making up for a lap moves the read position to the head and hides nothing.
proof fn lemma_read_seen(before: RingBufferShared, after: RingBufferShared)
    requires
        before.wf(),
        before.read_pos != before.write_pos,
        after == (RingBufferShared { read_pos: before.head_pos(), ..before }),
    ensures
        before.pending().len() > 0,
        after.pending() =~= before.pending(),
        slot(before.head_pos() as int, before.capacity as int) == slot(
            before.write_pos - before.readable(),
            before.capacity as int,
        ),
{
    let cap: int = before.capacity as int;
    lemma_slot_wraps(before.write_pos - before.readable(), cap);
}

proof fn lemma_read_advances(before: RingBufferShared, after: RingBufferShared)
    requires
        before.wf(),
        before.read_pos != before.write_pos,
        after.buffer == before.buffer,
        after.write_pos == before.write_pos,
        after.capacity == before.capacity,
        after.read_pos == before.head_pos().wrapping_add(1),
    ensures
        after.pending() =~= before.pending().skip(1),
{
    assert(after.distance() == before.readable() - 1);
    assert(after.readable() == before.readable() - 1);
}

/// What `n` reads bring, in order, and the state after them.
pub open spec fn read_many(shared: RingBufferShared, generation: u64, n: nat) -> (
    RingBufferShared,
    Seq<ReadSample>,
)
    decreases n,
{
    if n == 0 {
        (shared, Seq::empty())
    } else {
        let (before, reads) = read_many(shared, generation, (n - 1) as nat);
        let (after, read) = before.after_read(generation);
        (after, reads.push(read))
    }
}

/// Reading gives back what was written, in order: with the buffer filled up, no
/// flush asked for and no write under way, the next reads bring the pending
/// samples one by one and leave the rest.
pub proof fn law_reads_give_back_what_was_written(
    shared: RingBufferShared,
    generation: u64,
    n: nat,
)
    requires
        shared.wf(),
        shared.prefilled,
        shared.flush_generation == generation,
        shared.write_head == shared.write_pos,
        n <= shared.pending().len(),
    ensures
        read_many(shared, generation, n).1.len() == n,
        forall|i: int|
            0 <= i < n ==> #[trigger] read_many(shared, generation, n).1[i] == ReadSample::Sample(
                shared.pending()[i],
            ),
        read_many(shared, generation, n).0.pending() =~= shared.pending().skip(n as int),
        read_many(shared, generation, n).0.wf(),
        read_many(shared, generation, n).0.prefilled,
        read_many(shared, generation, n).0.flush_generation == generation,
        read_many(shared, generation, n).0.write_head == shared.write_head,
        read_many(shared, generation, n).0.write_pos == shared.write_pos,
    decreases n,
{
    if n > 0 {
        law_reads_give_back_what_was_written(shared, generation, (n - 1) as nat);
        let before = read_many(shared, generation, (n - 1) as nat).0;
        assert(before.pending().len() > 0);
        assert(before.pending()[0] == shared.pending()[n - 1]);
        assert(before.read_pos != before.write_pos);
        let after = before.after_read(generation).0;
        lemma_read_advances(before, after);
    } else {
        assert(shared.pending().skip(0) =~= shared.pending());
    }
}

/// A flush drops everything: after [`RingBufferProducer::request_flush`] the
/// next read reports it, exactly once, and nothing that was buffered before is
/// handed out.
pub proof fn law_flush_drops_everything(shared: RingBufferShared, generation: u64)
    requires
        shared.wf(),
        shared.flush_generation == generation,
    ensures
        ({
            let asked = RingBufferShared {
                prefilled: false,
                flush_generation: shared.flush_generation.wrapping_add(1),
                ..shared
            };
            let (flushed, first) = asked.after_read(generation);
            let (settled, second) = flushed.after_read(asked.flush_generation);
            &&& first is Flushed
            &&& flushed.pending() =~= Seq::<u32>::empty()
            &&& second is Empty
            &&& settled == flushed
        }),
{
}

/// Nothing is handed out before the buffer has filled up to its threshold.
pub proof fn law_nothing_before_prefill(shared: RingBufferShared, generation: u64)
    requires
        shared.wf(),
        !shared.prefilled,
    ensures
        shared.after_read(generation).1 !is Sample,
        !shared.after_read(generation).0.prefilled,
{
}

/// Neither end touches the position of the other. A read never goes back: the way to
/// the write position gets no longer.
pub proof fn law_each_end_keeps_to_its_position(
    shared: RingBufferShared,
    generation: u64,
    after: RingBufferShared,
    samples: Seq<u32>,
)
    requires
        shared.wf(),
    ensures
        shared.wrote(after, samples) ==> after.read_pos == shared.read_pos,
        shared.after_read(generation).0.write_pos == shared.write_pos,
        shared.after_read(generation).0.write_head == shared.write_head,
        shared.after_read(generation).0.distance() <= shared.distance(),
        shared.after_read(generation).0.buffer == shared.buffer,
{
}

/// After a flush new samples must add up to the threshold before any is handed out,
/// whatever was buffered before and whatever was written between the request and the
/// read that sees it: `early` is dropped with the rest, and `late` alone counts.
pub proof fn law_prefill_counts_from_the_flush(
    shared: RingBufferShared,
    generation: u64,
    early: Seq<u32>,
    written: RingBufferShared,
    late: Seq<u32>,
    refilled: RingBufferShared,
)
    requires
        shared.wf(),
        shared.flush_generation == generation,
        late.len() <= usize::MAX,
        ({
            let asked = RingBufferShared {
                prefilled: false,
                flush_generation: shared.flush_generation.wrapping_add(1),
                ..shared
            };
            &&& asked.wrote(written, early)
            &&& written.after_read(generation).0.wrote(refilled, late)
        }),
    ensures
        written.after_read(generation).1 is Flushed,
        written.after_read(generation).0.pending() =~= Seq::<u32>::empty(),
        late.len() < shared.prefill_threshold ==> refilled.after_read(
            written.flush_generation,
        ).1 is Empty,
        0 < late.len() <= shared.capacity && shared.prefill_threshold <= late.len()
            ==> refilled.after_read(written.flush_generation).1 == ReadSample::Sample(late[0]),
{
    let flushed = written.after_read(generation).0;
    assert(flushed.pending() =~= Seq::<u32>::empty());
    assert(flushed.distance() == 0);
    if 0 < late.len() <= shared.capacity && shared.prefill_threshold <= late.len() {
        assert(flushed.pending() + late =~= late);
        assert(refilled.pending() == late);
        assert(refilled.distance() == late.len());
    }
}

/// A consumer that was lapped goes on with the oldest sample that the buffer still
/// holds, one capacity behind the producer.
pub proof fn law_lapped_reader_gets_the_oldest_held(
    shared: RingBufferShared,
    generation: u64,
    samples: Seq<u32>,
    after: RingBufferShared,
)
    requires
        shared.wf(),
        shared.prefilled,
        shared.flush_generation == generation,
        samples.len() >= shared.capacity,
        samples.len() + shared.distance() > shared.capacity,
        samples.len() + shared.distance() <= usize::MAX,
        shared.wrote(after, samples),
    ensures
        after.after_read(generation).1 == ReadSample::Sample(
            samples[samples.len() - shared.capacity],
        ),
        after.after_read(generation).0.distance() == shared.capacity - 1,
{
    assert(after.distance() == shared.distance() + samples.len());
    let start: int = shared.readable() + samples.len() - shared.capacity;
    assert(after.pending() == (shared.pending() + samples).skip(start));
    assert(after.pending()[0] == (shared.pending() + samples)[start]);
}

/// How many samples a run of steps writes. A step is a write of samples, or a read.
pub open spec fn samples_written(steps: Seq<Option<Seq<u32>>>) -> nat
    decreases steps.len(),
{
    if steps.len() == 0 {
        0
    } else {
        samples_written(steps.drop_last()) + (match steps.last() {
            Some(samples) => samples.len(),
            None => 0,
        })
    }
}

/// How many samples the reads of a run bring.
pub open spec fn samples_read(
    states: Seq<RingBufferShared>,
    steps: Seq<Option<Seq<u32>>>,
    generation: u64,
) -> nat
    decreases steps.len(),
{
    if steps.len() == 0 {
        0
    } else {
        samples_read(states.drop_last(), steps.drop_last(), generation) + (if steps.last() is None
            && states[steps.len() - 1].after_read(generation).1 is Sample {
            1nat
        } else {
            0
        })
    }
}

/// True where a read by a consumer that last saw `generation` passes over samples: it
/// sees a flush, or it was lapped.
pub open spec fn read_skips(shared: RingBufferShared, generation: u64) -> bool {
    ||| shared.flush_generation != generation
    ||| shared.prefilled && shared.distance() > shared.capacity
}

/// A buffer that goes from `states[0]` through `steps`, one state after each, with no
/// flush seen and nothing passed over.
pub open spec fn unskipped_run(
    states: Seq<RingBufferShared>,
    steps: Seq<Option<Seq<u32>>>,
    generation: u64,
) -> bool {
    &&& states.len() == steps.len() + 1
    &&& forall|i: int|
        0 <= i < steps.len() ==> match #[trigger] steps[i] {
            Some(samples) => samples.len() <= usize::MAX && states[i].wrote(states[i + 1], samples),
            None => !read_skips(states[i], generation) && states[i + 1] == states[i].after_read(
                generation,
            ).0,
        }
}

/// The counters and the positions of a buffer that `written` samples went into and
/// `read` came out of. They wrap around at their widths.
pub open spec fn has_counted(shared: RingBufferShared, written: int, read: int) -> bool {
    &&& 0 <= read <= written
    &&& shared.total_written == written % (u64::MAX + 1)
    &&& shared.total_read == read % (u64::MAX + 1)
    &&& shared.distance() == (written - read) % (usize::MAX + 1)
}

proof fn lemma_write_is_counted(
    before: RingBufferShared,
    after: RingBufferShared,
    samples: Seq<u32>,
    written: int,
    read: int,
)
    requires
        samples.len() <= usize::MAX,
        before.wrote(after, samples),
        has_counted(before, written, read),
    ensures
        has_counted(after, written + samples.len(), read),
{
    lemma_wraps_on(written, samples.len() as int, u64::MAX + 1);
    lemma_wraps_on(written - read, samples.len() as int, usize::MAX + 1);
    assert(written - read + samples.len() == written + samples.len() - read);
}

proof fn lemma_read_is_counted(
    before: RingBufferShared,
    generation: u64,
    written: int,
    read: int,
)
    requires
        !read_skips(before, generation),
        has_counted(before, written, read),
    ensures
        has_counted(
            before.after_read(generation).0,
            written,
            read + (if before.after_read(generation).1 is Sample {
                1int
            } else {
                0int
            }),
        ),
{
    if before.after_read(generation).1 is Sample {
        lemma_small_mod(0, (usize::MAX + 1) as nat);
        assert(read < written);
        lemma_wraps_on(read, 1, u64::MAX + 1);
        lemma_wraps_on(written - read, -1, usize::MAX + 1);
        assert(written - read + -1 == written - (read + 1));
    }
}

proof fn lemma_run_is_counted(
    states: Seq<RingBufferShared>,
    steps: Seq<Option<Seq<u32>>>,
    generation: u64,
)
    requires
        unskipped_run(states, steps, generation),
        has_counted(states[0], 0, 0),
    ensures
        has_counted(
            states.last(),
            samples_written(steps) as int,
            samples_read(states, steps, generation) as int,
        ),
    decreases steps.len(),
{
    if steps.len() > 0 {
        let front = states.drop_last();
        let early = steps.drop_last();
        assert forall|i: int| 0 <= i < early.len() implies match #[trigger] early[i] {
            Some(samples) => samples.len() <= usize::MAX && front[i].wrote(front[i + 1], samples),
            None => !read_skips(front[i], generation) && front[i + 1] == front[i].after_read(
                generation,
            ).0,
        } by {
            assert(early[i] == steps[i]);
        }
        lemma_run_is_counted(front, early, generation);
        let step = steps[steps.len() - 1];
        let written: int = samples_written(early) as int;
        let read: int = samples_read(front, early, generation) as int;
        assert(step == steps.last());
        assert(front.last() == states[steps.len() - 1]);
        match step {
            Some(samples) => {
                lemma_write_is_counted(front.last(), states.last(), samples, written, read);
            },
            None => {
                lemma_read_is_counted(front.last(), generation, written, read);
            },
        }
    }
}

/// While nothing was flushed or passed over, the distance between the positions is what
/// was written less what was read, and so is the fill, up to the capacity. The counters
/// and the distance wrap around at their widths; where they have not, they are exact.
pub proof fn law_fill_is_written_less_read(
    states: Seq<RingBufferShared>,
    steps: Seq<Option<Seq<u32>>>,
    generation: u64,
)
    requires
        unskipped_run(states, steps, generation),
        states[0].write_pos == 0,
        states[0].read_pos == 0,
        states[0].total_written == 0,
        states[0].total_read == 0,
    ensures
        ({
            let last = states.last();
            let metrics = last.spec_metrics();
            let written: int = samples_written(steps) as int;
            let read: int = samples_read(states, steps, generation) as int;
            &&& has_counted(last, written, read)
            &&& metrics.fill_samples <= last.capacity
            &&& written <= u64::MAX ==> metrics.total_written == written && metrics.total_read
                == read
            &&& written - read <= usize::MAX ==> metrics.fill_samples == (if written - read
                <= last.capacity {
                written - read
            } else {
                last.capacity as int
            })
        }),
{
    let wide: nat = (u64::MAX + 1) as nat;
    let width: nat = (usize::MAX + 1) as nat;
    let written: nat = samples_written(steps);
    let read: nat = samples_read(states, steps, generation);
    lemma_small_mod(0, wide);
    lemma_small_mod(0, width);
    lemma_run_is_counted(states, steps, generation);
    if written <= u64::MAX {
        lemma_small_mod(written, wide);
        lemma_small_mod(read, wide);
    }
    if written - read <= usize::MAX {
        lemma_small_mod((written - read) as nat, width);
    }
}

} // verus!
