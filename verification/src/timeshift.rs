//! Timeshift buffer for live streams.
//!
//! A live stream is forward-only: the past is not kept by the server and the
//! future does not exist yet. This module keeps a sliding window of the most
//! recent compressed bytes in a fixed-capacity ring so playback can be paused,
//! rewound anywhere inside the window and caught up with the live edge again.
//!
//! Offsets are absolute byte counts since tune-in. The ring retains the window
//! `[tail, head)`; `read` is the decoder's cursor and always lies inside it.

use vstd::prelude::*;

verus! {

/// Abstract state of a [`Ring`]: its capacity, the three absolute offsets, the
/// retained bytes `window` (the bytes at offsets `tail .. head`) and the
/// end-of-stream flag.
pub struct RingView {
    pub cap: nat,
    pub tail: nat,
    pub read: nat,
    pub head: nat,
    pub window: Seq<u8>,
    pub eof: bool,
}

/// The newest `n` elements of `s` (all of `s` when it is no longer than `n`).
pub open spec fn last_n(s: Seq<u8>, n: nat) -> Seq<u8> {
    if s.len() > n {
        s.subrange(s.len() - n, s.len() as int)
    } else {
        s
    }
}

/// What every reachable ring state satisfies: a non-empty capacity, the cursor
/// inside the window, and a window never longer than the capacity.
pub open spec fn ring_valid(v: RingView) -> bool {
    &&& v.cap > 0
    &&& v.tail <= v.read <= v.head
    &&& v.head - v.tail <= v.cap
    &&& v.window.len() == v.head - v.tail
}

/// The bytes between the cursor and the live edge, oldest first.
pub open spec fn pending(v: RingView) -> Seq<u8> {
    v.window.subrange(v.read - v.tail, v.window.len() as int)
}

/// The state after appending `src`: `head` advances by every byte written, the
/// window keeps only the newest `cap` bytes (so a write longer than the
/// capacity keeps only its own newest `cap`), the oldest bytes fall out of the
/// window, and a cursor that fell behind the new tail is pulled forward to it.
pub open spec fn after_write(v: RingView, src: Seq<u8>) -> RingView {
    let head = v.head + src.len();
    let window = last_n(v.window + src, v.cap);
    let tail = (head - window.len()) as nat;
    RingView {
        cap: v.cap,
        tail: tail,
        read: if v.read < tail { tail } else { v.read },
        head: head,
        window: window,
        eof: v.eof,
    }
}

/// How many bytes a read into a buffer of `len` bytes hands out.
pub open spec fn read_count(v: RingView, len: nat) -> nat {
    if v.head - v.read < len {
        (v.head - v.read) as nat
    } else {
        len
    }
}

/// The state after a read into a buffer of `len` bytes.
pub open spec fn after_read(v: RingView, len: nat) -> RingView {
    RingView { read: v.read + read_count(v, len), ..v }
}

/// `pos` clamped into `[lo, hi]`.
pub open spec fn clamp(pos: nat, lo: nat, hi: nat) -> nat {
    if pos < lo {
        lo
    } else if pos > hi {
        hi
    } else {
        pos
    }
}

/// The state after moving the cursor to `pos`.
pub open spec fn after_seek(v: RingView, pos: nat) -> RingView {
    RingView { read: clamp(pos, v.tail, v.head), ..v }
}

/// Every operation keeps a valid state valid: the window never exceeds the
/// capacity and the cursor never leaves the window.
pub proof fn lemma_ring_stays_valid(v: RingView, src: Seq<u8>, len: nat, pos: nat)
    requires
        ring_valid(v),
    ensures
        ring_valid(after_write(v, src)),
        ring_valid(after_read(v, len)),
        ring_valid(after_seek(v, pos)),
        after_write(v, src).cap == v.cap,
        after_write(v, src).head == v.head + src.len(),
        after_write(v, src).tail >= v.tail,
        after_write(v, src).read == if v.read < after_write(v, src).tail {
            after_write(v, src).tail
        } else {
            v.read
        },
        read_count(v, len) <= v.cap,
{
}

/// While the reader stays within one window of the live edge, nothing is lost
/// or reordered: a write appends exactly its bytes to what is still pending.
pub proof fn lemma_write_appends_to_pending(v: RingView, src: Seq<u8>)
    requires
        ring_valid(v),
        pending(v).len() + src.len() <= v.cap,
    ensures
        pending(after_write(v, src)) == pending(v) + src,
{
    let w = after_write(v, src);
    let all = v.window + src;
    if all.len() > v.cap {
        assert(w.window =~= all.subrange(all.len() - v.cap, all.len() as int));
    }
    assert(pending(w) =~= pending(v) + src);
}

/// A read hands out the oldest pending bytes, as many as fit, and leaves the
/// rest pending in order.
pub proof fn lemma_read_consumes_pending(v: RingView, len: nat)
    requires
        ring_valid(v),
    ensures
        read_count(v, len) == if pending(v).len() < len { pending(v).len() } else { len },
        pending(after_read(v, len)) == pending(v).skip(read_count(v, len) as int),
{
    assert(pending(after_read(v, len)) =~= pending(v).skip(read_count(v, len) as int));
}

/// The newest bytes of the window are always the newest bytes written: after a
/// write of `src`, the window ends with the last `min(|src|, cap)` bytes of it.
pub proof fn lemma_write_keeps_newest(v: RingView, src: Seq<u8>)
    requires
        ring_valid(v),
    ensures
        ({
            let w = after_write(v, src).window;
            let k = last_n(src, v.cap).len();
            w.subrange(w.len() - k, w.len() as int) == last_n(src, v.cap)
        }),
{
    let w = after_write(v, src).window;
    let k = last_n(src, v.cap).len();
    assert(w.subrange(w.len() - k, w.len() as int) =~= last_n(src, v.cap));
}

/// A seek inside the window lands exactly where asked; outside it lands on the
/// nearer edge.
pub proof fn lemma_seek_lands_in_window(v: RingView, pos: nat)
    requires
        ring_valid(v),
    ensures
        v.tail <= after_seek(v, pos).read <= v.head,
        v.tail <= pos <= v.head ==> after_seek(v, pos).read == pos,
        pos < v.tail ==> after_seek(v, pos).read == v.tail,
        pos > v.head ==> after_seek(v, pos).read == v.head,
{
}

/// Fixed-capacity byte ring holding the most recent `cap` bytes of a stream.
pub struct Ring {
    buf: Vec<u8>,
    cap: u64,
    /// Total bytes ever written — the exclusive end (live edge) of the window.
    head: u64,
    /// Oldest retained byte — the inclusive start of the window.
    tail: u64,
    /// Decoder read cursor, always kept within `[tail, head]`.
    read: u64,
    /// The producer finished or errored — no more bytes will ever arrive.
    eof: bool,
}

impl View for Ring {
    type V = RingView;

    closed spec fn view(&self) -> RingView {
        RingView {
            cap: self.cap as nat,
            tail: self.tail as nat,
            read: self.read as nat,
            head: self.head as nat,
            window: Seq::new(
                (self.head - self.tail) as nat,
                |j: int| self.buf@[(self.tail + j) % (self.cap as int)],
            ),
            eof: self.eof,
        }
    }
}

/// Two distinct offsets less than `cap` apart land on distinct slots.
proof fn lemma_slots_distinct(a: int, b: int, cap: int)
    requires
        0 <= a < b < a + cap,
    ensures
        a % cap != b % cap,
{
    vstd::arithmetic::div_mod::lemma_fundamental_div_mod(a, cap);
    vstd::arithmetic::div_mod::lemma_fundamental_div_mod(b, cap);
    if a % cap == b % cap {
        assert(cap * (b / cap) - cap * (a / cap) == b - a);
        vstd::arithmetic::mul::lemma_mul_is_distributive_sub(cap, b / cap, a / cap);
        if b / cap - a / cap <= 0 {
            vstd::arithmetic::mul::lemma_mul_inequality(b / cap - a / cap, 0, cap);
            assert(cap * (b / cap - a / cap) <= 0) by (nonlinear_arith)
                requires
                    b / cap - a / cap <= 0,
                    cap > 0,
            ;
        } else {
            assert(cap * (b / cap - a / cap) >= cap) by (nonlinear_arith)
                requires
                    b / cap - a / cap >= 1,
                    cap > 0,
            ;
        }
    }
}

/// Keeping the newest `n` of `b` before keeping the newest `n` of `a + b`
/// changes nothing.
proof fn lemma_last_n_twice(a: Seq<u8>, b: Seq<u8>, n: nat)
    ensures
        last_n(a + last_n(b, n), n) == last_n(a + b, n),
{
    if b.len() > n {
        let kb = last_n(b, n);
        assert(last_n(a + kb, n) =~= kb);
        assert(last_n(a + b, n) =~= kb);
    }
}

impl Ring {
    /// Internal consistency: the backing buffer has `cap` slots and the offsets
    /// describe a valid window.
    pub closed spec fn wf(&self) -> bool {
        &&& self.buf@.len() == self.cap
        &&& ring_valid(self@)
    }

    /// A consistent ring is a valid one, with one buffer slot per byte of
    /// capacity.
    pub proof fn lemma_wf_valid(r: &Ring)
        requires
            r.wf(),
        ensures
            ring_valid(r@),
    {
    }

    /// The byte stored for absolute offset `abs`.
    spec fn slot(&self, abs: int) -> u8 {
        self.buf@[abs % (self.cap as int)]
    }

    /// A ring of `cap` bytes (at least one).
    pub fn new(cap: usize) -> (r: Ring)
        ensures
            r.wf(),
            ring_valid(r@),
            r@.cap == if cap == 0 { 1 } else { cap as nat },
            r@.tail == 0,
            r@.read == 0,
            r@.head == 0,
            r@.window == Seq::<u8>::empty(),
            !r@.eof,
    {
        let cap = if cap == 0 { 1 } else { cap };
        let buf: Vec<u8> = vec![0u8; cap];
        let r = Ring { buf, cap: cap as u64, head: 0, tail: 0, read: 0, eof: false };
        assert(r@.window =~= Seq::<u8>::empty());
        r
    }

    /// Appends `src`, dropping the oldest bytes once the window would exceed
    /// the capacity, and pulls a cursor that fell out of the window forward.
    pub fn write(&mut self, src: &[u8])
        requires
            old(self).wf(),
            old(self)@.head + src@.len() <= u64::MAX,
        ensures
            final(self).wf(),
            ring_valid(final(self)@),
            final(self)@ == after_write(old(self)@, src@),
    {
        let ghost v0 = self@;
        let ghost buf0 = self.buf@;
        let len = src.len();
        assert(self.buf.len() == self.cap);
        let cap = self.cap as usize;
        let skip: usize = if len > cap { len - cap } else { 0 };
        let n: usize = len - skip;
        let ghost kept = src@.subrange(skip as int, len as int);
        assert(kept =~= last_n(src@, v0.cap));
        let ghost head0 = self.head as int;
        let ghost tail0 = self.tail as int;
        let ghost base = head0 + skip;
        let mut i: usize = 0;
        while i < n
            invariant
                i <= n,
                n == len - skip,
                n <= cap,
                len == src@.len(),
                cap == self.cap,
                self.cap == v0.cap,
                self.cap > 0,
                self.head == v0.head,
                self.tail == v0.tail,
                self.read == v0.read,
                self.eof == v0.eof,
                v0.tail <= v0.read <= v0.head,
                self.head + len <= u64::MAX,
                skip + n == len,
                base == head0 + skip,
                self.buf@.len() == cap,
                v0.window.len() == v0.head - v0.tail,
                v0.head - v0.tail <= v0.cap,
                head0 == self.head,
                tail0 == self.tail,
                kept == src@.subrange(skip as int, len as int),
                forall|j: int|
                    0 <= j < v0.window.len() ==> #[trigger] v0.window[j] == buf0[(tail0 + j)
                        % (cap as int)],
                // Bytes already written sit at their absolute offsets.
                forall|abs: int|
                    base <= abs < base + i ==> #[trigger] self.buf@[abs % (cap as int)]
                        == kept[abs - base],
                // Older bytes not yet overwritten are still in place.
                forall|abs: int|
                    tail0 <= abs < head0 && abs >= base + i - cap ==> #[trigger] self.buf@[abs
                        % (cap as int)] == v0.window[abs - tail0],
            decreases n - i,
        {
            let pos = ((self.head + skip as u64 + i as u64) % self.cap) as usize;
            let ghost w = (base + i) as int;
            let b = src[skip + i];
            self.buf[pos] = b;
            assert forall|abs: int| base <= abs < base + i + 1 implies #[trigger] self.buf@[abs
                % (cap as int)] == kept[abs - base] by {
                if abs < w {
                    lemma_slots_distinct(abs, w, cap as int);
                }
            }
            assert forall|abs: int|
                tail0 <= abs < head0 && abs >= base + i + 1 - cap implies #[trigger] self.buf@[abs
                % (cap as int)] == v0.window[abs - tail0] by {
                lemma_slots_distinct(abs, w, cap as int);
            }
            i += 1;
        }
        self.head = self.head + len as u64;
        if self.head - self.tail > self.cap {
            self.tail = self.head - self.cap;
            if self.read < self.tail {
                self.read = self.tail;
            }
        }
        proof {
            let v1 = self@;
            let want = after_write(v0, src@);
            lemma_last_n_twice(v0.window, src@, v0.cap);
            let all = v0.window + kept;
            assert(want.window == last_n(all, v0.cap));
            assert(v1.window.len() == want.window.len());
            if skip == 0 {
                assert(kept =~= src@);
                assert forall|j: int| 0 <= j < v1.window.len() implies v1.window[j]
                    == want.window[j] by {
                    let abs = self.tail + j;
                    let off = all.len() - want.window.len();
                    assert(abs - tail0 == off + j);
                    assert(v1.window[j] == self.buf@[abs % (cap as int)]);
                }
            } else {
                assert(want.window =~= kept);
                assert forall|j: int| 0 <= j < v1.window.len() implies v1.window[j]
                    == want.window[j] by {
                    let abs = self.tail + j;
                    assert(abs == base + j);
                    assert(v1.window[j] == self.buf@[abs % (cap as int)]);
                }
            }
            assert(v1.window =~= want.window);
        }
    }

    /// Copies up to `dst.len()` bytes from the cursor forward into `dst`,
    /// advances the cursor past them and returns how many were copied (0 when
    /// the cursor sits at the live edge).
    pub fn read(&mut self, dst: &mut [u8]) -> (n: usize)
        requires
            old(self).wf(),
        ensures
            final(self).wf(),
            ring_valid(final(self)@),
            n == read_count(old(self)@, old(dst)@.len()),
            final(self)@ == after_read(old(self)@, old(dst)@.len()),
            final(dst)@ == pending(old(self)@).take(n as int) + old(dst)@.skip(n as int),
    {
        let ghost v0 = self@;
        let ghost dst0 = dst@;
        let ahead = self.head - self.read;
        let room = dst.len() as u64;
        let avail: u64 = if ahead < room { ahead } else { room };
        let mut i: u64 = 0;
        while i < avail
            invariant
                i <= avail,
                avail <= ahead,
                avail <= room,
                room == dst0.len(),
                ahead == self.head - self.read,
                self.wf(),
                self@ == v0,
                dst@.len() == dst0.len(),
                forall|k: int| 0 <= k < i ==> #[trigger] dst@[k] == pending(v0)[k],
                forall|k: int| i <= k < dst@.len() ==> #[trigger] dst@[k] == dst0[k],
            decreases avail - i,
        {
            let slot: u64 = (self.read + i) % self.cap;
            assert(slot < self.buf.len());
            let b = self.buf[slot as usize];
            assert(b == v0.window[(v0.read - v0.tail) + i]);
            dst[i as usize] = b;
            i += 1;
        }
        self.read = self.read + avail;
        assert(dst@ =~= pending(v0).take(avail as int) + dst0.skip(avail as int));
        avail as usize
    }

    /// Capacity in bytes.
    pub fn cap(&self) -> (c: u64)
        ensures
            c == self@.cap,
    {
        self.cap
    }

    /// Number of slots in the backing buffer (always the capacity).
    pub fn buf_len(&self) -> (n: usize)
        requires
            self.wf(),
        ensures
            n == self@.cap,
    {
        self.buf.len()
    }

    /// Oldest retained offset.
    pub fn tail(&self) -> (t: u64)
        ensures
            t == self@.tail,
    {
        self.tail
    }

    /// Total bytes ever written — the exclusive end (live edge) of the window.
    pub fn head(&self) -> (h: u64)
        ensures
            h == self@.head,
    {
        self.head
    }

    /// The read cursor.
    pub fn cursor(&self) -> (r: u64)
        ensures
            r == self@.read,
    {
        self.read
    }

    /// Moves the cursor to `pos`, clamped into the retained window, and returns
    /// where it landed.
    pub fn seek(&mut self, pos: u64) -> (landed: u64)
        requires
            old(self).wf(),
        ensures
            final(self).wf(),
            ring_valid(final(self)@),
            final(self)@ == after_seek(old(self)@, pos as nat),
            landed == final(self)@.read,
    {
        self.read = if pos < self.tail {
            self.tail
        } else if pos > self.head {
            self.head
        } else {
            pos
        };
        self.read
    }
}

} // verus!

verus! {

/// Nominal compressed byte rate (about 192 kbps) used to size the ring before
/// the real rate has been measured.
pub const NOMINAL_BYTE_RATE: u64 = 24000;

/// `x` saturated to the `u64` range.
pub open spec fn saturate(x: int) -> u64 {
    if x > u64::MAX {
        u64::MAX
    } else {
        x as u64
    }
}

/// The compressed byte rate measured from one packet of a constant-bitrate
/// stream: `bytes` bytes carrying `frames` frames at `sample_rate` frames a
/// second, so bytes × rate ÷ frames (the product saturating). `None` when any
/// of them is zero.
pub fn byte_rate_from(sample_rate: u64, frames: u64, bytes: u64) -> (r: Option<u64>)
    ensures
        r == (if sample_rate == 0 || frames == 0 || bytes == 0 {
            None
        } else {
            Some((saturate(bytes * sample_rate) / frames) as u64)
        }),
{
    if sample_rate == 0 || frames == 0 || bytes == 0 {
        return None;
    }
    assert(bytes * sample_rate <= u64::MAX * u64::MAX) by (nonlinear_arith)
        requires
            bytes <= u64::MAX,
            sample_rate <= u64::MAX,
    ;
    let p: u128 = bytes as u128 * sample_rate as u128;
    let sat: u64 = if p > u64::MAX as u128 { u64::MAX } else { p as u64 };
    Some(sat / frames)
}

/// Abstract state of a [`Timeshift`] buffer: its ring, the byte rate that
/// maps bytes to seconds, and whether the producer was asked to stop.
pub struct TimeshiftView {
    pub ring: RingView,
    pub byte_rate: nat,
    pub shutdown: bool,
}

/// Timeshift buffer of a live stream: a producer writes, a consumer reads at a
/// movable cursor, and status readers query the window. Callers that share it
/// between threads hold it under one lock.
pub struct Timeshift {
    ring: Ring,
    /// Compressed bytes per second (constant bitrate), for byte ↔ time mapping.
    byte_rate: u64,
    /// The producer was asked to stop (stream torn down / re-tuned).
    shutdown: bool,
}

impl View for Timeshift {
    type V = TimeshiftView;

    closed spec fn view(&self) -> TimeshiftView {
        TimeshiftView {
            ring: self.ring@,
            byte_rate: self.byte_rate as nat,
            shutdown: self.shutdown,
        }
    }
}

/// What the buffer's operations keep: a valid ring and a positive byte rate.
pub open spec fn timeshift_valid(v: TimeshiftView) -> bool {
    ring_valid(v.ring) && v.byte_rate > 0
}

impl Timeshift {
    /// Internal consistency: a consistent ring and a positive byte rate.
    pub closed spec fn wf(&self) -> bool {
        self.ring.wf() && self.byte_rate > 0
    }

    /// A consistent buffer is a valid one.
    pub proof fn lemma_wf_valid(ts: &Timeshift)
        requires
            ts.wf(),
        ensures
            timeshift_valid(ts@),
    {
    }

    /// A buffer retaining `window_secs` seconds at the nominal byte rate (a
    /// window of zero seconds is treated as one second). It starts empty, not
    /// ended, not shut down, at the nominal rate.
    pub fn new(window_secs: u64) -> (ts: Timeshift)
        requires
            (if window_secs == 0 { 1 } else { window_secs }) * NOMINAL_BYTE_RATE <= usize::MAX,
        ensures
            ts.wf(),
            ts@.ring.cap == (if window_secs == 0 { 1 } else { window_secs }) * NOMINAL_BYTE_RATE,
            ts@.ring.tail == 0,
            ts@.ring.read == 0,
            ts@.ring.head == 0,
            ts@.ring.window == Seq::<u8>::empty(),
            !ts@.ring.eof,
            ts@.byte_rate == NOMINAL_BYTE_RATE,
            !ts@.shutdown,
    {
        let secs = if window_secs == 0 { 1 } else { window_secs };
        let cap = secs * NOMINAL_BYTE_RATE;
        let ring = Ring::new(cap as usize);
        Timeshift { ring, byte_rate: NOMINAL_BYTE_RATE, shutdown: false }
    }

    /// Records the measured compressed byte rate; a rate of zero is ignored.
    pub fn set_byte_rate(&mut self, bytes_per_sec: u64)
        requires
            old(self).wf(),
        ensures
            final(self).wf(),
            final(self)@.byte_rate == if bytes_per_sec > 0 {
                bytes_per_sec as nat
            } else {
                old(self)@.byte_rate
            },
            final(self)@.ring == old(self)@.ring,
            final(self)@.shutdown == old(self)@.shutdown,
    {
        if bytes_per_sec > 0 {
            self.byte_rate = bytes_per_sec;
        }
    }

    /// Producer: appends received audio bytes.
    pub fn write(&mut self, bytes: &[u8])
        requires
            old(self).wf(),
            old(self)@.ring.head + bytes@.len() <= u64::MAX,
        ensures
            final(self).wf(),
            final(self)@.ring == after_write(old(self)@.ring, bytes@),
            final(self)@.byte_rate == old(self)@.byte_rate,
            final(self)@.shutdown == old(self)@.shutdown,
    {
        self.ring.write(bytes);
    }

    /// Producer: no more bytes will arrive.
    pub fn set_eof(&mut self)
        requires
            old(self).wf(),
        ensures
            final(self).wf(),
            final(self)@.ring == (RingView { eof: true, ..old(self)@.ring }),
            final(self)@.byte_rate == old(self)@.byte_rate,
            final(self)@.shutdown == old(self)@.shutdown,
    {
        self.ring.eof = true;
        assert(self@.ring.window =~= old(self)@.ring.window);
    }

    /// Asks the producer to stop and ends the consumer's reads at the live edge.
    pub fn shutdown(&mut self)
        requires
            old(self).wf(),
        ensures
            final(self).wf(),
            final(self)@.shutdown,
            final(self)@.ring == old(self)@.ring,
            final(self)@.byte_rate == old(self)@.byte_rate,
    {
        self.shutdown = true;
    }

    /// Whether the producer has been asked to stop.
    pub fn is_shutdown(&self) -> (b: bool)
        ensures
            b == self@.shutdown,
    {
        self.shutdown
    }

    /// The compressed byte rate used to map bytes to seconds.
    pub fn byte_rate(&self) -> (r: u64)
        ensures
            r == self@.byte_rate,
    {
        self.byte_rate
    }

    /// The window as absolute byte offsets `(tail, read, head)`.
    pub fn window_bytes(&self) -> (w: (u64, u64, u64))
        ensures
            w.0 == self@.ring.tail,
            w.1 == self@.ring.read,
            w.2 == self@.ring.head,
    {
        (self.ring.tail, self.ring.read, self.ring.head)
    }

    /// Moves the read cursor to byte offset `pos`, clamped into the retained
    /// window, and returns where it landed.
    pub fn seek_bytes(&mut self, pos: u64) -> (landed: u64)
        requires
            old(self).wf(),
        ensures
            final(self).wf(),
            final(self)@.ring == after_seek(old(self)@.ring, pos as nat),
            landed == final(self)@.ring.read,
            final(self)@.byte_rate == old(self)@.byte_rate,
            final(self)@.shutdown == old(self)@.shutdown,
    {
        self.ring.seek(pos)
    }

    /// One read attempt: copies buffered bytes from the cursor into `buf`, or
    /// reports that the stream has ended (end of stream or shutdown with
    /// nothing ahead), or that the caller should wait for the producer.
    pub fn read_step(&mut self, buf: &mut [u8]) -> (r: ReadStep)
        requires
            old(self).wf(),
        ensures
            final(self).wf(),
            final(self)@.ring == after_read(old(self)@.ring, old(buf)@.len()),
            final(buf)@ == pending(old(self)@.ring).take(
                read_count(old(self)@.ring, old(buf)@.len()) as int,
            ) + old(buf)@.skip(read_count(old(self)@.ring, old(buf)@.len()) as int),
            r == outcome(
                read_count(old(self)@.ring, old(buf)@.len()),
                old(self)@.ring.eof,
                old(self)@.shutdown,
            ),
            final(self)@.byte_rate == old(self)@.byte_rate,
            final(self)@.shutdown == old(self)@.shutdown,
    {
        let n = self.ring.read(buf);
        read_outcome(n, self.ring.eof, self.shutdown)
    }

    /// Moves the cursor as `from` asks, clamped into the retained window, and
    /// returns where it landed.
    pub fn seek(&mut self, from: SeekOrigin) -> (landed: u64)
        requires
            old(self).wf(),
        ensures
            final(self).wf(),
            landed == clamp_int(
                seek_target(from, old(self)@.ring.read, old(self)@.ring.head),
                old(self)@.ring.tail,
                old(self)@.ring.head,
            ),
            final(self)@.ring == after_seek(old(self)@.ring, landed as nat),
            final(self)@.byte_rate == old(self)@.byte_rate,
            final(self)@.shutdown == old(self)@.shutdown,
    {
        let target = seek_landing(from, self.ring.tail, self.ring.read, self.ring.head);
        self.ring.seek(target)
    }
}

/// Bytes written to a buffer whose reader has caught up come back in order,
/// and once the stream has ended a drained buffer reports the end instead of
/// waiting.
pub proof fn lemma_written_bytes_read_back_then_end(v: RingView, src: Seq<u8>, len: nat, shutdown: bool)
    requires
        ring_valid(v),
        v.read == v.head,
        0 < src.len() <= v.cap,
        src.len() <= len,
    ensures
        ({
            let w = RingView { eof: true, ..after_write(v, src) };
            let n = read_count(w, len);
            &&& n == src.len()
            &&& pending(w).take(n as int) == src
            &&& outcome(n, w.eof, shutdown) == ReadStep::Data(src.len() as usize)
            &&& read_count(after_read(w, len), len) == 0
            &&& outcome(0, after_read(w, len).eof, shutdown) == ReadStep::End
        }),
{
    lemma_write_appends_to_pending(v, src);
    assert(pending(v) =~= Seq::<u8>::empty());
    let w = RingView { eof: true, ..after_write(v, src) };
    assert(pending(w) == pending(after_write(v, src)));
    assert(pending(w).take(src.len() as int) =~= src);
}

/// What one attempt to read from the buffer came to.
#[derive(Debug, Clone, Copy, PartialEq, Eq, Structural)]
pub enum ReadStep {
    /// This many bytes were copied into the caller's buffer.
    Data(usize),
    /// The stream has ended (or was torn down) and nothing is buffered ahead.
    End,
    /// Nothing is buffered ahead yet: wait for the producer and try again.
    Wait,
}

/// The outcome of a read attempt that copied `copied` bytes: bytes win, then a
/// real end of stream (the producer finished or was shut down), else wait.
pub open spec fn outcome(copied: nat, eof: bool, shutdown: bool) -> ReadStep {
    if copied > 0 {
        ReadStep::Data(copied as usize)
    } else if eof || shutdown {
        ReadStep::End
    } else {
        ReadStep::Wait
    }
}

/// Decides the outcome of a read attempt from the number of bytes copied and
/// the producer's flags.
pub fn read_outcome(copied: usize, eof: bool, shutdown: bool) -> (r: ReadStep)
    ensures
        r == outcome(copied as nat, eof, shutdown),
{
    if copied > 0 {
        ReadStep::Data(copied)
    } else if eof || shutdown {
        ReadStep::End
    } else {
        ReadStep::Wait
    }
}

/// Where a seek is measured from, as in `std::io::SeekFrom`.
#[derive(Debug, Clone, Copy, PartialEq, Eq, Structural)]
pub enum SeekOrigin {
    Start(u64),
    Current(i64),
    End(i64),
}

/// The absolute offset a seek asks for (never below zero).
pub open spec fn seek_target(from: SeekOrigin, read: nat, head: nat) -> int {
    match from {
        SeekOrigin::Start(n) => n as int,
        SeekOrigin::Current(d) => if read + d < 0 { 0 } else { read + d },
        SeekOrigin::End(d) => if head + d < 0 { 0 } else { head + d },
    }
}

/// `pos` clamped into `[lo, hi]`.
pub open spec fn clamp_int(pos: int, lo: nat, hi: nat) -> nat {
    if pos < lo {
        lo
    } else if pos > hi {
        hi
    } else {
        pos as nat
    }
}

/// Where a seek from `from` lands in the window `[tail, head]` with the
/// cursor at `read`.
pub fn seek_landing(from: SeekOrigin, tail: u64, read: u64, head: u64) -> (p: u64)
    requires
        tail <= read <= head,
    ensures
        p == clamp_int(seek_target(from, read as nat, head as nat), tail as nat, head as nat),
{
    let target: i128 = match from {
        SeekOrigin::Start(n) => n as i128,
        SeekOrigin::Current(d) => {
            let t = read as i128 + d as i128;
            if t < 0 { 0 } else { t }
        },
        SeekOrigin::End(d) => {
            let t = head as i128 + d as i128;
            if t < 0 { 0 } else { t }
        },
    };
    if target < tail as i128 {
        tail
    } else if target > head as i128 {
        head
    } else {
        target as u64
    }
}

} // verus!
