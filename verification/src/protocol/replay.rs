//! Anti-replay sliding window: a 128-bit bitmap of the sequence numbers seen
//! just below the highest one, in constant time and memory.
use vstd::prelude::*;

use super::REPLAY_WINDOW_SIZE;
use crate::error::TunnelError;
use crate::text::{decimal, push_decimal};

verus! {

/// The abstract state of a replay filter.
pub struct ReplayState {
    /// How many sequence numbers below the highest one are tracked (1 to 128).
    pub window_size: u64,
    /// Bit `d` is set when sequence number `last_seq - d` has been accepted.
    pub bitmap: u128,
    /// The highest sequence number accepted so far.
    pub last_seq: u64,
    /// Whether a first sequence number has been accepted.
    pub initialized: bool,
    pub total_seen: u64,
    pub total_accepted: u64,
    pub total_rejected: u64,
}

/// The window size actually used for a requested size: clamped to 1..=128.
pub open spec fn clamp_window(window_size: u64) -> u64 {
    if window_size < 1 {
        1
    } else if window_size > 128 {
        128
    } else {
        window_size
    }
}

/// The state of a fresh filter with the given (clamped) window size.
pub open spec fn fresh_state(window_size: u64) -> ReplayState {
    ReplayState {
        window_size,
        bitmap: 0,
        last_seq: 0,
        initialized: false,
        total_seen: 0,
        total_accepted: 0,
        total_rejected: 0,
    }
}

impl ReplayState {
    /// The state invariant: a window of 1 to 128; every validated sequence
    /// number counted as accepted or rejected; the filter is initialized
    /// exactly when it has validated a sequence number; once initialized, the
    /// highest sequence number counts as seen (bit 0 is set).
    pub open spec fn wf(self) -> bool {
        &&& 1 <= self.window_size <= 128
        &&& self.total_accepted + self.total_rejected == self.total_seen
        &&& self.initialized == (self.total_seen > 0)
        &&& self.initialized ==> self.marked(0)
    }

    /// Whether bit `d` of the bitmap is set.
    pub open spec fn marked(self, d: u64) -> bool {
        self.bitmap & (1u128 << d) != 0
    }

    /// Whether `seq` counts as already seen: it was accepted and is still in
    /// the window, or it is too old for the window.
    pub open spec fn seen(self, seq: u64) -> bool {
        &&& self.initialized
        &&& seq <= self.last_seq
        &&& (self.last_seq - seq >= self.window_size || self.marked((self.last_seq - seq) as u64))
    }

    /// The state after validating `seq`.
    pub open spec fn after(self, seq: u64) -> ReplayState {
        if !self.initialized {
            ReplayState {
                window_size: self.window_size,
                bitmap: 1,
                last_seq: seq,
                initialized: true,
                total_seen: (self.total_seen + 1) as u64,
                total_accepted: (self.total_accepted + 1) as u64,
                total_rejected: self.total_rejected,
            }
        } else if seq > self.last_seq {
            let diff = (seq - self.last_seq) as u64;
            ReplayState {
                window_size: self.window_size,
                bitmap: if diff < self.window_size {
                    (self.bitmap << diff) | 1u128
                } else {
                    1u128
                },
                last_seq: seq,
                initialized: true,
                total_seen: (self.total_seen + 1) as u64,
                total_accepted: (self.total_accepted + 1) as u64,
                total_rejected: self.total_rejected,
            }
        } else if self.seen(seq) {
            ReplayState {
                total_seen: (self.total_seen + 1) as u64,
                total_rejected: (self.total_rejected + 1) as u64,
                ..self
            }
        } else {
            ReplayState {
                bitmap: self.bitmap | (1u128 << ((self.last_seq - seq) as u64)),
                total_seen: (self.total_seen + 1) as u64,
                total_accepted: (self.total_accepted + 1) as u64,
                ..self
            }
        }
    }
}

/// Shifting the bitmap up and setting bit 0 keeps every set bit that stays
/// below 128, moved up by the shift.
proof fn lemma_shift_keeps_bit(b: u128, d: u64, k: u64)
    requires
        b & (1u128 << d) != 0,
        d + k < 128,
    ensures
        ((b << k) | 1u128) & (1u128 << ((d + k) as u64)) != 0,
{
    let e = (d + k) as u64;
    assert(((b << k) | 1u128) & (1u128 << e) != 0) by (bit_vector)
        requires
            b & (1u128 << d) != 0,
            d + k < 128,
            e == d + k,
    ;
}

/// Setting more bits keeps every set bit.
proof fn lemma_or_keeps_bit(b: u128, x: u128, d: u64)
    requires
        b & (1u128 << d) != 0,
        d < 128,
    ensures
        (b | x) & (1u128 << d) != 0,
{
    assert((b | x) & (1u128 << d) != 0) by (bit_vector)
        requires
            b & (1u128 << d) != 0,
            d < 128,
    ;
}

/// Bit `d` is set in `b | (1 << d)`; bit 0 is set in `x | 1`.
proof fn lemma_set_bits(b: u128, d: u64)
    requires
        d < 128,
    ensures
        (b | (1u128 << d)) & (1u128 << d) != 0,
        ((b << d) | 1u128) & (1u128 << 0u64) != 0,
        1u128 & (1u128 << 0u64) != 0,
{
    assert((b | (1u128 << d)) & (1u128 << d) != 0) by (bit_vector)
        requires
            d < 128,
    ;
    assert(((b << d) | 1u128) & (1u128 << 0u64) != 0) by (bit_vector);
    assert(1u128 & (1u128 << 0u64) != 0) by (bit_vector);
}

/// Validating a sequence number marks it as seen, and never forgets a
/// sequence number that was seen before: once accepted, a sequence number is
/// refused for ever after.
pub proof fn law_seen_is_permanent(s: ReplayState, seq: u64, t: u64)
    requires
        s.wf(),
        s.total_seen < u64::MAX,
    ensures
        s.after(seq).wf(),
        s.after(seq).seen(seq),
        s.seen(t) ==> s.after(seq).seen(t),
{
    let n = s.after(seq);
    if !s.initialized {
        lemma_set_bits(0u128, 0u64);
    } else if seq > s.last_seq {
        let k = (seq - s.last_seq) as u64;
        lemma_set_bits(s.bitmap, 0u64);
        if k < s.window_size {
            lemma_set_bits(s.bitmap, k);
        }
        if s.seen(t) {
            let d = (s.last_seq - t) as u64;
            if d < s.window_size && d + k < s.window_size {
                lemma_shift_keeps_bit(s.bitmap, d, k);
                assert(n.last_seq - t == d + k);
            }
        }
    } else if s.seen(seq) {
    } else {
        let d = (s.last_seq - seq) as u64;
        lemma_set_bits(s.bitmap, d);
        lemma_or_keeps_bit(s.bitmap, 1u128 << d, 0u64);
        if s.seen(t) {
            let e = (s.last_seq - t) as u64;
            if e < s.window_size {
                lemma_or_keeps_bit(s.bitmap, 1u128 << d, e);
            }
        }
    }
}

/// The state after validating each of `seqs` in turn, starting from `s`.
pub open spec fn run(s: ReplayState, seqs: Seq<u64>) -> ReplayState
    decreases seqs.len(),
{
    if seqs.len() == 0 {
        s
    } else {
        run(s, seqs.drop_last()).after(seqs.last())
    }
}

/// The largest of `seqs`, or 0 when there is none.
pub open spec fn seq_max(seqs: Seq<u64>) -> u64
    decreases seqs.len(),
{
    if seqs.len() == 0 {
        0
    } else if seq_max(seqs.drop_last()) < seqs.last() {
        seqs.last()
    } else {
        seq_max(seqs.drop_last())
    }
}

/// Over any run of validations the state invariant holds, every validated
/// sequence number is counted, and nothing is forgotten: a sequence number
/// seen before the run, or validated during it, counts as seen after it and
/// is therefore refused by any later validation until the filter is reset.
pub proof fn law_run_never_forgets(s: ReplayState, seqs: Seq<u64>, t: u64)
    requires
        s.wf(),
        s.total_seen + seqs.len() <= u64::MAX,
    ensures
        run(s, seqs).wf(),
        run(s, seqs).total_seen == s.total_seen + seqs.len(),
        s.seen(t) ==> run(s, seqs).seen(t),
        forall|i: int| 0 <= i < seqs.len() ==> run(s, seqs).seen(#[trigger] seqs[i]),
    decreases seqs.len(),
{
    if seqs.len() > 0 {
        let pre = seqs.drop_last();
        let x = seqs.last();
        law_run_never_forgets(s, pre, t);
        let m = run(s, pre);
        law_seen_is_permanent(m, x, t);
        assert forall|i: int| 0 <= i < seqs.len() implies run(s, seqs).seen(#[trigger] seqs[i]) by {
            if i < seqs.len() - 1 {
                assert(seqs[i] == pre[i]);
                law_run_never_forgets(s, pre, seqs[i]);
                law_seen_is_permanent(m, x, seqs[i]);
            } else {
                law_seen_is_permanent(m, x, x);
            }
        }
    }
}

/// Every bit set in the bitmap stands for a sequence number of `seqs`: bit
/// `d` for `last_seq - d`.
pub open spec fn marks_from(s: ReplayState, seqs: Seq<u64>) -> bool {
    forall|d: u64| d < 128 && #[trigger] s.marked(d) ==> d <= s.last_seq && seqs.contains(
        (s.last_seq - d) as u64,
    )
}

/// Bits of a shifted bitmap with bit 0 set come from the old bitmap, moved
/// up by the shift; bits of an or come from one of its parts; the only bit
/// of 1 is bit 0; no bit of 0 is set.
proof fn lemma_bit_sources(b: u128, k: u64, e: u64, d: u64)
    requires
        d < 128,
        k < 128,
        e < 128,
    ensures
        ((b << k) | 1u128) & (1u128 << d) != 0 && d > 0 ==> d >= k && b & (1u128 << ((d - k) as u64)) != 0,
        (b | (1u128 << e)) & (1u128 << d) != 0 && d != e ==> b & (1u128 << d) != 0,
        1u128 & (1u128 << d) != 0 ==> d == 0,
        0u128 & (1u128 << d) == 0,
{
    if d >= k {
        let j = (d - k) as u64;
        assert(((b << k) | 1u128) & (1u128 << d) != 0 && d > 0 ==> b & (1u128 << j) != 0) by (bit_vector)
            requires
                d < 128,
                k < 128,
                j == d - k,
        ;
    } else {
        assert(((b << k) | 1u128) & (1u128 << d) != 0 && d > 0 ==> false) by (bit_vector)
            requires
                d < k,
                k < 128,
        ;
    }
    assert((b | (1u128 << e)) & (1u128 << d) != 0 && d != e ==> b & (1u128 << d) != 0) by (bit_vector)
        requires
            d < 128,
            e < 128,
    ;
    assert(1u128 & (1u128 << d) != 0 ==> d == 0) by (bit_vector)
        requires
            d < 128,
    ;
    assert(0u128 & (1u128 << d) == 0) by (bit_vector);
}

/// From a fresh filter, every set bit of the bitmap stands for a validated
/// sequence number.
proof fn lemma_run_marks(window_size: u64, seqs: Seq<u64>)
    requires
        1 <= window_size <= 128,
    ensures
        marks_from(run(fresh_state(window_size), seqs), seqs),
        run(fresh_state(window_size), seqs).window_size == window_size,
    decreases seqs.len(),
{
    let f = fresh_state(window_size);
    if seqs.len() == 0 {
        assert forall|d: u64| d < 128 && #[trigger] f.marked(d) implies d <= f.last_seq && seqs.contains(
            (f.last_seq - d) as u64,
        ) by {
            lemma_bit_sources(0u128, 0u64, 0u64, d);
        }
    } else {
        let pre = seqs.drop_last();
        let x = seqs.last();
        lemma_run_marks(window_size, pre);
        let m = run(f, pre);
        let n = m.after(x);
        assert(seqs =~= pre.push(x));
        assert forall|d: u64| d < 128 && #[trigger] n.marked(d) implies d <= n.last_seq && seqs.contains(
            (n.last_seq - d) as u64,
        ) by {
            if !m.initialized {
                lemma_bit_sources(0u128, 0u64, 0u64, d);
                assert(seqs[seqs.len() - 1] == x);
            } else if x > m.last_seq {
                let k = (x - m.last_seq) as u64;
                if k < m.window_size {
                    lemma_bit_sources(m.bitmap, k, 0u64, d);
                    if d > 0 {
                        let j = (d - k) as u64;
                        assert(m.marked(j));
                        assert(pre.contains((m.last_seq - j) as u64));
                        let i = choose|i: int| 0 <= i < pre.len() && pre[i] == (m.last_seq - j) as u64;
                        assert(seqs[i] == pre[i]);
                    } else {
                        assert(seqs[seqs.len() - 1] == x);
                    }
                } else {
                    lemma_bit_sources(m.bitmap, 0u64, 0u64, d);
                    assert(seqs[seqs.len() - 1] == x);
                }
            } else if m.seen(x) {
                assert(m.marked(d));
                let i = choose|i: int| 0 <= i < pre.len() && pre[i] == (m.last_seq - d) as u64;
                assert(seqs[i] == pre[i]);
            } else {
                let e = (m.last_seq - x) as u64;
                lemma_bit_sources(m.bitmap, 0u64, e, d);
                if d != e {
                    assert(m.marked(d));
                    let i = choose|i: int| 0 <= i < pre.len() && pre[i] == (m.last_seq - d) as u64;
                    assert(seqs[i] == pre[i]);
                } else {
                    assert(seqs[seqs.len() - 1] == x);
                }
            }
        }
    }
}

/// No false rejection: from a fresh filter with a window of 1 to 128, after
/// validating `seqs`, a sequence number that none of them was and that is
/// not too old for the window (above the highest minus the window size) is
/// not seen, so the next validation accepts it, out of order or not.
pub proof fn law_run_no_false_rejection(window_size: u64, seqs: Seq<u64>, seq: u64)
    requires
        1 <= window_size <= 128,
        !seqs.contains(seq),
        seq + window_size > run(fresh_state(window_size), seqs).last_seq,
    ensures
        !run(fresh_state(window_size), seqs).seen(seq),
{
    lemma_run_marks(window_size, seqs);
    let n = run(fresh_state(window_size), seqs);
    if n.seen(seq) {
        let d = (n.last_seq - seq) as u64;
        assert(n.marked(d));
        assert(n.last_seq - d == seq);
    }
}

/// From a fresh filter, after validating `seqs` (each accepted or refused),
/// the filter is initialized exactly when `seqs` is not empty, and its
/// highest sequence number is the largest of `seqs` (0 when empty): a number
/// above the highest is always accepted, and a refused one changes nothing.
pub proof fn law_run_highest(window_size: u64, seqs: Seq<u64>)
    ensures
        run(fresh_state(window_size), seqs).initialized == (seqs.len() > 0),
        run(fresh_state(window_size), seqs).last_seq == seq_max(seqs),
    decreases seqs.len(),
{
    if seqs.len() > 0 {
        law_run_highest(window_size, seqs.drop_last());
    }
}

/// A fresh filter has seen nothing.
pub proof fn law_fresh_sees_nothing(window_size: u64, t: u64)
    ensures
        !fresh_state(window_size).seen(t),
{
}

/// A sequence number above every accepted one is always accepted.
pub proof fn law_newer_is_accepted(s: ReplayState, seq: u64)
    requires
        s.initialized,
        seq > s.last_seq,
    ensures
        !s.seen(seq),
{
}

/// The message of the error for refusing `seq`, too old for a window of
/// `window_size`.
pub open spec fn too_old_text(seq: u64, window_size: u64) -> Seq<char> {
    "REPLAY DETECTED! Sekvensnummer "@ + decimal(seq as nat) + " er for gammelt (utenfor vinduet på "@
        + decimal(window_size as nat) + ")"@
}

/// The message of the error for refusing `seq`, accepted before.
pub open spec fn duplicate_text(seq: u64) -> Seq<char> {
    "REPLAY DETECTED! Sekvensnummer "@ + decimal(seq as nat) + " har allerede blitt prosessert!"@
}

impl ReplayState {
    /// The message of the error for refusing `seq`.
    pub open spec fn refusal_text(self, seq: u64) -> Seq<char> {
        if self.last_seq - seq >= self.window_size {
            too_old_text(seq, self.window_size)
        } else {
            duplicate_text(seq)
        }
    }
}

/// Anti-replay sliding window over 64-bit sequence numbers, with counters of
/// the numbers validated, accepted and rejected.
#[derive(Debug, Clone)]
pub struct ReplayFilter {
    window_size: u64,
    bitmap: u128,
    last_seq: u64,
    initialized: bool,
    total_seen: u64,
    total_accepted: u64,
    total_rejected: u64,
}

impl View for ReplayFilter {
    type V = ReplayState;

    closed spec fn view(&self) -> ReplayState {
        ReplayState {
            window_size: self.window_size,
            bitmap: self.bitmap,
            last_seq: self.last_seq,
            initialized: self.initialized,
            total_seen: self.total_seen,
            total_accepted: self.total_accepted,
            total_rejected: self.total_rejected,
        }
    }
}

impl Default for ReplayFilter {
    /// A filter with the default window size.
    fn default() -> (r: Self)
        ensures
            r@ == fresh_state(REPLAY_WINDOW_SIZE),
    {
        Self::new()
    }
}

impl ReplayFilter {
    /// A filter with the default window of 128 sequence numbers.
    pub fn new() -> (r: Self)
        ensures
            r@ == fresh_state(REPLAY_WINDOW_SIZE),
            r@.wf(),
    {
        Self::with_window_size(REPLAY_WINDOW_SIZE)
    }

    /// A filter whose window size is `window_size` clamped to 1..=128.
    pub fn with_window_size(window_size: u64) -> (r: Self)
        ensures
            r@ == fresh_state(clamp_window(window_size)),
            r@.wf(),
    {
        let clamped_size = if window_size < 1 {
            1
        } else if window_size > 128 {
            128
        } else {
            window_size
        };
        ReplayFilter {
            window_size: clamped_size,
            bitmap: 0,
            last_seq: 0,
            initialized: false,
            total_seen: 0,
            total_accepted: 0,
            total_rejected: 0,
        }
    }

    /// Accepts `seq` if it was not seen before and is not too old for the
    /// window, recording it; refuses it otherwise. Counters are updated
    /// either way.
    pub fn validate_and_record(&mut self, seq: u64) -> (r: Result<(), TunnelError>)
        requires
            old(self)@.wf(),
            old(self)@.total_seen < u64::MAX,
        ensures
            final(self)@ == old(self)@.after(seq),
            final(self)@.wf(),
            r is Ok <==> !old(self)@.seen(seq),
            final(self)@.seen(seq),
            forall|t: u64| old(self)@.seen(t) ==> #[trigger] final(self)@.seen(t),
            r is Err ==> (r matches Err(TunnelError::Other(m)) && m@ == old(self)@.refusal_text(seq)),
    {
        let ghost pre = self@;
        proof {
            law_seen_is_permanent(pre, seq, seq);
            assert forall|t: u64| pre.seen(t) implies #[trigger] pre.after(seq).seen(t) by {
                law_seen_is_permanent(pre, seq, t);
            }
        }
        self.total_seen = self.total_seen + 1;

        if !self.initialized {
            self.last_seq = seq;
            self.bitmap = 1;
            self.initialized = true;
            self.total_accepted = self.total_accepted + 1;
            return Ok(());
        }

        if seq > self.last_seq {
            let diff = seq - self.last_seq;
            if diff < self.window_size {
                self.bitmap = (self.bitmap << diff) | 1u128;
            } else {
                self.bitmap = 1;
            }
            self.last_seq = seq;
            self.total_accepted = self.total_accepted + 1;
            Ok(())
        } else {
            let diff = self.last_seq - seq;
            if diff >= self.window_size {
                self.total_rejected = self.total_rejected + 1;
                let mut m = String::from_str("REPLAY DETECTED! Sekvensnummer ");
                push_decimal(&mut m, seq);
                m.append(" er for gammelt (utenfor vinduet på ");
                push_decimal(&mut m, self.window_size);
                m.append(")");
                return Err(TunnelError::Other(m));
            }
            let bit = 1u128 << diff;
            if (self.bitmap & bit) != 0 {
                self.total_rejected = self.total_rejected + 1;
                let mut m = String::from_str("REPLAY DETECTED! Sekvensnummer ");
                push_decimal(&mut m, seq);
                m.append(" har allerede blitt prosessert!");
                return Err(TunnelError::Other(m));
            }
            self.bitmap = self.bitmap | bit;
            self.total_accepted = self.total_accepted + 1;
            Ok(())
        }
    }

    /// The highest sequence number accepted so far (0 before the first).
    pub fn highest_seen(&self) -> (r: u64)
        ensures
            r == self@.last_seq,
    {
        self.last_seq
    }

    /// The window size.
    pub fn window_size(&self) -> (r: u64)
        ensures
            r == self@.window_size,
    {
        self.window_size
    }

    /// The window size, under another name.
    pub fn capacity(&self) -> (r: u64)
        ensures
            r == self@.window_size,
    {
        self.window_size
    }

    /// Whether `seq` would be refused (already accepted, or too old), without
    /// changing the filter.
    pub fn has_seen(&self, seq: u64) -> (r: bool)
        requires
            self@.wf(),
        ensures
            r == self@.seen(seq),
    {
        if !self.initialized {
            return false;
        }
        if seq > self.last_seq {
            return false;
        }
        let diff = self.last_seq - seq;
        if diff >= self.window_size {
            return true;
        }
        let bit = 1u128 << diff;
        (self.bitmap & bit) != 0
    }

    /// Whether a first sequence number has been accepted.
    pub fn is_initialized(&self) -> (r: bool)
        ensures
            r == self@.initialized,
    {
        self.initialized
    }

    /// The number of sequence numbers validated.
    pub fn total_seen(&self) -> (r: u64)
        ensures
            r == self@.total_seen,
    {
        self.total_seen
    }

    /// The number of sequence numbers accepted.
    pub fn total_accepted(&self) -> (r: u64)
        ensures
            r == self@.total_accepted,
    {
        self.total_accepted
    }

    /// The number of sequence numbers refused.
    pub fn total_rejected(&self) -> (r: u64)
        ensures
            r == self@.total_rejected,
    {
        self.total_rejected
    }

    /// Forgets every sequence number and zeroes the counters; the window size
    /// stays.
    pub fn reset(&mut self)
        ensures
            final(self)@ == fresh_state(old(self)@.window_size),
            old(self)@.wf() ==> final(self)@.wf(),
    {
        self.bitmap = 0;
        self.last_seq = 0;
        self.initialized = false;
        self.total_seen = 0;
        self.total_accepted = 0;
        self.total_rejected = 0;
    }

    /// A one-line description of the filter state.
    pub fn to_string(&self) -> (r: String)
        ensures
            r@ == "ReplayFilter(window="@ + decimal(self@.window_size as nat) + ", last_seq="@
                + decimal(self@.last_seq as nat) + ", accepted="@ + decimal(
                self@.total_accepted as nat,
            ) + "/"@ + decimal(self@.total_seen as nat) + ", rejected="@ + decimal(
                self@.total_rejected as nat,
            ) + ")"@,
    {
        let mut r = String::from_str("ReplayFilter(window=");
        push_decimal(&mut r, self.window_size);
        r.append(", last_seq=");
        push_decimal(&mut r, self.last_seq);
        r.append(", accepted=");
        push_decimal(&mut r, self.total_accepted);
        r.append("/");
        push_decimal(&mut r, self.total_seen);
        r.append(", rejected=");
        push_decimal(&mut r, self.total_rejected);
        r.append(")");
        r
    }
}

} // verus!
