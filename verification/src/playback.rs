//! The playback queue: decoded audio waits here until the output callback
//! drains it, and what was drained last is kept for the level meter.

use vstd::prelude::*;
use crate::levels::{four_band_levels, levels_of, OUTPUT_BOOST};
use crate::pcm::{decode_s16le, decode_samples};

verus! {

/// How many drained samples are kept for the level meter.
pub const RECENT_CAPACITY: usize = 2048;

/// The last `cap` items of a run, or all of it where it is shorter.
pub open spec fn tail(s: Seq<i16>, cap: nat) -> Seq<i16> {
    if s.len() > cap {
        s.skip(s.len() - cap)
    } else {
        s
    }
}

/// How many samples one callback takes from a queue when it wants `want`.
pub open spec fn taken(queue: Seq<i16>, want: nat) -> nat {
    if queue.len() < want {
        queue.len()
    } else {
        want
    }
}

/// What one callback writes for `len` output slots of `channels` channels:
/// each queued sample on every channel of its frame, silence behind them.
pub open spec fn rendered(queue: Seq<i16>, len: nat, channels: nat) -> Seq<i16> {
    Seq::new(
        len,
        |j: int|
            if channels > 0 && j / (channels as int) < taken(queue, len / channels) {
                queue[j / (channels as int)]
            } else {
                0i16
            },
    )
}

/// One thing that happens to the queue.
pub enum PlayerOp {
    /// Bytes arrive from the network.
    Enqueue(Seq<u8>),
    /// The output callback asks for this many mono samples.
    Render(nat),
    /// The queue is flushed.
    Clear,
}

/// The queue after one operation.
pub open spec fn queue_after(queue: Seq<i16>, op: PlayerOp) -> Seq<i16> {
    match op {
        PlayerOp::Enqueue(bytes) => queue + decode_s16le(bytes),
        PlayerOp::Render(want) => queue.skip(taken(queue, want) as int),
        PlayerOp::Clear => Seq::empty(),
    }
}

/// The queue after the first `n` operations, from an empty queue.
pub open spec fn queue_after_all(ops: Seq<PlayerOp>, n: int) -> Seq<i16>
    decreases n,
{
    if n <= 0 || n > ops.len() {
        Seq::empty()
    } else {
        queue_after(queue_after_all(ops, n - 1), ops[n - 1])
    }
}

/// How many samples the first `n` operations put in.
pub open spec fn enqueued_count(ops: Seq<PlayerOp>, n: int) -> nat
    decreases n,
{
    if n <= 0 || n > ops.len() {
        0
    } else {
        enqueued_count(ops, n - 1) + match ops[n - 1] {
            PlayerOp::Enqueue(bytes) => decode_s16le(bytes).len(),
            _ => 0,
        }
    }
}

/// How many samples the callbacks among the first `n` operations took out.
pub open spec fn drained_count(ops: Seq<PlayerOp>, n: int) -> nat
    decreases n,
{
    if n <= 0 || n > ops.len() {
        0
    } else {
        drained_count(ops, n - 1) + match ops[n - 1] {
            PlayerOp::Render(want) => taken(queue_after_all(ops, n - 1), want),
            _ => 0,
        }
    }
}

/// The playback side of a live session.
pub struct AudioPlayer {
    buffer: Vec<i16>,
    recent_output: Vec<i16>,
    playing: bool,
}

impl AudioPlayer {
    /// The samples that wait to be played, oldest first.
    pub closed spec fn queued(&self) -> Seq<i16> {
        self.buffer@
    }

    /// The samples played last, oldest first.
    pub closed spec fn recent(&self) -> Seq<i16> {
        self.recent_output@
    }

    /// Whether the last callback found audio to play.
    pub closed spec fn playing(&self) -> bool {
        self.playing
    }

    /// The meter's window never outgrows its capacity.
    pub closed spec fn well_formed(&self) -> bool {
        self.recent_output@.len() <= RECENT_CAPACITY
    }

    /// A player with nothing queued and nothing played.
    pub fn new() -> (player: AudioPlayer)
        ensures
            player.well_formed(),
            player.queued() == Seq::<i16>::empty(),
            player.recent() == Seq::<i16>::empty(),
            !player.playing(),
    {
        AudioPlayer { buffer: Vec::new(), recent_output: Vec::new(), playing: false }
    }

    /// Queues little-endian 16-bit PCM bytes behind what already waits.
    pub fn enqueue(&mut self, pcm: &[u8])
        requires
            old(self).well_formed(),
        ensures
            final(self).well_formed(),
            final(self).queued() == queue_after(old(self).queued(), PlayerOp::Enqueue(pcm@)),
            final(self).queued() == old(self).queued() + decode_s16le(pcm@),
            final(self).recent() == old(self).recent(),
            final(self).playing() == old(self).playing(),
    {
        let mut samples = decode_samples(pcm);
        self.buffer.append(&mut samples);
    }

    /// Flushes the queue and the meter's window.
    pub fn clear(&mut self)
        ensures
            final(self).well_formed(),
            final(self).queued() == Seq::<i16>::empty(),
            final(self).queued() == queue_after(old(self).queued(), PlayerOp::Clear),
            final(self).recent() == Seq::<i16>::empty(),
            final(self).playing() == old(self).playing(),
    {
        self.buffer.clear();
        self.recent_output.clear();
    }

    /// Whether the last callback found audio to play.
    pub fn is_playing(&self) -> (playing: bool)
        ensures
            playing == self.playing(),
    {
        self.playing
    }

    /// The four-band levels of what was played last, each between 0 and
    /// 1000; all zero where nothing was played since the last flush.
    pub fn get_output_levels(&self) -> (levels: [u16; 4])
        ensures
            levels@ == levels_of(self.recent(), OUTPUT_BOOST as nat),
            forall|i: int| 0 <= i < 4 ==> levels@[i] <= 1000,
            self.recent().len() == 0 ==> levels@ == seq![0u16, 0u16, 0u16, 0u16],
    {
        four_band_levels(self.recent_output.as_slice(), OUTPUT_BOOST)
    }

    /// How many samples wait.
    pub fn queued_len(&self) -> (len: usize)
        ensures
            len == self.queued().len(),
    {
        self.buffer.len()
    }

    /// The meter's window: the last samples played, at most `limit` of them.
    pub fn recent_window(&self, limit: usize) -> (window: Vec<i16>)
        ensures
            window@ == tail(self.recent(), limit as nat),
    {
        let len = self.recent_output.len();
        let start = if len > limit {
            len - limit
        } else {
            0
        };
        let mut window: Vec<i16> = Vec::new();
        let mut i: usize = start;
        while i < len
            invariant
                start <= i <= len,
                len == self.recent_output@.len(),
                window@ == self.recent_output@.subrange(start as int, i as int),
            decreases len - i,
        {
            window.push(self.recent_output[i]);
            i += 1;
            assert(window@ =~= self.recent_output@.subrange(start as int, i as int));
        }
        assert(window@ =~= tail(self.recent(), limit as nat));
        window
    }

    /// One output callback: fills `len` slots for a device of `channels`
    /// channels. It takes as many queued samples as there are whole frames,
    /// writes each on every channel of its frame and silence behind them,
    /// and moves what it took into the meter's window. An empty queue gives
    /// silence and marks the player as not playing.
    pub fn render(&mut self, len: usize, channels: usize) -> (out: Vec<i16>)
        requires
            old(self).well_formed(),
            channels > 0,
        ensures
            final(self).well_formed(),
            out@ == rendered(old(self).queued(), len as nat, channels as nat),
            final(self).queued() == queue_after(
                old(self).queued(),
                PlayerOp::Render((len / channels) as nat),
            ),
            final(self).playing() == (old(self).queued().len() > 0),
            final(self).recent() == tail(
                old(self).recent() + old(self).queued().take(
                    taken(old(self).queued(), (len / channels) as nat) as int,
                ),
                RECENT_CAPACITY as nat,
            ),
    {
        let ghost queue = self.buffer@;
        let ghost recent = self.recent_output@;
        let want = len / channels;
        let take = if self.buffer.len() < want {
            self.buffer.len()
        } else {
            want
        };
        self.playing = self.buffer.len() > 0;
        let mut drained = self.buffer.split_off(take);
        std::mem::swap(&mut self.buffer, &mut drained);
        assert(drained@ =~= queue.take(take as int));
        assert(self.buffer@ =~= queue.skip(take as int));

        let mut out: Vec<i16> = Vec::new();
        let mut j: usize = 0;
        while j < len
            invariant
                j <= len,
                channels > 0,
                take == taken(queue, (len / channels) as nat),
                drained@ == queue.take(take as int),
                out@.len() == j,
                forall|k: int| 0 <= k < j ==> out@[k] == rendered(queue, len as nat, channels as nat)[k],
            decreases len - j,
        {
            let frame = j / channels;
            let sample: i16 = if frame < take {
                drained[frame]
            } else {
                0
            };
            out.push(sample);
            j += 1;
        }
        assert(out@ =~= rendered(queue, len as nat, channels as nat));

        let mut k: usize = 0;
        while k < drained.len()
            invariant
                k <= drained@.len(),
                self.recent_output@ == recent + drained@.take(k as int),
                self.buffer@ == queue.skip(take as int),
                self.playing == (queue.len() > 0),
            decreases drained.len() - k,
        {
            self.recent_output.push(drained[k]);
            k += 1;
            assert(self.recent_output@ =~= recent + drained@.take(k as int));
        }
        assert(drained@.take(drained@.len() as int) =~= drained@);
        let total = self.recent_output.len();
        if total > RECENT_CAPACITY {
            let kept = self.recent_output.split_off(total - RECENT_CAPACITY);
            self.recent_output = kept;
            assert(self.recent_output@ =~= tail(recent + drained@, RECENT_CAPACITY as nat));
        }
        out
    }
}

/// Nothing is lost: as long as the queue is never flushed, the samples put
/// in are those taken out plus those that still wait.
pub proof fn no_sample_lost(ops: Seq<PlayerOp>, n: int)
    requires
        0 <= n <= ops.len(),
        forall|i: int| 0 <= i < n ==> !(ops[i] is Clear),
    ensures
        enqueued_count(ops, n) == drained_count(ops, n) + queue_after_all(ops, n).len(),
    decreases n,
{
    if n > 0 {
        no_sample_lost(ops, n - 1);
    }
}

/// Callbacks that ask for at least what waits leave the queue empty: every
/// sample that was put in has then been played.
pub proof fn keeping_pace_drains_all(queue: Seq<i16>, want: nat)
    requires
        want >= queue.len(),
    ensures
        taken(queue, want) == queue.len(),
        queue_after(queue, PlayerOp::Render(want)) == Seq::<i16>::empty(),
{
    assert(queue.skip(queue.len() as int) =~= Seq::<i16>::empty());
}

/// After a flush the next callback writes silence, whatever was queued.
pub proof fn silence_after_clear(queue: Seq<i16>, len: nat, channels: nat)
    ensures
        forall|j: int|
            0 <= j < len ==> rendered(queue_after(queue, PlayerOp::Clear), len, channels)[j] == 0i16,
{
}

} // verus!
