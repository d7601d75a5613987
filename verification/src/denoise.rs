//! The buffers around the noise suppressor.
//!
//! The suppressor works on blocks of 480 samples of one channel. Frames of any
//! length go in interleaved; full blocks are handed out, come back denoised,
//! and replace the samples of later frames.
use vstd::prelude::*;

use crate::single::Single;

verus! {

/// The samples in one block.
pub const BLOCK: usize = 480;

/// The most samples that a buffer keeps between frames.
pub const MAX_BUFFER_SIZE: usize = 960;

/// The samples of channel `ch` in interleaved data of `channels` channels.
pub open spec fn of_channel(data: Seq<Single>, channels: int, ch: int) -> Seq<Single>
    decreases data.len(),
{
    if data.len() == 0 {
        Seq::empty()
    } else {
        let before = of_channel(data.drop_last(), channels, ch);
        if (data.len() - 1) % channels == ch {
            before.push(data.last())
        } else {
            before
        }
    }
}

/// What is left of `s` after up to `n` samples were taken from the front.
pub open spec fn after_taking(s: Seq<Single>, n: int) -> Seq<Single> {
    if n < s.len() {
        s.skip(n)
    } else {
        Seq::empty()
    }
}

/// `s` cut to the buffer size.
pub open spec fn cut(s: Seq<Single>) -> Seq<Single> {
    if s.len() > MAX_BUFFER_SIZE {
        s.take(MAX_BUFFER_SIZE as int)
    } else {
        s
    }
}

/// One queue of samples to be denoised and one of denoised samples per channel.
pub struct DenoiseBuffers {
    pub inputs: Vec<Vec<Single>>,
    pub outputs: Vec<Vec<Single>>,
}

/// Whether `after` is `before` with a frame queued: sample `i` goes to channel
/// `i % channels`.
pub open spec fn frame_queued(
    before: DenoiseBuffers,
    data: Seq<Single>,
    after: DenoiseBuffers,
) -> bool {
    &&& after.wf()
    &&& after.channels() == before.channels()
    &&& forall|ch: int|
        0 <= ch < before.channels() ==> {
            &&& #[trigger] after.waiting(ch) == before.waiting(ch) + of_channel(
                data,
                before.channels(),
                ch,
            )
            &&& after.ready(ch) == before.ready(ch)
        }
}

/// Whether no channel has a full block waiting.
pub open spec fn no_block(b: DenoiseBuffers) -> bool {
    forall|ch: int| 0 <= ch < b.channels() ==> #[trigger] b.waiting(ch).len() < BLOCK
}

/// Whether `after` is `before` without the first full block of channel `ch`.
pub open spec fn block_taken(
    before: DenoiseBuffers,
    ch: int,
    block: Seq<Single>,
    after: DenoiseBuffers,
) -> bool {
    &&& after.wf()
    &&& after.channels() == before.channels()
    &&& after.outputs == before.outputs
    &&& 0 <= ch < before.channels()
    &&& before.waiting(ch).len() >= BLOCK
    &&& block == before.waiting(ch).take(BLOCK as int)
    &&& after.waiting(ch) == before.waiting(ch).skip(BLOCK as int)
    &&& forall|c: int|
        0 <= c < before.channels() && c != ch ==> #[trigger] after.waiting(c) == before.waiting(c)
}

/// Whether `after` is `before` with a denoised block of channel `ch` queued.
pub open spec fn block_put(
    before: DenoiseBuffers,
    ch: int,
    block: Seq<Single>,
    after: DenoiseBuffers,
) -> bool {
    &&& after.wf()
    &&& after.inputs == before.inputs
    &&& after.ready(ch) == before.ready(ch) + block
    &&& forall|c: int|
        0 <= c < before.channels() && c != ch ==> #[trigger] after.ready(c) == before.ready(c)
}

/// Whether playing out the frame `data` turns it into `out` and leaves `after`:
/// denoised samples replace those of the frame, first come first served per
/// channel. Where none is ready the sample stays as it is.
pub open spec fn frame_played(
    before: DenoiseBuffers,
    data: Seq<Single>,
    after: DenoiseBuffers,
    out: Seq<Single>,
) -> bool {
    &&& after.wf()
    &&& after.inputs == before.inputs
    &&& out.len() == data.len()
    &&& forall|i: int|
        0 <= i < data.len() ==> #[trigger] out[i] == {
            let q = before.ready(i % before.channels());
            let k = i / before.channels();
            if k < q.len() {
                q[k]
            } else {
                data[i]
            }
        }
    &&& forall|ch: int|
        0 <= ch < before.channels() ==> #[trigger] after.ready(ch) == after_taking(
            before.ready(ch),
            of_channel(data, before.channels(), ch).len() as int,
        )
}

/// Whether `after` is `before` with every buffer cut to the buffer size.
pub open spec fn buffers_cut(before: DenoiseBuffers, after: DenoiseBuffers) -> bool {
    &&& after.wf()
    &&& after.channels() == before.channels()
    &&& forall|ch: int|
        0 <= ch < before.channels() ==> {
            &&& #[trigger] after.waiting(ch) == cut(before.waiting(ch))
            &&& after.ready(ch) == cut(before.ready(ch))
        }
}

/// Whether finishing the frame `data` turns it into `out` and leaves `after`: the
/// frame is played out, then the buffers are cut.
pub open spec fn frame_finished(
    before: DenoiseBuffers,
    data: Seq<Single>,
    after: DenoiseBuffers,
    out: Seq<Single>,
) -> bool {
    exists|m: DenoiseBuffers|
        #[trigger] frame_played(before, data, m, out) && buffers_cut(m, after)
}

impl DenoiseBuffers {
    /// The number of channels.
    pub open spec fn channels(self) -> int {
        self.inputs@.len() as int
    }

    pub open spec fn wf(self) -> bool {
        self.inputs@.len() == self.outputs@.len()
    }

    /// The samples of a channel that wait to be denoised.
    pub open spec fn waiting(self, ch: int) -> Seq<Single> {
        self.inputs@[ch]@
    }

    /// The denoised samples of a channel that wait to be played out.
    pub open spec fn ready(self, ch: int) -> Seq<Single> {
        self.outputs@[ch]@
    }

    /// Empty buffers for `channels` channels.
    pub fn new(channels: u16) -> (b: DenoiseBuffers)
        ensures
            b.wf(),
            b.channels() == channels,
            forall|ch: int|
                0 <= ch < channels ==> #[trigger] b.waiting(ch) == Seq::<Single>::empty()
                    && b.ready(ch) == Seq::<Single>::empty(),
    {
        let mut inputs: Vec<Vec<Single>> = Vec::new();
        let mut outputs: Vec<Vec<Single>> = Vec::new();
        let mut i: u16 = 0;
        while i < channels
            invariant
                i <= channels,
                inputs@.len() == i,
                outputs@.len() == i,
                forall|ch: int|
                    0 <= ch < i ==> #[trigger] inputs@[ch]@ == Seq::<Single>::empty()
                        && outputs@[ch]@ == Seq::<Single>::empty(),
            decreases channels - i,
        {
            inputs.push(Vec::new());
            outputs.push(Vec::new());
            i = i + 1;
        }
        DenoiseBuffers { inputs, outputs }
    }

    /// Queues a frame: sample `i` goes to channel `i % channels`.
    pub fn push_frame(&mut self, data: &Vec<Single>)
        requires
            old(self).wf(),
            old(self).channels() > 0,
        ensures
            frame_queued(*old(self), data@, *final(self)),
    {
        let n: usize = self.inputs.len();
        let mut i: usize = 0;
        assert(data@.take(0) == Seq::<Single>::empty());
        while i < data.len()
            invariant
                n == old(self).channels(),
                n > 0,
                i <= data@.len(),
                self.wf(),
                self.channels() == n,
                self.outputs == old(self).outputs,
                forall|ch: int|
                    0 <= ch < n ==> #[trigger] self.waiting(ch) == old(self).waiting(ch)
                        + of_channel(data@.take(i as int), n as int, ch),
            decreases data.len() - i,
        {
            let ch: usize = i % n;
            let ghost before = *self;
            self.inputs[ch].push(data[i]);
            assert(data@.take(i + 1).drop_last() == data@.take(i as int));
            assert(data@.take(i + 1).last() == data@[i as int]);
            assert forall|c: int| 0 <= c < n implies #[trigger] self.waiting(c) == old(
                self).waiting(c) + of_channel(data@.take(i + 1), n as int, c) by {
                assert(before.waiting(c) == old(self).waiting(c) + of_channel(
                    data@.take(i as int),
                    n as int,
                    c,
                ));
                if c == ch {
                    assert(self.waiting(c) == before.waiting(c).push(data@[i as int]));
                } else {
                    assert(self.inputs@[c] == before.inputs@[c]);
                }
            }
            i = i + 1;
        }
        assert(data@.take(data@.len() as int) == data@);
    }

    /// Takes the next full block of the first channel that has one.
    pub fn next_block(&mut self) -> (r: Option<(usize, Vec<Single>)>)
        requires
            old(self).wf(),
        ensures
            match r {
                None => *final(self) == *old(self) && no_block(*old(self)),
                Some((ch, block)) => {
                    &&& block_taken(*old(self), ch as int, block@, *final(self))
                    &&& forall|c: int|
                        0 <= c < ch ==> #[trigger] old(self).waiting(c).len() < BLOCK
                },
            },
    {
        let n: usize = self.inputs.len();
        let mut ch: usize = 0;
        while ch < n
            invariant
                n == self.inputs@.len(),
                ch <= n,
                *self == *old(self),
                self.wf(),
                forall|c: int| 0 <= c < ch ==> #[trigger] old(self).waiting(c).len() < BLOCK,
            decreases n - ch,
        {
            if self.inputs[ch].len() >= BLOCK {
                let mut rest = self.inputs[ch].split_off(BLOCK);
                std::mem::swap(&mut self.inputs[ch], &mut rest);
                assert(rest@ == old(self).waiting(ch as int).take(BLOCK as int));
                assert(self.inputs@[ch as int]@ == old(self).waiting(ch as int).skip(
                    BLOCK as int,
                ));
                return Some((ch, rest));
            }
            ch = ch + 1;
        }
        None
    }

    /// Queues a denoised block of a channel.
    pub fn put_block(&mut self, ch: usize, block: Vec<Single>)
        requires
            old(self).wf(),
            ch < old(self).channels(),
        ensures
            block_put(*old(self), ch as int, block@, *final(self)),
    {
        let mut block = block;
        self.outputs[ch].append(&mut block);
    }

    /// Replaces the samples of a frame by denoised ones, first come first served
    /// per channel. Where none is ready the sample stays as it is.
    fn drain_into(&mut self, data: &mut Vec<Single>)
        requires
            old(self).wf(),
            old(self).channels() > 0,
        ensures
            frame_played(*old(self), old(data)@, *final(self), final(data)@),
    {
        let n: usize = self.inputs.len();
        let len: usize = data.len();
        let mut i: usize = 0;
        assert(data@.take(0) == Seq::<Single>::empty());
        while i < len
            invariant
                n == old(self).channels(),
                n > 0,
                i <= len,
                len == old(data)@.len(),
                data@.len() == len,
                self.wf(),
                self.inputs == old(self).inputs,
                forall|j: int| i <= j < len ==> #[trigger] data@[j] == old(data)@[j],
                forall|j: int|
                    0 <= j < i ==> #[trigger] data@[j] == {
                        let q = old(self).ready(j % (n as int));
                        let k = j / (n as int);
                        if k < q.len() {
                            q[k]
                        } else {
                            old(data)@[j]
                        }
                    },
                forall|ch: int|
                    0 <= ch < n ==> #[trigger] self.ready(ch) == after_taking(
                        old(self).ready(ch),
                        of_channel(old(data)@.take(i as int), n as int, ch).len() as int,
                    ),
            decreases len - i,
        {
            let ch: usize = i % n;
            let ghost before = *self;
            let ghost q = old(self).ready(ch as int);
            let ghost k = i as int / n as int;
            proof {
                lemma_channel_count(old(data)@, n as int, ch as int, i as int);
                assert(old(data)@.take(i + 1).drop_last() == old(data)@.take(i as int));
                assert(self.ready(ch as int) == after_taking(q, k));
            }
            if self.outputs[ch].len() > 0 {
                let s = self.outputs[ch].remove(0);
                assert(s == q[k]);
                data[i] = s;
            }
            assert(self.ready(ch as int) == after_taking(q, k + 1));
            assert forall|c: int| 0 <= c < n implies #[trigger] self.ready(c) == after_taking(
                old(self).ready(c),
                of_channel(old(data)@.take(i + 1), n as int, c).len() as int,
            ) by {
                if c != ch {
                    assert(self.ready(c) == before.ready(c));
                }
            }
            i = i + 1;
        }
        assert(old(data)@.take(len as int) == old(data)@);
    }

    /// Ends the work on a frame, once no full block waits: plays out what is
    /// denoised, then cuts the buffers.
    pub fn finish_frame(&mut self, data: &mut Vec<Single>)
        requires
            old(self).wf(),
            old(self).channels() > 0,
            no_block(*old(self)),
        ensures
            frame_finished(*old(self), old(data)@, *final(self), final(data)@),
            final(self).wf(),
            final(self).channels() == old(self).channels(),
    {
        let ghost before = *self;
        let ghost frame = data@;
        self.drain_into(data);
        let ghost played = *self;
        self.limit();
        assert(frame_played(before, frame, played, data@));
    }

    /// Cuts every buffer to the buffer size.
    fn limit(&mut self)
        requires
            old(self).wf(),
        ensures
            buffers_cut(*old(self), *final(self)),
    {
        let n: usize = self.inputs.len();
        let mut ch: usize = 0;
        while ch < n
            invariant
                n == old(self).channels(),
                ch <= n,
                old(self).wf(),
                self.wf(),
                self.channels() == n,
                forall|c: int|
                    0 <= c < n ==> #[trigger] self.waiting(c) == if c < ch {
                        cut(old(self).waiting(c))
                    } else {
                        old(self).waiting(c)
                    },
                forall|c: int|
                    0 <= c < n ==> #[trigger] self.ready(c) == if c < ch {
                        cut(old(self).ready(c))
                    } else {
                        old(self).ready(c)
                    },
            decreases n - ch,
        {
            let ghost before = *self;
            assert(before.waiting(ch as int) == old(self).waiting(ch as int));
            assert(before.ready(ch as int) == old(self).ready(ch as int));
            if self.inputs[ch].len() > MAX_BUFFER_SIZE {
                self.inputs[ch].truncate(MAX_BUFFER_SIZE);
            }
            if self.outputs[ch].len() > MAX_BUFFER_SIZE {
                self.outputs[ch].truncate(MAX_BUFFER_SIZE);
            }
            assert(self.waiting(ch as int) == cut(before.waiting(ch as int)));
            assert(self.ready(ch as int) == cut(before.ready(ch as int)));
            assert forall|c: int| 0 <= c < n && c != ch implies #[trigger] self.waiting(c)
                == before.waiting(c) by {
                assert(self.inputs@[c] == before.inputs@[c]);
            }
            assert forall|c: int| 0 <= c < n && c != ch implies #[trigger] self.ready(c)
                == before.ready(c) by {
                assert(self.outputs@[c] == before.outputs@[c]);
            }
            ch = ch + 1;
        }
    }
}

/// Before index `i` of interleaved data, the channel of that index has `i /
/// channels` samples.
proof fn lemma_channel_count(data: Seq<Single>, channels: int, ch: int, i: int)
    requires
        0 < channels,
        0 <= i <= data.len(),
        0 <= ch < channels,
    ensures
        of_channel(data.take(i), channels, ch).len() == (if i % channels > ch {
            i / channels + 1
        } else {
            i / channels
        }),
    decreases i,
{
    if i > 0 {
        lemma_channel_count(data, channels, ch, i - 1);
        assert(data.take(i).drop_last() == data.take(i - 1));
        let q = (i - 1) / channels;
        let r = (i - 1) % channels;
        vstd::arithmetic::div_mod::lemma_fundamental_div_mod(i - 1, channels);
        if r + 1 < channels {
            assert(i / channels == q && i % channels == r + 1) by (nonlinear_arith)
                requires
                    i - 1 == channels * q + r,
                    0 <= r,
                    r + 1 < channels,
            ;
        } else {
            assert(i / channels == q + 1 && i % channels == 0) by (nonlinear_arith)
                requires
                    i - 1 == channels * q + r,
                    r == channels - 1,
                    channels > 0,
            ;
        }
    } else {
        assert(data.take(0).len() == 0);
        assert(0int / channels == 0 && 0int % channels == 0) by (nonlinear_arith)
            requires
                channels > 0,
        ;
    }
}

// ---------------------------------------------------------------------------
// Laws
// ---------------------------------------------------------------------------
/// Between frames, fewer samples than a block are held per channel.
pub open spec fn steady(b: DenoiseBuffers) -> bool {
    &&& b.wf()
    &&& forall|ch: int|
        0 <= ch < b.channels() ==> #[trigger] b.waiting(ch).len() + b.ready(ch).len() < BLOCK
}

/// Whether `b` comes from `a` by denoising: no full block waits, and every
/// channel holds as many samples as before, denoised or not.
pub open spec fn denoised(a: DenoiseBuffers, b: DenoiseBuffers) -> bool {
    &&& b.wf()
    &&& b.channels() == a.channels()
    &&& forall|ch: int|
        0 <= ch < a.channels() ==> {
            &&& #[trigger] b.waiting(ch).len() < BLOCK
            &&& b.waiting(ch).len() + b.ready(ch).len() == a.waiting(ch).len() + a.ready(ch).len()
        }
}

/// Whether `b` comes from `a` by denoising one block: it is taken, and a block of
/// the same length is put back.
pub open spec fn block_denoised(a: DenoiseBuffers, b: DenoiseBuffers) -> bool {
    exists|ch: int, x: Seq<Single>, y: Seq<Single>, m: DenoiseBuffers|
        #[trigger] block_taken(a, ch, x, m) && #[trigger] block_put(m, ch, y, b) && y.len() == BLOCK
}

/// Denoising a block keeps the number of samples that each channel holds.
pub proof fn law_block_keeps_count(a: DenoiseBuffers, b: DenoiseBuffers, c: int)
    requires
        block_denoised(a, b),
        0 <= c < a.channels(),
    ensures
        b.wf(),
        b.channels() == a.channels(),
        b.waiting(c).len() + b.ready(c).len() == a.waiting(c).len() + a.ready(c).len(),
{
    let (ch, x, y, m) = choose|ch: int, x: Seq<Single>, y: Seq<Single>, m: DenoiseBuffers|
        #[trigger] block_taken(a, ch, x, m) && #[trigger] block_put(m, ch, y, b) && y.len() == BLOCK;
    assert(b.waiting(c) == m.waiting(c));
    assert(m.ready(c) == a.ready(c));
    if c != ch {
        assert(m.waiting(c) == a.waiting(c));
        assert(b.ready(c) == m.ready(c));
    }
}

/// Denoising block after block, until no full block waits, keeps the number of
/// samples that each channel holds.
pub proof fn law_blocks_keep_count(course: Seq<DenoiseBuffers>)
    requires
        course.len() > 0,
        course[0].wf(),
        forall|i: int|
            0 <= i < course.len() - 1 ==> block_denoised(#[trigger] course[i], course[i + 1]),
        no_block(course.last()),
    ensures
        denoised(course[0], course.last()),
{
    lemma_blocks_keep_count(course, course.len() - 1);
}

proof fn lemma_blocks_keep_count(course: Seq<DenoiseBuffers>, n: int)
    requires
        0 <= n < course.len(),
        course[0].wf(),
        forall|i: int|
            0 <= i < course.len() - 1 ==> block_denoised(#[trigger] course[i], course[i + 1]),
    ensures
        course[n].wf(),
        course[n].channels() == course[0].channels(),
        forall|ch: int|
            0 <= ch < course[0].channels() ==> #[trigger] course[n].waiting(ch).len()
                + course[n].ready(ch).len() == course[0].waiting(ch).len() + course[0].ready(
                ch,
            ).len(),
    decreases n,
{
    if n > 0 {
        let a = course[n - 1];
        let b = course[n];
        lemma_blocks_keep_count(course, n - 1);
        assert(block_denoised(course[n - 1], course[n - 1 + 1]));
        assert(b.wf() && b.channels() == a.channels()) by {
            let (ch, x, y, m) = choose|ch: int, x: Seq<Single>, y: Seq<Single>, m: DenoiseBuffers|
                #[trigger] block_taken(a, ch, x, m) && #[trigger] block_put(m, ch, y, b) && y.len()
                    == BLOCK;
        }
        assert forall|ch: int| 0 <= ch < course[0].channels() implies #[trigger] b.waiting(ch).len()
            + b.ready(ch).len() == course[0].waiting(ch).len() + course[0].ready(ch).len() by {
            law_block_keeps_count(a, b, ch);
            assert(a.waiting(ch).len() + a.ready(ch).len() == course[0].waiting(ch).len()
                + course[0].ready(ch).len());
        }
    }
}

/// Whether playing out the frame `data` changes channel `ch` of `c` to that of
/// `e`: what waits is untouched, and as many denoised samples leave as the frame
/// has for the channel.
pub open spec fn channel_played(
    c: DenoiseBuffers,
    data: Seq<Single>,
    e: DenoiseBuffers,
    ch: int,
) -> bool {
    &&& e.waiting(ch) == c.waiting(ch)
    &&& e.ready(ch) == after_taking(
        c.ready(ch),
        of_channel(data, c.channels(), ch).len() as int,
    )
}

/// One channel of a frame that is queued, denoised, played out and cut.
proof fn lemma_channel_latency(
    a: DenoiseBuffers,
    data: Seq<Single>,
    b: DenoiseBuffers,
    c: DenoiseBuffers,
    d: DenoiseBuffers,
    out: Seq<Single>,
    e: DenoiseBuffers,
    ch: int,
)
    requires
        steady(a),
        frame_queued(a, data, b),
        denoised(b, c),
        frame_played(c, data, d, out),
        buffers_cut(d, e),
        0 <= ch < a.channels(),
    ensures
        channel_played(c, data, e, ch),
        e.waiting(ch).len() + e.ready(ch).len() < BLOCK,
{
    let count = of_channel(data, a.channels(), ch).len();
    assert(a.channels() == b.channels() == c.channels() == d.channels());
    assert(a.waiting(ch).len() + a.ready(ch).len() < BLOCK);
    assert(b.waiting(ch) == a.waiting(ch) + of_channel(data, a.channels(), ch));
    assert(b.waiting(ch).len() == a.waiting(ch).len() + count);
    assert(b.ready(ch) == a.ready(ch));
    assert(c.waiting(ch).len() < BLOCK);
    assert(c.waiting(ch).len() + c.ready(ch).len() == b.waiting(ch).len() + b.ready(ch).len());
    assert(d.waiting(ch) == c.waiting(ch));
    assert(d.ready(ch) == after_taking(c.ready(ch), count as int));
    assert(d.waiting(ch).len() + d.ready(ch).len() < BLOCK);
    assert(e.waiting(ch) == cut(d.waiting(ch)));
    assert(e.ready(ch) == cut(d.ready(ch)));
    assert(cut(d.waiting(ch)) == d.waiting(ch));
    assert(cut(d.ready(ch)) == d.ready(ch));
}

/// A frame leaves the buffers as short as they were: after a frame is queued,
/// denoised and played out, again fewer samples than a block are held per
/// channel, so the latency stays below one block and the size limit cuts
/// nothing off.
pub proof fn law_latency_below_one_block(
    a: DenoiseBuffers,
    data: Seq<Single>,
    b: DenoiseBuffers,
    c: DenoiseBuffers,
    e: DenoiseBuffers,
    out: Seq<Single>,
)
    requires
        steady(a),
        a.channels() > 0,
        frame_queued(a, data, b),
        denoised(b, c),
        frame_finished(c, data, e, out),
    ensures
        steady(e),
        forall|ch: int|
            0 <= ch < a.channels() ==> #[trigger] channel_played(c, data, e, ch),
{
    let d = choose|m: DenoiseBuffers|
        #[trigger] frame_played(c, data, m, out) && buffers_cut(m, e);
    assert(frame_played(c, data, d, out) && buffers_cut(d, e));
    assert(e.channels() == d.channels() == c.channels() == a.channels());
    assert forall|ch: int| 0 <= ch < a.channels() implies #[trigger] channel_played(
        c,
        data,
        e,
        ch,
    ) by {
        lemma_channel_latency(a, data, b, c, d, out, e, ch);
    }
    assert forall|ch: int| 0 <= ch < e.channels() implies #[trigger] e.waiting(ch).len() + e.ready(
        ch,
    ).len() < BLOCK by {
        lemma_channel_latency(a, data, b, c, d, out, e, ch);
    }
}

// ---------------------------------------------------------------------------
// Laws of the samples
// ---------------------------------------------------------------------------
/// The samples of a channel are those at its places in the interleaved data, in
/// their order: the `k`-th is at `k * channels + ch`.
pub proof fn law_samples_of_a_channel(data: Seq<Single>, channels: int, ch: int, k: int)
    requires
        0 <= ch < channels,
        0 <= k,
    ensures
        k < of_channel(data, channels, ch).len() <==> k * channels + ch < data.len(),
        k < of_channel(data, channels, ch).len() ==> of_channel(data, channels, ch)[k] == data[k
            * channels + ch],
    decreases data.len(),
{
    assert(k * channels >= 0) by (nonlinear_arith)
        requires
            k >= 0,
            channels > 0,
    ;
    if data.len() > 0 {
        let rest = data.drop_last();
        law_samples_of_a_channel(rest, channels, ch, k);
        let n = data.len() - 1;
        if n % channels == ch {
            let q = n / channels;
            vstd::arithmetic::div_mod::lemma_fundamental_div_mod(n, channels);
            assert(n == q * channels + ch) by (nonlinear_arith)
                requires
                    n == channels * q + n % channels,
                    n % channels == ch,
            ;
            lemma_channel_count(data, channels, ch, n);
            assert(data.take(n) == rest);
            assert(of_channel(rest, channels, ch).len() == q);
            if k < q {
                assert(k * channels + ch < n) by (nonlinear_arith)
                    requires
                        k < q,
                        channels > 0,
                        n == q * channels + ch,
                ;
            } else if k > q {
                assert(k * channels + ch > n) by (nonlinear_arith)
                    requires
                        k > q,
                        channels > 0,
                        n == q * channels + ch,
                ;
            }
        } else if k * channels + ch == n {
            assert(n % channels == ch) by {
                vstd::arithmetic::div_mod::lemma_fundamental_div_mod_converse(n, channels, k, ch);
            }
        }
    }
}

/// A queued sample waits in the channel of its place, behind what waited before.
pub proof fn law_queued_sample(
    before: DenoiseBuffers,
    data: Seq<Single>,
    after: DenoiseBuffers,
    ch: int,
    k: int,
)
    requires
        frame_queued(before, data, after),
        0 <= ch < before.channels(),
        0 <= k,
        k * before.channels() + ch < data.len(),
    ensures
        after.waiting(ch).len() > before.waiting(ch).len() + k,
        after.waiting(ch)[before.waiting(ch).len() + k] == data[k * before.channels() + ch],
        after.waiting(ch).take(before.waiting(ch).len() as int) == before.waiting(ch),
        after.ready(ch) == before.ready(ch),
{
    law_samples_of_a_channel(data, before.channels(), ch, k);
    assert(after.waiting(ch) == before.waiting(ch) + of_channel(data, before.channels(), ch));
    assert(after.waiting(ch).take(before.waiting(ch).len() as int) == before.waiting(ch));
}

/// A block is the first 480 samples that wait; what is left waits on, the other
/// channels and the denoised samples are untouched.
pub proof fn law_taken_block(
    before: DenoiseBuffers,
    ch: int,
    block: Seq<Single>,
    after: DenoiseBuffers,
    c: int,
)
    requires
        block_taken(before, ch, block, after),
        0 <= c < before.channels(),
    ensures
        block.len() == 480,
        block + after.waiting(ch) == before.waiting(ch),
        c != ch ==> after.waiting(c) == before.waiting(c),
        after.ready(c) == before.ready(c),
{
    assert(block + after.waiting(ch) == before.waiting(ch));
}

/// A denoised block is played out behind what is ready; nothing else changes.
pub proof fn law_put_block(
    before: DenoiseBuffers,
    ch: int,
    block: Seq<Single>,
    after: DenoiseBuffers,
    c: int,
)
    requires
        block_put(before, ch, block, after),
        0 <= c < before.channels(),
    ensures
        c == ch ==> after.ready(c) == before.ready(c) + block,
        c != ch ==> after.ready(c) == before.ready(c),
        after.waiting(c) == before.waiting(c),
{
}

/// A full block is 480 samples; while one waits, the work on a frame is not done.
pub proof fn law_no_block(b: DenoiseBuffers, ch: int)
    requires
        no_block(b),
        0 <= ch < b.channels(),
    ensures
        b.waiting(ch).len() < 480,
{
    assert(b.waiting(ch).len() < BLOCK);
}

/// Playing out: the `k`-th sample of a channel in the frame becomes the `k`-th
/// that is ready, and stays where there is none; what was played is ready no more.
pub proof fn law_played_sample(
    before: DenoiseBuffers,
    data: Seq<Single>,
    after: DenoiseBuffers,
    out: Seq<Single>,
    ch: int,
    k: int,
)
    requires
        frame_finished(before, data, after, out),
        0 <= ch < before.channels(),
        0 <= k,
        k * before.channels() + ch < data.len(),
    ensures
        out.len() == data.len(),
        k < before.ready(ch).len() ==> out[k * before.channels() + ch] == before.ready(ch)[k],
        k >= before.ready(ch).len() ==> out[k * before.channels() + ch] == data[k
            * before.channels() + ch],
{
    let n = before.channels();
    let i = k * n + ch;
    assert(i >= 0) by (nonlinear_arith)
        requires
            i == k * n + ch,
            k >= 0,
            n > 0,
            ch >= 0,
    ;
    vstd::arithmetic::div_mod::lemma_fundamental_div_mod_converse(i, n, k, ch);
    let m = choose|m: DenoiseBuffers|
        #[trigger] frame_played(before, data, m, out) && buffers_cut(m, after);
    assert(frame_played(before, data, m, out));
    assert(i % n == ch && i / n == k);
}

/// What is left after a frame: what waited waits on, and the ready samples that
/// the frame did not take stay ready, both up to the first 960.
pub proof fn law_left_after_a_frame(
    before: DenoiseBuffers,
    data: Seq<Single>,
    after: DenoiseBuffers,
    out: Seq<Single>,
    ch: int,
)
    requires
        frame_finished(before, data, after, out),
        0 <= ch < before.channels(),
    ensures
        ({
            let taken = of_channel(data, before.channels(), ch).len() as int;
            let w = before.waiting(ch);
            let r = before.ready(ch);
            &&& w.len() <= 960 ==> after.waiting(ch) == w
            &&& w.len() > 960 ==> after.waiting(ch) == w.take(960)
            &&& taken >= r.len() ==> after.ready(ch).len() == 0
            &&& taken < r.len() <= taken + 960 ==> after.ready(ch) == r.skip(taken)
            &&& r.len() > taken + 960 ==> after.ready(ch) == r.subrange(taken, taken + 960)
        }),
{
    let m = choose|m: DenoiseBuffers|
        #[trigger] frame_played(before, data, m, out) && buffers_cut(m, after);
    assert(frame_played(before, data, m, out) && buffers_cut(m, after));
    let taken = of_channel(data, before.channels(), ch).len() as int;
    assert(m.waiting(ch) == before.waiting(ch));
    assert(m.ready(ch) == after_taking(before.ready(ch), taken));
    assert(after.waiting(ch) == cut(m.waiting(ch)));
    assert(after.ready(ch) == cut(m.ready(ch)));
    if before.ready(ch).len() > taken + 960 {
        assert(before.ready(ch).skip(taken).take(960) == before.ready(ch).subrange(
            taken,
            taken + 960,
        ));
    }
}

/// No step adds or drops a channel, and there are as many queues of denoised
/// samples as of samples that wait. A block comes from one of the channels.
pub proof fn law_channels_are_kept(
    a: DenoiseBuffers,
    b: DenoiseBuffers,
    data: Seq<Single>,
    out: Seq<Single>,
    ch: int,
)
    requires
        a.inputs@.len() == a.outputs@.len(),
        frame_queued(a, data, b) || block_taken(a, ch, data, b) || block_put(a, ch, data, b)
            || frame_finished(a, data, b, out),
    ensures
        b.inputs@.len() == a.inputs@.len(),
        b.outputs@.len() == a.outputs@.len(),
        block_taken(a, ch, data, b) ==> 0 <= ch < a.inputs@.len(),
{
    if frame_finished(a, data, b, out) {
        let m = choose|m: DenoiseBuffers|
            #[trigger] frame_played(a, data, m, out) && buffers_cut(m, b);
        assert(frame_played(a, data, m, out) && buffers_cut(m, b));
    }
}

/// The queues of a channel are those at its place.
pub proof fn law_queues_of_a_channel(b: DenoiseBuffers, ch: int)
    ensures
        b.channels() == b.inputs@.len(),
        b.waiting(ch) == b.inputs@[ch]@,
        b.ready(ch) == b.outputs@[ch]@,
{
}

} // verus!
