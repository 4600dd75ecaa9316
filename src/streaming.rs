use vstd::prelude::*;

use crate::text::{trim_seq, trim_text};

verus! {

/// Number of samples in `ms` milliseconds of audio at `rate` Hz, rounded to
/// the nearest sample (halves round up).
pub open spec fn samples_for_ms(ms: nat, rate: nat) -> nat {
    (ms * rate + 500) / 1000
}

proof fn lemma_samples_monotonic(a: nat, b: nat, rate: nat)
    requires
        a <= b,
    ensures
        samples_for_ms(a, rate) <= samples_for_ms(b, rate),
{
    assert(a * rate <= b * rate) by (nonlinear_arith)
        requires
            a <= b,
    ;
    assert((a * rate + 500) / 1000 <= (b * rate + 500) / 1000) by (nonlinear_arith)
        requires
            a * rate <= b * rate,
    ;
}

proof fn lemma_u32_product_fits(a: u32, b: u32)
    ensures
        (a as int) * (b as int) + 500 <= u64::MAX,
{
    assert((a as int) * (b as int) <= 0xffff_ffff * 0xffff_ffff) by (nonlinear_arith)
        requires
            a <= 0xffff_ffff,
            b <= 0xffff_ffff,
    ;
}

/// How a live stream is cut into windows: each window lasts
/// `chunk_duration_ms`, and each window after the first repeats the last
/// `overlap_ms` of the window before it.
#[derive(Clone, Copy, Debug)]
pub struct StreamingConfig {
    pub chunk_duration_ms: u32,
    pub overlap_ms: u32,
    pub sample_rate: u32,
}

impl StreamingConfig {
    /// A configuration makes progress only when the overlap is shorter than
    /// the window.
    pub open spec fn valid(&self) -> bool {
        self.overlap_ms < self.chunk_duration_ms
    }

    pub open spec fn spec_chunk_samples(&self) -> nat {
        samples_for_ms(self.chunk_duration_ms as nat, self.sample_rate as nat)
    }

    pub open spec fn spec_overlap_samples(&self) -> nat {
        samples_for_ms(self.overlap_ms as nat, self.sample_rate as nat)
    }

    /// Samples in one window.
    pub fn chunk_samples(&self) -> (r: u64)
        ensures
            r == self.spec_chunk_samples(),
    {
        proof {
            lemma_u32_product_fits(self.chunk_duration_ms, self.sample_rate);
        }
        (self.chunk_duration_ms as u64 * self.sample_rate as u64 + 500) / 1000
    }

    /// Samples shared by two consecutive windows.
    pub fn overlap_samples(&self) -> (r: u64)
        ensures
            r == self.spec_overlap_samples(),
    {
        proof {
            lemma_u32_product_fits(self.overlap_ms, self.sample_rate);
        }
        (self.overlap_ms as u64 * self.sample_rate as u64 + 500) / 1000
    }
}

impl Default for StreamingConfig {
    /// Windows of 2.5 s overlapping by 0.5 s, at 16 kHz.
    fn default() -> (r: Self)
        ensures
            r.chunk_duration_ms == 2500,
            r.overlap_ms == 500,
            r.sample_rate == 16000,
    {
        StreamingConfig { chunk_duration_ms: 2500, overlap_ms: 500, sample_rate: 16000 }
    }
}

/// A growing sequence of samples, cut on demand into overlapping windows, and
/// the transcript assembled from the windows' texts.
///
/// The sample type is left open: the buffer only moves samples around.
pub struct StreamingBuffer<T> {
    buffer: Vec<T>,
    config: StreamingConfig,
    processed_samples: usize,
    accumulated_text: String,
}

impl<T: Copy> StreamingBuffer<T> {
    /// The samples received so far.
    pub closed spec fn samples(&self) -> Seq<T> {
        self.buffer@
    }

    /// The cursor: how far the windows handed out so far reach, less the overlap.
    pub closed spec fn processed(&self) -> nat {
        self.processed_samples as nat
    }

    /// The transcript assembled so far.
    pub closed spec fn text(&self) -> Seq<char> {
        self.accumulated_text@
    }

    pub closed spec fn config(&self) -> StreamingConfig {
        self.config
    }

    pub open spec fn chunk_len(&self) -> nat {
        self.config().spec_chunk_samples()
    }

    pub open spec fn overlap_len(&self) -> nat {
        self.config().spec_overlap_samples()
    }

    /// Where the next window starts: the cursor moved back by the overlap, or
    /// the first sample while the cursor has not passed the overlap.
    pub open spec fn chunk_start(&self) -> nat {
        if self.processed() > self.overlap_len() {
            (self.processed() - self.overlap_len()) as nat
        } else {
            0
        }
    }

    /// The end of the next window.
    pub open spec fn chunk_end(&self) -> nat {
        self.chunk_start() + self.chunk_len()
    }

    /// The next window, when the buffer holds all of it.
    pub open spec fn next_chunk(&self) -> Option<Seq<T>> {
        if self.chunk_end() <= self.samples().len() {
            Some(self.samples().subrange(self.chunk_start() as int, self.chunk_end() as int))
        } else {
            None
        }
    }

    /// The cursor once the next window has been asked for: the window's end
    /// less the overlap when there was a window, else where it was.
    pub open spec fn cursor_after_extract(&self) -> nat {
        if self.chunk_end() <= self.samples().len() {
            (self.chunk_end() - self.overlap_len()) as nat
        } else {
            self.processed()
        }
    }

    /// The cursor never passes the end of the samples, and a window is never
    /// shorter than the overlap. The cursor only passes the overlap when a
    /// window spans two overlaps, and until then it lies no further than one
    /// window less the overlap: from such states the next window never moves
    /// the cursor back.
    pub open spec fn wf(&self) -> bool {
        &&& self.processed() <= self.samples().len()
        &&& self.overlap_len() <= self.chunk_len()
        &&& self.processed() > self.overlap_len() ==> 2 * self.overlap_len() <= self.chunk_len()
        &&& self.processed() <= self.overlap_len() ==> self.processed() + self.overlap_len()
            <= self.chunk_len()
    }

    /// An empty buffer cut by `config`.
    pub fn new(config: StreamingConfig) -> (r: Self)
        requires
            config.valid(),
        ensures
            r.wf(),
            r.samples() == Seq::<T>::empty(),
            r.processed() == 0,
            r.text() == Seq::<char>::empty(),
            r.config() == config,
    {
        proof {
            lemma_samples_monotonic(
                config.overlap_ms as nat,
                config.chunk_duration_ms as nat,
                config.sample_rate as nat,
            );
        }
        StreamingBuffer {
            buffer: Vec::new(),
            config,
            processed_samples: 0,
            accumulated_text: String::new(),
        }
    }

    /// Adds `samples` at the end of the buffer.
    pub fn append(&mut self, samples: &[T])
        requires
            old(self).wf(),
        ensures
            final(self).wf(),
            final(self).samples() == old(self).samples() + samples@,
            final(self).processed() == old(self).processed(),
            final(self).text() == old(self).text(),
            final(self).config() == old(self).config(),
    {
        let ghost start = self.buffer@;
        let mut i: usize = 0;
        while i < samples.len()
            invariant
                i <= samples@.len(),
                self.buffer@ == start + samples@.subrange(0, i as int),
                self.processed_samples == old(self).processed_samples,
                self.processed_samples <= start.len(),
                self.config == old(self).config,
                self.accumulated_text == old(self).accumulated_text,
                self.overlap_len() <= self.chunk_len(),
            decreases samples@.len() - i,
        {
            self.buffer.push(samples[i]);
            i = i + 1;
            assert(samples@.subrange(0, i as int) == samples@.subrange(0, i - 1 as int).push(
                samples@[i - 1],
            ));
        }
        assert(samples@.subrange(0, i as int) == samples@);
    }

    /// Whether enough samples lie past the cursor for a whole window.
    pub fn has_chunk_available(&self) -> (r: bool)
        requires
            self.wf(),
        ensures
            r == (self.samples().len() >= self.processed() + self.chunk_len()),
    {
        let available = self.buffer.len() - self.processed_samples;
        available as u64 >= self.config.chunk_samples()
    }

    /// The samples in `[from, to)`.
    fn copy_range(&self, from: usize, to: usize) -> (r: Vec<T>)
        requires
            from <= to <= self.buffer@.len(),
        ensures
            r@ == self.buffer@.subrange(from as int, to as int),
    {
        let mut out: Vec<T> = Vec::new();
        let mut i: usize = from;
        while i < to
            invariant
                from <= i <= to <= self.buffer@.len(),
                out@ == self.buffer@.subrange(from as int, i as int),
            decreases to - i,
        {
            out.push(self.buffer[i]);
            i = i + 1;
            assert(out@ == self.buffer@.subrange(from as int, i as int));
        }
        out
    }

    /// The next window, when the buffer holds all of it; the cursor then moves
    /// to the window's end less the overlap. Otherwise nothing changes.
    pub fn extract_chunk(&mut self) -> (r: Option<Vec<T>>)
        requires
            old(self).wf(),
        ensures
            final(self).wf(),
            final(self).samples() == old(self).samples(),
            final(self).text() == old(self).text(),
            final(self).config() == old(self).config(),
            match chunk_view(r) {
                Some(c) => old(self).next_chunk() == Some(c),
                None => old(self).next_chunk() is None,
            },
            final(self).processed() == old(self).cursor_after_extract(),
            final(self).processed() >= old(self).processed(),
    {
        let chunk_size = self.config.chunk_samples();
        let overlap = self.config.overlap_samples();
        let processed = self.processed_samples as u64;
        let len = self.buffer.len();
        let start: u64 = if processed > overlap {
            processed - overlap
        } else {
            0
        };
        if chunk_size > u64::MAX - start {
            return None;
        }
        let end = start + chunk_size;
        if (len as u64) < end {
            return None;
        }
        let chunk = self.copy_range(start as usize, end as usize);
        self.processed_samples = (end - overlap) as usize;
        Some(chunk)
    }

    /// Everything from where the next window would start to the end of the
    /// buffer: the tail still to transcribe when the stream stops.
    pub fn get_remaining(&self) -> (r: Vec<T>)
        requires
            self.wf(),
        ensures
            r@ == if self.chunk_start() < self.samples().len() {
                self.samples().subrange(self.chunk_start() as int, self.samples().len() as int)
            } else {
                Seq::<T>::empty()
            },
    {
        let overlap = self.config.overlap_samples();
        let processed = self.processed_samples as u64;
        let start: u64 = if processed > overlap {
            processed - overlap
        } else {
            0
        };
        if start < self.buffer.len() as u64 {
            self.copy_range(start as usize, self.buffer.len())
        } else {
            Vec::new()
        }
    }

    /// A copy of every sample received so far.
    pub fn get_all_audio(&self) -> (r: Vec<T>)
        ensures
            r@ == self.samples(),
    {
        let r = self.copy_range(0, self.buffer.len());
        assert(self.buffer@.subrange(0, self.buffer@.len() as int) == self.buffer@);
        r
    }

    /// Drops the samples and the transcript and rewinds the cursor.
    pub fn clear(&mut self)
        requires
            old(self).wf(),
        ensures
            final(self).wf(),
            final(self).samples() == Seq::<T>::empty(),
            final(self).processed() == 0,
            final(self).text() == Seq::<char>::empty(),
            final(self).config() == old(self).config(),
    {
        self.buffer.clear();
        self.processed_samples = 0;
        self.accumulated_text = String::new();
    }

    /// Adds the trimmed `text` to the transcript, after a space when both the
    /// transcript and the trimmed `text` are non-empty.
    pub fn append_text(&mut self, text: &str)
        requires
            old(self).wf(),
        ensures
            final(self).wf(),
            final(self).text() == appended_text(old(self).text(), text@),
            final(self).samples() == old(self).samples(),
            final(self).processed() == old(self).processed(),
            final(self).config() == old(self).config(),
    {
        let fragment = trim_text(text);
        if !self.accumulated_text.as_str().is_empty() && !fragment.is_empty() {
            self.accumulated_text.append(" ");
        }
        self.accumulated_text.append(fragment);
        proof {
            reveal_strlit(" ");
        }
    }

    /// The transcript assembled so far.
    pub fn get_accumulated_text(&self) -> (r: String)
        ensures
            r@ == self.text(),
    {
        self.accumulated_text.clone()
    }

    /// Number of samples received so far.
    pub fn buffer_len(&self) -> (r: usize)
        ensures
            r == self.samples().len(),
    {
        self.buffer.len()
    }

    /// The cursor.
    pub fn processed_samples(&self) -> (r: usize)
        ensures
            r == self.processed(),
    {
        self.processed_samples
    }

    /// The sample rate the buffer was configured with.
    pub fn sample_rate(&self) -> (r: u32)
        ensures
            r == self.config().sample_rate,
    {
        self.config.sample_rate
    }
}

/// A window handed out, as a sequence.
pub open spec fn chunk_view<T>(r: Option<Vec<T>>) -> Option<Seq<T>> {
    match r {
        Some(v) => Some(v@),
        None => None,
    }
}

/// The transcript `acc` after `fragment` is added to it: trimmed, and after a
/// single space when neither side is empty.
pub open spec fn appended_text(acc: Seq<char>, fragment: Seq<char>) -> Seq<char> {
    if acc.len() > 0 && trim_seq(fragment).len() > 0 {
        acc + seq![' '] + trim_seq(fragment)
    } else {
        acc + trim_seq(fragment)
    }
}

/// A window is handed out only when a whole window lies past the cursor,
/// except where the overlap alone completes it: when the buffer reaches
/// past the next window's end but holds less than a window past the cursor.
/// When no window comes, the cursor stays.
pub proof fn lemma_chunk_only_when_available<T: Copy>(buf: StreamingBuffer<T>)
    requires
        buf.wf(),
        !(buf.chunk_end() <= buf.samples().len() < buf.processed() + buf.chunk_len()),
    ensures
        buf.next_chunk() is Some ==> buf.samples().len() - buf.processed() >= buf.chunk_len(),
        buf.next_chunk() is None ==> buf.cursor_after_extract() == buf.processed(),
{
}

/// A whole window past the cursor is always handed out.
pub proof fn lemma_available_chunk_is_extracted<T: Copy>(buf: StreamingBuffer<T>)
    requires
        buf.wf(),
        buf.samples().len() >= buf.processed() + buf.chunk_len(),
    ensures
        buf.next_chunk() is Some,
{
}

/// The first window, taken while the cursor is at zero (a new or cleared
/// buffer), is the first `chunk_len()` samples.
pub proof fn lemma_first_chunk_starts_at_zero<T: Copy>(buf: StreamingBuffer<T>)
    requires
        buf.wf(),
        buf.processed() == 0,
        buf.next_chunk() is Some,
    ensures
        buf.next_chunk() == Some(buf.samples().subrange(0, buf.chunk_len() as int)),
{
}

} // verus!
