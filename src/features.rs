use vstd::prelude::*;

use vstd::arithmetic::div_mod::lemma_fundamental_div_mod_converse;

verus! {

/// Samples per analysis frame; a power of two.
pub const N_FFT: usize = 512;

/// Samples between the starts of consecutive frames.
pub const HOP_LENGTH: usize = 160;

/// Mel bins per frame.
pub const N_MELS: usize = 80;

/// Frequency bins of a real-input spectrum of `N_FFT` points.
pub const N_FREQS: usize = 257;

/// Number of frames cut from `len` samples: one, or as many as fit whole
/// when the audio is longer than a frame.
pub open spec fn frame_count(len: nat) -> nat {
    if len > N_FFT {
        ((len - N_FFT) as nat) / (HOP_LENGTH as nat) + 1
    } else {
        1
    }
}

/// Number of frames cut from `len` samples.
pub fn num_frames(len: usize) -> (r: usize)
    ensures
        r == frame_count(len as nat),
        r >= 1,
{
    if len > N_FFT {
        (len - N_FFT) / HOP_LENGTH + 1
    } else {
        1
    }
}

/// Frame `frame_idx` of `audio`: the `N_FFT` samples from `frame_idx *
/// HOP_LENGTH` on, with `zero` past the end of the audio.
pub open spec fn frame_of<T>(audio: Seq<T>, frame_idx: nat, zero: T) -> Seq<T> {
    let start = frame_idx * HOP_LENGTH;
    Seq::new(
        N_FFT as nat,
        |i: int|
            if start + i < audio.len() {
                audio[start + i]
            } else {
                zero
            },
    )
}

/// Frame `frame_idx` of `audio`, padded with `zero`.
pub fn frame_samples<T: Copy>(audio: &[T], frame_idx: usize, zero: T) -> (r: Vec<T>)
    requires
        frame_idx < frame_count(audio@.len()),
    ensures
        r@ == frame_of(audio@, frame_idx as nat, zero),
{
    let len = audio.len();
    proof {
        if len > N_FFT {
            assert(frame_idx * HOP_LENGTH <= audio@.len()) by (nonlinear_arith)
                requires
                    frame_idx < ((audio@.len() - N_FFT) as nat) / (HOP_LENGTH as nat) + 1,
                    audio@.len() > N_FFT,
                    HOP_LENGTH == 160,
                    N_FFT == 512,
            ;
        } else {
            assert(frame_idx == 0);
        }
    }
    let start: usize = frame_idx * HOP_LENGTH;
    let mut out: Vec<T> = Vec::new();
    let mut i: usize = 0;
    while i < N_FFT
        invariant
            i <= N_FFT,
            start == frame_idx * HOP_LENGTH,
            start <= audio@.len(),
            out@ == frame_of(audio@, frame_idx as nat, zero).subrange(0, i as int),
        decreases N_FFT - i,
    {
        if i < audio.len() - start {
            out.push(audio[start + i]);
        } else {
            out.push(zero);
        }
        i = i + 1;
        assert(out@ =~= frame_of(audio@, frame_idx as nat, zero).subrange(0, i as int));
    }
    assert(out@ =~= frame_of(audio@, frame_idx as nat, zero));
    out
}

/// The `cols x rows` transpose of the row-major `rows x cols` matrix `m`.
pub open spec fn transposed<T>(m: Seq<T>, rows: nat, cols: nat) -> Seq<T> {
    Seq::new(rows * cols, |j: int| m[(j % rows as int) * cols + j / rows as int])
}

proof fn lemma_index_in_bounds(a: nat, b: nat, rows: nat, cols: nat)
    requires
        a < rows,
        b < cols,
    ensures
        a * cols + b < rows * cols,
{
    assert(a * cols + b < rows * cols) by (nonlinear_arith)
        requires
            a < rows,
            b < cols,
    ;
}

/// Turns the mel-major feature matrix (`rows` mel bins of `cols` frames)
/// into the frame-major layout the encoder reads.
pub fn transpose<T: Copy>(m: &[T], rows: usize, cols: usize) -> (r: Vec<T>)
    requires
        m@.len() == rows * cols,
    ensures
        r@ == transposed(m@, rows as nat, cols as nat),
{
    let total = m.len();
    let mut out: Vec<T> = Vec::new();
    let mut f: usize = 0;
    while f < cols
        invariant
            f <= cols,
            total == m@.len(),
            m@.len() == rows * cols,
            out@.len() == f * rows,
            forall|j: int|
                0 <= j < out@.len() ==> #[trigger] out@[j] == m@[(j % rows as int) * cols + j
                    / rows as int],
        decreases cols - f,
    {
        let mut k: usize = 0;
        while k < rows
            invariant
                f < cols,
                k <= rows,
                total == m@.len(),
                m@.len() == rows * cols,
                out@.len() == f * rows + k,
                forall|j: int|
                    0 <= j < out@.len() ==> #[trigger] out@[j] == m@[(j % rows as int) * cols + j
                        / rows as int],
            decreases rows - k,
        {
            proof {
                lemma_index_in_bounds(k as nat, f as nat, rows as nat, cols as nat);
                lemma_index_in_bounds(f as nat, k as nat, cols as nat, rows as nat);
                assert(f * rows + k < rows * cols) by (nonlinear_arith)
                    requires
                        f * rows + k < cols * rows,
                ;
                lemma_fundamental_div_mod_converse(
                    (f * rows + k) as int,
                    rows as int,
                    f as int,
                    k as int,
                );
            }
            out.push(m[k * cols + f]);
            k = k + 1;
        }
        f = f + 1;
        assert(out@.len() == f * rows) by (nonlinear_arith)
            requires
                out@.len() == (f - 1) * rows + rows,
        ;
    }
    assert(out@.len() == rows * cols) by (nonlinear_arith)
        requires
            out@.len() == cols * rows,
    ;
    assert(out@ =~= transposed(m@, rows as nat, cols as nat));
    out
}

/// A filter weight as an exact ratio `num / den`.
#[derive(PartialEq, Eq, Structural, Clone, Copy, Debug)]
pub struct FilterWeight {
    pub num: usize,
    pub den: usize,
}

/// The weight of frequency bin `k` in triangular filter `m`, whose start,
/// centre and end bins are `bins[m]`, `bins[m + 1]` and `bins[m + 2]`: it
/// rises from 0 at the start to 1 at the centre, falls back to 0 at the end,
/// and is 0 elsewhere.
pub open spec fn filter_weight(bins: Seq<usize>, m: int, k: nat) -> FilterWeight {
    let start = bins[m] as nat;
    let center = bins[m + 1] as nat;
    let end = bins[m + 2] as nat;
    if start <= k && k < center {
        FilterWeight { num: (k - start) as usize, den: (center - start) as usize }
    } else if center <= k && k < end {
        FilterWeight { num: (end - k) as usize, den: (end - center) as usize }
    } else {
        FilterWeight { num: 0, den: 1 }
    }
}

/// One weight for `k` computed.
fn weight_of(bins: &[usize], m: usize, k: usize) -> (r: FilterWeight)
    requires
        m + 2 < bins@.len(),
    ensures
        r == filter_weight(bins@, m as int, k as nat),
{
    let start = bins[m];
    let center = bins[m + 1];
    let end = bins[m + 2];
    if start <= k && k < center {
        FilterWeight { num: k - start, den: center - start }
    } else if center <= k && k < end {
        FilterWeight { num: end - k, den: end - center }
    } else {
        FilterWeight { num: 0, den: 1 }
    }
}

/// The triangular filterbank over `n_freqs` frequency bins whose `n + 2`
/// edge bins are `bins`: row `m` holds filter `m`'s weight for each bin.
pub fn triangular_filterbank(bins: &[usize], n_freqs: usize) -> (r: Vec<Vec<FilterWeight>>)
    requires
        bins@.len() >= 2,
    ensures
        r@.len() == bins@.len() - 2,
        forall|m: int|
            0 <= m < r@.len() ==> (#[trigger] r@[m])@.len() == n_freqs && forall|k: int|
                0 <= k < n_freqs ==> (#[trigger] r@[m]@[k]) == filter_weight(bins@, m, k as nat),
{
    let n_mels = bins.len() - 2;
    let mut out: Vec<Vec<FilterWeight>> = Vec::new();
    let mut m: usize = 0;
    while m < n_mels
        invariant
            n_mels == bins@.len() - 2,
            m <= n_mels,
            out@.len() == m,
            forall|i: int|
                0 <= i < m ==> (#[trigger] out@[i])@.len() == n_freqs && forall|k: int|
                    0 <= k < n_freqs ==> (#[trigger] out@[i]@[k]) == filter_weight(
                        bins@,
                        i,
                        k as nat,
                    ),
        decreases n_mels - m,
    {
        let mut row: Vec<FilterWeight> = Vec::new();
        let mut k: usize = 0;
        while k < n_freqs
            invariant
                m + 2 < bins@.len(),
                k <= n_freqs,
                row@.len() == k,
                forall|j: int|
                    0 <= j < k ==> (#[trigger] row@[j]) == filter_weight(bins@, m as int, j as nat),
            decreases n_freqs - k,
        {
            row.push(weight_of(bins, m, k));
            k = k + 1;
        }
        out.push(row);
        m = m + 1;
    }
    out
}

/// Every weight lies between 0 and 1, and a filter whose edge bins rise is
/// zero outside its span from its start bin to its end bin.
pub proof fn lemma_filter_shape(bins: Seq<usize>, m: int, k: nat)
    requires
        0 <= m,
        m + 2 < bins.len(),
        bins[m] <= bins[m + 1] <= bins[m + 2],
    ensures
        filter_weight(bins, m, k).den > 0,
        filter_weight(bins, m, k).num <= filter_weight(bins, m, k).den,
        (k < bins[m] || k >= bins[m + 2]) ==> filter_weight(bins, m, k).num == 0,
{
}

} // verus!
