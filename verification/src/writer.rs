//! The payload writer's arithmetic: how a payload is cut into fixed-size
//! chunks, which progress percentage each chunk reports, and in which order
//! a dual-channel device's two images are written.
//!
//! The caller performs the file I/O; everything here is the plan it follows:
//! chunk boundaries that cover the payload exactly, a progress sequence that
//! never decreases and ends at 100, and the display-before-main job order.

use vstd::prelude::*;
use vstd::arithmetic::div_mod::{
    lemma_div_is_ordered, lemma_div_multiples_vanish, lemma_fundamental_div_mod,
};
use vstd::arithmetic::mul::lemma_mul_inequality;
use crate::catalog::Uf2File;

verus! {

/// How many chunks a payload of `len` bytes yields at `chunk` bytes per
/// chunk: the quotient rounded up.
pub open spec fn spec_num_chunks(len: int, chunk: int) -> int {
    (len + chunk - 1) / chunk
}

/// The progress percentage reported before chunk `i` of `n` is written:
/// `i * 100 / n`, rounded down.
pub open spec fn spec_progress(i: int, n: int) -> int {
    i * 100 / n
}

/// The rounded-up chunk count is the one that covers the payload: `n`
/// chunks of `chunk` bytes reach at least `len` bytes, and `n - 1` chunks
/// fall short of it.
pub proof fn lemma_num_chunks_covers(len: int, chunk: int)
    requires
        len >= 0,
        chunk >= 1,
    ensures
        spec_num_chunks(len, chunk) >= 0,
        spec_num_chunks(len, chunk) * chunk >= len,
        len >= 1 ==> (spec_num_chunks(len, chunk) - 1) * chunk < len,
        len >= 1 ==> spec_num_chunks(len, chunk) >= 1,
        len == 0 ==> spec_num_chunks(len, chunk) == 0,
{
    let n = spec_num_chunks(len, chunk);
    lemma_fundamental_div_mod(len + chunk - 1, chunk);
    let r = (len + chunk - 1) % chunk;
    assert(len + chunk - 1 == chunk * n + r);
    assert(0 <= r < chunk);
    assert(chunk * n == n * chunk) by (nonlinear_arith);
    assert(n * chunk == len - 1 - r + chunk);
    assert(n * chunk >= len);
    assert((n - 1) * chunk == n * chunk - chunk) by (nonlinear_arith);
    if len >= 1 {
        assert((n - 1) * chunk == len - 1 - r < len);
        assert(n >= 1) by (nonlinear_arith)
            requires
                n * chunk >= len,
                len >= 1,
                chunk >= 1,
        ;
    }
    if len == 0 {
        assert(n * chunk >= 0);
        assert(n >= 0) by (nonlinear_arith)
            requires
                n * chunk >= 0,
                chunk >= 1,
        ;
        assert((n - 1) * chunk < len);
        assert(n - 1 < 1) by (nonlinear_arith)
            requires
                (n - 1) * chunk < 1,
                chunk >= 1,
        ;
    }
    assert(n >= 0) by (nonlinear_arith)
        requires
            n * chunk >= len,
            len >= 0,
            chunk >= 1,
    ;
}

/// The number of chunks the payload is written in.
pub fn num_chunks(len: usize, chunk_size: usize) -> (n: usize)
    requires
        chunk_size >= 1,
    ensures
        n == spec_num_chunks(len as int, chunk_size as int),
        n * chunk_size >= len,
{
    proof {
        lemma_num_chunks_covers(len as int, chunk_size as int);
    }
    if len == 0 {
        0
    } else {
        let n = (len - 1) / chunk_size + 1;
        proof {
            lemma_fundamental_div_mod(len - 1, chunk_size as int);
            let q = (len - 1) as int / chunk_size as int;
            let r = (len - 1) as int % chunk_size as int;
            assert(len as int + chunk_size - 1 == (q + 1) * chunk_size + r) by (nonlinear_arith)
                requires
                    (len - 1) as int == chunk_size as int * q + r,
            ;
            vstd::arithmetic::div_mod::lemma_fundamental_div_mod_converse(
                len as int + chunk_size - 1,
                chunk_size as int,
                q + 1,
                r,
            );
        }
        n
    }
}

/// Progress never exceeds 100 while chunks remain, and is ordered with the
/// chunk index: later chunks never report less.
pub proof fn lemma_progress_bounds(i: int, j: int, n: int)
    requires
        n >= 1,
        0 <= i <= j <= n,
    ensures
        0 <= spec_progress(i, n) <= spec_progress(j, n) <= 100,
{
    assert(0 <= i * 100) by (nonlinear_arith)
        requires
            i >= 0,
    ;
    assert(i * 100 <= j * 100) by (nonlinear_arith)
        requires
            i <= j,
    ;
    lemma_mul_inequality(j, n, 100);
    assert(j * 100 == 100 * j) by (nonlinear_arith);
    assert(n * 100 == 100 * n) by (nonlinear_arith);
    lemma_div_is_ordered(0, i * 100, n);
    lemma_div_is_ordered(i * 100, j * 100, n);
    lemma_div_is_ordered(j * 100, n * 100, n);
    lemma_div_multiples_vanish(100, n);
}

/// The percentage reported before chunk `i` of `n` is written.
pub fn chunk_progress(i: usize, n: usize) -> (p: i16)
    requires
        1 <= n,
        i <= n,
    ensures
        p == spec_progress(i as int, n as int),
        0 <= p <= 100,
{
    proof {
        lemma_progress_bounds(i as int, i as int, n as int);
    }
    (((i as u128) * 100) / (n as u128)) as i16
}

/// The byte range of chunk `i`: chunks cover the payload in order, each
/// full except possibly the last.
pub open spec fn spec_chunk_span(len: int, chunk: int, i: int) -> (int, int) {
    (i * chunk, if len - i * chunk > chunk {
        i * chunk + chunk
    } else {
        len
    })
}

/// Whether an executable span equals the chunk span formula at position `i`.
pub open spec fn span_matches(s: (usize, usize), len: int, chunk: int, i: int) -> bool {
    s.0 == spec_chunk_span(len, chunk, i).0 && s.1 == spec_chunk_span(len, chunk, i).1
}

/// The total byte count of a span list.
pub open spec fn spans_total(spans: Seq<(usize, usize)>) -> int
    decreases spans.len(),
{
    if spans.len() == 0 {
        0
    } else {
        spans_total(spans.drop_last()) + spans.last().1 - spans.last().0
    }
}

/// The chunk boundaries for a payload of `len` bytes: `num_chunks` spans,
/// contiguous from 0 to `len`, each of `chunk_size` bytes except the last.
pub fn chunk_spans(len: usize, chunk_size: usize) -> (spans: Vec<(usize, usize)>)
    requires
        chunk_size >= 1,
    ensures
        spans@.len() == spec_num_chunks(len as int, chunk_size as int),
        forall|i: int| 0 <= i < spans@.len()
            ==> span_matches(#[trigger] spans@[i], len as int, chunk_size as int, i),
        forall|i: int| 0 <= i < spans@.len()
            ==> (#[trigger] spans@[i]).0 < spans@[i].1 <= len,
        spans@.len() > 0 ==> spans@[0].0 == 0 && spans@[spans@.len() - 1].1 == len,
        forall|i: int| 0 < i < spans@.len()
            ==> (#[trigger] spans@[i]).0 == spans@[i - 1].1,
{
    proof {
        lemma_num_chunks_covers(len as int, chunk_size as int);
    }
    let n = num_chunks(len, chunk_size);
    let mut spans: Vec<(usize, usize)> = Vec::new();
    let mut start: usize = 0;
    let mut i: usize = 0;
    while i < n
        invariant
            chunk_size >= 1,
            n == spec_num_chunks(len as int, chunk_size as int),
            n * chunk_size >= len,
            i <= n,
            i < n ==> start == i * chunk_size && start < len,
            i == n && n > 0 ==> start == len,
            spans@.len() == i,
            forall|j: int| 0 <= j < i
                ==> span_matches(#[trigger] spans@[j], len as int, chunk_size as int, j),
            forall|j: int| 0 <= j < i
                ==> (#[trigger] spans@[j]).0 < spans@[j].1 <= len,
            forall|j: int| 0 < j < i
                ==> (#[trigger] spans@[j]).0 == spans@[j - 1].1,
            i > 0 ==> spans@[0].0 == 0,
            i > 0 ==> spans@[i - 1].1 == start,
        decreases n - i,
    {
        let end = if len - start > chunk_size {
            start + chunk_size
        } else {
            len
        };
        spans.push((start, end));
        proof {
            lemma_num_chunks_covers(len as int, chunk_size as int);
            assert((i + 1) * chunk_size == i * chunk_size + chunk_size) by (nonlinear_arith);
            if end == len {
                // the chunk that reaches the payload end is the last one
                if i as int + 1 < n {
                    lemma_mul_inequality(i as int + 1, n as int - 1, chunk_size as int);
                    assert((n - 1) * chunk_size < len);
                    assert(false);
                }
            } else {
                // a full chunk short of the end cannot be the last one
                if i as int + 1 == n {
                    assert(false);
                }
            }
        }
        start = end;
        i = i + 1;
    }
    spans
}

/// Law: the chunk spans of a payload account for every byte exactly once —
/// their lengths sum to the payload length.
pub proof fn lemma_chunk_spans_sum(spans: Seq<(usize, usize)>, len: int, chunk: int)
    requires
        len >= 0,
        chunk >= 1,
        spans.len() == spec_num_chunks(len, chunk),
        forall|i: int| 0 <= i < spans.len()
            ==> span_matches(#[trigger] spans[i], len, chunk, i),
    ensures
        spans_total(spans) == len,
{
    lemma_num_chunks_covers(len, chunk);
    lemma_spans_prefix_total(spans, len, chunk, spans.len() as int);
    assert(spans.take(spans.len() as int) =~= spans);
    let n = spans.len() as int;
    assert(n * chunk >= len);
    if spans.len() == 0 {
        assert(0 * chunk == 0) by (nonlinear_arith);
    }
}

/// The first `k` spans cover the first `min(len, k * chunk)` bytes.
proof fn lemma_spans_prefix_total(spans: Seq<(usize, usize)>, len: int, chunk: int, k: int)
    requires
        len >= 0,
        chunk >= 1,
        spans.len() == spec_num_chunks(len, chunk),
        forall|i: int| 0 <= i < spans.len()
            ==> span_matches(#[trigger] spans[i], len, chunk, i),
        0 <= k <= spans.len(),
    ensures
        spans_total(spans.take(k)) == if k * chunk <= len {
            k * chunk
        } else {
            len
        },
    decreases k,
{
    lemma_num_chunks_covers(len, chunk);
    if k == 0 {
        assert(spans.take(0).len() == 0);
        assert(0 * chunk == 0) by (nonlinear_arith);
    } else {
        lemma_spans_prefix_total(spans, len, chunk, k - 1);
        assert(spans.take(k).drop_last() =~= spans.take(k - 1));
        assert(spans.take(k).last() == spans[k - 1]);
        let n = spans.len() as int;
        // position k - 1 is a valid chunk, so its start lies inside the payload
        lemma_mul_inequality(k - 1, n - 1, chunk);
        if len >= 1 {
            assert((n - 1) * chunk < len);
        }
        assert((k - 1) * chunk <= (n - 1) * chunk);
        assert(k * chunk == (k - 1) * chunk + chunk) by (nonlinear_arith);
    }
}

/// Stepping from one chunk to the next: the chunk's end is the next
/// chunk's start while chunks remain, and the payload's end at the last
/// chunk.
pub proof fn lemma_chunk_step(len: int, chunk: int, i: int)
    requires
        chunk >= 1,
        len >= 0,
        0 <= i < spec_num_chunks(len, chunk),
        i * chunk < len,
    ensures
        ({
            let end = spec_chunk_span(len, chunk, i).1;
            &&& i * chunk < end <= len
            &&& (i + 1 < spec_num_chunks(len, chunk) ==> end == (i + 1) * chunk && end < len)
            &&& (i + 1 == spec_num_chunks(len, chunk) ==> end == len)
        }),
{
    let n = spec_num_chunks(len, chunk);
    lemma_num_chunks_covers(len, chunk);
    assert((i + 1) * chunk == i * chunk + chunk) by (nonlinear_arith);
    if len - i * chunk > chunk {
        // a full chunk that stops short of the end cannot be the last
        if i + 1 == n {
            assert(n * chunk >= len);
            assert(false);
        }
    } else {
        // the chunk that reaches the end is the last one
        if i + 1 < n {
            lemma_mul_inequality(i + 1, n - 1, chunk);
            assert((n - 1) * chunk < len);
            assert(false);
        }
    }
}

/// The progress percentages one payload write emits, in order: one marker
/// before each chunk, and the saturating final 100 that is sent even when
/// the chunk markers already ended near it.  The sequence never decreases
/// and always ends at exactly 100.
pub fn progress_sequence(len: usize, chunk_size: usize) -> (ps: Vec<i16>)
    requires
        chunk_size >= 1,
    ensures
        ps@.len() == spec_num_chunks(len as int, chunk_size as int) + 1,
        forall|i: int| 0 <= i < ps@.len() - 1
            ==> ps@[i] == spec_progress(i, spec_num_chunks(len as int, chunk_size as int)),
        ps@.last() == 100,
        forall|i: int, j: int| 0 <= i <= j < ps@.len() ==> ps@[i] <= ps@[j],
{
    let n = num_chunks(len, chunk_size);
    let mut ps: Vec<i16> = Vec::new();
    let mut i: usize = 0;
    while i < n
        invariant
            chunk_size >= 1,
            n == spec_num_chunks(len as int, chunk_size as int),
            i <= n,
            ps@.len() == i,
            forall|j: int| 0 <= j < i ==> ps@[j] == spec_progress(j, n as int),
        decreases n - i,
    {
        ps.push(chunk_progress(i, n));
        i = i + 1;
    }
    ps.push(100);
    proof {
        assert forall|a: int, b: int| 0 <= a <= b < ps@.len() implies ps@[a] <= ps@[b] by {
            if n > 0 {
                if b < n {
                    lemma_progress_bounds(a, b, n as int);
                } else if a < n {
                    lemma_progress_bounds(a, a, n as int);
                }
            }
        }
    }
    ps
}

/// Which controller one write job targets.
#[derive(Clone, Copy, Debug, PartialEq, Eq, Structural)]
pub enum FlashChannel {
    Main,
    Display,
}

/// One file write: the channel it targets, the mount path of that
/// channel's volume as the latest snapshot reported it (absent when the
/// volume was not mounted), and the image to write.
#[derive(Debug)]
pub struct FlashJob {
    pub channel: FlashChannel,
    pub path: Option<String>,
    pub payload: Vec<u8>,
}

/// Mathematical model of a [`FlashJob`].
pub struct FlashJobModel {
    pub channel: FlashChannel,
    pub path: Option<Seq<char>>,
    pub payload: Seq<u8>,
}

impl View for FlashJob {
    type V = FlashJobModel;

    open spec fn view(&self) -> FlashJobModel {
        FlashJobModel {
            channel: self.channel,
            path: match self.path {
                Some(ref p) => Some(p@),
                None => None,
            },
            payload: self.payload@,
        }
    }
}

/// Orders the write jobs for a payload.  For a dual-channel image the
/// display (secondary) controller's job strictly precedes the main
/// (primary) controller's job: the primary is written last so that its
/// reboot cannot disrupt a still-pending secondary write.  A standalone
/// image yields the main job alone.
pub fn flash_jobs(file: Uf2File, main_path: Option<String>, display_path: Option<String>)
    -> (jobs: Vec<FlashJob>)
    ensures
        ({
            let m = match main_path {
                Some(ref p) => Some(p@),
                None => None::<Seq<char>>,
            };
            let d = match display_path {
                Some(ref p) => Some(p@),
                None => None::<Seq<char>>,
            };
            match file@ {
                crate::catalog::Uf2FileModel::FreeWili(main_fw, display_fw) => {
                    &&& jobs@.len() == 2
                    &&& jobs@[0].channel == FlashChannel::Display
                    &&& jobs@[0].payload@ == display_fw
                    &&& (match jobs@[0].path {
                        Some(ref p) => d == Some(p@),
                        None => d is None,
                    })
                    &&& jobs@[1].channel == FlashChannel::Main
                    &&& jobs@[1].payload@ == main_fw
                    &&& (match jobs@[1].path {
                        Some(ref p) => m == Some(p@),
                        None => m is None,
                    })
                },
                crate::catalog::Uf2FileModel::Standalone(fw) => {
                    &&& jobs@.len() == 1
                    &&& jobs@[0].channel == FlashChannel::Main
                    &&& jobs@[0].payload@ == fw
                    &&& (match jobs@[0].path {
                        Some(ref p) => m == Some(p@),
                        None => m is None,
                    })
                },
            }
        }),
{
    let mut jobs: Vec<FlashJob> = Vec::new();
    match file {
        Uf2File::FreeWili(main_fw, display_fw) => {
            jobs.push(FlashJob {
                channel: FlashChannel::Display,
                path: display_path,
                payload: display_fw,
            });
            jobs.push(FlashJob { channel: FlashChannel::Main, path: main_path, payload: main_fw });
        },
        Uf2File::Standalone(fw) => {
            jobs.push(FlashJob { channel: FlashChannel::Main, path: main_path, payload: fw });
        },
    }
    jobs
}

} // verus!
