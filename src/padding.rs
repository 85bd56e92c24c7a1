//! Bringing an audio segment up to a minimum length with trailing silence.

use vstd::prelude::*;

verus! {

/// The segment `s` extended with `silence` up to length `m`; unchanged when
/// it already has at least `m` samples.
pub open spec fn padded<T>(s: Seq<T>, m: nat, silence: T) -> Seq<T> {
    if s.len() >= m {
        s
    } else {
        s + Seq::new((m - s.len()) as nat, |_i: int| silence)
    }
}

/// Pads `segment` with `silence` when it is shorter than `min_samples`.
///
/// `None` means that no padding was needed: the caller keeps using
/// `segment` itself and nothing was allocated. `Some(v)` holds a new buffer
/// of exactly `min_samples` samples that starts with `segment` and ends with
/// silence.
pub fn pad_with_silence<T: Copy>(segment: &[T], min_samples: usize, silence: T) -> (r: Option<Vec<T>>)
    ensures
        min_samples <= segment@.len() <==> r is None,
        match r {
            Some(v) => {
                &&& v@.len() == min_samples
                &&& v@.subrange(0, segment@.len() as int) == segment@
                &&& forall|i: int| segment@.len() <= i < min_samples ==> v@[i] == silence
                &&& v@ == padded(segment@, min_samples as nat, silence)
            },
            None => padded(segment@, min_samples as nat, silence) == segment@,
        },
{
    if segment.len() < min_samples {
        let mut out: Vec<T> = Vec::with_capacity(min_samples);
        let mut i: usize = 0;
        while i < segment.len()
            invariant
                i <= segment@.len(),
                out@ == segment@.subrange(0, i as int),
            decreases segment@.len() - i,
        {
            out.push(segment[i]);
            i = i + 1;
            assert(out@ =~= segment@.subrange(0, i as int));
        }
        while i < min_samples
            invariant
                segment@.len() <= i <= min_samples,
                out@.len() == i,
                out@.subrange(0, segment@.len() as int) == segment@,
                forall|k: int| segment@.len() <= k < i ==> out@[k] == silence,
            decreases min_samples - i,
        {
            out.push(silence);
            i = i + 1;
            assert(out@.subrange(0, segment@.len() as int) =~= segment@);
        }
        assert(out@ =~= padded(segment@, min_samples as nat, silence));
        Some(out)
    } else {
        None
    }
}

} // verus!
