use vstd::prelude::*;

verus! {

/// Copies the samples `start .. end` of `input`.
pub fn extract_segment<T: Copy>(input: &[T], start: usize, end: usize) -> (r: Vec<T>)
    requires
        start <= end <= input@.len(),
    ensures
        r@ == input@.subrange(start as int, end as int),
{
    let mut out: Vec<T> = Vec::with_capacity(end - start);
    let mut k: usize = start;
    while k < end
        invariant
            start <= k <= end <= input@.len(),
            out@ == input@.subrange(start as int, k as int),
        decreases end - k,
    {
        out.push(input[k]);
        k = k + 1;
    }
    out
}

/// Pads `samples` with `fill` up to `len` elements; a buffer that is already
/// `len` long is returned as it is.
pub fn zero_pad<T: Copy>(samples: Vec<T>, len: usize, fill: T) -> (r: Vec<T>)
    requires
        samples@.len() <= len,
    ensures
        r@.len() == len,
        r@.subrange(0, samples@.len() as int) == samples@,
        forall|k: int| samples@.len() <= k < len ==> r@[k] == fill,
{
    let mut out: Vec<T> = samples;
    let ghost original: Seq<T> = out@;
    while out.len() < len
        invariant
            original.len() <= out@.len() <= len,
            out@.subrange(0, original.len() as int) == original,
            forall|k: int| original.len() <= k < out@.len() ==> out@[k] == fill,
        decreases len - out@.len(),
    {
        out.push(fill);
    }
    out
}

} // verus!
