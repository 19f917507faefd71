use vstd::prelude::*;

verus! {

/// Number of samples that a delay of `delay_time_ms` milliseconds spans at
/// `sample_rate` samples per second, rounded down.
pub open spec fn offset_of(sample_rate: u32, delay_time_ms: u32) -> int {
    (sample_rate as int * delay_time_ms as int) / 1000
}

/// `out` is the single-tap echo of `input` at `offset` samples: up to and
/// including index `offset` each output sample is the dry input sample; past it,
/// each is some result of `mix(input[i], input[i - offset])`. The delayed term
/// always comes from the input, never from earlier output.
pub open spec fn is_echo_of<T, F: Fn(T, T) -> T>(
    input: Seq<T>,
    offset: int,
    mix: F,
    out: Seq<T>,
) -> bool {
    &&& out.len() == input.len()
    &&& forall|i: int| 0 <= i < input.len() && i <= offset ==> #[trigger] out[i] == input[i]
    &&& forall|i: int|
        0 <= i < input.len() && i > offset ==> mix.ensures(
            (input[i], input[i - offset]),
            #[trigger] out[i],
        )
}

/// The delay offset in samples: `floor(sample_rate * delay_time_ms / 1000)`.
/// A sample rate of zero gives an offset of zero.
pub fn delay_offset(sample_rate: u32, delay_time_ms: u32) -> (r: u64)
    ensures
        r as int == offset_of(sample_rate, delay_time_ms),
{
    let a: u64 = sample_rate as u64;
    let b: u64 = delay_time_ms as u64;
    proof {
        assert(a * b <= 0xffff_ffffu64 * 0xffff_ffffu64) by (nonlinear_arith)
            requires a <= 0xffff_ffffu64, b <= 0xffff_ffffu64;
    }
    (a * b) / 1000
}

/// Applies the feedback delay to `input`. `mix(dry, delayed)` combines a sample
/// with the input sample `offset_of(sample_rate, delay_time_ms)` places earlier
/// (for audio: `dry + feedback_gain * delayed`). Indices up to and including the
/// offset are copied unchanged, so an offset at or past the end copies the whole
/// input, and an offset of zero mixes every sample after the first with itself.
pub fn apply_delay<T: Copy, F: Fn(T, T) -> T>(
    input: &Vec<T>,
    sample_rate: u32,
    delay_time_ms: u32,
    mix: F,
) -> (out: Vec<T>)
    requires
        forall|dry: T, delayed: T| mix.requires((dry, delayed)),
    ensures
        is_echo_of(input@, offset_of(sample_rate, delay_time_ms), mix, out@),
{
    let offset = delay_offset(sample_rate, delay_time_ms);
    let mut out: Vec<T> = Vec::with_capacity(input.len());
    let mut i: usize = 0;
    while i < input.len()
        invariant
            forall|dry: T, delayed: T| mix.requires((dry, delayed)),
            offset == offset_of(sample_rate, delay_time_ms),
            i <= input.len(),
            out.len() == i,
            forall|k: int| 0 <= k < i && k <= offset ==> #[trigger] out@[k] == input@[k],
            forall|k: int|
                0 <= k < i && k > offset ==> mix.ensures(
                    (input@[k], input@[k - offset]),
                    #[trigger] out@[k],
                ),
        decreases input.len() - i,
    {
        if (i as u64) <= offset {
            out.push(input[i]);
        } else {
            let back: usize = i - (offset as usize);
            let wet = mix(input[i], input[back]);
            out.push(wet);
        }
        i = i + 1;
    }
    out
}

/// When the offset reaches the end of the input, the delay leaves the input as
/// it was.
pub proof fn lemma_long_delay_is_copy<T, F: Fn(T, T) -> T>(
    input: Seq<T>,
    offset: int,
    mix: F,
    out: Seq<T>,
)
    requires
        offset >= input.len(),
        is_echo_of(input, offset, mix, out),
    ensures
        out == input,
{
    assert(out =~= input);
}

/// A mix that always returns the dry sample (a feedback gain of zero) makes the
/// delay leave the input as it was, whatever the offset.
pub proof fn lemma_dry_mix_is_copy<T, F: Fn(T, T) -> T>(
    input: Seq<T>,
    offset: int,
    mix: F,
    out: Seq<T>,
)
    requires
        forall|dry: T, delayed: T, r: T| mix.ensures((dry, delayed), r) ==> r == dry,
        is_echo_of(input, offset, mix, out),
    ensures
        out == input,
{
    assert forall|i: int| 0 <= i < input.len() implies out[i] == input[i] by {
        if i > offset {
            assert(mix.ensures((input[i], input[i - offset]), out[i]));
        }
    }
    assert(out =~= input);
}

/// The output of the delay is as long as its input.
pub proof fn lemma_echo_keeps_length<T, F: Fn(T, T) -> T>(
    input: Seq<T>,
    offset: int,
    mix: F,
    out: Seq<T>,
)
    requires
        is_echo_of(input, offset, mix, out),
    ensures
        out.len() == input.len(),
{
}

} // verus!
