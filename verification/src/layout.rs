use vstd::prelude::*;
use crate::decimal::decimal;
use crate::error::FftError;

verus! {

/// How a real transform of a given length is carried out: an odd length through a complex FFT
/// of the same length, an even length through a complex FFT of half the length.
#[derive(PartialEq, Eq, Structural, Clone, Copy, Debug)]
pub enum Parity {
    Odd,
    Even,
}

/// The parity of `length`.
pub open spec fn parity_of(length: nat) -> Parity {
    if length % 2 == 1 {
        Parity::Odd
    } else {
        Parity::Even
    }
}

impl Parity {
    /// The parity of `length`.
    pub fn of(length: usize) -> (p: Parity)
        ensures
            p == parity_of(length as nat),
            (p == Parity::Odd) == (length % 2 == 1),
            (p == Parity::Even) == (length % 2 == 0),
    {
        if length % 2 > 0 {
            Parity::Odd
        } else {
            Parity::Even
        }
    }
}

/// The number of bins in the half spectrum of `length` real samples.
pub open spec fn spectrum_len_of(length: nat) -> nat {
    length / 2 + 1
}

/// The number of bins in the half spectrum of `length` real samples: the complex output of a
/// forward transform and the complex input of an inverse one.
pub fn spectrum_len(length: usize) -> (m: usize)
    ensures
        m == spectrum_len_of(length as nat),
        m == length / 2 + 1,
{
    length / 2 + 1
}

/// The length of the complex FFT that carries out a real transform of `length` samples.
pub open spec fn inner_len_of(length: nat) -> nat {
    if length % 2 == 1 {
        length
    } else {
        length / 2
    }
}

/// The length of the complex FFT that carries out a real transform of `length` samples.
pub fn inner_fft_len(length: usize) -> (n: usize)
    ensures
        n == inner_len_of(length as nat),
        length % 2 == 1 ==> n == length,
        length % 2 == 0 ==> 2 * n == length,
{
    if length % 2 > 0 {
        length
    } else {
        length / 2
    }
}

/// The upper end of the twiddle factor indices of an even transform of `length` samples:
/// the factors are those of the indices `1..twiddle_end(length)`.
pub open spec fn twiddle_end(length: nat) -> nat {
    if length % 4 == 0 {
        length / 4
    } else {
        length / 4 + 1
    }
}

/// The number of twiddle factors an even transform of `length` samples uses.
pub open spec fn twiddle_count(length: nat) -> nat {
    if twiddle_end(length) >= 1 {
        (twiddle_end(length) - 1) as nat
    } else {
        0
    }
}

/// The indices of the twiddle factors of an even transform of `length` samples, in order:
/// `1, 2, ..., twiddle_end(length) - 1`. The factor of index `i` is `exp(-2 pi i i / length)`.
pub fn twiddle_indices(length: usize) -> (r: Vec<usize>)
    ensures
        r.len() == twiddle_count(length as nat),
        length % 2 == 0 && length >= 2 ==> 2 * r.len() + 2 + (length / 2 + 1) % 2 == length / 2
            + 1,
        forall|j: int| 0 <= j < r.len() ==> #[trigger] r@[j] == j + 1,
{
    let end = if length % 4 == 0 {
        length / 4
    } else {
        length / 4 + 1
    };
    let mut r: Vec<usize> = Vec::new();
    let mut i: usize = 1;
    while i < end
        invariant
            1 <= i,
            end == twiddle_end(length as nat),
            i <= end || (end == 0 && i == 1),
            r.len() == i - 1,
            forall|j: int| 0 <= j < r.len() ==> #[trigger] r@[j] == j + 1,
        decreases end - i,
    {
        r.push(i);
        i = i + 1;
    }
    r
}

/// The description of the error for a buffer (named by `buffer`) of the wrong length.
pub open spec fn length_message(buffer: Seq<char>, expected: nat, got: nat) -> Seq<char> {
    "Wrong length of "@ + buffer + ", expected "@ + decimal(expected) + ", got "@ + decimal(got)
}

/// What a forward transform of `length` samples with `scratch` elements of scratch space
/// answers to buffers of the given lengths: `None` when it accepts them, else the description
/// of its error. It checks the input, then the output, then the scratch buffer.
pub open spec fn forward_check(
    length: nat,
    scratch: nat,
    input_len: nat,
    output_len: nat,
    scratch_len: nat,
) -> Option<Seq<char>> {
    if input_len != length {
        Some(length_message("input"@, length, input_len))
    } else if output_len != spectrum_len_of(length) {
        Some(length_message("output"@, spectrum_len_of(length), input_len))
    } else if scratch_len != scratch {
        Some(length_message("scratch"@, scratch / 2 + 1, scratch_len))
    } else {
        None
    }
}

/// What an inverse transform of `length` samples with `scratch` elements of scratch space
/// answers to buffers of the given lengths: `None` when it accepts them, else the description
/// of its error. It checks the input, then the output, then the scratch buffer.
pub open spec fn inverse_check(
    length: nat,
    scratch: nat,
    input_len: nat,
    output_len: nat,
    scratch_len: nat,
) -> Option<Seq<char>> {
    if input_len != spectrum_len_of(length) {
        Some(length_message("input"@, spectrum_len_of(length), input_len))
    } else if output_len != length {
        Some(length_message("output"@, length, input_len))
    } else if scratch_len != scratch {
        Some(length_message("scratch"@, scratch / 2 + 1, scratch_len))
    } else {
        None
    }
}

/// The parity of a length says whether it is odd: odd lengths are `Odd`, even ones `Even`,
/// and adding two samples never changes it.
pub proof fn lemma_parity_is_oddness(n: nat)
    ensures
        (parity_of(n) == Parity::Odd) <==> n % 2 == 1,
        (parity_of(n) == Parity::Even) <==> n % 2 == 0,
        parity_of(n + 2) == parity_of(n),
        parity_of(0) == Parity::Even,
        parity_of(1) == Parity::Odd,
{
}

/// The half spectrum of `n` real samples keeps every bin from 0 up to and including the
/// Nyquist bin `n / 2`: it has `n / 2 + 1` bins, and twice its last index is `n` or `n - 1`.
pub proof fn lemma_spectrum_keeps_nyquist_bin(n: nat)
    ensures
        spectrum_len_of(n) == n / 2 + 1,
        spectrum_len_of(n) >= 1,
        2 * (spectrum_len_of(n) - 1) <= n <= 2 * (spectrum_len_of(n) - 1) + 1,
        spectrum_len_of(n + 2) == spectrum_len_of(n) + 1,
{
}

/// The inner complex FFT takes in every sample: for an odd length it has one complex value
/// per sample, for an even length one per pair of samples.
pub proof fn lemma_inner_fft_covers_all_samples(n: nat)
    ensures
        n % 2 == 1 ==> inner_len_of(n) == n,
        n % 2 == 0 ==> 2 * inner_len_of(n) == n,
        inner_len_of(n) <= n,
{
}

/// An even transform of `n >= 2` samples has one twiddle factor for each pair of interior bins
/// of its half spectrum: twice the factors, plus the first and last bins, plus the centre bin
/// when the number of bins is odd, make up all `n / 2 + 1` bins.
pub proof fn lemma_twiddles_fill_the_half_spectrum(n: nat)
    requires
        n % 2 == 0,
        n >= 2,
    ensures
        2 * twiddle_count(n) + 2 + (n / 2 + 1) % 2 == n / 2 + 1,
{
}

/// A forward transform of `n` samples accepts `n` samples in, `n / 2 + 1` bins out and the
/// scratch space it asks for, and the inverse accepts the same with input and output swapped.
pub proof fn lemma_matching_buffers_are_accepted(n: nat, scratch: nat)
    ensures
        forward_check(n, scratch, n, n / 2 + 1, scratch) is None,
        inverse_check(n, scratch, n / 2 + 1, n, scratch) is None,
        forward_check(n, scratch, n, n / 2, scratch) is Some,
        inverse_check(n, scratch, n / 2, n, scratch) is Some,
{
}

/// The buffers of the given lengths are exactly those that a forward transform of `length`
/// samples accepts: `length` real samples in, `length / 2 + 1` complex bins out, and the scratch
/// space it asks for. An inverse transform of the same length accepts the same buffers with
/// input and output swapped.
pub proof fn lemma_transforms_accept_exactly(
    length: nat,
    scratch: nat,
    input_len: nat,
    output_len: nat,
    scratch_len: nat,
)
    ensures
        forward_check(length, scratch, input_len, output_len, scratch_len) is None <==> (input_len
            == length && output_len == length / 2 + 1 && scratch_len == scratch),
        inverse_check(length, scratch, output_len, input_len, scratch_len) is None <==> (
        forward_check(length, scratch, input_len, output_len, scratch_len) is None),
{
}

/// What a planned real transform knows of itself apart from its sample values.
pub struct LayoutView {
    pub length: nat,
    pub scratch_len: nat,
}

/// The lengths of a planned real transform: the number of real samples and the number of
/// complex scratch elements that a call with caller-provided scratch space must be handed.
pub struct Layout {
    length: usize,
    scratch_len: usize,
}

impl View for Layout {
    type V = LayoutView;

    closed spec fn view(&self) -> LayoutView {
        LayoutView { length: self.length as nat, scratch_len: self.scratch_len as nat }
    }
}

impl Layout {
    /// The layout of a transform of an odd `length`, whose inner complex FFT of the same
    /// length needs `inner_scratch` elements of in-place scratch space. Its own scratch space
    /// holds the complex copy of the samples followed by the inner FFT's scratch space.
    pub fn odd(length: usize, inner_scratch: usize) -> (l: Layout)
        requires
            length % 2 == 1,
            length + inner_scratch <= usize::MAX,
        ensures
            l@.length == length,
            l@.scratch_len == length + inner_scratch,
    {
        Layout { length, scratch_len: inner_scratch + length }
    }

    /// The layout of a transform of an even `length`, whose inner complex FFT of half the
    /// length needs `inner_scratch` elements of out-of-place scratch space, which is all the
    /// scratch space the transform needs.
    pub fn even(length: usize, inner_scratch: usize) -> (l: Layout)
        requires
            length % 2 == 0,
        ensures
            l@.length == length,
            l@.scratch_len == inner_scratch,
    {
        Layout { length, scratch_len: inner_scratch }
    }

    /// The number of real samples.
    pub fn length(&self) -> (n: usize)
        ensures
            n == self@.length,
    {
        self.length
    }

    /// The number of complex scratch elements that a call with caller-provided scratch space
    /// must be handed.
    pub fn get_scratch_len(&self) -> (n: usize)
        ensures
            n == self@.scratch_len,
    {
        self.scratch_len
    }

    /// Checks the buffers handed to a forward transform: `input_len` real samples in,
    /// `output_len` complex bins out, `scratch_len` complex scratch elements.
    pub fn check_forward(&self, input_len: usize, output_len: usize, scratch_len: usize) -> (r:
        Result<(), FftError>)
        ensures
            match r {
                Ok(_) => forward_check(
                    self@.length,
                    self@.scratch_len,
                    input_len as nat,
                    output_len as nat,
                    scratch_len as nat,
                ) is None,
                Err(e) => forward_check(
                    self@.length,
                    self@.scratch_len,
                    input_len as nat,
                    output_len as nat,
                    scratch_len as nat,
                ) == Some(e@),
            },
    {
        if input_len != self.length {
            return Err(FftError::wrong_length("input", self.length, input_len));
        }
        if output_len != self.length / 2 + 1 {
            return Err(FftError::wrong_length("output", self.length / 2 + 1, input_len));
        }
        if scratch_len != self.scratch_len {
            return Err(FftError::wrong_length("scratch", self.scratch_len / 2 + 1, scratch_len));
        }
        Ok(())
    }

    /// Checks the buffers handed to an inverse transform: `input_len` complex bins in,
    /// `output_len` real samples out, `scratch_len` complex scratch elements.
    pub fn check_inverse(&self, input_len: usize, output_len: usize, scratch_len: usize) -> (r:
        Result<(), FftError>)
        ensures
            match r {
                Ok(_) => inverse_check(
                    self@.length,
                    self@.scratch_len,
                    input_len as nat,
                    output_len as nat,
                    scratch_len as nat,
                ) is None,
                Err(e) => inverse_check(
                    self@.length,
                    self@.scratch_len,
                    input_len as nat,
                    output_len as nat,
                    scratch_len as nat,
                ) == Some(e@),
            },
    {
        if input_len != self.length / 2 + 1 {
            return Err(FftError::wrong_length("input", self.length / 2 + 1, input_len));
        }
        if output_len != self.length {
            return Err(FftError::wrong_length("output", self.length, input_len));
        }
        if scratch_len != self.scratch_len {
            return Err(FftError::wrong_length("scratch", self.scratch_len / 2 + 1, scratch_len));
        }
        Ok(())
    }
}

} // verus!
