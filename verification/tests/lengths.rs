use realfft::{inner_fft_len, spectrum_len, twiddle_indices, FftError, Layout, Parity};

fn message(r: Result<(), FftError>) -> String {
    match r {
        Ok(()) => panic!("expected an error"),
        Err(e) => e.description().to_string(),
    }
}

#[test]
fn error_keeps_its_description() {
    let e = FftError::new("something went wrong");
    assert_eq!(e.description(), "something went wrong");
    assert_eq!(FftError::new("").description(), "");
}

#[test]
fn parity_of_lengths() {
    assert_eq!(Parity::of(0), Parity::Even);
    assert_eq!(Parity::of(1), Parity::Odd);
    assert_eq!(Parity::of(6), Parity::Even);
    assert_eq!(Parity::of(7), Parity::Odd);
}

#[test]
fn spectrum_has_half_plus_one_bins() {
    // 6 real samples give 4 bins, and so do 7.
    assert_eq!(spectrum_len(6), 4);
    assert_eq!(spectrum_len(7), 4);
    assert_eq!(spectrum_len(256), 129);
    assert_eq!(spectrum_len(0), 1);
    assert_eq!(spectrum_len(1), 1);
}

#[test]
fn inner_fft_is_half_length_for_even() {
    assert_eq!(inner_fft_len(256), 128);
    assert_eq!(inner_fft_len(6), 3);
    assert_eq!(inner_fft_len(7), 7);
    assert_eq!(inner_fft_len(1), 1);
    assert_eq!(inner_fft_len(0), 0);
}

#[test]
fn twiddle_index_ranges() {
    assert_eq!(twiddle_indices(0), Vec::<usize>::new());
    assert_eq!(twiddle_indices(2), Vec::<usize>::new());
    assert_eq!(twiddle_indices(4), Vec::<usize>::new());
    assert_eq!(twiddle_indices(6), vec![1]);
    assert_eq!(twiddle_indices(8), vec![1]);
    assert_eq!(twiddle_indices(10), vec![1, 2]);
    assert_eq!(twiddle_indices(12), vec![1, 2]);
    assert_eq!(twiddle_indices(256), (1..64).collect::<Vec<usize>>());
}

#[test]
fn odd_layout_scratch_holds_samples_and_inner_scratch() {
    let l = Layout::odd(5, 3);
    assert_eq!(l.length(), 5);
    assert_eq!(l.get_scratch_len(), 8);
    let l = Layout::odd(7, 0);
    assert_eq!(l.get_scratch_len(), 7);
}

#[test]
fn even_layout_scratch_is_inner_scratch() {
    let l = Layout::even(6, 10);
    assert_eq!(l.length(), 6);
    assert_eq!(l.get_scratch_len(), 10);
}

#[test]
fn forward_accepts_matching_buffers() {
    let l = Layout::odd(5, 3);
    assert!(l.check_forward(5, 3, 8).is_ok());
    let l = Layout::even(256, 0);
    assert!(l.check_forward(256, 129, 0).is_ok());
}

#[test]
fn forward_wrong_input() {
    let l = Layout::odd(5, 3);
    assert_eq!(
        message(l.check_forward(4, 3, 8)),
        "Wrong length of input, expected 5, got 4"
    );
    // The input is checked first.
    assert_eq!(
        message(l.check_forward(6, 0, 0)),
        "Wrong length of input, expected 5, got 6"
    );
}

#[test]
fn forward_wrong_output() {
    let l = Layout::odd(5, 3);
    // The error names the input's length as the one it got.
    assert_eq!(
        message(l.check_forward(5, 2, 8)),
        "Wrong length of output, expected 3, got 5"
    );
    assert_eq!(
        message(l.check_forward(5, 4, 0)),
        "Wrong length of output, expected 3, got 5"
    );
}

#[test]
fn forward_wrong_scratch() {
    let l = Layout::odd(5, 3);
    // The expected figure is half the scratch length plus one.
    assert_eq!(
        message(l.check_forward(5, 3, 7)),
        "Wrong length of scratch, expected 5, got 7"
    );
    let l = Layout::even(1000, 120);
    assert_eq!(
        message(l.check_forward(1000, 501, 0)),
        "Wrong length of scratch, expected 61, got 0"
    );
}

#[test]
fn inverse_accepts_matching_buffers() {
    let l = Layout::odd(5, 3);
    assert!(l.check_inverse(3, 5, 8).is_ok());
    let l = Layout::even(6, 2);
    assert!(l.check_inverse(4, 6, 2).is_ok());
}

#[test]
fn inverse_wrong_input() {
    let l = Layout::even(6, 2);
    assert_eq!(
        message(l.check_inverse(3, 6, 2)),
        "Wrong length of input, expected 4, got 3"
    );
}

#[test]
fn inverse_wrong_output() {
    let l = Layout::even(6, 2);
    assert_eq!(
        message(l.check_inverse(4, 5, 2)),
        "Wrong length of output, expected 6, got 4"
    );
}

#[test]
fn inverse_wrong_scratch() {
    let l = Layout::even(6, 2);
    assert_eq!(
        message(l.check_inverse(4, 6, 3)),
        "Wrong length of scratch, expected 2, got 3"
    );
}

#[test]
fn numbers_are_written_in_decimal() {
    let l = Layout::even(1234567890, 0);
    assert_eq!(
        message(l.check_forward(0, 0, 0)),
        "Wrong length of input, expected 1234567890, got 0"
    );
    let l = Layout::even(0, 0);
    assert_eq!(
        message(l.check_forward(usize::MAX, 0, 0)),
        format!("Wrong length of input, expected 0, got {}", usize::MAX)
    );
    let l = Layout::even(100, 0);
    assert_eq!(
        message(l.check_forward(10, 0, 0)),
        "Wrong length of input, expected 100, got 10"
    );
}

#[test]
fn forward_and_inverse_accept_mirrored_buffers() {
    for length in 0..20usize {
        let l = if length % 2 == 1 { Layout::odd(length, 4) } else { Layout::even(length, 4) };
        for a in 0..22usize {
            for b in 0..22usize {
                for s in 3..6usize {
                    let fwd = l.check_forward(a, b, s).is_ok();
                    let inv = l.check_inverse(b, a, s).is_ok();
                    assert_eq!(fwd, inv);
                    assert_eq!(fwd, a == length && b == length / 2 + 1 && s == l.get_scratch_len());
                }
            }
        }
    }
}
