# realfft

Real-to-complex FFT and complex-to-real inverse FFT built on RustFFT.

- `src/` is the verified library: everything about a transform that does not involve a sample
  value. `layout` holds the lengths of a planned transform (spectrum length, inner FFT length,
  scratch length, twiddle index range) and the buffer checks with their exact error messages;
  `decimal` writes the numbers in those messages; `pairing` holds the bin pairing of the
  even-length post- and pre-processing and the Hermitian index map of the odd-length inverse;
  `zip` walks three sequences in step; `cache` keeps planned transforms by length.
- `app/` is the floating-point side: the planner, the four transforms and their sample
  arithmetic, generic over `rustfft::FftNum`, driven by the library's plans and checks.
