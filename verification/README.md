# welch

Welch's method for power spectral density estimation.

- `src/` (verified with Verus): parameter validation and the order of its
  errors, the layout of overlapping segments, the one-sided frequency grid and
  which bins are doubled, the sampling-rate check decided on the `f64` bit
  pattern, and generic buffer handling (segment extraction, zero padding).
  `src/laws.rs` proves the properties that hold across these functions.
- `app/`: the floating-point side (windows from `pxwindow`, detrending from
  `detrend`, FFT from `zaft`, periodogram averaging), the `Welch` builder with
  its `f64` sampling rate, and `welch_f32` / `welch_f64`.
