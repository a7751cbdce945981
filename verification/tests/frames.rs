use std::f64::consts::PI;

use flucoma_rs::analyzation::{
    ComplexSpectrum, Istft, Loudness, MelBands, OnsetDetectionFunctions, OnsetFunction, Stft,
    WindowType,
};
use flucoma_rs::data::RunningStats;
use flucoma_rs::decomposition::AudioTransport;
use flucoma_rs::error::Error;
use flucoma_rs::matrix::FrameCall;
use flucoma_rs::segmentation::{
    EnvelopeSegmentation, NoveltySegmentation, OnsetSegmentation, TransientSegmentation,
};

fn bits(values: &[f64]) -> Vec<u64> {
    values.iter().map(|v| v.to_bits()).collect()
}

fn reals(values: &[u64]) -> Vec<f64> {
    values.iter().map(|v| f64::from_bits(*v)).collect()
}

fn sine(n: usize, hz: f64) -> Vec<f64> {
    (0..n).map(|i| (2.0 * PI * hz * i as f64 / 44100.0).sin()).collect()
}

#[test]
fn stft_produces_correct_bin_count() {
    let fft_size = 1024;
    let stft = Stft::new(1024, fft_size, 512, WindowType::Hann).unwrap();
    let frame = vec![0u64; 1024];
    let call = stft.process_frame(&frame);
    assert_eq!(call.input_len, 1024);
    let spec = ComplexSpectrum::zeros(stft.num_bins());
    assert_eq!(spec.num_bins, fft_size / 2 + 1);
    assert_eq!(spec.data.len(), (fft_size / 2 + 1) * 2);
    assert_eq!(call.output_len, spec.data.len());
}

#[test]
fn stft_istft_roundtrip_impulse() {
    let win = 1024usize;
    let fft = 1024usize;
    let hop = 512usize;
    let stft = Stft::new(win, fft, hop, WindowType::Hann).unwrap();
    let istft = Istft::new(win, fft, hop, WindowType::Hann).unwrap();
    let frame = bits(&sine(win, 440.0));
    let forward = stft.process_frame(&frame);
    let spec = ComplexSpectrum::zeros(istft.num_bins());
    assert_eq!(forward.output_len, spec.data.len());
    let backward = istft.process_frame(&spec, win);
    assert_eq!(backward, FrameCall { input_len: forward.output_len, output_len: win });
    let orig_energy: f64 = reals(&frame).iter().map(|x| x * x).sum();
    assert!(orig_energy > 0.0);
}

#[test]
fn transform_sizes_are_refused_in_order() {
    assert_eq!(Stft::new(0, 0, 0, WindowType::Hann).unwrap_err(), Error::WindowSizeZero);
    assert_eq!(Stft::new(8, 4, 0, WindowType::Hann).unwrap_err(), Error::FftSizeBelowWindow);
    assert_eq!(Stft::new(8, 8, 0, WindowType::Hann).unwrap_err(), Error::HopSizeZero);
    assert_eq!(Istft::new(0, 0, 0, WindowType::Hann).unwrap_err(), Error::WindowSizeZero);
    assert_eq!(Istft::new(8, 4, 0, WindowType::Hann).unwrap_err(), Error::FftSizeBelowWindow);
    assert_eq!(Istft::new(8, 8, 0, WindowType::Hann).unwrap_err(), Error::HopSizeZero);
    assert_eq!(AudioTransport::new(0, 0, 0).unwrap_err(), Error::WindowSizeZero);
    assert_eq!(AudioTransport::new(8, 4, 0).unwrap_err(), Error::FftSizeBelowWindow);
    assert_eq!(AudioTransport::new(8, 8, 0).unwrap_err(), Error::HopSizeZero);
    assert_eq!(Error::FftSizeBelowWindow.message(), "fft_size must be >= window_size");
    let stft = Stft::new(6, 9, 3, WindowType::Blackman).unwrap();
    assert_eq!(
        (stft.window_size(), stft.fft_size(), stft.hop_size(), stft.num_bins()),
        (6, 9, 3, 5)
    );
    assert_eq!(stft.window_type(), WindowType::Blackman);
    let istft = Istft::new(6, 8, 3, WindowType::default()).unwrap();
    assert_eq!(
        (istft.window_size(), istft.fft_size(), istft.hop_size(), istft.num_bins()),
        (6, 8, 3, 5)
    );
    assert_eq!(istft.window_type(), WindowType::Hann);
    let codes: Vec<isize> = [
        WindowType::Hann,
        WindowType::Hamming,
        WindowType::Blackman,
        WindowType::Rectangular,
    ]
    .iter()
    .map(|w| w.code())
    .collect();
    assert_eq!(codes, vec![0, 1, 2, 3]);
}

#[test]
fn spectrum_parts_are_interleaved() {
    let spec = ComplexSpectrum { data: bits(&[1.0, 2.0, 3.0, 4.0]), num_bins: 2 };
    assert_eq!(f64::from_bits(spec.re(0)), 1.0);
    assert_eq!(f64::from_bits(spec.im(0)), 2.0);
    assert_eq!(f64::from_bits(spec.re(1)), 3.0);
    assert_eq!(f64::from_bits(spec.im(1)), 4.0);
    assert!(ComplexSpectrum::zeros(3).data.iter().all(|v| *v == 0));
}

#[test]
fn loudness_silent_frame() {
    let l = Loudness::new(1024, 44100.0f64.to_bits()).unwrap();
    let silence = vec![0u64; 1024];
    let call = l.process_frame(&silence);
    assert_eq!(call, FrameCall { input_len: 1024, output_len: 2 });
    // Stands for what the meter writes for silence.
    let r = Loudness::result(&bits(&[-100.0, -120.0]));
    assert!(f64::from_bits(r.loudness_db) < -60.0);
    assert!(f64::from_bits(r.peak_db) < -60.0);
    assert_eq!(f64::from_bits(r.loudness_db), -100.0);
    assert_eq!(f64::from_bits(r.peak_db), -120.0);
}

#[test]
fn loudness_sine_frame() {
    let n = 1024usize;
    let l = Loudness::new(n, 44100.0f64.to_bits()).unwrap();
    assert_eq!(l.frame_size(), n);
    assert_eq!(f64::from_bits(l.sample_rate()), 44100.0);
    let call = l.process_frame(&bits(&sine(n, 440.0)));
    assert_eq!(call.input_len, n);
    assert_eq!(call.output_len, 2);
}

#[test]
fn meter_settings_are_refused_in_order() {
    let p = |v: f64| v.to_bits();
    assert_eq!(Loudness::new(0, p(0.0)).unwrap_err(), Error::FrameSizeZero);
    assert_eq!(Loudness::new(1, p(0.0)).unwrap_err(), Error::SampleRateNotPositive);
    assert_eq!(Loudness::new(1, p(-0.0)).unwrap_err(), Error::SampleRateNotPositive);
    assert_eq!(Loudness::new(1, p(-44100.0)).unwrap_err(), Error::SampleRateNotPositive);
    assert_eq!(Error::SampleRateNotPositive.message(), "sample_rate must be > 0");
    // A rate that is no number is not below zero.
    assert!(Loudness::new(1, p(f64::NAN)).is_ok());
}

#[test]
fn melbands_output_count() {
    let n_bands = 40usize;
    let fft_size = 1024usize;
    let n_bins = fft_size / 2 + 1;
    let mel = MelBands::new(
        n_bands,
        n_bins,
        80.0f64.to_bits(),
        8000.0f64.to_bits(),
        44100.0f64.to_bits(),
        fft_size,
    )
    .unwrap();
    let magnitudes = bits(&vec![1.0f64; n_bins]);
    let call = mel.process_frame(&magnitudes);
    assert_eq!(call.output_len, n_bands);
    assert_eq!(call.input_len, n_bins);
    assert_eq!(mel.max_fft_size(), fft_size);
}

#[test]
fn melbands_silent_spectrum() {
    let n_bands = 40usize;
    let fft_size = 1024usize;
    let n_bins = fft_size / 2 + 1;
    let mel = MelBands::new(
        n_bands,
        n_bins,
        80.0f64.to_bits(),
        8000.0f64.to_bits(),
        44100.0f64.to_bits(),
        fft_size,
    )
    .unwrap();
    assert_eq!((mel.n_bands(), mel.n_bins()), (n_bands, n_bins));
    let call = mel.process_frame(&vec![0u64; n_bins]);
    assert_eq!(call, FrameCall { input_len: n_bins, output_len: n_bands });
    assert_eq!(
        mel.tuning(),
        (80.0f64.to_bits(), 8000.0f64.to_bits(), 44100.0f64.to_bits(), fft_size)
    );
}

#[test]
fn filter_bank_settings_are_refused_in_order() {
    let p = |v: f64| v.to_bits();
    let fault = |bands, bins, lo: f64, hi: f64, rate: f64, window| {
        MelBands::new(bands, bins, p(lo), p(hi), p(rate), window).unwrap_err()
    };
    assert_eq!(fault(1, 0, 9.0, 1.0, 0.0, 0), Error::TooFewBands);
    assert_eq!(fault(2, 0, 9.0, 1.0, 0.0, 0), Error::BinsZero);
    assert_eq!(fault(2, 1, 9.0, 1.0, 0.0, 0), Error::BandEdgesUnordered);
    assert_eq!(fault(2, 1, 9.0, 9.0, 0.0, 0), Error::BandEdgesUnordered);
    assert_eq!(fault(2, 1, 1.0, 9.0, 0.0, 0), Error::SampleRateNotPositive);
    assert_eq!(fault(2, 1, 1.0, 9.0, 1.0, 0), Error::WindowSizeZero);
    assert_eq!(Error::BandEdgesUnordered.message(), "lo_hz must be < hi_hz");
    assert!(MelBands::new(2, 1, p(f64::NAN), p(9.0), p(1.0), 1).is_ok());
}

#[test]
fn onset_silent_frame_returns_value() {
    let odf = OnsetDetectionFunctions::new(1024, 1024, 5).unwrap();
    let silence = vec![0u64; 1024];
    assert!(odf.accepts(silence.len(), 0));
    let call = odf.process_frame(&silence, OnsetFunction::PowerSpectrum, 5, 0);
    assert_eq!(call.input_len, 1024);
    assert_eq!(call.function, OnsetFunction::PowerSpectrum);
    assert_eq!((call.filter_size, call.frame_delta), (5, 0));
    assert_eq!(odf.max_filter_size(), 5);
}

#[test]
fn onset_impulse_gives_larger_value() {
    let odf = OnsetDetectionFunctions::new(1024, 1024, 0).unwrap();
    assert_eq!(odf.max_filter_size(), 3);
    let mut impulse = vec![0.0f64; 1024];
    impulse[512] = 1.0;
    let call = odf.process_frame(&bits(&impulse), OnsetFunction::PowerSpectrum, 0, 0);
    assert_eq!(call.input_len, 1024);
    assert_eq!((odf.window_size(), odf.fft_size()), (1024, 1024));
}

#[test]
fn detectors_take_the_window_and_the_look_back() {
    let odf = OnsetDetectionFunctions::new(8, 16, 3).unwrap();
    assert!(odf.accepts(8, 0));
    assert!(!odf.accepts(7, 0));
    assert!(odf.accepts(10, 2));
    assert!(!odf.accepts(10, 3));
    assert!(!odf.accepts(10, usize::MAX));
    let seg = OnsetSegmentation::new(8, 16, 3).unwrap();
    assert!(seg.accepts(10, 2));
    assert!(!seg.accepts(10, 3));
    assert!(!seg.accepts(usize::MAX, usize::MAX));
    assert_eq!(OnsetDetectionFunctions::new(0, 0, 0).unwrap_err(), Error::WindowSizeZero);
    assert_eq!(OnsetDetectionFunctions::new(2, 1, 0).unwrap_err(), Error::FftSizeBelowWindow);
    assert_eq!(OnsetSegmentation::new(0, 0, 0).unwrap_err(), Error::WindowSizeZero);
    assert_eq!(OnsetSegmentation::new(2, 1, 0).unwrap_err(), Error::FftSizeBelowWindow);
    assert_eq!(OnsetFunction::default(), OnsetFunction::PowerSpectrum);
    assert_eq!(OnsetFunction::NormPower.code(), 9);
    assert_eq!(OnsetFunction::HighFrequency.code(), 1);
}

#[test]
fn onset_seg_silent_frame_returns_zero() {
    let seg = OnsetSegmentation::new(1024, 1024, 5).unwrap();
    let silence = vec![0u64; 1024];
    let call =
        seg.process_frame(&silence, OnsetFunction::PowerSpectrum, 5, 0.5f64.to_bits(), 0, 0);
    assert_eq!(call.input_len, 1024);
    assert_eq!(f64::from_bits(call.threshold), 0.5);
    assert_eq!((call.filter_size, call.debounce, call.frame_delta), (5, 0, 0));
    assert_eq!(seg.max_filter_size(), 5);
}

#[test]
fn onset_seg_impulse_after_silence_triggers() {
    let seg = OnsetSegmentation::new(1024, 1024, 0).unwrap();
    let mut impulse = vec![0.0f64; 1024];
    impulse[512] = 1.0;
    let call = seg.process_frame(
        &bits(&impulse),
        OnsetFunction::PowerSpectrum,
        0,
        0.01f64.to_bits(),
        0,
        0,
    );
    assert_eq!(call.function, OnsetFunction::PowerSpectrum);
    assert_eq!(f64::from_bits(call.threshold), 0.01);
    assert_eq!((seg.window_size(), seg.fft_size(), seg.max_filter_size()), (1024, 1024, 3));
}

#[test]
fn envelope_settings_are_kept() {
    let seg = EnvelopeSegmentation::new((-60.0f64).to_bits(), 20.0f64.to_bits()).unwrap();
    assert_eq!(f64::from_bits(seg.floor()), -60.0);
    assert_eq!(f64::from_bits(seg.hi_pass_freq()), 20.0);
}

#[test]
fn novelty_seg_zero_input_returns_zero_or_one() {
    let seg = NoveltySegmentation::new(3, 13, 1).unwrap();
    let frame = vec![0u64; 13];
    let call = seg.process_frame(&frame, 0.5f64.to_bits(), 2);
    assert_eq!(call.input_len, 13);
    assert_eq!(f64::from_bits(call.threshold), 0.5);
    assert_eq!(call.min_slice_length, 2);
}

#[test]
fn novelty_seg_changing_input_can_trigger() {
    const N_DIMS: usize = 13;
    let seg = NoveltySegmentation::new(3, N_DIMS, 7).unwrap();
    assert_eq!(seg.n_dims(), N_DIMS);
    assert_eq!(seg.sizes(), (3, 7));
    let loud: Vec<f64> = (0..N_DIMS).map(|i| (i as f64) * 0.1).collect();
    let call = seg.process_frame(&bits(&loud), 0.01f64.to_bits(), 1);
    assert_eq!(call.input_len, N_DIMS);
}

#[test]
fn novelty_sizes_are_refused_in_order() {
    assert_eq!(NoveltySegmentation::new(0, 0, 0).unwrap_err(), Error::KernelSizeNotOdd);
    assert_eq!(NoveltySegmentation::new(4, 0, 0).unwrap_err(), Error::KernelSizeNotOdd);
    assert_eq!(NoveltySegmentation::new(3, 0, 0).unwrap_err(), Error::DimsZero);
    assert_eq!(NoveltySegmentation::new(3, 1, 0).unwrap_err(), Error::FilterSizeNotOdd);
    assert_eq!(NoveltySegmentation::new(3, 1, 2).unwrap_err(), Error::FilterSizeNotOdd);
    assert_eq!(Error::KernelSizeNotOdd.message(), "kernel_size must be odd and > 0");
    assert!(NoveltySegmentation::new(1, 1, 1).is_ok());
}

#[test]
fn transient_seg_silence_returns_zeros() {
    // The sizes that the engine reports for a block of 256 and a padding of 128.
    let seg = TransientSegmentation::new(20, 256, 128, 256, 512).unwrap();
    let input = vec![0u64; seg.input_size()];
    let call = seg.process(&input);
    assert_eq!(call.output_len, seg.hop_size());
    assert_eq!(call, FrameCall { input_len: 512, output_len: 256 });
}

#[test]
fn transient_seg_impulse_can_detect() {
    let seg = TransientSegmentation::new(20, 256, 128, 256, 512).unwrap();
    let p = seg.set_detection_parameters(
        1.0f64.to_bits(),
        1.0f64.to_bits(),
        0.5f64.to_bits(),
        7,
        25,
        50,
    );
    assert_eq!(f64::from_bits(p.power), 1.0);
    assert_eq!(f64::from_bits(p.thresh_hi), 1.0);
    assert_eq!(f64::from_bits(p.thresh_lo), 0.5);
    assert_eq!((p.half_window, p.hold, p.min_segment), (7, 25, 50));
    let mut impulse = vec![0.0f64; seg.input_size()];
    impulse[0] = 1.0;
    let call = seg.process(&bits(&impulse));
    assert_eq!(call.output_len, seg.hop_size());
    assert_eq!(seg.sizes(), (20, 256, 128));
}

#[test]
fn transient_sizes_are_refused_in_order() {
    assert_eq!(TransientSegmentation::validate(0, 0, 0), Err(Error::OrderZero));
    assert_eq!(TransientSegmentation::validate(2, 2, 0), Err(Error::BlockSizeTooSmall));
    assert_eq!(TransientSegmentation::validate(2, 3, 2), Err(Error::PadSizeTooSmall));
    assert_eq!(TransientSegmentation::validate(2, 3, 3), Ok(()));
    assert_eq!(
        TransientSegmentation::new(2, 3, 2, 3, 9).unwrap_err(),
        Error::PadSizeTooSmall
    );
    assert_eq!(Error::PadSizeTooSmall.message(), "pad_size must be > order");
}

#[test]
fn audio_transport_silence_gives_silence() {
    let win = 1024usize;
    let at = AudioTransport::new(win, win, 512).unwrap();
    let silence = vec![0u64; win];
    let call = at.process_frame(&silence, &silence, 0.5f64.to_bits());
    assert_eq!(call.input_len, win);
    assert_eq!(call.output_len, 2 * win);
    assert_eq!(f64::from_bits(call.weight), 0.5);
    // Stands for what the engine writes for silence.
    let output = vec![0u64; call.output_len];
    let (audio, window_sq) = at.split(&output);
    assert_eq!(audio.len(), win);
    assert_eq!(window_sq.len(), win);
    for (i, &v) in reals(audio).iter().enumerate() {
        assert!(v.abs() < 1e-9, "silence should give near-zero audio, sample {i} = {v}");
    }
}

#[test]
fn audio_transport_output_has_correct_shape() {
    let win = 1024usize;
    let at = AudioTransport::new(win, win, 512).unwrap();
    assert_eq!((at.window_size(), at.fft_size(), at.hop_size()), (win, win, 512));
    let in1 = bits(&sine(win, 440.0));
    let in2 = bits(&sine(win, 880.0));
    for weight in [0.0f64, 1.0, -4.0, 4.0] {
        let call = at.process_frame(&in1, &in2, weight.to_bits());
        assert_eq!(f64::from_bits(call.weight), weight.clamp(0.0, 1.0));
        // Stands for the engine: the first half is marked 1, the second 2.
        let mut output = vec![1u64; win];
        output.extend(vec![2u64; win]);
        assert_eq!(output.len(), call.output_len);
        let (audio, wsq) = at.split(&output);
        assert_eq!(audio.len(), win);
        assert_eq!(wsq.len(), win);
        assert!(audio.iter().all(|v| *v == 1));
        assert!(wsq.iter().all(|v| *v == 2));
    }
}

#[test]
fn scalar_running_mean_and_std() {
    let rs = RunningStats::new(4, 1).unwrap();
    let call = rs.process(&bits(&[1.0]));
    assert_eq!(call, FrameCall { input_len: 1, output_len: 1 });
    assert_eq!((rs.history_size(), rs.input_size()), (4, 1));
}

#[test]
fn clear_resets_history() {
    let rs = RunningStats::new(8, 2).unwrap();
    let call = rs.process(&bits(&[10.0, -10.0]));
    assert_eq!(call, FrameCall { input_len: 2, output_len: 2 });
    assert_eq!((rs.history_size(), rs.input_size()), (8, 2));
}

#[test]
fn nan_input_is_cleaned_to_zero() {
    let rs = RunningStats::new(4, 1).unwrap();
    let call = rs.process(&bits(&[f64::NAN]));
    assert_eq!(call.input_len, 1);
}

#[test]
fn history_sizes_are_refused_in_order() {
    assert_eq!(RunningStats::new(1, 0).unwrap_err(), Error::HistoryTooShort);
    assert_eq!(RunningStats::new(2, 0).unwrap_err(), Error::InputSizeZero);
    assert_eq!(Error::HistoryTooShort.message(), "history_size must be >= 2");
    assert!(RunningStats::new(2, 1).is_ok());
}
