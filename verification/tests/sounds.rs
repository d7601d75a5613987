use system_recorder::denoise::{DenoiseBuffers, BLOCK, MAX_BUFFER_SIZE};
use system_recorder::dsp::{
    default_vocal_eq_bands, hard_limit, noise_gate, DspProcessor, DspSettings, DspSlider,
    DspSwitch, EqBandSettings, EqPreset, Stage, VocalEnhancementSettings,
};
use system_recorder::single::Single;

fn s(x: f32) -> Single {
    Single::from_bits(x.to_bits())
}

fn f(x: Single) -> f32 {
    f32::from_bits(x.bits)
}

fn singles(v: &[f32]) -> Vec<Single> {
    v.iter().map(|x| s(*x)).collect()
}

fn interesting() -> Vec<f32> {
    vec![
        0.0,
        -0.0,
        1.0e-45,
        -1.0e-40,
        1.1754944e-38,
        0.001,
        -0.001,
        0.5,
        -0.5,
        0.89125094,
        1.0,
        -1.0,
        3.0e38,
        f32::INFINITY,
        f32::NEG_INFINITY,
        f32::NAN,
        -f32::NAN,
    ]
}

#[test]
fn magnitudes_are_compared_as_by_the_machine() {
    for x in interesting() {
        for level in interesting() {
            assert_eq!(s(x).is_abs_below(s(level)), x.abs() < level, "{} {}", x, level);
            assert_eq!(s(x).is_abs_above(s(level)), x.abs() > level, "{} {}", x, level);
        }
        assert_eq!(s(x).negate().bits, (-x).to_bits());
    }
}

#[test]
fn the_gate_silences_what_is_below() {
    let input = [0.0f32, 0.0005, -0.0005, 0.001, -0.002, f32::NAN];
    let mut data = singles(&input);
    noise_gate(&mut data, s(0.001));
    let out: Vec<f32> = data.iter().map(|x| f(*x)).collect();
    assert_eq!(&out[..5], &[0.0, 0.0, 0.0, 0.001, -0.002]);
    assert!(out[5].is_nan());
}

#[test]
fn a_second_gate_changes_nothing() {
    for threshold in interesting() {
        let mut once = singles(&interesting());
        noise_gate(&mut once, s(threshold));
        let mut twice = once.clone();
        noise_gate(&mut twice, s(threshold));
        assert_eq!(once, twice);
    }
}

#[test]
fn the_limiter_cuts_with_the_sign() {
    let mut data = singles(&[0.5, 0.9, -2.0, f32::NEG_INFINITY, 0.25]);
    hard_limit(&mut data, s(0.5));
    let out: Vec<f32> = data.iter().map(|x| f(*x)).collect();
    assert_eq!(out, vec![0.5, 0.5, -0.5, -0.5, 0.25]);
}

#[test]
fn limited_samples_stay_within_the_threshold() {
    let threshold = 10.0f32.powf(-1.0 / 20.0);
    let mut data = singles(&interesting());
    hard_limit(&mut data, s(threshold));
    for (x, y) in interesting().iter().zip(data.iter()) {
        assert!(!(f(*y).abs() > threshold));
        assert_eq!(x.is_sign_negative(), f(*y).is_sign_negative());
        if !(x.abs() > threshold) {
            assert_eq!(x.to_bits(), y.bits);
        }
    }
    let mut again = data.clone();
    hard_limit(&mut again, s(threshold));
    assert_eq!(again, data);
}

#[test]
fn default_settings() {
    let d = DspSettings::default();
    assert!(!d.enable_hpf && !d.enable_denoise && !d.enable_gate && !d.enable_compressor);
    assert_eq!(f(d.hpf_cutoff), 80.0);
    assert_eq!(f(d.gate_threshold), 0.001);
    assert_eq!(f(d.comp_threshold), 0.5);
    assert_eq!(f(d.comp_ratio), 4.0);
    let v = VocalEnhancementSettings::default();
    assert!(v.enable_agc && v.enable_eq && v.enable_limiter);
    assert_eq!(f(v.agc_target_rms), 0.3);
    assert_eq!(f(v.agc_attack_ms), 10.0);
    assert_eq!(f(v.agc_release_ms), 100.0);
    assert_eq!(f(v.agc_max_gain_db), 20.0);
    assert_eq!(v.eq_preset, EqPreset::VocalEnhance);
    assert_eq!(EqPreset::default(), EqPreset::VocalEnhance);
    assert_eq!(f(v.limiter_threshold_db), -1.0);
    assert_eq!(f(v.limiter_attack_ms), 1.0);
    assert_eq!(f(v.limiter_release_ms), 100.0);
    assert_eq!(v.eq_bands, default_vocal_eq_bands());
}

#[test]
fn default_bands() {
    let bands: Vec<(f32, f32, f32)> = default_vocal_eq_bands()
        .iter()
        .map(|b| (f(b.center_freq), f(b.q_factor), f(b.gain_db)))
        .collect();
    assert_eq!(
        bands,
        vec![
            (80.0, 0.7, -6.0),
            (200.0, 1.0, 2.0),
            (1000.0, 1.4, 4.0),
            (3000.0, 1.0, 3.0),
            (8000.0, 0.7, 2.0),
        ]
    );
}

#[test]
fn sliders_have_ranges() {
    let range = |slider: DspSlider| {
        let (lo, hi) = slider.range();
        (f(lo), f(hi))
    };
    assert_eq!(range(DspSlider::HpfCutoff), (20.0, 500.0));
    assert_eq!(range(DspSlider::GateThreshold), (0.0, 0.1));
    assert_eq!(range(DspSlider::CompThreshold), (0.1, 1.0));
    assert_eq!(range(DspSlider::CompRatio), (1.0, 20.0));
}

#[test]
fn sliders_are_shown_with_their_switch() {
    let mut d = DspSettings::default();
    assert!(!d.shows(DspSlider::CompRatio));
    d.set_switch(DspSwitch::Compressor, true);
    assert!(d.shows(DspSlider::CompRatio));
    assert!(d.shows(DspSlider::CompThreshold));
    assert!(!d.shows(DspSlider::HpfCutoff));
    assert!(!d.shows(DspSlider::GateThreshold));
    d.set_switch(DspSwitch::HighPass, true);
    d.set_switch(DspSwitch::Gate, true);
    assert!(d.shows(DspSlider::HpfCutoff));
    assert!(d.shows(DspSlider::GateThreshold));
    d.set_level(DspSlider::HpfCutoff, s(120.0));
    d.set_level(DspSlider::CompThreshold, s(0.25));
    d.set_level(DspSlider::CompRatio, s(8.0));
    assert_eq!(f(d.hpf_cutoff), 120.0);
    assert_eq!(f(d.comp_threshold), 0.25);
    assert_eq!(f(d.comp_ratio), 8.0);
    assert_eq!(f(d.gate_threshold), 0.001);
}

#[test]
fn stages_run_in_the_order_of_the_chain() {
    let mut d = DspSettings::default();
    assert_eq!(d.stages(4), vec![Stage::Agc, Stage::Equalizer, Stage::Limiter]);
    assert_eq!(d.stages(0), vec![]);
    d.enable_hpf = true;
    d.enable_denoise = true;
    d.enable_gate = true;
    d.enable_compressor = true;
    assert_eq!(
        d.stages(1),
        vec![
            Stage::HighPass,
            Stage::Denoise,
            Stage::Gate,
            Stage::Compressor,
            Stage::Agc,
            Stage::Equalizer,
            Stage::Limiter,
        ]
    );
    d.vocal_enhancement.enable_eq = false;
    d.enable_hpf = false;
    let p = DspProcessor::new(d, 48_000, 2);
    assert_eq!(
        p.process_frame(960),
        vec![Stage::Denoise, Stage::Gate, Stage::Compressor, Stage::Agc, Stage::Limiter]
    );
    assert_eq!(p.process_frame(0), vec![]);
}

#[test]
fn bands_reach_the_equalizer_with_the_next_update() {
    let band = |freq: f32| EqBandSettings {
        center_freq: s(freq),
        q_factor: s(1.0),
        gain_db: s(0.0),
    };
    let with = |bands: Vec<EqBandSettings>| {
        let mut d = DspSettings::default();
        d.vocal_enhancement.eq_bands = bands;
        d
    };
    let mut p = DspProcessor::new(with(vec![band(1.0), band(2.0)]), 44_100, 1);
    assert_eq!(p.eq_loaded, vec![None; 5]);
    p.update_settings(with(vec![band(10.0)]));
    assert_eq!(p.eq_loaded, vec![Some(band(1.0)), Some(band(2.0)), None, None, None]);
    p.update_settings(with(vec![]));
    assert_eq!(p.eq_loaded, vec![Some(band(10.0)), Some(band(2.0)), None, None, None]);
    p.update_settings(with(vec![]));
    assert_eq!(p.eq_loaded[0], Some(band(10.0)));
    assert_eq!(p.sample_rate, 44_100);
}

/// Runs a frame through the buffers; a denoised sample is the sample negated.
fn denoise(b: &mut DenoiseBuffers, frame: &[f32]) -> Vec<f32> {
    let mut data = singles(frame);
    b.push_frame(&data);
    while let Some((ch, block)) = b.next_block() {
        assert_eq!(block.len(), BLOCK);
        b.put_block(ch, block.iter().map(|x| x.negate()).collect());
    }
    b.finish_frame(&mut data);
    data.iter().map(|x| f(*x)).collect()
}

#[test]
fn frames_are_split_by_channel() {
    let mut b = DenoiseBuffers::new(2);
    b.push_frame(&singles(&[1.0, 10.0, 2.0, 20.0, 3.0]));
    assert_eq!(b.inputs[0], singles(&[1.0, 2.0, 3.0]));
    assert_eq!(b.inputs[1], singles(&[10.0, 20.0]));
    assert_eq!(b.next_block(), None);
}

#[test]
fn short_frames_pass_until_a_block_is_full() {
    let mut b = DenoiseBuffers::new(1);
    let first: Vec<f32> = (0..400).map(|i| i as f32 + 1.0).collect();
    assert_eq!(denoise(&mut b, &first), first);
    let second: Vec<f32> = (0..400).map(|i| i as f32 + 401.0).collect();
    let out = denoise(&mut b, &second);
    // 480 denoised samples are ready, 400 of them are played out
    let expected: Vec<f32> = first.iter().map(|x| -x).collect();
    assert_eq!(out, expected);
    assert_eq!(b.inputs[0].len(), 320);
    assert_eq!(b.outputs[0].len(), 80);
}

#[test]
fn a_frame_of_whole_blocks_is_denoised_at_once() {
    let mut b = DenoiseBuffers::new(2);
    let frame: Vec<f32> = (0..1920).map(|i| i as f32 + 1.0).collect();
    let expected: Vec<f32> = frame.iter().map(|x| -x).collect();
    assert_eq!(denoise(&mut b, &frame), expected);
    assert!(b.inputs[0].is_empty() && b.outputs[1].is_empty());
}

#[test]
fn the_buffers_hold_less_than_a_block() {
    let mut b = DenoiseBuffers::new(3);
    let lens = [1usize, 1439, 7, 480, 1441, 960, 3, 2000, 5, 1];
    for len in lens.iter().cycle().take(200) {
        let frame = vec![0.5f32; *len];
        denoise(&mut b, &frame);
        for ch in 0..3 {
            assert!(b.inputs[ch].len() + b.outputs[ch].len() < BLOCK);
        }
    }
}

#[test]
fn buffers_are_cut_to_their_limit() {
    let mut b = DenoiseBuffers::new(1);
    let long: Vec<f32> = (0..1000).map(|i| i as f32).collect();
    b.push_frame(&singles(&[0.5; 100]));
    b.put_block(0, singles(&long));
    let mut frame = singles(&[0.25, 0.75]);
    b.finish_frame(&mut frame);
    assert_eq!(frame, singles(&[0.0, 1.0]));
    assert_eq!(b.inputs[0], singles(&[0.5; 100]));
    assert_eq!(b.outputs[0], singles(&long[2..2 + MAX_BUFFER_SIZE]));
}

#[test]
fn blocks_come_from_the_first_channel_that_has_one() {
    let mut b = DenoiseBuffers::new(2);
    let frame: Vec<f32> = (0..1920).map(|i| i as f32).collect();
    b.push_frame(&singles(&frame));
    let order: Vec<usize> = std::iter::from_fn(|| b.next_block()).map(|(ch, _)| ch).collect();
    assert_eq!(order, vec![0, 0, 1, 1]);
}
