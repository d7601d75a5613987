//! Sound enhancement: settings, the order of the stages, and the stages that
//! need no arithmetic on samples.
use vstd::prelude::*;

use crate::denoise::DenoiseBuffers;
use crate::single::Single;

verus! {

/// Equalizer presets.
#[derive(Debug, Clone, Copy, PartialEq, Eq, Structural)]
pub enum EqPreset {
    VocalEnhance,
    Broadcast,
    Phone,
    Custom,
}

impl Default for EqPreset {
    fn default() -> (p: Self)
        ensures
            p == EqPreset::VocalEnhance,
    {
        EqPreset::VocalEnhance
    }
}

/// One band of the equalizer.
#[derive(Debug, Clone, Copy, PartialEq, Eq, Structural)]
pub struct EqBandSettings {
    /// Hz
    pub center_freq: Single,
    pub q_factor: Single,
    /// dB
    pub gain_db: Single,
}

/// Settings of the voice enhancement.
#[derive(Debug, Clone)]
pub struct VocalEnhancementSettings {
    pub enable_agc: bool,
    /// Target level, 0.0 to 1.0.
    pub agc_target_rms: Single,
    pub agc_attack_ms: Single,
    pub agc_release_ms: Single,
    pub agc_max_gain_db: Single,
    pub enable_eq: bool,
    pub eq_preset: EqPreset,
    pub eq_bands: Vec<EqBandSettings>,
    pub enable_limiter: bool,
    /// dBFS
    pub limiter_threshold_db: Single,
    pub limiter_attack_ms: Single,
    pub limiter_release_ms: Single,
}

/// Settings of the sound enhancement.
#[derive(Debug, Clone)]
pub struct DspSettings {
    pub enable_hpf: bool,
    /// Hz
    pub hpf_cutoff: Single,
    pub enable_denoise: bool,
    pub enable_gate: bool,
    /// Linear amplitude, 0.0 to 1.0.
    pub gate_threshold: Single,
    pub enable_compressor: bool,
    /// Linear amplitude.
    pub comp_threshold: Single,
    pub comp_ratio: Single,
    pub vocal_enhancement: VocalEnhancementSettings,
}

/// The default bands of the equalizer.
pub open spec fn vocal_bands() -> Seq<EqBandSettings> {
    seq![
        // Low cut: removes hum
        EqBandSettings {
            center_freq: Single { bits: 0x42A0_0000 },
            q_factor: Single { bits: 0x3F33_3333 },
            gain_db: Single { bits: 0xC0C0_0000 },
        },
        // Low boost: adds warmth
        EqBandSettings {
            center_freq: Single { bits: 0x4348_0000 },
            q_factor: Single { bits: 0x3F80_0000 },
            gain_db: Single { bits: 0x4000_0000 },
        },
        // Middle boost: the core of the voice
        EqBandSettings {
            center_freq: Single { bits: 0x447A_0000 },
            q_factor: Single { bits: 0x3FB3_3333 },
            gain_db: Single { bits: 0x4080_0000 },
        },
        // High boost: adds clarity
        EqBandSettings {
            center_freq: Single { bits: 0x453B_8000 },
            q_factor: Single { bits: 0x3F80_0000 },
            gain_db: Single { bits: 0x4040_0000 },
        },
        // Air: adds openness
        EqBandSettings {
            center_freq: Single { bits: 0x45FA_0000 },
            q_factor: Single { bits: 0x3F33_3333 },
            gain_db: Single { bits: 0x4000_0000 },
        },
    ]
}

fn band(center_freq: u32, q_factor: u32, gain_db: u32) -> (b: EqBandSettings)
    ensures
        b == (EqBandSettings {
            center_freq: Single { bits: center_freq },
            q_factor: Single { bits: q_factor },
            gain_db: Single { bits: gain_db },
        }),
{
    EqBandSettings {
        center_freq: Single::from_bits(center_freq),
        q_factor: Single::from_bits(q_factor),
        gain_db: Single::from_bits(gain_db),
    }
}

/// The default bands of the equalizer.
pub fn default_vocal_eq_bands() -> (v: Vec<EqBandSettings>)
    ensures
        v@ == vocal_bands(),
{
    let mut v: Vec<EqBandSettings> = Vec::new();
    // 80.0 Hz, Q 0.7, -6.0 dB
    v.push(band(0x42A0_0000, 0x3F33_3333, 0xC0C0_0000));
    // 200.0 Hz, Q 1.0, 2.0 dB
    v.push(band(0x4348_0000, 0x3F80_0000, 0x4000_0000));
    // 1000.0 Hz, Q 1.4, 4.0 dB
    v.push(band(0x447A_0000, 0x3FB3_3333, 0x4080_0000));
    // 3000.0 Hz, Q 1.0, 3.0 dB
    v.push(band(0x453B_8000, 0x3F80_0000, 0x4040_0000));
    // 8000.0 Hz, Q 0.7, 2.0 dB
    v.push(band(0x45FA_0000, 0x3F33_3333, 0x4000_0000));
    v
}

impl VocalEnhancementSettings {
    /// Whether these are the settings of a fresh installation.
    pub open spec fn is_default(self) -> bool {
        &&& self.enable_agc
        &&& self.agc_target_rms == (Single { bits: 0x3E99_999A })
        &&& self.agc_attack_ms == (Single { bits: 0x4120_0000 })
        &&& self.agc_release_ms == (Single { bits: 0x42C8_0000 })
        &&& self.agc_max_gain_db == (Single { bits: 0x41A0_0000 })
        &&& self.enable_eq
        &&& self.eq_preset == EqPreset::VocalEnhance
        &&& self.eq_bands@ == vocal_bands()
        &&& self.enable_limiter
        &&& self.limiter_threshold_db == (Single { bits: 0xBF80_0000 })
        &&& self.limiter_attack_ms == (Single { bits: 0x3F80_0000 })
        &&& self.limiter_release_ms == (Single { bits: 0x42C8_0000 })
    }
}

impl Default for VocalEnhancementSettings {
    fn default() -> (s: Self)
        ensures
            s.is_default(),
    {
        VocalEnhancementSettings {
            enable_agc: true,
            // 0.3
            agc_target_rms: Single::from_bits(0x3E99_999A),
            // 10.0
            agc_attack_ms: Single::from_bits(0x4120_0000),
            // 100.0
            agc_release_ms: Single::from_bits(0x42C8_0000),
            // 20.0
            agc_max_gain_db: Single::from_bits(0x41A0_0000),
            enable_eq: true,
            eq_preset: EqPreset::VocalEnhance,
            eq_bands: default_vocal_eq_bands(),
            enable_limiter: true,
            // -1.0
            limiter_threshold_db: Single::from_bits(0xBF80_0000),
            // 1.0
            limiter_attack_ms: Single::from_bits(0x3F80_0000),
            // 100.0
            limiter_release_ms: Single::from_bits(0x42C8_0000),
        }
    }
}

impl DspSettings {
    /// Whether these are the settings of a fresh installation.
    pub open spec fn is_default(self) -> bool {
        &&& !self.enable_hpf
        &&& self.hpf_cutoff == (Single { bits: 0x42A0_0000 })
        &&& !self.enable_denoise
        &&& !self.enable_gate
        &&& self.gate_threshold == (Single { bits: 0x3A83_126F })
        &&& !self.enable_compressor
        &&& self.comp_threshold == (Single { bits: 0x3F00_0000 })
        &&& self.comp_ratio == (Single { bits: 0x4080_0000 })
        &&& self.vocal_enhancement.is_default()
    }
}

impl Default for DspSettings {
    fn default() -> (s: Self)
        ensures
            s.is_default(),
    {
        DspSettings {
            enable_hpf: false,
            // 80.0
            hpf_cutoff: Single::from_bits(0x42A0_0000),
            enable_denoise: false,
            enable_gate: false,
            // 0.001
            gate_threshold: Single::from_bits(0x3A83_126F),
            enable_compressor: false,
            // 0.5
            comp_threshold: Single::from_bits(0x3F00_0000),
            // 4.0
            comp_ratio: Single::from_bits(0x4080_0000),
            vocal_enhancement: VocalEnhancementSettings::default(),
        }
    }
}

// ---------------------------------------------------------------------------
// Editing
// ---------------------------------------------------------------------------
/// The switches of the settings window.
#[derive(Debug, Clone, Copy, PartialEq, Eq, Structural)]
pub enum DspSwitch {
    HighPass,
    Gate,
    Compressor,
}

/// The sliders of the settings window.
#[derive(Debug, Clone, Copy, PartialEq, Eq, Structural)]
pub enum DspSlider {
    HpfCutoff,
    GateThreshold,
    CompThreshold,
    CompRatio,
}

impl DspSlider {
    /// The least and the greatest value of a slider.
    pub open spec fn bounds(self) -> (Single, Single) {
        match self {
            DspSlider::HpfCutoff => (Single { bits: 0x41A0_0000 }, Single { bits: 0x43FA_0000 }),
            DspSlider::GateThreshold => (Single { bits: 0x0000_0000 }, Single { bits: 0x3DCC_CCCD }),
            DspSlider::CompThreshold => (Single { bits: 0x3DCC_CCCD }, Single { bits: 0x3F80_0000 }),
            DspSlider::CompRatio => (Single { bits: 0x3F80_0000 }, Single { bits: 0x41A0_0000 }),
        }
    }

    /// The least and the greatest value of a slider: 20 to 500 Hz, 0 to 0.1,
    /// 0.1 to 1, and 1 to 20.
    pub fn range(self) -> (r: (Single, Single))
        ensures
            r == self.bounds(),
    {
        match self {
            DspSlider::HpfCutoff => (
                Single::from_bits(0x41A0_0000),
                Single::from_bits(0x43FA_0000),
            ),
            DspSlider::GateThreshold => (
                Single::from_bits(0x0000_0000),
                Single::from_bits(0x3DCC_CCCD),
            ),
            DspSlider::CompThreshold => (
                Single::from_bits(0x3DCC_CCCD),
                Single::from_bits(0x3F80_0000),
            ),
            DspSlider::CompRatio => (
                Single::from_bits(0x3F80_0000),
                Single::from_bits(0x41A0_0000),
            ),
        }
    }
}

impl DspSettings {
    /// Whether a switch is on.
    pub open spec fn on(self, switch: DspSwitch) -> bool {
        match switch {
            DspSwitch::HighPass => self.enable_hpf,
            DspSwitch::Gate => self.enable_gate,
            DspSwitch::Compressor => self.enable_compressor,
        }
    }

    /// The value of a slider.
    pub open spec fn level(self, slider: DspSlider) -> Single {
        match slider {
            DspSlider::HpfCutoff => self.hpf_cutoff,
            DspSlider::GateThreshold => self.gate_threshold,
            DspSlider::CompThreshold => self.comp_threshold,
            DspSlider::CompRatio => self.comp_ratio,
        }
    }

    /// The switch that a slider belongs to.
    pub open spec fn switch_of(slider: DspSlider) -> DspSwitch {
        match slider {
            DspSlider::HpfCutoff => DspSwitch::HighPass,
            DspSlider::GateThreshold => DspSwitch::Gate,
            DspSlider::CompThreshold => DspSwitch::Compressor,
            DspSlider::CompRatio => DspSwitch::Compressor,
        }
    }

    /// Whether the two settings agree in everything that the window cannot edit.
    pub open spec fn same_elsewhere(self, other: DspSettings) -> bool {
        self.enable_denoise == other.enable_denoise && self.vocal_enhancement
            == other.vocal_enhancement
    }

    /// A slider is shown while its switch is on.
    pub fn shows(&self, slider: DspSlider) -> (b: bool)
        ensures
            b == self.on(Self::switch_of(slider)),
            slider is HpfCutoff ==> b == self.enable_hpf,
            slider is GateThreshold ==> b == self.enable_gate,
            slider is CompThreshold || slider is CompRatio ==> b == self.enable_compressor,
    {
        match slider {
            DspSlider::HpfCutoff => self.enable_hpf,
            DspSlider::GateThreshold => self.enable_gate,
            DspSlider::CompThreshold => self.enable_compressor,
            DspSlider::CompRatio => self.enable_compressor,
        }
    }

    /// Turns a switch on or off, and nothing else.
    pub fn set_switch(&mut self, switch: DspSwitch, on: bool)
        ensures
            forall|s: DspSwitch|
                #[trigger] final(self).on(s) == if s == switch {
                    on
                } else {
                    old(self).on(s)
                },
            forall|s: DspSlider| #[trigger] final(self).level(s) == old(self).level(s),
            final(self).same_elsewhere(*old(self)),
            switch is HighPass ==> *final(self) == (DspSettings { enable_hpf: on, ..*old(self) }),
            switch is Gate ==> *final(self) == (DspSettings { enable_gate: on, ..*old(self) }),
            switch is Compressor ==> *final(self) == (DspSettings {
                enable_compressor: on,
                ..*old(self)
            }),
    {
        match switch {
            DspSwitch::HighPass => self.enable_hpf = on,
            DspSwitch::Gate => self.enable_gate = on,
            DspSwitch::Compressor => self.enable_compressor = on,
        }
    }

    /// Moves a slider, and nothing else.
    pub fn set_level(&mut self, slider: DspSlider, value: Single)
        ensures
            forall|s: DspSlider|
                #[trigger] final(self).level(s) == if s == slider {
                    value
                } else {
                    old(self).level(s)
                },
            forall|s: DspSwitch| #[trigger] final(self).on(s) == old(self).on(s),
            final(self).same_elsewhere(*old(self)),
            slider is HpfCutoff ==> *final(self) == (DspSettings {
                hpf_cutoff: value,
                ..*old(self)
            }),
            slider is GateThreshold ==> *final(self) == (DspSettings {
                gate_threshold: value,
                ..*old(self)
            }),
            slider is CompThreshold ==> *final(self) == (DspSettings {
                comp_threshold: value,
                ..*old(self)
            }),
            slider is CompRatio ==> *final(self) == (DspSettings {
                comp_ratio: value,
                ..*old(self)
            }),
    {
        match slider {
            DspSlider::HpfCutoff => self.hpf_cutoff = value,
            DspSlider::GateThreshold => self.gate_threshold = value,
            DspSlider::CompThreshold => self.comp_threshold = value,
            DspSlider::CompRatio => self.comp_ratio = value,
        }
    }
}

// ---------------------------------------------------------------------------
// Stages
// ---------------------------------------------------------------------------
/// The stages of the enhancement, in the order in which they run.
#[derive(Debug, Clone, Copy, PartialEq, Eq, Structural)]
pub enum Stage {
    HighPass,
    Denoise,
    Gate,
    Compressor,
    Agc,
    Equalizer,
    Limiter,
}

impl Stage {
    /// The place of a stage in the chain.
    pub open spec fn rank(self) -> int {
        match self {
            Stage::HighPass => 0,
            Stage::Denoise => 1,
            Stage::Gate => 2,
            Stage::Compressor => 3,
            Stage::Agc => 4,
            Stage::Equalizer => 5,
            Stage::Limiter => 6,
        }
    }
}

impl DspSettings {
    /// Whether a stage is switched on.
    pub open spec fn enables(self, stage: Stage) -> bool {
        match stage {
            Stage::HighPass => self.enable_hpf,
            Stage::Denoise => self.enable_denoise,
            Stage::Gate => self.enable_gate,
            Stage::Compressor => self.enable_compressor,
            Stage::Agc => self.vocal_enhancement.enable_agc,
            Stage::Equalizer => self.vocal_enhancement.enable_eq,
            Stage::Limiter => self.vocal_enhancement.enable_limiter,
        }
    }

    /// The stages that a frame of `len` samples runs through: those that are
    /// switched on, each once, in the order of the chain. An empty frame runs
    /// through none.
    pub fn stages(&self, len: usize) -> (v: Vec<Stage>)
        ensures
            forall|s: Stage| #[trigger] v@.contains(s) <==> len > 0 && self.enables(s),
            len > 0 ==> {
                &&& v@.contains(Stage::HighPass) <==> self.enable_hpf
                &&& v@.contains(Stage::Denoise) <==> self.enable_denoise
                &&& v@.contains(Stage::Gate) <==> self.enable_gate
                &&& v@.contains(Stage::Compressor) <==> self.enable_compressor
                &&& v@.contains(Stage::Agc) <==> self.vocal_enhancement.enable_agc
                &&& v@.contains(Stage::Equalizer) <==> self.vocal_enhancement.enable_eq
                &&& v@.contains(Stage::Limiter) <==> self.vocal_enhancement.enable_limiter
            },
            len == 0 ==> v@.len() == 0,
            forall|i: int, j: int|
                0 <= i < j < v@.len() ==> (#[trigger] v@[i]).rank() < (#[trigger] v@[j]).rank(),
    {
        let mut v: Vec<Stage> = Vec::new();
        if len == 0 {
            return v;
        }
        add_stage(&mut v, Stage::HighPass, self.enable_hpf);
        add_stage(&mut v, Stage::Denoise, self.enable_denoise);
        add_stage(&mut v, Stage::Gate, self.enable_gate);
        add_stage(&mut v, Stage::Compressor, self.enable_compressor);
        add_stage(&mut v, Stage::Agc, self.vocal_enhancement.enable_agc);
        add_stage(&mut v, Stage::Equalizer, self.vocal_enhancement.enable_eq);
        add_stage(&mut v, Stage::Limiter, self.vocal_enhancement.enable_limiter);
        v
    }
}

/// Appends a stage behind stages of lower rank, where it is switched on.
fn add_stage(v: &mut Vec<Stage>, stage: Stage, on: bool)
    requires
        forall|i: int| 0 <= i < old(v)@.len() ==> (#[trigger] old(v)@[i]).rank() < stage.rank(),
        forall|i: int, j: int|
            0 <= i < j < old(v)@.len() ==> (#[trigger] old(v)@[i]).rank() < (
            #[trigger] old(v)@[j]).rank(),
    ensures
        forall|s: Stage|
            #[trigger] final(v)@.contains(s) <==> old(v)@.contains(s) || (on && s == stage),
        forall|i: int| 0 <= i < final(v)@.len() ==> (#[trigger] final(v)@[i]).rank() <= stage.rank(),
        forall|i: int, j: int|
            0 <= i < j < final(v)@.len() ==> (#[trigger] final(v)@[i]).rank() < (
            #[trigger] final(v)@[j]).rank(),
{
    let ghost before = v@;
    if on {
        v.push(stage);
        assert forall|s: Stage| #[trigger] v@.contains(s) <==> before.contains(s) || s == stage by {
            if before.contains(s) {
                let i = choose|i: int| 0 <= i < before.len() && before[i] == s;
                assert(v@[i] == s);
            }
            if s == stage {
                assert(v@[before.len() as int] == s);
            }
        }
    }
}

// ---------------------------------------------------------------------------
// Noise gate
// ---------------------------------------------------------------------------
/// A sample behind the noise gate: silence where it is below the threshold.
pub open spec fn gated(s: Single, threshold: Single) -> Single {
    if s.abs_below(threshold) {
        Single { bits: 0 }
    } else {
        s
    }
}

/// Silences every sample below the threshold.
pub fn noise_gate(data: &mut Vec<Single>, threshold: Single)
    ensures
        final(data)@.len() == old(data)@.len(),
        forall|i: int|
            0 <= i < old(data)@.len() ==> #[trigger] final(data)@[i] == gated(
                old(data)@[i],
                threshold,
            ),
{
    let len: usize = data.len();
    let mut i: usize = 0;
    while i < len
        invariant
            i <= len == data@.len() == old(data)@.len(),
            forall|j: int|
                0 <= j < i ==> #[trigger] data@[j] == gated(old(data)@[j], threshold),
            forall|j: int| i <= j < len ==> #[trigger] data@[j] == old(data)@[j],
        decreases len - i,
    {
        if data[i].is_abs_below(threshold) {
            data[i] = Single::from_bits(0);
        }
        i = i + 1;
    }
}

/// Behind the noise gate no sample is below the threshold but silence, and a
/// second pass changes nothing.
pub proof fn law_gate(s: Single, threshold: Single)
    ensures
        gated(s, threshold).abs_below(threshold) ==> gated(s, threshold) == (Single { bits: 0 }),
        gated(gated(s, threshold), threshold) == gated(s, threshold),
{
}

// ---------------------------------------------------------------------------
// Limiter
// ---------------------------------------------------------------------------
/// A sample behind the limiter: cut to the threshold with its sign.
pub open spec fn limited(s: Single, threshold: Single) -> Single {
    if s.abs_above(threshold) {
        if s.negative() {
            threshold.negated()
        } else {
            threshold
        }
    } else {
        s
    }
}

/// Cuts every sample above the threshold to the threshold, with its sign.
pub fn hard_limit(data: &mut Vec<Single>, threshold: Single)
    ensures
        final(data)@.len() == old(data)@.len(),
        forall|i: int|
            0 <= i < old(data)@.len() ==> #[trigger] final(data)@[i] == limited(
                old(data)@[i],
                threshold,
            ),
{
    let len: usize = data.len();
    let mut i: usize = 0;
    while i < len
        invariant
            i <= len == data@.len() == old(data)@.len(),
            forall|j: int|
                0 <= j < i ==> #[trigger] data@[j] == limited(old(data)@[j], threshold),
            forall|j: int| i <= j < len ==> #[trigger] data@[j] == old(data)@[j],
        decreases len - i,
    {
        let s = data[i];
        if s.is_abs_above(threshold) {
            if s.bits >= crate::single::SIGN_BIT {
                data[i] = threshold.negate();
            } else {
                data[i] = threshold;
            }
        }
        i = i + 1;
    }
}

/// Behind the limiter no sample is above the threshold, no sample has changed
/// its sign, samples within the threshold are untouched, and a second pass
/// changes nothing. The threshold of the limiter, a power of ten, is not
/// negative.
pub proof fn law_limiter(s: Single, threshold: Single)
    requires
        !threshold.negative(),
    ensures
        !limited(s, threshold).abs_above(threshold),
        limited(s, threshold).negative() == s.negative(),
        !s.abs_above(threshold) ==> limited(s, threshold) == s,
        limited(limited(s, threshold), threshold) == limited(s, threshold),
{
    assert(threshold.negated().magnitude() == threshold.magnitude());
}

// ---------------------------------------------------------------------------
// Processor
// ---------------------------------------------------------------------------
/// The bands of the equalizer.
pub const EQ_BANDS: usize = 5;

/// What the enhancement of one stream keeps between frames, but for the filter
/// histories.
pub struct DspProcessor {
    pub settings: DspSettings,
    pub sample_rate: u32,
    pub buffers: DenoiseBuffers,
    /// The band that each filter of the equalizer has its coefficients from; a
    /// filter without one passes its input on.
    pub eq_loaded: Vec<Option<EqBandSettings>>,
}

impl DspProcessor {
    pub open spec fn wf(self) -> bool {
        self.buffers.wf() && self.eq_loaded@.len() == EQ_BANDS
    }

    /// A processor in its initial state: empty buffers, and an equalizer that
    /// passes its input on.
    pub fn new(settings: DspSettings, sample_rate: u32, channels: u16) -> (p: DspProcessor)
        ensures
            p.wf(),
            p.settings == settings,
            p.sample_rate == sample_rate,
            p.buffers.channels() == channels,
            crate::denoise::steady(p.buffers),
            forall|ch: int|
                0 <= ch < channels ==> #[trigger] p.buffers.waiting(ch) == Seq::<Single>::empty()
                    && p.buffers.ready(ch) == Seq::<Single>::empty(),
            forall|i: int| 0 <= i < EQ_BANDS ==> #[trigger] p.eq_loaded@[i] is None,
    {
        let buffers = DenoiseBuffers::new(channels);
        let mut eq_loaded: Vec<Option<EqBandSettings>> = Vec::new();
        while eq_loaded.len() < EQ_BANDS
            invariant
                eq_loaded@.len() <= EQ_BANDS,
                forall|i: int| 0 <= i < eq_loaded@.len() ==> #[trigger] eq_loaded@[i] is None,
            decreases EQ_BANDS - eq_loaded@.len(),
        {
            eq_loaded.push(None);
        }
        DspProcessor { settings, sample_rate, buffers, eq_loaded }
    }

    /// Puts new settings in force. The filters of the equalizer are loaded from
    /// the bands of the settings that were in force so far; a filter without a
    /// band keeps what it has.
    pub fn update_settings(&mut self, settings: DspSettings)
        requires
            old(self).wf(),
        ensures
            final(self).wf(),
            updated(*old(self), settings, *final(self)),
    {
        let mut i: usize = 0;
        while i < EQ_BANDS
            invariant
                i <= EQ_BANDS,
                self.wf(),
                self.settings == old(self).settings,
                self.sample_rate == old(self).sample_rate,
                self.buffers == old(self).buffers,
                forall|j: int|
                    0 <= j < i ==> #[trigger] self.eq_loaded@[j] == {
                        let bands = old(self).settings.vocal_enhancement.eq_bands@;
                        if j < bands.len() {
                            Some(bands[j])
                        } else {
                            old(self).eq_loaded@[j]
                        }
                    },
                forall|j: int|
                    i <= j < EQ_BANDS ==> #[trigger] self.eq_loaded@[j]
                        == old(self).eq_loaded@[j],
            decreases EQ_BANDS - i,
        {
            if i < self.settings.vocal_enhancement.eq_bands.len() {
                self.eq_loaded[i] = Some(self.settings.vocal_enhancement.eq_bands[i]);
            }
            i = i + 1;
        }
        self.settings = settings;
    }

    /// The stages that a frame of `len` samples runs through.
    pub fn process_frame(&self, len: usize) -> (v: Vec<Stage>)
        ensures
            forall|s: Stage| #[trigger] v@.contains(s) <==> len > 0 && self.settings.enables(s),
            len > 0 ==> {
                &&& v@.contains(Stage::HighPass) <==> self.settings.enable_hpf
                &&& v@.contains(Stage::Denoise) <==> self.settings.enable_denoise
                &&& v@.contains(Stage::Gate) <==> self.settings.enable_gate
                &&& v@.contains(Stage::Compressor) <==> self.settings.enable_compressor
                &&& v@.contains(Stage::Agc) <==> self.settings.vocal_enhancement.enable_agc
                &&& v@.contains(Stage::Equalizer) <==> self.settings.vocal_enhancement.enable_eq
                &&& v@.contains(Stage::Limiter) <==> self.settings.vocal_enhancement.enable_limiter
            },
            len == 0 ==> v@.len() == 0,
            forall|i: int, j: int|
                0 <= i < j < v@.len() ==> (#[trigger] v@[i]).rank() < (#[trigger] v@[j]).rank(),
    {
        self.settings.stages(len)
    }
}

/// Whether `after` is the processor `before` with new settings in force.
pub open spec fn updated(
    before: DspProcessor,
    settings: DspSettings,
    after: DspProcessor,
) -> bool {
    &&& after.settings == settings
    &&& after.sample_rate == before.sample_rate
    &&& after.buffers == before.buffers
    &&& forall|i: int|
        0 <= i < EQ_BANDS ==> #[trigger] after.eq_loaded@[i] == {
            let bands = before.settings.vocal_enhancement.eq_bands@;
            if i < bands.len() {
                Some(bands[i])
            } else {
                before.eq_loaded@[i]
            }
        }
}

/// The bands of new settings reach the equalizer with the next change of the
/// settings, whatever that change is.
pub proof fn law_bands_load_at_next_update(
    a: DspProcessor,
    first: DspSettings,
    b: DspProcessor,
    second: DspSettings,
    c: DspProcessor,
    i: int,
)
    requires
        updated(a, first, b),
        updated(b, second, c),
        0 <= i < EQ_BANDS,
        i < first.vocal_enhancement.eq_bands@.len(),
    ensures
        c.eq_loaded@[i] == Some(first.vocal_enhancement.eq_bands@[i]),
{
}

// ---------------------------------------------------------------------------
// Laws of the chain
// ---------------------------------------------------------------------------
/// Each stage runs exactly where its own flag is set, whatever the others are.
pub proof fn law_stage_has_its_flag(s: DspSettings)
    ensures
        s.enables(Stage::HighPass) == s.enable_hpf,
        s.enables(Stage::Denoise) == s.enable_denoise,
        s.enables(Stage::Gate) == s.enable_gate,
        s.enables(Stage::Compressor) == s.enable_compressor,
        s.enables(Stage::Agc) == s.vocal_enhancement.enable_agc,
        s.enables(Stage::Equalizer) == s.vocal_enhancement.enable_eq,
        s.enables(Stage::Limiter) == s.vocal_enhancement.enable_limiter,
{
}

/// The stages run in one order: high-pass, denoise, gate, compressor, gain
/// control, equalizer, limiter.
pub proof fn law_order_of_stages()
    ensures
        Stage::HighPass.rank() < Stage::Denoise.rank() < Stage::Gate.rank()
            < Stage::Compressor.rank(),
        Stage::Compressor.rank() < Stage::Agc.rank() < Stage::Equalizer.rank()
            < Stage::Limiter.rank(),
{
}

/// Where two settings differ in one flag of the window only, their stages differ
/// in the stage of that flag only: it runs exactly where the flag is set.
pub proof fn law_a_switch_adds_its_stage(
    before: DspSettings,
    switch: DspSwitch,
    on: bool,
    after: DspSettings,
    stage: Stage,
)
    requires
        match switch {
            DspSwitch::HighPass => after == (DspSettings { enable_hpf: on, ..before }),
            DspSwitch::Gate => after == (DspSettings { enable_gate: on, ..before }),
            DspSwitch::Compressor => after == (DspSettings { enable_compressor: on, ..before }),
        },
    ensures
        ({
            let own = match switch {
                DspSwitch::HighPass => Stage::HighPass,
                DspSwitch::Gate => Stage::Gate,
                DspSwitch::Compressor => Stage::Compressor,
            };
            after.enables(stage) == if stage == own {
                on
            } else {
                before.enables(stage)
            }
        }),
{
}

/// Gating silences a sample exactly where both it and the threshold are
/// numbers, the threshold is not negative and the sample is closer to zero; every
/// other sample passes bit for bit.
pub proof fn law_gate_by_bits(s: Single, threshold: Single)
    ensures
        ({
            let m = s.bits % 0x8000_0000;
            let below = m <= 0x7F80_0000 && threshold.bits <= 0x7F80_0000 && m < threshold.bits;
            &&& below ==> gated(s, threshold).bits == 0
            &&& !below ==> gated(s, threshold) == s
        }),
{
    crate::single::law_below_by_bits(s, threshold);
}

/// The limiter gives a sample the size of a positive threshold exactly where the
/// sample is farther from zero, and keeps its sign; every other sample passes bit
/// for bit.
pub proof fn law_limiter_by_bits(s: Single, threshold: Single)
    requires
        threshold.bits <= 0x7F80_0000,
    ensures
        ({
            let m = s.bits % 0x8000_0000;
            let above = m <= 0x7F80_0000 && threshold.bits < m;
            &&& above ==> limited(s, threshold).bits % 0x8000_0000 == threshold.bits && (
            limited(s, threshold).bits >= 0x8000_0000 <==> s.bits >= 0x8000_0000)
            &&& !above ==> limited(s, threshold) == s
        }),
{
    crate::single::law_above_by_bits(s, threshold);
}

/// New settings are in force at once. Each filter of the equalizer takes the band
/// of its place in the settings so far, and keeps what it has where there is none;
/// the stream itself is untouched.
pub proof fn law_update(before: DspProcessor, settings: DspSettings, after: DspProcessor, i: int)
    requires
        updated(before, settings, after),
        0 <= i < 5,
    ensures
        after.settings == settings,
        after.sample_rate == before.sample_rate,
        after.buffers == before.buffers,
        i < before.settings.vocal_enhancement.eq_bands@.len() ==> after.eq_loaded@[i] == Some(
            before.settings.vocal_enhancement.eq_bands@[i],
        ),
        i >= before.settings.vocal_enhancement.eq_bands@.len() ==> after.eq_loaded@[i]
            == before.eq_loaded@[i],
{
}

/// The bands of a fresh installation, from low to high: 80, 200, 1000, 3000 and
/// 8000 Hz, the lowest cut and all others raised.
pub proof fn law_default_bands()
    ensures
        vocal_bands().len() == 5,
        vocal_bands().map_values(|b: EqBandSettings| b.center_freq.bits) == seq![
            0x42A0_0000u32,
            0x4348_0000,
            0x447A_0000,
            0x453B_8000,
            0x45FA_0000,
        ],
        vocal_bands().map_values(|b: EqBandSettings| b.q_factor.bits) == seq![
            0x3F33_3333u32,
            0x3F80_0000,
            0x3FB3_3333,
            0x3F80_0000,
            0x3F33_3333,
        ],
        vocal_bands().map_values(|b: EqBandSettings| b.gain_db.bits) == seq![
            0xC0C0_0000u32,
            0x4000_0000,
            0x4080_0000,
            0x4040_0000,
            0x4000_0000,
        ],
        forall|i: int, j: int|
            0 <= i < j < 5 ==> vocal_bands()[i].center_freq.bits < vocal_bands()[j].center_freq.bits,
{
}

/// In a fresh installation every stage is off, with a cutoff of 80 Hz, thresholds
/// of 0.001 and 0.5 and a ratio of 4.
pub proof fn law_default_settings(s: DspSettings)
    requires
        s.is_default(),
    ensures
        !s.enable_hpf,
        !s.enable_denoise,
        !s.enable_gate,
        !s.enable_compressor,
        s.hpf_cutoff.bits == 0x42A0_0000,
        s.gate_threshold.bits == 0x3A83_126F,
        s.comp_threshold.bits == 0x3F00_0000,
        s.comp_ratio.bits == 0x4080_0000,
        s.vocal_enhancement.is_default(),
{
}

/// The voice settings of a fresh installation are all on, with the default bands.
pub proof fn law_default_voice(v: VocalEnhancementSettings)
    requires
        v.is_default(),
    ensures
        v.enable_agc,
        v.enable_eq,
        v.enable_limiter,
        v.eq_preset is VocalEnhance,
        v.eq_bands@ == vocal_bands(),
        v.agc_target_rms.bits == 0x3E99_999A,
        v.agc_attack_ms.bits == 0x4120_0000,
        v.agc_release_ms.bits == 0x42C8_0000,
        v.agc_max_gain_db.bits == 0x41A0_0000,
        v.limiter_threshold_db.bits == 0xBF80_0000,
        v.limiter_attack_ms.bits == 0x3F80_0000,
        v.limiter_release_ms.bits == 0x42C8_0000,
{
}

/// The sliders go from 20 to 500 Hz, from 0 to 0.1, from 0.1 to 1 and from 1 to
/// 20, and a fresh installation lies within them.
pub proof fn law_slider_bounds(s: DspSettings, slider: DspSlider)
    ensures
        slider is HpfCutoff ==> slider.bounds().0.bits == 0x41A0_0000 && slider.bounds().1.bits
            == 0x43FA_0000,
        slider is GateThreshold ==> slider.bounds().0.bits == 0 && slider.bounds().1.bits
            == 0x3DCC_CCCD,
        slider is CompThreshold ==> slider.bounds().0.bits == 0x3DCC_CCCD && slider.bounds().1.bits
            == 0x3F80_0000,
        slider is CompRatio ==> slider.bounds().0.bits == 0x3F80_0000 && slider.bounds().1.bits
            == 0x41A0_0000,
        s.is_default() ==> slider.bounds().0.bits <= s.level(slider).bits
            <= slider.bounds().1.bits,
{
}

/// Each switch and each slider stands for its own field, and a slider belongs to
/// the switch of its stage.
pub proof fn law_switches_and_sliders(s: DspSettings)
    ensures
        s.on(DspSwitch::HighPass) <==> s.enable_hpf,
        s.on(DspSwitch::Gate) <==> s.enable_gate,
        s.on(DspSwitch::Compressor) <==> s.enable_compressor,
        s.level(DspSlider::HpfCutoff) == s.hpf_cutoff,
        s.level(DspSlider::GateThreshold) == s.gate_threshold,
        s.level(DspSlider::CompThreshold) == s.comp_threshold,
        s.level(DspSlider::CompRatio) == s.comp_ratio,
        DspSettings::switch_of(DspSlider::HpfCutoff) is HighPass,
        DspSettings::switch_of(DspSlider::GateThreshold) is Gate,
        DspSettings::switch_of(DspSlider::CompThreshold) is Compressor,
        DspSettings::switch_of(DspSlider::CompRatio) is Compressor,
{
}

/// Settings with the same switches and sliders that agree elsewhere are the same.
pub proof fn law_settings_are_what_is_edited(a: DspSettings, b: DspSettings)
    requires
        forall|s: DspSwitch| #[trigger] a.on(s) == b.on(s),
        forall|s: DspSlider| #[trigger] a.level(s) == b.level(s),
        a.same_elsewhere(b),
    ensures
        a == b,
{
    assert(a.on(DspSwitch::HighPass) == b.on(DspSwitch::HighPass));
    assert(a.on(DspSwitch::Gate) == b.on(DspSwitch::Gate));
    assert(a.on(DspSwitch::Compressor) == b.on(DspSwitch::Compressor));
    assert(a.level(DspSlider::HpfCutoff) == b.level(DspSlider::HpfCutoff));
    assert(a.level(DspSlider::GateThreshold) == b.level(DspSlider::GateThreshold));
    assert(a.level(DspSlider::CompThreshold) == b.level(DspSlider::CompThreshold));
    assert(a.level(DspSlider::CompRatio) == b.level(DspSlider::CompRatio));
}

/// The equalizer has five filters, one for each band of a fresh installation, and
/// the buffers have two queues per channel.
pub proof fn law_filters(p: DspProcessor)
    ensures
        p.wf() <==> p.eq_loaded@.len() == 5 && p.buffers.inputs@.len()
            == p.buffers.outputs@.len(),
        p.wf() ==> p.eq_loaded@.len() == vocal_bands().len(),
{
}

} // verus!
