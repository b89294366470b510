//! The numbers that govern pacing and slips.

use vstd::prelude::*;

verus! {

/// A span of milliseconds from which a delay is drawn: `low` is the shortest
/// delay, and every delay is shorter than `high`.
#[derive(Clone, Copy, Debug, PartialEq, Eq, Structural)]
pub struct DelayRange {
    pub low: u64,
    pub high: u64,
}

impl DelayRange {
    /// The lower bound does not exceed the upper one.
    pub open spec fn wf(&self) -> bool {
        self.low <= self.high
    }

    /// Whether `ms` is a delay of this span.
    pub open spec fn holds(&self, ms: u64) -> bool {
        self.low <= ms && ms < self.high
    }

    /// Whether the span holds any delay at all.
    pub open spec fn inhabited(&self) -> bool {
        self.low < self.high
    }

    pub fn new(low: u64, high: u64) -> (range: DelayRange)
        ensures
            range.low == low,
            range.high == high,
    {
        DelayRange { low, high }
    }

    pub fn is_inhabited(&self) -> (b: bool)
        ensures
            b == self.inhabited(),
    {
        self.low < self.high
    }
}

/// How the typist paces itself and how often it slips.
#[derive(Clone, Copy, Debug, PartialEq, Eq, Structural)]
pub struct TypingConfig {
    /// The delay after every keystroke.
    pub base_delay: DelayRange,
    /// The pause before a new word, now and then, and after every line break.
    pub thinking_delay: DelayRange,
    /// One keystroke in this many is a slip.
    pub mistake_probability: u32,
    /// The pause between a slip and its correction.
    pub correction_delay: DelayRange,
    /// The chance, in percent, of a long pause after a punctuation mark.
    pub long_pause_probability: u32,
    /// The long pause after a punctuation mark.
    pub long_pause_delay: DelayRange,
}

impl TypingConfig {
    /// The invariant of a configuration: ordered bounds, odds of one in at
    /// least one, and a percentage of at most a hundred.
    pub open spec fn wf(&self) -> bool {
        &&& self.base_delay.wf()
        &&& self.thinking_delay.wf()
        &&& self.correction_delay.wf()
        &&& self.long_pause_delay.wf()
        &&& self.mistake_probability >= 1
        &&& self.long_pause_probability <= 100
    }

    /// A configuration the typist can work with: well formed, and every span
    /// holds a delay to draw.
    pub open spec fn usable(&self) -> bool {
        &&& self.wf()
        &&& self.base_delay.inhabited()
        &&& self.thinking_delay.inhabited()
        &&& self.correction_delay.inhabited()
        &&& self.long_pause_delay.inhabited()
    }

    /// The configuration used when none is supplied.
    pub open spec fn standard() -> TypingConfig {
        TypingConfig {
            base_delay: DelayRange { low: 20, high: 100 },
            thinking_delay: DelayRange { low: 500, high: 1500 },
            mistake_probability: 10,
            correction_delay: DelayRange { low: 300, high: 700 },
            long_pause_probability: 5,
            long_pause_delay: DelayRange { low: 1000, high: 3000 },
        }
    }

    pub fn is_usable(&self) -> (b: bool)
        ensures
            b == self.usable(),
    {
        self.base_delay.is_inhabited() && self.thinking_delay.is_inhabited()
            && self.correction_delay.is_inhabited() && self.long_pause_delay.is_inhabited()
            && self.mistake_probability >= 1 && self.long_pause_probability <= 100
    }
}

impl Default for TypingConfig {
    fn default() -> (config: TypingConfig)
        ensures
            config == TypingConfig::standard(),
            config.usable(),
    {
        TypingConfig {
            base_delay: DelayRange { low: 20, high: 100 },
            thinking_delay: DelayRange { low: 500, high: 1500 },
            mistake_probability: 10,
            correction_delay: DelayRange { low: 300, high: 700 },
            long_pause_probability: 5,
            long_pause_delay: DelayRange { low: 1000, high: 3000 },
        }
    }
}

/// The configuration as a flat record, the form in which it is stored.
#[derive(Clone, Copy, Debug, PartialEq, Eq, Structural)]
pub struct Config {
    pub base_delay_min: u64,
    pub base_delay_max: u64,
    pub thinking_delay_min: u64,
    pub thinking_delay_max: u64,
    pub mistake_probability: u32,
    pub correction_delay_min: u64,
    pub correction_delay_max: u64,
    pub long_pause_probability: u32,
    pub long_pause_delay_min: u64,
    pub long_pause_delay_max: u64,
}

impl Config {
    /// The typing configuration that this record describes.
    pub open spec fn typing(&self) -> TypingConfig {
        TypingConfig {
            base_delay: DelayRange { low: self.base_delay_min, high: self.base_delay_max },
            thinking_delay: DelayRange {
                low: self.thinking_delay_min,
                high: self.thinking_delay_max,
            },
            mistake_probability: self.mistake_probability,
            correction_delay: DelayRange {
                low: self.correction_delay_min,
                high: self.correction_delay_max,
            },
            long_pause_probability: self.long_pause_probability,
            long_pause_delay: DelayRange {
                low: self.long_pause_delay_min,
                high: self.long_pause_delay_max,
            },
        }
    }

    pub fn to_typing_config(&self) -> (config: TypingConfig)
        ensures
            config == self.typing(),
    {
        TypingConfig {
            base_delay: DelayRange { low: self.base_delay_min, high: self.base_delay_max },
            thinking_delay: DelayRange {
                low: self.thinking_delay_min,
                high: self.thinking_delay_max,
            },
            mistake_probability: self.mistake_probability,
            correction_delay: DelayRange {
                low: self.correction_delay_min,
                high: self.correction_delay_max,
            },
            long_pause_probability: self.long_pause_probability,
            long_pause_delay: DelayRange {
                low: self.long_pause_delay_min,
                high: self.long_pause_delay_max,
            },
        }
    }

    /// The stored configuration to go by: the one that was loaded, or the
    /// standard one where none could be loaded. The flag says that the
    /// result is not what is stored and has to be written back.
    pub fn or_default(loaded: Option<Config>) -> (chosen: (Config, bool))
        ensures
            loaded is Some ==> chosen.0 == loaded->0 && !chosen.1,
            loaded is None ==> chosen.0.typing() == TypingConfig::standard() && chosen.1,
    {
        match loaded {
            Some(config) => (config, false),
            None => (Config::default(), true),
        }
    }
}

impl Default for Config {
    fn default() -> (config: Config)
        ensures
            config.typing() == TypingConfig::standard(),
    {
        Config {
            base_delay_min: 20,
            base_delay_max: 100,
            thinking_delay_min: 500,
            thinking_delay_max: 1500,
            mistake_probability: 10,
            correction_delay_min: 300,
            correction_delay_max: 700,
            long_pause_probability: 5,
            long_pause_delay_min: 1000,
            long_pause_delay_max: 3000,
        }
    }
}

} // verus!
