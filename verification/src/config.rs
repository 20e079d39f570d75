use vstd::prelude::*;
use vstd::bytes::*;
use std::collections::hash_map::DefaultHasher;
use std::hash::Hasher;
use vstd::std_specs::hash::DefaultHasherAdditionalSpecFns;

verus! {

/// Smallest population a configuration may ask for.
pub const MIN_CITIZENS: u32 = 100;

/// Largest population a configuration may ask for.
pub const MAX_CITIZENS: u32 = 5000;

/// Scale of the per-mille parameters: 1000 stands for 1.0.
pub const SCALE: u32 = 1000;

/// Parameters of a simulation run. The three social parameters are stored
/// per mille (0..=1000 stands for 0.0..=1.0).
#[derive(Clone, Copy, Debug, PartialEq, Eq, Structural)]
pub struct SimConfig {
    pub citizens: u32,
    pub initial_inequality: u32,
    pub initial_trust: u32,
    pub economic_volatility: u32,
}

/// The messages that validation reports for `c`, in the order in which the
/// checks are made.
pub open spec fn validation_messages(c: SimConfig) -> Seq<Seq<char>> {
    let s0: Seq<Seq<char>> = if c.citizens < MIN_CITIZENS {
        seq!["Citizens must be at least 100"@]
    } else if c.citizens > MAX_CITIZENS {
        seq!["Citizens cannot exceed 5000"@]
    } else {
        seq![]
    };
    let s1 = if c.initial_inequality > SCALE { s0.push("Inequality cannot exceed 1.0"@) } else { s0 };
    let s2 = if c.initial_trust > SCALE { s1.push("Trust cannot exceed 1.0"@) } else { s1 };
    let s3 = if c.economic_volatility > SCALE { s2.push("Volatility cannot exceed 1.0"@) } else { s2 };
    let s4 = if c.initial_inequality > 800 && c.initial_trust > 800 {
        s3.push("High inequality with high trust may create unrealistic scenarios"@)
    } else {
        s3
    };
    if c.economic_volatility > 900 && c.initial_trust < 200 {
        s4.push("High volatility with low trust may cause excessive instability"@)
    } else {
        s4
    }
}

/// A configuration is acceptable when the population lies in
/// `MIN_CITIZENS..=MAX_CITIZENS`, every scaled parameter is at most 1.0, and
/// neither of the two unrealistic combinations is asked for.
pub open spec fn config_acceptable(c: SimConfig) -> bool {
    &&& MIN_CITIZENS <= c.citizens <= MAX_CITIZENS
    &&& c.initial_inequality <= SCALE
    &&& c.initial_trust <= SCALE
    &&& c.economic_volatility <= SCALE
    &&& !(c.initial_inequality > 800 && c.initial_trust > 800)
    &&& !(c.economic_volatility > 900 && c.initial_trust < 200)
}

impl SimConfig {
    /// Validates the configuration and returns the list of validation errors.
    pub fn validate(&self) -> (errors: Vec<String>)
        ensures
            errors.deep_view() == validation_messages(*self),
    {
        let mut errors: Vec<String> = Vec::new();
        if self.citizens < MIN_CITIZENS {
            errors.push("Citizens must be at least 100".to_string());
        } else if self.citizens > MAX_CITIZENS {
            errors.push("Citizens cannot exceed 5000".to_string());
        }
        if self.initial_inequality > SCALE {
            errors.push("Inequality cannot exceed 1.0".to_string());
        }
        if self.initial_trust > SCALE {
            errors.push("Trust cannot exceed 1.0".to_string());
        }
        if self.economic_volatility > SCALE {
            errors.push("Volatility cannot exceed 1.0".to_string());
        }
        if self.initial_inequality > 800 && self.initial_trust > 800 {
            errors.push("High inequality with high trust may create unrealistic scenarios".to_string());
        }
        if self.economic_volatility > 900 && self.initial_trust < 200 {
            errors.push("High volatility with low trust may cause excessive instability".to_string());
        }
        proof {
            assert(errors.deep_view() =~= validation_messages(*self));
        }
        errors
    }

    /// Returns true if the configuration is valid.
    pub fn is_valid(&self) -> (valid: bool)
        ensures
            valid == (validation_messages(*self).len() == 0),
            valid == config_acceptable(*self),
    {
        proof { lemma_no_messages_iff_acceptable(*self); }
        self.validate().len() == 0
    }
}

/// The configuration used when no preset is named.
pub open spec fn spec_default_config() -> SimConfig {
    SimConfig { citizens: 1000, initial_inequality: 500, initial_trust: 500, economic_volatility: 500 }
}

/// The configuration that a preset name selects; an unknown name selects the
/// default configuration.
pub open spec fn spec_preset(name: Seq<char>) -> SimConfig {
    if name == "collapse"@ {
        SimConfig { citizens: 1500, initial_inequality: 800, initial_trust: 100, economic_volatility: 700 }
    } else if name == "stable"@ {
        SimConfig { citizens: 1200, initial_inequality: 300, initial_trust: 700, economic_volatility: 200 }
    } else if name == "polarized"@ {
        SimConfig { citizens: 2000, initial_inequality: 600, initial_trust: 400, economic_volatility: 500 }
    } else if name == "utopia"@ {
        SimConfig { citizens: 800, initial_inequality: 100, initial_trust: 900, economic_volatility: 100 }
    } else if name == "dystopia"@ {
        SimConfig { citizens: 3000, initial_inequality: 900, initial_trust: 50, economic_volatility: 800 }
    } else if name == "revolution"@ {
        SimConfig { citizens: 1800, initial_inequality: 750, initial_trust: 150, economic_volatility: 600 }
    } else {
        spec_default_config()
    }
}

/// The configuration resolved from an optional preset name and optional
/// overrides: the preset (or the default) first, then each given override
/// replaces its field.
pub open spec fn spec_resolve(
    preset: Option<Seq<char>>,
    citizens: Option<u32>,
    inequality: Option<u32>,
    trust: Option<u32>,
    volatility: Option<u32>,
) -> SimConfig {
    let base = match preset {
        Some(name) => spec_preset(name),
        None => spec_default_config(),
    };
    SimConfig {
        citizens: match citizens { Some(v) => v, None => base.citizens },
        initial_inequality: match inequality { Some(v) => v, None => base.initial_inequality },
        initial_trust: match trust { Some(v) => v, None => base.initial_trust },
        economic_volatility: match volatility { Some(v) => v, None => base.economic_volatility },
    }
}

/// The seed derived from a configuration: the `DefaultHasher` digest of the
/// four fields, in declaration order, each written as its four little-endian
/// bytes.
pub open spec fn spec_config_seed(c: SimConfig) -> u64 {
    DefaultHasher::spec_finish(
        seq![
            spec_u32_to_le_bytes(c.citizens),
            spec_u32_to_le_bytes(c.initial_inequality),
            spec_u32_to_le_bytes(c.initial_trust),
            spec_u32_to_le_bytes(c.economic_volatility),
        ],
    )
}

/// Whether two strings hold the same characters.
pub fn same_text(a: &str, b: &str) -> (same: bool)
    ensures
        same == (a@ == b@),
{
    let n = a.unicode_len();
    let m = b.unicode_len();
    if n != m {
        return false;
    }
    let mut i: usize = 0;
    while i < n
        invariant
            n == a@.len(),
            m == b@.len(),
            n == m,
            i <= n,
            forall|j: int| 0 <= j < i ==> a@[j] == b@[j],
        decreases n - i,
    {
        if a.get_char(i) != b.get_char(i) {
            return false;
        }
        i += 1;
    }
    assert(a@ =~= b@);
    true
}

/// The default configuration: 1000 citizens, every parameter at 0.5.
pub fn default_config() -> (config: SimConfig)
    ensures
        config == spec_default_config(),
{
    SimConfig { citizens: 1000, initial_inequality: 500, initial_trust: 500, economic_volatility: 500 }
}

/// The configuration of a named preset (`collapse`, `stable`, `polarized`,
/// `utopia`, `dystopia`, `revolution`); any other name gives the default.
pub fn preset_config(name: &str) -> (config: SimConfig)
    ensures
        config == spec_preset(name@),
        config_acceptable(config),
{
    if same_text(name, "collapse") {
        SimConfig { citizens: 1500, initial_inequality: 800, initial_trust: 100, economic_volatility: 700 }
    } else if same_text(name, "stable") {
        SimConfig { citizens: 1200, initial_inequality: 300, initial_trust: 700, economic_volatility: 200 }
    } else if same_text(name, "polarized") {
        SimConfig { citizens: 2000, initial_inequality: 600, initial_trust: 400, economic_volatility: 500 }
    } else if same_text(name, "utopia") {
        SimConfig { citizens: 800, initial_inequality: 100, initial_trust: 900, economic_volatility: 100 }
    } else if same_text(name, "dystopia") {
        SimConfig { citizens: 3000, initial_inequality: 900, initial_trust: 50, economic_volatility: 800 }
    } else if same_text(name, "revolution") {
        SimConfig { citizens: 1800, initial_inequality: 750, initial_trust: 150, economic_volatility: 600 }
    } else {
        default_config()
    }
}

/// Resolves the configuration of a run: the named preset (or the default when
/// none is named), then each given parameter overrides the preset's value.
/// The social parameters are given per mille.
pub fn resolve_config(
    preset: Option<&str>,
    citizens: Option<u32>,
    inequality: Option<u32>,
    trust: Option<u32>,
    volatility: Option<u32>,
) -> (config: SimConfig)
    ensures
        config == spec_resolve(
            match preset { Some(p) => Some(p@), None => None },
            citizens,
            inequality,
            trust,
            volatility,
        ),
        citizens matches Some(v) ==> config.citizens == v,
        inequality matches Some(v) ==> config.initial_inequality == v,
        trust matches Some(v) ==> config.initial_trust == v,
        volatility matches Some(v) ==> config.economic_volatility == v,
        citizens is None ==> config.citizens == preset_or_default(preset).citizens,
        inequality is None ==> config.initial_inequality == preset_or_default(preset).initial_inequality,
        trust is None ==> config.initial_trust == preset_or_default(preset).initial_trust,
        volatility is None ==> config.economic_volatility == preset_or_default(preset).economic_volatility,
{
    let mut config = match preset {
        Some(name) => preset_config(name),
        None => default_config(),
    };
    if let Some(v) = citizens {
        config.citizens = v;
    }
    if let Some(v) = inequality {
        config.initial_inequality = v;
    }
    if let Some(v) = trust {
        config.initial_trust = v;
    }
    if let Some(v) = volatility {
        config.economic_volatility = v;
    }
    config
}

/// The configuration that an optional preset name selects before any
/// override: the preset, or the default when no name is given.
pub open spec fn preset_or_default(preset: Option<&str>) -> SimConfig {
    match preset {
        Some(name) => spec_preset(name@),
        None => spec_default_config(),
    }
}

/// Command-line overrides win: whatever preset is named (or none), every
/// parameter given on the command line is the resolved value, and every
/// parameter not given keeps the value of the preset (or the default).
pub proof fn lemma_overrides_win(
    preset: Option<Seq<char>>,
    citizens: Option<u32>,
    inequality: Option<u32>,
    trust: Option<u32>,
    volatility: Option<u32>,
)
    ensures
        ({
            let c = spec_resolve(preset, citizens, inequality, trust, volatility);
            let base = match preset {
                Some(name) => spec_preset(name),
                None => spec_default_config(),
            };
            &&& citizens matches Some(v) ==> c.citizens == v
            &&& inequality matches Some(v) ==> c.initial_inequality == v
            &&& trust matches Some(v) ==> c.initial_trust == v
            &&& volatility matches Some(v) ==> c.economic_volatility == v
            &&& citizens is None ==> c.citizens == base.citizens
            &&& inequality is None ==> c.initial_inequality == base.initial_inequality
            &&& trust is None ==> c.initial_trust == base.initial_trust
            &&& volatility is None ==> c.economic_volatility == base.economic_volatility
        }),
{
}

/// Derives a deterministic seed from a configuration by hashing its fields
/// with the standard library's `DefaultHasher`. Each field is written as its
/// little-endian bytes; on little-endian targets, where a `u32` is hashed as
/// its native bytes, this is the digest that `#[derive(Hash)]` on the four
/// fields would feed the hasher, while on big-endian targets the seeds differ
/// from that digest.
pub fn config_to_seed(config: &SimConfig) -> (seed: u64)
    ensures
        seed == spec_config_seed(*config),
{
    let mut hasher = DefaultHasher::new();
    let b0 = u32_to_le_bytes(config.citizens);
    hasher.write(b0.as_slice());
    let b1 = u32_to_le_bytes(config.initial_inequality);
    hasher.write(b1.as_slice());
    let b2 = u32_to_le_bytes(config.initial_trust);
    hasher.write(b2.as_slice());
    let b3 = u32_to_le_bytes(config.economic_volatility);
    hasher.write(b3.as_slice());
    proof {
        assert(hasher@ =~= seq![
            spec_u32_to_le_bytes(config.citizens),
            spec_u32_to_le_bytes(config.initial_inequality),
            spec_u32_to_le_bytes(config.initial_trust),
            spec_u32_to_le_bytes(config.economic_volatility),
        ]);
    }
    hasher.finish()
}

/// Equal configurations always give the same seed, so a scenario is
/// reproduced by its configuration alone.
pub proof fn lemma_config_seed_deterministic(a: SimConfig, b: SimConfig)
    requires
        a == b,
    ensures
        spec_config_seed(a) == spec_config_seed(b),
{
}

/// Every preset, and the default, passes validation.
pub proof fn lemma_presets_acceptable(name: Seq<char>)
    ensures
        config_acceptable(spec_preset(name)),
        config_acceptable(spec_default_config()),
{
}

/// Validation reports nothing exactly for the acceptable configurations.
pub proof fn lemma_no_messages_iff_acceptable(c: SimConfig)
    ensures
        validation_messages(c).len() == 0 <==> config_acceptable(c),
{
}

} // verus!
