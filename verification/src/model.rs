//! Which configuration a model is loaded from, per language.
//!
//! A caller either names a configuration (a local path or an `hf://` URL) or
//! takes the variant bundled with the library. Both languages decode with a
//! single LSD step.

use vstd::prelude::*;

verus! {

broadcast use vstd::string::group_string_axioms;

/// LSD decode steps for the Korean model.
pub const KOREAN_LSD_STEPS: usize = 1;

/// LSD decode steps for the English model.
pub const ENGLISH_LSD_STEPS: usize = 1;

/// Bundled variant of the Korean model.
pub const KOREAN_VARIANT: &'static str = "korean";

/// Bundled variant of the English model (the six-layer model).
pub const ENGLISH_VARIANT: &'static str = "english";

/// Public hub configuration of the Korean model; needs no token.
pub const KOREAN_CONFIG_HF: &'static str = "hf://seastar105/pocket-tts-korean-300m/korean.yaml";

/// LSD decode steps when none is chosen.
pub const LSD_DECODE_STEPS: usize = 1;

/// Variant loaded when none is chosen.
pub const DEFAULT_VARIANT: &'static str = "korean";

/// Where a model's configuration comes from, on its views.
pub enum ConfigPlan {
    /// A configuration file: a local path, or an `hf://` URL to download.
    File(Seq<char>),
    /// The configuration of a variant bundled with the library.
    Bundled(Seq<char>),
}

/// Where a model's configuration comes from.
pub enum ConfigSource {
    /// A configuration file: a local path, or an `hf://` URL to download.
    File(String),
    /// The configuration of a variant bundled with the library.
    Bundled(String),
}

impl View for ConfigSource {
    type V = ConfigPlan;

    open spec fn view(&self) -> ConfigPlan {
        match self {
            ConfigSource::File(p) => ConfigPlan::File(p@),
            ConfigSource::Bundled(v) => ConfigPlan::Bundled(v@),
        }
    }
}

/// How to load a model: its configuration and its LSD decode steps.
pub struct ModelRequest {
    pub config: ConfigSource,
    pub lsd_decode_steps: usize,
}

/// The configuration chosen by `config`, falling back on bundled `variant`.
pub open spec fn config_plan(config: Option<Seq<char>>, variant: Seq<char>) -> ConfigPlan {
    match config {
        Some(c) => ConfigPlan::File(c),
        None => ConfigPlan::Bundled(variant),
    }
}

/// Any configuration that is given is the one loaded, whatever its text;
/// the bundled variant is chosen only when none is given.
pub proof fn lemma_given_configuration_is_loaded(c: Seq<char>, variant: Seq<char>)
    ensures
        config_plan(Some(c), variant) == ConfigPlan::File(c),
        config_plan(None, variant) == ConfigPlan::Bundled(variant),
{
}

/// The view of an optional string argument.
pub open spec fn opt_view(s: Option<&str>) -> Option<Seq<char>> {
    match s {
        Some(x) => Some(x@),
        None => None,
    }
}

fn request(config: Option<&str>, variant: &str, steps: usize) -> (r: ModelRequest)
    ensures
        r.config@ == config_plan(opt_view(config), variant@),
        r.lsd_decode_steps == steps,
{
    let source = match config {
        Some(c) => ConfigSource::File(String::from_str(c)),
        None => ConfigSource::Bundled(String::from_str(variant)),
    };
    ModelRequest { config: source, lsd_decode_steps: steps }
}

/// How to load the Korean model: from `config` if given, else from the
/// bundled `korean` variant.
pub fn load_korean(config: Option<&str>) -> (r: ModelRequest)
    ensures
        r.config@ == config_plan(opt_view(config), KOREAN_VARIANT@),
        config matches Some(c) ==> r.config@ == ConfigPlan::File(c@),
        config is None ==> r.config@ == ConfigPlan::Bundled(KOREAN_VARIANT@),
        r.lsd_decode_steps == KOREAN_LSD_STEPS,
{
    request(config, KOREAN_VARIANT, KOREAN_LSD_STEPS)
}

/// How to load the English model: from `config` if given, else from the
/// bundled `english` variant.
pub fn load_english(config: Option<&str>) -> (r: ModelRequest)
    ensures
        r.config@ == config_plan(opt_view(config), ENGLISH_VARIANT@),
        config matches Some(c) ==> r.config@ == ConfigPlan::File(c@),
        config is None ==> r.config@ == ConfigPlan::Bundled(ENGLISH_VARIANT@),
        r.lsd_decode_steps == ENGLISH_LSD_STEPS,
{
    request(config, ENGLISH_VARIANT, ENGLISH_LSD_STEPS)
}

} // verus!
