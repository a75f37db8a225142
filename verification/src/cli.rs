//! Decisions of the command-line front end: per-language defaults, and
//! which model configuration a run uses.

use vstd::prelude::*;

verus! {

broadcast use vstd::string::group_string_axioms;

/// Synthesis language.
#[derive(Clone, Copy, Debug, PartialEq, Eq, Structural)]
pub enum Lang {
    /// Korean (the 24-layer teacher model).
    Ko,
    /// English (the six-layer model; its weights are gated on the hub).
    En,
}

/// The bundled model variant of each language.
pub open spec fn lang_variant(lang: Lang) -> Seq<char> {
    match lang {
        Lang::Ko => "korean"@,
        Lang::En => "english"@,
    }
}

/// The text spoken when none is given.
pub open spec fn lang_default_text(lang: Lang) -> Seq<char> {
    match lang {
        Lang::Ko => "안녕하세요. 한국어 음성 합성 모델입니다."@,
        Lang::En => "Hello world! I am Pocket TTS, running in Rust."@,
    }
}

/// The voice used when none is given.
pub open spec fn lang_default_voice(lang: Lang) -> Seq<char> {
    match lang {
        Lang::Ko => "voice.wav"@,
        Lang::En => "alba"@,
    }
}

impl Lang {
    /// The bundled model variant of this language.
    pub fn variant(&self) -> (r: &'static str)
        ensures
            r@ == lang_variant(*self),
    {
        match self {
            Lang::Ko => "korean",
            Lang::En => "english",
        }
    }

    /// The text spoken when none is given.
    pub fn default_text(&self) -> (r: &'static str)
        ensures
            r@ == lang_default_text(*self),
    {
        match self {
            Lang::Ko => "안녕하세요. 한국어 음성 합성 모델입니다.",
            Lang::En => "Hello world! I am Pocket TTS, running in Rust.",
        }
    }

    /// The voice used when none is given.
    pub fn default_voice(&self) -> (r: &'static str)
        ensures
            r@ == lang_default_voice(*self),
    {
        match self {
            Lang::Ko => "voice.wav",
            Lang::En => "alba",
        }
    }
}

/// Which configuration a run loads its model from.
pub enum ModelSource {
    /// A complete local bundle, by its yaml file.
    Local(String),
    /// A configuration the user named.
    Explicit(String),
    /// The bundled variant, with weights from the hub.
    Download,
}

/// Where a run takes its model from, on views.
pub enum ModelSourcePlan {
    Local(Seq<char>),
    Explicit(Seq<char>),
    Download,
}

impl View for ModelSource {
    type V = ModelSourcePlan;

    open spec fn view(&self) -> ModelSourcePlan {
        match self {
            ModelSource::Local(p) => ModelSourcePlan::Local(p@),
            ModelSource::Explicit(c) => ModelSourcePlan::Explicit(c@),
            ModelSource::Download => ModelSourcePlan::Download,
        }
    }
}

/// A configuration named by the user wins; else a complete local bundle;
/// else the download.
pub open spec fn model_source_plan(config: Option<Seq<char>>, local: Option<Seq<char>>) -> ModelSourcePlan {
    match config {
        Some(c) => ModelSourcePlan::Explicit(c),
        None => match local {
            Some(p) => ModelSourcePlan::Local(p),
            None => ModelSourcePlan::Download,
        },
    }
}

/// Where a run takes its model from, given the configuration the user named
/// and the local bundle found, if any. A local bundle is only looked for
/// when the user named no configuration.
pub fn choose_model_source(config: Option<&str>, local: Option<&str>) -> (r: ModelSource)
    ensures
        r@ == model_source_plan(crate::model::opt_view(config), crate::model::opt_view(local)),
        config matches Some(c) ==> r@ == ModelSourcePlan::Explicit(c@),
        config is None ==> (local matches Some(p) ==> r@ == ModelSourcePlan::Local(p@)),
        config is None && local is None ==> r@ == ModelSourcePlan::Download,
{
    match config {
        Some(c) => ModelSource::Explicit(String::from_str(c)),
        None => match local {
            Some(p) => ModelSource::Local(String::from_str(p)),
            None => ModelSource::Download,
        },
    }
}

/// A configuration the user names wins whatever local bundle exists, and is
/// the one loaded; without one, a local bundle is loaded when found, and
/// otherwise nothing overrides the bundled variant.
pub proof fn lemma_named_configuration_wins(c: Seq<char>, local: Option<Seq<char>>)
    ensures
        model_source_plan(Some(c), local) == ModelSourcePlan::Explicit(c),
        config_override_of(model_source_plan(Some(c), local)) == Some(c),
        local matches Some(p) ==> model_source_plan(None, local) == ModelSourcePlan::Local(p),
        local matches Some(p) ==> config_override_of(model_source_plan(None, local)) == Some(p),
        local is None ==> config_override_of(model_source_plan(None, local)) is None,
{
}

/// The configuration to load instead of the bundled variant, if any.
pub open spec fn config_override_of(s: ModelSourcePlan) -> Option<Seq<char>> {
    match s {
        ModelSourcePlan::Local(p) => Some(p),
        ModelSourcePlan::Explicit(c) => Some(c),
        ModelSourcePlan::Download => None,
    }
}

/// The line that tells the user where the model comes from.
pub open spec fn source_line(s: ModelSourcePlan) -> Seq<char> {
    match s {
        ModelSourcePlan::Local(p) => "model source: local ("@ + p + ")"@,
        ModelSourcePlan::Explicit(c) => "model source: explicit ("@ + c + ")"@,
        ModelSourcePlan::Download => "model source: download (HF)"@,
    }
}

impl ModelSource {
    /// The configuration to load instead of the bundled variant, if any.
    pub fn config_override(&self) -> (r: Option<&str>)
        ensures
            crate::model::opt_view(r) == config_override_of(self@),
    {
        match self {
            ModelSource::Local(p) => Some(p.as_str()),
            ModelSource::Explicit(c) => Some(c.as_str()),
            ModelSource::Download => None,
        }
    }

    /// The line that tells the user where the model comes from.
    pub fn describe(&self) -> (r: String)
        ensures
            r@ == source_line(self@),
    {
        match self {
            ModelSource::Local(p) => {
                let mut r = String::from_str("model source: local (");
                r.append(p.as_str());
                r.append(")");
                r
            },
            ModelSource::Explicit(c) => {
                let mut r = String::from_str("model source: explicit (");
                r.append(c.as_str());
                r.append(")");
                r
            },
            ModelSource::Download => String::from_str("model source: download (HF)"),
        }
    }
}

} // verus!
