//! Whether a local model folder holds a complete bundle for a language.
//!
//! A bundle is `{model_dir}/{lang}.local.yaml` together with the weights and
//! tokenizer files it names; it is usable only when both of those are local
//! paths (not `hf://` URLs) that exist. Reading the yaml file and probing the
//! file system is left to the caller, which hands over what it found.

use vstd::prelude::*;
use crate::path::{join, join_path, lemma_join_ends_with};
use crate::text::{chars_of, chars_start_with};

verus! {

broadcast use vstd::string::group_string_axioms;

/// Prefix of a path that is fetched from the Hugging Face hub.
pub const HF_SCHEME: &'static str = "hf://";

/// Default local model folder, relative to the working directory.
pub const MODEL_DIR_DEFAULT: &'static str = "models";

/// What a local `{lang}.local.yaml` file says, and whether the files it names
/// exist on disk.
pub struct LocalBundle {
    /// The weights file named by the root `weights_path` entry, if any.
    pub weights_path: Option<String>,
    /// Whether `weights_path` exists on disk.
    pub weights_present: bool,
    /// The tokenizer file named by `flow_lm.lookup_table.tokenizer_path`.
    pub tokenizer_path: String,
    /// Whether `tokenizer_path` exists on disk.
    pub tokenizer_present: bool,
}

/// Whether path `p` is fetched from the hub rather than read from disk.
pub open spec fn is_remote(p: Seq<char>) -> bool {
    HF_SCHEME@.is_prefix_of(p)
}

/// Whether a bundle can be used without the network: it names weights, and
/// both its weights and its tokenizer are local files that exist.
pub open spec fn bundle_is_local(b: LocalBundle) -> bool {
    match b.weights_path {
        Some(w) => {
            &&& !is_remote(w@)
            &&& b.weights_present
            &&& !is_remote(b.tokenizer_path@)
            &&& b.tokenizer_present
        },
        None => false,
    }
}

/// The yaml file of the local bundle for `lang` in folder `model_dir`.
pub open spec fn local_config_file(lang: Seq<char>, model_dir: Seq<char>) -> Seq<char> {
    join(model_dir, lang + ".local.yaml"@)
}

/// Whether path `p` is fetched from the hub.
pub fn is_remote_path(p: &str) -> (r: bool)
    ensures
        r == is_remote(p@),
{
    let v = chars_of(p);
    let scheme = chars_of(HF_SCHEME);
    chars_start_with(v.as_slice(), scheme.as_slice())
}

/// The yaml file of the local bundle for `lang` in folder `model_dir`.
pub fn local_config_path(lang: &str, model_dir: &str) -> (r: String)
    ensures
        r@ == local_config_file(lang@, model_dir@),
{
    let mut file = String::from_str(lang);
    file.append(".local.yaml");
    join_path(model_dir, file.as_str())
}

/// The local bundle yaml for `lang` in `model_dir`, when `bundle` (what that
/// yaml holds, or `None` when it is not a readable, well-formed file) can be
/// used without the network.
pub fn find_local_config(lang: &str, model_dir: &str, bundle: Option<&LocalBundle>) -> (r: Option<String>)
    ensures
        r is Some <==> (bundle is Some && bundle_is_local(*bundle.unwrap())),
        r matches Some(p) ==> p@ == local_config_file(lang@, model_dir@),
{
    match bundle {
        None => None,
        Some(b) => match &b.weights_path {
            None => None,
            Some(w) => {
                if is_remote_path(w.as_str()) || !b.weights_present {
                    return None;
                }
                if is_remote_path(b.tokenizer_path.as_str()) || !b.tokenizer_present {
                    return None;
                }
                Some(local_config_path(lang, model_dir))
            },
        },
    }
}

/// The file a local bundle is found in is named after its language: it ends
/// with `{lang}.local.yaml`.
pub proof fn lemma_local_config_file_named_after_lang(lang: Seq<char>, model_dir: Seq<char>)
    ensures
        (lang + ".local.yaml"@).is_suffix_of(local_config_file(lang, model_dir)),
{
    lemma_join_ends_with(model_dir, lang + ".local.yaml"@);
}

/// A bundle that names any file on the hub is never taken as local.
pub proof fn lemma_remote_bundle_not_local(b: LocalBundle)
    requires
        is_remote(b.tokenizer_path@) || (b.weights_path matches Some(w) && is_remote(w@)),
    ensures
        !bundle_is_local(b),
{
}

} // verus!
