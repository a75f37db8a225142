//! Which voice a voice specifier names, and where its data comes from.
//!
//! A specifier is, after trimming white space, one of the stock English
//! voices, a path to a precomputed `.safetensors` voice embedding, or a path
//! to a `.wav` recording to clone.

use vstd::prelude::*;
use crate::path::{join, join_path, path_extension, path_extension_chars};
use crate::text::{chars_eq, chars_eq_ignore_ascii_case, chars_of, eq_ignore_ascii_case, trim, trim_str};

verus! {

broadcast use vstd::string::group_string_axioms;

/// Repository that holds the stock voice embeddings.
pub const STOCK_VOICE_REPO: &'static str = "kyutai/pocket-tts-without-voice-cloning";

/// Folder of the stock voice embeddings inside that repository.
pub const STOCK_VOICE_PATH_PREFIX: &'static str = "languages/english/embeddings";

/// Revision of that repository the embeddings are pinned to.
pub const STOCK_VOICE_REVISION: &'static str = "e81d79e8194ad4c7ce879c87a4258ef20cbf2487";

/// The stock English voices, in their documented order.
pub open spec fn stock_voice_names() -> Seq<Seq<char>> {
    seq![
        "alba"@,
        "marius"@,
        "javert"@,
        "jean"@,
        "fantine"@,
        "cosette"@,
        "eponine"@,
        "azelma"@,
    ]
}

/// Whether `name` is one of the eight stock English voices, written out.
pub open spec fn is_named_stock_voice(name: Seq<char>) -> bool {
    ||| name == "alba"@
    ||| name == "marius"@
    ||| name == "javert"@
    ||| name == "jean"@
    ||| name == "fantine"@
    ||| name == "cosette"@
    ||| name == "eponine"@
    ||| name == "azelma"@
}

/// The elements of `list` with `sep` between each two of them.
pub open spec fn joined(list: Seq<Seq<char>>, sep: Seq<char>) -> Seq<char>
    decreases list.len(),
{
    if list.len() == 0 {
        seq![]
    } else if list.len() == 1 {
        list[0]
    } else {
        joined(list.drop_last(), sep) + sep + list.last()
    }
}

/// Where the embedding of stock voice `name` is downloaded from.
pub open spec fn stock_voice_remote(name: Seq<char>) -> Seq<char> {
    "hf://"@ + STOCK_VOICE_REPO@ + "/"@ + STOCK_VOICE_PATH_PREFIX@ + "/"@ + name + ".safetensors@"@
        + STOCK_VOICE_REVISION@
}

/// Where a copy of the embedding of stock voice `name` is looked for in a
/// local model folder `dir`.
pub open spec fn stock_voice_local(dir: Seq<char>, name: Seq<char>) -> Seq<char> {
    join(dir, name + ".safetensors"@)
}

/// What a voice specifier asks for, on its views.
pub enum VoicePlan {
    /// A stock voice: its embedding is read from `local` when that file
    /// exists, and downloaded from `remote` otherwise.
    Stock { name: Seq<char>, local: Option<Seq<char>>, remote: Seq<char> },
    /// A precomputed voice embedding at this path.
    Embedding(Seq<char>),
    /// A recording at this path, to be encoded.
    Wav(Seq<char>),
    /// Nothing this library knows how to load.
    Unrecognized(Seq<char>),
}

/// The plan for specifier `spec`, with stock voices looked for in `model_dir`.
pub open spec fn voice_plan(spec: Seq<char>, model_dir: Option<Seq<char>>) -> VoicePlan {
    let name = trim(spec);
    if stock_voice_names().contains(name) {
        VoicePlan::Stock {
            name,
            local: match model_dir {
                Some(dir) => Some(stock_voice_local(dir, name)),
                None => None,
            },
            remote: stock_voice_remote(name),
        }
    } else {
        match path_extension(name) {
            Some(ext) => if eq_ignore_ascii_case(ext, "safetensors"@) {
                VoicePlan::Embedding(name)
            } else if eq_ignore_ascii_case(ext, "wav"@) || eq_ignore_ascii_case(ext, "wave"@) {
                VoicePlan::Wav(name)
            } else {
                VoicePlan::Unrecognized(name)
            },
            None => VoicePlan::Unrecognized(name),
        }
    }
}

/// Where the data of a voice comes from.
pub enum VoiceSource {
    /// A stock voice: read `local` when that file exists, else download `remote`.
    Stock { name: String, local: Option<String>, remote: String },
    /// A precomputed voice embedding at this path.
    Embedding(String),
    /// A recording at this path, to be encoded.
    Wav(String),
}

impl View for VoiceSource {
    type V = VoicePlan;

    open spec fn view(&self) -> VoicePlan {
        match self {
            VoiceSource::Stock { name, local, remote } => VoicePlan::Stock {
                name: name@,
                local: match local {
                    Some(l) => Some(l@),
                    None => None,
                },
                remote: remote@,
            },
            VoiceSource::Embedding(p) => VoicePlan::Embedding(p@),
            VoiceSource::Wav(p) => VoicePlan::Wav(p@),
        }
    }
}

/// A voice specifier that names nothing this library can load.
pub struct VoiceError {
    /// The specifier, trimmed.
    pub spec: String,
}

/// The plan that a call of `resolve_voice_in` reports.
pub open spec fn outcome_plan(r: Result<VoiceSource, VoiceError>) -> VoicePlan {
    match r {
        Ok(src) => src@,
        Err(e) => VoicePlan::Unrecognized(e.spec@),
    }
}

/// The text of the error for an unrecognized specifier `spec`.
pub open spec fn unrecognized_message(spec: Seq<char>) -> Seq<char> {
    "voice '"@ + spec + "' not recognized. Use a stock voice ("@ + joined(stock_voice_names(), ", "@)
        + "), a .wav file, or a .safetensors file"@
}

impl VoiceError {
    /// The message that tells the user what a specifier may be.
    pub fn message(&self) -> (r: String)
        ensures
            r@ == unrecognized_message(self.spec@),
    {
        let mut r = String::from_str("voice '");
        r.append(self.spec.as_str());
        r.append("' not recognized. Use a stock voice (");
        let names = stock_voice_list();
        let ghost list = stock_voice_names();
        let mut i: usize = 0;
        let ghost start = r@;
        while i < names.len()
            invariant
                i <= names.len(),
                names.len() == list.len(),
                forall|j: int| 0 <= j < names.len() ==> (#[trigger] names@[j])@ == list[j],
                r@ == start + joined(list.take(i as int), ", "@),
            decreases names.len() - i,
        {
            assert(list.take(i + 1).drop_last() =~= list.take(i as int));
            if i > 0 {
                r.append(", ");
            } else {
                assert(list.take(1) =~= seq![list[0]]);
                assert(list.take(0) =~= Seq::<Seq<char>>::empty());
            }
            r.append(names[i]);
            i = i + 1;
        }
        assert(list.take(names.len() as int) =~= list);
        r.append("), a .wav file, or a .safetensors file");
        r
    }
}

/// The stock English voices.
pub fn stock_voice_list() -> (r: Vec<&'static str>)
    ensures
        r@.len() == stock_voice_names().len(),
        forall|i: int| 0 <= i < r@.len() ==> (#[trigger] r@[i])@ == stock_voice_names()[i],
{
    let r = vec!["alba", "marius", "javert", "jean", "fantine", "cosette", "eponine", "azelma"];
    r
}

/// Whether `name` is exactly one of the stock English voices.
pub fn is_stock_voice(name: &str) -> (r: bool)
    ensures
        r == stock_voice_names().contains(name@),
{
    let v = chars_of(name);
    let names = stock_voice_list();
    let mut i: usize = 0;
    while i < names.len()
        invariant
            i <= names.len(),
            names.len() == stock_voice_names().len(),
            forall|j: int| 0 <= j < names.len() ==> (#[trigger] names@[j])@ == stock_voice_names()[j],
            v@ == name@,
            forall|j: int| 0 <= j < i ==> stock_voice_names()[j] != name@,
        decreases names.len() - i,
    {
        let candidate = chars_of(names[i]);
        if chars_eq(candidate.as_slice(), v.as_slice()) {
            assert(stock_voice_names()[i as int] == name@);
            return true;
        }
        i = i + 1;
    }
    false
}

/// The source of a voice named by `spec`, with stock voices looked for first
/// in `model_dir` when one is given.
pub fn resolve_voice_in(spec: &str, model_dir: Option<&str>) -> (r: Result<VoiceSource, VoiceError>)
    ensures
        outcome_plan(r) == voice_plan(
            spec@,
            match model_dir {
                Some(d) => Some(d@),
                None => None,
            },
        ),
        is_named_stock_voice(trim(spec@)) ==> (r matches Ok(VoiceSource::Stock { name, .. }) && name@
            == trim(spec@)),
        r matches Ok(VoiceSource::Stock { name, .. }) ==> is_named_stock_voice(name@) && name@ == trim(
            spec@,
        ),
{
    let name = trim_str(spec);
    if is_stock_voice(name) {
        let local = match model_dir {
            Some(dir) => {
                let mut file = String::from_str(name);
                file.append(".safetensors");
                Some(join_path(dir, file.as_str()))
            },
            None => None,
        };
        let mut remote = String::from_str("hf://");
        remote.append(STOCK_VOICE_REPO);
        remote.append("/");
        remote.append(STOCK_VOICE_PATH_PREFIX);
        remote.append("/");
        remote.append(name);
        remote.append(".safetensors@");
        remote.append(STOCK_VOICE_REVISION);
        return Ok(VoiceSource::Stock { name: String::from_str(name), local, remote });
    }
    match path_extension_chars(name) {
        Some(ext) => {
            let safetensors = chars_of("safetensors");
            let wav = chars_of("wav");
            let wave = chars_of("wave");
            if chars_eq_ignore_ascii_case(ext.as_slice(), safetensors.as_slice()) {
                Ok(VoiceSource::Embedding(String::from_str(name)))
            } else if chars_eq_ignore_ascii_case(ext.as_slice(), wav.as_slice())
                || chars_eq_ignore_ascii_case(ext.as_slice(), wave.as_slice()) {
                Ok(VoiceSource::Wav(String::from_str(name)))
            } else {
                Err(VoiceError { spec: String::from_str(name) })
            }
        },
        None => Err(VoiceError { spec: String::from_str(name) }),
    }
}

/// How the embedding of a stock voice is obtained.
pub enum StockFetch {
    /// Read the local copy at this path.
    Local(String),
    /// Download from this hub path.
    Download(String),
}

/// How to obtain a stock voice whose local copy, if one was looked for, is
/// `local` (and `local_is_file` tells whether that path is a file) and whose
/// hub copy is `remote`: a local copy that is a file wins over the download.
pub fn stock_voice_fetch(local: Option<String>, local_is_file: bool, remote: String) -> (r: StockFetch)
    ensures
        (local is Some && local_is_file) ==> r == StockFetch::Local(local.unwrap()),
        !(local is Some && local_is_file) ==> r == StockFetch::Download(remote),
{
    match local {
        Some(l) => if local_is_file {
            StockFetch::Local(l)
        } else {
            StockFetch::Download(remote)
        },
        None => StockFetch::Download(remote),
    }
}

/// The source of a voice named by `spec`, with no local model folder.
pub fn resolve_voice(spec: &str) -> (r: Result<VoiceSource, VoiceError>)
    ensures
        outcome_plan(r) == voice_plan(spec@, None),
{
    resolve_voice_in(spec, None)
}

/// A specifier names the same voice as its trimmed form: white space around
/// a specifier never changes what it names.
pub proof fn lemma_voice_plan_ignores_surrounding_space(spec: Seq<char>, model_dir: Option<Seq<char>>)
    ensures
        voice_plan(trim(spec), model_dir) == voice_plan(spec, model_dir),
{
    crate::text::lemma_trim_idempotent(spec);
}

/// The model folder only says where stock voices are looked for locally: a
/// specifier names the same kind of voice, at the same path, with or without
/// one.
pub proof fn lemma_model_dir_only_locates_stock_voices(spec: Seq<char>, dir: Seq<char>)
    ensures
        match (voice_plan(spec, Some(dir)), voice_plan(spec, None)) {
            (
                VoicePlan::Stock { name: n1, local: l1, remote: r1 },
                VoicePlan::Stock { name: n2, local: l2, remote: r2 },
            ) => n1 == n2 && r1 == r2 && l1 == Some(stock_voice_local(dir, n1)) && l2 is None,
            (a, b) => a == b && !(a is Stock),
        },
{
}

/// Every one of the eight stock names, with any surrounding white space,
/// resolves to that stock voice, and only those names do.
pub proof fn lemma_stock_names_resolve_to_stock(spec: Seq<char>, model_dir: Option<Seq<char>>)
    ensures
        is_named_stock_voice(trim(spec)) ==> (voice_plan(spec, model_dir) matches VoicePlan::Stock {
            name,
            ..
        } && name == trim(spec)),
        voice_plan(spec, model_dir) is Stock ==> is_named_stock_voice(trim(spec)),
{
    lemma_stock_names_written_out(trim(spec));
}

/// Membership in the stock list is the same as being one of the eight names.
proof fn lemma_stock_names_written_out(name: Seq<char>)
    ensures
        stock_voice_names().contains(name) <==> is_named_stock_voice(name),
{
    let l = stock_voice_names();
    if is_named_stock_voice(name) {
        if name == "alba"@ { assert(l[0] == name); }
        if name == "marius"@ { assert(l[1] == name); }
        if name == "javert"@ { assert(l[2] == name); }
        if name == "jean"@ { assert(l[3] == name); }
        if name == "fantine"@ { assert(l[4] == name); }
        if name == "cosette"@ { assert(l[5] == name); }
        if name == "eponine"@ { assert(l[6] == name); }
        if name == "azelma"@ { assert(l[7] == name); }
    }
    if l.contains(name) {
        let i = choose|i: int| 0 <= i < l.len() && l[i] == name;
        assert(0 <= i < 8);
    }
}

/// The local copy of a stock voice is looked for under the model folder, in
/// a file named after the voice: `{name}.safetensors`.
pub proof fn lemma_stock_voice_local_named_after_voice(dir: Seq<char>, name: Seq<char>)
    ensures
        (name + ".safetensors"@).is_suffix_of(stock_voice_local(dir, name)),
{
    crate::path::lemma_join_ends_with(dir, name + ".safetensors"@);
}

} // verus!
