//! Speech-to-text model families, asset recognition, scoring and package contracts.
use vstd::prelude::*;
use crate::text::{
    chars_of, concat_chars, concat_str, contains, contains_any, ends_with, ends_with_any,
    has_any_suffix, has_any_sub, has_sub, has_suffix, lower_base, lower_basename, lower_chars,
    lowercase,
};
use crate::taxonomy::quantization::{strip_quant_spec, UniversalQuantization};
use crate::listing::{any_pick, any_pick_of, lowered_entry_names, lowered_names, vviews, DirListing, FileGroup};

verus! {

#[derive(Debug, Clone, Copy, PartialEq, Eq, Structural)]
pub enum SttFamily {
    WhisperGguf,
    WhisperOnnx,
    SenseVoice,
    Moonshine,
    Paraformer,
    Zipformer,
    Wav2Vec2,
    GenericOnnxStt,
    Unknown,
}

/// Canonical tag of an STT family.
pub open spec fn stt_family_name(f: SttFamily) -> Seq<char> {
    match f {
        SttFamily::WhisperGguf => "whisper-gguf"@,
        SttFamily::WhisperOnnx => "whisper-onnx"@,
        SttFamily::SenseVoice => "sensevoice"@,
        SttFamily::Moonshine => "moonshine"@,
        SttFamily::Paraformer => "paraformer"@,
        SttFamily::Zipformer => "zipformer"@,
        SttFamily::Wav2Vec2 => "wav2vec2"@,
        SttFamily::GenericOnnxStt => "generic-onnx-stt"@,
        SttFamily::Unknown => "unknown"@,
    }
}

impl SttFamily {
    pub fn as_str(&self) -> (r: &'static str)
        ensures
            r@ == stt_family_name(*self),
    {
        match self {
            SttFamily::WhisperGguf => "whisper-gguf",
            SttFamily::WhisperOnnx => "whisper-onnx",
            SttFamily::SenseVoice => "sensevoice",
            SttFamily::Moonshine => "moonshine",
            SttFamily::Paraformer => "paraformer",
            SttFamily::Zipformer => "zipformer",
            SttFamily::Wav2Vec2 => "wav2vec2",
            SttFamily::GenericOnnxStt => "generic-onnx-stt",
            SttFamily::Unknown => "unknown",
        }
    }
}

pub const STT_ASSET_SUFFIXES: [&'static str; 8] = [
    ".mvn",
    "am.mvn",
    "feat.mvn",
    "tokens.txt",
    "vocab.json",
    "tokenizer.json",
    "preprocessor_config.json",
    "generation_config.json",
];

pub const STT_SUBCOMPONENT_MARKERS: [&'static str; 7] = [
    "preprocess",
    "cached_decode",
    "uncached_decode",
    "decoder",
    "joiner",
    "vad",
    "feature_extractor",
];

pub const STT_ENTRYPOINT_MARKERS: [&'static str; 5] = [
    "encoder",
    "model.onnx",
    "model_",
    "sensevoice",
    "whisper",
];

pub const STT_PRIMARY_MARKERS: [&'static str; 6] = [
    "encoder",
    "sensevoice",
    "model.onnx",
    "model_q4.onnx",
    "ggml-",
    "whisper",
];

pub const STT_DECODER_MARKERS: [&'static str; 4] = [
    "decoder",
    "joiner",
    "cached_decode",
    "uncached_decode",
];

pub const STT_FRONTEND_MARKERS: [&'static str; 3] = ["preprocess", "vad", "feature"];

pub open spec fn is_stt_asset_spec(f: Seq<char>) -> bool {
    let n = lowercase(f);
    ends_with_any(n, STT_ASSET_SUFFIXES@) || contains(n, "silero_vad"@) || contains(n, "vad."@)
}

pub open spec fn is_stt_subcomponent_spec(f: Seq<char>) -> bool {
    contains_any(lower_base(f), STT_SUBCOMPONENT_MARKERS@)
}

pub open spec fn is_stt_entrypoint_spec(f: Seq<char>) -> bool {
    let b = lower_base(f);
    if ends_with(b, ".gguf"@) || ends_with(b, ".bin"@) {
        contains(b, "ggml"@) || contains(b, "whisper"@)
    } else if !ends_with(b, ".onnx"@) {
        false
    } else if contains(b, ".onnx.data"@) || contains(b, "vocab"@) {
        false
    } else {
        contains_any(b, STT_ENTRYPOINT_MARKERS@) || !is_stt_subcomponent_spec(f)
    }
}

/// Family from the lower-cased identifier and file inventory, first matching rule wins.
pub open spec fn detect_stt_family_spec(repo: Seq<char>, inventory: Seq<char>) -> SttFamily {
    let files = lowercase(inventory);
    let combined = lowercase(repo) + " "@ + files;
    if contains(combined, "sensevoice"@) || contains(files, "am.mvn"@) {
        SttFamily::SenseVoice
    } else if contains(combined, "moonshine"@) || contains(files, "cached_decode"@) {
        SttFamily::Moonshine
    } else if contains(combined, "paraformer"@) {
        SttFamily::Paraformer
    } else if contains(combined, "zipformer"@) || contains(files, "joiner"@) {
        SttFamily::Zipformer
    } else if contains(combined, "wav2vec2"@) || contains(combined, "mms-1b-all"@) || contains(
        combined,
        "mms-300m"@,
    ) {
        SttFamily::Wav2Vec2
    } else if contains(combined, "whisper"@) {
        if contains(files, ".onnx"@) {
            SttFamily::WhisperOnnx
        } else {
            SttFamily::WhisperGguf
        }
    } else if contains(files, ".onnx"@) {
        SttFamily::GenericOnnxStt
    } else {
        SttFamily::Unknown
    }
}

/// 0 = primary acoustic encoder, 1 = decoder / joiner, 2 = preprocessor / VAD.
pub open spec fn stt_priority_spec(f: Seq<char>) -> usize {
    let b = lower_base(f);
    if contains_any(b, STT_PRIMARY_MARKERS@) {
        0
    } else if contains_any(b, STT_DECODER_MARKERS@) {
        1
    } else if contains_any(b, STT_FRONTEND_MARKERS@) {
        2
    } else {
        1
    }
}

pub struct SttTaxonomy;

impl SttTaxonomy {
    /// Is the file an STT asset, config or normalization artifact?
    pub fn is_stt_asset(filename: &str) -> (r: bool)
        ensures
            r == is_stt_asset_spec(filename@),
    {
        let name = lower_chars(filename);
        has_any_suffix(&name, &STT_ASSET_SUFFIXES) || has_sub(&name, "silero_vad") || has_sub(
            &name,
            "vad.",
        )
    }

    /// Normalized model base stem (shared quantization rule).
    pub fn strip_quant(p: &str) -> (r: String)
        ensures
            r@ == strip_quant_spec(p@),
    {
        UniversalQuantization::strip_quant(p)
    }

    /// Is the file an STT sub-stage (preprocessor, decoder cache, joiner, VAD)?
    pub fn is_subcomponent_file(filename: &str) -> (r: bool)
        ensures
            r == is_stt_subcomponent_spec(filename@),
    {
        let b = lower_basename(filename);
        has_any_sub(&b, &STT_SUBCOMPONENT_MARKERS)
    }

    /// Can the file serve as the primary STT entrypoint?
    pub fn is_primary_entrypoint(filename: &str) -> (r: bool)
        ensures
            r == is_stt_entrypoint_spec(filename@),
    {
        let b = lower_basename(filename);
        if has_suffix(&b, ".gguf") || has_suffix(&b, ".bin") {
            return has_sub(&b, "ggml") || has_sub(&b, "whisper");
        }
        if !has_suffix(&b, ".onnx") {
            return false;
        }
        if has_sub(&b, ".onnx.data") || has_sub(&b, "vocab") {
            return false;
        }
        has_any_sub(&b, &STT_ENTRYPOINT_MARKERS) || !Self::is_subcomponent_file(filename)
    }

    /// STT family of a repository from its identifier and file inventory.
    pub fn detect_family(repo_or_dir: &str, file_inventory: &str) -> (r: SttFamily)
        ensures
            r == detect_stt_family_spec(repo_or_dir@, file_inventory@),
    {
        let lower = lower_chars(repo_or_dir);
        let files = lower_chars(file_inventory);
        let with_space = concat_str(&lower, " ");
        let combined = concat_chars(&with_space, &files);
        if has_sub(&combined, "sensevoice") || has_sub(&files, "am.mvn") {
            SttFamily::SenseVoice
        } else if has_sub(&combined, "moonshine") || has_sub(&files, "cached_decode") {
            SttFamily::Moonshine
        } else if has_sub(&combined, "paraformer") {
            SttFamily::Paraformer
        } else if has_sub(&combined, "zipformer") || has_sub(&files, "joiner") {
            SttFamily::Zipformer
        } else if has_sub(&combined, "wav2vec2") || has_sub(&combined, "mms-1b-all") || has_sub(
            &combined,
            "mms-300m",
        ) {
            SttFamily::Wav2Vec2
        } else if has_sub(&combined, "whisper") {
            if has_sub(&files, ".onnx") {
                SttFamily::WhisperOnnx
            } else {
                SttFamily::WhisperGguf
            }
        } else if has_sub(&files, ".onnx") {
            SttFamily::GenericOnnxStt
        } else {
            SttFamily::Unknown
        }
    }

    /// Priority of a candidate STT file (0 = primary encoder first).
    pub fn score_stt_file_priority(filename: &str) -> (r: usize)
        ensures
            r == stt_priority_spec(filename@),
    {
        let b = lower_basename(filename);
        if has_any_sub(&b, &STT_PRIMARY_MARKERS) {
            0
        } else if has_any_sub(&b, &STT_DECODER_MARKERS) {
            1
        } else if has_any_sub(&b, &STT_FRONTEND_MARKERS) {
            2
        } else {
            1
        }
    }
}


// ───────────────────────── package contract ─────────────────────────

pub const STT_ANY_NAME: [&'static str; 0] = [];
pub const STT_ENCODER: [&'static str; 1] = ["encoder"];
pub const STT_DECODER: [&'static str; 1] = ["decoder"];
pub const STT_TOKENIZER: [&'static str; 3] = ["tokenizer", "tokens", "vocab"];
pub const SENSEVOICE_MODEL: [&'static str; 2] = ["model", "sensevoice"];
pub const SENSEVOICE_MVN: [&'static str; 1] = ["mvn"];
pub const MOONSHINE_DECODER: [&'static str; 1] = ["decode"];
pub const TRANSDUCER_ENCODER: [&'static str; 2] = ["encoder", "model"];
pub const WAV2VEC2_MODEL: [&'static str; 2] = ["model", "wav2vec2"];

/// Why a downloaded STT package breaks its family's contract.
#[derive(Debug, Clone, Copy, PartialEq, Eq, Structural)]
pub enum SttContractViolation {
    WhisperGgufMissingWeights,
    WhisperOnnxMissingGraphs,
    WhisperOnnxMissingTokenizer,
    SenseVoiceMissingModel,
    SenseVoiceMissingMvn,
    MoonshineMissingGraphs,
    TransducerMissingEncoder,
    Wav2Vec2MissingModel,
    GenericMissingWeights,
}

/// The first contract violation of an STT package of family `family`, if any.
pub open spec fn stt_violation(family: SttFamily, l: DirListing) -> Option<SttContractViolation> {
    let n = lowered_names(l.entries@);
    match family {
        SttFamily::WhisperGguf => if !any_pick(n, true, FileGroup::Weights, STT_ANY_NAME@) {
            Some(SttContractViolation::WhisperGgufMissingWeights)
        } else {
            None
        },
        SttFamily::WhisperOnnx => if (!any_pick(n, true, FileGroup::Onnx, STT_ENCODER@) || !any_pick(
            n,
            true,
            FileGroup::Onnx,
            STT_DECODER@,
        )) && !any_pick(n, true, FileGroup::Onnx, STT_ANY_NAME@) {
            Some(SttContractViolation::WhisperOnnxMissingGraphs)
        } else if !any_pick(n, true, FileGroup::Config, STT_TOKENIZER@) {
            Some(SttContractViolation::WhisperOnnxMissingTokenizer)
        } else {
            None
        },
        SttFamily::SenseVoice => if !any_pick(n, true, FileGroup::Onnx, SENSEVOICE_MODEL@) {
            Some(SttContractViolation::SenseVoiceMissingModel)
        } else if !(l.has_am_mvn || any_pick(n, true, FileGroup::Config, SENSEVOICE_MVN@)) {
            Some(SttContractViolation::SenseVoiceMissingMvn)
        } else {
            None
        },
        SttFamily::Moonshine => if !any_pick(n, true, FileGroup::Onnx, STT_ENCODER@) || !any_pick(
            n,
            true,
            FileGroup::Onnx,
            MOONSHINE_DECODER@,
        ) {
            Some(SttContractViolation::MoonshineMissingGraphs)
        } else {
            None
        },
        SttFamily::Paraformer | SttFamily::Zipformer => if !any_pick(
            n,
            true,
            FileGroup::Onnx,
            TRANSDUCER_ENCODER@,
        ) {
            Some(SttContractViolation::TransducerMissingEncoder)
        } else {
            None
        },
        SttFamily::Wav2Vec2 => if !any_pick(n, true, FileGroup::Onnx, WAV2VEC2_MODEL@) {
            Some(SttContractViolation::Wav2Vec2MissingModel)
        } else {
            None
        },
        _ => if !any_pick(n, true, FileGroup::Onnx, STT_ANY_NAME@) && !any_pick(
            n,
            true,
            FileGroup::Weights,
            STT_ANY_NAME@,
        ) {
            Some(SttContractViolation::GenericMissingWeights)
        } else {
            None
        },
    }
}

/// The message reported for a violation.
pub open spec fn stt_violation_message(v: SttContractViolation) -> Seq<char> {
    match v {
        SttContractViolation::WhisperGgufMissingWeights => "Whisper GGUF Contract Violation: Missing core ggml-*.bin or *.gguf weight binary."@,
        SttContractViolation::WhisperOnnxMissingGraphs => "Whisper ONNX Contract Violation: Missing encoder_model.onnx or decoder_model.onnx graphs."@,
        SttContractViolation::WhisperOnnxMissingTokenizer => "Whisper ONNX Contract Violation: Missing tokenizer.json / vocab.json metadata."@,
        SttContractViolation::SenseVoiceMissingModel => "SenseVoice Contract Violation: Missing core model.onnx acoustic graph."@,
        SttContractViolation::SenseVoiceMissingMvn => "SenseVoice Contract Violation: Missing mandatory am.mvn acoustic normalization vector."@,
        SttContractViolation::MoonshineMissingGraphs => "Moonshine Contract Violation: Missing encoder.onnx or decode.onnx sub-graphs."@,
        SttContractViolation::TransducerMissingEncoder => "Paraformer/Zipformer Contract Violation: Missing encoder.onnx transducer graph."@,
        SttContractViolation::Wav2Vec2MissingModel => "Wav2Vec2 Contract Violation: Missing primary model.onnx graph."@,
        SttContractViolation::GenericMissingWeights => "Generic STT Contract Violation: Missing primary model weight files."@,
    }
}

impl SttContractViolation {
    /// The message reported for this violation.
    pub fn message(&self) -> (r: String)
        ensures
            r@ == stt_violation_message(*self),
    {
        let text: &str = match self {
            SttContractViolation::WhisperGgufMissingWeights => "Whisper GGUF Contract Violation: Missing core ggml-*.bin or *.gguf weight binary.",
            SttContractViolation::WhisperOnnxMissingGraphs => "Whisper ONNX Contract Violation: Missing encoder_model.onnx or decoder_model.onnx graphs.",
            SttContractViolation::WhisperOnnxMissingTokenizer => "Whisper ONNX Contract Violation: Missing tokenizer.json / vocab.json metadata.",
            SttContractViolation::SenseVoiceMissingModel => "SenseVoice Contract Violation: Missing core model.onnx acoustic graph.",
            SttContractViolation::SenseVoiceMissingMvn => "SenseVoice Contract Violation: Missing mandatory am.mvn acoustic normalization vector.",
            SttContractViolation::MoonshineMissingGraphs => "Moonshine Contract Violation: Missing encoder.onnx or decode.onnx sub-graphs.",
            SttContractViolation::TransducerMissingEncoder => "Paraformer/Zipformer Contract Violation: Missing encoder.onnx transducer graph.",
            SttContractViolation::Wav2Vec2MissingModel => "Wav2Vec2 Contract Violation: Missing primary model.onnx graph.",
            SttContractViolation::GenericMissingWeights => "Generic STT Contract Violation: Missing primary model weight files.",
        };
        text.to_owned()
    }
}

impl SttTaxonomy {
    fn package_violation(family: SttFamily, l: &DirListing, names: &Vec<Vec<char>>) -> (r: Option<SttContractViolation>)
        requires
            vviews(names@) == lowered_names(l.entries@),
        ensures
            r == stt_violation(family, *l),
    {
        match family {
            SttFamily::WhisperGguf => if !any_pick_of(names, true, FileGroup::Weights, &STT_ANY_NAME) {
                Some(SttContractViolation::WhisperGgufMissingWeights)
            } else {
                None
            },
            SttFamily::WhisperOnnx => {
                let enc = any_pick_of(names, true, FileGroup::Onnx, &STT_ENCODER);
                let dec = any_pick_of(names, true, FileGroup::Onnx, &STT_DECODER);
                let tok = any_pick_of(names, true, FileGroup::Config, &STT_TOKENIZER);
                if (!enc || !dec) && !any_pick_of(names, true, FileGroup::Onnx, &STT_ANY_NAME) {
                    Some(SttContractViolation::WhisperOnnxMissingGraphs)
                } else if !tok {
                    Some(SttContractViolation::WhisperOnnxMissingTokenizer)
                } else {
                    None
                }
            },
            SttFamily::SenseVoice => {
                let model = any_pick_of(names, true, FileGroup::Onnx, &SENSEVOICE_MODEL);
                let mvn = l.has_am_mvn || any_pick_of(names, true, FileGroup::Config, &SENSEVOICE_MVN);
                if !model {
                    Some(SttContractViolation::SenseVoiceMissingModel)
                } else if !mvn {
                    Some(SttContractViolation::SenseVoiceMissingMvn)
                } else {
                    None
                }
            },
            SttFamily::Moonshine => if !any_pick_of(names, true, FileGroup::Onnx, &STT_ENCODER)
                || !any_pick_of(names, true, FileGroup::Onnx, &MOONSHINE_DECODER) {
                Some(SttContractViolation::MoonshineMissingGraphs)
            } else {
                None
            },
            SttFamily::Paraformer | SttFamily::Zipformer => if !any_pick_of(
                names,
                true,
                FileGroup::Onnx,
                &TRANSDUCER_ENCODER,
            ) {
                Some(SttContractViolation::TransducerMissingEncoder)
            } else {
                None
            },
            SttFamily::Wav2Vec2 => if !any_pick_of(names, true, FileGroup::Onnx, &WAV2VEC2_MODEL) {
                Some(SttContractViolation::Wav2Vec2MissingModel)
            } else {
                None
            },
            _ => if !any_pick_of(names, true, FileGroup::Onnx, &STT_ANY_NAME) && !any_pick_of(
                names,
                true,
                FileGroup::Weights,
                &STT_ANY_NAME,
            ) {
                Some(SttContractViolation::GenericMissingWeights)
            } else {
                None
            },
        }
    }

    /// Checks a downloaded package of STT family `family` against that family's contract
    /// (weights, graphs, tokenizer and normalization files).  `Err` carries the message
    /// of the first violation.
    pub fn validate_family_contract(family: SttFamily, listing: &DirListing) -> (r: Result<(), String>)
        ensures
            match r {
                Ok(()) => stt_violation(family, *listing) is None,
                Err(m) => stt_violation(family, *listing) is Some && m@ == stt_violation_message(
                    stt_violation(family, *listing)->0,
                ),
            },
    {
        let names = lowered_entry_names(listing);
        match Self::package_violation(family, listing, &names) {
            None => Ok(()),
            Some(v) => Err(v.message()),
        }
    }
}

} // verus!
