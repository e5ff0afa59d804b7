//! Text-to-speech front end: grapheme-to-phoneme resolution over a pronunciation
//! dictionary, encoding of phoneme strings into the token ids of a synthesis
//! network, and serialisation of mono float waveforms into an uncompressed
//! audio container.
use vstd::prelude::*;
use vstd::string::StringExecFns;

pub mod phonemize;
pub mod pipeline;
pub mod tokens;
pub mod wav;

verus! {

/// Failures of the synthesis pipeline, by stage.
#[derive(Debug, Clone)]
pub enum KittenError {
    /// A model, voice archive or dictionary could not be loaded.
    ModelLoad(String),
    /// The synthesis call failed.
    ModelExecute(String),
    /// The result could not be saved.
    ModelResultSave(String),
}

pub open spec fn error_message(e: KittenError) -> Seq<char> {
    match e {
        KittenError::ModelLoad(m) => "failed to load model: "@ + m@,
        KittenError::ModelExecute(m) => "failed to execute model: "@ + m@,
        KittenError::ModelResultSave(m) => "failed to save model result: "@ + m@,
    }
}

impl KittenError {
    /// The error's message: its stage, then the underlying cause.
    pub fn message(&self) -> (r: String)
        ensures
            r@ == error_message(*self),
    {
        let (prefix, cause) = match self {
            KittenError::ModelLoad(m) => ("failed to load model: ", m),
            KittenError::ModelExecute(m) => ("failed to execute model: ", m),
            KittenError::ModelResultSave(m) => ("failed to save model result: ", m),
        };
        let mut r = String::from_str(prefix);
        r.append(cause.as_str());
        r
    }
}

/// The speaker embeddings of the bundled voice archive.
#[derive(Debug, Clone, Copy, PartialEq, Eq, Structural)]
pub enum KittenVoice {
    TwoM,
    TwoF,
    ThreeM,
    ThreeF,
    FourM,
    FourF,
    FiveM,
    FiveF,
}

/// The archive key of a voice.
pub open spec fn voice_key(v: KittenVoice) -> Seq<char> {
    match v {
        KittenVoice::TwoM => "expr-voice-2-m"@,
        KittenVoice::TwoF => "expr-voice-2-f"@,
        KittenVoice::ThreeM => "expr-voice-3-m"@,
        KittenVoice::ThreeF => "expr-voice-3-f"@,
        KittenVoice::FourM => "expr-voice-4-m"@,
        KittenVoice::FourF => "expr-voice-4-f"@,
        KittenVoice::FiveM => "expr-voice-5-m"@,
        KittenVoice::FiveF => "expr-voice-5-f"@,
    }
}

impl Default for KittenVoice {
    fn default() -> (r: KittenVoice)
        ensures
            r == KittenVoice::FiveM,
    {
        KittenVoice::FiveM
    }
}

impl KittenVoice {
    /// The key under which the voice's embedding is stored in the archive.
    pub fn voice_name(&self) -> (r: String)
        ensures
            r@ == voice_key(*self),
    {
        let key = match self {
            KittenVoice::TwoM => "expr-voice-2-m",
            KittenVoice::TwoF => "expr-voice-2-f",
            KittenVoice::ThreeM => "expr-voice-3-m",
            KittenVoice::ThreeF => "expr-voice-3-f",
            KittenVoice::FourM => "expr-voice-4-m",
            KittenVoice::FourF => "expr-voice-4-f",
            KittenVoice::FiveM => "expr-voice-5-m",
            KittenVoice::FiveF => "expr-voice-5-f",
        };
        String::from_str(key)
    }
}

} // verus!
