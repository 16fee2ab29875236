//! Knobs of a synthesis request: engine, output format, quality, and
//! emotion, each with the spelling the remote service expects on the
//! wire and the default the library picks.

use vstd::prelude::*;

verus! {

/// The voice engine generating the speech.
#[derive(Debug, Clone, PartialEq)]
pub enum VoiceEngine {
    PlayHTV1,
    PlayHTV2,
    PlayHTV2Turbo,
}

impl VoiceEngine {
    /// The engine's name on the wire.
    pub fn wire_name(&self) -> (r: &'static str)
        ensures
            r@ == self.spec_wire_name(),
    {
        match self {
            VoiceEngine::PlayHTV1 => "PlayHT1.0",
            VoiceEngine::PlayHTV2 => "PlayHT2.0",
            VoiceEngine::PlayHTV2Turbo => "PlayHT2.0-turbo",
        }
    }

    /// The engine's name on the wire.
    pub open spec fn spec_wire_name(self) -> Seq<char> {
        match self {
            VoiceEngine::PlayHTV1 => "PlayHT1.0"@,
            VoiceEngine::PlayHTV2 => "PlayHT2.0"@,
            VoiceEngine::PlayHTV2Turbo => "PlayHT2.0-turbo"@,
        }
    }
}

impl Default for VoiceEngine {
    /// The engine requests use when none is picked.
    fn default() -> (r: VoiceEngine)
        ensures
            r == VoiceEngine::PlayHTV2,
    {
        VoiceEngine::PlayHTV2
    }
}

/// The audio container of the synthesized speech.
#[derive(Debug, Clone, PartialEq)]
pub enum OutputFormat {
    Mp3,
    Wav,
    Ogg,
    Flac,
    Mulav,
}

impl OutputFormat {
    /// The format's name on the wire.
    pub fn wire_name(&self) -> (r: &'static str)
        ensures
            r@ == self.spec_wire_name(),
    {
        match self {
            OutputFormat::Mp3 => "mp3",
            OutputFormat::Wav => "wav",
            OutputFormat::Ogg => "ogg",
            OutputFormat::Flac => "flac",
            OutputFormat::Mulav => "mulav",
        }
    }

    /// The format's name on the wire.
    pub open spec fn spec_wire_name(self) -> Seq<char> {
        match self {
            OutputFormat::Mp3 => "mp3"@,
            OutputFormat::Wav => "wav"@,
            OutputFormat::Ogg => "ogg"@,
            OutputFormat::Flac => "flac"@,
            OutputFormat::Mulav => "mulav"@,
        }
    }
}

impl Default for OutputFormat {
    /// The format requests use when none is picked.
    fn default() -> (r: OutputFormat)
        ensures
            r == OutputFormat::Mp3,
    {
        OutputFormat::Mp3
    }
}

/// The quality of the generated audio.
#[derive(Debug, Clone, PartialEq)]
pub enum Quality {
    Draft,
    Low,
    Medium,
    High,
    Premium,
}

impl Quality {
    /// The quality's name on the wire.
    pub fn wire_name(&self) -> (r: &'static str)
        ensures
            r@ == self.spec_wire_name(),
    {
        match self {
            Quality::Draft => "draft",
            Quality::Low => "low",
            Quality::Medium => "medium",
            Quality::High => "high",
            Quality::Premium => "premium",
        }
    }

    /// The quality's name on the wire.
    pub open spec fn spec_wire_name(self) -> Seq<char> {
        match self {
            Quality::Draft => "draft"@,
            Quality::Low => "low"@,
            Quality::Medium => "medium"@,
            Quality::High => "high"@,
            Quality::Premium => "premium"@,
        }
    }
}

impl Default for Quality {
    /// The quality requests use when none is picked.
    fn default() -> (r: Quality)
        ensures
            r == Quality::Draft,
    {
        Quality::Draft
    }
}

/// The emotion of the generated voice.
#[derive(Debug, Clone, PartialEq)]
pub enum Emotion {
    FemaleHappy,
    FemaleSad,
    FemaleAngry,
    FemaleFearful,
    FemaleDisgust,
    FemaleSurprised,
    MaleHappy,
    MaleSad,
    MaleAngry,
    MaleFearful,
    MaleDisgust,
    MaleSurprised,
}

impl Emotion {
    /// The emotion's name on the wire.
    pub fn wire_name(&self) -> (r: &'static str)
        ensures
            r@ == self.spec_wire_name(),
    {
        match self {
            Emotion::FemaleHappy => "female_happy",
            Emotion::FemaleSad => "female_sad",
            Emotion::FemaleAngry => "female_angry",
            Emotion::FemaleFearful => "female_fearful",
            Emotion::FemaleDisgust => "female_disgust",
            Emotion::FemaleSurprised => "female_surprised",
            Emotion::MaleHappy => "male_happy",
            Emotion::MaleSad => "male_sad",
            Emotion::MaleAngry => "male_angry",
            Emotion::MaleFearful => "male_fearful",
            Emotion::MaleDisgust => "male_disgust",
            Emotion::MaleSurprised => "male_surprised",
        }
    }

    /// The emotion's name on the wire.
    pub open spec fn spec_wire_name(self) -> Seq<char> {
        match self {
            Emotion::FemaleHappy => "female_happy"@,
            Emotion::FemaleSad => "female_sad"@,
            Emotion::FemaleAngry => "female_angry"@,
            Emotion::FemaleFearful => "female_fearful"@,
            Emotion::FemaleDisgust => "female_disgust"@,
            Emotion::FemaleSurprised => "female_surprised"@,
            Emotion::MaleHappy => "male_happy"@,
            Emotion::MaleSad => "male_sad"@,
            Emotion::MaleAngry => "male_angry"@,
            Emotion::MaleFearful => "male_fearful"@,
            Emotion::MaleDisgust => "male_disgust"@,
            Emotion::MaleSurprised => "male_surprised"@,
        }
    }
}

impl Default for Emotion {
    /// The emotion requests use when none is picked.
    fn default() -> (r: Emotion)
        ensures
            r == Emotion::FemaleHappy,
    {
        Emotion::FemaleHappy
    }
}

} // verus!
