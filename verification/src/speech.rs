use vstd::prelude::*;

verus! {

/// The voice gender a guest asks for.
#[derive(Clone, Copy, Debug, PartialEq, Eq)]
pub enum SpeechSynthesizerGender {
    Male,
    Female,
    Neutral,
}

/// A voice's gender as the speech backend reports it.
#[derive(Clone, Copy, Debug, PartialEq, Eq)]
pub enum VoiceGender {
    Male,
    Female,
}

impl SpeechSynthesizerGender {
    /// The backend gender to match: none for Neutral.
    pub fn to_lib(&self) -> (r: Option<VoiceGender>)
        ensures
            r == (match *self {
                SpeechSynthesizerGender::Male => Some(VoiceGender::Male),
                SpeechSynthesizerGender::Female => Some(VoiceGender::Female),
                SpeechSynthesizerGender::Neutral => None,
            }),
    {
        match self {
            SpeechSynthesizerGender::Male => Some(VoiceGender::Male),
            SpeechSynthesizerGender::Female => Some(VoiceGender::Female),
            SpeechSynthesizerGender::Neutral => None,
        }
    }
}

/// What the voice choice reads of an available voice: its language tag and gender.
pub struct VoiceInfo {
    pub language: String,
    pub gender: Option<VoiceGender>,
}

pub open spec fn lang_matches(v: VoiceInfo, language: Seq<char>) -> bool {
    v.language@ == language
}

fn same_gender(a: Option<VoiceGender>, b: Option<VoiceGender>) -> (r: bool)
    ensures
        r == (a == b),
{
    match (a, b) {
        (None, None) => true,
        (Some(VoiceGender::Male), Some(VoiceGender::Male)) => true,
        (Some(VoiceGender::Female), Some(VoiceGender::Female)) => true,
        _ => false,
    }
}

/// The index of the voice to switch to: the first voice of the requested language and gender,
/// else the first of the requested language, else none (the current voice stays).
pub fn choose_voice(voices: &Vec<VoiceInfo>, language: &String, gender: Option<VoiceGender>) -> (r: Option<usize>)
    ensures
        match r {
            None => !exists|i: int| 0 <= i < voices@.len() && lang_matches(#[trigger] voices@[i], language@),
            Some(k) => {
                &&& k < voices@.len()
                &&& lang_matches(voices@[k as int], language@)
                &&& forall|j: int| 0 <= j < k ==> !(lang_matches(#[trigger] voices@[j], language@) && voices@[j].gender == gender)
                &&& voices@[k as int].gender != gender ==> (forall|j: int| 0 <= j < voices@.len() ==> !(lang_matches(#[trigger] voices@[j], language@) && voices@[j].gender == gender))
                    && forall|j: int| 0 <= j < k ==> !lang_matches(#[trigger] voices@[j], language@)
            },
        },
{
    let mut first_lang: Option<usize> = None;
    let mut i: usize = 0;
    while i < voices.len()
        invariant
            i <= voices@.len(),
            forall|j: int| 0 <= j < i ==> !(lang_matches(#[trigger] voices@[j], language@) && voices@[j].gender == gender),
            first_lang is None ==> forall|j: int| 0 <= j < i ==> !lang_matches(#[trigger] voices@[j], language@),
            first_lang matches Some(f) ==> f < i && lang_matches(voices@[f as int], language@)
                && forall|j: int| 0 <= j < f ==> !lang_matches(#[trigger] voices@[j], language@),
        decreases voices@.len() - i,
    {
        let same_lang = voices[i].language == *language;
        if same_lang && same_gender(voices[i].gender, gender) {
            return Some(i);
        }
        if same_lang && first_lang.is_none() {
            first_lang = Some(i);
        }
        i = i + 1;
    }
    first_lang
}

/// The macOS speech backend (AVSpeechSynthesizer).
pub struct AVSpeechSynthesizer {}

impl AVSpeechSynthesizer {
    pub fn new() -> AVSpeechSynthesizer {
        AVSpeechSynthesizer {  }
    }
}

/// The Windows speech backend (SAPI).
pub struct SAPISpeechSynthesizer {}

impl SAPISpeechSynthesizer {
    pub fn new() -> SAPISpeechSynthesizer {
        SAPISpeechSynthesizer {  }
    }
}

} // verus!
