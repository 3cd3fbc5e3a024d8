use helix::network::{read_event, ReadEvent, TCPStream};
use helix::speech::{choose_voice, AVSpeechSynthesizer, SAPISpeechSynthesizer, SpeechSynthesizerGender, VoiceGender, VoiceInfo};

#[test]
fn stream_queues_messages_only_once_connected() {
    let mut s = TCPStream::new();
    assert!(!s.is_enabled);
    s.send_message("dropped");
    assert!(s.backend.is_none());
    s.enable();
    assert!(s.is_enabled);
    s.send_message("hello");
    s.send_message("world");
    assert_eq!(s.backend.as_ref().unwrap().outbox, vec!["hello".to_string(), "world".to_string()]);
    s.disconnect();
    assert!(!s.is_enabled);
    assert_eq!(s.backend.as_ref().unwrap().outbox.len(), 2);
}

#[test]
fn reads_strip_the_delimiter_and_zero_means_closed() {
    let buf = [b'h', b'i', 0, 9, 9];
    assert_eq!(read_event(&buf, 3), ReadEvent::Message(vec![b'h', b'i']));
    assert_eq!(read_event(&buf, 1), ReadEvent::Message(vec![]));
    assert_eq!(read_event(&buf, 0), ReadEvent::Closed);
}

fn voice(lang: &str, gender: Option<VoiceGender>) -> VoiceInfo {
    VoiceInfo { language: lang.to_string(), gender }
}

#[test]
fn voice_choice_prefers_language_and_gender_then_language() {
    let voices = vec![
        voice("fr-FR", Some(VoiceGender::Female)),
        voice("en-US", Some(VoiceGender::Male)),
        voice("en-US", Some(VoiceGender::Female)),
        voice("en-US", None),
    ];
    let en = "en-US".to_string();
    assert_eq!(choose_voice(&voices, &en, SpeechSynthesizerGender::Female.to_lib()), Some(2));
    assert_eq!(choose_voice(&voices, &en, SpeechSynthesizerGender::Male.to_lib()), Some(1));
    assert_eq!(choose_voice(&voices, &en, SpeechSynthesizerGender::Neutral.to_lib()), Some(3));
    let fr = "fr-FR".to_string();
    assert_eq!(choose_voice(&voices, &fr, SpeechSynthesizerGender::Male.to_lib()), Some(0));
    assert_eq!(choose_voice(&voices, &"de-DE".to_string(), None), None);
    assert_eq!(SpeechSynthesizerGender::Neutral.to_lib(), None);
    let _ = AVSpeechSynthesizer::new();
    let _ = SAPISpeechSynthesizer::new();
}
