use kittentts::{KittenError, KittenVoice};

#[test]
fn voice_names() {
    assert_eq!(KittenVoice::default().voice_name(), "expr-voice-5-m");
    assert_eq!(KittenVoice::TwoF.voice_name(), "expr-voice-2-f");
    assert_eq!(KittenVoice::ThreeM.voice_name(), "expr-voice-3-m");
    assert_eq!(KittenVoice::FourF.voice_name(), "expr-voice-4-f");
}

#[test]
fn error_messages() {
    assert_eq!(KittenError::ModelLoad("x".to_string()).message(), "failed to load model: x");
    assert_eq!(KittenError::ModelExecute("y".to_string()).message(), "failed to execute model: y");
    assert_eq!(
        KittenError::ModelResultSave("z".to_string()).message(),
        "failed to save model result: z"
    );
}
