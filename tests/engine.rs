use wakascribe::decoder::GreedyDecoder;
use wakascribe::engine::{check_input, ParakeetCoreMLEngine, SidecarRun};
use wakascribe::error::EngineError;
use wakascribe::slot::EngineSlot;
use wakascribe::prompt::{get_prompt, DictationMode, LlmMode, PROMPT_CODE, PROMPT_SMART};

#[test]
fn wrong_rate_is_refused_whatever_the_audio() {
    assert!(matches!(check_input(32000, 44100), Err(EngineError::InvalidSampleRate(44100))));
    assert!(matches!(check_input(0, 8000), Err(EngineError::InvalidSampleRate(8000))));
    assert!(matches!(check_input(10, 44100), Err(EngineError::InvalidSampleRate(44100))));
}

#[test]
fn short_window_is_refused() {
    assert!(matches!(check_input(0, 16000), Err(EngineError::AudioTooShort)));
    assert!(matches!(check_input(1599, 16000), Err(EngineError::AudioTooShort)));
    assert!(check_input(1600, 16000).is_ok());
    assert!(check_input(16000, 16000).is_ok());
}

#[test]
fn error_messages() {
    assert_eq!(
        EngineError::InvalidSampleRate(44100).message(),
        "Invalid sample rate: 44100Hz (expected 16000Hz)"
    );
    assert_eq!(
        EngineError::InvalidSampleRate(0).message(),
        "Invalid sample rate: 0Hz (expected 16000Hz)"
    );
    assert_eq!(EngineError::AudioTooShort.message(), "Audio too short");
    assert_eq!(
        EngineError::ModelNotFound("/m".to_string()).message(),
        "Model not found: /m"
    );
    assert_eq!(
        EngineError::InferenceError("shape".to_string()).message(),
        "Inference error: shape"
    );
}

#[test]
fn greedy_decoder_emits_non_blank_picks() {
    let mut d = GreedyDecoder::new(0);
    assert_eq!(d.last_token(), 0);
    d.step(0);
    assert_eq!(d.last_token(), 0);
    d.step(5);
    assert_eq!(d.last_token(), 5);
    d.step(0);
    assert_eq!(d.last_token(), 5);
    d.step(5);
    d.step(7);
    assert_eq!(d.tokens(), &vec![5, 5, 7]);
    assert_eq!(d.into_tokens(), vec![5, 5, 7]);
}

#[test]
fn sidecar_engine_needs_its_executable() {
    match ParakeetCoreMLEngine::new("/opt/sidecar".to_string(), false) {
        Err(msg) => assert_eq!(msg, "Parakeet CoreML sidecar not found: /opt/sidecar"),
        Ok(_) => panic!("expected an error"),
    }
    let e = ParakeetCoreMLEngine::new("/opt/sidecar".to_string(), true).unwrap();
    assert_eq!(e.sidecar_path(), "/opt/sidecar");
    assert_eq!(e.name(), "Parakeet CoreML");
    assert_eq!(e.model_display_name(), "Parakeet TDT 0.6B v3 (CoreML)");
    assert!(e.check_input(800, 16000).is_err());
}

#[test]
fn sidecar_outcomes() {
    let e = ParakeetCoreMLEngine::new("/bin/x".to_string(), true).unwrap();
    assert_eq!(
        e.interpret(SidecarRun::Failed { stderr: "boom".to_string() }),
        Err("Sidecar failed: boom".to_string())
    );
    assert_eq!(
        e.interpret(SidecarRun::Replied { text: "hi".to_string(), error: Some("bad".to_string()) }),
        Err("bad".to_string())
    );
    assert_eq!(
        e.interpret(SidecarRun::Replied { text: "hi".to_string(), error: None }),
        Ok("hi".to_string())
    );
}

#[test]
fn prompts_by_mode() {
    assert_eq!(get_prompt(LlmMode::Off, DictationMode::Email), "");
    assert_eq!(get_prompt(LlmMode::Smart, DictationMode::Code), PROMPT_SMART);
    assert_eq!(get_prompt(LlmMode::Contextual, DictationMode::Code), PROMPT_CODE);
    assert_eq!(get_prompt(LlmMode::Contextual, DictationMode::General), PROMPT_SMART);
    assert!(get_prompt(LlmMode::Basic, DictationMode::General).starts_with("Tu es un correcteur"));
}

#[test]
fn failed_build_keeps_active_engine() {
    let mut slot: EngineSlot<&str> = EngineSlot::empty();
    assert!(!slot.is_ready());
    assert_eq!(slot.install(Err("missing model".to_string())), Err("missing model".to_string()));
    assert!(slot.get().is_none());
    assert_eq!(slot.install(Ok("whisper")), Ok(()));
    assert_eq!(slot.install(Err("corrupt".to_string())), Err("corrupt".to_string()));
    assert_eq!(slot.get(), Some(&"whisper"));
    assert_eq!(slot.install(Ok("parakeet")), Ok(()));
    assert_eq!(slot.get(), Some(&"parakeet"));
    assert!(slot.is_ready());
}
