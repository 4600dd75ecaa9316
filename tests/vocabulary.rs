use wakascribe::engine::ParakeetEngine;
use wakascribe::engine::ParakeetModelSize;
use wakascribe::error::EngineError;
use wakascribe::vocabulary::Vocabulary;

fn sample_vocab() -> Vocabulary {
    Vocabulary::from_entries(
        vec![
            ("\u{2581}Hello".to_string(), 1),
            ("\u{2581}wor".to_string(), 2),
            ("ld".to_string(), 3),
            ("<blank>".to_string(), 0),
        ],
        0,
    )
}

#[test]
fn decode_joins_pieces_and_trims() {
    let v = sample_vocab();
    assert_eq!(v.decode(&[1, 2, 3]), "Hello world");
    assert_eq!(v.vocab_size(), 4);
    assert_eq!(v.blank_token_id(), 0);
}

#[test]
fn decode_skips_blank_and_unknown_ids() {
    let v = sample_vocab();
    assert_eq!(v.decode(&[0, 1, 0, 0, 2, 3, 0]), v.decode(&[1, 2, 3]));
    assert_eq!(v.decode(&[1, 99, 2, 3]), "Hello world");
    assert_eq!(v.decode(&[]), "");
    assert_eq!(v.decode(&[0, 0]), "");
}

#[test]
fn later_entry_wins_for_an_id() {
    let v = Vocabulary::from_entries(vec![("a".to_string(), 5), ("b".to_string(), 5)], 0);
    assert_eq!(v.vocab_size(), 1);
    assert_eq!(v.decode(&[5]), "b");
}

#[test]
fn json_vocabulary_inverts_and_uses_blank_8192() {
    let v = Vocabulary::from_json("{\"\u{2581}the\": 7, \"cat\": 9}").unwrap();
    assert_eq!(v.blank_token_id(), 8192);
    assert_eq!(v.vocab_size(), 2);
    assert_eq!(v.decode(&[7, 8192, 9]), "thecat");
}

#[test]
fn malformed_json_is_a_vocabulary_error() {
    match Vocabulary::from_json("[1, 2") {
        Err(EngineError::VocabularyError(msg)) => {
            assert!(msg.starts_with("Failed to parse vocab JSON: "))
        }
        _ => panic!("expected a vocabulary error"),
    }
    assert!(matches!(
        Vocabulary::from_json("{\"a\": -1}"),
        Err(EngineError::VocabularyError(_))
    ));
}

#[test]
fn line_vocabulary_numbers_lines_from_zero() {
    let v = Vocabulary::from_lines("<blk>\r\n\u{2581}hi \n there\n").unwrap();
    assert_eq!(v.blank_token_id(), 0);
    assert_eq!(v.vocab_size(), 3);
    assert_eq!(v.decode(&[1, 2]), "hithere");
    assert_eq!(v.decode(&[0, 1, 0]), "hi");
    let empty = Vocabulary::from_lines("").unwrap();
    assert_eq!(empty.vocab_size(), 0);
}

#[test]
fn parakeet_engine_decodes_with_its_table() {
    let e = ParakeetEngine::new("<blk>\n\u{2581}good\n\u{2581}day\n", ParakeetModelSize::Tdt06bV3)
        .unwrap();
    assert_eq!(e.blank_id(), 0);
    assert_eq!(e.decode_tokens(&[1, 0, 2]), "good day");
    assert_eq!(e.name(), "Parakeet");
    assert_eq!(e.model_display_name(), "Parakeet Parakeet TDT 0.6B v3");
    assert_eq!(ParakeetModelSize::Tdt06bV3.model_name(), "parakeet-tdt-0.6b-v3");
    assert_eq!(ParakeetModelSize::default().display_name(), "Parakeet TDT 0.6B v3");
}
