use wakascribe::streaming::{StreamingBuffer, StreamingConfig};

fn ramp(n: usize) -> Vec<f32> {
    (0..n).map(|i| i as f32).collect()
}

#[test]
fn test_streaming_buffer_chunk_extraction() {
    let config = StreamingConfig {
        chunk_duration_ms: 1000,
        overlap_ms: 200,
        sample_rate: 16000,
    };

    let mut buffer: StreamingBuffer<f32> = StreamingBuffer::new(config);

    // Add 2 seconds of audio (32000 samples)
    buffer.append(&vec![0.0f32; 32000]);

    // Should be able to extract first chunk
    assert!(buffer.has_chunk_available());
    let chunk1 = buffer.extract_chunk();
    assert!(chunk1.is_some());
    assert_eq!(chunk1.unwrap().len(), 16000); // 1 second

    // Should be able to extract second chunk
    assert!(buffer.has_chunk_available());
    let chunk2 = buffer.extract_chunk();
    assert!(chunk2.is_some());
}

#[test]
fn test_accumulated_text() {
    let config = StreamingConfig::default();
    let mut buffer: StreamingBuffer<f32> = StreamingBuffer::new(config);

    buffer.append_text("Hello");
    buffer.append_text("world");
    buffer.append_text("test");

    assert_eq!(buffer.get_accumulated_text(), "Hello world test");
}

#[test]
fn second_chunk_restarts_before_cursor() {
    let config = StreamingConfig { chunk_duration_ms: 1000, overlap_ms: 200, sample_rate: 16000 };
    let mut buffer: StreamingBuffer<f32> = StreamingBuffer::new(config);
    buffer.append(&ramp(32000));

    let first = buffer.extract_chunk().unwrap();
    assert_eq!(first.len(), 16000);
    assert_eq!(first[0], 0.0);
    assert_eq!(first[15999], 15999.0);
    assert_eq!(buffer.processed_samples(), 12800);

    assert!(buffer.has_chunk_available());
    let second = buffer.extract_chunk().unwrap();
    assert_eq!(second.len(), 16000);
    // the window restarts one overlap before the cursor
    assert_eq!(second[0], 9600.0);
    assert_eq!(second[15999], 25599.0);
    assert_eq!(buffer.processed_samples(), 22400);
}

#[test]
fn no_chunk_leaves_cursor_in_place() {
    let config = StreamingConfig { chunk_duration_ms: 1000, overlap_ms: 200, sample_rate: 16000 };
    let mut buffer: StreamingBuffer<f32> = StreamingBuffer::new(config);
    buffer.append(&ramp(15999));
    assert!(!buffer.has_chunk_available());
    assert!(buffer.extract_chunk().is_none());
    assert_eq!(buffer.processed_samples(), 0);
    assert_eq!(buffer.buffer_len(), 15999);

    buffer.append(&[1.0f32]);
    assert!(buffer.has_chunk_available());
    let chunk = buffer.extract_chunk().unwrap();
    assert_eq!(chunk[0], 0.0);
    assert_eq!(buffer.processed_samples(), 12800);
}

#[test]
fn overlap_can_complete_a_window() {
    // After one window the cursor is at 12800; with 28000 samples less than a
    // window lies past it, yet the next window [9600, 25600) is all there.
    let config = StreamingConfig { chunk_duration_ms: 1000, overlap_ms: 200, sample_rate: 16000 };
    let mut buffer: StreamingBuffer<f32> = StreamingBuffer::new(config);
    buffer.append(&ramp(28000));
    buffer.extract_chunk().unwrap();
    assert!(!buffer.has_chunk_available());
    let chunk = buffer.extract_chunk().unwrap();
    assert_eq!(chunk[0], 9600.0);
    assert_eq!(chunk.len(), 16000);
}

#[test]
fn remaining_includes_overlap_tail() {
    let config = StreamingConfig { chunk_duration_ms: 1000, overlap_ms: 200, sample_rate: 16000 };
    let mut buffer: StreamingBuffer<f32> = StreamingBuffer::new(config);
    buffer.append(&ramp(20000));
    assert_eq!(buffer.get_remaining().len(), 20000);
    buffer.extract_chunk().unwrap();
    let rest = buffer.get_remaining();
    assert_eq!(rest.len(), 20000 - 9600);
    assert_eq!(rest[0], 9600.0);
    assert_eq!(buffer.get_all_audio().len(), 20000);
}

#[test]
fn clear_resets_everything() {
    let config = StreamingConfig { chunk_duration_ms: 1000, overlap_ms: 200, sample_rate: 16000 };
    let mut buffer: StreamingBuffer<f32> = StreamingBuffer::new(config);
    buffer.append(&ramp(20000));
    buffer.extract_chunk().unwrap();
    buffer.append_text("bonjour");
    buffer.clear();
    assert_eq!(buffer.buffer_len(), 0);
    assert_eq!(buffer.processed_samples(), 0);
    assert_eq!(buffer.get_accumulated_text(), "");
    assert!(buffer.extract_chunk().is_none());
}

#[test]
fn default_config_windows() {
    let config = StreamingConfig::default();
    assert_eq!(config.chunk_samples(), 40000);
    assert_eq!(config.overlap_samples(), 8000);
    let odd = StreamingConfig { chunk_duration_ms: 1, overlap_ms: 0, sample_rate: 44100 };
    assert_eq!(odd.chunk_samples(), 44);
    let half = StreamingConfig { chunk_duration_ms: 10, overlap_ms: 0, sample_rate: 50 };
    assert_eq!(half.chunk_samples(), 1);
}

#[test]
fn append_text_trims_and_separates() {
    let mut buffer: StreamingBuffer<i16> = StreamingBuffer::new(StreamingConfig::default());
    buffer.append_text("  Hello \n");
    assert_eq!(buffer.get_accumulated_text(), "Hello");
    buffer.append_text("");
    assert_eq!(buffer.get_accumulated_text(), "Hello");
    buffer.append_text("\tthere ");
    assert_eq!(buffer.get_accumulated_text(), "Hello there");
}

#[test]
fn blank_fragment_adds_no_space() {
    let mut buffer: StreamingBuffer<f32> = StreamingBuffer::new(StreamingConfig::default());
    buffer.append_text("a");
    buffer.append_text(" ");
    assert_eq!(buffer.get_accumulated_text(), "a");
    buffer.append_text("b");
    assert_eq!(buffer.get_accumulated_text(), "a b");
    buffer.append_text(" \t\n");
    buffer.append_text("c");
    assert_eq!(buffer.get_accumulated_text(), "a b c");
}

#[test]
fn wide_overlap_never_moves_cursor_back() {
    // 1000 ms windows overlapping by 600 ms at 1 kHz
    let config = StreamingConfig { chunk_duration_ms: 1000, overlap_ms: 600, sample_rate: 1000 };
    let mut buffer: StreamingBuffer<f32> = StreamingBuffer::new(config);
    buffer.append(&ramp(3000));
    let first = buffer.extract_chunk().unwrap();
    assert_eq!(first[0], 0.0);
    assert_eq!(buffer.processed_samples(), 400);
    let second = buffer.extract_chunk().unwrap();
    assert_eq!(second[0], 0.0);
    assert_eq!(buffer.processed_samples(), 400);
}
