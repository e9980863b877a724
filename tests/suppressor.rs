use phantomlink::suppressor::{chunk_plan, FrameChunk, Rnnoise, RNNOISE_FRAME_SIZE};

#[test]
fn partial_chunk_passes_through() {
    assert_eq!(
        chunk_plan(1000, 480),
        vec![
            FrameChunk { start: 0, len: 480, denoise: true },
            FrameChunk { start: 480, len: 480, denoise: true },
            FrameChunk { start: 960, len: 40, denoise: false },
        ]
    );
}

#[test]
fn exact_multiple_denoises_everything() {
    let plan = chunk_plan(960, 480);
    assert_eq!(plan.len(), 2);
    assert!(plan.iter().all(|c| c.denoise && c.len == 480));
}

#[test]
fn empty_frame_has_no_chunks() {
    assert!(chunk_plan(0, 480).is_empty());
}

#[test]
fn disabled_suppressor_touches_nothing() {
    let mut r = Rnnoise::new();
    assert!(!r.is_enabled());
    assert!(r.chunk_plan(2048).is_empty());
    r.enable();
    assert!(r.is_enabled());
    assert_eq!(r.chunk_plan(RNNOISE_FRAME_SIZE).len(), 1);
    r.disable();
    assert!(r.chunk_plan(2048).is_empty());
}
