use vst_host::generator::{Generator, BLOCK_SIZE, SAMPLE_RATE};
use vst_host::render::{
    build_render_frame, try_dispatch_block, ChannelSource, INPUT_CHANNELS, OUTPUT_CHANNELS,
};
use vst_host::session::{LifecycleViolation, Session};

fn active_session() -> Session {
    let mut s = Session::new();
    s.on_load(true).unwrap();
    s.on_initialized();
    s.configure(SAMPLE_RATE, BLOCK_SIZE, true).unwrap();
    s.activate();
    s
}

#[test]
fn layout_is_two_live_then_six_silent() {
    let f = build_render_frame(441);
    assert_eq!(f.inputs.len(), INPUT_CHANNELS);
    assert_eq!(f.inputs.len(), 8);
    assert_eq!(f.inputs[0], ChannelSource::LiveBlock);
    assert_eq!(f.inputs[1], ChannelSource::LiveBlock);
    for i in 2..8 {
        assert_eq!(f.inputs[i], ChannelSource::Silence);
    }
    assert_eq!(f.output_channels, OUTPUT_CHANNELS);
    assert_eq!(f.output_channels, 8);
    assert_eq!(f.frame_count, 441);
}

#[test]
fn dispatch_before_active_is_a_violation() {
    let mut s = Session::new();
    s.on_load(true).unwrap();
    let mut g = Generator::new(SAMPLE_RATE, BLOCK_SIZE);
    let b = g.next_block();
    let r = try_dispatch_block(&mut s, &b);
    assert!(matches!(r, Err(LifecycleViolation::NotProcessing)));
    assert_eq!(s.process_calls, 0);
}

#[test]
fn dispatch_with_wrong_frame_count_is_a_violation() {
    let mut s = active_session();
    let mut g = Generator::new(SAMPLE_RATE, 440);
    let short = g.next_block();
    let r = try_dispatch_block(&mut s, &short);
    assert!(matches!(r, Err(LifecycleViolation::FrameCountMismatch)));
    assert_eq!(s.process_calls, 0);
}

#[test]
fn dispatch_when_active_succeeds_and_is_counted() {
    let mut s = active_session();
    let mut g = Generator::new(SAMPLE_RATE, BLOCK_SIZE);
    let b = g.next_block();
    let f = try_dispatch_block(&mut s, &b).unwrap();
    assert_eq!(f.frame_count, 441);
    assert_eq!(f.inputs.len(), 8);
    assert_eq!(s.process_calls, 1);
    let b2 = g.next_block();
    let f2 = try_dispatch_block(&mut s, &b2).unwrap();
    assert_eq!(f2.frame_count, 441);
    assert_eq!(s.process_calls, 2);
}
