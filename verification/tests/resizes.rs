use window_core::builder::WindowBuilder;
use window_core::frame_buffer::FrameBuffer;
use window_core::geometry::{Length, Size};
use window_core::state::WindowState;
use window_core::window::{Window, WindowId};

fn len(value: f64) -> Length {
    Length::from_bits(value.to_bits())
}

fn num(length: Length) -> f64 {
    f64::from_bits(length.to_bits())
}

/// The test platform's layout rule: generation `n` is an `n` by `n + 1` window
/// of four-byte pixels whose buffer starts at page `n`.
fn generation(n: usize) -> (Size, FrameBuffer) {
    let size = Size::new(len(n as f64), len((n + 1) as f64));
    let region = FrameBuffer::new(0x1000 * n, n * (n + 1) * 4).unwrap();
    (size, region)
}

fn open(n: usize) -> Window {
    let (size, region) = generation(n);
    let state = WindowState::new(size, region, 4).unwrap();
    WindowBuilder::new().build(Ok((WindowId::new(1), state))).unwrap()
}

fn is_a_generation(state: &WindowState) -> bool {
    let n = num(state.size().width) as usize;
    let (size, region) = generation(n);
    state.size() == size && state.frame_buffer() == region
}

#[test]
fn sampled_pairs_are_never_torn() {
    let window = open(1);
    let reader = window.clone();
    for n in 2..2000 {
        let (size, region) = generation(n);
        assert!(window.resize(size, region));
        let state = reader.snapshot();
        assert!(is_a_generation(&state));
        assert_eq!(state.size(), size);
        let sampled = reader.frame_buffer();
        assert_eq!(sampled.base(), 0x1000 * n);
        assert_eq!(sampled.len(), n * (n + 1) * 4);
        assert_eq!(reader.size(), size);
    }
    assert_eq!(num(window.size().width), 1999.0);
}

#[test]
fn a_refused_resize_leaves_the_last_generation() {
    let window = open(5);
    let (size, _) = generation(6);
    let (_, region) = generation(7);
    assert!(!window.resize(size, region));
    assert!(is_a_generation(&window.snapshot()));
    assert_eq!(num(window.size().width), 5.0);
    assert_eq!(window.frame_buffer().base(), 0x5000);
}

#[test]
fn resizes_through_several_handles_all_land() {
    let window = open(1);
    let handles = [window.clone(), window.clone(), window.clone(), window.clone()];
    for i in 0..500usize {
        for (t, handle) in handles.iter().enumerate() {
            let n = 2 + i * 4 + t;
            let (size, region) = generation(n);
            assert!(handle.resize(size, region));
            for reader in handles.iter() {
                assert_eq!(reader.size(), size);
                assert_eq!(reader.frame_buffer(), region);
            }
        }
    }
    assert_eq!(num(window.size().width), 2001.0);
    assert_eq!(window.frame_buffer().len(), 2001 * 2002 * 4);
}

#[test]
fn a_read_after_a_write_does_not_block() {
    let window = open(3);
    for n in 4..200 {
        let (size, region) = generation(n);
        assert!(window.resize(size, region));
        assert_eq!(window.size(), size);
        assert!(window.resize(size, region));
        assert_eq!(window.frame_buffer(), region);
        assert_eq!(window.snapshot().bytes_per_pixel(), 4);
    }
}
