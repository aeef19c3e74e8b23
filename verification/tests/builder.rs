use window_core::builder::WindowBuilder;
use window_core::geometry::{Length, Size};

fn len(value: f64) -> Length {
    Length::from_bits(value.to_bits())
}

fn num(length: Length) -> f64 {
    f64::from_bits(length.to_bits())
}

#[test]
fn default_builder_is_800_by_600() {
    let builder = WindowBuilder::new();
    assert_eq!(num(builder.size().width), 800.0);
    assert_eq!(num(builder.size().height), 600.0);
}

#[test]
fn with_width_keeps_height() {
    let builder = WindowBuilder::new().with_width(len(1280.0));
    assert_eq!(num(builder.size().width), 1280.0);
    assert_eq!(num(builder.size().height), 600.0);
}

#[test]
fn with_height_keeps_width() {
    let builder = WindowBuilder::new().with_height(len(720.5));
    assert_eq!(num(builder.size().width), 800.0);
    assert_eq!(num(builder.size().height), 720.5);
}

#[test]
fn with_size_sets_both() {
    let builder = WindowBuilder::new().with_size(len(1024.0), len(768.0));
    assert_eq!(builder.size(), Size::new(len(1024.0), len(768.0)));
}

#[test]
fn setters_leave_the_builder_as_it_was() {
    let builder = WindowBuilder::new().with_size(len(10.0), len(20.0));
    let resized = builder.with_size(len(320.0), len(200.0));
    assert_eq!(builder.size(), Size::new(len(10.0), len(20.0)));
    assert_eq!(resized.size(), Size::new(len(320.0), len(200.0)));
    let wider = builder.with_width(len(640.0));
    assert_eq!(builder.size(), Size::new(len(10.0), len(20.0)));
    assert_eq!(wider.size(), Size::new(len(640.0), len(20.0)));
    let taller = builder.with_height(len(480.0));
    assert_eq!(builder.size(), Size::new(len(10.0), len(20.0)));
    assert_eq!(taller.size(), Size::new(len(10.0), len(480.0)));
}

#[test]
fn repeating_an_update_changes_nothing() {
    let cases = [(1024.0, 768.0), (0.0, 0.0), (-5.0, 3.25), (f64::INFINITY, f64::MIN_POSITIVE)];
    for (w, h) in cases {
        let once = WindowBuilder::new().with_size(len(w), len(h));
        let again = WindowBuilder::new().with_size(len(w), len(h)).with_width(len(w)).with_height(len(h));
        assert_eq!(once, again);
    }
}

#[test]
fn repeating_an_update_changes_nothing_for_not_a_number() {
    let nan = len(f64::NAN);
    let once = WindowBuilder::new().with_size(nan, nan);
    let again = WindowBuilder::new().with_size(nan, nan).with_width(nan).with_height(nan);
    assert_eq!(once, again);
}

#[test]
fn builder_accepts_any_dimension() {
    let builder = WindowBuilder::new().with_size(len(-1.0), len(f64::NEG_INFINITY));
    assert_eq!(num(builder.size().width), -1.0);
    assert_eq!(num(builder.size().height), f64::NEG_INFINITY);
    assert!(!builder.size().is_live());
}

#[test]
fn builder_is_reusable() {
    let builder = WindowBuilder::new().with_size(len(10.0), len(20.0));
    let copy = builder;
    assert_eq!(copy, builder);
}
