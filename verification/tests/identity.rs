use std::fmt;

use poll_trace::{Level, Trace};

#[derive(Debug)]
struct Gauge {
    reading: u32,
}

struct Unprintable;

struct Opaque;

/// A unit whose rendering reports an error after it has written a part.
struct Faulty;

impl fmt::Debug for Faulty {
    fn fmt(&self, f: &mut fmt::Formatter) -> fmt::Result {
        f.write_str("Faul")?;
        Err(fmt::Error)
    }
}

impl fmt::Debug for Unprintable {
    fn fmt(&self, _: &mut fmt::Formatter) -> fmt::Result {
        panic!("the unit was rendered")
    }
}

#[test]
fn identity_is_the_name_where_one_is_set() {
    let trace = Trace::from(Gauge { reading: 3 }).named("gauge");
    assert_eq!(trace.identity().as_deref(), Some("gauge"));
}

#[test]
fn identity_is_the_rendering_of_the_unit_where_no_name_is_set() {
    let trace = Trace::from(Gauge { reading: 3 });
    assert_eq!(trace.identity().as_deref(), Some("Gauge { reading: 3 }"));
}

#[test]
fn identity_shows_nothing_of_the_wrapper() {
    let unit = Gauge { reading: 8 };
    let rendering = format!("{:?}", unit);
    let trace = Trace::from(unit).at_level(Level::Error);
    assert_eq!(trace.identity(), Some(rendering));
}

#[test]
fn identity_is_what_debug_writes_for_plain_values() {
    assert_eq!(Trace::from(5u8).identity().as_deref(), Some("5"));
    assert_eq!(Trace::from("text").identity().as_deref(), Some("\"text\""));
    assert_eq!(Trace::from((1u8, false)).identity().as_deref(), Some("(1, false)"));
}

#[test]
fn identity_follows_the_unit_as_it_changes() {
    let mut trace = Trace::from(Gauge { reading: 1 });
    assert_eq!(trace.identity().as_deref(), Some("Gauge { reading: 1 }"));
    {
        let (_, _, unit) = trace.enter();
        unit.reading = 2;
    }
    assert_eq!(trace.identity().as_deref(), Some("Gauge { reading: 2 }"));
}

#[test]
fn identity_follows_the_name_as_it_changes() {
    let trace = Trace::from(0u8);
    assert_eq!(trace.identity().as_deref(), Some("0"));
    let trace = trace.named("zero");
    assert_eq!(trace.identity().as_deref(), Some("zero"));
    let trace = trace.named("nought");
    assert_eq!(trace.identity().as_deref(), Some("nought"));
}

#[test]
fn identity_does_not_render_a_named_unit() {
    let trace = Trace::from(Unprintable).named("quiet");
    assert_eq!(trace.identity().as_deref(), Some("quiet"));
}

#[test]
fn identity_with_prefers_the_name() {
    let trace = Trace::from(()).named("name");
    assert_eq!(trace.identity_with("rendering"), "name");
}

#[test]
fn identity_with_falls_back_to_the_rendering() {
    let trace = Trace::from(());
    assert_eq!(trace.identity_with("rendering"), "rendering");
    assert_eq!(trace.identity_with(""), "");
}

#[test]
fn identity_with_needs_no_debug_of_the_unit() {
    let trace = Trace::from(Opaque);
    assert_eq!(trace.identity_with("opaque"), "opaque");
}

#[test]
fn identity_leaves_the_unit_as_it_is() {
    let trace = Trace::from(Gauge { reading: 4 });
    let first = trace.identity();
    let second = trace.identity();
    assert_eq!(first, second);
    assert_eq!(trace.get_ref().reading, 4);
}

#[test]
fn identity_is_none_where_the_rendering_fails() {
    let trace = Trace::from(Faulty);
    assert_eq!(trace.identity(), None);
}

#[test]
fn identity_of_a_named_unit_does_not_depend_on_its_rendering() {
    let trace = Trace::from(Faulty).named("steady");
    assert_eq!(trace.identity().as_deref(), Some("steady"));
}

#[test]
fn enter_logs_a_unit_that_cannot_be_rendered_under_the_mark() {
    let mut trace = Trace::from(Faulty).at_level(Level::Warn);
    let (span, record, _) = trace.enter();
    assert_eq!(span.identity(), "<unrendered>");
    assert_eq!(span.level(), Level::Warn);
    assert_eq!(record.text, "<unrendered>.poll();");
}

#[test]
fn enter_logs_a_named_unit_that_cannot_be_rendered_under_its_name() {
    let mut trace = Trace::from(Faulty).named("steady");
    let (span, record, _) = trace.enter();
    assert_eq!(span.identity(), "steady");
    assert_eq!(record.text, "steady.poll();");
}
