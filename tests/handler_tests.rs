use pty_shell::{PtyCallback, PtyCallbackBuilder, PtyHandler, Winsize};
use std::cell::{Cell, RefCell};

struct Silent;
impl PtyHandler for Silent {}

#[test]
fn default_handler_methods_do_nothing() {
    let mut h = Silent;
    h.input(b"a");
    h.output(b"b");
    h.resize(&Winsize::new(1, 2, 3, 4));
    h.shutdown();
}

#[test]
fn builder_without_callbacks_ignores_events() {
    let mut data = PtyCallbackBuilder::new().build();
    data.input(b"abc");
    data.output(b"abc");
    data.resize(&Winsize::new(24, 80, 0, 0));
    data.shutdown();
}

#[test]
fn builder_forwards_each_event_to_its_callback() {
    let inputs = RefCell::new(Vec::new());
    let outputs = RefCell::new(Vec::new());
    let sizes = RefCell::new(Vec::new());
    let shutdowns = Cell::new(0u32);
    let mut data = PtyCallback::new()
        .input(|d: &[u8]| inputs.borrow_mut().extend_from_slice(d))
        .output(|d: &[u8]| outputs.borrow_mut().extend_from_slice(d))
        .resize(|w: &Winsize| sizes.borrow_mut().push(*w))
        .shutdown(|| shutdowns.set(shutdowns.get() + 1))
        .build();
    data.input(b"ls\n");
    data.output(b"file");
    data.output(b"s\n");
    data.resize(&Winsize::new(50, 132, 640, 480));
    data.shutdown();
    drop(data);
    assert_eq!(inputs.into_inner(), b"ls\n".to_vec());
    assert_eq!(outputs.into_inner(), b"files\n".to_vec());
    assert_eq!(sizes.into_inner(), vec![Winsize::new(50, 132, 640, 480)]);
    assert_eq!(shutdowns.get(), 1);
}

#[test]
fn builder_keeps_last_callback_set() {
    let first = Cell::new(0u32);
    let second = Cell::new(0u32);
    let mut data = PtyCallback::new()
        .output(|_d: &[u8]| first.set(first.get() + 1))
        .output(|_d: &[u8]| second.set(second.get() + 1))
        .build();
    data.output(b"x");
    assert_eq!(first.get(), 0);
    assert_eq!(second.get(), 1);
}

#[test]
fn output_callback_sees_nonempty_data() {
    let mut data = PtyCallback::new().output(|data: &[u8]| assert!(data.len() != 0)).build();
    data.output(b"/home\n");
}

#[test]
fn winsize_keeps_its_fields() {
    let w = Winsize::new(24, 80, 800, 600);
    assert_eq!(w.rows, 24);
    assert_eq!(w.columns, 80);
    assert_eq!(w.pixel_width, 800);
    assert_eq!(w.pixel_height, 600);
}
