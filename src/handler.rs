use vstd::prelude::*;
use crate::winsize::Winsize;

verus! {

/// Receives the events of a proxy session. Every method defaults to doing nothing.
pub trait PtyHandler {
    /// Bytes that the user typed, on their way to the child.
    fn input(&mut self, data: &[u8]) {
    }

    /// A chunk of the child's terminal output, in the order produced.
    fn output(&mut self, data: &[u8]) {
    }

    /// The controlling terminal changed its size.
    fn resize(&mut self, winsize: &Winsize) {
    }

    /// The session ended; called once, after the last output.
    fn shutdown(&mut self) {
    }
}

/// Marks a callback slot of the builder that was never set: calling it does nothing.
#[derive(Clone, Copy, Debug)]
pub struct Ignore;

/// A callback that takes a chunk of bytes.
pub trait BytesCallback {
    spec fn accepts_all(&self) -> bool;

    /// What holds after the callback ran on these arguments.
    spec fn ran_with(&self, data: &[u8]) -> bool;

    fn call_bytes(&self, data: &[u8])
        requires
            self.accepts_all(),
        ensures
            self.ran_with(data),
    ;
}

/// A callback that takes a terminal size.
pub trait SizeCallback {
    spec fn accepts_all(&self) -> bool;

    /// What holds after the callback ran on these arguments.
    spec fn ran_with(&self, size: &Winsize) -> bool;

    fn call_size(&self, size: &Winsize)
        requires
            self.accepts_all(),
        ensures
            self.ran_with(size),
    ;
}

/// A callback that takes no argument.
pub trait EventCallback {
    spec fn accepts_all(&self) -> bool;

    /// What holds after the callback ran on these arguments.
    spec fn ran(&self) -> bool;

    fn call_event(&self)
        requires
            self.accepts_all(),
        ensures
            self.ran(),
    ;
}

impl BytesCallback for Ignore {
    open spec fn accepts_all(&self) -> bool {
        true
    }

    open spec fn ran_with(&self, data: &[u8]) -> bool {
        true
    }

    fn call_bytes(&self, data: &[u8]) {
    }
}

impl SizeCallback for Ignore {
    open spec fn accepts_all(&self) -> bool {
        true
    }

    open spec fn ran_with(&self, size: &Winsize) -> bool {
        true
    }

    fn call_size(&self, size: &Winsize) {
    }
}

impl EventCallback for Ignore {
    open spec fn accepts_all(&self) -> bool {
        true
    }

    open spec fn ran(&self) -> bool {
        true
    }

    fn call_event(&self) {
    }
}

impl<F: Fn(&[u8])> BytesCallback for F {
    open spec fn accepts_all(&self) -> bool {
        forall|d: &[u8]| call_requires(*self, (d,))
    }

    open spec fn ran_with(&self, data: &[u8]) -> bool {
        call_ensures(*self, (data,), ())
    }

    fn call_bytes(&self, data: &[u8]) {
        self(data)
    }
}

impl<F: Fn(&Winsize)> SizeCallback for F {
    open spec fn accepts_all(&self) -> bool {
        forall|w: &Winsize| call_requires(*self, (w,))
    }

    open spec fn ran_with(&self, size: &Winsize) -> bool {
        call_ensures(*self, (size,), ())
    }

    fn call_size(&self, size: &Winsize) {
        self(size)
    }
}

impl<F: Fn()> EventCallback for F {
    open spec fn accepts_all(&self) -> bool {
        call_requires(*self, ())
    }

    open spec fn ran(&self) -> bool {
        call_ensures(*self, (), ())
    }

    fn call_event(&self) {
        self()
    }
}

/// A handler made of one callback per event.
pub struct PtyCallbackData<I: BytesCallback, O: BytesCallback, R: SizeCallback, S: EventCallback> {
    input_handler: I,
    output_handler: O,
    resize_handler: R,
    shutdown_handler: S,
}

impl<I: BytesCallback, O: BytesCallback, R: SizeCallback, S: EventCallback> PtyCallbackData<I, O, R, S> {
    #[verifier::type_invariant]
    spec fn callable(&self) -> bool {
        &&& self.input_handler.accepts_all()
        &&& self.output_handler.accepts_all()
        &&& self.resize_handler.accepts_all()
        &&& self.shutdown_handler.accepts_all()
    }

    /// The callback run on input.
    pub closed spec fn input_callback(&self) -> I {
        self.input_handler
    }

    /// The callback run on output.
    pub closed spec fn output_callback(&self) -> O {
        self.output_handler
    }

    /// The callback run on a resize.
    pub closed spec fn resize_callback(&self) -> R {
        self.resize_handler
    }

    /// The callback run at shutdown.
    pub closed spec fn shutdown_callback(&self) -> S {
        self.shutdown_handler
    }
}

impl<I: BytesCallback, O: BytesCallback, R: SizeCallback, S: EventCallback> PtyHandler for PtyCallbackData<I, O, R, S> {
    fn input(&mut self, data: &[u8])
        ensures
            *final(self) == *old(self),
            old(self).input_callback().ran_with(data),
    {
        proof {
            use_type_invariant(&*self);
        }
        self.input_handler.call_bytes(data);
    }

    fn output(&mut self, data: &[u8])
        ensures
            *final(self) == *old(self),
            old(self).output_callback().ran_with(data),
    {
        proof {
            use_type_invariant(&*self);
        }
        self.output_handler.call_bytes(data);
    }

    fn resize(&mut self, winsize: &Winsize)
        ensures
            *final(self) == *old(self),
            old(self).resize_callback().ran_with(winsize),
    {
        proof {
            use_type_invariant(&*self);
        }
        self.resize_handler.call_size(winsize);
    }

    fn shutdown(&mut self)
        ensures
            *final(self) == *old(self),
            old(self).shutdown_callback().ran(),
    {
        proof {
            use_type_invariant(&*self);
        }
        self.shutdown_handler.call_event();
    }
}

/// Builds a `PtyCallbackData` one callback at a time; unset callbacks do nothing.
pub struct PtyCallbackBuilder<I: BytesCallback, O: BytesCallback, R: SizeCallback, S: EventCallback>(
    PtyCallbackData<I, O, R, S>,
);

/// The builder under its short name.
pub type PtyCallback<I, O, R, S> = PtyCallbackBuilder<I, O, R, S>;

impl PtyCallbackBuilder<Ignore, Ignore, Ignore, Ignore> {
    /// A builder whose four callbacks all do nothing.
    pub fn new() -> (r: Self)
        ensures
            r.data().input_callback() == Ignore,
            r.data().output_callback() == Ignore,
            r.data().resize_callback() == Ignore,
            r.data().shutdown_callback() == Ignore,
    {
        let data = PtyCallbackData {
            input_handler: Ignore,
            output_handler: Ignore,
            resize_handler: Ignore,
            shutdown_handler: Ignore,
        };
        PtyCallbackBuilder(data)
    }
}

impl<I: BytesCallback, O: BytesCallback, R: SizeCallback, S: EventCallback> PtyCallbackBuilder<I, O, R, S> {
    /// The handler built so far.
    pub closed spec fn data(&self) -> PtyCallbackData<I, O, R, S> {
        self.0
    }

    /// Replaces the input callback, keeping the other three.
    pub fn input<F: Fn(&[u8])>(self, handler: F) -> (r: PtyCallbackBuilder<F, O, R, S>)
        requires
            forall|d: &[u8]| call_requires(handler, (d,)),
        ensures
            r.data().input_callback() == handler,
            r.data().output_callback() == self.data().output_callback(),
            r.data().resize_callback() == self.data().resize_callback(),
            r.data().shutdown_callback() == self.data().shutdown_callback(),
    {
        proof {
            use_type_invariant(&self.0);
        }
        let PtyCallbackBuilder(data) = self;
        let PtyCallbackData { input_handler, output_handler, resize_handler, shutdown_handler } = data;
        PtyCallbackBuilder(PtyCallbackData { input_handler: handler, output_handler, resize_handler, shutdown_handler })
    }

    /// Replaces the output callback, keeping the other three.
    pub fn output<F: Fn(&[u8])>(self, handler: F) -> (r: PtyCallbackBuilder<I, F, R, S>)
        requires
            forall|d: &[u8]| call_requires(handler, (d,)),
        ensures
            r.data().input_callback() == self.data().input_callback(),
            r.data().output_callback() == handler,
            r.data().resize_callback() == self.data().resize_callback(),
            r.data().shutdown_callback() == self.data().shutdown_callback(),
    {
        proof {
            use_type_invariant(&self.0);
        }
        let PtyCallbackBuilder(data) = self;
        let PtyCallbackData { input_handler, output_handler, resize_handler, shutdown_handler } = data;
        PtyCallbackBuilder(PtyCallbackData { input_handler, output_handler: handler, resize_handler, shutdown_handler })
    }

    /// Replaces the resize callback, keeping the other three.
    pub fn resize<F: Fn(&Winsize)>(self, handler: F) -> (r: PtyCallbackBuilder<I, O, F, S>)
        requires
            forall|w: &Winsize| call_requires(handler, (w,)),
        ensures
            r.data().input_callback() == self.data().input_callback(),
            r.data().output_callback() == self.data().output_callback(),
            r.data().resize_callback() == handler,
            r.data().shutdown_callback() == self.data().shutdown_callback(),
    {
        proof {
            use_type_invariant(&self.0);
        }
        let PtyCallbackBuilder(data) = self;
        let PtyCallbackData { input_handler, output_handler, resize_handler, shutdown_handler } = data;
        PtyCallbackBuilder(PtyCallbackData { input_handler, output_handler, resize_handler: handler, shutdown_handler })
    }

    /// Replaces the shutdown callback, keeping the other three.
    pub fn shutdown<F: Fn()>(self, handler: F) -> (r: PtyCallbackBuilder<I, O, R, F>)
        requires
            call_requires(handler, ()),
        ensures
            r.data().input_callback() == self.data().input_callback(),
            r.data().output_callback() == self.data().output_callback(),
            r.data().resize_callback() == self.data().resize_callback(),
            r.data().shutdown_callback() == handler,
    {
        proof {
            use_type_invariant(&self.0);
        }
        let PtyCallbackBuilder(data) = self;
        let PtyCallbackData { input_handler, output_handler, resize_handler, shutdown_handler } = data;
        PtyCallbackBuilder(PtyCallbackData { input_handler, output_handler, resize_handler, shutdown_handler: handler })
    }

    /// The handler, with the callbacks set so far.
    pub fn build(self) -> (r: PtyCallbackData<I, O, R, S>)
        ensures
            r == self.data(),
    {
        self.0
    }
}

} // verus!
