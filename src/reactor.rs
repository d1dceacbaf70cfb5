use vstd::prelude::*;
use crate::handler::PtyHandler;
use crate::pump::OutputPump;
use crate::winsize::Winsize;

verus! {

/// One call made on the session's handler.
pub enum HandlerCall {
    Input(Seq<u8>),
    Output(Seq<u8>),
    Resize(Winsize),
    Shutdown,
}

/// The bytes that a log of calls passed to `output`, in order.
pub open spec fn output_of(calls: Seq<HandlerCall>) -> Seq<u8>
    decreases calls.len(),
{
    if calls.len() == 0 {
        Seq::empty()
    } else {
        let rest = output_of(calls.drop_last());
        match calls.last() {
            HandlerCall::Output(d) => rest + d,
            _ => rest,
        }
    }
}

/// How many calls of a log are `shutdown`.
pub open spec fn shutdowns_in(calls: Seq<HandlerCall>) -> nat
    decreases calls.len(),
{
    if calls.len() == 0 {
        0
    } else {
        shutdowns_in(calls.drop_last()) + if calls.last() is Shutdown {
            1nat
        } else {
            0nat
        }
    }
}

/// No call of the log passes `output` an empty chunk.
pub open spec fn no_empty_output(calls: Seq<HandlerCall>) -> bool {
    forall|i: int| 0 <= i < calls.len() ==> (#[trigger] calls[i] matches HandlerCall::Output(d) ==> d.len() > 0)
}

/// Appending a call adds its bytes, if it is an output, to the log's output.
pub proof fn lemma_output_push(calls: Seq<HandlerCall>, c: HandlerCall)
    ensures
        output_of(calls.push(c)) == match c {
            HandlerCall::Output(d) => output_of(calls) + d,
            _ => output_of(calls),
        },
        shutdowns_in(calls.push(c)) == shutdowns_in(calls) + if c is Shutdown {
            1nat
        } else {
            0nat
        },
{
    assert(calls.push(c).drop_last() =~= calls);
}

/// What the session's reactor is woken for.
pub enum Event {
    /// Bytes from the input pipe.
    Input(Vec<u8>),
    /// Bytes read from the output pipe.
    Output(Vec<u8>),
    /// A resize signal arrived; the terminal's size queried after it, or
    /// `None` where that query failed.
    Resize(Option<Winsize>),
    /// The output pump ended; the bytes still in the output pipe come along.
    Shutdown(Vec<u8>),
}

/// One call to make on the session's handler, with its exact argument.
pub enum HandlerAction {
    Input(Vec<u8>),
    Output(Vec<u8>),
    Resize(Winsize),
    Shutdown,
}

impl HandlerAction {
    /// The call this action makes.
    pub open spec fn view(&self) -> HandlerCall {
        match self {
            HandlerAction::Input(d) => HandlerCall::Input(d@),
            HandlerAction::Output(d) => HandlerCall::Output(d@),
            HandlerAction::Resize(w) => HandlerCall::Resize(*w),
            HandlerAction::Shutdown => HandlerCall::Shutdown,
        }
    }
}

/// The calls that a list of actions makes, in order.
pub open spec fn calls_of(actions: Seq<HandlerAction>) -> Seq<HandlerCall> {
    actions.map_values(|a: HandlerAction| a.view())
}

proof fn lemma_calls_of_push(start: Seq<HandlerCall>, actions: Seq<HandlerAction>, a: HandlerAction)
    ensures
        start + calls_of(actions.push(a)) == (start + calls_of(actions)).push(a.view()),
{
    assert(calls_of(actions.push(a)) =~= calls_of(actions).push(a.view()));
    assert(start + calls_of(actions).push(a.view()) =~= (start + calls_of(actions)).push(a.view()));
}

/// The decisions of the session's reactor: which handler calls each event
/// leads to, with a log of every call decided so far.
pub struct Dispatcher {
    running: bool,
    calls: Ghost<Seq<HandlerCall>>,
    received: Ghost<Seq<u8>>,
}

impl Dispatcher {
    /// The handler calls decided so far.
    pub closed spec fn calls(&self) -> Seq<HandlerCall> {
        self.calls@
    }

    /// The output bytes that reached the reactor while it was running.
    pub closed spec fn received(&self) -> Seq<u8> {
        self.received@
    }

    /// Is the session still running?
    pub closed spec fn running(&self) -> bool {
        self.running
    }

    /// While running, no shutdown was decided; after, exactly one was, and it
    /// was the last call. All output received goes to the handler, in
    /// non-empty chunks.
    pub open spec fn wf(&self) -> bool {
        &&& self.running() ==> shutdowns_in(self.calls()) == 0
        &&& !self.running() ==> shutdowns_in(self.calls()) == 1 && self.calls().len() > 0
            && self.calls().last() is Shutdown
        &&& output_of(self.calls()) == self.received()
        &&& no_empty_output(self.calls())
    }

    /// A running session in which nothing was decided yet.
    pub fn new() -> (r: Self)
        ensures
            r.wf(),
            r.running(),
            r.calls() == Seq::<HandlerCall>::empty(),
            r.received() == Seq::<u8>::empty(),
    {
        Dispatcher { running: true, calls: Ghost(Seq::empty()), received: Ghost(Seq::empty()) }
    }

    /// Is the session still running?
    pub fn is_running(&self) -> (r: bool)
        ensures
            r == self.running(),
    {
        self.running
    }

    fn emit(&mut self, out: &mut Vec<HandlerAction>, a: HandlerAction, Ghost(start): Ghost<Seq<HandlerCall>>)
        requires
            old(self).calls() == start + calls_of(old(out)@),
        ensures
            final(out)@ == old(out)@.push(a),
            final(self).calls() == old(self).calls().push(a.view()),
            final(self).calls() == start + calls_of(final(out)@),
            final(self).running() == old(self).running(),
            final(self).received() == old(self).received(),
            output_of(final(self).calls()) == match a.view() {
                HandlerCall::Output(d) => output_of(old(self).calls()) + d,
                _ => output_of(old(self).calls()),
            },
            shutdowns_in(final(self).calls()) == shutdowns_in(old(self).calls()) + if a is Shutdown {
                1nat
            } else {
                0nat
            },
            no_empty_output(old(self).calls()) && !(a.view() matches HandlerCall::Output(d) && d.len() == 0)
                ==> no_empty_output(final(self).calls()),
    {
        proof {
            let c = self.calls@;
            let v = a.view();
            lemma_calls_of_push(start, out@, a);
            lemma_output_push(c, v);
            if no_empty_output(c) && !(v matches HandlerCall::Output(d) && d.len() == 0) {
                assert forall|i: int| 0 <= i < c.len() + 1 implies (#[trigger] c.push(v)[i] matches HandlerCall::Output(d) ==> d.len() > 0) by {
                    if i < c.len() {
                        assert(c.push(v)[i] == c[i]);
                    }
                }
            }
            self.calls@ = c.push(v);
        }
        out.push(a);
    }

    /// Decides the handler calls for one event. While running: input goes to
    /// `input`, non-empty output to `output`, a resize whose size was read to
    /// `resize`, and shutdown delivers the remaining output, then `shutdown`,
    /// and stops the session. Once stopped, nothing is called.
    pub fn decide(&mut self, event: Event) -> (r: Vec<HandlerAction>)
        requires
            old(self).wf(),
        ensures
            final(self).wf(),
            final(self).calls() == old(self).calls() + calls_of(r@),
            !old(self).running() ==> r@.len() == 0 && !final(self).running()
                && final(self).received() == old(self).received(),
            old(self).running() ==> match event {
                Event::Input(d) => final(self).running() && final(self).received() == old(self).received()
                    && calls_of(r@) == seq![HandlerCall::Input(d@)],
                Event::Output(d) => final(self).running() && final(self).received() == old(self).received() + d@
                    && calls_of(r@) == if d@.len() == 0 {
                        Seq::<HandlerCall>::empty()
                    } else {
                        seq![HandlerCall::Output(d@)]
                    },
                Event::Resize(w) => final(self).running() && final(self).received() == old(self).received()
                    && calls_of(r@) == match w {
                        Some(size) => seq![HandlerCall::Resize(size)],
                        None => Seq::<HandlerCall>::empty(),
                    },
                Event::Shutdown(d) => !final(self).running() && final(self).received() == old(self).received() + d@
                    && calls_of(r@) == if d@.len() == 0 {
                        seq![HandlerCall::Shutdown]
                    } else {
                        seq![HandlerCall::Output(d@), HandlerCall::Shutdown]
                    },
            },
    {
        let mut out: Vec<HandlerAction> = Vec::new();
        let ghost start = self.calls@;
        proof {
            assert(calls_of(out@) =~= Seq::<HandlerCall>::empty());
            assert(start + calls_of(out@) =~= start);
        }
        if !self.running {
            return out;
        }
        match event {
            Event::Input(d) => {
                self.emit(&mut out, HandlerAction::Input(d), Ghost(start));
            },
            Event::Output(d) => {
                let ghost bytes = d@;
                if d.len() > 0 {
                    self.emit(&mut out, HandlerAction::Output(d), Ghost(start));
                }
                proof {
                    if bytes.len() == 0 {
                        assert(self.received@ + bytes =~= self.received@);
                    }
                    self.received@ = self.received@ + bytes;
                }
            },
            Event::Resize(w) => {
                match w {
                    Some(size) => {
                        self.emit(&mut out, HandlerAction::Resize(size), Ghost(start));
                    },
                    None => {},
                }
            },
            Event::Shutdown(d) => {
                let ghost bytes = d@;
                if d.len() > 0 {
                    self.emit(&mut out, HandlerAction::Output(d), Ghost(start));
                }
                proof {
                    if bytes.len() == 0 {
                        assert(self.received@ + bytes =~= self.received@);
                    }
                    self.received@ = self.received@ + bytes;
                }
                self.emit(&mut out, HandlerAction::Shutdown, Ghost(start));
                self.running = false;
            },
        }
        proof {
            assert(calls_of(out@) =~= self.calls@.subrange(start.len() as int, self.calls@.len() as int));
        }
        out
    }
}

/// Makes the calls of `actions` on `handler`, in order, each with the
/// argument that the action holds.
pub fn perform<H: PtyHandler>(handler: &mut H, actions: &Vec<HandlerAction>) {
    let mut i: usize = 0;
    while i < actions.len()
        invariant
            i <= actions@.len(),
        decreases actions@.len() - i,
    {
        match &actions[i] {
            HandlerAction::Input(d) => handler.input(d.as_slice()),
            HandlerAction::Output(d) => handler.output(d.as_slice()),
            HandlerAction::Resize(w) => handler.resize(w),
            HandlerAction::Shutdown => handler.shutdown(),
        }
        i = i + 1;
    }
}

/// Runs a session's handler: decides the calls for each event, then makes them.
pub struct ProxyReactor<H: PtyHandler> {
    handler: H,
    dispatcher: Dispatcher,
}

impl<H: PtyHandler> ProxyReactor<H> {
    /// The decisions made so far.
    pub closed spec fn dispatcher(&self) -> Dispatcher {
        self.dispatcher
    }

    /// A running reactor over `handler`, which nothing has called yet.
    pub fn new(handler: H) -> (r: Self)
        ensures
            r.dispatcher().wf(),
            r.dispatcher().running(),
            r.dispatcher().calls() == Seq::<HandlerCall>::empty(),
    {
        ProxyReactor { handler, dispatcher: Dispatcher::new() }
    }

    /// Is the session still running?
    pub fn is_running(&self) -> (r: bool)
        ensures
            r == self.dispatcher().running(),
    {
        self.dispatcher.is_running()
    }

    /// Hands one event to the handler: the calls that `Dispatcher::decide`
    /// returns are made by `perform`. Returns whether the session still runs,
    /// and the calls made.
    pub fn dispatch(&mut self, event: Event) -> (r: Vec<HandlerAction>)
        requires
            old(self).dispatcher().wf(),
        ensures
            final(self).dispatcher().wf(),
            final(self).dispatcher().calls() == old(self).dispatcher().calls() + calls_of(r@),
            final(self).dispatcher().received() == old(self).dispatcher().received() + match event {
                Event::Output(d) => if old(self).dispatcher().running() { d@ } else { Seq::empty() },
                Event::Shutdown(d) => if old(self).dispatcher().running() { d@ } else { Seq::empty() },
                _ => Seq::<u8>::empty(),
            },
            !old(self).dispatcher().running() ==> r@.len() == 0 && !final(self).dispatcher().running(),
            old(self).dispatcher().running() ==> (final(self).dispatcher().running() <==> !(event is Shutdown)),
    {
        let ghost ev = event;
        let actions = self.dispatcher.decide(event);
        proof {
            if !old(self).dispatcher.running {
                assert(self.dispatcher.received@ =~= old(self).dispatcher.received@ + Seq::<u8>::empty());
            } else {
                match ev {
                    Event::Output(_) => {},
                    Event::Shutdown(_) => {},
                    _ => {
                        assert(self.dispatcher.received@ =~= old(self).dispatcher.received@ + Seq::<u8>::empty());
                    },
                }
            }
        }
        perform(&mut self.handler, &actions);
        actions
    }
}

/// The bytes decided for the handler's `output` are exactly the bytes that
/// the pump read from the child, in order, when the pipe between them hands
/// on what the pump forwarded; no chunk is empty.
pub proof fn lemma_output_relayed(pump: OutputPump, d: Dispatcher)
    requires
        pump.wf(),
        d.wf(),
        d.received() == pump.forwarded(),
    ensures
        output_of(d.calls()) == pump.read_bytes(),
        no_empty_output(d.calls()),
{
}

/// Once the session has stopped, `shutdown` was decided exactly once, as the
/// last call, and every byte of output received came before it.
pub proof fn lemma_shutdown_once_after_output(d: Dispatcher)
    requires
        d.wf(),
        !d.running(),
    ensures
        shutdowns_in(d.calls()) == 1,
        d.calls().last() is Shutdown,
        shutdowns_in(d.calls().drop_last()) == 0,
        output_of(d.calls().drop_last()) == d.received(),
{
}

} // verus!
