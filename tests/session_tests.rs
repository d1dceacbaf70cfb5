use pty_shell::pump::{EndReason, OutputPump, PumpAction, ReadOutcome, READ_CHUNK};
use pty_shell::reactor::{Dispatcher, Event, HandlerAction, ProxyReactor};
use pty_shell::session::{next_phase, step_for_end, SessionPhase, SessionStep};
use pty_shell::shell::{role_of, Role};
use pty_shell::{PtyHandler, Winsize};

#[derive(Debug, PartialEq)]
enum Call {
    Input(Vec<u8>),
    Output(Vec<u8>),
    Resize(Winsize),
    Shutdown,
}

#[derive(Default)]
struct Recorder {
    calls: Vec<Call>,
}

impl PtyHandler for Recorder {
    fn input(&mut self, data: &[u8]) {
        self.calls.push(Call::Input(data.to_vec()));
    }
    fn output(&mut self, data: &[u8]) {
        assert!(data.len() != 0);
        self.calls.push(Call::Output(data.to_vec()));
    }
    fn resize(&mut self, winsize: &Winsize) {
        self.calls.push(Call::Resize(*winsize));
    }
    fn shutdown(&mut self) {
        self.calls.push(Call::Shutdown);
    }
}

struct Shared<'a>(&'a std::cell::RefCell<Vec<Call>>);

impl PtyHandler for Shared<'_> {
    fn output(&mut self, data: &[u8]) {
        self.0.borrow_mut().push(Call::Output(data.to_vec()));
    }
    fn resize(&mut self, winsize: &Winsize) {
        self.0.borrow_mut().push(Call::Resize(*winsize));
    }
    fn shutdown(&mut self) {
        self.0.borrow_mut().push(Call::Shutdown);
    }
}

#[test]
fn reactor_delivers_output_in_order_then_shuts_down_once() {
    let log = std::cell::RefCell::new(Vec::new());
    let mut r = ProxyReactor::new(Shared(&log));
    assert!(r.is_running());
    r.dispatch(Event::Output(b"hel".to_vec()));
    assert!(r.is_running());
    r.dispatch(Event::Output(Vec::new()));
    assert!(r.is_running());
    r.dispatch(Event::Output(b"lo".to_vec()));
    assert!(r.is_running());
    r.dispatch(Event::Shutdown(b"\n".to_vec()));
    assert!(!r.is_running());
    r.dispatch(Event::Shutdown(Vec::new()));
    assert!(!r.is_running());
    r.dispatch(Event::Output(b"late".to_vec()));
    assert!(!r.is_running());
    assert!(!r.is_running());
    let calls = log.into_inner();
    assert_eq!(
        calls,
        vec![
            Call::Output(b"hel".to_vec()),
            Call::Output(b"lo".to_vec()),
            Call::Output(b"\n".to_vec()),
            Call::Shutdown
        ]
    );
}

#[test]
fn reactor_forwards_one_resize_per_signal() {
    let log = std::cell::RefCell::new(Vec::new());
    let mut r = ProxyReactor::new(Shared(&log));
    let w = Winsize::new(40, 100, 0, 0);
    r.dispatch(Event::Resize(Some(w)));
    assert!(r.is_running());
    r.dispatch(Event::Shutdown(Vec::new()));
    assert!(!r.is_running());
    r.dispatch(Event::Resize(Some(Winsize::new(1, 1, 0, 0))));
    assert!(!r.is_running());
    assert_eq!(log.into_inner(), vec![Call::Resize(w), Call::Shutdown]);
}

#[test]
fn reactor_forwards_input() {
    let mut r = ProxyReactor::new(Recorder::default());
    r.dispatch(Event::Input(b"q".to_vec()));
    assert!(r.is_running());
    r.dispatch(Event::Shutdown(Vec::new()));
    assert!(!r.is_running());
}

#[test]
fn pump_forwards_reads_and_ends_on_empty_read() {
    let mut p = OutputPump::new();
    match p.on_read(ReadOutcome::Bytes(b"abc".to_vec())) {
        PumpAction::Forward(b) => assert_eq!(b, b"abc".to_vec()),
        _ => panic!("expected a forward"),
    }
    assert!(matches!(p.on_written(3, Some(3)), PumpAction::Read));
    assert!(matches!(p.on_read(ReadOutcome::Bytes(Vec::new())), PumpAction::Finish(EndReason::Closed)));
    assert!(p.is_ended());
    assert!(matches!(p.on_read(ReadOutcome::Bytes(b"x".to_vec())), PumpAction::Stop));
    assert!(matches!(p.on_written(1, Some(1)), PumpAction::Stop));
}

#[test]
fn pump_ends_on_read_failure() {
    let mut p = OutputPump::new();
    assert!(matches!(p.on_read(ReadOutcome::Failed), PumpAction::Finish(EndReason::ReadFailed)));
    assert!(matches!(p.on_read(ReadOutcome::Failed), PumpAction::Stop));
}

#[test]
fn pump_ends_on_short_or_failed_write() {
    let mut p = OutputPump::new();
    assert!(matches!(p.on_written(5, Some(4)), PumpAction::Finish(EndReason::WriteFailed)));
    let mut q = OutputPump::new();
    assert!(matches!(q.on_written(5, None), PumpAction::Finish(EndReason::WriteFailed)));
    assert!(!OutputPump::new().is_ended());
    assert_eq!(READ_CHUNK, 10240);
}

#[test]
fn session_phases_follow_the_lifecycle() {
    assert_eq!(next_phase(SessionPhase::Created, SessionStep::RawApplied), Some(SessionPhase::RawModeApplied));
    assert_eq!(next_phase(SessionPhase::RawModeApplied, SessionStep::Registered), Some(SessionPhase::Running));
    assert_eq!(next_phase(SessionPhase::Running, SessionStep::ShutdownSignal), Some(SessionPhase::ShuttingDown));
    assert_eq!(next_phase(SessionPhase::ShuttingDown, SessionStep::Restored), Some(SessionPhase::Terminated));
    assert_eq!(next_phase(SessionPhase::Running, SessionStep::Restored), None);
    assert_eq!(next_phase(SessionPhase::RawModeApplied, SessionStep::Failed), Some(SessionPhase::ShuttingDown));
    assert_eq!(next_phase(SessionPhase::Created, SessionStep::Failed), Some(SessionPhase::Terminated));
    assert_eq!(next_phase(SessionPhase::Terminated, SessionStep::Restored), None);
}

#[test]
fn role_follows_the_process_id() {
    assert_eq!(role_of(0), Role::Child);
    assert_eq!(role_of(4242), Role::Parent);
    assert_eq!(role_of(-1), Role::Parent);
}

#[test]
fn pump_and_reactor_relay_every_byte_then_one_shutdown() {
    let reads: Vec<Vec<u8>> = vec![b"/ho".to_vec(), b"me/user".to_vec(), b"\r\n".to_vec(), Vec::new()];
    let log = std::cell::RefCell::new(Vec::new());
    let mut pump = OutputPump::new();
    let mut reactor = ProxyReactor::new(Shared(&log));
    let mut shutdowns_sent = 0;
    for r in reads {
        match pump.on_read(ReadOutcome::Bytes(r)) {
            PumpAction::Forward(bytes) => {
                let n = bytes.len();
                reactor.dispatch(Event::Output(bytes));
                assert!(reactor.is_running());
                assert!(matches!(pump.on_written(n, Some(n)), PumpAction::Read));
            }
            PumpAction::Finish(reason) => {
                assert_eq!(reason, EndReason::Closed);
                shutdowns_sent += 1;
                reactor.dispatch(Event::Shutdown(Vec::new()));
                assert!(!reactor.is_running());
            }
            _ => panic!("unexpected action"),
        }
    }
    assert_eq!(shutdowns_sent, 1);
    let calls = log.into_inner();
    let mut out = Vec::new();
    for c in &calls[..calls.len() - 1] {
        match c {
            Call::Output(d) => out.extend_from_slice(d),
            _ => panic!("only output before shutdown"),
        }
    }
    assert_eq!(out, b"/home/user\r\n".to_vec());
    assert_eq!(calls.last(), Some(&Call::Shutdown));
}

#[test]
fn failed_size_query_gives_no_resize_call() {
    let log = std::cell::RefCell::new(Vec::new());
    let mut r = ProxyReactor::new(Shared(&log));
    let made = r.dispatch(Event::Resize(None));
    assert!(made.is_empty());
    assert!(r.is_running());
    assert!(log.into_inner().is_empty());
}

#[test]
fn dispatcher_decides_exact_calls() {
    let mut d = Dispatcher::new();
    let a = d.decide(Event::Output(b"ab".to_vec()));
    assert_eq!(a.len(), 1);
    assert!(matches!(&a[0], HandlerAction::Output(v) if v == b"ab"));
    assert!(d.decide(Event::Output(Vec::new())).is_empty());
    let a = d.decide(Event::Input(b"q".to_vec()));
    assert!(matches!(&a[..], [HandlerAction::Input(v)] if v == b"q"));
    let a = d.decide(Event::Shutdown(b"z".to_vec()));
    assert!(matches!(&a[..], [HandlerAction::Output(v), HandlerAction::Shutdown] if v == b"z"));
    assert!(!d.is_running());
    assert!(d.decide(Event::Output(b"late".to_vec())).is_empty());
    assert!(d.decide(Event::Shutdown(Vec::new())).is_empty());
}

#[test]
fn end_reason_maps_to_session_step() {
    assert_eq!(step_for_end(EndReason::Closed), SessionStep::ShutdownSignal);
    assert_eq!(step_for_end(EndReason::ReadFailed), SessionStep::Failed);
    assert_eq!(step_for_end(EndReason::WriteFailed), SessionStep::Failed);
}
