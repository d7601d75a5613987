//! The activation of a process loopback client as a state machine: an
//! asynchronous request that is waited for on an event.
use vstd::prelude::*;
use vstd::string::*;

use crate::capture::{ACTIVATE_TIMEOUT_MS, LOOPBACK_MODE_INCLUDE_TREE, WAIT_OBJECT_0};
use crate::error::WasapiError;
use crate::text::push_decimal;

verus! {

/// The phases of an activation.
#[derive(Debug, PartialEq, Eq)]
pub enum ActivationPhase {
    CreateEvent,
    Request,
    /// The request was refused; the event is still open.
    CloseRefused(WasapiError),
    Wait,
    /// The wait returned this; the event is still open.
    CloseWaited(u32),
    FetchResult,
    Cast,
    Finished(Result<(), WasapiError>),
}

/// The outcome of the call that a phase asks for.
#[derive(Debug, PartialEq, Eq)]
pub enum ActivationEvent {
    Failed(WasapiError),
    Completed,
    /// What the wait returned.
    Waited(u32),
    /// The result of the request, what Windows says of it, and whether there is
    /// an interface.
    Fetched { hr: i32, hr_text: String, has_interface: bool },
}

/// The call to make.
#[derive(Debug, Clone, Copy, PartialEq, Eq, Structural)]
pub enum ActivationAction {
    CreateEvent,
    Request { pid: u32, mode: i32 },
    CloseEvent,
    Wait { millis: u32 },
    FetchResult,
    Cast,
    Return,
}

/// An activation under way.
#[derive(Debug)]
pub struct Activation {
    pub pid: u32,
    pub phase: ActivationPhase,
}

/// What the error says when the request was not answered in time.
pub open spec fn timeout_text(pid: u32, wait: u32) -> Seq<char> {
    "激活 PID="@ + crate::text::decimal(pid as nat)
        + " 的 per-process 音频客户端超时 (wait=WAIT_EVENT("@ + crate::text::decimal(wait as nat)
        + "))"@
}

fn timeout_message(pid: u32, wait: u32) -> (s: String)
    ensures
        s@ == timeout_text(pid, wait),
{
    let mut s = "激活 PID=".to_string();
    push_decimal(&mut s, pid as u64);
    s.append(" 的 per-process 音频客户端超时 (wait=WAIT_EVENT(");
    push_decimal(&mut s, wait as u64);
    s.append("))");
    s
}

/// What the error says where the child processes are to be left out.
pub open spec fn tree_text(pid: u32) -> Seq<char> {
    "Windows 无法只捕获 PID="@ + crate::text::decimal(pid as nat) + " 而不包含其子进程"@
}

fn tree_message(pid: u32) -> (s: String)
    ensures
        s@ == tree_text(pid),
{
    let mut s = "Windows 无法只捕获 PID=".to_string();
    push_decimal(&mut s, pid as u64);
    s.append(" 而不包含其子进程");
    s
}

/// Whether `r` is the activation for a process that is about to begin. Windows
/// records a process only together with its child processes; without them the
/// activation is over before a call is made.
pub open spec fn begun(pid: u32, include_tree: bool, r: Activation) -> bool {
    &&& r.pid == pid
    &&& include_tree ==> r.phase == ActivationPhase::CreateEvent
    &&& !include_tree ==> {
        &&& r.phase matches ActivationPhase::Finished(Err(WasapiError::UnsupportedFormat(what)))
        &&& what@ == tree_text(pid)
    }
}

impl Activation {
    /// Whether `event` can be the outcome of the call of this phase.
    pub open spec fn expects(self, event: ActivationEvent) -> bool {
        match self.phase {
            ActivationPhase::CloseRefused(_) => event is Completed,
            ActivationPhase::Wait => event is Waited,
            ActivationPhase::CloseWaited(_) => event is Completed,
            ActivationPhase::FetchResult => event is Fetched || event is Failed,
            ActivationPhase::Finished(_) => false,
            _ => event is Completed || event is Failed,
        }
    }

    /// The phases in which the event of the activation is open.
    pub open spec fn event_open(self) -> bool {
        match self.phase {
            ActivationPhase::Request => true,
            ActivationPhase::CloseRefused(_) => true,
            ActivationPhase::Wait => true,
            ActivationPhase::CloseWaited(_) => true,
            _ => false,
        }
    }

    /// Whether `p` is the phase after `event`.
    pub open spec fn next_phase(self, event: ActivationEvent, p: ActivationPhase) -> bool {
        match self.phase {
            ActivationPhase::CreateEvent => match event {
                ActivationEvent::Failed(e) => p == ActivationPhase::Finished(Err(e)),
                _ => p == ActivationPhase::Request,
            },
            ActivationPhase::Request => match event {
                ActivationEvent::Failed(e) => p == ActivationPhase::CloseRefused(e),
                _ => p == ActivationPhase::Wait,
            },
            ActivationPhase::CloseRefused(e) => p == ActivationPhase::Finished(Err(e)),
            ActivationPhase::Wait => p == ActivationPhase::CloseWaited(event->Waited_0),
            ActivationPhase::CloseWaited(w) => if w == WAIT_OBJECT_0 {
                p == ActivationPhase::FetchResult
            } else {
                p matches ActivationPhase::Finished(Err(WasapiError::UnsupportedFormat(what)))
                    && what@ == timeout_text(self.pid, w)
            },
            ActivationPhase::FetchResult => match event {
                ActivationEvent::Failed(e) => p == ActivationPhase::Finished(Err(e)),
                ActivationEvent::Fetched { hr, hr_text, has_interface } => if hr < 0 {
                    p == ActivationPhase::Finished(Err(WasapiError::Windows(hr_text)))
                } else if has_interface {
                    p == ActivationPhase::Cast
                } else {
                    p matches ActivationPhase::Finished(Err(WasapiError::UnsupportedFormat(what)))
                        && what@ == "ActivateCompleted 未返回接口"@
                },
                _ => p == self.phase,
            },
            ActivationPhase::Cast => match event {
                ActivationEvent::Failed(e) => p == ActivationPhase::Finished(Err(e)),
                _ => p == ActivationPhase::Finished(Ok(())),
            },
            ActivationPhase::Finished(_) => p == self.phase,
        }
    }

    /// Whether `r` is the activation after `event`.
    pub open spec fn next(self, event: ActivationEvent, r: Activation) -> bool {
        &&& r.pid == self.pid
        &&& self.next_phase(event, r.phase)
    }

    /// An activation that is about to begin.
    pub fn begin(pid: u32, include_tree: bool) -> (r: Activation)
        ensures
            begun(pid, include_tree, r),
    {
        let phase = if include_tree {
            ActivationPhase::CreateEvent
        } else {
            ActivationPhase::Finished(Err(WasapiError::UnsupportedFormat(tree_message(pid))))
        };
        Activation { pid, phase }
    }

    /// The call that the phase asks for.
    pub open spec fn wanted(self) -> ActivationAction {
        match self.phase {
            ActivationPhase::CreateEvent => ActivationAction::CreateEvent,
            ActivationPhase::Request => ActivationAction::Request {
                pid: self.pid,
                mode: LOOPBACK_MODE_INCLUDE_TREE,
            },
            ActivationPhase::CloseRefused(_) => ActivationAction::CloseEvent,
            ActivationPhase::Wait => ActivationAction::Wait { millis: ACTIVATE_TIMEOUT_MS },
            ActivationPhase::CloseWaited(_) => ActivationAction::CloseEvent,
            ActivationPhase::FetchResult => ActivationAction::FetchResult,
            ActivationPhase::Cast => ActivationAction::Cast,
            ActivationPhase::Finished(_) => ActivationAction::Return,
        }
    }

    /// The call that the phase asks for.
    pub fn action(&self) -> (a: ActivationAction)
        ensures
            a == self.wanted(),
    {
        match &self.phase {
            ActivationPhase::CreateEvent => ActivationAction::CreateEvent,
            ActivationPhase::Request => ActivationAction::Request {
                pid: self.pid,
                mode: LOOPBACK_MODE_INCLUDE_TREE,
            },
            ActivationPhase::CloseRefused(_) => ActivationAction::CloseEvent,
            ActivationPhase::Wait => ActivationAction::Wait { millis: ACTIVATE_TIMEOUT_MS },
            ActivationPhase::CloseWaited(_) => ActivationAction::CloseEvent,
            ActivationPhase::FetchResult => ActivationAction::FetchResult,
            ActivationPhase::Cast => ActivationAction::Cast,
            ActivationPhase::Finished(_) => ActivationAction::Return,
        }
    }

    /// The activation after the call of its phase had the outcome `event`.
    pub fn step(self, event: ActivationEvent) -> (r: Activation)
        requires
            self.expects(event),
        ensures
            self.next(event, r),
    {
        let Activation { pid, phase } = self;
        let phase = match phase {
            ActivationPhase::CreateEvent => match event {
                ActivationEvent::Failed(e) => ActivationPhase::Finished(Err(e)),
                _ => ActivationPhase::Request,
            },
            ActivationPhase::Request => match event {
                ActivationEvent::Failed(e) => ActivationPhase::CloseRefused(e),
                _ => ActivationPhase::Wait,
            },
            ActivationPhase::CloseRefused(e) => ActivationPhase::Finished(Err(e)),
            ActivationPhase::Wait => match event {
                ActivationEvent::Waited(w) => ActivationPhase::CloseWaited(w),
                _ => ActivationPhase::Wait,
            },
            ActivationPhase::CloseWaited(w) => if w == WAIT_OBJECT_0 {
                ActivationPhase::FetchResult
            } else {
                ActivationPhase::Finished(
                    Err(WasapiError::UnsupportedFormat(timeout_message(pid, w))),
                )
            },
            ActivationPhase::FetchResult => match event {
                ActivationEvent::Failed(e) => ActivationPhase::Finished(Err(e)),
                ActivationEvent::Fetched { hr, hr_text, has_interface } => if hr < 0 {
                    ActivationPhase::Finished(Err(WasapiError::Windows(hr_text)))
                } else if has_interface {
                    ActivationPhase::Cast
                } else {
                    ActivationPhase::Finished(
                        Err(
                            WasapiError::UnsupportedFormat(
                                "ActivateCompleted 未返回接口".to_string(),
                            ),
                        ),
                    )
                },
                _ => ActivationPhase::FetchResult,
            },
            ActivationPhase::Cast => match event {
                ActivationEvent::Failed(e) => ActivationPhase::Finished(Err(e)),
                _ => ActivationPhase::Finished(Ok(())),
            },
            ActivationPhase::Finished(r) => ActivationPhase::Finished(r),
        };
        Activation { pid, phase }
    }
}

/// The event of an activation is opened only by creating it and closed only by
/// closing it, and no activation ends while it is open.
pub proof fn law_event_is_closed(a: Activation, event: ActivationEvent, b: Activation)
    requires
        a.expects(event),
        a.next(event, b),
    ensures
        !a.event_open() && b.event_open() ==> a.wanted() == ActivationAction::CreateEvent && event
            is Completed,
        a.event_open() && !b.event_open() ==> a.wanted() == ActivationAction::CloseEvent,
        a.wanted() == ActivationAction::CloseEvent ==> a.event_open() && !b.event_open(),
        b.phase is Finished ==> !b.event_open(),
{
}

/// The result is asked for only after the wait was answered by a signal.
pub proof fn law_result_only_after_signal(a: Activation, event: ActivationEvent, b: Activation)
    requires
        a.expects(event),
        a.next(event, b),
        !(a.phase is FetchResult),
        b.phase is FetchResult,
    ensures
        a.phase == ActivationPhase::CloseWaited(WAIT_OBJECT_0),
{
}

/// An activation asks for its own process and never for everything else.
pub proof fn law_only_the_process_is_requested(a: Activation, pid: u32, mode: i32)
    requires
        a.wanted() == (ActivationAction::Request { pid, mode }),
    ensures
        pid == a.pid,
        mode == LOOPBACK_MODE_INCLUDE_TREE,
        mode != crate::capture::LOOPBACK_MODE_EXCLUDE_TREE,
{
}

/// An activation without the child processes makes no call and ends at once.
pub proof fn law_tree_is_never_left_out(pid: u32, a: Activation)
    requires
        begun(pid, false, a),
    ensures
        a.wanted() == ActivationAction::Return,
        forall|event: ActivationEvent| !a.expects(event),
{
}

/// An activation with the child processes first creates its event. Its request is
/// waited for up to five seconds, then the event is closed, and only after a
/// signal the result is fetched and cast.
pub proof fn law_order_of_activation(a: Activation, event: ActivationEvent, b: Activation)
    requires
        a.expects(event),
        a.next(event, b),
    ensures
        b.pid == a.pid,
        match (a.wanted(), event) {
            (ActivationAction::CreateEvent, ActivationEvent::Completed) => b.wanted()
                == (ActivationAction::Request { pid: a.pid, mode: 0 }),
            (ActivationAction::Request { .. }, ActivationEvent::Completed) => b.wanted()
                == (ActivationAction::Wait { millis: 5000 }),
            (ActivationAction::Request { .. }, _) => b.wanted() == ActivationAction::CloseEvent,
            (ActivationAction::Wait { .. }, _) => b.wanted() == ActivationAction::CloseEvent,
            (ActivationAction::FetchResult, ActivationEvent::Fetched { hr, has_interface, .. }) => {
                b.wanted() == ActivationAction::Cast <==> hr >= 0 && has_interface
            },
            (ActivationAction::Cast, ActivationEvent::Completed) => b.phase
                == ActivationPhase::Finished(Ok::<(), WasapiError>(())),
            _ => true,
        },
        a.wanted() != ActivationAction::CloseEvent && !(event is Failed) && !(event is Fetched)
            && a.wanted() != ActivationAction::Cast ==> !(b.phase is Finished),
{
}

/// What becomes of an activation whose event was closed: a refused request ends
/// with its error, a wait without a signal with the message on the time limit,
/// and after a signal the result is fetched.
pub proof fn law_after_the_event_is_closed(
    a: Activation,
    cause: ActivationEvent,
    b: Activation,
    c: Activation,
)
    requires
        a.expects(cause),
        a.next(cause, b),
        b.wanted() == ActivationAction::CloseEvent,
        b.expects(ActivationEvent::Completed),
        b.next(ActivationEvent::Completed, c),
    ensures
        cause matches ActivationEvent::Failed(e) ==> c.phase == ActivationPhase::Finished(
            Err::<(), WasapiError>(e),
        ),
        cause matches ActivationEvent::Waited(w) ==> {
            &&& w == 0 <==> c.wanted() == ActivationAction::FetchResult
            &&& w != 0 ==> {
                &&& c.phase matches ActivationPhase::Finished(
                    Err(WasapiError::UnsupportedFormat(what)),
                )
                &&& what@ == "激活 PID="@ + crate::text::decimal(a.pid as nat)
                    + " 的 per-process 音频客户端超时 (wait=WAIT_EVENT("@ + crate::text::decimal(
                    w as nat,
                ) + "))"@
            }
        },
{
}

/// A failure ends an activation with its error, at once or after the event is
/// closed; a result that Windows calls a failure ends it with what Windows says.
pub proof fn law_activation_failure_is_reported(a: Activation, event: ActivationEvent, b: Activation)
    requires
        a.expects(event),
        a.next(event, b),
    ensures
        event matches ActivationEvent::Failed(e) ==> !(a.wanted() is Request) ==> b.phase
            == ActivationPhase::Finished(Err::<(), WasapiError>(e)),
        event matches ActivationEvent::Fetched { hr, hr_text, has_interface } ==> {
            &&& hr < 0 ==> b.phase == ActivationPhase::Finished(
                Err::<(), WasapiError>(WasapiError::Windows(hr_text)),
            )
            &&& hr >= 0 && !has_interface ==> {
                &&& b.phase matches ActivationPhase::Finished(
                    Err(WasapiError::UnsupportedFormat(what)),
                )
                &&& what@ == "ActivateCompleted 未返回接口"@
            }
        },
        b.phase == ActivationPhase::Finished(Ok::<(), WasapiError>(())) ==> a.wanted()
            == ActivationAction::Cast && event is Completed,
{
}

/// Every outcome that a call can have is taken.
pub proof fn law_activation_outcomes_are_taken(
    a: Activation,
    e: WasapiError,
    waited: u32,
    hr: i32,
    hr_text: String,
    has_interface: bool,
)
    ensures
        match a.wanted() {
            ActivationAction::Return => true,
            ActivationAction::CloseEvent => a.expects(ActivationEvent::Completed),
            ActivationAction::Wait { .. } => a.expects(ActivationEvent::Waited(waited)),
            ActivationAction::FetchResult => a.expects(
                ActivationEvent::Fetched { hr, hr_text, has_interface },
            ) && a.expects(ActivationEvent::Failed(e)),
            _ => a.expects(ActivationEvent::Completed) && a.expects(ActivationEvent::Failed(e)),
        },
{
}

/// An activation with the child processes begins with a call; what is said where
/// they are to be left out names the process.
pub proof fn law_begin(pid: u32, include_tree: bool, a: Activation)
    requires
        begun(pid, include_tree, a),
    ensures
        a.pid == pid,
        include_tree <==> a.wanted() == ActivationAction::CreateEvent,
        !include_tree ==> {
            &&& a.phase matches ActivationPhase::Finished(
                Err(WasapiError::UnsupportedFormat(what)),
            )
            &&& what@ == "Windows 无法只捕获 PID="@ + crate::text::decimal(pid as nat)
                + " 而不包含其子进程"@
        },
{
}

} // verus!
