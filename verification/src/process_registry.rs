use vstd::prelude::*;

use crate::exec_process::evict;
use crate::exec_process::host_output_stream;
use crate::exec_process::retained_bytes_limit;
use crate::exec_process::ExecOutputStream;
use crate::exec_process::ProcessOutputState;
use crate::host_bridge::apply_output_delta;
use crate::host_bridge::base64_standard_decode;
use crate::host_bridge::invalid_delta_message;
use crate::host_bridge::OutputDeltaOutcome;
use crate::table::Table;

verus! {

/// An event the host sends about one of its processes, as read from its
/// envelope: output on a stream (as base64), the process's exit with its
/// remaining output, or anything else (another event, or parameters that do
/// not read).
#[derive(Debug)]
pub enum HostProcessEvent {
    OutputDelta { process_handle: String, stream: String, delta_base64: String },
    Exited { process_handle: String, stdout: String, stderr: String, exit_code: i32 },
    Other,
}

/// The process an event is about.
pub open spec fn event_handle(event: HostProcessEvent) -> Option<Seq<char>> {
    match event {
        HostProcessEvent::OutputDelta { process_handle, .. } => Some(process_handle@),
        HostProcessEvent::Exited { process_handle, .. } => Some(process_handle@),
        HostProcessEvent::Other => None,
    }
}

/// The processes the host is running for this program, by handle, while
/// they can still receive events.
pub struct HostProcessRegistry {
    processes: Table<ProcessOutputState>,
}

pub open spec fn stream_of(name: Seq<char>) -> Option<ExecOutputStream> {
    if name == "stdout"@ {
        Some(ExecOutputStream::Stdout)
    } else if name == "stderr"@ {
        Some(ExecOutputStream::Stderr)
    } else {
        None
    }
}

/// What the registry hands back from an event: whether the event was taken,
/// and the state of a process that stopped with it (it is then no longer
/// registered).
pub struct EventHandled {
    pub handled: bool,
    pub stopped: Option<ProcessOutputState>,
}

impl View for HostProcessRegistry {
    type V = Map<Seq<char>, ProcessOutputState>;

    closed spec fn view(&self) -> Map<Seq<char>, ProcessOutputState> {
        self.processes@
    }
}

impl HostProcessRegistry {
    /// Every registered process keeps its own invariant.
    pub closed spec fn wf(self) -> bool {
        &&& self.processes.wf()
        &&& forall|k: Seq<char>| #[trigger] self.processes@.contains_key(k) ==> self.processes@[k].wf()
    }

    pub fn new() -> (r: HostProcessRegistry)
        ensures
            r.wf(),
            r@ == Map::<Seq<char>, ProcessOutputState>::empty(),
    {
        HostProcessRegistry { processes: Table::new() }
    }

    /// Registers `state` under `process_handle`, in place of any process
    /// registered there.
    pub fn register(&mut self, process_handle: String, state: ProcessOutputState)
        requires
            old(self).wf(),
            state.wf(),
        ensures
            final(self).wf(),
            final(self)@ == old(self)@.insert(process_handle@, state),
    {
        let ghost before = self.processes@;
        let ghost st = state;
        let _ = self.processes.insert(process_handle, state);
        assert forall|k: Seq<char>| #[trigger] self.processes@.contains_key(k) implies self.processes@[k].wf() by {
            if k != process_handle@ {
                assert(before.contains_key(k));
            }
        }
    }

    /// Takes the process under `process_handle` out of the registry.
    pub fn unregister(&mut self, process_handle: &str) -> (r: Option<ProcessOutputState>)
        requires
            old(self).wf(),
        ensures
            final(self).wf(),
            final(self)@ == old(self)@.remove(process_handle@),
            match r {
                Some(s) => old(self)@.contains_key(process_handle@) && s == old(self)@[process_handle@]
                    && s.wf(),
                None => !old(self)@.contains_key(process_handle@),
            },
    {
        let ghost before = self.processes@;
        let r = self.processes.remove(process_handle);
        assert forall|k: Seq<char>| #[trigger] self.processes@.contains_key(k) implies self.processes@[k].wf() by {
            assert(before.contains_key(k));
        }
        r
    }

    /// The process registered under `process_handle`.
    pub fn lookup(&self, process_handle: &str) -> (r: Option<&ProcessOutputState>)
        requires
            self.wf(),
        ensures
            match r {
                Some(s) => self@.contains_key(process_handle@) && *s == self@[process_handle@],
                None => !self@.contains_key(process_handle@),
            },
    {
        self.processes.get(process_handle)
    }

    /// Takes one event from the host. An event for no registered process, or
    /// of another kind, is not taken. Output on a stream other than stdout
    /// and stderr is taken and ignored. Other output is recorded; output
    /// that is no base64 fails the process, which then stops. An exit records
    /// the remaining stdout and stderr and the exit code; a process that was
    /// still open stops with it.
    pub fn handle_event(&mut self, event: HostProcessEvent) -> (r: EventHandled)
        requires
            old(self).wf(),
            event_handle(event) matches Some(h) ==> (old(self)@.contains_key(h) ==> old(self)@[h].next_seq_spec()
                < u64::MAX - 3),
            event matches HostProcessEvent::Exited { stdout, stderr, .. } ==> vstd::utf8::encode_utf8(
                stdout@,
            ).len() <= u64::MAX - retained_bytes_limit() && vstd::utf8::encode_utf8(stderr@).len()
                <= u64::MAX - retained_bytes_limit(),
        ensures
            final(self).wf(),
            match event {
                HostProcessEvent::Other => !r.handled && r.stopped is None && final(self)@ == old(self)@,
                HostProcessEvent::OutputDelta { process_handle: h, stream, delta_base64 } => {
                    if !old(self)@.contains_key(h@) {
                        !r.handled && r.stopped is None && final(self)@ == old(self)@
                    } else if stream_of(stream@) is None {
                        r.handled && r.stopped is None && final(self)@ == old(self)@
                    } else {
                        let s0 = old(self)@[h@];
                        let st = stream_of(stream@).unwrap();
                        &&& r.handled
                        &&& final(self)@.remove(h@) == old(self)@.remove(h@)
                        &&& match base64_standard_decode(delta_base64@) {
                            Ok(bytes) => bytes.len() <= u64::MAX - retained_bytes_limit() ==> {
                                &&& r.stopped is None
                                &&& final(self)@.contains_key(h@)
                                &&& final(self)@[h@].output_spec() == evict(
                                    s0.output_spec().push((s0.next_seq_spec(), st, bytes)),
                                )
                                &&& final(self)@[h@].next_seq_spec() == s0.next_seq_spec() + 1
                                &&& final(self)@[h@].closed_spec() == s0.closed_spec()
                                &&& final(self)@[h@].exit_code_spec() == s0.exit_code_spec()
                                &&& final(self)@[h@].failure_spec() == s0.failure_spec()
                            },
                            Err(e) => if s0.closed_spec() {
                                r.stopped is None && final(self)@ == old(self)@
                            } else {
                                &&& !final(self)@.contains_key(h@)
                                &&& r.stopped matches Some(s) && s.closed_spec() && s.failure_spec()
                                    == Some(invalid_delta_message(e)) && s.output_spec() == s0.output_spec()
                            },
                        }
                    }
                },
                HostProcessEvent::Exited { process_handle: h, exit_code, .. } => {
                    if !old(self)@.contains_key(h@) {
                        !r.handled && r.stopped is None && final(self)@ == old(self)@
                    } else {
                        let s0 = old(self)@[h@];
                        &&& r.handled
                        &&& final(self)@.remove(h@) == old(self)@.remove(h@)
                        &&& if s0.closed_spec() {
                            &&& r.stopped is None
                            &&& final(self)@.contains_key(h@)
                            &&& final(self)@[h@].closed_spec()
                            &&& final(self)@[h@].exit_code_spec() == s0.exit_code_spec()
                        } else {
                            &&& !final(self)@.contains_key(h@)
                            &&& r.stopped matches Some(s) && s.closed_spec() && s.exit_code_spec() == Some(
                                exit_code,
                            )
                        }
                    }
                },
            },
    {
        let ghost before = self@;
        match event {
            HostProcessEvent::Other => {
                assert(self@ == before);
                EventHandled { handled: false, stopped: None }
            },
            HostProcessEvent::OutputDelta { process_handle, stream, delta_base64 } => {
                let st = match self.processes.get(process_handle.as_str()) {
                    None => return EventHandled { handled: false, stopped: None },
                    Some(_) => match host_output_stream(stream.as_str()) {
                        None => return EventHandled { handled: true, stopped: None },
                        Some(st) => st,
                    },
                };
                let mut state = match self.processes.remove(process_handle.as_str()) {
                    Some(s) => s,
                    None => return EventHandled { handled: false, stopped: None },
                };
                let ghost s0 = state;
                assert(before.remove(process_handle@) == self@);
                let outcome = apply_output_delta(&mut state, st, delta_base64.as_str());
                match outcome {
                    OutputDeltaOutcome::Failed(Some(_)) => {
                        assert(self@.remove(process_handle@) =~= before.remove(process_handle@));
                        EventHandled { handled: true, stopped: Some(state) }
                    },
                    _ => {
                        let _ = self.processes.insert(process_handle, state);
                        proof {
                            assert(self@.remove(process_handle@) =~= before.remove(process_handle@));
                            if s0.closed_spec() {
                                if let Err(e) = base64_standard_decode(delta_base64@) {
                                    assert(self@ =~= before);
                                }
                            }
                        }
                        EventHandled { handled: true, stopped: None }
                    },
                }
            },
            HostProcessEvent::Exited { process_handle, stdout, stderr, exit_code } => {
                let mut state = match self.processes.remove(process_handle.as_str()) {
                    Some(s) => s,
                    None => {
                        return EventHandled { handled: false, stopped: None };
                    },
                };
                let ghost s0 = state;
                let events = state.finish_from_host_result(stdout.as_str(), stderr.as_str(), exit_code);
                if events.exit.is_some() {
                    assert(self@.remove(process_handle@) =~= before.remove(process_handle@));
                    EventHandled { handled: true, stopped: Some(state) }
                } else {
                    let _ = self.processes.insert(process_handle, state);
                    assert(self@.remove(process_handle@) =~= before.remove(process_handle@));
                    EventHandled { handled: true, stopped: None }
                }
            },
        }
    }
}

} // verus!
