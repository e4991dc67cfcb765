//! The voice engine's control plane and the decisions of its network loop.
//!
//! The engine is bound to a local endpoint once. `start_audio_loop` and `stop`
//! move a running flag; `set_target` replaces the peer that captured frames
//! go to. The network loop reads the flag once per iteration and hands every
//! event it waited for to `handle_event`, which says what to do with it.
//! Failures on the data path are counted and never stop the loop.
use vstd::prelude::*;

use crate::packet::{decode_payload, frame_bytes, frame_of, lemma_frame_survives_transport, received, Sample, RECV_BUFFER_BYTES};

verus! {

/// An IP address, by its octets or its eight 16-bit groups.
#[derive(Clone, Copy, Debug, PartialEq, Eq)]
pub enum IpAddress {
    V4(u8, u8, u8, u8),
    V6(u16, u16, u16, u16, u16, u16, u16, u16),
}

/// A network endpoint: address and port.
#[derive(Clone, Copy, Debug, PartialEq, Eq)]
pub struct Endpoint {
    pub ip: IpAddress,
    pub port: u16,
}

/// Failures that the control surface reports to its caller.
#[derive(Clone, Copy, Debug, PartialEq, Eq, Structural)]
pub enum VoiceError {
    /// The socket could not be bound to the requested local address.
    BindFailed,
    /// An audio device exists but its stream could not be built or started.
    StreamInitFailed,
}

/// How bringing up capture and playback went.
#[derive(Clone, Copy, Debug, PartialEq, Eq, Structural)]
pub enum PipelineOutcome {
    /// Both streams run.
    Running,
    /// No input or output device exists: the engine runs without audio.
    DeviceUnavailable,
    /// A device exists but its stream could not be built or started.
    StreamInitFailed,
}

/// What the caller of `start_audio_loop` has to do.
#[derive(Clone, Copy, Debug, PartialEq, Eq, Structural)]
pub enum StartAction {
    /// Bring up capture, playback and one network loop.
    BringUp,
    /// The engine already runs: do nothing.
    AlreadyRunning,
}

/// Something the network loop waited for.
#[derive(Debug)]
pub enum LoopEvent {
    /// A captured frame, already serialised, is ready to go out.
    Captured(Vec<u8>),
    /// A datagram arrived; this is the part of it that the receive buffer held.
    Received(Vec<u8>),
    /// Receiving failed.
    ReceiveFailed,
    /// Sending the previous frame failed.
    SendFailed,
}

/// What the network loop does with an event.
#[derive(Debug)]
pub enum LoopAction {
    /// Send `data` as one datagram to `to`.
    Send { data: Vec<u8>, to: Endpoint },
    /// Push this frame onto the playback delivery queue.
    Deliver(Vec<Sample>),
    /// Drop the captured frame: no target is set.
    Discard,
    /// Nothing to do; wait for the next event.
    Continue,
}

/// The state of the control plane: the bound endpoint, the running flag, the
/// target, and the failures that the network loop has counted.
pub ghost struct VoiceState {
    pub local: Endpoint,
    pub running: bool,
    pub target: Option<Endpoint>,
    pub recv_failures: u64,
    pub send_failures: u64,
}

/// A failure counter after one more failure; it stays at its maximum.
pub open spec fn bump(n: u64) -> u64 {
    if n < u64::MAX {
        (n + 1) as u64
    } else {
        n
    }
}

/// The state after `start_audio_loop`.
pub open spec fn started(s: VoiceState) -> VoiceState {
    VoiceState { running: true, ..s }
}

/// What `start_audio_loop` asks of its caller in state `s`.
pub open spec fn start_action(s: VoiceState) -> StartAction {
    if s.running {
        StartAction::AlreadyRunning
    } else {
        StartAction::BringUp
    }
}

/// The state after `stop`.
pub open spec fn stopped(s: VoiceState) -> VoiceState {
    VoiceState { running: false, ..s }
}

/// The state after `set_target(addr)`.
pub open spec fn targeted(s: VoiceState, addr: Endpoint) -> VoiceState {
    VoiceState { target: Some(addr), ..s }
}

/// Where a frame captured in state `s` goes; `None`: it is discarded.
pub open spec fn send_destination(s: VoiceState) -> Option<Endpoint> {
    s.target
}

/// Name listed for the input side when no input device can be named.
pub const DEFAULT_INPUT: &'static str = "Default Input";

/// Name listed for the output side when no output device can be named.
pub const DEFAULT_OUTPUT: &'static str = "Default Output";

/// The names among enumerated devices, in order; `None` is a device whose
/// name could not be read.
pub open spec fn named(devices: Seq<Option<String>>) -> Seq<Seq<char>>
    decreases devices.len(),
{
    if devices.len() == 0 {
        seq![]
    } else {
        let rest = named(devices.drop_last());
        match devices.last() {
            Some(n) => rest.push(n@),
            None => rest,
        }
    }
}

/// The device list shown for one direction: the names that enumeration gave,
/// or the placeholder alone when it failed (`None`) or gave no name.
pub open spec fn device_list(enumerated: Option<Seq<Option<String>>>, placeholder: Seq<char>) -> Seq<
    Seq<char>,
> {
    match enumerated {
        Some(d) => if named(d).len() > 0 {
            named(d)
        } else {
            seq![placeholder]
        },
        None => seq![placeholder],
    }
}

/// The texts of a list of strings.
pub open spec fn texts(v: Seq<String>) -> Seq<Seq<char>> {
    v.map_values(|x: String| x@)
}

/// An enumeration outcome as a sequence of (maybe unreadable) names.
pub open spec fn enumerated_view(e: Option<Vec<Option<String>>>) -> Option<Seq<Option<String>>> {
    match e {
        Some(v) => Some(v@),
        None => None,
    }
}

fn list_devices(enumerated: Option<Vec<Option<String>>>, placeholder: &str) -> (r: Vec<String>)
    ensures
        texts(r@) == device_list(enumerated_view(enumerated), placeholder@),
        r@.len() >= 1,
{
    let mut out: Vec<String> = Vec::new();
    match enumerated {
        Some(devices) => {
            let mut i: usize = 0;
            while i < devices.len()
                invariant
                    i <= devices@.len(),
                    texts(out@) == named(devices@.take(i as int)),
                decreases devices@.len() - i,
            {
                proof {
                    assert(devices@.take(i + 1).drop_last() =~= devices@.take(i as int));
                }
                match &devices[i] {
                    Some(n) => {
                        let ghost before = out@;
                        out.push(n.clone());
                        proof {
                            assert(texts(out@) =~= texts(before).push(n@));
                        }
                    },
                    None => {},
                }
                i = i + 1;
            }
            proof {
                assert(devices@.take(devices@.len() as int) =~= devices@);
            }
        },
        None => {},
    }
    if out.len() == 0 {
        out.push(String::from_str(placeholder));
        proof {
            assert(texts(out@) =~= seq![placeholder@]);
        }
    }
    out
}

/// The control plane of one voice engine.
pub struct VoiceManager {
    local: Endpoint,
    running: bool,
    target: Option<Endpoint>,
    recv_failures: u64,
    send_failures: u64,
}

impl View for VoiceManager {
    type V = VoiceState;

    closed spec fn view(&self) -> VoiceState {
        VoiceState {
            local: self.local,
            running: self.running,
            target: self.target,
            recv_failures: self.recv_failures,
            send_failures: self.send_failures,
        }
    }
}

impl VoiceManager {
    /// Creates the engine from the outcome of binding its socket: the bound
    /// local endpoint, or `None` when the address could not be bound.
    pub fn new(bound: Option<Endpoint>) -> (r: Result<VoiceManager, VoiceError>)
        ensures
            bound is None <==> r == Err::<VoiceManager, VoiceError>(VoiceError::BindFailed),
            bound is Some ==> r is Ok && r.unwrap()@ == (VoiceState {
                local: bound.unwrap(),
                running: false,
                target: None,
                recv_failures: 0,
                send_failures: 0,
            }),
    {
        match bound {
            Some(local) => Ok(
                VoiceManager { local, running: false, target: None, recv_failures: 0, send_failures: 0 },
            ),
            None => Err(VoiceError::BindFailed),
        }
    }

    /// Marks the engine running. A second call while it runs changes nothing
    /// and asks for nothing; otherwise the caller brings up one set of audio
    /// streams and one network loop.
    pub fn start_audio_loop(&mut self) -> (r: StartAction)
        ensures
            r == start_action(old(self)@),
            final(self)@ == started(old(self)@),
    {
        if self.running {
            StartAction::AlreadyRunning
        } else {
            self.running = true;
            StartAction::BringUp
        }
    }

    /// Takes the outcome of bringing up the audio streams after `BringUp`.
    /// A missing device degrades silently; a stream that could not be built is
    /// reported, and the engine stops so that it can be started again.
    pub fn finish_start(&mut self, outcome: PipelineOutcome) -> (r: Result<(), VoiceError>)
        ensures
            outcome == PipelineOutcome::StreamInitFailed ==> r == Err::<(), VoiceError>(
                VoiceError::StreamInitFailed,
            ) && final(self)@ == stopped(old(self)@),
            outcome != PipelineOutcome::StreamInitFailed ==> r is Ok && final(self)@ == old(self)@,
    {
        match outcome {
            PipelineOutcome::StreamInitFailed => {
                self.running = false;
                Err(VoiceError::StreamInitFailed)
            },
            _ => Ok(()),
        }
    }

    /// Asks the network loop to wind down; it notices on its next iteration.
    pub fn stop(&mut self)
        ensures
            final(self)@ == stopped(old(self)@),
    {
        self.running = false;
    }

    /// Replaces the peer that captured frames are sent to.
    pub fn set_target(&mut self, addr: Endpoint)
        ensures
            final(self)@ == targeted(old(self)@, addr),
    {
        self.target = Some(addr);
    }

    /// Whether the network loop goes on for another iteration.
    pub fn should_continue(&self) -> (r: bool)
        ensures
            r == self@.running,
    {
        self.running
    }

    /// Decides what the network loop does with one event. A captured frame
    /// goes, unchanged and once, to the current target, or is discarded when
    /// none is set; a received payload becomes one frame for playback;
    /// failures are counted and the loop goes on.
    pub fn handle_event(&mut self, event: LoopEvent) -> (r: LoopAction)
        ensures
            match event {
                LoopEvent::Captured(data) => final(self)@ == old(self)@ && match send_destination(
                    old(self)@,
                ) {
                    Some(to) => r == (LoopAction::Send { data, to }),
                    None => r is Discard,
                },
                LoopEvent::Received(payload) => final(self)@ == old(self)@ && (r matches LoopAction::Deliver(
                    f,
                ) && f@ == frame_of(payload@)),
                LoopEvent::ReceiveFailed => r is Continue && final(self)@ == (VoiceState {
                    recv_failures: bump(old(self)@.recv_failures),
                    ..old(self)@
                }),
                LoopEvent::SendFailed => r is Continue && final(self)@ == (VoiceState {
                    send_failures: bump(old(self)@.send_failures),
                    ..old(self)@
                }),
            },
    {
        match event {
            LoopEvent::Captured(data) => match self.target {
                Some(to) => LoopAction::Send { data, to },
                None => LoopAction::Discard,
            },
            LoopEvent::Received(payload) => {
                let n = payload.len();
                let frame = decode_payload(payload.as_slice(), n);
                proof {
                    assert(payload@.take(n as int) =~= payload@);
                }
                LoopAction::Deliver(frame)
            },
            LoopEvent::ReceiveFailed => {
                if self.recv_failures < u64::MAX {
                    self.recv_failures = self.recv_failures + 1;
                }
                LoopAction::Continue
            },
            LoopEvent::SendFailed => {
                if self.send_failures < u64::MAX {
                    self.send_failures = self.send_failures + 1;
                }
                LoopAction::Continue
            },
        }
    }

    /// The names of the input devices, from an enumeration that may have
    /// failed (`None`) and may hold devices without a readable name (`None`
    /// entries). Never empty: the placeholder stands in when nothing is named.
    pub fn get_input_devices(enumerated: Option<Vec<Option<String>>>) -> (r: Vec<String>)
        ensures
            texts(r@) == device_list(enumerated_view(enumerated), DEFAULT_INPUT@),
            r@.len() >= 1,
    {
        list_devices(enumerated, DEFAULT_INPUT)
    }

    /// The names of the output devices, as `get_input_devices` gives those
    /// of the input devices.
    pub fn get_output_devices(enumerated: Option<Vec<Option<String>>>) -> (r: Vec<String>)
        ensures
            texts(r@) == device_list(enumerated_view(enumerated), DEFAULT_OUTPUT@),
            r@.len() >= 1,
    {
        list_devices(enumerated, DEFAULT_OUTPUT)
    }

    /// Whether the engine is marked running.
    pub fn is_running(&self) -> (r: bool)
        ensures
            r == self@.running,
    {
        self.running
    }

    /// The current target, if one is set.
    pub fn target(&self) -> (r: Option<Endpoint>)
        ensures
            r == self@.target,
    {
        self.target
    }

    /// The local endpoint the engine is bound to.
    pub fn local_addr(&self) -> (r: Endpoint)
        ensures
            r == self@.local,
    {
        self.local
    }

    /// Receive failures seen by the network loop (saturating).
    pub fn recv_failures(&self) -> (r: u64)
        ensures
            r == self@.recv_failures,
    {
        self.recv_failures
    }

    /// Send failures seen by the network loop (saturating).
    pub fn send_failures(&self) -> (r: u64)
        ensures
            r == self@.send_failures,
    {
        self.send_failures
    }
}

/// A device list is never empty, and an enumeration that failed or named no
/// device gives exactly the placeholder.
pub proof fn lemma_device_list_never_empty(enumerated: Option<Seq<Option<String>>>, placeholder: Seq<char>)
    ensures
        device_list(enumerated, placeholder).len() >= 1,
        enumerated is None ==> device_list(enumerated, placeholder) == seq![placeholder],
        enumerated is Some && named(enumerated.unwrap()).len() == 0 ==> device_list(enumerated, placeholder)
            == seq![placeholder],
        named(Seq::<Option<String>>::empty()).len() == 0,
{
}

/// Two starts in a row bring up the engine at most once: exactly once from
/// a stopped engine, and the second start changes nothing.
pub proof fn lemma_start_twice_brings_up_once(s: VoiceState)
    ensures
        start_action(started(s)) == StartAction::AlreadyRunning,
        started(started(s)) == started(s),
        !s.running ==> start_action(s) == StartAction::BringUp,
        s.running ==> start_action(s) == StartAction::AlreadyRunning && started(s) == s,
{
}

/// A start right after a stop always brings the engine up again, whatever
/// the state before the stop.
pub proof fn lemma_stop_then_start(s: VoiceState)
    ensures
        start_action(stopped(s)) == StartAction::BringUp,
        started(stopped(s)).running,
        started(stopped(s)).target == s.target,
{
}

/// After `set_target(addr)`, the next captured frame goes to `addr`, also
/// when the engine is started or stopped in between.
pub proof fn lemma_next_send_uses_new_target(s: VoiceState, addr: Endpoint)
    ensures
        send_destination(targeted(s, addr)) == Some(addr),
        send_destination(started(targeted(s, addr))) == Some(addr),
        send_destination(stopped(targeted(s, addr))) == Some(addr),
{
}

/// An engine whose target is its own endpoint sends each captured frame to
/// itself, and the datagram it then receives decodes to the same samples,
/// cut to the receive buffer.
pub proof fn lemma_loopback_round_trip(s: VoiceState, frame: Seq<Sample>)
    requires
        s.target == Some(s.local),
    ensures
        send_destination(s) == Some(s.local),
        frame.len() <= RECV_BUFFER_BYTES / 4 ==> frame_of(received(frame_bytes(frame))) == frame,
        frame.len() > RECV_BUFFER_BYTES / 4 ==> frame_of(received(frame_bytes(frame))) == frame.take(
            (RECV_BUFFER_BYTES / 4) as int,
        ),
{
    lemma_frame_survives_transport(frame);
}

} // verus!
