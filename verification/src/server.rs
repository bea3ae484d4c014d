//! The life cycle of the service: its options, whether it runs, and what
//! a request to start or to stop it leads to.
//!
//! The functions here decide; opening devices and sockets is the caller's.

use vstd::prelude::*;

verus! {

/// The sample rate asked for where none is given, in samples a second.
pub const DEFAULT_SAMPLE_RATE: u32 = 44100;

/// The block length asked for where none is given, in samples.
pub const DEFAULT_BUFFER_SIZE: u32 = 2048;

/// The port that is broadcast on where none is given.
pub const DEFAULT_PORT: u16 = 3000;

/// The gain where none is given: the bit pattern of 0 dB.
pub const DEFAULT_GAIN: u32 = 0;

/// Whether the service runs.
#[derive(Clone, Copy, Debug, PartialEq, Eq, Structural)]
pub enum LTServerState {
    Running,
    Stopped,
}

/// The options of the service. The gain is the bit pattern of a
/// single-precision number of decibels.
#[derive(Clone, Copy, Debug, PartialEq, Eq, Structural)]
pub struct LTServerOpts {
    pub sample_rate: u32,
    pub buffer_size: u32,
    pub port: u16,
    pub gain: u32,
    pub headless: bool,
    pub input_mode: bool,
    pub lt_server_state: LTServerState,
}

/// What a request to start leads to.
#[derive(Clone, Copy, Debug, PartialEq, Eq, Structural)]
pub enum StartDecision {
    /// The service was stopped: open the device and the socket and begin.
    Launch,
    /// The service runs already: do nothing but say so.
    AlreadyRunning,
}

/// What a request to stop leads to.
#[derive(Clone, Copy, Debug, PartialEq, Eq, Structural)]
pub enum StopDecision {
    /// The service ran: pause the stream and end the broadcast.
    Halt,
    /// The service is stopped already: do nothing but say so.
    AlreadyStopped,
}

impl LTServerOpts {
    /// The same options with another state.
    pub open spec fn in_state(self, state: LTServerState) -> LTServerOpts {
        LTServerOpts { lt_server_state: state, ..self }
    }
}

/// Decides a request to start. A stopped service is to be launched and
/// counts as running from here on; a running one is left alone.
pub fn start_lt_server(lt_server_opts: &mut LTServerOpts) -> (r: StartDecision)
    ensures
        *final(lt_server_opts) == old(lt_server_opts).in_state(LTServerState::Running),
        r == if old(lt_server_opts).lt_server_state == LTServerState::Stopped {
            StartDecision::Launch
        } else {
            StartDecision::AlreadyRunning
        },
{
    match lt_server_opts.lt_server_state {
        LTServerState::Running => StartDecision::AlreadyRunning,
        LTServerState::Stopped => {
            lt_server_opts.lt_server_state = LTServerState::Running;
            StartDecision::Launch
        },
    }
}

/// Decides a request to stop. A running service is to be halted and
/// counts as stopped from here on; a stopped one is left alone.
pub fn stop_lt_server(lt_server_opts: &mut LTServerOpts) -> (r: StopDecision)
    ensures
        *final(lt_server_opts) == old(lt_server_opts).in_state(LTServerState::Stopped),
        r == if old(lt_server_opts).lt_server_state == LTServerState::Running {
            StopDecision::Halt
        } else {
            StopDecision::AlreadyStopped
        },
{
    match lt_server_opts.lt_server_state {
        LTServerState::Stopped => StopDecision::AlreadyStopped,
        LTServerState::Running => {
            lt_server_opts.lt_server_state = LTServerState::Stopped;
            StopDecision::Halt
        },
    }
}

} // verus!
