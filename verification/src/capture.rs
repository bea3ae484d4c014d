//! How a capture stream is set up: which configuration is asked for first,
//! and what follows when the device turns one down.

use vstd::prelude::*;

verus! {

/// The block length of a stream.
#[derive(Clone, Copy, Debug, PartialEq, Eq, Structural)]
pub enum BufferSize {
    /// Whatever the device uses by itself.
    Default,
    /// This many samples.
    Fixed(u32),
}

/// The shape of a stream.
#[derive(Clone, Copy, Debug, PartialEq, Eq, Structural)]
pub struct StreamConfig {
    pub channels: u16,
    pub sample_rate: u32,
    pub buffer_size: BufferSize,
}

/// Which configuration an attempt to open the stream was made with.
#[derive(Clone, Copy, Debug, PartialEq, Eq, Structural)]
pub enum Attempt {
    /// The preferred configuration.
    Preferred,
    /// The device's own default configuration.
    Fallback,
}

/// What follows an attempt to open the stream.
#[derive(Clone, Copy, Debug, PartialEq, Eq, Structural)]
pub enum NextStep {
    /// The stream is open: use it.
    Use,
    /// The preferred configuration was turned down: say so, and try
    /// once more with the device's default.
    FallBack,
    /// The default was turned down too: give up.
    Fail,
}

/// The configuration that is asked for first: the sample rate and the
/// block length that the user asked for, with the channel count that the
/// device reports as its default.
pub fn preferred_config(default: StreamConfig, sample_rate: u32, buffer_size: u32) -> (r:
    StreamConfig)
    ensures
        r == (StreamConfig {
            channels: default.channels,
            sample_rate,
            buffer_size: BufferSize::Fixed(buffer_size),
        }),
{
    StreamConfig {
        channels: default.channels,
        sample_rate,
        buffer_size: BufferSize::Fixed(buffer_size),
    }
}

/// The step that follows an attempt.
pub open spec fn step_after(attempt: Attempt, opened: bool) -> NextStep {
    if opened {
        NextStep::Use
    } else {
        match attempt {
            Attempt::Preferred => NextStep::FallBack,
            Attempt::Fallback => NextStep::Fail,
        }
    }
}

/// Decides what follows an attempt to open the stream: a stream that
/// opened is used; after the preferred configuration the default is tried,
/// once; after the default nothing is.
pub fn next_step(attempt: Attempt, opened: bool) -> (r: NextStep)
    ensures
        r == step_after(attempt, opened),
{
    if opened {
        NextStep::Use
    } else {
        match attempt {
            Attempt::Preferred => NextStep::FallBack,
            Attempt::Fallback => NextStep::Fail,
        }
    }
}

} // verus!
