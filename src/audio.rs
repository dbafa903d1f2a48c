//! The audio-thread side of an instance.
//!
//! Draining queued events and processing audio blocks run in the real-time
//! callback. Like every other operation on the engine, each call runs under
//! a guard: [`PdAudioContext`] decides, without allocating, whether its
//! instance must be selected, which engine entry point to call, and hands
//! back the guard whose release restores the previous selection.

use crate::instance::{restore_for, selection_after_release, ActiveInstanceGuard, InstanceId};
use vstd::prelude::*;

verus! {

/// An engine entry point that the audio thread calls.
#[derive(Clone, Copy, Debug, PartialEq, Eq, Structural)]
pub enum AudioCall {
    /// Deliver the queued message events through the installed hooks.
    ReceiveMessages,
    /// Deliver the queued MIDI events through the installed hooks.
    ReceiveMidiMessages,
    /// Process `ticks` blocks of 32-bit float samples.
    ProcessFloat { ticks: i32 },
    /// Process `ticks` blocks of 64-bit float samples.
    ProcessDouble { ticks: i32 },
    /// Process `ticks` blocks of 16-bit integer samples.
    ProcessShort { ticks: i32 },
    /// Process one block of non-interleaved 32-bit float samples.
    ProcessRaw,
    /// Process one block of non-interleaved 16-bit integer samples.
    ProcessRawShort,
    /// Process one block of non-interleaved 64-bit float samples.
    ProcessRawDouble,
}

/// One step of the audio thread on `instance`: select `switch_to` if it is
/// `Some` (it is `None` when `instance` is current already), then make
/// `call`, then release the guard that came with this dispatch.
#[derive(Clone, Copy, Debug, PartialEq, Eq, Structural)]
pub struct AudioDispatch {
    pub instance: InstanceId,
    pub switch_to: Option<InstanceId>,
    pub call: AudioCall,
}

/// The dispatch of `call` on `instance` when `current` is the thread's
/// selection.
pub open spec fn dispatch_for(
    current: Option<InstanceId>,
    instance: InstanceId,
    call: AudioCall,
) -> AudioDispatch {
    AudioDispatch {
        instance,
        switch_to: if current == Some(instance) {
            None
        } else {
            Some(instance)
        },
        call,
    }
}

/// A handle on one instance for the audio thread. It is cheap to copy and
/// holds nothing but the instance's identity. Each of its calls takes the
/// thread's `current` selection, as the engine reports it, and returns the
/// guard to release once the engine call is made, with the dispatch.
#[derive(Clone, Copy, Debug, PartialEq, Eq, Structural)]
pub struct PdAudioContext {
    instance: InstanceId,
}

impl PdAudioContext {
    pub closed spec fn instance_spec(&self) -> InstanceId {
        self.instance
    }

    /// The audio context of `instance`.
    pub fn new(instance: InstanceId) -> (r: PdAudioContext)
        ensures
            r.instance_spec() == instance,
    {
        PdAudioContext { instance }
    }

    /// The instance this context addresses.
    pub fn instance(&self) -> (r: InstanceId)
        ensures
            r == self.instance_spec(),
    {
        self.instance
    }

    fn dispatch(&self, current: Option<InstanceId>, call: AudioCall) -> (r: (
        ActiveInstanceGuard,
        AudioDispatch,
    ))
        ensures
            r.0.restore_spec() == restore_for(current, self.instance_spec()),
            r.1 == dispatch_for(current, self.instance_spec(), call),
    {
        let (guard, switch_to) = ActiveInstanceGuard::acquire(current, self.instance);
        (guard, AudioDispatch { instance: self.instance, switch_to, call })
    }

    /// Deliver the queued message events of this instance.
    pub fn receive_messages_from_pd(&self, current: Option<InstanceId>) -> (r: (
        ActiveInstanceGuard,
        AudioDispatch,
    ))
        ensures
            r.0.restore_spec() == restore_for(current, self.instance_spec()),
            r.1 == dispatch_for(current, self.instance_spec(), AudioCall::ReceiveMessages),
    {
        self.dispatch(current, AudioCall::ReceiveMessages)
    }

    /// Deliver the queued MIDI events of this instance.
    pub fn receive_midi_messages_from_pd(&self, current: Option<InstanceId>) -> (r: (
        ActiveInstanceGuard,
        AudioDispatch,
    ))
        ensures
            r.0.restore_spec() == restore_for(current, self.instance_spec()),
            r.1 == dispatch_for(current, self.instance_spec(), AudioCall::ReceiveMidiMessages),
    {
        self.dispatch(current, AudioCall::ReceiveMidiMessages)
    }

    /// Process `ticks` blocks of 32-bit float samples on this instance.
    pub fn process_float(&self, current: Option<InstanceId>, ticks: i32) -> (r: (
        ActiveInstanceGuard,
        AudioDispatch,
    ))
        ensures
            r.0.restore_spec() == restore_for(current, self.instance_spec()),
            r.1 == dispatch_for(current, self.instance_spec(), AudioCall::ProcessFloat { ticks }),
    {
        self.dispatch(current, AudioCall::ProcessFloat { ticks })
    }

    /// Process `ticks` blocks of 64-bit float samples on this instance.
    pub fn process_double(&self, current: Option<InstanceId>, ticks: i32) -> (r: (
        ActiveInstanceGuard,
        AudioDispatch,
    ))
        ensures
            r.0.restore_spec() == restore_for(current, self.instance_spec()),
            r.1 == dispatch_for(current, self.instance_spec(), AudioCall::ProcessDouble { ticks }),
    {
        self.dispatch(current, AudioCall::ProcessDouble { ticks })
    }

    /// Process `ticks` blocks of 16-bit integer samples on this instance.
    pub fn process_short(&self, current: Option<InstanceId>, ticks: i32) -> (r: (
        ActiveInstanceGuard,
        AudioDispatch,
    ))
        ensures
            r.0.restore_spec() == restore_for(current, self.instance_spec()),
            r.1 == dispatch_for(current, self.instance_spec(), AudioCall::ProcessShort { ticks }),
    {
        self.dispatch(current, AudioCall::ProcessShort { ticks })
    }

    /// Process one raw block of 32-bit float samples on this instance.
    pub fn process_raw(&self, current: Option<InstanceId>) -> (r: (
        ActiveInstanceGuard,
        AudioDispatch,
    ))
        ensures
            r.0.restore_spec() == restore_for(current, self.instance_spec()),
            r.1 == dispatch_for(current, self.instance_spec(), AudioCall::ProcessRaw),
    {
        self.dispatch(current, AudioCall::ProcessRaw)
    }

    /// Process one raw block of 16-bit integer samples on this instance.
    pub fn process_raw_short(&self, current: Option<InstanceId>) -> (r: (
        ActiveInstanceGuard,
        AudioDispatch,
    ))
        ensures
            r.0.restore_spec() == restore_for(current, self.instance_spec()),
            r.1 == dispatch_for(current, self.instance_spec(), AudioCall::ProcessRawShort),
    {
        self.dispatch(current, AudioCall::ProcessRawShort)
    }

    /// Process one raw block of 64-bit float samples on this instance.
    pub fn process_raw_double(&self, current: Option<InstanceId>) -> (r: (
        ActiveInstanceGuard,
        AudioDispatch,
    ))
        ensures
            r.0.restore_spec() == restore_for(current, self.instance_spec()),
            r.1 == dispatch_for(current, self.instance_spec(), AudioCall::ProcessRawDouble),
    {
        self.dispatch(current, AudioCall::ProcessRawDouble)
    }
}

/// An audio-thread call leaves the thread's selection as it found it: once
/// the call has run with `instance` selected and its guard is released, the
/// instance that was current before is current again, or the default
/// instance when none was.
pub proof fn lemma_audio_call_restores(
    current: Option<InstanceId>,
    instance: InstanceId,
    default: InstanceId,
)
    ensures
        selection_after_release(restore_for(current, instance), default, Some(instance))
            == match current {
            Some(c) => Some(c),
            None => Some(default),
        },
{
}

} // verus!
