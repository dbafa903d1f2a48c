use libpd_rs::{AudioCall, AudioDispatch, InstanceId, PdAudioContext, Restore};

const DEFAULT: InstanceId = InstanceId { number: 0 };
const THREE: InstanceId = InstanceId { number: 3 };
const FIVE: InstanceId = InstanceId { number: 5 };

fn ctx() -> PdAudioContext {
    PdAudioContext::new(THREE)
}

#[test]
fn audio_context_addresses_its_instance() {
    assert_eq!(ctx().instance(), THREE);
}

#[test]
fn receive_messages_from_pd() {
    let (guard, dispatch) = ctx().receive_messages_from_pd(Some(FIVE));
    assert_eq!(
        dispatch,
        AudioDispatch { instance: THREE, switch_to: Some(THREE), call: AudioCall::ReceiveMessages }
    );
    assert_eq!(guard.restore(), Restore::Previous(FIVE));
    assert_eq!(guard.release(DEFAULT), Some(FIVE));
}

#[test]
fn receive_midi_messages_from_pd() {
    let (guard, dispatch) = ctx().receive_midi_messages_from_pd(Some(THREE));
    assert_eq!(
        dispatch,
        AudioDispatch { instance: THREE, switch_to: None, call: AudioCall::ReceiveMidiMessages }
    );
    assert_eq!(guard.release(DEFAULT), None);
}

#[test]
fn audio_call_without_current_restores_default() {
    let (guard, dispatch) = ctx().process_short(None, 16);
    assert_eq!(dispatch.switch_to, Some(THREE));
    assert_eq!(guard.release(DEFAULT), Some(DEFAULT));
}

#[test]
fn audio_call_restores_previous_instance() {
    // Simulated thread selection: select, call, release.
    let mut selection = Some(FIVE);
    let (guard, dispatch) = ctx().process_float(selection, 8);
    if let Some(i) = dispatch.switch_to {
        selection = Some(i);
    }
    assert_eq!(selection, Some(THREE));
    if let Some(i) = guard.release(DEFAULT) {
        selection = Some(i);
    }
    assert_eq!(selection, Some(FIVE));
}

#[test]
fn process_calls_carry_ticks() {
    assert_eq!(ctx().process_short(Some(FIVE), 16).1.call, AudioCall::ProcessShort { ticks: 16 });
    assert_eq!(ctx().process_float(Some(FIVE), 8).1.call, AudioCall::ProcessFloat { ticks: 8 });
    assert_eq!(ctx().process_double(Some(FIVE), 2).1.call, AudioCall::ProcessDouble { ticks: 2 });
    assert_eq!(ctx().process_short(Some(FIVE), 16).1.instance, THREE);
}

#[test]
fn raw_process_calls() {
    assert_eq!(ctx().process_raw_short(Some(FIVE)).1.call, AudioCall::ProcessRawShort);
    assert_eq!(ctx().process_raw(Some(FIVE)).1.call, AudioCall::ProcessRaw);
    assert_eq!(ctx().process_raw_double(Some(FIVE)).1.call, AudioCall::ProcessRawDouble);
    assert_eq!(ctx().process_raw_short(None).1.instance, THREE);
}
