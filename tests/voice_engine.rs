use gamechat::packet::{encode_frame, Sample, RECV_BUFFER_BYTES};
use gamechat::voice::{
    Endpoint, IpAddress, LoopAction, LoopEvent, PipelineOutcome, StartAction, VoiceError,
    VoiceManager,
};

fn loopback(port: u16) -> Endpoint {
    Endpoint { ip: IpAddress::V4(127, 0, 0, 1), port }
}

fn engine() -> VoiceManager {
    VoiceManager::new(Some(loopback(40000))).unwrap()
}

fn frame(n: usize, seed: u8) -> Vec<Sample> {
    (0..n)
        .map(|i| {
            let v = (i as u8).wrapping_mul(31).wrapping_add(seed);
            Sample { b0: v, b1: v ^ 0x55, b2: seed, b3: 0x80 }
        })
        .collect()
}

#[test]
fn bind_failure_is_reported() {
    assert!(matches!(VoiceManager::new(None), Err(VoiceError::BindFailed)));
}

#[test]
fn new_engine_is_stopped_without_target() {
    let vm = engine();
    assert!(!vm.is_running());
    assert_eq!(vm.target(), None);
    assert_eq!(vm.local_addr(), loopback(40000));
    assert_eq!(vm.recv_failures(), 0);
    assert_eq!(vm.send_failures(), 0);
}

#[test]
fn start_twice_brings_up_once() {
    let mut vm = engine();
    assert_eq!(vm.start_audio_loop(), StartAction::BringUp);
    assert_eq!(vm.start_audio_loop(), StartAction::AlreadyRunning);
    assert!(vm.is_running());
    assert!(vm.should_continue());
}

#[test]
fn stop_then_start_brings_up_again() {
    let mut vm = engine();
    assert_eq!(vm.start_audio_loop(), StartAction::BringUp);
    vm.stop();
    assert!(!vm.should_continue());
    assert_eq!(vm.start_audio_loop(), StartAction::BringUp);
    assert!(vm.is_running());
    vm.stop();
    vm.stop();
    assert!(!vm.is_running());
}

#[test]
fn stream_failure_is_reported_and_stops() {
    let mut vm = engine();
    vm.start_audio_loop();
    assert_eq!(vm.finish_start(PipelineOutcome::StreamInitFailed), Err(VoiceError::StreamInitFailed));
    assert!(!vm.is_running());
    assert_eq!(vm.start_audio_loop(), StartAction::BringUp);
}

#[test]
fn missing_device_degrades_silently() {
    let mut vm = engine();
    vm.start_audio_loop();
    assert_eq!(vm.finish_start(PipelineOutcome::DeviceUnavailable), Ok(()));
    assert!(vm.is_running());
    assert_eq!(vm.finish_start(PipelineOutcome::Running), Ok(()));
    assert!(vm.is_running());
}

#[test]
fn captured_frame_without_target_is_discarded() {
    let mut vm = engine();
    let a = vm.handle_event(LoopEvent::Captured(vec![1, 2, 3, 4]));
    assert!(matches!(a, LoopAction::Discard));
}

#[test]
fn next_send_uses_the_new_target() {
    let mut vm = engine();
    vm.set_target(loopback(5000));
    vm.set_target(loopback(6000));
    match vm.handle_event(LoopEvent::Captured(vec![1, 2, 3, 4])) {
        LoopAction::Send { data, to } => {
            assert_eq!(data, vec![1, 2, 3, 4]);
            assert_eq!(to, loopback(6000));
        }
        other => panic!("unexpected action {:?}", other),
    }
    let v6 = Endpoint { ip: IpAddress::V6(0, 0, 0, 0, 0, 0, 0, 1), port: 7 };
    vm.set_target(v6);
    match vm.handle_event(LoopEvent::Captured(vec![9])) {
        LoopAction::Send { to, .. } => assert_eq!(to, v6),
        other => panic!("unexpected action {:?}", other),
    }
}

#[test]
fn received_payload_is_delivered_as_samples() {
    let mut vm = engine();
    match vm.handle_event(LoopEvent::Received(vec![1, 2, 3, 4, 5, 6])) {
        LoopAction::Deliver(f) => assert_eq!(f, vec![Sample { b0: 1, b1: 2, b2: 3, b3: 4 }]),
        other => panic!("unexpected action {:?}", other),
    }
}

#[test]
fn failures_are_counted_and_the_loop_goes_on() {
    let mut vm = engine();
    vm.start_audio_loop();
    assert!(matches!(vm.handle_event(LoopEvent::ReceiveFailed), LoopAction::Continue));
    assert!(matches!(vm.handle_event(LoopEvent::ReceiveFailed), LoopAction::Continue));
    assert!(matches!(vm.handle_event(LoopEvent::SendFailed), LoopAction::Continue));
    assert_eq!(vm.recv_failures(), 2);
    assert_eq!(vm.send_failures(), 1);
    assert!(vm.should_continue());
}

fn loopback_frames(frames: &[Vec<Sample>]) -> Vec<Vec<Sample>> {
    let mut vm = engine();
    let own = vm.local_addr();
    vm.set_target(own);
    vm.start_audio_loop();
    let mut played = Vec::new();
    for f in frames {
        let wire = match vm.handle_event(LoopEvent::Captured(encode_frame(f))) {
            LoopAction::Send { data, to } => {
                assert_eq!(to, own);
                data
            }
            other => panic!("unexpected action {:?}", other),
        };
        let held = wire[..wire.len().min(RECV_BUFFER_BYTES)].to_vec();
        match vm.handle_event(LoopEvent::Received(held)) {
            LoopAction::Deliver(got) => played.push(got),
            other => panic!("unexpected action {:?}", other),
        }
    }
    played
}

#[test]
fn loopback_one_frame() {
    let frames = vec![frame(160, 1)];
    assert_eq!(loopback_frames(&frames), frames);
}

#[test]
fn loopback_hundred_frames() {
    let frames: Vec<Vec<Sample>> = (0..100).map(|i| frame(64 + i, i as u8)).collect();
    assert_eq!(loopback_frames(&frames), frames);
}

#[test]
fn loopback_frame_of_4096_samples_is_cut_to_buffer() {
    let big = frame(4096, 3);
    let got = loopback_frames(&[big.clone()]);
    assert_eq!(got, vec![big[..1024].to_vec()]);
}

#[test]
fn device_lists_fall_back_to_placeholder() {
    assert_eq!(VoiceManager::get_input_devices(None), vec!["Default Input".to_string()]);
    assert_eq!(VoiceManager::get_output_devices(None), vec!["Default Output".to_string()]);
    assert_eq!(VoiceManager::get_input_devices(Some(vec![])), vec!["Default Input".to_string()]);
    assert_eq!(VoiceManager::get_output_devices(Some(vec![None])), vec!["Default Output".to_string()]);
}

#[test]
fn device_lists_keep_readable_names_in_order() {
    let found = vec![Some("Mic A".to_string()), None, Some("Headset".to_string())];
    assert_eq!(
        VoiceManager::get_input_devices(Some(found)),
        vec!["Mic A".to_string(), "Headset".to_string()]
    );
}

#[test]
fn device_lists_after_stop() {
    let mut vm = engine();
    vm.set_target(loopback(1234));
    vm.start_audio_loop();
    vm.stop();
    assert_eq!(VoiceManager::get_input_devices(None).len(), 1);
    assert_eq!(VoiceManager::get_output_devices(Some(vec![Some("Speakers".to_string())])), vec!["Speakers".to_string()]);
    assert_eq!(vm.target(), Some(loopback(1234)));
}
