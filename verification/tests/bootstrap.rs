use wayland_client_from_scratch::protocol::bootstrap::{
    drain, Action, Bootstrap, Failure, Input, Outgoing, State,
};
use wayland_client_from_scratch::protocol::display::event::delete_id::WlDisplayDeleteId;
use wayland_client_from_scratch::protocol::display::event::error::{
    WlDisplayError, WlDisplayErrorId,
};
use wayland_client_from_scratch::protocol::display::request::{
    get_registry_request, sync_request, Opcode, RequestParam, SyncParam,
};
use wayland_client_from_scratch::protocol::error::WlError;
use wayland_client_from_scratch::protocol::message::{WlMessage, WlMessageHeader, WlMessageIter};
use wayland_client_from_scratch::protocol::registry::event::global::WlRegistryGlobal;
use wayland_client_from_scratch::protocol::registry::event::global_remove::WlRegistryGlobalRemove;
use wayland_client_from_scratch::protocol::registry::event::WlRegistryEvent;
use wayland_client_from_scratch::protocol::types::WlString;
use wayland_client_from_scratch::protocol::WlEvent;

fn request_bytes(new_id: u32) -> Vec<u8> {
    let mut out = 1u32.to_ne_bytes().to_vec();
    out.extend_from_slice(&1u16.to_ne_bytes());
    out.extend_from_slice(&12u16.to_ne_bytes());
    out.extend_from_slice(&new_id.to_ne_bytes());
    out
}

fn global_message(name: u32, interface: &str, version: u32) -> Vec<u8> {
    let mut payload = name.to_ne_bytes().to_vec();
    payload.extend_from_slice(&WlString::new(interface).to_bytes());
    payload.extend_from_slice(&version.to_ne_bytes());
    WlMessage::new(2, 0, &payload).to_bytes()
}

fn global_event(name: u32, interface: &str, version: u32) -> WlEvent {
    WlEvent::Registry(WlRegistryEvent::Global(WlRegistryGlobal {
        name,
        interface: WlString::new(interface),
        version,
    }))
}

fn awaiting(new_id: u32) -> Bootstrap {
    let mut driver = Bootstrap::new(new_id);
    assert_eq!(driver.step(Input::Start), Action::Write(request_bytes(new_id)));
    assert_eq!(driver.step(Input::Written(12)), Action::Read);
    driver
}

#[test]
fn request_opcodes() {
    assert_eq!(Opcode::Sync.to_u16(), 0);
    assert_eq!(Opcode::GetRegistry.to_u16(), 1);
}

#[test]
fn request_params_are_one_new_id() {
    assert_eq!(SyncParam::new(3).to_bytes(), 3u32.to_ne_bytes().to_vec());
    assert_eq!(RequestParam::new(2).to_bytes(), 2u32.to_ne_bytes().to_vec());
}

#[test]
fn get_registry_request_is_twelve_bytes() {
    let msg = get_registry_request(2);
    assert_eq!(msg.object_id(), 1);
    assert_eq!(msg.opcode(), 1);
    assert_eq!(msg.header().size, 12);
    let wire = msg.to_bytes();
    assert_eq!(wire.len(), 12);
    assert_eq!(&wire[0..4], &1u32.to_ne_bytes());
    assert_eq!(&wire[4..6], &1u16.to_ne_bytes());
    assert_eq!(&wire[6..8], &12u16.to_ne_bytes());
    assert_eq!(&wire[8..12], &2u32.to_ne_bytes());
}

#[test]
fn sync_request_is_twelve_bytes() {
    let wire = sync_request(3).to_bytes();
    let mut expected = 1u32.to_ne_bytes().to_vec();
    expected.extend_from_slice(&0u16.to_ne_bytes());
    expected.extend_from_slice(&12u16.to_ne_bytes());
    expected.extend_from_slice(&3u32.to_ne_bytes());
    assert_eq!(wire, expected);
}

#[test]
fn outgoing_counts_what_was_taken() {
    let mut out = Outgoing::new(vec![1, 2, 3, 4, 5]);
    assert_eq!(out.pending(), 5);
    assert_eq!(out.unsent(), vec![1, 2, 3, 4, 5]);
    out.advance(2);
    assert_eq!(out.pending(), 3);
    assert_eq!(out.unsent(), vec![3, 4, 5]);
    out.advance(0);
    assert_eq!(out.pending(), 3);
    out.advance(usize::MAX);
    assert_eq!(out.pending(), 0);
    assert_eq!(out.unsent(), Vec::<u8>::new());
}

#[test]
fn drain_takes_every_whole_message() {
    let mut buf = global_message(1, "wl_compositor", 4);
    buf.extend_from_slice(&global_message(2, "wl_shm", 1));
    buf.extend_from_slice(&WlMessage::new(1, 1, &9u32.to_ne_bytes()).to_bytes());
    buf.extend_from_slice(&[1, 0, 0]);
    let mut stream = WlMessageIter::new(buf);
    let (events, failure) = drain(&mut stream);
    assert_eq!(
        events,
        vec![
            global_event(1, "wl_compositor", 4),
            global_event(2, "wl_shm", 1),
            WlEvent::Display(WlDisplayDeleteId { id: 9 }),
        ]
    );
    assert_eq!(failure, None);
    assert_eq!(stream.remaining(), &[1, 0, 0]);
}

#[test]
fn drain_stops_at_the_first_failure() {
    let mut buf = global_message(1, "wl_seat", 7);
    buf.extend_from_slice(&WlMessage::new(40, 3, &[]).to_bytes());
    buf.extend_from_slice(&global_message(2, "wl_shm", 1));
    let mut stream = WlMessageIter::new(buf);
    let (events, failure) = drain(&mut stream);
    assert_eq!(events, vec![global_event(1, "wl_seat", 7)]);
    assert_eq!(
        failure,
        Some(Failure {
            error: WlError::UnroutableObject(40),
            header: Some(WlMessageHeader { object_id: 40, opcode: 3, size: 8 }),
        })
    );
    assert_eq!(stream.remaining(), global_message(2, "wl_shm", 1).as_slice());
}

#[test]
fn drain_fails_on_a_header_that_declares_too_little() {
    let mut buf = 2u32.to_ne_bytes().to_vec();
    buf.extend_from_slice(&0u16.to_ne_bytes());
    buf.extend_from_slice(&3u16.to_ne_bytes());
    let mut stream = WlMessageIter::new(buf.clone());
    let (events, failure) = drain(&mut stream);
    assert_eq!(events, vec![]);
    assert_eq!(
        failure,
        Some(Failure {
            error: WlError::TruncatedBuffer,
            header: Some(WlMessageHeader { object_id: 2, opcode: 0, size: 3 }),
        })
    );
    assert_eq!(stream.remaining(), buf.as_slice());
}

#[test]
fn drain_of_nothing() {
    let mut stream = WlMessageIter::new(Vec::new());
    assert_eq!(drain(&mut stream), (vec![], None));
}

#[test]
fn driver_starts_idle() {
    let driver = Bootstrap::new(2);
    assert_eq!(driver.state(), State::Idle);
}

#[test]
fn driver_sends_the_request_and_awaits_the_response() {
    let mut driver = Bootstrap::new(2);
    assert_eq!(driver.step(Input::Start), Action::Write(request_bytes(2)));
    assert_eq!(driver.state(), State::Idle);
    assert_eq!(driver.step(Input::Written(12)), Action::Read);
    assert_eq!(driver.state(), State::AwaitingResponse);
}

#[test]
fn driver_resumes_a_short_write() {
    let mut driver = Bootstrap::new(2);
    let request = request_bytes(2);
    assert_eq!(driver.step(Input::Start), Action::Write(request.clone()));
    assert_eq!(
        driver.step(Input::Written(5)),
        Action::Retry {
            short: WlError::ShortWrite { requested: 12, written: 5 },
            bytes: request[5..].to_vec(),
        }
    );
    assert_eq!(driver.state(), State::Idle);
    assert_eq!(
        driver.step(Input::Written(0)),
        Action::Retry {
            short: WlError::ShortWrite { requested: 7, written: 0 },
            bytes: request[5..].to_vec(),
        }
    );
    assert_eq!(driver.step(Input::Start), Action::Write(request[5..].to_vec()));
    assert_eq!(
        driver.step(Input::Written(6)),
        Action::Retry {
            short: WlError::ShortWrite { requested: 7, written: 6 },
            bytes: request[11..].to_vec(),
        }
    );
    assert_eq!(driver.step(Input::Written(1)), Action::Read);
    assert_eq!(driver.state(), State::AwaitingResponse);
}

#[test]
fn driver_takes_in_a_burst_of_globals() {
    let mut driver = awaiting(2);
    let mut burst = global_message(1, "wl_compositor", 4);
    burst.extend_from_slice(&global_message(2, "wl_shm", 1));
    assert_eq!(
        driver.step(Input::Received(burst)),
        Action::Finish(vec![global_event(1, "wl_compositor", 4), global_event(2, "wl_shm", 1)])
    );
    assert_eq!(driver.state(), State::Done);
}

#[test]
fn driver_assembles_a_message_split_over_two_reads() {
    let mut driver = awaiting(2);
    let wire = global_message(3, "wl_seat", 7);
    assert_eq!(driver.step(Input::Received(wire[..9].to_vec())), Action::Finish(vec![]));
    assert_eq!(driver.state(), State::Done);
    assert_eq!(
        driver.step(Input::Received(wire[9..].to_vec())),
        Action::Finish(vec![global_event(3, "wl_seat", 7)])
    );
    assert_eq!(driver.state(), State::Done);
}

#[test]
fn driver_takes_in_a_removal() {
    let mut driver = awaiting(2);
    let wire = WlMessage::new(2, 1, &8u32.to_ne_bytes()).to_bytes();
    assert_eq!(
        driver.step(Input::Received(wire)),
        Action::Finish(vec![WlEvent::Registry(WlRegistryEvent::GlobalRemove(
            WlRegistryGlobalRemove { name: 8 }
        ))])
    );
}

#[test]
fn driver_fails_on_an_unroutable_object() {
    let mut driver = awaiting(2);
    let mut burst = global_message(1, "wl_compositor", 4);
    burst.extend_from_slice(&WlMessage::new(77, 5, &[0; 4]).to_bytes());
    assert_eq!(
        driver.step(Input::Received(burst)),
        Action::Fail(
            vec![global_event(1, "wl_compositor", 4)],
            Failure {
                error: WlError::UnroutableObject(77),
                header: Some(WlMessageHeader { object_id: 77, opcode: 5, size: 12 }),
            }
        )
    );
    assert_eq!(driver.state(), State::Failed);
}

#[test]
fn driver_fails_on_a_fatal_error_event() {
    let mut driver = awaiting(2);
    let mut payload = 2u32.to_ne_bytes().to_vec();
    payload.extend_from_slice(&2u32.to_ne_bytes());
    payload.extend_from_slice(&WlString::new("oom").to_bytes());
    let wire = WlMessage::new(1, 0, &payload).to_bytes();
    assert_eq!(
        driver.step(Input::Received(wire)),
        Action::Fail(
            vec![],
            Failure {
                error: WlError::ProtocolFatal(WlDisplayError::new(
                    2,
                    WlDisplayErrorId::NoMemory,
                    WlString::new("oom")
                )),
                header: Some(WlMessageHeader { object_id: 1, opcode: 0, size: 24 }),
            }
        )
    );
    assert_eq!(driver.state(), State::Failed);
}

#[test]
fn driver_fails_on_an_unknown_opcode() {
    let mut driver = awaiting(2);
    let wire = WlMessage::new(2, 9, &[]).to_bytes();
    assert_eq!(
        driver.step(Input::Received(wire)),
        Action::Fail(
            vec![],
            Failure {
                error: WlError::InvalidOpcode(9),
                header: Some(WlMessageHeader { object_id: 2, opcode: 9, size: 8 }),
            }
        )
    );
}

#[test]
fn driver_fails_when_the_transport_fails() {
    let io = Action::Fail(vec![], Failure { error: WlError::Io, header: None });
    let mut idle = Bootstrap::new(2);
    assert_eq!(idle.step(Input::TransportFailed), io);
    assert_eq!(idle.state(), State::Failed);
    let mut waiting = awaiting(2);
    assert_eq!(waiting.step(Input::TransportFailed), io);
    assert_eq!(waiting.state(), State::Failed);
    let mut done = awaiting(2);
    assert_eq!(done.step(Input::Received(vec![])), Action::Finish(vec![]));
    assert_eq!(done.step(Input::TransportFailed), io);
    assert_eq!(done.state(), State::Failed);
}

#[test]
fn driver_stays_failed() {
    let mut driver = Bootstrap::new(2);
    driver.step(Input::TransportFailed);
    assert_eq!(driver.step(Input::Start), Action::Ignore);
    assert_eq!(driver.step(Input::Written(12)), Action::Ignore);
    assert_eq!(driver.step(Input::Received(global_message(1, "wl_shm", 1))), Action::Ignore);
    assert_eq!(driver.step(Input::TransportFailed), Action::Ignore);
    assert_eq!(driver.state(), State::Failed);
}

#[test]
fn driver_ignores_what_does_not_apply() {
    let mut idle = Bootstrap::new(2);
    assert_eq!(idle.step(Input::Received(vec![1, 2, 3])), Action::Ignore);
    assert_eq!(idle.state(), State::Idle);
    let mut waiting = awaiting(2);
    assert_eq!(waiting.step(Input::Start), Action::Ignore);
    assert_eq!(waiting.step(Input::Written(3)), Action::Ignore);
    assert_eq!(waiting.state(), State::AwaitingResponse);
}
