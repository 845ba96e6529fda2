use kalive::codec::TunnelMsg;
use kalive::codec::encode_msg;
use kalive::hello::HelloState;
use kalive::hello::fresh_client_id;
use kalive::hello::hello_begin;
use kalive::hello::hello_datagram;
use kalive::hello::hello_tick;
use kalive::relay::downstream_step;

#[test]
fn hello_is_sent_at_once_and_resent_each_tick() {
    let (st, first) = hello_begin(99);
    assert_eq!(first, bincode::serialize(&(0u32, 99u128)).unwrap());
    // No answer: every tick resends the same hello.
    let again = hello_tick(&st).expect("still waiting");
    assert_eq!(again, first);
    let again = hello_tick(&st).expect("still waiting");
    assert_eq!(again, first);
}

#[test]
fn non_matching_messages_are_ignored() {
    let (st, _) = hello_begin(99);
    // Garbage.
    let (st1, announced) = hello_datagram(st, &[1, 2, 3]);
    assert!(announced.is_none());
    assert_eq!(st1, st);
    // A stray ClientHello echo.
    let echo = encode_msg(&TunnelMsg::ClientHello { client_id: 99 });
    let (st2, announced) = hello_datagram(st1, &echo);
    assert!(announced.is_none());
    assert_eq!(st2, st);
    // A payload before negotiation finishes.
    let pay = encode_msg(&TunnelMsg::Payload { body: vec![1] });
    let (st3, announced) = hello_datagram(st2, &pay);
    assert!(announced.is_none());
    assert_eq!(st3, st);
}

#[test]
fn server_hello_announces_exactly_once() {
    let (st, _) = hello_begin(7);
    let answer = encode_msg(&TunnelMsg::ServerHello { client_ip: 0x64400a01 });
    let (st1, announced) = hello_datagram(st, &answer);
    let frame = announced.expect("first server hello announces");
    // Verb one, the address text as body.
    assert_eq!(frame[0], 1);
    assert_eq!(&frame[3..], b"100.64.10.1/10");
    assert_eq!(st1, HelloState::Established { client_id: 7, client_ip: 0x64400a01 });
    // Once established: no further announcement, no further resend.
    let (st2, announced) = hello_datagram(st1, &answer);
    assert!(announced.is_none());
    assert_eq!(st2, st1);
    assert!(hello_tick(&st1).is_none());
}

#[test]
fn fresh_client_ids_are_drawable() {
    // Nothing is promised of the values; drawing twice must simply work.
    let _a = fresh_client_id();
    let _b = fresh_client_id();
}

#[test]
fn downstream_payload_becomes_local_frame() {
    let datagram = encode_msg(&TunnelMsg::Payload { body: vec![9, 9, 9] });
    let frame = downstream_step(&datagram).expect("payload relays");
    assert_eq!(frame, vec![0u8, 0, 3, 9, 9, 9]);
}

#[test]
fn downstream_ignores_non_payload() {
    let hello = encode_msg(&TunnelMsg::ClientHello { client_id: 1 });
    assert!(downstream_step(&hello).is_none());
    assert!(downstream_step(&[0xde, 0xad]).is_none());
}
