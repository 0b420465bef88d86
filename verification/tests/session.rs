use hsm_client::capability::{Capability, CapabilitySet};
use hsm_client::channel::{authenticated_data, seal, unseal, TAG_BYTES};
use hsm_client::commands::{
    export_wrapped, generate_wrap_key, unwrap_data, wrap_data, DeleteObjectCommand,
    DeleteObjectResponse, GenerateWrapKeyResponse, WrapDataResponse,
};
use hsm_client::error::{ProtocolError, SessionError, TransportError};
use hsm_client::object::{Domain, ObjectLabel, ObjectType, WrapAlgorithm};
use hsm_client::session::{
    interpret_reply, Connector, Handshake, Primitives, Session, SessionState,
    INSUFFICIENT_PERMISSIONS, REJECTION,
};

/// A toy cipher and a toy tag: enough to tell keys, counters and messages
/// apart.
#[derive(Clone, Copy)]
struct Toy;

fn keystream(key: &[u8], counter: u32, index: usize) -> u8 {
    let k = if key.is_empty() { 0 } else { key[index % key.len()] };
    k ^ (counter as u8).wrapping_mul(31) ^ (index as u8).wrapping_mul(7) ^ 0xa5
}

impl Primitives for Toy {
    fn encrypt(&self, key: &[u8], counter: u32, plaintext: &[u8]) -> Vec<u8> {
        plaintext.iter().enumerate().map(|(i, b)| b ^ keystream(key, counter, i)).collect()
    }

    fn decrypt(&self, key: &[u8], counter: u32, ciphertext: &[u8]) -> Option<Vec<u8>> {
        Some(self.encrypt(key, counter, ciphertext))
    }

    fn tag(&self, key: &[u8], counter: u32, message: &[u8]) -> [u8; TAG_BYTES] {
        let mut state: u64 = 0xcbf2_9ce4_8422_2325;
        for byte in key.iter().chain(counter.to_be_bytes().iter()).chain(message.iter()) {
            state ^= u64::from(*byte);
            state = state.wrapping_mul(0x0000_0100_0000_01b3);
        }
        state.to_be_bytes()
    }
}

/// Primitives whose decryption always fails.
struct NoDecryption;

impl Primitives for NoDecryption {
    fn encrypt(&self, key: &[u8], counter: u32, plaintext: &[u8]) -> Vec<u8> {
        Toy.encrypt(key, counter, plaintext)
    }

    fn decrypt(&self, _key: &[u8], _counter: u32, _ciphertext: &[u8]) -> Option<Vec<u8>> {
        None
    }

    fn tag(&self, key: &[u8], counter: u32, message: &[u8]) -> [u8; TAG_BYTES] {
        Toy.tag(key, counter, message)
    }
}

/// Primitives whose ciphertext is far longer than a frame can hold.
struct Bloating;

impl Primitives for Bloating {
    fn encrypt(&self, _key: &[u8], _counter: u32, _plaintext: &[u8]) -> Vec<u8> {
        vec![0u8; 0x1_0000]
    }

    fn decrypt(&self, key: &[u8], counter: u32, ciphertext: &[u8]) -> Option<Vec<u8>> {
        Toy.decrypt(key, counter, ciphertext)
    }

    fn tag(&self, key: &[u8], counter: u32, message: &[u8]) -> [u8; TAG_BYTES] {
        Toy.tag(key, counter, message)
    }
}

const SESSION_ID: u8 = 0x2a;
const ENC_KEY: [u8; 16] = [0x11; 16];
const MAC_KEY: [u8; 16] = [0x22; 16];
const RMAC_KEY: [u8; 16] = [0x33; 16];

#[derive(Clone, PartialEq)]
enum Behaviour {
    Honest,
    FlipTagBit { index: usize, bit: u8 },
    FlipCiphertextBit,
    Fail(TransportError),
    Reject(u8),
    AnswerAs(u8),
    AnswerFor(u8),
    AnswerWith(Vec<u8>),
    Raw(Vec<u8>),
}

/// A simulated device behind a connector that counts its calls.
struct Device {
    counter: u32,
    calls: usize,
    bodies: Vec<Vec<u8>>,
    operations: Vec<u8>,
    behaviour: Behaviour,
}

impl Device {
    fn new() -> Device {
        Device {
            counter: 0,
            calls: 0,
            bodies: Vec::new(),
            operations: Vec::new(),
            behaviour: Behaviour::Honest,
        }
    }

    fn answer(&self, operation: u8, body: &[u8]) -> Vec<u8> {
        match operation {
            0x58 => Vec::new(),
            0x5b => body[..2].to_vec(),
            0x4a => vec![0xe0, body[0], body[1], body[2], body[3], body[4]],
            0x68 | 0x69 => body[2..].iter().rev().copied().collect(),
            _ => Vec::new(),
        }
    }

    fn reply(&self, operation: u8, session_id: u8, payload: &[u8]) -> Vec<u8> {
        let ciphertext = Toy.encrypt(&ENC_KEY, self.counter, payload);
        let data = authenticated_data(operation, session_id, &ciphertext);
        let tag = Toy.tag(&RMAC_KEY, self.counter, &data);
        seal(operation, session_id, &ciphertext, &tag).unwrap()
    }
}

impl Connector for Device {
    fn send(&mut self, request: &[u8]) -> Result<Vec<u8>, TransportError> {
        self.calls += 1;
        if let Behaviour::Fail(error) = self.behaviour {
            return Err(error);
        }
        let parts = unseal(request).expect("the request is a sealed frame");
        self.counter += 1;
        assert_eq!(parts.session_id, SESSION_ID);
        let data = authenticated_data(parts.operation, parts.session_id, parts.ciphertext);
        assert_eq!(parts.tag, &Toy.tag(&MAC_KEY, self.counter, &data)[..]);
        let body = Toy.decrypt(&ENC_KEY, self.counter, parts.ciphertext).unwrap();
        let answer = self.answer(parts.operation, &body);
        self.operations.push(parts.operation);
        self.bodies.push(body);
        let mut frame = match &self.behaviour {
            Behaviour::Reject(reason) => self.reply(REJECTION, SESSION_ID, &[*reason]),
            Behaviour::AnswerAs(operation) => self.reply(*operation, SESSION_ID, &answer),
            Behaviour::AnswerFor(session_id) => self.reply(parts.operation, *session_id, &answer),
            Behaviour::AnswerWith(payload) => self.reply(parts.operation, SESSION_ID, payload),
            Behaviour::Raw(frame) => frame.clone(),
            _ => self.reply(parts.operation, SESSION_ID, &answer),
        };
        match self.behaviour {
            Behaviour::FlipTagBit { index, bit } => {
                let start = frame.len() - TAG_BYTES;
                frame[start + index] ^= 1 << bit;
            }
            Behaviour::FlipCiphertextBit => frame[4] ^= 0x01,
            _ => {}
        }
        Ok(frame)
    }
}

fn handshake() -> Handshake {
    Handshake {
        session_id: SESSION_ID,
        enc_key: ENC_KEY.to_vec(),
        mac_key: MAC_KEY.to_vec(),
        rmac_key: RMAC_KEY.to_vec(),
        derived_tag: [1, 2, 3, 4, 5, 6, 7, 8],
        device_tag: [1, 2, 3, 4, 5, 6, 7, 8],
    }
}

fn active_session() -> Session<Toy> {
    let mut session = Session::new(Toy);
    session.begin_authentication().unwrap();
    session.authenticate(handshake()).unwrap();
    session
}

fn delete_command() -> DeleteObjectCommand {
    DeleteObjectCommand { object_id: 0x0042, object_type: ObjectType::Asymmetric }
}

#[test]
fn a_fresh_session_is_unauthenticated() {
    let session = Session::new(Toy);
    assert_eq!(session.state(), SessionState::Unauthenticated);
    assert_eq!(session.counter(), 0);
    assert_eq!(session.id(), 0);
}

#[test]
fn authentication_makes_the_session_active() {
    let mut session = Session::new(Toy);
    assert_eq!(session.begin_authentication(), Ok(()));
    assert_eq!(session.state(), SessionState::Authenticating);
    assert_eq!(session.authenticate(handshake()), Ok(()));
    assert_eq!(session.state(), SessionState::Active);
    assert_eq!(session.id(), SESSION_ID);
    assert_eq!(session.counter(), 0);
}

#[test]
fn a_handshake_can_only_begin_once() {
    let mut session = Session::new(Toy);
    session.begin_authentication().unwrap();
    assert_eq!(session.begin_authentication(), Err(SessionError::Expired));
    assert_eq!(session.state(), SessionState::Authenticating);
    let mut active = active_session();
    assert_eq!(active.begin_authentication(), Err(SessionError::Expired));
    assert_eq!(active.state(), SessionState::Active);
}

#[test]
fn authenticate_needs_a_handshake_under_way() {
    let mut session = Session::new(Toy);
    assert_eq!(session.authenticate(handshake()), Err(SessionError::Expired));
    assert_eq!(session.state(), SessionState::Unauthenticated);
    let mut active = active_session();
    let mut device = Device::new();
    active.send_encrypted_command(&mut device, delete_command()).unwrap();
    assert_eq!(active.authenticate(handshake()), Err(SessionError::Expired));
    assert_eq!(active.state(), SessionState::Active);
    assert_eq!(active.counter(), 1);
}

#[test]
fn a_tag_mismatch_in_the_handshake_fails_authentication() {
    for index in 0..TAG_BYTES {
        for bit in 0..8 {
            let mut session = Session::new(Toy);
            session.begin_authentication().unwrap();
            let mut established = handshake();
            established.device_tag[index] ^= 1 << bit;
            assert_eq!(session.authenticate(established), Err(SessionError::Authentication));
            assert_eq!(session.state(), SessionState::Expired);
            assert_eq!(session.authenticate(handshake()), Err(SessionError::Expired));
            let mut device = Device::new();
            let sent = session.send_encrypted_command(&mut device, delete_command());
            assert_eq!(sent, Err(SessionError::Expired));
            assert_eq!(device.calls, 0);
        }
    }
}

#[test]
fn delete_object_end_to_end() {
    let mut session = active_session();
    let mut device = Device::new();
    let response = session.send_encrypted_command(&mut device, delete_command());
    assert_eq!(response, Ok(DeleteObjectResponse {}));
    assert_eq!(device.calls, 1);
    assert_eq!(device.operations, vec![0x58]);
    assert_eq!(device.bodies, vec![vec![0x00, 0x42, 0x03]]);
    assert_eq!(session.state(), SessionState::Active);
    assert_eq!(session.counter(), 1);
}

#[test]
fn typed_commands_end_to_end() {
    let mut session = active_session();
    let mut device = Device::new();

    let wrapped = wrap_data(&mut session, &mut device, 0x0102, vec![1, 2, 3]).unwrap();
    assert_eq!(wrapped.wrapped_data, vec![3, 2, 1]);
    assert_eq!(device.bodies[0], vec![0x01, 0x02, 1, 2, 3]);

    let unwrapped = unwrap_data(&mut session, &mut device, 0x0102, vec![3, 2, 1]).unwrap();
    assert_eq!(unwrapped.data, vec![1, 2, 3]);
    assert_eq!(device.bodies[1], vec![0x01, 0x02, 3, 2, 1]);

    let exported =
        export_wrapped(&mut session, &mut device, 0x0a0b, ObjectType::Asymmetric, 0x0c0d).unwrap();
    assert_eq!(exported.data, vec![0xe0, 0x0a, 0x0b, 0x03, 0x0c, 0x0d]);

    let created = generate_wrap_key(
        &mut session,
        &mut device,
        0xbeef,
        ObjectLabel::new([0x41; 40]),
        Domain::from_bits(1),
        CapabilitySet::from_capabilities(&[Capability::EXPORT_WRAPPED]),
        WrapAlgorithm::Aes128Ccm,
        CapabilitySet::from_bits(0),
    );
    assert_eq!(created, Ok(GenerateWrapKeyResponse { key_id: 0xbeef }));
    assert_eq!(device.bodies[3].len(), 61);

    assert_eq!(device.operations, vec![0x68, 0x69, 0x4a, 0x5b]);
    assert_eq!(device.calls, 4);
    assert_eq!(session.counter(), 4);
}

#[test]
fn the_request_is_a_sealed_frame_under_the_session_keys() {
    struct Recorder {
        frames: Vec<Vec<u8>>,
    }
    impl Connector for Recorder {
        fn send(&mut self, request: &[u8]) -> Result<Vec<u8>, TransportError> {
            self.frames.push(request.to_vec());
            Err(TransportError::Timeout)
        }
    }
    let mut session = active_session();
    let mut recorder = Recorder { frames: Vec::new() };
    let outcome = session.send_encrypted_command(&mut recorder, delete_command());
    assert_eq!(outcome, Err(SessionError::Transport(TransportError::Timeout)));
    let ciphertext = Toy.encrypt(&ENC_KEY, 1, &[0x00, 0x42, 0x03]);
    let tag = Toy.tag(&MAC_KEY, 1, &authenticated_data(0x58, SESSION_ID, &ciphertext));
    assert_eq!(recorder.frames, vec![seal(0x58, SESSION_ID, &ciphertext, &tag).unwrap()]);
    assert_eq!(recorder.frames[0][..4], [0x58, 0, 12, SESSION_ID]);
}

#[test]
fn the_counter_advances_by_one_per_command() {
    let mut session = active_session();
    let mut device = Device::new();
    for sent in 1..=20u32 {
        session.send_encrypted_command(&mut device, delete_command()).unwrap();
        assert_eq!(session.counter(), sent);
        assert_eq!(device.counter, sent);
    }
}

#[test]
fn the_counter_advances_across_protocol_errors() {
    let mut session = active_session();
    let mut device = Device::new();
    device.behaviour = Behaviour::AnswerAs(0x59);
    let outcome = session.send_encrypted_command(&mut device, delete_command());
    assert_eq!(outcome, Err(SessionError::Protocol(ProtocolError::UnexpectedResponseType)));
    assert_eq!(session.counter(), 1);
    assert_eq!(session.state(), SessionState::Active);
    device.behaviour = Behaviour::Honest;
    assert_eq!(
        session.send_encrypted_command(&mut device, delete_command()),
        Ok(DeleteObjectResponse {})
    );
    assert_eq!(session.counter(), 2);
}

#[test]
fn any_flipped_tag_bit_fails_authentication_and_expires_the_session() {
    for index in 0..TAG_BYTES {
        for bit in 0..8 {
            let mut session = active_session();
            let mut device = Device::new();
            device.behaviour = Behaviour::FlipTagBit { index, bit };
            let outcome = session.send_encrypted_command(&mut device, delete_command());
            assert_eq!(outcome, Err(SessionError::Authentication));
            assert_eq!(session.state(), SessionState::Expired);
            assert_eq!(session.counter(), 1);
            assert_eq!(device.calls, 1);

            device.behaviour = Behaviour::Honest;
            let again = session.send_encrypted_command(&mut device, delete_command());
            assert_eq!(again, Err(SessionError::Expired));
            assert_eq!(device.calls, 1);
            assert_eq!(session.counter(), 1);
        }
    }
}

#[test]
fn a_changed_ciphertext_fails_authentication() {
    let mut session = active_session();
    let mut device = Device::new();
    device.behaviour = Behaviour::FlipCiphertextBit;
    let outcome = wrap_data(&mut session, &mut device, 1, vec![1, 2, 3]);
    assert!(matches!(outcome, Err(SessionError::Authentication)));
    assert_eq!(session.state(), SessionState::Expired);
}

#[test]
fn a_reply_that_is_no_frame_fails_authentication() {
    for raw in [vec![], vec![0x58, 0, 0], vec![0x58, 0, 3, 1, 2, 3], vec![0x58, 0, 9, 1, 2, 3]] {
        let mut session = active_session();
        let mut device = Device::new();
        device.behaviour = Behaviour::Raw(raw);
        let outcome = session.send_encrypted_command(&mut device, delete_command());
        assert_eq!(outcome, Err(SessionError::Authentication));
        assert_eq!(session.state(), SessionState::Expired);
    }
}

#[test]
fn an_expired_session_never_reaches_the_connector() {
    let mut session = active_session();
    let mut device = Device::new();
    device.behaviour = Behaviour::FlipTagBit { index: 0, bit: 0 };
    let _ = session.send_encrypted_command(&mut device, delete_command());
    assert_eq!(session.state(), SessionState::Expired);
    let calls = device.calls;
    for _ in 0..5 {
        assert_eq!(
            session.send_encrypted_command(&mut device, delete_command()),
            Err(SessionError::Expired)
        );
        assert!(matches!(
            wrap_data(&mut session, &mut device, 1, vec![1]),
            Err(SessionError::Expired)
        ));
    }
    assert_eq!(device.calls, calls);
    assert_eq!(session.state(), SessionState::Expired);
}

#[test]
fn a_session_that_is_not_active_never_reaches_the_connector() {
    let mut device = Device::new();
    let mut fresh = Session::new(Toy);
    assert_eq!(
        fresh.send_encrypted_command(&mut device, delete_command()),
        Err(SessionError::Expired)
    );
    assert_eq!(fresh.state(), SessionState::Unauthenticated);
    fresh.begin_authentication().unwrap();
    assert_eq!(
        fresh.send_encrypted_command(&mut device, delete_command()),
        Err(SessionError::Expired)
    );
    assert_eq!(fresh.state(), SessionState::Authenticating);
    let mut closed = active_session();
    closed.close();
    assert_eq!(closed.state(), SessionState::Closed);
    assert_eq!(
        closed.send_encrypted_command(&mut device, delete_command()),
        Err(SessionError::Expired)
    );
    assert_eq!(closed.state(), SessionState::Closed);
    assert_eq!(device.calls, 0);
}

#[test]
fn a_transport_failure_expires_the_session() {
    for error in [TransportError::Connection, TransportError::Timeout] {
        let mut session = active_session();
        let mut device = Device::new();
        device.behaviour = Behaviour::Fail(error);
        let outcome = session.send_encrypted_command(&mut device, delete_command());
        assert_eq!(outcome, Err(SessionError::Transport(error)));
        assert_eq!(session.state(), SessionState::Expired);
        assert_eq!(session.counter(), 1);
        assert_eq!(device.calls, 1);
        device.behaviour = Behaviour::Honest;
        assert_eq!(
            session.send_encrypted_command(&mut device, delete_command()),
            Err(SessionError::Expired)
        );
        assert_eq!(device.calls, 1);
    }
}

#[test]
fn a_refusal_for_want_of_a_capability_is_reported_and_keeps_the_session() {
    let mut session = active_session();
    let mut device = Device::new();
    device.behaviour = Behaviour::Reject(INSUFFICIENT_PERMISSIONS);
    let outcome = session.send_encrypted_command(&mut device, delete_command());
    assert_eq!(outcome, Err(SessionError::Protocol(ProtocolError::InsufficientPermissions)));
    assert_eq!(session.state(), SessionState::Active);
    device.behaviour = Behaviour::Honest;
    assert_eq!(
        session.send_encrypted_command(&mut device, delete_command()),
        Ok(DeleteObjectResponse {})
    );
}

#[test]
fn another_refusal_is_an_unexpected_response() {
    let mut session = active_session();
    let mut device = Device::new();
    device.behaviour = Behaviour::Reject(0x0b);
    let outcome = session.send_encrypted_command(&mut device, delete_command());
    assert_eq!(outcome, Err(SessionError::Protocol(ProtocolError::UnexpectedResponseType)));
    assert_eq!(session.state(), SessionState::Active);
}

#[test]
fn a_response_of_the_wrong_length_is_malformed() {
    let mut session = active_session();
    let mut device = Device::new();
    device.behaviour = Behaviour::AnswerWith(vec![0]);
    let outcome = session.send_encrypted_command(&mut device, delete_command());
    assert_eq!(outcome, Err(SessionError::Protocol(ProtocolError::Malformed)));
    assert_eq!(session.state(), SessionState::Active);
    assert_eq!(session.counter(), 1);
}

#[test]
fn a_reply_for_another_session_is_malformed() {
    let mut session = active_session();
    let mut device = Device::new();
    device.behaviour = Behaviour::AnswerFor(SESSION_ID + 1);
    let outcome = session.send_encrypted_command(&mut device, delete_command());
    assert_eq!(outcome, Err(SessionError::Protocol(ProtocolError::Malformed)));
    assert_eq!(session.state(), SessionState::Active);
}

#[test]
fn a_reply_that_does_not_decrypt_is_malformed() {
    let mut session = Session::new(NoDecryption);
    session.begin_authentication().unwrap();
    session.authenticate(handshake()).unwrap();
    let mut device = Device::new();
    let outcome = session.send_encrypted_command(&mut device, delete_command());
    assert_eq!(outcome, Err(SessionError::Protocol(ProtocolError::Malformed)));
    assert_eq!(session.state(), SessionState::Active);
    assert_eq!(session.counter(), 1);
}

#[test]
fn a_command_too_long_for_a_frame_is_malformed_and_not_sent() {
    let mut session = Session::new(Bloating);
    session.begin_authentication().unwrap();
    session.authenticate(handshake()).unwrap();
    let mut device = Device::new();
    let outcome = session.send_encrypted_command(&mut device, delete_command());
    assert_eq!(outcome, Err(SessionError::Protocol(ProtocolError::Malformed)));
    assert_eq!(device.calls, 0);
    assert_eq!(session.state(), SessionState::Active);
    assert_eq!(session.counter(), 1);
}

#[test]
fn verify_tag_accepts_only_the_expected_tag() {
    let tag = [1u8, 2, 3, 4, 5, 6, 7, 8];
    let mut session = active_session();
    assert_eq!(session.verify_tag(&tag, &tag), Ok(()));
    assert_eq!(session.state(), SessionState::Active);
    assert_eq!(session.verify_tag(&tag, &[1, 2, 3, 4, 5, 6, 7, 9]), Err(SessionError::Authentication));
    assert_eq!(session.state(), SessionState::Expired);
    assert_eq!(session.verify_tag(&tag, &tag), Err(SessionError::Expired));

    let mut short = active_session();
    assert_eq!(short.verify_tag(&[1, 2], &[1, 2]), Err(SessionError::Authentication));
    assert_eq!(short.state(), SessionState::Expired);

    let mut fresh = Session::new(Toy);
    assert_eq!(fresh.verify_tag(&tag, &tag), Err(SessionError::Expired));
    assert_eq!(fresh.state(), SessionState::Unauthenticated);
}

#[test]
fn interpret_reply_reads_the_expected_response() {
    let outcome = interpret_reply::<GenerateWrapKeyResponse>(7, 7, 0x5b, Some(vec![0x12, 0x34]));
    assert_eq!(outcome, Ok(GenerateWrapKeyResponse { key_id: 0x1234 }));
    let wrapped = interpret_reply::<WrapDataResponse>(7, 7, 0x68, Some(vec![5, 6])).unwrap();
    assert_eq!(wrapped.wrapped_data, vec![5, 6]);
}

#[test]
fn interpret_reply_names_each_failure() {
    let malformed = Err(SessionError::Protocol(ProtocolError::Malformed));
    let unexpected = Err(SessionError::Protocol(ProtocolError::UnexpectedResponseType));
    let refused = Err(SessionError::Protocol(ProtocolError::InsufficientPermissions));
    assert_eq!(interpret_reply::<GenerateWrapKeyResponse>(7, 7, 0x5b, None), malformed);
    assert_eq!(interpret_reply::<GenerateWrapKeyResponse>(7, 8, 0x5b, Some(vec![1, 2])), malformed);
    assert_eq!(interpret_reply::<GenerateWrapKeyResponse>(7, 7, 0x5b, Some(vec![1])), malformed);
    assert_eq!(
        interpret_reply::<GenerateWrapKeyResponse>(7, 7, 0x5b, Some(vec![1, 2, 3])),
        malformed
    );
    assert_eq!(
        interpret_reply::<GenerateWrapKeyResponse>(7, 7, 0x58, Some(vec![1, 2])),
        unexpected
    );
    assert_eq!(
        interpret_reply::<GenerateWrapKeyResponse>(7, 7, REJECTION, Some(vec![9])),
        refused
    );
    assert_eq!(
        interpret_reply::<GenerateWrapKeyResponse>(7, 7, REJECTION, Some(vec![9, 0])),
        unexpected
    );
    assert_eq!(
        interpret_reply::<GenerateWrapKeyResponse>(7, 7, REJECTION, Some(vec![8])),
        unexpected
    );
    assert_eq!(interpret_reply::<GenerateWrapKeyResponse>(7, 7, REJECTION, Some(vec![])), unexpected);
    assert_eq!(REJECTION, 0x7f);
    assert_eq!(INSUFFICIENT_PERMISSIONS, 0x09);
}

#[test]
fn close_ends_the_session() {
    let mut session = active_session();
    session.close();
    assert_eq!(session.state(), SessionState::Closed);
    assert_eq!(session.begin_authentication(), Err(SessionError::Expired));
    assert_eq!(session.authenticate(handshake()), Err(SessionError::Expired));
    assert_eq!(session.state(), SessionState::Closed);
}

#[test]
fn independent_sessions_do_not_share_state() {
    let mut first = active_session();
    let mut second = active_session();
    let mut first_device = Device::new();
    let mut second_device = Device::new();
    first.send_encrypted_command(&mut first_device, delete_command()).unwrap();
    first.send_encrypted_command(&mut first_device, delete_command()).unwrap();
    second.send_encrypted_command(&mut second_device, delete_command()).unwrap();
    assert_eq!(first.counter(), 2);
    assert_eq!(second.counter(), 1);
    second.close();
    assert_eq!(first.state(), SessionState::Active);
}

fn reply_under(counter: u32, operation: u8, payload: &[u8]) -> Vec<u8> {
    let ciphertext = Toy.encrypt(&ENC_KEY, counter, payload);
    let tag = Toy.tag(&RMAC_KEY, counter, &authenticated_data(operation, SESSION_ID, &ciphertext));
    seal(operation, SESSION_ID, &ciphertext, &tag).unwrap()
}

#[test]
fn receive_reads_an_authentic_reply() {
    let mut session = active_session();
    let reply = reply_under(0, 0x5b, &[0x12, 0x34]);
    assert_eq!(
        session.receive::<GenerateWrapKeyResponse>(&reply),
        Ok(GenerateWrapKeyResponse { key_id: 0x1234 })
    );
    assert_eq!(session.state(), SessionState::Active);
    assert_eq!(session.counter(), 0);
}

#[test]
fn receive_authenticates_under_the_current_counter() {
    let mut session = active_session();
    let reply = reply_under(1, 0x5b, &[0x12, 0x34]);
    assert_eq!(
        session.receive::<GenerateWrapKeyResponse>(&reply),
        Err(SessionError::Authentication)
    );
    assert_eq!(session.state(), SessionState::Expired);
}

#[test]
fn receive_refuses_any_flipped_tag_bit() {
    let authentic = reply_under(0, 0x5b, &[0x12, 0x34]);
    for index in authentic.len() - TAG_BYTES..authentic.len() {
        for bit in 0..8 {
            let mut session = active_session();
            let mut corrupted = authentic.clone();
            corrupted[index] ^= 1 << bit;
            assert_eq!(
                session.receive::<GenerateWrapKeyResponse>(&corrupted),
                Err(SessionError::Authentication)
            );
            assert_eq!(session.state(), SessionState::Expired);
            assert_eq!(
                session.receive::<GenerateWrapKeyResponse>(&authentic),
                Err(SessionError::Expired)
            );
        }
    }
}

#[test]
fn receive_refuses_a_changed_operation_or_ciphertext() {
    let authentic = reply_under(0, 0x5b, &[0x12, 0x34]);
    for index in [0usize, 3, 4, 5] {
        let mut session = active_session();
        let mut changed = authentic.clone();
        changed[index] ^= 0x01;
        assert_eq!(
            session.receive::<GenerateWrapKeyResponse>(&changed),
            Err(SessionError::Authentication)
        );
        assert_eq!(session.state(), SessionState::Expired);
    }
}

#[test]
fn receive_reads_nothing_on_a_session_that_is_not_active() {
    let reply = reply_under(0, 0x5b, &[0x12, 0x34]);
    let mut fresh = Session::new(Toy);
    assert_eq!(fresh.receive::<GenerateWrapKeyResponse>(&reply), Err(SessionError::Expired));
    assert_eq!(fresh.state(), SessionState::Unauthenticated);
    let mut closed = active_session();
    closed.close();
    assert_eq!(closed.receive::<GenerateWrapKeyResponse>(&reply), Err(SessionError::Expired));
    assert_eq!(closed.state(), SessionState::Closed);
}

#[test]
fn a_command_is_never_refused_here_for_want_of_a_capability() {
    let mut session = active_session();
    let mut device = Device::new();
    device.behaviour = Behaviour::Reject(INSUFFICIENT_PERMISSIONS);
    let outcome = generate_wrap_key(
        &mut session,
        &mut device,
        0x0001,
        ObjectLabel::new([0; 40]),
        Domain::from_bits(0),
        CapabilitySet::from_bits(0),
        WrapAlgorithm::Aes128Ccm,
        CapabilitySet::from_bits(u64::MAX),
    );
    assert_eq!(outcome, Err(SessionError::Protocol(ProtocolError::InsufficientPermissions)));
    assert_eq!(device.calls, 1);
    assert_eq!(device.operations, vec![0x5b]);
    assert_eq!(session.state(), SessionState::Active);
    assert_eq!(session.counter(), 1);
}

#[test]
fn each_command_function_sends_its_arguments_once() {
    let mut session = active_session();
    let mut device = Device::new();
    let _ = export_wrapped(&mut session, &mut device, 0x0102, ObjectType::WrapKey, 0x0304);
    assert_eq!(device.calls, 1);
    assert_eq!(device.bodies[0], vec![0x01, 0x02, 0x04, 0x03, 0x04]);
    let _ = wrap_data(&mut session, &mut device, 0x0a0b, vec![9, 8, 7]);
    assert_eq!(device.calls, 2);
    assert_eq!(device.bodies[1], vec![0x0a, 0x0b, 9, 8, 7]);
    let _ = unwrap_data(&mut session, &mut device, 0x0c0d, vec![]);
    assert_eq!(device.calls, 3);
    assert_eq!(device.bodies[2], vec![0x0c, 0x0d]);
    let _ = generate_wrap_key(
        &mut session,
        &mut device,
        0x1122,
        ObjectLabel::new([0x4c; 40]),
        Domain::from_bits(0x0003),
        CapabilitySet::from_bits(0x0000_0000_0000_1000),
        WrapAlgorithm::Aes192Ccm,
        CapabilitySet::from_bits(0x0000_0000_0000_2000),
    );
    assert_eq!(device.calls, 4);
    let body = &device.bodies[3];
    assert_eq!(&body[0..2], &[0x11, 0x22]);
    assert_eq!(&body[2..42], &[0x4c; 40]);
    assert_eq!(&body[42..44], &[0x00, 0x03]);
    assert_eq!(&body[44..52], &[0, 0, 0, 0, 0, 0, 0x10, 0x00]);
    assert_eq!(body[52], 41);
    assert_eq!(&body[53..61], &[0, 0, 0, 0, 0, 0, 0x20, 0x00]);
    assert_eq!(device.operations, vec![0x4a, 0x68, 0x69, 0x5b]);
}
