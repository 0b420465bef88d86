//! The secure session: the state machine that owns the session keys and
//! the message counter, and the one way to send a command through it.
//!
//! The session does no cryptography and no I/O of its own. The primitives
//! that encrypt and authenticate are plugged in through [`Primitives`], the
//! transport through [`Connector`]. Two things are taken on trust of their
//! implementations, and nothing else: that what a primitive returns depends
//! on its arguments alone, and that a connector carries the record of its
//! exchanges. Over these, what a dispatch hands out and what it makes of
//! the reply are stated exactly.

use crate::channel::{
    authenticated_data, is_zeroized, seal, spec_authenticated_data, spec_seal, spec_unseal,
    tags_equal, unseal, zeroed, zeroize, SealedView, MAX_CIPHERTEXT_BYTES, TAG_BYTES,
};
use crate::commands::{Command, Message, Response};
use crate::error::{ProtocolError, SessionError, TransportError};
use vstd::prelude::*;

verus! {

/// Operation identifier of a reply in which the device refuses the command.
/// Its payload is one byte that says why.
pub const REJECTION: u8 = 0x7f;

/// The reason a device gives when the session's key lacks a capability that
/// the command needs.
pub const INSUFFICIENT_PERMISSIONS: u8 = 0x09;

/// One exchange over a connector: the request that was sent and what came
/// back.
pub struct Exchange {
    pub request: Seq<u8>,
    pub reply: Result<Seq<u8>, TransportError>,
}

/// What a connector returned, as plain values.
pub open spec fn spec_reply(reply: Result<Vec<u8>, TransportError>) -> Result<
    Seq<u8>,
    TransportError,
> {
    match reply {
        Ok(bytes) => Ok(bytes@),
        Err(error) => Err(error),
    }
}

/// The bytes of an optional buffer.
pub open spec fn spec_bytes(buffer: Option<Vec<u8>>) -> Option<Seq<u8>> {
    match buffer {
        Some(bytes) => Some(bytes@),
        None => None,
    }
}

/// The transport to the device: it carries one request and brings back the
/// reply, or fails. It knows nothing of frames or sessions.
///
/// An implementation is trusted to make one exchange per call of `send`,
/// with the request it was given. The record of its exchanges is how the
/// session's contracts say what was sent and what was made of the reply.
pub trait Connector {
    /// Every exchange made over this connector, oldest first. It stands for
    /// what the implementation has done and is left unspecified here.
    closed spec fn exchanges(&self) -> Seq<Exchange> {
        vstd::pervasive::arbitrary::<spec_fn(&Self) -> Seq<Exchange>>()(self)
    }

    /// Sends a request and waits for the reply.
    fn send(&mut self, request: &[u8]) -> (reply: Result<Vec<u8>, TransportError>)
        ensures
            final(self).exchanges() == old(self).exchanges().push(
                Exchange { request: request@, reply: spec_reply(reply) },
            ),
    ;
}

/// The cryptographic primitives of a session.
///
/// An implementation is trusted to be a function of its arguments: the
/// same key, counter and input give the same output. That is all the three
/// spec functions say; they stand for what the implementation computes and
/// are left unspecified here. An implementation is expected, but not
/// trusted, to decrypt what it encrypted and to compute a tag that cannot
/// be made without the key: the session checks what comes back.
pub trait Primitives {
    /// The ciphertext of a payload.
    closed spec fn spec_encrypt(&self, key: Seq<u8>, counter: u32, plaintext: Seq<u8>) -> Seq<u8> {
        vstd::pervasive::arbitrary::<spec_fn(&Self, Seq<u8>, u32, Seq<u8>) -> Seq<u8>>()(
            self,
            key,
            counter,
            plaintext,
        )
    }

    /// The plaintext of a ciphertext, if it is one.
    closed spec fn spec_decrypt(&self, key: Seq<u8>, counter: u32, ciphertext: Seq<u8>) -> Option<
        Seq<u8>,
    > {
        vstd::pervasive::arbitrary::<spec_fn(&Self, Seq<u8>, u32, Seq<u8>) -> Option<Seq<u8>>>()(
            self,
            key,
            counter,
            ciphertext,
        )
    }

    /// The integrity tag of a message.
    closed spec fn spec_tag(&self, key: Seq<u8>, counter: u32, message: Seq<u8>) -> Seq<u8> {
        vstd::pervasive::arbitrary::<spec_fn(&Self, Seq<u8>, u32, Seq<u8>) -> Seq<u8>>()(
            self,
            key,
            counter,
            message,
        )
    }

    /// Encrypts a payload under the confidentiality key. The counter makes
    /// the keystream of each message its own.
    fn encrypt(&self, key: &[u8], counter: u32, plaintext: &[u8]) -> (ciphertext: Vec<u8>)
        ensures
            ciphertext@ == self.spec_encrypt(key@, counter, plaintext@),
    ;

    /// Decrypts a ciphertext, or reports that it is none.
    fn decrypt(&self, key: &[u8], counter: u32, ciphertext: &[u8]) -> (plaintext: Option<Vec<u8>>)
        ensures
            spec_bytes(plaintext) == self.spec_decrypt(key@, counter, ciphertext@),
    ;

    /// Computes the integrity tag of a message under an integrity key and
    /// the counter.
    fn tag(&self, key: &[u8], counter: u32, message: &[u8]) -> (tag: [u8; TAG_BYTES])
        ensures
            tag@ == self.spec_tag(key@, counter, message@),
    ;
}

/// The life of a session.
#[derive(Clone, Copy, Debug, PartialEq, Eq, Structural)]
pub enum SessionState {
    /// No keys yet: the session can only be authenticated.
    Unauthenticated,
    /// The handshake with the device is under way.
    Authenticating,
    /// Commands can be sent.
    Active,
    /// The session failed and cannot be used again.
    Expired,
    /// The session was closed.
    Closed,
}

/// What a handshake with the device has established: the identifier the
/// device gave the session, the keys both sides derived, and the two
/// authentication tags, the one derived here and the one the device sent.
pub struct Handshake {
    /// Session identifier assigned by the device
    pub session_id: u8,
    /// Key for confidentiality
    pub enc_key: Vec<u8>,
    /// Key for the integrity of commands
    pub mac_key: Vec<u8>,
    /// Key for the integrity of responses
    pub rmac_key: Vec<u8>,
    /// The authentication tag derived on this side
    pub derived_tag: [u8; TAG_BYTES],
    /// The authentication tag the device sent
    pub device_tag: [u8; TAG_BYTES],
}

/// The state of a session as plain values: everything but its primitives.
pub struct SessionView {
    pub state: SessionState,
    pub id: u8,
    pub counter: u32,
    pub enc_key: Seq<u8>,
    pub mac_key: Seq<u8>,
    pub rmac_key: Seq<u8>,
}

impl SessionView {
    /// True when every key byte is zero.
    pub open spec fn holds_no_key(self) -> bool {
        is_zeroized(self.enc_key) && is_zeroized(self.mac_key) && is_zeroized(self.rmac_key)
    }

    /// Only an active session holds keys.
    pub open spec fn wf(self) -> bool {
        self.state != SessionState::Active ==> self.holds_no_key()
    }

    /// The session in the given state, with its keys overwritten by zeros.
    pub open spec fn wiped(self, state: SessionState) -> SessionView {
        SessionView {
            state,
            id: self.id,
            counter: self.counter,
            enc_key: zeroed(self.enc_key),
            mac_key: zeroed(self.mac_key),
            rmac_key: zeroed(self.rmac_key),
        }
    }

    /// The same session in another state.
    pub open spec fn in_state(self, state: SessionState) -> SessionView {
        SessionView { state, ..self }
    }

    /// The same session after one more message.
    pub open spec fn advanced(self) -> SessionView {
        SessionView { counter: (self.counter + 1) as u32, ..self }
    }
}

/// Whether a session can start a dispatch: it is active and its counter is
/// not exhausted.
pub open spec fn can_send(before: SessionView) -> bool {
    before.state == SessionState::Active && before.counter < u32::MAX
}

/// The ciphertext of a payload, under the session's confidentiality key and
/// its counter.
pub open spec fn spec_ciphertext<P: Primitives>(
    primitives: P,
    session: SessionView,
    payload: Seq<u8>,
) -> Seq<u8> {
    primitives.spec_encrypt(session.enc_key, session.counter, payload)
}

/// The frame that carries a command: the ciphertext of its payload, tagged
/// under the session's key for commands and its counter, sealed with the
/// operation and the session identifier.
pub open spec fn spec_request<P: Primitives>(
    primitives: P,
    session: SessionView,
    operation: u8,
    payload: Seq<u8>,
) -> Seq<u8> {
    let ciphertext = spec_ciphertext(primitives, session, payload);
    spec_seal(
        SealedView {
            operation,
            session_id: session.id,
            ciphertext,
            tag: primitives.spec_tag(
                session.mac_key,
                session.counter,
                spec_authenticated_data(operation, session.id, ciphertext),
            ),
        },
    )
}

/// The tag a reply has to carry: the tag of what it authenticates, under
/// the session's key for responses and its counter.
pub open spec fn spec_expected_tag<P: Primitives>(
    primitives: P,
    session: SessionView,
    reply: Seq<u8>,
) -> Seq<u8> {
    match spec_unseal(reply) {
        Some(parts) => primitives.spec_tag(
            session.rmac_key,
            session.counter,
            spec_authenticated_data(parts.operation, parts.session_id, parts.ciphertext),
        ),
        None => Seq::empty(),
    }
}

/// What decryption makes of the ciphertext of a reply, under the session's
/// confidentiality key and its counter.
pub open spec fn spec_plaintext<P: Primitives>(
    primitives: P,
    session: SessionView,
    reply: Seq<u8>,
) -> Option<Seq<u8>> {
    match spec_unseal(reply) {
        Some(parts) => primitives.spec_decrypt(session.enc_key, session.counter, parts.ciphertext),
        None => None,
    }
}

/// The state of a session after the check of a reply's integrity tag, and
/// what the check returns. A tag that differs from the expected one in any
/// bit, or in length, expires the session.
pub open spec fn spec_verify_tag(before: SessionView, expected: Seq<u8>, received: Seq<u8>) -> (
    SessionView,
    Result<(), SessionError>,
) {
    if before.state != SessionState::Active {
        (before, Err(SessionError::Expired))
    } else if received.len() == TAG_BYTES && expected == received {
        (before, Ok(()))
    } else {
        (before.wiped(SessionState::Expired), Err(SessionError::Authentication))
    }
}

/// What an authentic reply means to a command that expects the response
/// `R`, given the plaintext that decryption made of it.
pub open spec fn spec_interpret_reply<R: Response>(
    session_id: u8,
    reply_session: u8,
    operation: u8,
    plaintext: Option<Seq<u8>>,
) -> Result<R::V, SessionError> {
    match plaintext {
        None => Err(SessionError::Protocol(ProtocolError::Malformed)),
        Some(data) => if reply_session != session_id {
            Err(SessionError::Protocol(ProtocolError::Malformed))
        } else if operation == R::spec_command_type().spec_to_u8() {
            match R::spec_decode(data) {
                Ok(response) => Ok(response),
                Err(_) => Err(SessionError::Protocol(ProtocolError::Malformed)),
            }
        } else if operation == REJECTION && data == seq![INSUFFICIENT_PERMISSIONS] {
            Err(SessionError::Protocol(ProtocolError::InsufficientPermissions))
        } else {
            Err(SessionError::Protocol(ProtocolError::UnexpectedResponseType))
        },
    }
}

/// An outcome with its response as plain values.
pub open spec fn spec_outcome<R: View>(outcome: Result<R, SessionError>) -> Result<
    R::V,
    SessionError,
> {
    match outcome {
        Ok(response) => Ok(response@),
        Err(error) => Err(error),
    }
}

/// What a session makes of a reply: its state afterwards and the outcome.
///
/// A session that is not active reads nothing. A reply that is no frame, or
/// whose tag is not the expected one, fails authentication and expires the
/// session. Only an authentic reply is decrypted and interpreted.
pub open spec fn spec_receive<P: Primitives, R: Response>(
    primitives: P,
    session: SessionView,
    reply: Seq<u8>,
) -> (SessionView, Result<R::V, SessionError>) {
    if session.state != SessionState::Active {
        (session, Err(SessionError::Expired))
    } else {
        match spec_unseal(reply) {
            None => (session.wiped(SessionState::Expired), Err(SessionError::Authentication)),
            Some(parts) => match spec_verify_tag(
                session,
                spec_expected_tag(primitives, session, reply),
                parts.tag,
            ) {
                (after, Ok(())) => (
                    after,
                    spec_interpret_reply::<R>(
                        session.id,
                        parts.session_id,
                        parts.operation,
                        spec_plaintext(primitives, session, reply),
                    ),
                ),
                (after, Err(error)) => (after, Err(error)),
            },
        }
    }
}

/// Whether a dispatch of this payload reaches the connector: the session
/// can send, and the ciphertext of the payload fits into a frame.
pub open spec fn reaches_connector<P: Primitives>(
    primitives: P,
    before: SessionView,
    payload: Seq<u8>,
) -> bool {
    can_send(before) && spec_ciphertext(primitives, before.advanced(), payload).len()
        <= MAX_CIPHERTEXT_BYTES
}

/// The state and the error of a dispatch that does not reach the connector.
///
/// A session that is not active stays as it is, with `Expired`. An active
/// session whose counter is exhausted expires, with `Expired`. Otherwise
/// the ciphertext is too long for a frame: the command is `Malformed`, and
/// the session stays active with its counter advanced, since a keystream
/// was used under that counter value and no value may be used twice.
pub open spec fn spec_refused(before: SessionView) -> (SessionView, SessionError) {
    if before.state != SessionState::Active {
        (before, SessionError::Expired)
    } else if before.counter == u32::MAX {
        (before.wiped(SessionState::Expired), SessionError::Expired)
    } else {
        (before.advanced(), SessionError::Protocol(ProtocolError::Malformed))
    }
}

/// The state and the outcome of a dispatch that reached the connector,
/// given what the connector returned. A failure of the connector is a
/// transport error and expires the session; a reply is received under the
/// advanced counter.
pub open spec fn spec_completed<P: Primitives, R: Response>(
    primitives: P,
    before: SessionView,
    reply: Result<Seq<u8>, TransportError>,
) -> (SessionView, Result<R::V, SessionError>) {
    match reply {
        Err(error) => (
            before.advanced().wiped(SessionState::Expired),
            Err(SessionError::Transport(error)),
        ),
        Ok(bytes) => spec_receive::<P, R>(primitives, before.advanced(), bytes),
    }
}

/// A session with the device.
pub struct Session<P: Primitives> {
    id: u8,
    enc_key: Vec<u8>,
    mac_key: Vec<u8>,
    rmac_key: Vec<u8>,
    counter: u32,
    state: SessionState,
    primitives: P,
}

impl<P: Primitives> View for Session<P> {
    type V = SessionView;

    closed spec fn view(&self) -> SessionView {
        SessionView {
            state: self.state,
            id: self.id,
            counter: self.counter,
            enc_key: self.enc_key@,
            mac_key: self.mac_key@,
            rmac_key: self.rmac_key@,
        }
    }
}

/// What the dispatch of one command does: to the session, to the connector,
/// and what it returns, for a command with the given operation identifier
/// and payload that expects the response `R`.
///
/// Where the dispatch reaches the connector, the connector has made exactly
/// one more exchange, its request is the sealed frame of the payload under
/// the advanced counter, and state and outcome are what `spec_completed`
/// makes of its reply. Where it does not, the connector is untouched and
/// state and error are those of `spec_refused`. The primitives stay the
/// same.
pub open spec fn dispatched<P: Primitives, C: Connector, R: Response>(
    before: Session<P>,
    after: Session<P>,
    connector_before: C,
    connector_after: C,
    operation: u8,
    payload: Seq<u8>,
    outcome: Result<R, SessionError>,
) -> bool {
    &&& after.primitives() == before.primitives()
    &&& if reaches_connector(before.primitives(), before@, payload) {
        let reply = connector_after.exchanges().last().reply;
        &&& connector_after.exchanges() == connector_before.exchanges().push(
            Exchange {
                request: spec_request(before.primitives(), before@.advanced(), operation, payload),
                reply,
            },
        )
        &&& (after@, spec_outcome(outcome)) == spec_completed::<P, R>(
            before.primitives(),
            before@,
            reply,
        )
    } else {
        &&& connector_after == connector_before
        &&& after@ == spec_refused(before@).0
        &&& spec_outcome(outcome) == Err::<R::V, SessionError>(spec_refused(before@).1)
    }
}

/// Reads an authentic reply as the response `R`. A reply of another
/// session or one that did not decrypt is malformed; one with the
/// identifier of `R` must decode as `R`; a refusal for want of a
/// capability is reported as such; any other reply is of an unexpected
/// type.
pub fn interpret_reply<R: Response>(
    session_id: u8,
    reply_session: u8,
    operation: u8,
    plaintext: Option<Vec<u8>>,
) -> (outcome: Result<R, SessionError>)
    ensures
        spec_outcome(outcome) == spec_interpret_reply::<R>(
            session_id,
            reply_session,
            operation,
            spec_bytes(plaintext),
        ),
{
    let data = match plaintext {
        Some(data) => data,
        None => {
            return Err(SessionError::Protocol(ProtocolError::Malformed));
        },
    };
    if reply_session != session_id {
        return Err(SessionError::Protocol(ProtocolError::Malformed));
    }
    if operation == R::command_type().to_u8() {
        return match R::parse(data.as_slice()) {
            Ok(response) => Ok(response),
            Err(_) => Err(SessionError::Protocol(ProtocolError::Malformed)),
        };
    }
    if operation == REJECTION && data.len() == 1 && data[0] == INSUFFICIENT_PERMISSIONS {
        assert(data@ =~= seq![INSUFFICIENT_PERMISSIONS]);
        return Err(SessionError::Protocol(ProtocolError::InsufficientPermissions));
    }
    Err(SessionError::Protocol(ProtocolError::UnexpectedResponseType))
}

impl<P: Primitives> Session<P> {
    /// The primitives the session was made with.
    pub closed spec fn primitives(&self) -> P {
        self.primitives
    }

    /// A fresh session: unauthenticated, without keys.
    pub fn new(primitives: P) -> (session: Session<P>)
        ensures
            session.primitives() == primitives,
            session@ == (SessionView {
                state: SessionState::Unauthenticated,
                id: 0,
                counter: 0,
                enc_key: Seq::empty(),
                mac_key: Seq::empty(),
                rmac_key: Seq::empty(),
            }),
    {
        Session {
            id: 0,
            enc_key: Vec::new(),
            mac_key: Vec::new(),
            rmac_key: Vec::new(),
            counter: 0,
            state: SessionState::Unauthenticated,
            primitives,
        }
    }

    /// The state the session is in.
    pub fn state(&self) -> (state: SessionState)
        ensures
            state == self@.state,
    {
        self.state
    }

    /// The identifier the device gave the session.
    pub fn id(&self) -> (id: u8)
        ensures
            id == self@.id,
    {
        self.id
    }

    /// The number of commands sent in this session.
    pub fn counter(&self) -> (counter: u32)
        ensures
            counter == self@.counter,
    {
        self.counter
    }

    fn wipe(&mut self, state: SessionState)
        ensures
            final(self)@ == old(self)@.wiped(state),
            final(self).primitives() == old(self).primitives(),
    {
        zeroize(&mut self.enc_key);
        zeroize(&mut self.mac_key);
        zeroize(&mut self.rmac_key);
        self.state = state;
    }

    /// Marks the start of the handshake. Only a fresh session can start
    /// one: any other is left as it is and reported as expired.
    pub fn begin_authentication(&mut self) -> (outcome: Result<(), SessionError>)
        ensures
            final(self).primitives() == old(self).primitives(),
            old(self)@.state == SessionState::Unauthenticated ==> outcome is Ok && final(self)@
                == old(self)@.in_state(SessionState::Authenticating),
            old(self)@.state != SessionState::Unauthenticated ==> outcome == Err::<
                (),
                SessionError,
            >(SessionError::Expired) && final(self)@ == old(self)@,
    {
        if self.state != SessionState::Unauthenticated {
            return Err(SessionError::Expired);
        }
        self.state = SessionState::Authenticating;
        Ok(())
    }

    /// Completes the handshake. Where the tag derived here is the one the
    /// device sent, the session becomes active with the keys of the
    /// handshake and a counter of zero. Where the tags differ, the session
    /// has expired and authentication failed. A session that is not in the
    /// middle of a handshake is left as it is and reported as expired.
    pub fn authenticate(&mut self, handshake: Handshake) -> (outcome: Result<(), SessionError>)
        ensures
            final(self).primitives() == old(self).primitives(),
            old(self)@.state != SessionState::Authenticating ==> outcome == Err::<
                (),
                SessionError,
            >(SessionError::Expired) && final(self)@ == old(self)@,
            old(self)@.state == SessionState::Authenticating && handshake.derived_tag@
                == handshake.device_tag@ ==> outcome is Ok && final(self)@ == (SessionView {
                state: SessionState::Active,
                id: handshake.session_id,
                counter: 0,
                enc_key: handshake.enc_key@,
                mac_key: handshake.mac_key@,
                rmac_key: handshake.rmac_key@,
            }),
            old(self)@.state == SessionState::Authenticating && handshake.derived_tag@
                != handshake.device_tag@ ==> outcome == Err::<(), SessionError>(
                SessionError::Authentication,
            ) && final(self)@ == old(self)@.wiped(SessionState::Expired),
    {
        let mut handshake = handshake;
        if self.state != SessionState::Authenticating {
            zeroize(&mut handshake.enc_key);
            zeroize(&mut handshake.mac_key);
            zeroize(&mut handshake.rmac_key);
            return Err(SessionError::Expired);
        }
        if !tags_equal(handshake.derived_tag.as_slice(), handshake.device_tag.as_slice()) {
            zeroize(&mut handshake.enc_key);
            zeroize(&mut handshake.mac_key);
            zeroize(&mut handshake.rmac_key);
            self.wipe(SessionState::Expired);
            return Err(SessionError::Authentication);
        }
        self.state = SessionState::Active;
        self.id = handshake.session_id;
        self.counter = 0;
        self.enc_key = handshake.enc_key;
        self.mac_key = handshake.mac_key;
        self.rmac_key = handshake.rmac_key;
        Ok(())
    }

    /// Checks the integrity tag of a reply against the tag computed for it.
    /// A mismatch expires the session and wipes its keys.
    pub fn verify_tag(&mut self, expected: &[u8], received: &[u8]) -> (outcome: Result<
        (),
        SessionError,
    >)
        ensures
            (final(self)@, outcome) == spec_verify_tag(old(self)@, expected@, received@),
            final(self).primitives() == old(self).primitives(),
    {
        if self.state != SessionState::Active {
            return Err(SessionError::Expired);
        }
        if received.len() == TAG_BYTES && tags_equal(expected, received) {
            return Ok(());
        }
        self.wipe(SessionState::Expired);
        Err(SessionError::Authentication)
    }

    /// Reads the reply to the command that was sent last, as the response
    /// `R`.
    ///
    /// The reply is taken apart, the tag of what it authenticates is
    /// computed under the key for responses and the session's counter, and
    /// compared with the tag it carries. Only then is the ciphertext
    /// decrypted and interpreted. A reply that fails authentication expires
    /// the session. A session that is not active reads nothing.
    pub fn receive<R: Response>(&mut self, reply: &[u8]) -> (outcome: Result<R, SessionError>)
        ensures
            (final(self)@, spec_outcome(outcome)) == spec_receive::<P, R>(
                old(self).primitives(),
                old(self)@,
                reply@,
            ),
            final(self).primitives() == old(self).primitives(),
    {
        if self.state != SessionState::Active {
            return Err(SessionError::Expired);
        }
        let sealed = match unseal(reply) {
            Some(sealed) => sealed,
            None => {
                self.wipe(SessionState::Expired);
                return Err(SessionError::Authentication);
            },
        };
        let data = authenticated_data(sealed.operation, sealed.session_id, sealed.ciphertext);
        let expected = self.primitives.tag(self.rmac_key.as_slice(), self.counter, data.as_slice());
        match self.verify_tag(expected.as_slice(), sealed.tag) {
            Ok(()) => {},
            Err(error) => {
                return Err(error);
            },
        }
        let plaintext = self.primitives.decrypt(
            self.enc_key.as_slice(),
            self.counter,
            sealed.ciphertext,
        );
        interpret_reply::<R>(self.id, sealed.session_id, sealed.operation, plaintext)
    }

    /// Encrypts a command, sends it to the device and reads the response.
    ///
    /// The command is serialized and encrypted under the confidentiality
    /// key and the advanced counter; the ciphertext is tagged under the key
    /// for commands and sealed into a frame with the command's operation
    /// and the session identifier; that frame is handed to the connector,
    /// once. A failure of the connector is reported as a transport error
    /// and expires the session, since nobody knows whether the device has
    /// seen the command. A reply is received as `receive` says. No command
    /// is refused here for want of a capability: the device decides.
    ///
    /// The counter is advanced before the command is encrypted and is not
    /// taken back, so that no two messages of a session share a counter
    /// value. This holds also where the ciphertext turns out too long for a
    /// frame and nothing is sent: a keystream was made under that value, so
    /// the value counts as used, and the session stays active. A session
    /// that is not active, or whose counter is exhausted, fails at once,
    /// without a call to the primitives or the connector.
    pub fn send_encrypted_command<T: Command, C: Connector>(
        &mut self,
        connector: &mut C,
        command: T,
    ) -> (outcome: Result<T::ResponseType, SessionError>)
        ensures
            dispatched(
                *old(self),
                *final(self),
                *old(connector),
                *final(connector),
                <T::ResponseType as Response>::spec_command_type().spec_to_u8(),
                T::spec_encode(command@),
                outcome,
            ),
    {
        if self.state != SessionState::Active {
            return Err(SessionError::Expired);
        }
        if self.counter == u32::MAX {
            self.wipe(SessionState::Expired);
            return Err(SessionError::Expired);
        }
        let operation = T::command_type().to_u8();
        let payload = command.into_vec();
        self.counter = self.counter + 1;
        let ciphertext = self.primitives.encrypt(
            self.enc_key.as_slice(),
            self.counter,
            payload.as_slice(),
        );
        let data = authenticated_data(operation, self.id, ciphertext.as_slice());
        let tag = self.primitives.tag(self.mac_key.as_slice(), self.counter, data.as_slice());
        let frame = match seal(operation, self.id, ciphertext.as_slice(), tag.as_slice()) {
            Some(frame) => frame,
            None => {
                return Err(SessionError::Protocol(ProtocolError::Malformed));
            },
        };
        let answer = connector.send(frame.as_slice());
        proof {
            let exchange = Exchange { request: frame@, reply: spec_reply(answer) };
            assert(old(connector).exchanges().push(exchange).last() == exchange);
        }
        match answer {
            Ok(reply) => self.receive::<T::ResponseType>(reply.as_slice()),
            Err(error) => {
                self.wipe(SessionState::Expired);
                Err(SessionError::Transport(error))
            },
        }
    }

    /// Closes the session: the keys are wiped and no command can be sent
    /// again.
    pub fn close(&mut self)
        ensures
            final(self)@ == old(self)@.wiped(SessionState::Closed),
            final(self).primitives() == old(self).primitives(),
    {
        self.wipe(SessionState::Closed);
    }
}

/// A session that has been wiped holds no key, whatever it held, and is
/// well formed in any state.
pub proof fn lemma_wiped_holds_no_key(session: SessionView, state: SessionState)
    ensures
        session.wiped(state).holds_no_key(),
        session.wiped(state).wf(),
        session.wiped(state).counter == session.counter,
        session.wiped(state).id == session.id,
{
}

/// The counter never goes back, and a dispatch of a session that can send
/// advances it by exactly one, whatever the outcome: no counter value is
/// used twice in the life of a session. The session identifier never
/// changes.
pub proof fn lemma_counter_advances_by_one<P: Primitives, C: Connector, R: Response>(
    before: Session<P>,
    after: Session<P>,
    connector_before: C,
    connector_after: C,
    operation: u8,
    payload: Seq<u8>,
    outcome: Result<R, SessionError>,
)
    requires
        dispatched(before, after, connector_before, connector_after, operation, payload, outcome),
    ensures
        can_send(before@) ==> after@.counter == before@.counter + 1,
        !can_send(before@) ==> after@.counter == before@.counter,
        outcome is Ok ==> after@.counter == before@.counter + 1,
        after@.id == before@.id,
{
}

/// How the outcome of a dispatch and the state afterwards go together.
///
/// The outcome is `Expired` exactly when the session could not send. After
/// a success or a protocol error the session is active with its keys as
/// they were. After an authentication or transport failure it has expired
/// and holds no key.
pub proof fn lemma_outcome_decides_state<P: Primitives, C: Connector, R: Response>(
    before: Session<P>,
    after: Session<P>,
    connector_before: C,
    connector_after: C,
    operation: u8,
    payload: Seq<u8>,
    outcome: Result<R, SessionError>,
)
    requires
        dispatched(before, after, connector_before, connector_after, operation, payload, outcome),
    ensures
        (outcome matches Err(SessionError::Expired)) <==> !can_send(before@),
        (outcome is Ok || (outcome matches Err(SessionError::Protocol(_)))) ==> after@
            == before@.advanced() && after@.state == SessionState::Active,
        ((outcome matches Err(SessionError::Authentication)) || (outcome matches Err(
            SessionError::Transport(_),
        ))) ==> after@ == before@.advanced().wiped(SessionState::Expired),
        after@.state != before@.state ==> after@.state == SessionState::Expired
            && after@.holds_no_key(),
{
}

/// A session that is not active never reaches the connector: the dispatch
/// fails with `Expired`, and the session and the connector are as they
/// were.
pub proof fn lemma_inactive_session_never_sends<P: Primitives, C: Connector, R: Response>(
    before: Session<P>,
    after: Session<P>,
    connector_before: C,
    connector_after: C,
    operation: u8,
    payload: Seq<u8>,
    outcome: Result<R, SessionError>,
)
    requires
        dispatched(before, after, connector_before, connector_after, operation, payload, outcome),
        before@.state != SessionState::Active,
    ensures
        outcome matches Err(SessionError::Expired),
        after@ == before@,
        connector_after == connector_before,
{
}

/// A dispatch calls the connector at most once, and exactly once where the
/// command can be sent, whatever its capabilities: there is no retry and no
/// refusal on this side for want of a capability. What the connector
/// returns decides the outcome: its failure is a transport error, its reply
/// is what `spec_receive` makes of it.
pub proof fn lemma_one_exchange_per_dispatch<P: Primitives, C: Connector, R: Response>(
    before: Session<P>,
    after: Session<P>,
    connector_before: C,
    connector_after: C,
    operation: u8,
    payload: Seq<u8>,
    outcome: Result<R, SessionError>,
)
    requires
        dispatched(before, after, connector_before, connector_after, operation, payload, outcome),
    ensures
        reaches_connector(before.primitives(), before@, payload) ==> {
            &&& connector_after.exchanges().len() == connector_before.exchanges().len() + 1
            &&& connector_after.exchanges().drop_last() == connector_before.exchanges()
            &&& connector_after.exchanges().last().request == spec_request(
                before.primitives(),
                before@.advanced(),
                operation,
                payload,
            )
            &&& connector_after.exchanges().last().reply matches Err(error) ==> outcome
                == Err::<R, SessionError>(SessionError::Transport(error))
            &&& connector_after.exchanges().last().reply matches Ok(bytes) ==> (
                after@,
                spec_outcome(outcome),
            ) == spec_receive::<P, R>(before.primitives(), before@.advanced(), bytes)
        },
        !reaches_connector(before.primitives(), before@, payload)
            ==> connector_after.exchanges() == connector_before.exchanges(),
        !(outcome matches Err(SessionError::Protocol(ProtocolError::InsufficientPermissions)))
            || reaches_connector(before.primitives(), before@, payload),
{
    if reaches_connector(before.primitives(), before@, payload) {
        let exchange = connector_after.exchanges().last();
        assert(connector_before.exchanges().push(exchange).drop_last()
            =~= connector_before.exchanges());
    }
}

/// A dispatch keeps a session well formed: keys are held only while it is
/// active.
pub proof fn lemma_dispatch_preserves_wf<P: Primitives, C: Connector, R: Response>(
    before: Session<P>,
    after: Session<P>,
    connector_before: C,
    connector_after: C,
    operation: u8,
    payload: Seq<u8>,
    outcome: Result<R, SessionError>,
)
    requires
        dispatched(before, after, connector_before, connector_after, operation, payload, outcome),
        before@.wf(),
    ensures
        after@.wf(),
{
}

/// A reply is authenticated before it is decrypted: where the tag it
/// carries is not the expected one, the session expires with an
/// authentication error, whatever decryption would make of its ciphertext.
pub proof fn lemma_unauthentic_reply_is_not_read<P: Primitives, R: Response>(
    primitives: P,
    session: SessionView,
    reply: Seq<u8>,
)
    requires
        session.state == SessionState::Active,
        spec_unseal(reply) matches Some(parts) ==> parts.tag != spec_expected_tag(
            primitives,
            session,
            reply,
        ),
    ensures
        spec_receive::<P, R>(primitives, session, reply) == (
            session.wiped(SessionState::Expired),
            Err::<R::V, SessionError>(SessionError::Authentication),
        ),
{
}

proof fn lemma_flipped_bit_differs(byte: u8, bit: u8)
    by (bit_vector)
    requires
        bit < 8,
    ensures
        byte ^ (1u8 << bit) != byte,
{
}

/// Corrupting any single bit of the integrity tag of an authentic reply
/// makes the session refuse it: the tag that is expected stays the same,
/// the tag that is carried does not, so authentication fails and the
/// session expires and can send no more.
pub proof fn lemma_corrupted_tag_is_rejected<P: Primitives, R: Response>(
    primitives: P,
    session: SessionView,
    reply: Seq<u8>,
    index: int,
    bit: u8,
)
    requires
        session.state == SessionState::Active,
        spec_unseal(reply) matches Some(parts) && parts.tag == spec_expected_tag(
            primitives,
            session,
            reply,
        ),
        reply.len() - TAG_BYTES <= index < reply.len(),
        bit < 8,
    ensures
        ({
            let corrupted = reply.update(index, reply[index] ^ (1u8 << bit));
            let expired = session.wiped(SessionState::Expired);
            &&& spec_expected_tag(primitives, session, corrupted) == spec_expected_tag(
                primitives,
                session,
                reply,
            )
            &&& spec_receive::<P, R>(primitives, session, corrupted) == (
                expired,
                Err::<R::V, SessionError>(SessionError::Authentication),
            )
            &&& !can_send(expired)
        }),
{
    let corrupted = reply.update(index, reply[index] ^ (1u8 << bit));
    let body = reply.skip(3);
    let changed = corrupted.skip(3);
    let split = body.len() - TAG_BYTES;
    lemma_flipped_bit_differs(reply[index], bit);
    assert(corrupted.subrange(1, 3) =~= reply.subrange(1, 3));
    assert(changed.len() == body.len());
    assert(changed.subrange(1, split) =~= body.subrange(1, split));
    assert(changed.skip(split)[index - 3 - split] != body.skip(split)[index - 3 - split]);
}

/// The same of a whole dispatch: where the connector brings a reply that is
/// an authentic reply with one bit of its tag corrupted, the dispatch fails
/// with an authentication error and the session has expired. Every later
/// dispatch fails with `Expired` and leaves the connector untouched, as
/// `lemma_inactive_session_never_sends` says.
pub proof fn lemma_corrupted_reply_expires_session<P: Primitives, C: Connector, R: Response>(
    before: Session<P>,
    after: Session<P>,
    connector_before: C,
    connector_after: C,
    operation: u8,
    payload: Seq<u8>,
    outcome: Result<R, SessionError>,
    reply: Seq<u8>,
    index: int,
    bit: u8,
)
    requires
        dispatched(before, after, connector_before, connector_after, operation, payload, outcome),
        reaches_connector(before.primitives(), before@, payload),
        spec_unseal(reply) matches Some(parts) && parts.tag == spec_expected_tag(
            before.primitives(),
            before@.advanced(),
            reply,
        ),
        reply.len() - TAG_BYTES <= index < reply.len(),
        bit < 8,
        connector_after.exchanges().last().reply == Ok::<Seq<u8>, TransportError>(
            reply.update(index, reply[index] ^ (1u8 << bit)),
        ),
    ensures
        outcome matches Err(SessionError::Authentication),
        after@ == before@.advanced().wiped(SessionState::Expired),
        after@.state == SessionState::Expired,
        !can_send(after@),
{
    lemma_corrupted_tag_is_rejected::<P, R>(
        before.primitives(),
        before@.advanced(),
        reply,
        index,
        bit,
    );
}

} // verus!
