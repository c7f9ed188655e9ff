//! The session and the receive loop, as decisions.
//!
//! A session sends and receives nothing itself. Each operation that the
//! protocol starts with a packet returns that packet; what the transport did
//! with it, or what it received, is told to the session by a second call. The
//! receive loop is given in the same way: what to do on a tick, how long to
//! wait for a datagram, and what a datagram leads to.

use crate::callback::delivered;
use crate::callback::payload_text;
use crate::callback::CallbackManager;
use crate::callback::CallbackType;
use crate::callback::PAYLOAD_OFFSET;
use crate::packet::ack_packet;
use crate::packet::command_packet;
use crate::packet::create_command_packet;
use crate::packet::create_login_packet;
use crate::packet::login_packet;
use crate::packet::TYPE_COMMAND;
use crate::packet::TYPE_LOGIN;
use crate::packet::TYPE_SERVER_MESSAGE;
use vstd::prelude::*;
use vstd::string::StringSliceAdditionalSpecFns;

verus! {

/// Seconds between two keep-alive packets.
pub const KEEP_ALIVE_PERIOD_SECS: u64 = 15;

/// Milliseconds between two ticks of the receive loop.
pub const LISTEN_TICK_MILLIS: u64 = 100;

/// Milliseconds that the receive loop stands back when a send is pending.
pub const SEND_PENDING_BACKOFF_MILLIS: u64 = 10;

/// Milliseconds that the receive loop waits for a datagram.
pub const RECEIVE_TIMEOUT_MILLIS: u64 = 100;

/// Milliseconds that the receive loop waits for a datagram when a send has
/// become pending since the tick.
pub const RECEIVE_TIMEOUT_PENDING_MILLIS: u64 = 500;

/// Size of the buffer that the receive loop reads a datagram into. A longer
/// datagram is cut off at this length.
pub const RECEIVE_BUFFER_LEN: usize = 51200;

/// Size of the buffer that the answer to a login is read into.
pub const LOGIN_BUFFER_LEN: usize = 1024;

/// Offset of the type byte in a datagram.
pub const TYPE_OFFSET: usize = 7;

/// Offset of the byte that tells whether a login was accepted.
pub const LOGIN_RESULT_OFFSET: usize = 8;

/// Value of the result byte of an accepted login.
pub const LOGIN_ACCEPTED: u8 = 0x01;

/// Sequence byte under which the receive loop acknowledges a server message.
pub const ACK_SEQUENCE: u8 = 0;

/// What a session remembers between two operations.
#[derive(Clone, Copy, Debug, PartialEq, Eq, Structural)]
pub struct SessionState {
    /// Whether a send has been started and not yet finished. The receive loop
    /// stands back while it is set.
    pub pending_send: bool,
    /// The sequence byte that the next command goes out under.
    pub sequence: u8,
}

/// The session of one client with one server. Its view is its `SessionState`.
pub struct RConClient {
    sequence: u8,
    send_pending: bool,
}

impl View for RConClient {
    type V = SessionState;

    closed spec fn view(&self) -> SessionState {
        SessionState { pending_send: self.send_pending, sequence: self.sequence }
    }
}

/// Whether the first `amt` bytes of `buf` are the result of a login: something
/// was received and the type byte is that of a login.
pub open spec fn is_login_result(buf: Seq<u8>, amt: int) -> bool
    recommends
        buf.len() > LOGIN_RESULT_OFFSET,
{
    amt > 0 && buf[TYPE_OFFSET as int] == TYPE_LOGIN
}

/// Whether the first `amt` bytes of `buf` say that the login was accepted.
pub open spec fn login_accepted(buf: Seq<u8>, amt: int) -> bool
    recommends
        buf.len() > LOGIN_RESULT_OFFSET,
{
    is_login_result(buf, amt) && buf[LOGIN_RESULT_OFFSET as int] == LOGIN_ACCEPTED
}

/// The state of a session after the answer to its login: anything but a login
/// result clears the pending send.
pub open spec fn after_login(state: SessionState, buf: Seq<u8>, amt: int) -> SessionState
    recommends
        buf.len() > LOGIN_RESULT_OFFSET,
{
    if is_login_result(buf, amt) {
        state
    } else {
        SessionState { pending_send: false, sequence: state.sequence }
    }
}

/// An answer with `0x00` at offset 7 and `0x01` at offset 8 accepts the login,
/// and one with `0x00` at offset 7 and anything else at offset 8 rejects it;
/// neither touches the session. An answer with anything else at offset 7, or
/// of no bytes at all, rejects the login and clears the pending send. The
/// sequence byte stays in every case.
pub proof fn law_login_answer(state: SessionState, buf: Seq<u8>, amt: int)
    ensures
        amt > 0 && buf[7] == 0x00 && buf[8] == 0x01 ==> login_accepted(buf, amt) && after_login(
            state,
            buf,
            amt,
        ) == state,
        amt > 0 && buf[7] == 0x00 && buf[8] != 0x01 ==> !login_accepted(buf, amt) && after_login(
            state,
            buf,
            amt,
        ) == state,
        amt <= 0 || buf[7] != 0x00 ==> !login_accepted(buf, amt) && !after_login(
            state,
            buf,
            amt,
        ).pending_send,
        after_login(state, buf, amt).sequence == state.sequence,
{
}

/// What the receive loop does on a tick.
#[derive(Clone, Copy, Debug, PartialEq, Eq, Structural)]
pub enum ListenAction {
    /// A send is pending: sleep for `millis` milliseconds and wait for the
    /// next tick.
    Backoff { millis: u64 },
    /// Take the socket and wait for a datagram.
    Receive,
}

/// What a received datagram is.
#[derive(Clone, Copy, Debug, PartialEq, Eq, Structural)]
pub enum Inbound {
    /// Too short to hold a text: nothing is done with it.
    Ignored,
    /// Console output of the server: it goes to the handler for server
    /// messages and is acknowledged.
    ServerMessage,
    /// The answer to a command or to a login: it goes to the handler for
    /// command messages and is not acknowledged.
    CommandMessage,
}

/// A datagram that the protocol has no meaning for.
#[derive(Clone, Copy, Debug, PartialEq, Eq, Structural)]
pub enum ProtocolError {
    /// The type byte is none of the three known ones.
    UnrecognizedType(u8),
}

/// How the first `amt` bytes of `buf` are classified: by length first, then by
/// the type byte.
pub open spec fn classified(buf: Seq<u8>, amt: int) -> Result<Inbound, ProtocolError>
    recommends
        amt <= buf.len(),
{
    let packet_type = buf[TYPE_OFFSET as int];
    if amt <= PAYLOAD_OFFSET {
        Ok(Inbound::Ignored)
    } else if packet_type == TYPE_SERVER_MESSAGE {
        Ok(Inbound::ServerMessage)
    } else if packet_type == TYPE_COMMAND || packet_type == TYPE_LOGIN {
        Ok(Inbound::CommandMessage)
    } else {
        Err(ProtocolError::UnrecognizedType(packet_type))
    }
}

/// The kind of handler that a datagram classified as `inbound` goes to.
pub open spec fn callback_for(inbound: Inbound) -> Option<CallbackType> {
    match inbound {
        Inbound::Ignored => None,
        Inbound::ServerMessage => Some(CallbackType::ServerMessage),
        Inbound::CommandMessage => Some(CallbackType::CommandMessage),
    }
}

/// The acknowledgement that a datagram classified as `inbound` is answered
/// with.
pub open spec fn ack_for(inbound: Inbound) -> Option<Seq<u8>> {
    match inbound {
        Inbound::Ignored => None,
        Inbound::ServerMessage => Some(ack_packet(ACK_SEQUENCE)),
        Inbound::CommandMessage => None,
    }
}

/// The bytes of an acknowledgement that may be there.
pub open spec fn ack_view(ack: Option<Vec<u8>>) -> Option<Seq<u8>> {
    match ack {
        Some(packet) => Some(packet@),
        None => None,
    }
}

/// A datagram of at most 9 bytes is ignored: no handler, no acknowledgement.
/// A longer one of type `0x02` goes to the handler for server messages and is
/// acknowledged once, under the sequence byte 0. A longer one of type `0x01`
/// or `0x00` goes to the handler for command messages and is not
/// acknowledged. A longer one of any other type is an error.
pub proof fn law_classification(buf: Seq<u8>, amt: int)
    ensures
        amt <= 9 ==> classified(buf, amt) == Ok::<Inbound, ProtocolError>(Inbound::Ignored),
        amt > 9 && buf[7] == 0x02 ==> classified(buf, amt) == Ok::<Inbound, ProtocolError>(
            Inbound::ServerMessage,
        ),
        amt > 9 && (buf[7] == 0x01 || buf[7] == 0x00) ==> classified(buf, amt) == Ok::<
            Inbound,
            ProtocolError,
        >(Inbound::CommandMessage),
        amt > 9 && buf[7] > 0x02 ==> classified(buf, amt) == Err::<Inbound, ProtocolError>(
            ProtocolError::UnrecognizedType(buf[7]),
        ),
        callback_for(Inbound::Ignored) is None,
        ack_for(Inbound::Ignored) is None,
        callback_for(Inbound::ServerMessage) == Some(CallbackType::ServerMessage),
        ack_for(Inbound::ServerMessage) == Some(ack_packet(0)),
        callback_for(Inbound::CommandMessage) == Some(CallbackType::CommandMessage),
        ack_for(Inbound::CommandMessage) is None,
{
}

/// Classifies a datagram of `amt` bytes held in `buf`.
pub fn classify(buf: &[u8], amt: usize) -> (inbound: Result<Inbound, ProtocolError>)
    requires
        amt <= buf@.len(),
    ensures
        inbound == classified(buf@, amt as int),
{
    if amt <= PAYLOAD_OFFSET {
        return Ok(Inbound::Ignored);
    }
    let packet_type = buf[TYPE_OFFSET];
    if packet_type == TYPE_SERVER_MESSAGE {
        Ok(Inbound::ServerMessage)
    } else if packet_type == TYPE_COMMAND || packet_type == TYPE_LOGIN {
        Ok(Inbound::CommandMessage)
    } else {
        Err(ProtocolError::UnrecognizedType(packet_type))
    }
}

/// Does what a datagram of `amt` bytes held in `buf` asks for: hands its text
/// to the handler of its kind and returns the acknowledgement to send, if it
/// is to be acknowledged. A datagram of an unknown type is reported as an
/// error and nothing else is done with it.
pub fn handle_datagram<F: Fn(String)>(
    callbacks: &CallbackManager<F>,
    buf: &[u8],
    amt: usize,
) -> (reply: Result<Option<Vec<u8>>, ProtocolError>)
    requires
        amt <= buf@.len(),
    ensures
        match classified(buf@, amt as int) {
            Ok(inbound) => {
                &&& reply matches Ok(ack) && ack_view(ack) == ack_for(inbound)
                &&& callback_for(inbound) matches Some(kind) ==> delivered(
                    callbacks@,
                    kind,
                    payload_text(buf@, amt as int),
                )
            },
            Err(error) => reply matches Err(reported) && reported == error,
        },
{
    match classify(buf, amt) {
        Ok(Inbound::Ignored) => Ok(None),
        Ok(Inbound::ServerMessage) => {
            let ack = callbacks.handle_server_message(buf, amt, ACK_SEQUENCE);
            Ok(Some(ack))
        },
        Ok(Inbound::CommandMessage) => {
            callbacks.handle_command_server_message(buf, amt);
            Ok(None)
        },
        Err(error) => Err(error),
    }
}

impl RConClient {
    /// Creates a session: no send is pending and the sequence byte is 0.
    pub fn new() -> (client: Self)
        ensures
            client@ == (SessionState { pending_send: false, sequence: 0 }),
    {
        RConClient { sequence: 0, send_pending: false }
    }

    /// The sequence byte that the next command goes out under.
    pub fn sequence(&self) -> (sequence: u8)
        ensures
            sequence == self@.sequence,
    {
        self.sequence
    }

    /// Whether a send has been started and not yet finished.
    pub fn send_pending(&self) -> (pending: bool)
        ensures
            pending == self@.pending_send,
    {
        self.send_pending
    }

    /// Starts a login: returns the packet to send. The answer is to be read
    /// into a buffer of `LOGIN_BUFFER_LEN` bytes and given to
    /// `login_response`.
    pub fn login(&self, password: &str) -> (packet: Vec<u8>)
        ensures
            packet@ == login_packet(password.spec_bytes()),
    {
        create_login_packet(password)
    }

    /// Ends a login: `buf` holds the answer, of which `amt` bytes were
    /// received. Returns whether the server accepted the login. An answer that
    /// is no login result, an empty one too, clears the pending send.
    pub fn login_response(&mut self, buf: &[u8], amt: usize) -> (accepted: bool)
        requires
            buf@.len() > LOGIN_RESULT_OFFSET,
        ensures
            accepted == login_accepted(buf@, amt as int),
            final(self)@ == after_login(old(self)@, buf@, amt as int),
    {
        if amt > 0 && buf[TYPE_OFFSET] == TYPE_LOGIN {
            return buf[LOGIN_RESULT_OFFSET] == LOGIN_ACCEPTED;
        }
        self.send_pending = false;
        false
    }

    /// Starts the send of `command`: marks a send as pending and returns the
    /// packet to send, under the current sequence byte. Whatever becomes of
    /// the packet, `finish_send` is to be called after it.
    pub fn send_command(&mut self, command: &str) -> (packet: Vec<u8>)
        ensures
            packet@ == command_packet(old(self)@.sequence, command.spec_bytes()),
            final(self)@ == (SessionState { pending_send: true, sequence: old(self)@.sequence }),
    {
        self.send_pending = true;
        create_command_packet(self.sequence, command)
    }

    /// Ends a send, whether it succeeded or failed: no send is pending any
    /// more.
    pub fn finish_send(&mut self)
        ensures
            final(self)@ == (SessionState { pending_send: false, sequence: old(self)@.sequence }),
    {
        self.send_pending = false;
    }

    /// Starts the send of a keep-alive, which is a command without text.
    pub fn send_keep_alive_packet(&mut self) -> (packet: Vec<u8>)
        ensures
            packet@ == command_packet(old(self)@.sequence, Seq::<u8>::empty()),
            final(self)@ == (SessionState { pending_send: true, sequence: old(self)@.sequence }),
    {
        proof {
            reveal_strlit("");
            assert(""@ =~= Seq::<char>::empty());
        }
        self.send_command("")
    }

    /// Sets the sequence byte to `new_value` and returns it.
    pub fn update_sequence(&mut self, new_value: u8) -> (sequence: u8)
        ensures
            sequence == new_value,
            final(self)@ == (SessionState {
                pending_send: old(self)@.pending_send,
                sequence: new_value,
            }),
    {
        self.sequence = new_value;
        new_value
    }

    /// Decides what the receive loop does on a tick: it stands back while a
    /// send is pending and receives otherwise.
    pub fn listen_tick(&self) -> (action: ListenAction)
        ensures
            action == if self@.pending_send {
                ListenAction::Backoff { millis: SEND_PENDING_BACKOFF_MILLIS }
            } else {
                ListenAction::Receive
            },
    {
        if self.send_pending {
            ListenAction::Backoff { millis: SEND_PENDING_BACKOFF_MILLIS }
        } else {
            ListenAction::Receive
        }
    }

    /// Chooses how long the receive loop waits for a datagram once it has the
    /// socket: longer if a send has become pending in the meantime.
    pub fn receive_timeout(&self) -> (millis: u64)
        ensures
            millis == if self@.pending_send {
                RECEIVE_TIMEOUT_PENDING_MILLIS
            } else {
                RECEIVE_TIMEOUT_MILLIS
            },
    {
        if self.send_pending {
            RECEIVE_TIMEOUT_PENDING_MILLIS
        } else {
            RECEIVE_TIMEOUT_MILLIS
        }
    }
}

} // verus!
