//! The event dispatcher: a registry with at most one handler for each kind of
//! event, and the handlers' composition with payload decoding.

use crate::packet::ack_packet;
use crate::packet::create_server_message_ack_packet;
use vstd::prelude::*;
use vstd::utf8::decode_utf8;
use vstd::utf8::valid_utf8;

verus! {

/// Number of bytes of a datagram before its text: header, marker, type byte
/// and sequence byte.
pub const PAYLOAD_OFFSET: usize = 9;

/// The kinds of event that a handler can be registered for.
#[derive(Clone, Copy, Debug, PartialEq, Eq, Hash, Structural)]
pub enum CallbackType {
    /// The server's answer to a command.
    CommandMessage,
    /// Console output that the server sends on its own.
    ServerMessage,
    /// A failure inside the client that no caller is there to receive.
    ServerErrorMessage,
}

/// The text that `String::from_utf8_lossy` makes of `bytes`.
pub uninterp spec fn utf8_lossy(bytes: Seq<u8>) -> Seq<char>;

/// Calls `String::from_utf8_lossy` and takes ownership of what it returns. The
/// text is taken to depend on the bytes alone. Of bytes that are valid UTF-8 it
/// is the string that they encode; what it is otherwise is not stated.
#[verifier::external_body]
fn from_utf8_lossy(bytes: &[u8]) -> (text: String)
    ensures
        text@ == utf8_lossy(bytes@),
        valid_utf8(bytes@) ==> text@ == decode_utf8(bytes@),
{
    String::from_utf8_lossy(bytes).into_owned()
}

/// The text carried by the first `amt` bytes of `buf`: everything from
/// `PAYLOAD_OFFSET` on, decoded leniently.
pub open spec fn payload_text(buf: Seq<u8>, amt: int) -> Seq<char>
    recommends
        PAYLOAD_OFFSET <= amt <= buf.len(),
{
    utf8_lossy(buf.subrange(PAYLOAD_OFFSET as int, amt))
}

/// Decodes the text of a datagram of `amt` bytes held in `buf`.
pub fn decode_payload(buf: &[u8], amt: usize) -> (text: String)
    requires
        PAYLOAD_OFFSET <= amt <= buf@.len(),
    ensures
        text@ == payload_text(buf@, amt as int),
        valid_utf8(buf@.subrange(PAYLOAD_OFFSET as int, amt as int)) ==> text@ == decode_utf8(
            buf@.subrange(PAYLOAD_OFFSET as int, amt as int),
        ),
{
    from_utf8_lossy(vstd::slice::slice_subrange(buf, PAYLOAD_OFFSET, amt))
}

/// A registry that maps each kind of event to at most one handler. Its view is
/// the map from the kinds that have a handler to their handlers.
pub struct CallbackManager<F: Fn(String)> {
    command_message: Option<F>,
    server_message: Option<F>,
    server_error_message: Option<F>,
}

impl<F: Fn(String)> View for CallbackManager<F> {
    type V = Map<CallbackType, F>;

    closed spec fn view(&self) -> Map<CallbackType, F> {
        Map::new(|kind: CallbackType| self.slot(kind) is Some, |kind: CallbackType| self.slot(kind)->0)
    }
}

/// What `invoke` does with an event of `kind` in a registry with the handlers
/// `handlers`: the handler that it calls, if any.
pub open spec fn handler_for<F>(handlers: Map<CallbackType, F>, kind: CallbackType) -> Option<F> {
    if handlers.contains_key(kind) {
        Some(handlers[kind])
    } else {
        None
    }
}

/// Whether a call of the handler that `handlers` has for `kind`, if it has one,
/// was made with the text `text` and has returned.
pub open spec fn delivered<F: Fn(String)>(
    handlers: Map<CallbackType, F>,
    kind: CallbackType,
    text: Seq<char>,
) -> bool {
    handler_for(handlers, kind) matches Some(handler) ==> exists|message: String|
        message@ == text && #[trigger] call_ensures(handler, (message,), ())
}

/// A kind without a handler has none called, whatever the text.
pub proof fn law_unregistered_kind_is_silent<F: Fn(String)>(
    handlers: Map<CallbackType, F>,
    kind: CallbackType,
)
    requires
        !handlers.contains_key(kind),
    ensures
        handler_for(handlers, kind) is None,
        handler_for(Map::<CallbackType, F>::empty(), kind) is None,
{
}

/// Of two handlers registered for one kind, one after the other, only the
/// second is left: the registry is as if the first had never been registered,
/// and an event of that kind goes to the second.
pub proof fn law_newest_handler_wins<F: Fn(String)>(
    handlers: Map<CallbackType, F>,
    kind: CallbackType,
    first: F,
    second: F,
)
    ensures
        handlers.insert(kind, first).insert(kind, second) == handlers.insert(kind, second),
        handler_for(handlers.insert(kind, first).insert(kind, second), kind) == Some(second),
{
    assert(handlers.insert(kind, first).insert(kind, second) =~= handlers.insert(kind, second));
}

/// Registering a handler for one kind leaves the other kinds as they were.
pub proof fn law_other_kinds_keep_their_handler<F: Fn(String)>(
    handlers: Map<CallbackType, F>,
    kind: CallbackType,
    handler: F,
    other: CallbackType,
)
    requires
        other != kind,
    ensures
        handler_for(handlers.insert(kind, handler), other) == handler_for(handlers, other),
{
}

impl<F: Fn(String)> CallbackManager<F> {
    /// Every registered handler accepts every text.
    #[verifier::type_invariant]
    spec fn handlers_are_total(&self) -> bool {
        &&& self.command_message matches Some(handler) ==> forall|text: String|
            call_requires(handler, (text,))
        &&& self.server_message matches Some(handler) ==> forall|text: String|
            call_requires(handler, (text,))
        &&& self.server_error_message matches Some(handler) ==> forall|text: String|
            call_requires(handler, (text,))
    }

    spec fn slot(&self, kind: CallbackType) -> Option<F> {
        match kind {
            CallbackType::CommandMessage => self.command_message,
            CallbackType::ServerMessage => self.server_message,
            CallbackType::ServerErrorMessage => self.server_error_message,
        }
    }

    /// Creates a registry without handlers.
    pub fn new() -> (manager: Self)
        ensures
            manager@ == Map::<CallbackType, F>::empty(),
    {
        let manager = CallbackManager {
            command_message: None,
            server_message: None,
            server_error_message: None,
        };
        assert(manager@ =~= Map::<CallbackType, F>::empty());
        manager
    }

    /// Registers `callback` for `event`. A handler registered for `event` before
    /// is dropped; the handlers of the other kinds stay.
    pub fn register_callback(&mut self, event: CallbackType, callback: F)
        requires
            forall|text: String| call_requires(callback, (text,)),
        ensures
            final(self)@ == old(self)@.insert(event, callback),
    {
        proof {
            use_type_invariant(&*self);
        }
        match event {
            CallbackType::CommandMessage => {
                self.command_message = Some(callback);
            },
            CallbackType::ServerMessage => {
                self.server_message = Some(callback);
            },
            CallbackType::ServerErrorMessage => {
                self.server_error_message = Some(callback);
            },
        }
        assert(self@ =~= old(self)@.insert(event, callback));
    }

    /// Calls the handler registered for `event` with `con`. Without such a
    /// handler nothing is called. Returns whether a handler was called.
    pub fn invoke(&self, event: CallbackType, con: String) -> (called: bool)
        ensures
            called == self@.contains_key(event),
            handler_for(self@, event) matches Some(handler) ==> call_ensures(handler, (con,), ()),
    {
        proof {
            use_type_invariant(self);
        }
        let slot = match event {
            CallbackType::CommandMessage => &self.command_message,
            CallbackType::ServerMessage => &self.server_message,
            CallbackType::ServerErrorMessage => &self.server_error_message,
        };
        assert(*slot == self.slot(event));
        match slot {
            Some(handler) => {
                handler(con);
                true
            },
            None => false,
        }
    }

    /// Hands the text of a command answer, a datagram of `amt` bytes held in
    /// `buf`, to the handler for command messages. Returns whether a handler
    /// was called.
    pub fn handle_command_server_message(&self, buf: &[u8], amt: usize) -> (called: bool)
        requires
            PAYLOAD_OFFSET <= amt <= buf@.len(),
        ensures
            called == self@.contains_key(CallbackType::CommandMessage),
            delivered(self@, CallbackType::CommandMessage, payload_text(buf@, amt as int)),
    {
        let message = decode_payload(buf, amt);
        self.invoke(CallbackType::CommandMessage, message)
    }

    /// Hands the text of a server message, a datagram of `amt` bytes held in
    /// `buf`, to the handler for server messages, and returns the
    /// acknowledgement that is to be sent for it.
    pub fn handle_server_message(&self, buf: &[u8], amt: usize, sequence: u8) -> (ack: Vec<u8>)
        requires
            PAYLOAD_OFFSET <= amt <= buf@.len(),
        ensures
            ack@ == ack_packet(sequence),
            delivered(self@, CallbackType::ServerMessage, payload_text(buf@, amt as int)),
    {
        let message = decode_payload(buf, amt);
        self.invoke(CallbackType::ServerMessage, message);
        create_server_message_ack_packet(sequence)
    }

    /// Reports a failure that has no caller to return to, such as an
    /// acknowledgement or a keep-alive that could not be sent, to the handler
    /// for errors. Returns whether a handler was called.
    pub fn report_failure(&self, description: String) -> (called: bool)
        ensures
            called == self@.contains_key(CallbackType::ServerErrorMessage),
            handler_for(self@, CallbackType::ServerErrorMessage) matches Some(handler)
                ==> call_ensures(handler, (description,), ()),
    {
        self.invoke(CallbackType::ServerErrorMessage, description)
    }
}

} // verus!
