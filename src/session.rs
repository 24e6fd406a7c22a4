//! The connection session: what to do on each thing that happens to the
//! duplex connection, as a state machine. The runtime around the library
//! performs each returned action and reports back what happened.
use vstd::prelude::*;
use vstd::string::StringExecFns;

use crate::quote::Quote;
use crate::registry::{consumers_for, Consumer, Registry};
use crate::wire::{decode_payload, decode_text, quote_decodes_to, text_decodes_to, DecodeError};

verus! {

/// Where a session stands.
#[derive(Debug, Clone, Copy, PartialEq, Eq, Structural)]
pub enum ConnectionState {
    Disconnected,
    Connecting,
    Announcing,
    Streaming,
    ShuttingDown,
    Closed,
}

/// A frame received from the transport.
#[derive(Debug, Clone, PartialEq)]
pub enum Frame {
    Text(String),
    Binary(Vec<u8>),
    Ping(Vec<u8>),
    Pong(Vec<u8>),
    Close,
}

/// A frame to send on the transport.
#[derive(Debug, Clone, PartialEq)]
pub enum Outbound {
    Text(String),
    Pong(Vec<u8>),
}

/// What the runtime is to do next.
#[derive(Debug, Clone, PartialEq)]
pub enum Action {
    /// Open the transport to the feed.
    Open,
    /// Send a frame.
    Send(Outbound),
    /// Hand the quote to each of the consumers (possibly none).
    Deliver(Quote, Vec<Consumer>),
    /// The frame could not be decoded; it is dropped and receiving goes on.
    Skip(DecodeError),
    /// Close the transport, flushing the outbound half.
    CloseTransport,
    /// Nothing to do.
    Nothing,
}

/// What can happen to a session.
pub enum Input {
    /// The caller starts the session.
    Start,
    /// The transport opened and the announcement was built.
    Connected,
    /// The transport could not be opened.
    ConnectFailed,
    /// The announcement was sent.
    Sent,
    /// A send failed or the transport reported an error.
    Failed,
    /// The caller asks to stop.
    Stop,
    /// The transport is closed.
    Finished,
    /// A frame arrived.
    Received(Frame),
}

/// States in which the transport is open and frames are handled.
pub open spec fn is_live(s: ConnectionState) -> bool {
    s == ConnectionState::Announcing || s == ConnectionState::Streaming
}

/// States from which the session only winds down.
pub open spec fn is_ending(s: ConnectionState) -> bool {
    s == ConnectionState::ShuttingDown || s == ConnectionState::Closed
}

/// States in which the transport is being opened or is open.
pub open spec fn holds_transport(s: ConnectionState) -> bool {
    s == ConnectionState::Connecting || is_live(s)
}

/// The state after input `i` in state `s`.
pub open spec fn next_state(s: ConnectionState, i: Input) -> ConnectionState {
    match i {
        Input::Start => if s == ConnectionState::Disconnected {
            ConnectionState::Connecting
        } else {
            s
        },
        Input::Connected => if s == ConnectionState::Connecting {
            ConnectionState::Announcing
        } else {
            s
        },
        Input::ConnectFailed => if s == ConnectionState::Connecting {
            ConnectionState::Closed
        } else {
            s
        },
        Input::Sent => if s == ConnectionState::Announcing {
            ConnectionState::Streaming
        } else {
            s
        },
        Input::Failed => if holds_transport(s) {
            ConnectionState::ShuttingDown
        } else {
            s
        },
        Input::Stop => if s == ConnectionState::Disconnected {
            ConnectionState::Closed
        } else if holds_transport(s) {
            ConnectionState::ShuttingDown
        } else {
            s
        },
        Input::Finished => ConnectionState::Closed,
        Input::Received(f) => if is_live(s) && f is Close {
            ConnectionState::ShuttingDown
        } else {
            s
        },
    }
}

/// The state after each of `inputs` in turn, from `s`.
pub open spec fn run_inputs(s: ConnectionState, inputs: Seq<Input>) -> ConnectionState
    decreases inputs.len(),
{
    if inputs.len() == 0 {
        s
    } else {
        next_state(run_inputs(s, inputs.drop_last()), inputs.last())
    }
}

/// Whether frame `f` in state `s` is decoded and dispatched.
pub open spec fn dispatches(s: ConnectionState, f: Frame) -> bool {
    is_live(s) && (f is Text || f is Binary)
}

/// The decode result that a dispatch action stands for.
pub open spec fn dispatched_result(r: Action) -> Result<Quote, DecodeError> {
    match r {
        Action::Deliver(q, _) => Ok(q),
        Action::Skip(e) => Err(e),
        _ => Err(DecodeError::Payload),
    }
}

/// `r` dispatches `decoded`: a quote goes to exactly the consumers that the
/// registry holds for its symbol; a failure is skipped.
pub open spec fn dispatches_to(
    r: Action,
    decoded: Result<Quote, DecodeError>,
    reg: crate::registry::RegistryView,
) -> bool {
    &&& r is Deliver || r is Skip
    &&& dispatched_result(r) == decoded
    &&& r matches Action::Deliver(q, cs) ==> cs@ == consumers_for(reg, q.symbol@)
}

/// The text of the subscription announcement opening: `{"subscribe":`.
pub open spec fn subscribe_opening() -> Seq<char> {
    seq!['{', '"', 's', 'u', 'b', 's', 'c', 'r', 'i', 'b', 'e', '"', ':']
}

/// The announcement around a JSON list of symbols.
pub open spec fn subscribe_text(list_json: Seq<char>) -> Seq<char> {
    subscribe_opening() + list_json + seq!['}']
}

/// A lower-case hexadecimal digit.
pub open spec fn hex_digit(d: nat) -> char {
    seq!['0', '1', '2', '3', '4', '5', '6', '7', '8', '9', 'a', 'b', 'c', 'd', 'e', 'f'][d as int]
}

/// How a character stands inside a JSON string: the quote and the
/// backslash are escaped with a backslash, the control characters below
/// 0x20 as `\b`, `\t`, `\n`, `\f`, `\r` or `\u00XX` (lower-case hex);
/// every other character stands for itself.
pub open spec fn json_char(c: char) -> Seq<char> {
    let u = c as u32;
    if c == '"' {
        seq!['\\', '"']
    } else if c == '\\' {
        seq!['\\', '\\']
    } else if u == 8 {
        seq!['\\', 'b']
    } else if u == 9 {
        seq!['\\', 't']
    } else if u == 10 {
        seq!['\\', 'n']
    } else if u == 12 {
        seq!['\\', 'f']
    } else if u == 13 {
        seq!['\\', 'r']
    } else if u < 32 {
        seq!['\\', 'u', '0', '0', hex_digit((u / 16) as nat), hex_digit((u % 16) as nat)]
    } else {
        seq![c]
    }
}

/// The characters of `s`, each as it stands inside a JSON string.
pub open spec fn json_chars(s: Seq<char>) -> Seq<char>
    decreases s.len(),
{
    if s.len() == 0 {
        Seq::empty()
    } else {
        json_chars(s.drop_last()) + json_char(s.last())
    }
}

/// The JSON string of `s`: its escaped characters between quotes.
pub open spec fn json_string(s: Seq<char>) -> Seq<char> {
    seq!['"'] + json_chars(s) + seq!['"']
}

/// The JSON strings of `items`, separated by commas.
pub open spec fn json_items(items: Seq<Seq<char>>) -> Seq<char>
    decreases items.len(),
{
    if items.len() == 0 {
        Seq::empty()
    } else if items.len() == 1 {
        json_string(items[0])
    } else {
        json_items(items.drop_last()) + seq![','] + json_string(items.last())
    }
}

/// The compact JSON text of a list of strings: `[`, the JSON strings in
/// order separated by commas, `]`.
pub open spec fn json_of_strings(items: Seq<Seq<char>>) -> Seq<char> {
    seq!['['] + json_items(items) + seq![']']
}

/// Relies on `serde_json::to_string` on a list of strings: the compact
/// writer puts out `[`, each string quoted with the escapes of its escape
/// table (quote, backslash, control characters), separated by `,`, then
/// `]`. It fails only where a `Serialize` impl fails or a map has
/// non-string keys, neither of which a list of strings has.
#[verifier::external_body]
fn json_string_list(items: &Vec<String>) -> (r: String)
    ensures
        r@ == json_of_strings(items.deep_view()),
{
    serde_json::to_string(items).unwrap_or_default()
}

/// Wraps a JSON list of symbols into the announcement object.
pub fn wrap_subscription(list_json: &str) -> (r: String)
    ensures
        r@ == subscribe_text(list_json@),
{
    let opening = "{\"subscribe\":";
    let closing = "}";
    proof {
        reveal_strlit("{\"subscribe\":");
        reveal_strlit("}");
    }
    let r = String::from_str(opening).concat(list_json).concat(closing);
    assert(r@ =~= subscribe_text(list_json@));
    r
}

/// The announcement that subscribes to `symbols`, in order.
pub fn subscribe_message(symbols: &Vec<String>) -> (r: String)
    ensures
        r@ == subscribe_text(json_of_strings(symbols.deep_view())),
{
    let list = json_string_list(symbols);
    wrap_subscription(list.as_str())
}

/// Hands a decoded frame to the registry's consumers of its symbol, or
/// skips a frame that could not be decoded.
pub fn dispatch(registry: &Registry, decoded: Result<Quote, DecodeError>) -> (r: Action)
    requires
        registry.wf(),
    ensures
        dispatches_to(r, decoded, registry@),
{
    match decoded {
        Ok(q) => {
            let consumers = registry.lookup(&q.symbol);
            Action::Deliver(q, consumers)
        },
        Err(e) => Action::Skip(e),
    }
}

/// The state of one connection to the feed.
pub struct Session {
    state: ConnectionState,
}

impl View for Session {
    type V = ConnectionState;

    closed spec fn view(&self) -> ConnectionState {
        self.state
    }
}

impl Session {
    /// A session that has not connected yet.
    pub fn new() -> (r: Session)
        ensures
            r@ == ConnectionState::Disconnected,
    {
        Session { state: ConnectionState::Disconnected }
    }

    /// Where the session stands.
    pub fn state(&self) -> (r: ConnectionState)
        ensures
            r == self@,
    {
        self.state
    }

    /// Whether the session is winding down: the sender stops on this.
    pub fn is_shutting_down(&self) -> (r: bool)
        ensures
            r == is_ending(self@),
    {
        self.state == ConnectionState::ShuttingDown || self.state == ConnectionState::Closed
    }

    /// Starts the session: open the transport.
    pub fn start(&mut self) -> (r: Action)
        ensures
            final(self)@ == next_state(old(self)@, Input::Start),
            r == (if old(self)@ == ConnectionState::Disconnected {
                Action::Open
            } else {
                Action::Nothing
            }),
    {
        if self.state == ConnectionState::Disconnected {
            self.state = ConnectionState::Connecting;
            Action::Open
        } else {
            Action::Nothing
        }
    }

    /// The transport opened: announce every registered symbol, in the order
    /// they were subscribed; also when there is none.
    pub fn connected(&mut self, registry: &Registry) -> (r: Action)
        requires
            registry.wf(),
        ensures
            old(self)@ == ConnectionState::Connecting ==> (r matches Action::Send(Outbound::Text(t))
                && t@ == subscribe_text(json_of_strings(crate::registry::symbols_of(registry@)))
                && final(self)@ == next_state(old(self)@, Input::Connected)),
            old(self)@ != ConnectionState::Connecting ==> r == Action::Nothing && final(self)@ == old(
                self,
            )@,
    {
        if self.state != ConnectionState::Connecting {
            return Action::Nothing;
        }
        let message = subscribe_message(&registry.all_symbols());
        self.state = ConnectionState::Announcing;
        Action::Send(Outbound::Text(message))
    }

    /// The transport could not be opened: the attempt is over.
    pub fn connect_failed(&mut self)
        ensures
            final(self)@ == next_state(old(self)@, Input::ConnectFailed),
    {
        if self.state == ConnectionState::Connecting {
            self.state = ConnectionState::Closed;
        }
    }

    /// A send completed: after the announcement, the session streams.
    pub fn sent(&mut self)
        ensures
            final(self)@ == next_state(old(self)@, Input::Sent),
    {
        if self.state == ConnectionState::Announcing {
            self.state = ConnectionState::Streaming;
        }
    }

    /// A send failed or the transport reported an error: shut down.
    pub fn failed(&mut self) -> (r: Action)
        ensures
            final(self)@ == next_state(old(self)@, Input::Failed),
            r == (if holds_transport(old(self)@) {
                Action::CloseTransport
            } else {
                Action::Nothing
            }),
    {
        if self.state == ConnectionState::Connecting || self.state == ConnectionState::Announcing
            || self.state == ConnectionState::Streaming {
            self.state = ConnectionState::ShuttingDown;
            Action::CloseTransport
        } else {
            Action::Nothing
        }
    }

    /// The caller asks to stop; asking again once stopping is a no-op.
    pub fn stop(&mut self) -> (r: Action)
        ensures
            final(self)@ == next_state(old(self)@, Input::Stop),
            r == (if holds_transport(old(self)@) {
                Action::CloseTransport
            } else {
                Action::Nothing
            }),
    {
        if self.state == ConnectionState::Disconnected {
            self.state = ConnectionState::Closed;
            Action::Nothing
        } else if self.state == ConnectionState::Connecting || self.state
            == ConnectionState::Announcing || self.state == ConnectionState::Streaming {
            self.state = ConnectionState::ShuttingDown;
            Action::CloseTransport
        } else {
            Action::Nothing
        }
    }

    /// The transport is closed: the session is over.
    pub fn finished(&mut self)
        ensures
            final(self)@ == next_state(old(self)@, Input::Finished),
    {
        self.state = ConnectionState::Closed;
    }

    /// A frame arrived: decode and dispatch data, answer a ping with a pong
    /// carrying its payload, and shut down on a close frame. Outside the
    /// live states frames are ignored.
    pub fn received(&mut self, frame: Frame, registry: &Registry) -> (r: Action)
        requires
            registry.wf(),
        ensures
            final(self)@ == next_state(old(self)@, Input::Received(frame)),
            is_live(old(self)@) ==> match frame {
                Frame::Text(t) => text_decodes_to(t@, dispatched_result(r)) && dispatches_to(
                    r,
                    dispatched_result(r),
                    registry@,
                ),
                Frame::Binary(b) => quote_decodes_to(b@, dispatched_result(r)) && dispatches_to(
                    r,
                    dispatched_result(r),
                    registry@,
                ),
                Frame::Ping(p) => r == Action::Send(Outbound::Pong(p)),
                Frame::Pong(_) => r == Action::Nothing,
                Frame::Close => r == Action::CloseTransport,
            },
            !is_live(old(self)@) ==> r == Action::Nothing,
    {
        if self.state != ConnectionState::Announcing && self.state != ConnectionState::Streaming {
            return Action::Nothing;
        }
        match frame {
            Frame::Text(t) => {
                let d = decode_text(t.as_str());
                dispatch(registry, d)
            },
            Frame::Binary(b) => {
                let d = decode_payload(b.as_slice());
                dispatch(registry, d)
            },
            Frame::Ping(p) => Action::Send(Outbound::Pong(p)),
            Frame::Pong(_) => Action::Nothing,
            Frame::Close => {
                self.state = ConnectionState::ShuttingDown;
                Action::CloseTransport
            },
        }
    }

    /// Symbols were newly subscribed: while the transport is open, announce
    /// them without restarting; before that, the announcement on connecting
    /// includes them.
    pub fn announce(&mut self, added: &Vec<String>) -> (r: Action)
        ensures
            final(self)@ == old(self)@,
            is_live(old(self)@) && added@.len() > 0 ==> (r matches Action::Send(Outbound::Text(t))
                && t@ == subscribe_text(json_of_strings(added.deep_view()))),
            !(is_live(old(self)@) && added@.len() > 0) ==> r == Action::Nothing,
    {
        if (self.state != ConnectionState::Announcing && self.state != ConnectionState::Streaming)
            || added.len() == 0 {
            return Action::Nothing;
        }
        Action::Send(Outbound::Text(subscribe_message(added)))
    }
}

/// A decode failure is isolated: a data frame, whether or not it decodes,
/// leaves a live session live, so the next data frame is decoded and
/// dispatched.
pub proof fn lemma_decode_failure_isolated(s: ConnectionState, bad: Frame, next: Frame)
    requires
        is_live(s),
        bad is Text || bad is Binary,
        next is Text || next is Binary,
    ensures
        next_state(s, Input::Received(bad)) == s,
        dispatches(next_state(s, Input::Received(bad)), next),
{
}

proof fn lemma_ending_stays(s: ConnectionState, inputs: Seq<Input>)
    requires
        is_ending(s),
    ensures
        is_ending(run_inputs(s, inputs)),
    decreases inputs.len(),
{
    if inputs.len() > 0 {
        lemma_ending_stays(s, inputs.drop_last());
    }
}

/// After a close frame no frame is dispatched again, whatever happens next,
/// and stopping then does nothing.
pub proof fn lemma_no_dispatch_after_close(s: ConnectionState, inputs: Seq<Input>, f: Frame)
    requires
        is_live(s),
    ensures
        next_state(s, Input::Received(Frame::Close)) == ConnectionState::ShuttingDown,
        !dispatches(run_inputs(ConnectionState::ShuttingDown, inputs), f),
        !holds_transport(run_inputs(ConnectionState::ShuttingDown, inputs)),
{
    lemma_ending_stays(ConnectionState::ShuttingDown, inputs);
}

/// Stopping twice is stopping once: the second stop leaves the state as it
/// is and closes nothing.
pub proof fn lemma_stop_idempotent(s: ConnectionState)
    ensures
        next_state(next_state(s, Input::Stop), Input::Stop) == next_state(s, Input::Stop),
        !holds_transport(next_state(s, Input::Stop)),
{
}

} // verus!
