//! The client facade and the connection/handshake state machine. The facade
//! holds the protocol metadata and builds, byte-exactly, every frame the
//! connection sends; the state machine pins down each transition of the
//! handshake, from locating the endpoint to capturing the session identity.

use vstd::prelude::*;
use vstd::string::*;
use vstd::utf8::encode_utf8;

use crate::json::json_quote;
use crate::json::spec_quoted;
use crate::models::send::lemma_command_json_object_shaped;
use crate::models::send::spec_command_json;
use crate::models::send::SentCommand;
use crate::models::shared::User;
use crate::opcodes::OpCodes;
use crate::utils::create_packet_json;
use crate::utils::encode_frame;
use crate::utils::lemma_attach_nonce_bytes;
use crate::utils::spec_attach_nonce;
use crate::utils::spec_frame_bytes;
use crate::utils::spec_nonce_char;
use crate::DiscordRPCError;

verus! {

/// The handshake payload: protocol version 1 and the application identifier.
pub open spec fn spec_handshake_payload(client_id: Seq<char>) -> Seq<char> {
    "{\"v\":1,\"client_id\":"@ + spec_quoted(client_id) + "}"@
}

/// A client of the local RPC transport: the application identifier and the
/// access token it authenticates with. Both arrive as explicit constructor
/// parameters; the library never reads the process environment. The open
/// channel itself lives with the caller, who sends the frames built here.
pub struct DiscordIpcClient {
    /// Client ID of the IPC client.
    pub client_id: String,
    /// The OAuth2 access token used by `authenticate`.
    pub access_token: String,
}

impl DiscordIpcClient {
    /// A client for one application identity.
    pub fn new(client_id: &str, access_token: &str) -> (c: DiscordIpcClient)
        ensures
            c.client_id@ == client_id@,
            c.access_token@ == access_token@,
    {
        DiscordIpcClient { client_id: client_id.to_owned(), access_token: access_token.to_owned() }
    }

    /// The handshake payload for this client: `{"v":1,"client_id":"<id>"}`.
    pub fn handshake_payload(&self) -> (r: String)
        ensures
            r@ == spec_handshake_payload(self.client_id@),
    {
        let mut out = String::from_str("{\"v\":1,\"client_id\":");
        out.append(json_quote(self.client_id.as_str()).as_str());
        out.append("}");
        proof {
            assert(out@ =~= spec_handshake_payload(self.client_id@));
        }
        out
    }

    /// The complete wire image of this client's handshake frame: the
    /// eight-byte header under the Handshake opcode, then the payload.
    pub fn handshake_frame(&self) -> (r: Result<Vec<u8>, DiscordRPCError>)
        ensures
            encode_utf8(spec_handshake_payload(self.client_id@)).len() <= u32::MAX ==> (r matches Ok(
                f,
            ) && f@ == spec_frame_bytes(0, spec_handshake_payload(self.client_id@))),
            encode_utf8(spec_handshake_payload(self.client_id@)).len() > u32::MAX ==> r == Err::<
                Vec<u8>,
                DiscordRPCError,
            >(DiscordRPCError::TryFromSlice),
    {
        let payload = self.handshake_payload();
        encode_frame(payload.as_str(), OpCodes::Handshake.to_u32())
    }

    /// The complete wire image of one caller-built JSON text sent verbatim as
    /// a regular message: the escape hatch for payload shapes the library
    /// does not model.
    pub fn string_frame(&self, payload: &str) -> (r: Result<Vec<u8>, DiscordRPCError>)
        ensures
            encode_utf8(payload@).len() <= u32::MAX ==> (r matches Ok(f) && f@ == spec_frame_bytes(
                1,
                payload@,
            )),
            encode_utf8(payload@).len() > u32::MAX ==> r == Err::<Vec<u8>, DiscordRPCError>(
                DiscordRPCError::TryFromSlice,
            ),
    {
        encode_frame(payload, OpCodes::Frame.to_u32())
    }

    /// The complete wire image of one command frame: the command's wire JSON
    /// with a fresh nonce attached, framed under the regular-message opcode.
    /// The nonce is random, so the frame is pinned up to its 36 characters;
    /// the only failure is a payload too long for the header's length field.
    pub fn command_frame(&self, command: &SentCommand) -> (r: Result<Vec<u8>, DiscordRPCError>)
        ensures
            r matches Ok(f) ==> exists|nc: Seq<char>|
                nc.len() == 36 && (forall|i: int| 0 <= i < 36 ==> spec_nonce_char(#[trigger] nc[i]))
                    && f@ == spec_frame_bytes(
                    1,
                    #[trigger] spec_attach_nonce(spec_command_json(*command), nc),
                ),
            r matches Err(e) ==> e == DiscordRPCError::TryFromSlice,
            encode_utf8(spec_command_json(*command)).len() + 47 <= u32::MAX ==> r is Ok,
    {
        let json = match command.to_json() {
            Ok(j) => j,
            Err(e) => {
                return Err(e);
            },
        };
        proof {
            lemma_command_json_object_shaped(*command);
        }
        let packet = match create_packet_json(json.as_str()) {
            Ok(p) => p,
            Err(e) => {
                proof {
                    assert(false);
                }
                return Err(e);
            },
        };
        let ghost cj = spec_command_json(*command);
        proof {
            let nc = choose|nc: Seq<char>|
                nc.len() == 36 && (forall|i: int| 0 <= i < 36 ==> spec_nonce_char(#[trigger] nc[i]))
                    && packet@ == #[trigger] spec_attach_nonce(cj, nc);
            lemma_attach_nonce_bytes(cj, nc);
        }
        encode_frame(packet.as_str(), OpCodes::Frame.to_u32())
    }

    /// The command that authenticates this client with its access token.
    pub fn authenticate_command(&self) -> (c: SentCommand)
        ensures
            c == SentCommand::Authenticate(
                crate::models::send::AuthenticateArgs { access_token: self.access_token },
            ),
    {
        SentCommand::Authenticate(
            crate::models::send::AuthenticateArgs { access_token: self.access_token.clone() },
        )
    }
}

/// The states of the connection/handshake sequence. Each non-terminal state
/// names the phase just completed; `Ready` and `Failed` are terminal.
#[derive(Debug, PartialEq, Eq)]
pub enum HandshakeState {
    /// Nothing has happened yet.
    Disconnected,
    /// The endpoint locator found a live path.
    Locating {
        /// The located endpoint path.
        endpoint: String,
    },
    /// The channel at the endpoint is open.
    Opening,
    /// The handshake frame has been written.
    HandshakeSent,
    /// The first read is in flight.
    AwaitingReady,
    /// Terminal success: the server confirmed the connection.
    Ready {
        /// The session identity captured from the ready payload.
        user: User,
    },
    /// Terminal failure, carrying the causing error.
    Failed {
        /// What ended the handshake.
        error: DiscordRPCError,
    },
}

/// The outcomes the surrounding connection code reports to the state
/// machine, one per phase.
#[derive(Debug, PartialEq, Eq)]
pub enum HandshakeEvent {
    /// The endpoint locator finished: the found path, or none.
    Located(Option<String>),
    /// Opening the channel finished.
    Opened(bool),
    /// Writing the handshake frame finished.
    HandshakeWritten(bool),
    /// The first read has been issued.
    AwaitingFirstFrame,
    /// The first frame arrived and was validated: the session identity of a
    /// ready payload, or the error - any non-ready payload is a connect
    /// failure, a dead channel an I/O failure.
    FirstFrame(Result<User, DiscordRPCError>),
}

/// What the connection code should do next in a given state.
#[derive(Clone, Copy, Debug, PartialEq, Eq, Structural)]
pub enum HandshakeAction {
    /// Run the endpoint locator.
    Locate,
    /// Open the channel at the located endpoint.
    OpenChannel,
    /// Send the handshake frame.
    SendHandshake,
    /// Read and validate the first frame.
    ReceiveFirstFrame,
    /// A terminal state was reached: stop.
    Finished,
}

/// Every transition of the handshake: one locate, one open, one send, one
/// read, in that order; the first failure is terminal, a ready payload
/// captures its session identity unchanged, and no event moves a terminal
/// state. No retry happens inside the machine: a caller that wants retry
/// re-runs the whole sequence.
pub open spec fn spec_handshake_step(state: HandshakeState, event: HandshakeEvent) -> HandshakeState {
    match (state, event) {
        (HandshakeState::Disconnected, HandshakeEvent::Located(Some(p))) => HandshakeState::Locating {
            endpoint: p,
        },
        (HandshakeState::Disconnected, HandshakeEvent::Located(None)) => HandshakeState::Failed {
            error: DiscordRPCError::PipeNotFound,
        },
        (HandshakeState::Locating { .. }, HandshakeEvent::Opened(true)) => HandshakeState::Opening,
        (HandshakeState::Locating { .. }, HandshakeEvent::Opened(false)) => HandshakeState::Failed {
            error: DiscordRPCError::Io,
        },
        (HandshakeState::Opening, HandshakeEvent::HandshakeWritten(true)) => HandshakeState::HandshakeSent,
        (HandshakeState::Opening, HandshakeEvent::HandshakeWritten(false)) => HandshakeState::Failed {
            error: DiscordRPCError::Io,
        },
        (HandshakeState::HandshakeSent, HandshakeEvent::AwaitingFirstFrame) => HandshakeState::AwaitingReady,
        (HandshakeState::AwaitingReady, HandshakeEvent::FirstFrame(Ok(u))) => HandshakeState::Ready {
            user: u,
        },
        (HandshakeState::AwaitingReady, HandshakeEvent::FirstFrame(Err(e))) => HandshakeState::Failed {
            error: e,
        },
        (s, _) => s,
    }
}

/// Advances the handshake by one reported outcome. The result is exactly
/// [`spec_handshake_step`] of the pair.
pub fn handshake_step(state: HandshakeState, event: HandshakeEvent) -> (next: HandshakeState)
    ensures
        next == spec_handshake_step(state, event),
{
    match (state, event) {
        (HandshakeState::Disconnected, HandshakeEvent::Located(Some(p))) => HandshakeState::Locating {
            endpoint: p,
        },
        (HandshakeState::Disconnected, HandshakeEvent::Located(None)) => HandshakeState::Failed {
            error: DiscordRPCError::PipeNotFound,
        },
        (HandshakeState::Locating { .. }, HandshakeEvent::Opened(true)) => HandshakeState::Opening,
        (HandshakeState::Locating { .. }, HandshakeEvent::Opened(false)) => HandshakeState::Failed {
            error: DiscordRPCError::Io,
        },
        (HandshakeState::Opening, HandshakeEvent::HandshakeWritten(true)) => HandshakeState::HandshakeSent,
        (HandshakeState::Opening, HandshakeEvent::HandshakeWritten(false)) => HandshakeState::Failed {
            error: DiscordRPCError::Io,
        },
        (HandshakeState::HandshakeSent, HandshakeEvent::AwaitingFirstFrame) => HandshakeState::AwaitingReady,
        (HandshakeState::AwaitingReady, HandshakeEvent::FirstFrame(Ok(u))) => HandshakeState::Ready {
            user: u,
        },
        (HandshakeState::AwaitingReady, HandshakeEvent::FirstFrame(Err(e))) => HandshakeState::Failed {
            error: e,
        },
        (s, _) => s,
    }
}

/// The next thing to do in each state: the phases run strictly in order, and
/// a terminal state asks for nothing more.
pub fn next_action(state: &HandshakeState) -> (a: HandshakeAction)
    ensures
        state is Disconnected ==> a == HandshakeAction::Locate,
        state is Locating ==> a == HandshakeAction::OpenChannel,
        state is Opening ==> a == HandshakeAction::SendHandshake,
        state is HandshakeSent ==> a == HandshakeAction::ReceiveFirstFrame,
        state is AwaitingReady ==> a == HandshakeAction::ReceiveFirstFrame,
        state is Ready ==> a == HandshakeAction::Finished,
        state is Failed ==> a == HandshakeAction::Finished,
{
    match state {
        HandshakeState::Disconnected => HandshakeAction::Locate,
        HandshakeState::Locating { .. } => HandshakeAction::OpenChannel,
        HandshakeState::Opening => HandshakeAction::SendHandshake,
        HandshakeState::HandshakeSent => HandshakeAction::ReceiveFirstFrame,
        HandshakeState::AwaitingReady => HandshakeAction::ReceiveFirstFrame,
        HandshakeState::Ready { .. } => HandshakeAction::Finished,
        HandshakeState::Failed { .. } => HandshakeAction::Finished,
    }
}

/// A ready payload yields its embedded session identity unchanged, and any
/// other first frame is a terminal connect failure, never a retry.
pub proof fn lemma_handshake_first_frame(u: User)
    ensures
        spec_handshake_step(
            HandshakeState::AwaitingReady,
            HandshakeEvent::FirstFrame(Ok(u)),
        ) == (HandshakeState::Ready { user: u }),
        spec_handshake_step(
            HandshakeState::AwaitingReady,
            HandshakeEvent::FirstFrame(Err(DiscordRPCError::CouldNotConnect)),
        ) == (HandshakeState::Failed { error: DiscordRPCError::CouldNotConnect }),
{
}

/// Terminal states stay put: once the handshake has succeeded or failed, no
/// further event changes it. Only one handshake occurs per connection.
pub proof fn lemma_handshake_terminal(state: HandshakeState, event: HandshakeEvent)
    requires
        state is Ready || state is Failed,
    ensures
        spec_handshake_step(state, event) == state,
{
}

} // verus!
