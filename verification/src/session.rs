//! The session state machine: many clients share one assistant CLI process.
//!
//! The manager decides; the caller performs the returned action (writing to
//! the assistant process, or fanning a message out to the connected clients).

use vstd::prelude::*;
use vstd::string::*;
use crate::protocol;
use crate::protocol::{ClientMessage, MediaType, ServerMessage};
use crate::text::str_equal;

verus! {

/// Confirmation mode of the assistant session.
#[derive(Debug, Clone, Copy, PartialEq, Eq, Structural)]
pub enum ConfirmMode {
    /// Auto-approve all confirmations
    Auto,
    /// Forward confirmations to client
    Manual,
}

/// The session mode a client's requested mode stands for.
pub open spec fn mode_of_request(mode: protocol::ConfirmMode) -> ConfirmMode {
    match mode {
        protocol::ConfirmMode::Auto => ConfirmMode::Auto,
        protocol::ConfirmMode::Manual => ConfirmMode::Manual,
    }
}

impl ConfirmMode {
    /// The session mode a client's requested mode stands for.
    pub fn from_request(mode: protocol::ConfirmMode) -> (r: ConfirmMode)
        ensures
            r == mode_of_request(mode),
    {
        match mode {
            protocol::ConfirmMode::Auto => ConfirmMode::Auto,
            protocol::ConfirmMode::Manual => ConfirmMode::Manual,
        }
    }

    /// The mode named on the command line: `manual` selects manual
    /// confirmation, anything else automatic confirmation.
    pub fn from_arg(arg: &str) -> (r: ConfirmMode)
        ensures
            r == (if arg@ == "manual"@ { ConfirmMode::Manual } else { ConfirmMode::Auto }),
    {
        if str_equal(arg, "manual") {
            ConfirmMode::Manual
        } else {
            ConfirmMode::Auto
        }
    }
}

/// Output event from the assistant.
#[derive(Debug, Clone)]
pub enum ClaudeOutput {
    /// Regular output chunk
    Output { text: String },
    /// The assistant finished response
    Done,
    /// Confirmation required
    NeedsConfirmation { prompt: String },
    /// Error occurred
    Error { message: String },
}

/// What the caller has to do after a decision of the session manager.
#[derive(Debug, Clone)]
pub enum SessionAction {
    /// Nothing to do.
    Nothing,
    /// Write this line to the assistant process.
    ToClaude { text: String },
    /// Confirm the pending request of the assistant process.
    AckClaude,
    /// Send this message to every connected client.
    Broadcast { message: ServerMessage },
}

/// Whether a 128-bit ID has the version (4, random) and variant (RFC 4122)
/// bits of a randomly generated UUID.
pub open spec fn is_random_uuid(id: u128) -> bool {
    (id >> 76u128) & 0xfu128 == 4u128 && (id >> 62u128) & 0x3u128 == 2u128
}

/// Text of the refusal sent while another client has to confirm.
pub open spec fn busy_text() -> Seq<char> {
    "Waiting for confirmation from another client"@
}

/// Error code of a failure of the assistant forwarded to the clients.
pub open spec fn claude_error_code() -> Seq<char> {
    "claude_error"@
}

/// How a media type is named in the line sent to the assistant.
pub open spec fn media_label(ty: MediaType) -> Seq<char> {
    match ty {
        MediaType::Audio => "Audio"@,
        MediaType::Image => "Image"@,
        MediaType::Video => "Video"@,
    }
}

/// The line sent to the assistant for a chat message with a media attachment.
pub open spec fn media_prompt(ty: MediaType, message: Seq<char>) -> Seq<char> {
    "[Media: "@ + media_label(ty) + "] "@ + message
}

/// Whether a result is the refusal given while another client has to confirm.
pub open spec fn is_busy(r: Result<SessionAction, String>) -> bool {
    r matches Err(e) && e@ == busy_text()
}

/// Session manager state.
pub struct SessionManager {
    /// Connected clients, each once
    clients: Vec<String>,
    /// Client whose confirmation is awaited, if any
    pending_ack: Option<String>,
    /// Whether a forwarded confirmation request awaits the answer of any client
    confirmation_requested: bool,
    /// Current conversation ID
    conversation_id: Option<u128>,
    /// Confirmation mode of the shared assistant process
    confirm_mode: ConfirmMode,
}

impl SessionManager {
    /// The connected clients, in the order they joined.
    pub closed spec fn client_ids(self) -> Seq<Seq<char>> {
        self.clients@.map_values(|c: String| c@)
    }

    /// The set of connected clients.
    pub open spec fn client_set(self) -> Set<Seq<char>> {
        self.client_ids().to_set()
    }

    /// The client whose confirmation is awaited, if any.
    pub closed spec fn pending(self) -> Option<Seq<char>> {
        match self.pending_ack {
            Some(p) => Some(p@),
            None => None,
        }
    }

    /// Whether a confirmation request forwarded to the clients awaits the
    /// answer of any one of them.
    pub closed spec fn awaiting(self) -> bool {
        self.confirmation_requested
    }

    /// The current conversation ID.
    pub closed spec fn conversation(self) -> Option<u128> {
        self.conversation_id
    }

    /// The confirmation mode.
    pub closed spec fn mode(self) -> ConfirmMode {
        self.confirm_mode
    }

    /// Well-formedness: each client is registered once.
    pub closed spec fn wf(self) -> bool {
        self.client_ids().no_duplicates()
    }

    /// Whether requests of `client` are refused: another client has to confirm.
    pub open spec fn blocks(self, client: Seq<char>) -> bool {
        self.pending() matches Some(p) && p != client
    }

    /// Whether an acknowledgment of `client` confirms the awaited request: its
    /// own confirmation is awaited, or any client's is.
    pub open spec fn may_confirm(self, client: Seq<char>) -> bool {
        self.pending() == Some(client) || self.awaiting()
    }

    /// `post` keeps the clients and the mode of `pre`.
    pub open spec fn same_clients_and_mode(pre: SessionManager, post: SessionManager) -> bool {
        &&& post.client_ids() == pre.client_ids()
        &&& post.mode() == pre.mode()
    }

    /// `post` keeps what `pre` awaits a confirmation for.
    pub open spec fn same_wait(pre: SessionManager, post: SessionManager) -> bool {
        &&& post.pending() == pre.pending()
        &&& post.awaiting() == pre.awaiting()
    }

    /// `post` is `pre` in every part.
    pub open spec fn unchanged(pre: SessionManager, post: SessionManager) -> bool {
        &&& SessionManager::same_clients_and_mode(pre, post)
        &&& SessionManager::same_wait(pre, post)
        &&& post.conversation() == pre.conversation()
    }

    /// What routing `msg` from `client` does, where `fresh` is the new
    /// conversation ID drawn for the broadcast that confirms a mode switch.
    /// While another client has to confirm, every message is refused.
    pub open spec fn routes(
        pre: SessionManager,
        client: Seq<char>,
        msg: ClientMessage,
        fresh: u128,
        post: SessionManager,
        r: Result<SessionAction, String>,
    ) -> bool {
        if pre.blocks(client) {
            is_busy(r) && SessionManager::unchanged(pre, post)
        } else {
            match msg {
                ClientMessage::Chat { message, conversation_id } => {
                    &&& r == Ok::<SessionAction, String>(SessionAction::ToClaude { text: message })
                    &&& SessionManager::same_clients_and_mode(pre, post)
                    &&& SessionManager::same_wait(pre, post)
                    &&& post.conversation() == (if conversation_id is Some {
                        conversation_id
                    } else {
                        pre.conversation()
                    })
                },
                ClientMessage::ChatWithMedia { message, media } => {
                    &&& r matches Ok(SessionAction::ToClaude { text }) && text@ == media_prompt(
                        media.ty,
                        message@,
                    )
                    &&& SessionManager::unchanged(pre, post)
                },
                ClientMessage::SetConfirmMode { mode } => {
                    &&& r == Ok::<SessionAction, String>(
                        SessionAction::Broadcast {
                            message: ServerMessage::ChatDone { conversation_id: fresh },
                        },
                    )
                    &&& post.client_ids() == pre.client_ids()
                    &&& post.mode() == mode_of_request(mode)
                    &&& SessionManager::same_wait(pre, post)
                    &&& post.conversation() == pre.conversation()
                },
                ClientMessage::Ack => if pre.may_confirm(client) {
                    &&& r == Ok::<SessionAction, String>(SessionAction::AckClaude)
                    &&& SessionManager::same_clients_and_mode(pre, post)
                    &&& post.pending() == None::<Seq<char>>
                    &&& !post.awaiting()
                    &&& post.conversation() == pre.conversation()
                } else {
                    r == Ok::<SessionAction, String>(SessionAction::Nothing)
                        && SessionManager::unchanged(pre, post)
                },
                _ => r == Ok::<SessionAction, String>(SessionAction::Nothing)
                    && SessionManager::unchanged(pre, post),
            }
        }
    }

    /// What handling an output event of the assistant does, where `fresh` is the
    /// conversation ID reported when no conversation was named.
    pub open spec fn handles(
        pre: SessionManager,
        output: ClaudeOutput,
        fresh: u128,
        post: SessionManager,
        a: SessionAction,
    ) -> bool {
        match output {
            ClaudeOutput::Output { text } => a == SessionAction::Broadcast {
                message: ServerMessage::ChatChunk { text },
            } && SessionManager::unchanged(pre, post),
            ClaudeOutput::Done => a == SessionAction::Broadcast {
                message: ServerMessage::ChatDone {
                    conversation_id: match pre.conversation() {
                        Some(c) => c,
                        None => fresh,
                    },
                },
            } && SessionManager::unchanged(pre, post),
            ClaudeOutput::NeedsConfirmation { prompt } => match pre.mode() {
                ConfirmMode::Auto => a == SessionAction::AckClaude && SessionManager::unchanged(
                    pre,
                    post,
                ),
                ConfirmMode::Manual => {
                    &&& a == SessionAction::Broadcast { message: ServerMessage::NeedAck { prompt } }
                    &&& SessionManager::same_clients_and_mode(pre, post)
                    &&& post.pending() == None::<Seq<char>>
                    &&& post.awaiting()
                    &&& post.conversation() == pre.conversation()
                },
            },
            ClaudeOutput::Error { message } => {
                &&& a matches SessionAction::Broadcast {
                    message: ServerMessage::Error { code, message: m },
                } && code@ == claude_error_code() && m == message
                &&& SessionManager::unchanged(pre, post)
            },
        }
    }

    /// Creates a session with no clients, no pending confirmation and no
    /// conversation.
    pub fn new(confirm_mode: ConfirmMode) -> (s: SessionManager)
        ensures
            s.wf(),
            s.client_ids() == Seq::<Seq<char>>::empty(),
            s.pending() == None::<Seq<char>>,
            !s.awaiting(),
            s.conversation() == None::<u128>,
            s.mode() == confirm_mode,
    {
        let s = SessionManager {
            clients: Vec::new(),
            pending_ack: None,
            confirmation_requested: false,
            conversation_id: None,
            confirm_mode,
        };
        assert(s.client_ids() =~= Seq::<Seq<char>>::empty());
        s
    }

    /// The confirmation mode.
    pub fn confirm_mode(&self) -> (m: ConfirmMode)
        ensures
            m == self.mode(),
    {
        self.confirm_mode
    }

    /// Index of `client_id` among the connected clients, if connected.
    fn find_client(&self, client_id: &str) -> (r: Option<usize>)
        ensures
            match r {
                Some(i) => i < self.client_ids().len() && self.client_ids()[i as int]
                    == client_id@,
                None => !self.client_ids().contains(client_id@),
            },
    {
        let n = self.clients.len();
        let mut i: usize = 0;
        while i < n
            invariant
                n == self.clients@.len(),
                i <= n,
                forall|j: int| 0 <= j < i ==> self.client_ids()[j] != client_id@,
            decreases n - i,
        {
            if str_equal(self.clients[i].as_str(), client_id) {
                return Some(i);
            }
            i = i + 1;
        }
        None
    }

    /// Adds a client connection; a client already connected stays connected once.
    pub fn add_client(&mut self, client_id: String)
        requires
            old(self).wf(),
        ensures
            final(self).wf(),
            final(self).client_set() == old(self).client_set().insert(client_id@),
            old(self).client_ids().contains(client_id@) ==> final(self).client_ids()
                == old(self).client_ids(),
            !old(self).client_ids().contains(client_id@) ==> final(self).client_ids()
                == old(self).client_ids().push(client_id@),
            final(self).pending() == old(self).pending(),
            final(self).awaiting() == old(self).awaiting(),
            final(self).conversation() == old(self).conversation(),
            final(self).mode() == old(self).mode(),
    {
        let ghost before = self.client_ids();
        match self.find_client(client_id.as_str()) {
            Some(_) => {
                proof {
                    assert(before.to_set().insert(client_id@) =~= before.to_set());
                }
            },
            None => {
                let ghost id = client_id@;
                self.clients.push(client_id);
                proof {
                    assert(self.client_ids() =~= before.push(id));
                    before.lemma_push_to_set_commute(id);
                }
            },
        }
    }

    /// Removes a client.
    pub fn remove_client(&mut self, client_id: &str)
        requires
            old(self).wf(),
        ensures
            final(self).wf(),
            final(self).client_set() == old(self).client_set().remove(client_id@),
            !final(self).client_ids().contains(client_id@),
            final(self).pending() == old(self).pending(),
            final(self).awaiting() == old(self).awaiting(),
            final(self).conversation() == old(self).conversation(),
            final(self).mode() == old(self).mode(),
    {
        let ghost before = self.client_ids();
        match self.find_client(client_id) {
            Some(i) => {
                self.clients.remove(i);
                proof {
                    assert(self.client_ids() =~= before.remove(i as int));
                    assert forall|x: Seq<char>|
                        self.client_ids().to_set().contains(x) <==> before.to_set().remove(
                            client_id@,
                        ).contains(x) by {
                        if self.client_ids().contains(x) {
                            let k = choose|k: int|
                                0 <= k < self.client_ids().len() && self.client_ids()[k] == x;
                            if k < i {
                                assert(before[k] == x);
                            } else {
                                assert(before[k + 1] == x);
                            }
                        }
                        if before.contains(x) && x != client_id@ {
                            let k = choose|k: int| 0 <= k < before.len() && before[k] == x;
                            if k < i {
                                assert(self.client_ids()[k] == x);
                            } else {
                                assert(self.client_ids()[k - 1] == x);
                            }
                        }
                    }
                    assert(self.client_set() =~= before.to_set().remove(client_id@));
                }
            },
            None => {
                proof {
                    assert(before.to_set().remove(client_id@) =~= before.to_set());
                }
            },
        }
    }

    /// Number of connected clients.
    pub fn client_count(&self) -> (n: usize)
        requires
            self.wf(),
        ensures
            n == self.client_set().len(),
            n == self.client_ids().len(),
    {
        proof {
            self.client_ids().unique_seq_to_set();
        }
        self.clients.len()
    }

    /// Whether requests of `client_id` are refused because another client
    /// has to confirm.
    fn is_pending_ack(&self, client_id: &str) -> (r: bool)
        ensures
            r == self.blocks(client_id@),
    {
        match &self.pending_ack {
            Some(p) => !str_equal(p.as_str(), client_id),
            None => false,
        }
    }

    /// Routes a client message, with `fresh` the conversation ID to report
    /// when the confirmation mode is switched.
    pub fn route_message_with_id(&mut self, client_id: &str, msg: ClientMessage, fresh: u128) -> (r:
        Result<SessionAction, String>)
        requires
            old(self).wf(),
        ensures
            final(self).wf(),
            SessionManager::routes(*old(self), client_id@, msg, fresh, *final(self), r),
    {
        if self.is_pending_ack(client_id) {
            return Err(String::from_str("Waiting for confirmation from another client"));
        }
        match msg {
            ClientMessage::Chat { message, conversation_id } => {
                if let Some(cid) = conversation_id {
                    self.conversation_id = Some(cid);
                }
                Ok(SessionAction::ToClaude { text: message })
            },
            ClientMessage::ChatWithMedia { message, media } => {
                let mut text = String::from_str("[Media: ");
                match media.ty {
                    MediaType::Audio => text.append("Audio"),
                    MediaType::Image => text.append("Image"),
                    MediaType::Video => text.append("Video"),
                }
                text.append("] ");
                text.append(message.as_str());
                Ok(SessionAction::ToClaude { text })
            },
            ClientMessage::SetConfirmMode { mode } => {
                self.confirm_mode = ConfirmMode::from_request(mode);
                Ok(
                    SessionAction::Broadcast {
                        message: ServerMessage::ChatDone { conversation_id: fresh },
                    },
                )
            },
            ClientMessage::Ack => {
                let own = match &self.pending_ack {
                    Some(p) => str_equal(p.as_str(), client_id),
                    None => false,
                };
                if own || self.confirmation_requested {
                    self.pending_ack = None;
                    self.confirmation_requested = false;
                    Ok(SessionAction::AckClaude)
                } else {
                    Ok(SessionAction::Nothing)
                }
            },
            ClientMessage::FileList { .. } => Ok(SessionAction::Nothing),
            ClientMessage::FileRead { .. } => Ok(SessionAction::Nothing),
            ClientMessage::FileWrite { .. } => Ok(SessionAction::Nothing),
        }
    }

    /// Routes a client message. A switch of the confirmation mode is
    /// announced with a freshly drawn conversation ID.
    pub fn route_message(&mut self, client_id: &str, msg: ClientMessage) -> (r: Result<
        SessionAction,
        String,
    >)
        requires
            old(self).wf(),
        ensures
            final(self).wf(),
            exists|fresh: u128|
                is_random_uuid(fresh) && #[trigger] SessionManager::routes(
                    *old(self),
                    client_id@,
                    msg,
                    fresh,
                    *final(self),
                    r,
                ),
    {
        let ghost pre = *self;
        let ghost m = msg;
        let is_switch = match &msg {
            ClientMessage::SetConfirmMode { .. } => true,
            _ => false,
        };
        let fresh = if is_switch {
            new_conversation_id()
        } else {
            0
        };
        let r = self.route_message_with_id(client_id, msg, fresh);
        proof {
            if !is_switch {
                let w: u128 = 0x4000_8000_0000_0000_0000u128;
                assert(is_random_uuid(0x4000_8000_0000_0000_0000u128)) by (bit_vector);
                assert(SessionManager::routes(pre, client_id@, m, w, *self, r));
            }
        }
        r
    }

    /// Handles an output event of the assistant, with `fresh` the conversation ID to
    /// report when none was named.
    pub fn handle_output_with_id(&mut self, output: ClaudeOutput, fresh: u128) -> (a:
        SessionAction)
        requires
            old(self).wf(),
        ensures
            final(self).wf(),
            SessionManager::handles(*old(self), output, fresh, *final(self), a),
    {
        match output {
            ClaudeOutput::Output { text } => SessionAction::Broadcast {
                message: ServerMessage::ChatChunk { text },
            },
            ClaudeOutput::Done => {
                let conversation_id = match self.conversation_id {
                    Some(c) => c,
                    None => fresh,
                };
                SessionAction::Broadcast { message: ServerMessage::ChatDone { conversation_id } }
            },
            ClaudeOutput::NeedsConfirmation { prompt } => match self.confirm_mode {
                ConfirmMode::Auto => SessionAction::AckClaude,
                ConfirmMode::Manual => {
                    self.pending_ack = None;
                    self.confirmation_requested = true;
                    SessionAction::Broadcast { message: ServerMessage::NeedAck { prompt } }
                },
            },
            ClaudeOutput::Error { message } => SessionAction::Broadcast {
                message: ServerMessage::Error {
                    code: String::from_str("claude_error"),
                    message,
                },
            },
        }
    }

    /// Handles an output event of the assistant. A finished response with no named
    /// conversation is reported under a freshly drawn conversation ID.
    pub fn handle_output(&mut self, output: ClaudeOutput) -> (a: SessionAction)
        requires
            old(self).wf(),
        ensures
            final(self).wf(),
            exists|fresh: u128|
                is_random_uuid(fresh) && #[trigger] SessionManager::handles(
                    *old(self),
                    output,
                    fresh,
                    *final(self),
                    a,
                ),
    {
        let ghost pre = *self;
        let ghost o = output;
        let draws = match (&output, self.conversation_id) {
            (ClaudeOutput::Done, None) => true,
            _ => false,
        };
        let fresh = if draws {
            new_conversation_id()
        } else {
            0
        };
        let a = self.handle_output_with_id(output, fresh);
        proof {
            if !draws {
                let w: u128 = 0x4000_8000_0000_0000_0000u128;
                assert(is_random_uuid(0x4000_8000_0000_0000_0000u128)) by (bit_vector);
                assert(SessionManager::handles(pre, o, w, *self, a));
            }
        }
        a
    }
}

/// What an accepted message of a client is answered: a chat goes to the
/// assistant word for word and names the conversation when it carries an
/// ID; a mode switch sets the requested mode and is announced with the drawn
/// ID; file requests are left to the file service. No message changes who
/// is connected.
pub proof fn law_accepted_messages_are_answered(
    pre: SessionManager,
    client: Seq<char>,
    msg: ClientMessage,
    fresh: u128,
    post: SessionManager,
    r: Result<SessionAction, String>,
)
    requires
        !pre.blocks(client),
        SessionManager::routes(pre, client, msg, fresh, post, r),
    ensures
        post.client_ids() == pre.client_ids(),
        msg matches ClientMessage::Chat { message, conversation_id } ==> {
            &&& r == Ok::<SessionAction, String>(SessionAction::ToClaude { text: message })
            &&& post.conversation() == (match conversation_id {
                Some(c) => Some(c),
                None => pre.conversation(),
            })
            &&& post.mode() == pre.mode()
        },
        msg matches ClientMessage::SetConfirmMode { mode } ==> {
            &&& r == Ok::<SessionAction, String>(
                SessionAction::Broadcast { message: ServerMessage::ChatDone { conversation_id: fresh } },
            )
            &&& (mode == protocol::ConfirmMode::Auto ==> post.mode() == ConfirmMode::Auto)
            &&& (mode == protocol::ConfirmMode::Manual ==> post.mode() == ConfirmMode::Manual)
            &&& post.conversation() == pre.conversation()
        },
        (msg is FileList || msg is FileRead || msg is FileWrite) ==> {
            &&& r == Ok::<SessionAction, String>(SessionAction::Nothing)
            &&& post.mode() == pre.mode()
            &&& post.conversation() == pre.conversation()
            &&& post.awaiting() == pre.awaiting()
        },
{
}

/// While another client's confirmation is pending, a client's message is
/// refused, whatever it is; with nothing pending, an acknowledgment confirms
/// exactly when a forwarded confirmation request is awaited, and otherwise
/// does nothing.
pub proof fn law_pending_and_acknowledgments(
    pre: SessionManager,
    client: Seq<char>,
    msg: ClientMessage,
    fresh: u128,
    post: SessionManager,
    r: Result<SessionAction, String>,
)
    requires
        SessionManager::routes(pre, client, msg, fresh, post, r),
    ensures
        (pre.pending() matches Some(p) && p != client) ==> (r matches Err(e) && e@
            == "Waiting for confirmation from another client"@ && post.mode() == pre.mode()
            && post.conversation() == pre.conversation()),
        pre.pending() is None && msg is Ack ==> r == (if pre.awaiting() {
            Ok::<SessionAction, String>(SessionAction::AckClaude)
        } else {
            Ok::<SessionAction, String>(SessionAction::Nothing)
        }),
        pre.pending() is None && msg is Ack ==> !post.awaiting(),
{
}

/// Every output chunk of the assistant is sent on to all clients as it is,
/// whatever the confirmation mode and whatever is awaited, and leaves the
/// session as it was.
pub proof fn law_output_chunks_reach_every_client(
    pre: SessionManager,
    text: String,
    fresh: u128,
    post: SessionManager,
    a: SessionAction,
)
    requires
        SessionManager::handles(pre, (ClaudeOutput::Output { text }), fresh, post, a),
    ensures
        a == (SessionAction::Broadcast { message: ServerMessage::ChatChunk { text } }),
        post.client_ids() == pre.client_ids(),
        post.mode() == pre.mode(),
        post.pending() == pre.pending(),
        post.awaiting() == pre.awaiting(),
        post.conversation() == pre.conversation(),
{
}

/// A failure of the assistant is sent on to all clients, in every mode, as
/// an error with the code `claude_error` and the failure's own message.
pub proof fn law_assistant_errors_reach_every_client(
    pre: SessionManager,
    message: String,
    fresh: u128,
    post: SessionManager,
    a: SessionAction,
)
    requires
        SessionManager::handles(pre, (ClaudeOutput::Error { message }), fresh, post, a),
    ensures
        a matches SessionAction::Broadcast { message: ServerMessage::Error { code, message: m } }
            && code@ == "claude_error"@ && m == message,
        post.mode() == pre.mode(),
        post.awaiting() == pre.awaiting(),
        post.conversation() == pre.conversation(),
{
}

/// The line sent to the assistant for an accepted chat with an attachment is
/// `[Media: <type>] <message>`, where `<type>` is the attachment's own type
/// by its name: `Audio`, `Image` or `Video`.
pub proof fn law_media_chat_names_attachment_type(
    pre: SessionManager,
    client: Seq<char>,
    message: String,
    media: protocol::MediaRef,
    fresh: u128,
    post: SessionManager,
    r: Result<SessionAction, String>,
)
    requires
        !pre.blocks(client),
        SessionManager::routes(
            pre,
            client,
            (ClientMessage::ChatWithMedia { message, media }),
            fresh,
            post,
            r,
        ),
    ensures
        r matches Ok(SessionAction::ToClaude { text }) && text@ == "[Media: "@ + (match media.ty {
            MediaType::Audio => "Audio"@,
            MediaType::Image => "Image"@,
            MediaType::Video => "Video"@,
        }) + "] "@ + message@,
{
}

/// Attachments of different types give different lines for the same
/// message: the line tells the assistant which kind of media it gets.
pub proof fn law_media_lines_differ_by_type(t1: MediaType, t2: MediaType, message: Seq<char>)
    requires
        t1 != t2,
    ensures
        media_prompt(t1, message) != media_prompt(t2, message),
{
    reveal_strlit("[Media: ");
    reveal_strlit("Audio");
    reveal_strlit("Image");
    reveal_strlit("Video");
    reveal_strlit("] ");
    assert(media_prompt(t1, message)[8] == media_label(t1)[0]);
    assert(media_prompt(t2, message)[8] == media_label(t2)[0]);
}

/// A client is refused while another client has to confirm: every message
/// it sends is answered with the refusal and leaves the session as it was.
pub proof fn law_busy_session_refuses_requests(
    pre: SessionManager,
    client: Seq<char>,
    msg: ClientMessage,
    fresh: u128,
    post: SessionManager,
    r: Result<SessionAction, String>,
)
    requires
        pre.blocks(client),
        SessionManager::routes(pre, client, msg, fresh, post, r),
    ensures
        is_busy(r),
        r matches Err(e) && e@ == "Waiting for confirmation from another client"@,
        SessionManager::unchanged(pre, post),
{
}

/// After a client that is not kept waiting switches the confirmation mode,
/// the next confirmation request of the assistant is acknowledged at once in
/// automatic mode, and in manual mode forwarded to every client, to be
/// confirmed by any of them.
pub proof fn law_mode_switch_governs_confirmations(
    pre: SessionManager,
    client: Seq<char>,
    mode: protocol::ConfirmMode,
    fresh1: u128,
    mid: SessionManager,
    r: Result<SessionAction, String>,
    prompt: String,
    fresh2: u128,
    post: SessionManager,
    a: SessionAction,
)
    requires
        !pre.blocks(client),
        SessionManager::routes(
            pre,
            client,
            (ClientMessage::SetConfirmMode { mode }),
            fresh1,
            mid,
            r,
        ),
        SessionManager::handles(mid, (ClaudeOutput::NeedsConfirmation { prompt }), fresh2, post, a),
    ensures
        mode == protocol::ConfirmMode::Auto ==> a == SessionAction::AckClaude,
        mode == protocol::ConfirmMode::Manual ==> a == (SessionAction::Broadcast {
            message: ServerMessage::NeedAck { prompt },
        }) && post.pending() == None::<Seq<char>> && post.awaiting(),
{
}

/// An event of a session: a client's message or an output of the assistant,
/// with the ID drawn for it and what the session answered.
pub enum SessionEvent {
    /// A message routed from a client
    Message { client: String, msg: ClientMessage, fresh: u128, result: Result<SessionAction, String> },
    /// An output event of the assistant
    Output { output: ClaudeOutput, fresh: u128, action: SessionAction },
}

/// Whether the session goes from `pre` to `post` on event `e`.
pub open spec fn steps(pre: SessionManager, e: SessionEvent, post: SessionManager) -> bool {
    match e {
        SessionEvent::Message { client, msg, fresh, result } => SessionManager::routes(
            pre,
            client@,
            msg,
            fresh,
            post,
            result,
        ),
        SessionEvent::Output { output, fresh, action } => SessionManager::handles(
            pre,
            output,
            fresh,
            post,
            action,
        ),
    }
}

/// The conversation an event names: that of a chat message that names one
/// and is not refused.
pub open spec fn named_by(pre: SessionManager, e: SessionEvent) -> Option<u128> {
    match e {
        SessionEvent::Message { client, msg, .. } => if !pre.blocks(client@) {
            match msg {
                ClientMessage::Chat { conversation_id, .. } => conversation_id,
                _ => None,
            }
        } else {
            None
        },
        _ => None,
    }
}

/// The conversation last named by the first `n` events of a run through
/// `states`, or the conversation the run started with if none was named.
pub open spec fn last_named(states: Seq<SessionManager>, events: Seq<SessionEvent>, n: nat) -> Option<u128>
    decreases n,
{
    if n == 0 {
        states[0].conversation()
    } else {
        match named_by(states[n - 1], events[n - 1]) {
            Some(u) => Some(u),
            None => last_named(states, events, (n - 1) as nat),
        }
    }
}

/// Along any run of the session, the conversation reported when the
/// assistant finishes is the one last named by an accepted chat message;
/// if none was named since a fresh session, it is the freshly drawn ID.
pub proof fn law_done_reports_last_named_conversation(
    states: Seq<SessionManager>,
    events: Seq<SessionEvent>,
    fresh: u128,
    post: SessionManager,
    a: SessionAction,
)
    requires
        states.len() == events.len() + 1,
        forall|i: int| 0 <= i < events.len() ==> steps(states[i], #[trigger] events[i], states[i + 1]),
        SessionManager::handles(states.last(), ClaudeOutput::Done, fresh, post, a),
    ensures
        states.last().conversation() == last_named(states, events, events.len()),
        a == (SessionAction::Broadcast {
            message: ServerMessage::ChatDone {
                conversation_id: match last_named(states, events, events.len()) {
                    Some(u) => u,
                    None => fresh,
                },
            },
        }),
        states[0].conversation() is None && last_named(states, events, events.len()) is None ==> a
            == (SessionAction::Broadcast {
            message: ServerMessage::ChatDone { conversation_id: fresh },
        }),
{
    lemma_run_conversation(states, events, events.len());
}

/// After the first `n` events of a run, the conversation is the one last named.
proof fn lemma_run_conversation(states: Seq<SessionManager>, events: Seq<SessionEvent>, n: nat)
    requires
        states.len() == events.len() + 1,
        n <= events.len(),
        forall|i: int| 0 <= i < events.len() ==> steps(states[i], #[trigger] events[i], states[i + 1]),
    ensures
        states[n as int].conversation() == last_named(states, events, n),
    decreases n,
{
    if n > 0 {
        lemma_run_conversation(states, events, (n - 1) as nat);
        let k = n - 1;
        assert(steps(states[k], events[k], states[k + 1]));
    }
}

/// Whether an event is an acknowledgment from a client.
pub open spec fn is_ack(e: SessionEvent) -> bool {
    match e {
        SessionEvent::Message { msg, .. } => msg is Ack,
        _ => false,
    }
}

/// Whether an event is a confirmation request of the assistant.
pub open spec fn asks_confirmation(e: SessionEvent) -> bool {
    match e {
        SessionEvent::Output { output, .. } => output is NeedsConfirmation,
        _ => false,
    }
}

/// Along a run without acknowledgments, a confirmation that is awaited, with
/// no client pending, stays awaited.
proof fn lemma_run_keeps_awaiting(states: Seq<SessionManager>, events: Seq<SessionEvent>, n: nat)
    requires
        states.len() == events.len() + 1,
        n <= events.len(),
        forall|i: int| 0 <= i < events.len() ==> steps(states[i], #[trigger] events[i], states[i + 1]),
        forall|i: int| 0 <= i < events.len() ==> !is_ack(#[trigger] events[i]),
        states[0].awaiting(),
        states[0].pending() == None::<Seq<char>>,
    ensures
        states[n as int].awaiting(),
        states[n as int].pending() == None::<Seq<char>>,
    decreases n,
{
    if n > 0 {
        let k = n - 1;
        lemma_run_keeps_awaiting(states, events, k as nat);
        assert(steps(states[k], events[k], states[k + 1]));
        assert(!is_ack(events[k]));
    }
}

/// Along a run without confirmation requests, a session that awaits no
/// confirmation, with no client pending, stays so.
proof fn lemma_run_keeps_idle(states: Seq<SessionManager>, events: Seq<SessionEvent>, n: nat)
    requires
        states.len() == events.len() + 1,
        n <= events.len(),
        forall|i: int| 0 <= i < events.len() ==> steps(states[i], #[trigger] events[i], states[i + 1]),
        forall|i: int| 0 <= i < events.len() ==> !asks_confirmation(#[trigger] events[i]),
        !states[0].awaiting(),
        states[0].pending() == None::<Seq<char>>,
    ensures
        !states[n as int].awaiting(),
        states[n as int].pending() == None::<Seq<char>>,
    decreases n,
{
    if n > 0 {
        let k = n - 1;
        lemma_run_keeps_idle(states, events, k as nat);
        assert(steps(states[k], events[k], states[k + 1]));
        assert(!asks_confirmation(events[k]));
    }
}

/// In manual mode a confirmation request forwarded to the clients is
/// confirmed by the first acknowledgment that follows, from whichever client
/// and whatever other events came in between; after that, acknowledgments
/// confirm nothing until the assistant asks again.
pub proof fn law_forwarded_request_confirmed_by_first_ack(
    pre: SessionManager,
    prompt: String,
    fresh: u128,
    a: SessionAction,
    between: Seq<SessionManager>,
    between_events: Seq<SessionEvent>,
    client: Seq<char>,
    fresh1: u128,
    r1: Result<SessionAction, String>,
    after: Seq<SessionManager>,
    after_events: Seq<SessionEvent>,
    other: Seq<char>,
    fresh2: u128,
    post: SessionManager,
    r2: Result<SessionAction, String>,
)
    requires
        pre.mode() == ConfirmMode::Manual,
        SessionManager::handles(
            pre,
            (ClaudeOutput::NeedsConfirmation { prompt }),
            fresh,
            between[0],
            a,
        ),
        between.len() == between_events.len() + 1,
        forall|i: int|
            0 <= i < between_events.len() ==> steps(
                between[i],
                #[trigger] between_events[i],
                between[i + 1],
            ),
        forall|i: int| 0 <= i < between_events.len() ==> !is_ack(#[trigger] between_events[i]),
        SessionManager::routes(between.last(), client, ClientMessage::Ack, fresh1, after[0], r1),
        after.len() == after_events.len() + 1,
        forall|i: int|
            0 <= i < after_events.len() ==> steps(after[i], #[trigger] after_events[i], after[i + 1]),
        forall|i: int| 0 <= i < after_events.len() ==> !asks_confirmation(#[trigger] after_events[i]),
        SessionManager::routes(after.last(), other, ClientMessage::Ack, fresh2, post, r2),
    ensures
        a == (SessionAction::Broadcast { message: ServerMessage::NeedAck { prompt } }),
        r1 == Ok::<SessionAction, String>(SessionAction::AckClaude),
        r2 == Ok::<SessionAction, String>(SessionAction::Nothing),
        !post.awaiting(),
        post.pending() == None::<Seq<char>>,
{
    lemma_run_keeps_awaiting(between, between_events, between_events.len());
    lemma_run_keeps_idle(after, after_events, after_events.len());
}

/// The conversation named by an accepted chat message is the one reported
/// when the assistant finishes its response.
pub proof fn law_done_reports_named_conversation(
    pre: SessionManager,
    client: Seq<char>,
    message: String,
    cid: u128,
    fresh1: u128,
    mid: SessionManager,
    r: Result<SessionAction, String>,
    fresh2: u128,
    post: SessionManager,
    a: SessionAction,
)
    requires
        !pre.blocks(client),
        SessionManager::routes(
            pre,
            client,
            (ClientMessage::Chat { message, conversation_id: Some(cid) }),
            fresh1,
            mid,
            r,
        ),
        SessionManager::handles(mid, ClaudeOutput::Done, fresh2, post, a),
    ensures
        a == (SessionAction::Broadcast {
            message: ServerMessage::ChatDone { conversation_id: cid },
        }),
{
}

/// The acknowledgment of the awaited client confirms the request to the assistant
/// and lifts the refusal for every client.
pub proof fn law_ack_releases_session(
    pre: SessionManager,
    client: Seq<char>,
    fresh: u128,
    post: SessionManager,
    r: Result<SessionAction, String>,
    other: Seq<char>,
)
    requires
        pre.pending() == Some(client),
        SessionManager::routes(pre, client, ClientMessage::Ack, fresh, post, r),
    ensures
        r == Ok::<SessionAction, String>(SessionAction::AckClaude),
        !post.blocks(other),
{
}

/// Removing a client that was not connected before it was added gives back
/// the set of clients there was before.
pub proof fn law_remove_undoes_add(
    pre: SessionManager,
    mid: SessionManager,
    post: SessionManager,
    id: Seq<char>,
)
    requires
        !pre.client_set().contains(id),
        mid.client_set() == pre.client_set().insert(id),
        post.client_set() == mid.client_set().remove(id),
    ensures
        post.client_set() == pre.client_set(),
{
    assert(post.client_set() =~= pre.client_set());
}

/// Draws a new random (version 4) conversation ID with `uuid::Uuid::new_v4`
/// and returns its 128-bit value with `Uuid::as_u128`. Claimed: the version
/// and variant bits are those of a random UUID, as `new_v4` sets them; the
/// other bits are random and nothing is claimed of them.
#[verifier::external_body]
fn new_conversation_id() -> (id: u128)
    ensures
        is_random_uuid(id),
{
    uuid::Uuid::new_v4().as_u128()
}

} // verus!
