//! Application state: the chat log, the directory of connected peers, the
//! input line with its cursor, the scroll offset and the streaming flags.

use vstd::prelude::*;
use crate::text::string_of;

verus! {

/// An IP address held as a plain number, most significant byte first.
#[derive(Clone, Copy, Debug, PartialEq, Eq, Hash, Structural)]
pub enum IpAddress {
    V4(u32),
    V6(u128),
}

/// An IP address with a port.
#[derive(Clone, Copy, Debug, PartialEq, Eq, Hash, Structural)]
pub struct SocketAddress {
    pub ip: IpAddress,
    pub port: u16,
}

/// Identifier of a network peer: the connection handle the transport gave
/// it and the address it talks from. Used by value as a directory key.
#[derive(Clone, Copy, Debug, PartialEq, Eq, Hash, Structural)]
pub struct Endpoint {
    pub resource_id: u64,
    pub addr: SocketAddress,
}

/// Severity of a notice the node writes into its own chat log.
#[derive(Clone, Copy, Debug, PartialEq, Eq, Structural)]
pub enum Severity {
    Info,
    Error,
}

/// Payload of a chat message: plain text or a local notice.
#[derive(Clone, Debug, PartialEq, Eq)]
pub enum MessageType {
    Text(String),
    System(String, Severity),
}

pub enum MessageTypeView {
    Text(Seq<char>),
    System(Seq<char>, Severity),
}

impl View for MessageType {
    type V = MessageTypeView;

    open spec fn view(&self) -> MessageTypeView {
        match self {
            MessageType::Text(text) => MessageTypeView::Text(text@),
            MessageType::System(text, severity) => MessageTypeView::System(text@, *severity),
        }
    }
}

/// One entry of the chat log.
#[derive(Clone, Debug, PartialEq, Eq)]
pub struct ChatMessage {
    pub user: String,
    pub message_type: MessageType,
}

pub struct ChatMessageView {
    pub user: Seq<char>,
    pub message_type: MessageTypeView,
}

impl View for ChatMessage {
    type V = ChatMessageView;

    open spec fn view(&self) -> ChatMessageView {
        ChatMessageView { user: self.user@, message_type: self.message_type@ }
    }
}

impl ChatMessage {
    pub fn new(user: String, message_type: MessageType) -> (message: ChatMessage)
        ensures
            message@ == (ChatMessageView { user: user@, message_type: message_type@ }),
    {
        ChatMessage { user, message_type }
    }
}

/// Author label of the notices the node writes itself.
pub open spec fn system_author() -> Seq<char> {
    "termchat"@
}

/// The log entry that a local notice of the given severity and text makes.
pub open spec fn notice(text: Seq<char>, severity: Severity) -> ChatMessageView {
    ChatMessageView {
        user: system_author(),
        message_type: MessageTypeView::System(text, severity),
    }
}

/// The log entry that a text by the given author makes.
pub open spec fn text_message(author: Seq<char>, text: Seq<char>) -> ChatMessageView {
    ChatMessageView { user: author, message_type: MessageTypeView::Text(text) }
}

#[derive(Clone, Copy, Debug, PartialEq, Eq, Structural)]
pub enum CursorMovement {
    Left,
    Right,
    Start,
    End,
}

#[derive(Clone, Copy, Debug, PartialEq, Eq, Structural)]
pub enum ScrollMovement {
    Up,
    Down,
    Start,
}

/// Advisory mode of the interface.
#[derive(Clone, Copy, Debug, PartialEq, Eq, Structural)]
pub enum Xstate {
    Idle,
    Streaming,
}

/// One entry of the directory of connected peers.
#[derive(Clone, Debug, PartialEq, Eq)]
pub struct Peer {
    pub endpoint: Endpoint,
    pub name: String,
}

/// Whether one of the entries is keyed by `endpoint`.
pub open spec fn listed(peers: Seq<Peer>, endpoint: Endpoint) -> bool {
    exists|i: int| 0 <= i < peers.len() && (#[trigger] peers[i]).endpoint == endpoint
}

/// Index of the entry keyed by `endpoint`.
pub open spec fn slot(peers: Seq<Peer>, endpoint: Endpoint) -> int {
    choose|i: int| 0 <= i < peers.len() && (#[trigger] peers[i]).endpoint == endpoint
}

/// No two entries share a key.
pub open spec fn distinct(peers: Seq<Peer>) -> bool {
    forall|i: int, j: int|
        0 <= i < j < peers.len() ==> (#[trigger] peers[i]).endpoint != (
        #[trigger] peers[j]).endpoint
}

/// The entries read as a map from endpoint to display name.
pub open spec fn directory_of(peers: Seq<Peer>) -> Map<Endpoint, Seq<char>> {
    Map::new(
        |endpoint: Endpoint| listed(peers, endpoint),
        |endpoint: Endpoint| peers[slot(peers, endpoint)].name@,
    )
}

/// The name that `endpoint` has once `key` is entered under `name`.
spec fn before_or(
    peers: Seq<Peer>,
    key: Endpoint,
    name: Seq<char>,
    endpoint: Endpoint,
) -> Seq<char> {
    if endpoint == key {
        name
    } else {
        directory_of(peers)[endpoint]
    }
}

pub proof fn lemma_directory_entry(peers: Seq<Peer>, i: int)
    requires
        distinct(peers),
        0 <= i < peers.len(),
    ensures
        listed(peers, peers[i].endpoint),
        slot(peers, peers[i].endpoint) == i,
        directory_of(peers).dom().contains(peers[i].endpoint),
        directory_of(peers)[peers[i].endpoint] == peers[i].name@,
{
    let endpoint = peers[i].endpoint;
    assert(listed(peers, endpoint));
    let j = slot(peers, endpoint);
    assert(0 <= j < peers.len() && peers[j].endpoint == endpoint);
    if j < i {
        assert(peers[j].endpoint != peers[i].endpoint);
    } else if i < j {
        assert(peers[i].endpoint != peers[j].endpoint);
    }
}

/// What a state holds, as mathematical values.
pub struct StateView {
    pub messages: Seq<ChatMessageView>,
    pub scroll: nat,
    pub input: Seq<char>,
    pub cursor: nat,
    pub users: Map<Endpoint, Seq<char>>,
    pub stop_stream: bool,
    pub mode: Xstate,
}

impl StateView {
    /// The state of a node that has seen nothing yet: empty log, empty
    /// directory, empty input, idle.
    pub open spec fn fresh() -> StateView {
        StateView {
            messages: Seq::empty(),
            scroll: 0,
            input: Seq::empty(),
            cursor: 0,
            users: Map::empty(),
            stop_stream: false,
            mode: Xstate::Idle,
        }
    }

    /// The state once `character` is typed: it stands where the cursor
    /// was, and the cursor stands behind it.
    pub open spec fn written(self, character: char) -> StateView {
        StateView {
            input: self.input.insert(self.cursor as int, character),
            cursor: self.cursor + 1,
            ..self
        }
    }

    /// The state without the character under the cursor, if there is one.
    pub open spec fn removed(self) -> StateView {
        if self.cursor < self.input.len() {
            StateView { input: self.input.remove(self.cursor as int), ..self }
        } else {
            self
        }
    }

    /// The state without the character before the cursor, if there is
    /// one; the cursor stands on its place.
    pub open spec fn removed_previous(self) -> StateView {
        if self.cursor > 0 {
            StateView {
                input: self.input.remove(self.cursor - 1),
                cursor: (self.cursor - 1) as nat,
                ..self
            }
        } else {
            self
        }
    }

    /// The state once the cursor has moved. It does not leave the line.
    pub open spec fn moved(self, movement: CursorMovement) -> StateView {
        StateView {
            cursor: match movement {
                CursorMovement::Left => if self.cursor > 0 {
                    (self.cursor - 1) as nat
                } else {
                    0
                },
                CursorMovement::Right => if self.cursor < self.input.len() {
                    self.cursor + 1
                } else {
                    self.cursor
                },
                CursorMovement::Start => 0,
                CursorMovement::End => self.input.len(),
            },
            ..self
        }
    }

    /// The state once the view of the log has scrolled. The offset stops
    /// at zero and at the largest number the machine holds.
    pub open spec fn scrolled(self, movement: ScrollMovement) -> StateView {
        StateView {
            scroll: match movement {
                ScrollMovement::Up => if self.scroll > 0 {
                    (self.scroll - 1) as nat
                } else {
                    0
                },
                ScrollMovement::Down => if self.scroll < usize::MAX {
                    self.scroll + 1
                } else {
                    self.scroll
                },
                ScrollMovement::Start => 0,
            },
            ..self
        }
    }

    /// The state once the input line is taken: the line is empty and the
    /// cursor at its start.
    pub open spec fn cleared(self) -> StateView {
        StateView { input: Seq::empty(), cursor: 0, ..self }
    }

    /// The same state with one more entry at the end of the log.
    pub open spec fn logged(self, message: ChatMessageView) -> StateView {
        StateView { messages: self.messages.push(message), ..self }
    }
}

/// State of one node. It is owned and changed by the event loop alone.
pub struct State {
    messages: Vec<ChatMessage>,
    scroll_messages_view: usize,
    input: Vec<char>,
    input_cursor: usize,
    lan_users: Vec<Peer>,
    stop_stream: bool,
    x: Xstate,
}

impl View for State {
    type V = StateView;

    closed spec fn view(&self) -> StateView {
        StateView {
            messages: self.messages@.map_values(|message: ChatMessage| message@),
            scroll: self.scroll_messages_view as nat,
            input: self.input@,
            cursor: self.input_cursor as nat,
            users: directory_of(self.lan_users@),
            stop_stream: self.stop_stream,
            mode: self.x,
        }
    }
}

impl State {
    /// The cursor lies within the input line and no endpoint is listed
    /// twice. Every state this module hands out is well formed.
    pub closed spec fn wf(&self) -> bool {
        &&& self.input_cursor <= self.input@.len()
        &&& distinct(self.lan_users@)
    }

    /// In a well-formed state the cursor does not leave the input line.
    pub proof fn lemma_cursor_in_line(&self)
        requires
            self.wf(),
        ensures
            self@.cursor <= self@.input.len(),
    {
    }

    /// A fresh state: empty log, empty directory, empty input, idle.
    pub fn new() -> (state: State)
        ensures
            state.wf(),
            state@ == StateView::fresh(),
    {
        let state = State {
            messages: Vec::new(),
            scroll_messages_view: 0,
            input: Vec::new(),
            input_cursor: 0,
            lan_users: Vec::new(),
            stop_stream: false,
            x: Xstate::Idle,
        };
        assert(state@.messages =~= Seq::empty());
        assert(state@.users =~= Map::empty());
        state
    }

    pub fn messages(&self) -> (log: &Vec<ChatMessage>)
        ensures
            log@.map_values(|message: ChatMessage| message@) == self@.messages,
    {
        &self.messages
    }

    pub fn scroll_messages_view(&self) -> (offset: usize)
        ensures
            offset == self@.scroll,
    {
        self.scroll_messages_view
    }

    pub fn input(&self) -> (line: &Vec<char>)
        ensures
            line@ == self@.input,
    {
        &self.input
    }

    pub fn input_cursor(&self) -> (cursor: usize)
        requires
            self.wf(),
        ensures
            cursor == self@.cursor,
            cursor <= self@.input.len(),
    {
        self.input_cursor
    }

    pub fn stop_stream(&self) -> (flag: bool)
        ensures
            flag == self@.stop_stream,
    {
        self.stop_stream
    }

    pub fn set_stop_stream(&mut self, flag: bool)
        requires
            old(self).wf(),
        ensures
            final(self).wf(),
            final(self)@ == (StateView { stop_stream: flag, ..old(self)@ }),
    {
        self.stop_stream = flag;
    }

    pub fn mode(&self) -> (mode: Xstate)
        ensures
            mode == self@.mode,
    {
        self.x
    }

    pub fn set_mode(&mut self, mode: Xstate)
        requires
            old(self).wf(),
        ensures
            final(self).wf(),
            final(self)@ == (StateView { mode, ..old(self)@ }),
    {
        self.x = mode;
    }

    /// Appends one entry to the chat log.
    pub fn add_message(&mut self, message: ChatMessage)
        requires
            old(self).wf(),
        ensures
            final(self).wf(),
            final(self)@ == old(self)@.logged(message@),
    {
        let ghost before = self.messages@;
        self.messages.push(message);
        assert(self.messages@.map_values(|m: ChatMessage| m@) =~= before.map_values(
            |m: ChatMessage| m@,
        ).push(message@));
    }

    /// Writes a local error notice into the chat log.
    pub fn report_err(&mut self, text: String)
        requires
            old(self).wf(),
        ensures
            final(self).wf(),
            final(self)@ == old(self)@.logged(notice(text@, Severity::Error)),
    {
        let message = ChatMessage::new(
            String::from_str("termchat"),
            MessageType::System(text, Severity::Error),
        );
        self.add_message(message);
    }

    /// Writes a local info notice into the chat log.
    pub fn report_info(&mut self, text: String)
        requires
            old(self).wf(),
        ensures
            final(self).wf(),
            final(self)@ == old(self)@.logged(notice(text@, Severity::Info)),
    {
        let message = ChatMessage::new(
            String::from_str("termchat"),
            MessageType::System(text, Severity::Info),
        );
        self.add_message(message);
    }

    /// Inserts a character at the cursor and moves the cursor past it.
    pub fn input_write(&mut self, character: char)
        requires
            old(self).wf(),
        ensures
            final(self).wf(),
            final(self)@ == old(self)@.written(character),
    {
        self.input.insert(self.input_cursor, character);
        let length = self.input.len();
        assert(self.input_cursor < length);
        self.input_cursor = self.input_cursor + 1;
    }

    /// Removes the character under the cursor, if there is one.
    pub fn input_remove(&mut self)
        requires
            old(self).wf(),
        ensures
            final(self).wf(),
            final(self)@ == old(self)@.removed(),
    {
        if self.input_cursor < self.input.len() {
            self.input.remove(self.input_cursor);
        }
    }

    /// Removes the character before the cursor, if there is one, and moves
    /// the cursor onto its place.
    pub fn input_remove_previous(&mut self)
        requires
            old(self).wf(),
        ensures
            final(self).wf(),
            final(self)@ == old(self)@.removed_previous(),
    {
        if self.input_cursor > 0 {
            self.input_cursor = self.input_cursor - 1;
            self.input.remove(self.input_cursor);
        }
    }

    /// Moves the cursor within the input line.
    pub fn input_move_cursor(&mut self, movement: CursorMovement)
        requires
            old(self).wf(),
        ensures
            final(self).wf(),
            final(self)@ == old(self)@.moved(movement),
    {
        match movement {
            CursorMovement::Left => {
                if self.input_cursor > 0 {
                    self.input_cursor = self.input_cursor - 1;
                }
            },
            CursorMovement::Right => {
                if self.input_cursor < self.input.len() {
                    self.input_cursor = self.input_cursor + 1;
                }
            },
            CursorMovement::Start => {
                self.input_cursor = 0;
            },
            CursorMovement::End => {
                self.input_cursor = self.input.len();
            },
        }
    }

    /// Scrolls the view of the chat log. The offset stops at zero and at
    /// the largest number the machine holds.
    pub fn messages_scroll(&mut self, movement: ScrollMovement)
        requires
            old(self).wf(),
        ensures
            final(self).wf(),
            final(self)@ == old(self)@.scrolled(movement),
    {
        match movement {
            ScrollMovement::Up => {
                if self.scroll_messages_view > 0 {
                    self.scroll_messages_view = self.scroll_messages_view - 1;
                }
            },
            ScrollMovement::Down => {
                if self.scroll_messages_view < usize::MAX {
                    self.scroll_messages_view = self.scroll_messages_view + 1;
                }
            },
            ScrollMovement::Start => {
                self.scroll_messages_view = 0;
            },
        }
    }

    /// Takes the input line. An empty line gives `None` and changes
    /// nothing; otherwise the line is handed out and the input is empty
    /// again, with the cursor at its start.
    pub fn reset_input(&mut self) -> (line: Option<String>)
        requires
            old(self).wf(),
        ensures
            final(self).wf(),
            old(self)@.input.len() == 0 ==> line is None && final(self)@ == old(self)@,
            old(self)@.input.len() > 0 ==> line is Some && line->0@ == old(self)@.input
                && final(self)@ == old(self)@.cleared(),
    {
        if self.input.len() > 0 {
            let line = string_of(&self.input);
            self.input_cursor = 0;
            self.input.clear();
            Some(line)
        } else {
            None
        }
    }

    /// Index of the directory entry of `endpoint`.
    fn find_user(&self, endpoint: Endpoint) -> (found: Option<usize>)
        requires
            self.wf(),
        ensures
            found is None <==> !self@.users.dom().contains(endpoint),
            found matches Some(i) ==> i < self.lan_users@.len()
                && self.lan_users@[i as int].endpoint == endpoint
                && self@.users[endpoint] == self.lan_users@[i as int].name@,
    {
        let mut i: usize = 0;
        while i < self.lan_users.len()
            invariant
                self.wf(),
                i <= self.lan_users.len(),
                forall|k: int| 0 <= k < i ==> (#[trigger] self.lan_users@[k]).endpoint != endpoint,
            decreases self.lan_users.len() - i,
        {
            if self.lan_users[i].endpoint == endpoint {
                proof {
                    lemma_directory_entry(self.lan_users@, i as int);
                }
                return Some(i);
            }
            i += 1;
        }
        None
    }

    /// Display name under which `endpoint` is connected, if it is.
    pub fn user_name(&self, endpoint: Endpoint) -> (name: Option<&String>)
        requires
            self.wf(),
        ensures
            name is Some <==> self@.users.dom().contains(endpoint),
            name matches Some(n) ==> n@ == self@.users[endpoint],
    {
        match self.find_user(endpoint) {
            Some(i) => Some(&self.lan_users[i].name),
            None => None,
        }
    }

    /// The connected endpoints, each once.
    pub fn all_user_endpoints(&self) -> (endpoints: Vec<Endpoint>)
        requires
            self.wf(),
        ensures
            endpoints@.no_duplicates(),
            endpoints@.to_set() == self@.users.dom(),
    {
        let mut endpoints: Vec<Endpoint> = Vec::new();
        let mut i: usize = 0;
        while i < self.lan_users.len()
            invariant
                i <= self.lan_users.len(),
                endpoints@.len() == i,
                forall|k: int|
                    0 <= k < i ==> endpoints@[k] == (#[trigger] self.lan_users@[k]).endpoint,
            decreases self.lan_users.len() - i,
        {
            endpoints.push(self.lan_users[i].endpoint);
            i += 1;
        }
        proof {
            let peers = self.lan_users@;
            assert forall|a: int, b: int|
                0 <= a < endpoints@.len() && 0 <= b < endpoints@.len() && a
                    != b implies endpoints@[a] != endpoints@[b] by {
                if a < b {
                    assert(peers[a].endpoint != peers[b].endpoint);
                } else {
                    assert(peers[b].endpoint != peers[a].endpoint);
                }
            }
            assert forall|e: Endpoint|
                endpoints@.to_set().contains(e) <==> self@.users.dom().contains(e) by {
                if endpoints@.to_set().contains(e) {
                    let k = choose|k: int| 0 <= k < endpoints@.len() && endpoints@[k] == e;
                    assert(peers[k].endpoint == e);
                }
                if listed(peers, e) {
                    let k = slot(peers, e);
                    assert(endpoints@[k] == e);
                }
            }
            assert(endpoints@.to_set() =~= self@.users.dom());
        }
        endpoints
    }

    /// Enters `endpoint` into the directory under the name `user`. An
    /// endpoint that is listed already gets the new name.
    pub fn connected_user(&mut self, endpoint: Endpoint, user: &str)
        requires
            old(self).wf(),
        ensures
            final(self).wf(),
            final(self)@ == (StateView {
                users: old(self)@.users.insert(endpoint, user@),
                ..old(self)@
            }),
    {
        let ghost before = self.lan_users@;
        let name = String::from_str(user);
        match self.find_user(endpoint) {
            Some(i) => {
                self.lan_users.set(i, Peer { endpoint, name });
                proof {
                    let after = self.lan_users@;
                    assert(distinct(after)) by {
                        assert forall|a: int, b: int| 0 <= a < b < after.len() implies (
                        #[trigger] after[a]).endpoint != (#[trigger] after[b]).endpoint by {
                            assert(before[a].endpoint != before[b].endpoint);
                        }
                    }
                    assert forall|e: Endpoint| listed(after, e) <==> (e == endpoint || listed(
                        before,
                        e,
                    )) by {
                        if listed(after, e) {
                            let k = slot(after, e);
                            assert(before[k].endpoint == e);
                        }
                        if listed(before, e) {
                            let k = slot(before, e);
                            assert(after[k].endpoint == e);
                        }
                        if e == endpoint {
                            assert(after[i as int].endpoint == e);
                        }
                    }
                    assert forall|e: Endpoint| listed(after, e) implies directory_of(after)[e]
                        == before_or(before, endpoint, user@, e) by {
                        let k = slot(after, e);
                        lemma_directory_entry(after, k);
                        if e != endpoint {
                            assert(before[k].endpoint == e);
                            lemma_directory_entry(before, k);
                        }
                    }
                    assert(directory_of(after) =~= directory_of(before).insert(endpoint, user@));
                }
            },
            None => {
                self.lan_users.push(Peer { endpoint, name });
                proof {
                    let after = self.lan_users@;
                    assert(distinct(after)) by {
                        assert forall|a: int, b: int| 0 <= a < b < after.len() implies (
                        #[trigger] after[a]).endpoint != (#[trigger] after[b]).endpoint by {
                            if b < before.len() {
                                assert(before[a].endpoint != before[b].endpoint);
                            } else {
                                assert(before[a].endpoint != endpoint) by {
                                    if before[a].endpoint == endpoint {
                                        assert(listed(before, endpoint));
                                    }
                                }
                            }
                        }
                    }
                    assert forall|e: Endpoint| listed(after, e) <==> (e == endpoint || listed(
                        before,
                        e,
                    )) by {
                        if listed(after, e) {
                            let k = slot(after, e);
                            if k < before.len() {
                                assert(before[k].endpoint == e);
                            }
                        }
                        if listed(before, e) {
                            let k = slot(before, e);
                            assert(after[k].endpoint == e);
                        }
                        if e == endpoint {
                            assert(after[before.len() as int].endpoint == e);
                        }
                    }
                    assert forall|e: Endpoint| listed(after, e) implies directory_of(after)[e]
                        == before_or(before, endpoint, user@, e) by {
                        let k = slot(after, e);
                        lemma_directory_entry(after, k);
                        if e != endpoint {
                            assert(before[k].endpoint == e);
                            lemma_directory_entry(before, k);
                        }
                    }
                    assert(directory_of(after) =~= directory_of(before).insert(endpoint, user@));
                }
            },
        }
    }

    /// Takes `endpoint` out of the directory. One that is not listed
    /// leaves the state as it was.
    pub fn disconnected_user(&mut self, endpoint: Endpoint)
        requires
            old(self).wf(),
        ensures
            final(self).wf(),
            final(self)@ == (StateView { users: old(self)@.users.remove(endpoint), ..old(self)@ }),
    {
        let ghost before = self.lan_users@;
        match self.find_user(endpoint) {
            Some(i) => {
                self.lan_users.remove(i);
                proof {
                    let after = self.lan_users@;
                    assert forall|k: int| 0 <= k < after.len() implies after[k] == before[if k
                        < i {
                        k
                    } else {
                        k + 1
                    }] by {}
                    assert(distinct(after)) by {
                        assert forall|a: int, b: int| 0 <= a < b < after.len() implies (
                        #[trigger] after[a]).endpoint != (#[trigger] after[b]).endpoint by {
                            let a0 = if a < i { a } else { a + 1 };
                            let b0 = if b < i { b } else { b + 1 };
                            assert(before[a0].endpoint != before[b0].endpoint);
                        }
                    }
                    assert forall|e: Endpoint| listed(after, e) <==> (e != endpoint && listed(
                        before,
                        e,
                    )) by {
                        if listed(after, e) {
                            let k = slot(after, e);
                            let k0 = if k < i { k } else { k + 1 };
                            assert(before[k0].endpoint == e);
                            if k0 < i {
                                assert(before[k0].endpoint != before[i as int].endpoint);
                            } else {
                                assert(before[i as int].endpoint != before[k0].endpoint);
                            }
                        }
                        if e != endpoint && listed(before, e) {
                            let k = slot(before, e);
                            let k1 = if k < i { k } else { k - 1 };
                            assert(after[k1].endpoint == e);
                        }
                    }
                    assert forall|e: Endpoint| listed(after, e) implies directory_of(after)[e]
                        == directory_of(before)[e] by {
                        let k = slot(after, e);
                        lemma_directory_entry(after, k);
                        let k0 = if k < i { k } else { k + 1 };
                        assert(before[k0].endpoint == e);
                        lemma_directory_entry(before, k0);
                    }
                    assert(directory_of(after) =~= directory_of(before).remove(endpoint));
                }
            },
            None => {
                assert(self@.users =~= old(self)@.users.remove(endpoint));
            },
        }
    }
}

} // verus!
