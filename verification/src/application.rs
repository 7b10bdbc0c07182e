//! The event core of a node: what each event does to the state of the
//! node, and what it leaves for the transport, the disk and the screen to
//! do.
//!
//! The node itself touches no socket, file or window. A step returns the
//! work for them as a list of effects; whoever drives the node carries the
//! effects out in order and reports back what the node has to know.

pub mod laws;
pub mod steps;

use vstd::prelude::*;
use message_io::events::EventReceiver;
use crate::action::{views, Effect, EffectView, Processing, Supply};
use crate::application::steps::{
    action_step, close_requested, dispatch_step, enter_step, network_step, reached_step,
    received_path, terminal_step, workable,
};
use crate::commands::{CommandKind, CommandManager, Parsed};
use crate::events::{
    ordinary, queue_new, queue_send, queue_send_with_priority, queue_try_receive, timed, urgent,
};
use crate::message::{Chunk, NetMessage, NetMessageView};
use crate::state::{
    notice, ChatMessage, CursorMovement, Endpoint, MessageType, ScrollMovement, Severity,
    SocketAddress, State, StateView, Xstate,
};
use crate::task::Task;
use crate::terminal_events::{KeyCode, KeyEvent, TermEvent};
use crate::text::joined;

verus! {

/// What the transport reports.
#[derive(Debug, PartialEq, Eq)]
pub enum NetEvent {
    /// A message has arrived from the endpoint.
    Message(Endpoint, NetMessage),
    /// A connection was made.
    AddedEndpoint(Endpoint),
    /// The connection of the endpoint is gone.
    RemovedEndpoint(Endpoint),
    /// Bytes arrived from the endpoint that are no message.
    DeserializationError(Endpoint),
}

/// What the loop of a node is given to work on.
#[derive(Debug, PartialEq, Eq)]
pub enum Event {
    Network(NetEvent),
    Terminal(TermEvent),
    /// A task that wants its next step.
    Action(Task),
    /// The node is to end; with `Some`, because of the failure described.
    Close(Option<String>),
}

/// How a node is set up.
#[derive(Clone, Debug, PartialEq, Eq)]
pub struct Config {
    /// The multicast group on which nodes announce themselves.
    pub discovery_addr: SocketAddress,
    /// The port of the chat listener; 0 lets the system choose.
    pub tcp_server_port: u16,
    /// The display name of this node.
    pub user_name: String,
}

/// What a node is, as mathematical values.
pub struct ApplicationView {
    pub state: StateView,
    /// The endpoints whose frames have a window.
    pub windows: Set<Endpoint>,
    /// The events that wait with priority, oldest first.
    pub urgent: Seq<Event>,
    /// The other events that wait, oldest first.
    pub ordinary: Seq<Event>,
    /// The commands that the node understands.
    pub commands: Set<CommandKind>,
    /// The display name of the node.
    pub user_name: Seq<char>,
}

impl ApplicationView {
    /// The event that the loop is given next.
    pub open spec fn next(self) -> Option<Event> {
        if self.urgent.len() > 0 {
            Some(self.urgent[0])
        } else if self.ordinary.len() > 0 {
            Some(self.ordinary[0])
        } else {
            None
        }
    }

    /// The node once the loop has taken its next event.
    pub open spec fn taken(self) -> ApplicationView {
        if self.urgent.len() > 0 {
            ApplicationView { urgent: self.urgent.skip(1), ..self }
        } else if self.ordinary.len() > 0 {
            ApplicationView { ordinary: self.ordinary.skip(1), ..self }
        } else {
            self
        }
    }

    /// Only requests to close wait with priority.
    pub open spec fn urgent_closes(self) -> bool {
        forall|i: int| 0 <= i < self.urgent.len() ==> (#[trigger] self.urgent[i]) is Close
    }
}

/// A node.
pub struct Application<'a> {
    config: &'a Config,
    state: State,
    commands: CommandManager,
    event_queue: EventReceiver<Event>,
    windows: Vec<Endpoint>,
}

impl<'a> View for Application<'a> {
    type V = ApplicationView;

    closed spec fn view(&self) -> ApplicationView {
        ApplicationView {
            state: self.state@,
            windows: Set::new(|endpoint: Endpoint| self.windows@.contains(endpoint)),
            urgent: urgent(&self.event_queue),
            ordinary: ordinary(&self.event_queue),
            commands: self.commands@,
            user_name: self.config.user_name@,
        }
    }
}

/// How the loop goes on after an event.
#[derive(Debug, PartialEq, Eq)]
pub enum Flow {
    /// The loop goes on, once the effects are carried out.
    Continue(Vec<Effect>),
    /// The loop ends; with `Some`, because of the failure described.
    Closed(Option<String>),
}

impl<'a> Application<'a> {
    /// The state is well formed, no endpoint has its window listed twice,
    /// the queue holds no timed event, and only requests to close wait
    /// with priority. Every node this module hands out is well formed.
    pub closed spec fn wf(&self) -> bool {
        &&& self.state.wf()
        &&& self.windows@.no_duplicates()
        &&& timed(&self.event_queue).len() == 0
        &&& self@.urgent_closes()
    }

    /// In a well-formed node only requests to close wait with priority.
    pub proof fn lemma_urgent_closes(&self)
        requires
            self.wf(),
        ensures
            self@.urgent_closes(),
    {
    }

    /// A node that has seen nothing yet. It understands the commands that
    /// send a file, start the video stream and stop it.
    pub fn new(config: &'a Config) -> (app: Application<'a>)
        ensures
            app.wf(),
            app@ == (ApplicationView {
                state: StateView::fresh(),
                windows: Set::empty(),
                urgent: Seq::empty(),
                ordinary: Seq::empty(),
                commands: Set::empty().insert(CommandKind::SendFile).insert(
                    CommandKind::SendStream,
                ).insert(CommandKind::StopStream),
                user_name: config.user_name@,
            }),
    {
        let app = Application {
            config,
            state: State::new(),
            commands: CommandManager::default().with(CommandKind::SendFile).with(
                CommandKind::SendStream,
            ).with(CommandKind::StopStream),
            event_queue: queue_new(),
            windows: Vec::new(),
        };
        assert(app@.windows =~= Set::empty());
        app
    }

    /// The state of the node, for the screen to draw.
    pub fn state(&self) -> (state: &State)
        requires
            self.wf(),
        ensures
            state.wf(),
            state@ == self@.state,
    {
        &self.state
    }

    /// The message that announces the node to the discovery group, once
    /// its chat listener is bound to `server_port`.
    pub fn announce(&self, server_port: u16) -> (message: NetMessage)
        ensures
            message@ == NetMessageView::HelloLan(self@.user_name, server_port),
    {
        NetMessage::HelloLan(self.config.user_name.clone(), server_port)
    }

    /// Writes a local error notice into the chat log: the way to report
    /// an effect that failed. Nothing is tried again.
    pub fn report_error(&mut self, text: String)
        requires
            old(self).wf(),
        ensures
            final(self).wf(),
            final(self)@ == (ApplicationView {
                state: old(self)@.state.logged(notice(text@, Severity::Error)),
                ..old(self)@
            }),
    {
        self.state.report_err(text);
    }

    /// Whether the frames of `endpoint` have a window.
    pub fn has_window(&self, endpoint: Endpoint) -> (open: bool)
        ensures
            open == self@.windows.contains(endpoint),
    {
        self.find_window(endpoint).is_some()
    }

    /// Index of `endpoint` among the endpoints that have a window.
    fn find_window(&self, endpoint: Endpoint) -> (found: Option<usize>)
        ensures
            found is Some <==> self@.windows.contains(endpoint),
            found matches Some(i) ==> i < self.windows@.len() && self.windows@[i as int]
                == endpoint,
    {
        let mut i: usize = 0;
        while i < self.windows.len()
            invariant
                i <= self.windows.len(),
                forall|k: int| 0 <= k < i ==> self.windows@[k] != endpoint,
            decreases self.windows.len() - i,
        {
            if self.windows[i] == endpoint {
                return Some(i);
            }
            i += 1;
        }
        None
    }

    /// Notes that `endpoint` has a window.
    fn add_window(&mut self, endpoint: Endpoint)
        requires
            old(self).wf(),
        ensures
            final(self).wf(),
            final(self)@ == (ApplicationView {
                windows: old(self)@.windows.insert(endpoint),
                ..old(self)@
            }),
    {
        if self.find_window(endpoint).is_none() {
            let ghost before = self.windows@;
            self.windows.push(endpoint);
            proof {
                let after = self.windows@;
                assert forall|e: Endpoint| after.contains(e) <==> (e == endpoint || before.contains(
                    e,
                )) by {
                    if before.contains(e) {
                        let i = choose|i: int| 0 <= i < before.len() && before[i] == e;
                        assert(after[i] == e);
                    }
                    if e == endpoint {
                        assert(after[before.len() as int] == e);
                    }
                    if after.contains(e) {
                        let i = choose|i: int| 0 <= i < after.len() && after[i] == e;
                        if i < before.len() {
                            assert(before[i] == e);
                        }
                    }
                }
            }
        }
        assert(self@.windows =~= old(self)@.windows.insert(endpoint));
    }

    /// Notes that `endpoint` has no window.
    fn remove_window(&mut self, endpoint: Endpoint)
        requires
            old(self).wf(),
        ensures
            final(self).wf(),
            final(self)@ == (ApplicationView {
                windows: old(self)@.windows.remove(endpoint),
                ..old(self)@
            }),
    {
        match self.find_window(endpoint) {
            Some(i) => {
                let ghost before = self.windows@;
                self.windows.remove(i);
                proof {
                    let after = self.windows@;
                    assert forall|e: Endpoint| after.contains(e) <==> (e != endpoint
                        && before.contains(e)) by {
                        if after.contains(e) {
                            let k = choose|k: int| 0 <= k < after.len() && after[k] == e;
                            let k0 = if k < i { k } else { k + 1 };
                            assert(before[k0] == e);
                        }
                        if e != endpoint && before.contains(e) {
                            let k = choose|k: int| 0 <= k < before.len() && before[k] == e;
                            let k1 = if k < i { k } else { k - 1 };
                            assert(after[k1] == e);
                        }
                    }
                }
            },
            None => {},
        }
        assert(self@.windows =~= old(self)@.windows.remove(endpoint));
    }

    /// Takes the failed opening of a window back: `endpoint` has no
    /// window, and the failure is noted in the chat log.
    pub fn window_failed(&mut self, endpoint: Endpoint, text: String)
        requires
            old(self).wf(),
        ensures
            final(self).wf(),
            final(self)@ == (ApplicationView {
                state: old(self)@.state.logged(notice(text@, Severity::Error)),
                windows: old(self)@.windows.remove(endpoint),
                ..old(self)@
            }),
    {
        self.remove_window(endpoint);
        self.state.report_err(text);
    }

    /// Completes the handshake with a peer that was reached: after the
    /// connection that an announcement asked for has been opened as
    /// `endpoint`, the peer is told the name of this node and is entered
    /// into the directory under its own name.
    pub fn peer_reached(&mut self, endpoint: Endpoint, user: &str) -> (effects: Vec<Effect>)
        requires
            old(self).wf(),
        ensures
            final(self).wf(),
            reached_step(old(self)@, endpoint, user@, final(self)@, views(effects@)),
    {
        let message = NetMessage::HelloUser(self.config.user_name.clone());
        self.state.connected_user(endpoint, user);
        let mut effects: Vec<Effect> = Vec::new();
        effects.push(Effect::Send { endpoint, message });
        assert(views(effects@) =~= seq![
            EffectView::Send { endpoint, message: NetMessageView::HelloUser(old(self)@.user_name) },
        ]);
        effects
    }

    /// Works on a message that arrived from `endpoint`.
    ///
    /// An announcement by a node of another name asks for a connection to
    /// that node. The answer to an announcement enters its sender into the
    /// directory. A line of chat by a connected peer goes into the log
    /// under the name of the peer; of others it is dropped. Chunks of a
    /// file by a connected peer are appended to the file kept for that
    /// peer, and the end or the failure of a transfer is noted. A video
    /// frame is shown in the window of its sender, which is opened if the
    /// sender has none, and the end of a stream closes that window.
    pub fn process_network_message(
        &mut self,
        endpoint: Endpoint,
        message: NetMessage,
    ) -> (effects: Vec<Effect>)
        requires
            old(self).wf(),
            message@.well_sized(),
        ensures
            final(self).wf(),
            network_step(old(self)@, endpoint, message@, final(self)@, views(effects@)),
    {
        let mut effects: Vec<Effect> = Vec::new();
        match message {
            NetMessage::HelloLan(user, server_port) => {
                if user != self.config.user_name {
                    let addr = SocketAddress { ip: endpoint.addr.ip, port: server_port };
                    effects.push(Effect::Connect { addr, user });
                    assert(views(effects@) =~= seq![
                        EffectView::Connect { addr, user: user@ },
                    ]);
                }
            },
            NetMessage::HelloUser(user) => {
                self.state.connected_user(endpoint, user.as_str());
            },
            NetMessage::UserMessage(content) => {
                let author = match self.state.user_name(endpoint) {
                    Some(user) => Some(user.clone()),
                    None => None,
                };
                if let Some(user) = author {
                    let message = ChatMessage::new(user, MessageType::Text(content));
                    self.state.add_message(message);
                }
            },
            NetMessage::UserData(file_name, chunk) => {
                let sender = match self.state.user_name(endpoint) {
                    Some(user) => Some(user.clone()),
                    None => None,
                };
                if let Some(user) = sender {
                    match chunk {
                        Chunk::Error => {
                            let mut text = String::from_str("'");
                            text.append(user.as_str());
                            text.append("' had an error while sending '");
                            text.append(file_name.as_str());
                            text.append("'");
                            self.state.report_err(text);
                        },
                        Chunk::End => {
                            let mut text = String::from_str("Successfully received file '");
                            text.append(file_name.as_str());
                            text.append("' from user '");
                            text.append(user.as_str());
                            text.append("'!");
                            self.state.report_info(text);
                        },
                        Chunk::Data(data) => {
                            let mut path: Vec<String> = Vec::new();
                            path.push(String::from_str("termchat"));
                            path.push(user);
                            path.push(file_name);
                            assert(path@.map_values(|part: String| part@) =~= received_path(
                                user@,
                                file_name@,
                            ));
                            effects.push(Effect::AppendFile { path, data });
                            assert(views(effects@) =~= seq![
                                EffectView::AppendFile {
                                    path: received_path(user@, file_name@),
                                    data: data@,
                                },
                            ]);
                        },
                        Chunk::Stream(_) => {},
                    }
                }
            },
            NetMessage::Stream(frame) => {
                match frame {
                    Some((buffer, width, height)) => {
                        let width = width / 2;
                        if self.find_window(endpoint).is_none() {
                            effects.push(Effect::OpenWindow { endpoint, width, height });
                        }
                        self.add_window(endpoint);
                        effects.push(Effect::UpdateWindow { endpoint, buffer, width, height });
                        let ghost show = EffectView::UpdateWindow {
                            endpoint,
                            buffer: buffer@,
                            width,
                            height,
                        };
                        assert(views(effects@) =~= if old(self)@.windows.contains(endpoint) {
                            seq![show]
                        } else {
                            seq![EffectView::OpenWindow { endpoint, width, height }, show]
                        });
                    },
                    None => {
                        if self.find_window(endpoint).is_some() {
                            effects.push(Effect::CloseWindow { endpoint });
                        }
                        self.remove_window(endpoint);
                        assert(views(effects@) =~= if old(self)@.windows.contains(endpoint) {
                            seq![EffectView::CloseWindow { endpoint }]
                        } else {
                            Seq::empty()
                        });
                    },
                }
            },
        }
        effects
    }

    /// Puts an event at the end of the ordinary line of the queue.
    pub fn submit(&mut self, event: Event)
        requires
            old(self).wf(),
        ensures
            final(self).wf(),
            final(self)@ == (ApplicationView {
                ordinary: old(self)@.ordinary.push(event),
                ..old(self)@
            }),
    {
        queue_send(&mut self.event_queue, event);
    }

    /// Takes the next event from the queue: the oldest of the urgent
    /// line, or else the oldest of the ordinary line. `None` says that
    /// nothing waits.
    pub fn next_event(&mut self) -> (event: Option<Event>)
        requires
            old(self).wf(),
        ensures
            final(self).wf(),
            event == old(self)@.next(),
            final(self)@ == old(self)@.taken(),
    {
        let event = queue_try_receive(&mut self.event_queue);
        proof {
            let before = old(self)@.urgent;
            let after = self@.urgent;
            assert forall|i: int| 0 <= i < after.len() implies (#[trigger] after[i]) is Close by {
                if before.len() > 0 {
                    assert(after[i] == before[i + 1]);
                }
            }
        }
        event
    }

    /// Asks the node to close, ahead of all that waits in the queue.
    fn request_close(&mut self)
        requires
            old(self).wf(),
        ensures
            final(self).wf(),
            final(self)@ == close_requested(old(self)@),
    {
        queue_send_with_priority(&mut self.event_queue, Event::Close(None));
    }

    /// Gives `task` its step, with what it asked for. A task that is not
    /// done is queued for its next step.
    pub fn process_action(&mut self, task: Task, supply: Supply) -> (done: (
        Vec<Effect>,
        Processing,
    ))
        requires
            old(self).wf(),
            supply@.answers(task.needs(old(self)@.state)),
            task.accepts(supply@),
        ensures
            final(self).wf(),
            action_step(old(self)@, task, supply@, final(self)@, views(done.0@), done.1),
    {
        let mut task = task;
        let (effects, processing) = task.process(&mut self.state, supply);
        match processing {
            Processing::Completed => {},
            Processing::Partial => {
                queue_send(&mut self.event_queue, Event::Action(task));
            },
        }
        (effects, processing)
    }

    /// Works on an event of the terminal.
    pub fn process_terminal_event(&mut self, term_event: TermEvent) -> (effects: Vec<Effect>)
        requires
            old(self).wf(),
        ensures
            final(self).wf(),
            terminal_step(old(self)@, term_event, final(self)@, views(effects@)),
    {
        let mut effects: Vec<Effect> = Vec::new();
        match term_event {
            TermEvent::Mouse => {},
            TermEvent::Resize(_, _) => {},
            TermEvent::Key(KeyEvent { code, modifiers }) => match code {
                KeyCode::Esc => {
                    self.request_close();
                },
                KeyCode::Char(character) => {
                    if character == 'c' && modifiers.control {
                        self.request_close();
                    } else {
                        self.state.input_write(character);
                    }
                },
                KeyCode::Enter => {
                    effects = self.confirm_input();
                },
                KeyCode::Delete => {
                    self.state.input_remove();
                },
                KeyCode::Backspace => {
                    self.state.input_remove_previous();
                },
                KeyCode::Left => {
                    self.state.input_move_cursor(CursorMovement::Left);
                },
                KeyCode::Right => {
                    self.state.input_move_cursor(CursorMovement::Right);
                },
                KeyCode::Home => {
                    self.state.input_move_cursor(CursorMovement::Start);
                },
                KeyCode::End => {
                    self.state.input_move_cursor(CursorMovement::End);
                },
                KeyCode::Up => {
                    self.state.messages_scroll(ScrollMovement::Up);
                },
                KeyCode::Down => {
                    self.state.messages_scroll(ScrollMovement::Down);
                },
                KeyCode::PageUp => {
                    self.state.messages_scroll(ScrollMovement::Start);
                },
                _ => {},
            },
        }
        effects
    }

    /// Confirms the input line.
    fn confirm_input(&mut self) -> (effects: Vec<Effect>)
        requires
            old(self).wf(),
        ensures
            final(self).wf(),
            enter_step(old(self)@, final(self)@, views(effects@)),
    {
        let mut effects: Vec<Effect> = Vec::new();
        let input = match self.state.reset_input() {
            Some(input) => input,
            None => {
                return effects;
            },
        };
        if input == String::from_str("?stream") {
            self.state.set_mode(Xstate::Streaming);
        } else if input == String::from_str("?stopstream") {
            self.state.set_mode(Xstate::Idle);
        }
        let found = self.commands.find_command_action(input.as_str());
        let message = ChatMessage::new(
            joined(self.config.user_name.as_str(), " (me)"),
            MessageType::Text(input.clone()),
        );
        self.state.add_message(message);
        let endpoints = self.state.all_user_endpoints();
        effects.push(Effect::Broadcast { endpoints, message: NetMessage::UserMessage(input) });
        match found {
            None => {},
            Some(Err(reason)) => {
                self.state.report_err(reason);
            },
            Some(Ok(Parsed::Open(launch))) => {
                effects.push(Effect::Launch(launch));
            },
            Some(Ok(Parsed::Ready(task))) => {
                queue_send(&mut self.event_queue, Event::Action(task));
            },
        }
        effects
    }

    /// One pass of the loop: works on the event that the queue gave.
    /// For a task, `supply` is what the task asked for; for every other
    /// event it is not looked at.
    pub fn dispatch(&mut self, event: Event, supply: Supply) -> (flow: Flow)
        requires
            old(self).wf(),
            workable(old(self)@, event, supply@),
        ensures
            final(self).wf(),
            dispatch_step(old(self)@, event, supply@, final(self)@, flow),
    {
        match event {
            Event::Network(net_event) => match net_event {
                NetEvent::Message(endpoint, message) => Flow::Continue(
                    self.process_network_message(endpoint, message),
                ),
                NetEvent::AddedEndpoint(_) => Flow::Continue(Vec::new()),
                NetEvent::RemovedEndpoint(endpoint) => {
                    self.state.disconnected_user(endpoint);
                    Flow::Continue(Vec::new())
                },
                NetEvent::DeserializationError(_) => {
                    self.state.report_err(
                        String::from_str("Received a message that could not be read"),
                    );
                    Flow::Continue(Vec::new())
                },
            },
            Event::Terminal(term_event) => Flow::Continue(self.process_terminal_event(term_event)),
            Event::Action(task) => {
                let (effects, processing) = self.process_action(task, supply);
                Flow::Continue(effects)
            },
            Event::Close(error) => Flow::Closed(error),
        }
    }
}

} // verus!
