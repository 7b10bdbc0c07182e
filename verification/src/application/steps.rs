//! What a node does, step by step: the relations between a node before
//! an event and the node and its effects after it.

use vstd::prelude::*;
use crate::action::{is_broadcast, views, EffectView, LaunchView, Processing, SupplyView};
use crate::application::{ApplicationView, Event, Flow, NetEvent};
use crate::commands::send_stream::StopStream;
use crate::commands::{chosen, parameters, CommandKind};
use crate::message::{ChunkView, NetMessageView};
use crate::state::{
    notice, text_message, CursorMovement, Endpoint, ScrollMovement, Severity, SocketAddress,
    StateView, Xstate,
};
use crate::task::{Task, Turn};
use crate::terminal_events::{KeyCode, TermEvent};

verus! {

/// Name of the directory that received files are kept under.
pub open spec fn app_name() -> Seq<char> {
    "termchat"@
}

/// Where the bytes of the file `file_name` that `user` sends are kept: a
/// path below the platform's directory for temporary files.
pub open spec fn received_path(user: Seq<char>, file_name: Seq<char>) -> Seq<Seq<char>> {
    seq![app_name(), user, file_name]
}

/// The notice that a peer gave a transfer up.
pub open spec fn transfer_failed_text(user: Seq<char>, file_name: Seq<char>) -> Seq<char> {
    "'"@ + user + "' had an error while sending '"@ + file_name + "'"@
}

/// The notice that a file has arrived whole.
pub open spec fn transfer_done_text(user: Seq<char>, file_name: Seq<char>) -> Seq<char> {
    "Successfully received file '"@ + file_name + "' from user '"@ + user + "'!"@
}

/// What the node does with `message` from `endpoint`.
pub open spec fn network_step(
    before: ApplicationView,
    endpoint: Endpoint,
    message: NetMessageView,
    after: ApplicationView,
    effects: Seq<EffectView>,
) -> bool {
    match message {
        NetMessageView::HelloLan(user, port) => {
            &&& after == before
            &&& if user != before.user_name {
                effects == seq![
                    EffectView::Connect {
                        addr: SocketAddress { ip: endpoint.addr.ip, port },
                        user,
                    },
                ]
            } else {
                effects.len() == 0
            }
        },
        NetMessageView::HelloUser(user) => {
            &&& after == (ApplicationView {
                state: StateView {
                    users: before.state.users.insert(endpoint, user),
                    ..before.state
                },
                ..before
            })
            &&& effects.len() == 0
        },
        NetMessageView::UserMessage(text) => {
            &&& effects.len() == 0
            &&& after == if before.state.users.dom().contains(endpoint) {
                ApplicationView {
                    state: before.state.logged(text_message(before.state.users[endpoint], text)),
                    ..before
                }
            } else {
                before
            }
        },
        NetMessageView::UserData(file_name, chunk) => {
            if before.state.users.dom().contains(endpoint) {
                let user = before.state.users[endpoint];
                match chunk {
                    ChunkView::Error => {
                        &&& effects.len() == 0
                        &&& after == (ApplicationView {
                            state: before.state.logged(
                                notice(transfer_failed_text(user, file_name), Severity::Error),
                            ),
                            ..before
                        })
                    },
                    ChunkView::End => {
                        &&& effects.len() == 0
                        &&& after == (ApplicationView {
                            state: before.state.logged(
                                notice(transfer_done_text(user, file_name), Severity::Info),
                            ),
                            ..before
                        })
                    },
                    ChunkView::Data(data) => {
                        &&& after == before
                        &&& effects == seq![
                            EffectView::AppendFile { path: received_path(user, file_name), data },
                        ]
                    },
                    ChunkView::Stream(_) => after == before && effects.len() == 0,
                }
            } else {
                after == before && effects.len() == 0
            }
        },
        NetMessageView::Stream(Some(frame)) => {
            let width = (frame.1 / 2) as usize;
            let show = EffectView::UpdateWindow {
                endpoint,
                buffer: frame.0,
                width,
                height: frame.2,
            };
            &&& after == (ApplicationView { windows: before.windows.insert(endpoint), ..before })
            &&& effects == if before.windows.contains(endpoint) {
                seq![show]
            } else {
                seq![EffectView::OpenWindow { endpoint, width, height: frame.2 }, show]
            }
        },
        NetMessageView::Stream(None) => {
            &&& after == (ApplicationView { windows: before.windows.remove(endpoint), ..before })
            &&& effects == if before.windows.contains(endpoint) {
                seq![EffectView::CloseWindow { endpoint }]
            } else {
                Seq::empty()
            }
        },
    }
}

/// The label under which the node logs what its own user says.
pub open spec fn own_label(user_name: Seq<char>) -> Seq<char> {
    user_name + " (me)"@
}

/// The mode of the interface after `line` was entered.
pub open spec fn mode_after(mode: Xstate, line: Seq<char>) -> Xstate {
    if line == "?stream"@ {
        Xstate::Streaming
    } else if line == "?stopstream"@ {
        Xstate::Idle
    } else {
        mode
    }
}

/// What the node does when the input line is confirmed.
///
/// An empty line does nothing. Any other line is taken from the input,
/// logged under the label of the user and sent to every peer as chat.
/// Where the line gives a command, the command follows: a task that needs
/// something opened is asked for, a reason why the command made nothing
/// of its parameters is noted, and the task that stops the stream, which
/// needs nothing, is queued for its step.
pub open spec fn enter_step(
    before: ApplicationView,
    after: ApplicationView,
    effects: Seq<EffectView>,
) -> bool {
    let line = before.state.input;
    if line.len() == 0 {
        after == before && effects.len() == 0
    } else {
        let taken = StateView {
            mode: mode_after(before.state.mode, line),
            ..before.state.cleared()
        };
        let said = taken.logged(text_message(own_label(before.user_name), line));
        &&& effects.len() >= 1
        &&& is_broadcast(effects[0], before.state.users.dom(), NetMessageView::UserMessage(line))
        &&& match chosen(before.commands, line) {
            None => effects.len() == 1 && after == (ApplicationView { state: said, ..before }),
            Some(CommandKind::SendFile) => if parameters(line).len() == 0 {
                &&& effects.len() == 1
                &&& after == (ApplicationView {
                    state: said.logged(notice("No file specified"@, Severity::Error)),
                    ..before
                })
            } else {
                &&& effects.len() == 2
                &&& effects[1] == EffectView::Launch(
                    LaunchView::SendFile { path: parameters(line)[0] },
                )
                &&& after == (ApplicationView { state: said, ..before })
            },
            Some(CommandKind::SendStream) => {
                &&& effects.len() == 2
                &&& effects[1] == EffectView::Launch(LaunchView::SendStream)
                &&& after == (ApplicationView { state: said, ..before })
            },
            Some(CommandKind::SendAudio) => {
                &&& effects.len() == 2
                &&& effects[1] == EffectView::Launch(LaunchView::SendAudio)
                &&& after == (ApplicationView { state: said, ..before })
            },
            Some(CommandKind::StopStream) => {
                &&& effects.len() == 1
                &&& after == (ApplicationView {
                    state: said,
                    ordinary: before.ordinary.push(
                        Event::Action(Task::StopStream(StopStream {  })),
                    ),
                    ..before
                })
            },
        }
    }
}

/// The node with one more request to close, without a failure, at the end
/// of the urgent line.
pub open spec fn close_requested(before: ApplicationView) -> ApplicationView {
    ApplicationView { urgent: before.urgent.push(Event::Close(None)), ..before }
}

/// What the node does with an event of the terminal.
///
/// Escape and control-C ask to close, with priority over all that waits.
/// Enter confirms the input line. The other keys edit the line, move its
/// cursor or scroll the log. The mouse and changes of size do nothing.
pub open spec fn terminal_step(
    before: ApplicationView,
    event: TermEvent,
    after: ApplicationView,
    effects: Seq<EffectView>,
) -> bool {
    match event {
        TermEvent::Mouse => after == before && effects.len() == 0,
        TermEvent::Resize(_, _) => after == before && effects.len() == 0,
        TermEvent::Key(key) => match key.code {
            KeyCode::Enter => enter_step(before, after, effects),
            code => {
                &&& effects.len() == 0
                &&& after == match code {
                    KeyCode::Esc => close_requested(before),
                    KeyCode::Char(character) => if character == 'c' && key.modifiers.control {
                        close_requested(before)
                    } else {
                        ApplicationView { state: before.state.written(character), ..before }
                    },
                    KeyCode::Delete => ApplicationView { state: before.state.removed(), ..before },
                    KeyCode::Backspace => ApplicationView {
                        state: before.state.removed_previous(),
                        ..before
                    },
                    KeyCode::Left => ApplicationView {
                        state: before.state.moved(CursorMovement::Left),
                        ..before
                    },
                    KeyCode::Right => ApplicationView {
                        state: before.state.moved(CursorMovement::Right),
                        ..before
                    },
                    KeyCode::Home => ApplicationView {
                        state: before.state.moved(CursorMovement::Start),
                        ..before
                    },
                    KeyCode::End => ApplicationView {
                        state: before.state.moved(CursorMovement::End),
                        ..before
                    },
                    KeyCode::Up => ApplicationView {
                        state: before.state.scrolled(ScrollMovement::Up),
                        ..before
                    },
                    KeyCode::Down => ApplicationView {
                        state: before.state.scrolled(ScrollMovement::Down),
                        ..before
                    },
                    KeyCode::PageUp => ApplicationView {
                        state: before.state.scrolled(ScrollMovement::Start),
                        ..before
                    },
                    _ => before,
                }
            },
        },
    }
}

/// What the node does when `task` is due for a step: the task takes its
/// step, and a task that is not done goes to the end of the ordinary
/// line.
pub open spec fn action_step(
    before: ApplicationView,
    task: Task,
    supply: SupplyView,
    after: ApplicationView,
    effects: Seq<EffectView>,
    processing: Processing,
) -> bool {
    &&& task.step(
        Turn { before: before.state, supply, after: after.state, effects, processing },
    )
    &&& after == (ApplicationView {
        state: after.state,
        ordinary: if processing == Processing::Partial {
            before.ordinary.push(Event::Action(task))
        } else {
            before.ordinary
        },
        ..before
    })
}

/// What the node does once the connection that an announcement asked
/// for is open as `endpoint`: it tells the peer its own name and enters
/// the peer into the directory under the name `user`.
pub open spec fn reached_step(
    before: ApplicationView,
    endpoint: Endpoint,
    user: Seq<char>,
    after: ApplicationView,
    effects: Seq<EffectView>,
) -> bool {
    &&& after == (ApplicationView {
        state: StateView { users: before.state.users.insert(endpoint, user), ..before.state },
        ..before
    })
    &&& effects == seq![
        EffectView::Send { endpoint, message: NetMessageView::HelloUser(before.user_name) },
    ]
}

/// The notice that bytes arrived which are no message.
pub open spec fn unreadable_text() -> Seq<char> {
    "Received a message that could not be read"@
}

/// Whether the node can work on `event` with `supply`: a message is well
/// sized, and a task gets what it asked for, in a form it can take.
pub open spec fn workable(before: ApplicationView, event: Event, supply: SupplyView) -> bool {
    match event {
        Event::Network(NetEvent::Message(_, message)) => message@.well_sized(),
        Event::Action(task) => supply.answers(task.needs(before.state)) && task.accepts(supply),
        _ => true,
    }
}

/// What one pass of the loop does with the event it was given.
///
/// A message and an event of the terminal are worked on as such. A peer
/// whose connection is gone leaves the directory. Bytes that are no
/// message are noted in the chat log as an error, and nothing else comes
/// of them. A task takes its step. A request to close ends the loop and
/// hands on the failure that came with it. A connection that was made
/// does nothing by itself.
pub open spec fn dispatch_step(
    before: ApplicationView,
    event: Event,
    supply: SupplyView,
    after: ApplicationView,
    flow: Flow,
) -> bool {
    match event {
        Event::Network(NetEvent::Message(endpoint, message)) => {
            &&& flow matches Flow::Continue(effects)
            &&& network_step(before, endpoint, message@, after, views(effects@))
        },
        Event::Network(NetEvent::RemovedEndpoint(endpoint)) => {
            &&& flow matches Flow::Continue(effects)
            &&& effects@.len() == 0
            &&& after == (ApplicationView {
                state: StateView { users: before.state.users.remove(endpoint), ..before.state },
                ..before
            })
        },
        Event::Network(NetEvent::DeserializationError(_)) => {
            &&& flow matches Flow::Continue(effects)
            &&& effects@.len() == 0
            &&& after == (ApplicationView {
                state: before.state.logged(notice(unreadable_text(), Severity::Error)),
                ..before
            })
        },
        Event::Network(NetEvent::AddedEndpoint(_)) => {
            &&& flow matches Flow::Continue(effects)
            &&& effects@.len() == 0
            &&& after == before
        },
        Event::Terminal(term_event) => {
            &&& flow matches Flow::Continue(effects)
            &&& terminal_step(before, term_event, after, views(effects@))
        },
        Event::Action(task) => {
            &&& flow matches Flow::Continue(effects)
            &&& action_step(
                before,
                task,
                supply,
                after,
                views(effects@),
                if after.ordinary.len() > before.ordinary.len() {
                    Processing::Partial
                } else {
                    Processing::Completed
                },
            )
        },
        Event::Close(error) => {
            &&& flow matches Flow::Closed(reason)
            &&& reason == error
            &&& after == before
        },
    }
}

} // verus!
