use termchat::action::{Effect, Launch, Processing, Supply};
use termchat::application::{Application, Config, Event, Flow, NetEvent};
use termchat::commands::send_file::SendFile;
use termchat::commands::send_stream::{SendStream, StopStream};
use termchat::message::{fits_frame, Chunk, NetMessage};
use termchat::read_event::{Phase, ReadFile, BLOCK};
use termchat::state::{
    ChatMessage, Endpoint, IpAddress, MessageType, Severity, SocketAddress, State, Xstate,
};
use termchat::task::Task;
use termchat::terminal_events::{KeyCode, KeyEvent, KeyModifiers, TermEvent};

fn config(name: &str) -> Config {
    Config {
        discovery_addr: SocketAddress { ip: IpAddress::V4(0xEEFF_0001), port: 5877 },
        tcp_server_port: 0,
        user_name: name.to_string(),
    }
}

fn endpoint(id: u64, host: u32) -> Endpoint {
    Endpoint { resource_id: id, addr: SocketAddress { ip: IpAddress::V4(host), port: 3000 } }
}

const NONE: KeyModifiers = KeyModifiers { shift: false, control: false, alt: false };
const CONTROL: KeyModifiers = KeyModifiers { shift: false, control: true, alt: false };

fn key(code: KeyCode) -> TermEvent {
    TermEvent::Key(KeyEvent { code, modifiers: NONE })
}

fn enter(app: &mut Application, line: &str) -> Vec<Effect> {
    for character in line.chars() {
        assert!(app.process_terminal_event(key(KeyCode::Char(character))).is_empty());
    }
    app.process_terminal_event(key(KeyCode::Enter))
}

fn text(user: &str, content: &str) -> ChatMessage {
    ChatMessage { user: user.to_string(), message_type: MessageType::Text(content.to_string()) }
}

fn notice(content: &str, severity: Severity) -> ChatMessage {
    ChatMessage {
        user: "termchat".to_string(),
        message_type: MessageType::System(content.to_string(), severity),
    }
}

fn log(app: &Application) -> Vec<ChatMessage> {
    app.state().messages().clone()
}

fn input(state: &State) -> String {
    state.input().iter().collect()
}

#[test]
fn close_overtakes_what_waits() {
    let config = config("A");
    let mut app = Application::new(&config);
    app.submit(Event::Terminal(TermEvent::Mouse));
    app.submit(Event::Network(NetEvent::AddedEndpoint(endpoint(1, 1))));
    app.submit(Event::Action(Task::SendFile(SendFile::new(1, "f".to_string()))));
    app.submit(Event::Terminal(TermEvent::Resize(80, 24)));
    assert!(app.process_terminal_event(key(KeyCode::Esc)).is_empty());
    assert_eq!(app.next_event(), Some(Event::Close(None)));
    assert_eq!(app.next_event(), Some(Event::Terminal(TermEvent::Mouse)));
    assert_eq!(app.next_event(), Some(Event::Network(NetEvent::AddedEndpoint(endpoint(1, 1)))));
    assert_eq!(
        app.next_event(),
        Some(Event::Action(Task::SendFile(SendFile::new(1, "f".to_string()))))
    );
    assert_eq!(app.next_event(), Some(Event::Terminal(TermEvent::Resize(80, 24))));
    assert_eq!(app.next_event(), None);
}

#[test]
fn control_c_asks_to_close() {
    let config = config("A");
    let mut app = Application::new(&config);
    app.submit(Event::Terminal(TermEvent::Mouse));
    app.process_terminal_event(TermEvent::Key(KeyEvent { code: KeyCode::Char('c'), modifiers: CONTROL }));
    assert_eq!(input(app.state()), "");
    assert_eq!(app.next_event(), Some(Event::Close(None)));
    app.process_terminal_event(key(KeyCode::Char('c')));
    assert_eq!(input(app.state()), "c");
    assert_eq!(app.next_event(), Some(Event::Terminal(TermEvent::Mouse)));
    assert_eq!(app.next_event(), None);
}

#[test]
fn queue_serves_in_order_of_arrival() {
    let config = config("A");
    let mut app = Application::new(&config);
    assert_eq!(app.next_event(), None);
    app.submit(Event::Close(Some("first".to_string())));
    app.submit(Event::Terminal(TermEvent::Mouse));
    assert_eq!(app.next_event(), Some(Event::Close(Some("first".to_string()))));
    assert_eq!(app.next_event(), Some(Event::Terminal(TermEvent::Mouse)));
    assert_eq!(app.next_event(), None);
}

#[test]
fn close_ends_the_loop_with_its_failure() {
    let config = config("A");
    let mut app = Application::new(&config);
    assert_eq!(app.dispatch(Event::Close(None), Supply::Nothing), Flow::Closed(None));
    assert_eq!(
        app.dispatch(Event::Close(Some("terminal lost".to_string())), Supply::Nothing),
        Flow::Closed(Some("terminal lost".to_string()))
    );
    assert!(log(&app).is_empty());
}

#[test]
fn chat_of_a_stranger_is_dropped() {
    let config = config("A");
    let mut app = Application::new(&config);
    app.process_network_message(endpoint(1, 1), NetMessage::HelloUser("B".to_string()));
    let effects = app.process_network_message(endpoint(2, 2), NetMessage::UserMessage("psst".to_string()));
    assert!(effects.is_empty());
    assert!(log(&app).is_empty());
    assert_eq!(app.state().all_user_endpoints(), vec![endpoint(1, 1)]);
}

#[test]
fn chat_of_a_peer_is_logged_under_its_name() {
    let config = config("A");
    let mut app = Application::new(&config);
    app.process_network_message(endpoint(1, 1), NetMessage::HelloUser("B".to_string()));
    let effects = app.process_network_message(endpoint(1, 1), NetMessage::UserMessage("hello".to_string()));
    assert!(effects.is_empty());
    assert_eq!(log(&app), vec![text("B", "hello")]);
}

#[test]
fn stream_end_of_unseen_endpoint_does_nothing() {
    let config = config("A");
    let mut app = Application::new(&config);
    let effects = app.process_network_message(endpoint(1, 1), NetMessage::Stream(None));
    assert!(effects.is_empty());
    assert!(!app.has_window(endpoint(1, 1)));
    assert!(log(&app).is_empty());
}

#[test]
fn frames_open_one_window_and_the_end_closes_it() {
    let config = config("A");
    let mut app = Application::new(&config);
    let peer = endpoint(1, 1);
    let frame = NetMessage::Stream(Some((vec![1, 2, 3, 4, 5, 6], 4, 3)));
    assert!(frame.is_well_sized());
    let effects = app.process_network_message(peer, frame.clone());
    assert_eq!(
        effects,
        vec![
            Effect::OpenWindow { endpoint: peer, width: 2, height: 3 },
            Effect::UpdateWindow { endpoint: peer, buffer: vec![1, 2, 3, 4, 5, 6], width: 2, height: 3 },
        ]
    );
    assert!(app.has_window(peer));
    let effects = app.process_network_message(peer, frame);
    assert_eq!(
        effects,
        vec![Effect::UpdateWindow { endpoint: peer, buffer: vec![1, 2, 3, 4, 5, 6], width: 2, height: 3 }]
    );
    let effects = app.process_network_message(endpoint(2, 2), NetMessage::Stream(None));
    assert!(effects.is_empty());
    assert!(app.has_window(peer));
    let effects = app.process_network_message(peer, NetMessage::Stream(None));
    assert_eq!(effects, vec![Effect::CloseWindow { endpoint: peer }]);
    assert!(!app.has_window(peer));
    assert!(app.process_network_message(peer, NetMessage::Stream(None)).is_empty());
}

#[test]
fn failed_window_is_tried_again() {
    let config = config("A");
    let mut app = Application::new(&config);
    let peer = endpoint(1, 1);
    app.process_network_message(peer, NetMessage::Stream(Some((vec![7], 2, 1))));
    app.window_failed(peer, "no display".to_string());
    assert!(!app.has_window(peer));
    assert_eq!(log(&app), vec![notice("no display", Severity::Error)]);
    let effects = app.process_network_message(peer, NetMessage::Stream(Some((vec![7], 2, 1))));
    assert_eq!(effects.len(), 2);
    assert_eq!(effects[0], Effect::OpenWindow { endpoint: peer, width: 1, height: 1 });
}

#[test]
fn frame_sizes_are_tested() {
    assert!(NetMessage::Stream(Some((vec![0; 6], 4, 3))).is_well_sized());
    assert!(NetMessage::Stream(Some((vec![0; 6], 5, 3))).is_well_sized());
    assert!(!NetMessage::Stream(Some((vec![0; 5], 4, 3))).is_well_sized());
    assert!(!NetMessage::Stream(Some((vec![0; 7], 4, 3))).is_well_sized());
    assert!(NetMessage::Stream(Some((vec![], 1, 3))).is_well_sized());
    assert!(!NetMessage::Stream(Some((vec![0], 1, 3))).is_well_sized());
    assert!(NetMessage::Stream(Some((vec![], 4, 0))).is_well_sized());
    assert!(!NetMessage::Stream(Some((vec![0; 4], usize::MAX, usize::MAX))).is_well_sized());
    assert!(NetMessage::Stream(None).is_well_sized());
    assert!(NetMessage::UserMessage("x".to_string()).is_well_sized());
}

#[test]
fn pixel_counts_are_tested_against_sizes() {
    assert!(fits_frame(6, 4, 3));
    assert!(fits_frame(6, 5, 3));
    assert!(!fits_frame(5, 4, 3));
    assert!(fits_frame(0, 0, 9));
    assert!(!fits_frame(usize::MAX, usize::MAX, 3));
}

#[test]
fn own_announcement_is_ignored() {
    let config = config("A");
    let mut app = Application::new(&config);
    assert_eq!(app.announce(4444), NetMessage::HelloLan("A".to_string(), 4444));
    let effects = app.process_network_message(endpoint(1, 1), NetMessage::HelloLan("A".to_string(), 4444));
    assert!(effects.is_empty());
    assert!(app.state().all_user_endpoints().is_empty());
}

#[test]
fn failed_connection_is_reported() {
    let config = config("A");
    let mut app = Application::new(&config);
    let effects = app.process_network_message(endpoint(9, 77), NetMessage::HelloLan("B".to_string(), 4444));
    assert_eq!(
        effects,
        vec![Effect::Connect {
            addr: SocketAddress { ip: IpAddress::V4(77), port: 4444 },
            user: "B".to_string(),
        }]
    );
    app.report_error("connection refused".to_string());
    assert!(app.state().all_user_endpoints().is_empty());
    assert_eq!(log(&app), vec![notice("connection refused", Severity::Error)]);
    assert_eq!(app.next_event(), None);
}

/// Plays the transport between two nodes: carries out what a node asks
/// for after an announcement of the other.
fn hear_announcement(
    listener: &mut Application,
    listener_host: u32,
    announcer: &mut Application,
    announcer_name: &str,
    announcer_host: u32,
    handle: u64,
) {
    let from = endpoint(0, announcer_host);
    let effects = listener.process_network_message(from, NetMessage::HelloLan(announcer_name.to_string(), 5000));
    assert_eq!(effects.len(), 1);
    let (addr, user) = match &effects[0] {
        Effect::Connect { addr, user } => (*addr, user.clone()),
        other => panic!("unexpected effect {:?}", other),
    };
    assert_eq!(addr, SocketAddress { ip: IpAddress::V4(announcer_host), port: 5000 });
    let outbound = Endpoint { resource_id: handle, addr };
    let effects = listener.peer_reached(outbound, &user);
    assert_eq!(effects.len(), 1);
    let ack = match effects.into_iter().next() {
        Some(Effect::Send { endpoint, message }) => {
            assert_eq!(endpoint, outbound);
            message
        },
        other => panic!("unexpected effect {:?}", other),
    };
    let inbound = endpoint(handle + 100, listener_host);
    assert!(announcer.process_network_message(inbound, ack).is_empty());
}

#[test]
fn two_nodes_find_each_other() {
    let (config_a, config_b) = (config("A"), config("B"));
    let mut a = Application::new(&config_a);
    let mut b = Application::new(&config_b);
    hear_announcement(&mut b, 2, &mut a, "A", 1, 10);
    let at_a = a.state().all_user_endpoints();
    let at_b = b.state().all_user_endpoints();
    assert_eq!(at_a.len(), 1);
    assert_eq!(at_b.len(), 1);
    assert_eq!(a.state().user_name(at_a[0]), Some(&"B".to_string()));
    assert_eq!(b.state().user_name(at_b[0]), Some(&"A".to_string()));
}

#[test]
fn two_nodes_that_both_announce_connect_twice() {
    let (config_a, config_b) = (config("A"), config("B"));
    let mut a = Application::new(&config_a);
    let mut b = Application::new(&config_b);
    hear_announcement(&mut b, 2, &mut a, "A", 1, 10);
    hear_announcement(&mut a, 1, &mut b, "B", 2, 20);
    let at_a = a.state().all_user_endpoints();
    let at_b = b.state().all_user_endpoints();
    assert_eq!(at_a.len(), 2);
    assert_eq!(at_b.len(), 2);
    for e in at_a {
        assert_eq!(a.state().user_name(e), Some(&"B".to_string()));
    }
    for e in at_b {
        assert_eq!(b.state().user_name(e), Some(&"A".to_string()));
    }
}

#[test]
fn lost_peer_leaves_the_directory() {
    let config = config("A");
    let mut app = Application::new(&config);
    app.process_network_message(endpoint(1, 1), NetMessage::HelloUser("B".to_string()));
    app.process_network_message(endpoint(2, 2), NetMessage::HelloUser("C".to_string()));
    let flow = app.dispatch(Event::Network(NetEvent::RemovedEndpoint(endpoint(1, 1))), Supply::Nothing);
    assert_eq!(flow, Flow::Continue(vec![]));
    assert_eq!(app.state().all_user_endpoints(), vec![endpoint(2, 2)]);
    let flow = app.dispatch(Event::Network(NetEvent::AddedEndpoint(endpoint(3, 3))), Supply::Nothing);
    assert_eq!(flow, Flow::Continue(vec![]));
    assert_eq!(app.state().all_user_endpoints(), vec![endpoint(2, 2)]);
    assert!(log(&app).is_empty());
}

#[test]
fn unreadable_message_is_reported() {
    let config = config("A");
    let mut app = Application::new(&config);
    app.process_network_message(endpoint(1, 1), NetMessage::HelloUser("B".to_string()));
    app.submit(Event::Terminal(TermEvent::Mouse));
    let event = Event::Network(NetEvent::DeserializationError(endpoint(3, 3)));
    assert_eq!(app.dispatch(event, Supply::Nothing), Flow::Continue(vec![]));
    assert_eq!(
        log(&app),
        vec![notice("Received a message that could not be read", Severity::Error)]
    );
    assert_eq!(app.state().all_user_endpoints(), vec![endpoint(1, 1)]);
    assert!(!app.has_window(endpoint(3, 3)));
    assert_eq!(app.next_event(), Some(Event::Terminal(TermEvent::Mouse)));
    let event = Event::Network(NetEvent::DeserializationError(endpoint(1, 1)));
    assert_eq!(app.dispatch(event, Supply::Nothing), Flow::Continue(vec![]));
    assert_eq!(log(&app).len(), 2);
    assert_eq!(app.next_event(), None);
}

#[test]
fn entered_line_is_logged_and_sent() {
    let config = config("A");
    let mut app = Application::new(&config);
    app.process_network_message(endpoint(1, 1), NetMessage::HelloUser("B".to_string()));
    assert!(app.process_terminal_event(key(KeyCode::Enter)).is_empty());
    assert!(log(&app).is_empty());
    let effects = enter(&mut app, "hi all");
    assert_eq!(
        effects,
        vec![Effect::Broadcast {
            endpoints: vec![endpoint(1, 1)],
            message: NetMessage::UserMessage("hi all".to_string()),
        }]
    );
    assert_eq!(log(&app), vec![text("A (me)", "hi all")]);
    assert_eq!(input(app.state()), "");
    assert_eq!(app.state().input_cursor(), 0);
}

#[test]
fn send_command_asks_for_the_file() {
    let config = config("A");
    let mut app = Application::new(&config);
    let effects = enter(&mut app, "?send /tmp/x.bin");
    assert_eq!(
        effects,
        vec![
            Effect::Broadcast {
                endpoints: vec![],
                message: NetMessage::UserMessage("?send /tmp/x.bin".to_string()),
            },
            Effect::Launch(Launch::SendFile { path: "/tmp/x.bin".to_string() }),
        ]
    );
    assert_eq!(log(&app), vec![text("A (me)", "?send /tmp/x.bin")]);
}

#[test]
fn refused_command_is_still_sent_as_chat() {
    let config = config("A");
    let mut app = Application::new(&config);
    let effects = enter(&mut app, "?send");
    assert_eq!(
        effects,
        vec![Effect::Broadcast { endpoints: vec![], message: NetMessage::UserMessage("?send".to_string()) }]
    );
    assert_eq!(
        log(&app),
        vec![text("A (me)", "?send"), notice("No file specified", Severity::Error)]
    );
}

#[test]
fn stream_commands_set_the_mode() {
    let config = config("A");
    let mut app = Application::new(&config);
    let effects = enter(&mut app, "?stream");
    assert_eq!(effects.len(), 2);
    assert_eq!(effects[1], Effect::Launch(Launch::SendStream));
    assert_eq!(app.state().mode(), Xstate::Streaming);
    assert!(!app.state().stop_stream());
    let effects = enter(&mut app, "?stopstream");
    assert_eq!(effects.len(), 1);
    assert_eq!(app.state().mode(), Xstate::Idle);
    assert!(!app.state().stop_stream());
    let queued = app.next_event();
    assert_eq!(queued, Some(Event::Action(Task::StopStream(StopStream {}))));
    assert_eq!(app.dispatch(queued.unwrap(), Supply::Nothing), Flow::Continue(vec![]));
    assert!(app.state().stop_stream());
    assert_eq!(app.state().mode(), Xstate::Idle);
    assert_eq!(app.next_event(), None);
}

#[test]
fn audio_command_is_not_known_to_a_node() {
    let config = config("A");
    let mut app = Application::new(&config);
    let effects = enter(&mut app, "?sa");
    assert_eq!(effects.len(), 1);
    assert_eq!(log(&app), vec![text("A (me)", "?sa")]);
}

#[test]
fn keys_edit_the_line_and_scroll() {
    let config = config("A");
    let mut app = Application::new(&config);
    for character in "abcd".chars() {
        app.process_terminal_event(key(KeyCode::Char(character)));
    }
    app.process_terminal_event(key(KeyCode::Left));
    app.process_terminal_event(key(KeyCode::Backspace));
    assert_eq!(input(app.state()), "abd");
    app.process_terminal_event(key(KeyCode::Home));
    app.process_terminal_event(key(KeyCode::Delete));
    assert_eq!(input(app.state()), "bd");
    app.process_terminal_event(key(KeyCode::End));
    assert_eq!(app.state().input_cursor(), 2);
    app.process_terminal_event(key(KeyCode::Home));
    app.process_terminal_event(key(KeyCode::Right));
    assert_eq!(app.state().input_cursor(), 1);
    app.process_terminal_event(key(KeyCode::Down));
    app.process_terminal_event(key(KeyCode::Down));
    app.process_terminal_event(key(KeyCode::Up));
    assert_eq!(app.state().scroll_messages_view(), 1);
    app.process_terminal_event(key(KeyCode::PageUp));
    assert_eq!(app.state().scroll_messages_view(), 0);
    app.process_terminal_event(key(KeyCode::Tab));
    app.process_terminal_event(key(KeyCode::F(1)));
    app.process_terminal_event(TermEvent::Mouse);
    app.process_terminal_event(TermEvent::Resize(10, 10));
    assert_eq!(input(app.state()), "bd");
    assert_eq!(app.next_event(), None);
}

#[test]
fn unfinished_task_is_queued_again() {
    let config = config("A");
    let mut app = Application::new(&config);
    app.submit(Event::Terminal(TermEvent::Mouse));
    let task = Task::SendStream(SendStream::new(4, 2, 1));
    let (effects, processing) = app.process_action(task, Supply::Frame(Ok(vec![5])));
    assert_eq!(processing, Processing::Partial);
    assert_eq!(
        effects,
        vec![Effect::Broadcast { endpoints: vec![], message: NetMessage::Stream(Some((vec![5], 2, 1))) }]
    );
    assert_eq!(app.next_event(), Some(Event::Terminal(TermEvent::Mouse)));
    let again = app.next_event();
    assert_eq!(again, Some(Event::Action(Task::SendStream(SendStream::new(4, 2, 1)))));
    enter(&mut app, "?stopstream");
    let stop = app.next_event().unwrap();
    assert_eq!(app.dispatch(stop, Supply::Nothing), Flow::Continue(vec![]));
    let flow = app.dispatch(again.unwrap(), Supply::Nothing);
    assert_eq!(
        flow,
        Flow::Continue(vec![
            Effect::Broadcast { endpoints: vec![], message: NetMessage::Stream(None) },
            Effect::Release { id: 4 },
        ])
    );
    assert_eq!(app.next_event(), None);
    assert!(!app.state().stop_stream());
}

#[test]
fn transfer_notices_name_peer_and_file() {
    let config = config("A");
    let mut app = Application::new(&config);
    let peer = endpoint(1, 1);
    app.process_network_message(peer, NetMessage::HelloUser("B".to_string()));
    app.process_network_message(peer, NetMessage::UserData("x.bin".to_string(), Chunk::Error));
    app.process_network_message(peer, NetMessage::UserData("x.bin".to_string(), Chunk::End));
    app.process_network_message(peer, NetMessage::UserData("AUDIO".to_string(), Chunk::Stream(vec![1])));
    app.process_network_message(endpoint(2, 2), NetMessage::UserData("x.bin".to_string(), Chunk::End));
    let effects = app.process_network_message(endpoint(2, 2), NetMessage::UserData("x.bin".to_string(), Chunk::Data(vec![1])));
    assert!(effects.is_empty());
    assert_eq!(
        log(&app),
        vec![
            notice("'B' had an error while sending 'x.bin'", Severity::Error),
            notice("Successfully received file 'x.bin' from user 'B'!", Severity::Info),
        ]
    );
}

/// Sends `content` from a node named A to a node named B, block by
/// block, and returns what B was told to write and where.
fn transfer(content: &[u8]) -> (Vec<u8>, Vec<Vec<String>>, usize) {
    let (config_a, config_b) = (config("A"), config("B"));
    let mut a = Application::new(&config_a);
    let mut b = Application::new(&config_b);
    let a_at_b = endpoint(1, 1);
    let b_at_a = endpoint(2, 2);
    a.process_network_message(b_at_a, NetMessage::HelloUser("B".to_string()));
    b.process_network_message(a_at_b, NetMessage::HelloUser("A".to_string()));

    let mut reader = ReadFile::new();
    let mut task = Some(Task::SendFile(SendFile::new(1, "test".to_string())));
    let mut offset = 0;
    let mut written = Vec::new();
    let mut paths = Vec::new();
    let mut data_chunks = 0;
    while let Some(current) = task.take() {
        assert_eq!(reader.phase(), Phase::Ready);
        let end = content.len().min(offset + BLOCK);
        let read = content[offset..end].to_vec();
        offset = end;
        let block = reader.send(1, "test".to_string(), content.len(), Ok(read));
        let (effects, processing) = a.process_action(current, Supply::Block(block));
        for effect in effects {
            match effect {
                Effect::Broadcast { endpoints, message } => {
                    assert_eq!(endpoints, vec![b_at_a]);
                    if let NetMessage::UserData(_, Chunk::Data(_)) = &message {
                        data_chunks += 1;
                    }
                    for effect in b.process_network_message(a_at_b, message) {
                        match effect {
                            Effect::AppendFile { path, data } => {
                                written.extend_from_slice(&data);
                                paths.push(path);
                            },
                            other => panic!("unexpected effect {:?}", other),
                        }
                    }
                },
                Effect::Acknowledge { id } => {
                    assert_eq!(id, 1);
                    reader.acknowledge();
                    assert!(reader.resume());
                },
                Effect::Release { id } => assert_eq!(id, 1),
                other => panic!("unexpected effect {:?}", other),
            }
        }
        if processing == Processing::Partial {
            task = match a.next_event() {
                Some(Event::Action(next)) => Some(next),
                other => panic!("unexpected event {:?}", other),
            };
        }
    }
    assert_eq!(reader.phase(), Phase::Finished);
    assert_eq!(a.next_event(), None);
    assert_eq!(
        log(&b),
        vec![notice("Successfully received file 'test' from user 'A'!", Severity::Info)]
    );
    (written, paths, data_chunks)
}

#[test]
fn send_file() {
    let mut seed: u32 = 12345;
    let content: Vec<u8> = (0..1_000_000)
        .map(|_| {
            seed = seed.wrapping_mul(1_664_525).wrapping_add(1_013_904_223);
            (seed >> 24) as u8
        })
        .collect();
    let (written, paths, data_chunks) = transfer(&content);
    assert_eq!(content.len(), written.len());
    assert_eq!(content, written);
    assert_eq!(data_chunks, 16);
    for path in paths {
        assert_eq!(path, vec!["termchat".to_string(), "A".to_string(), "test".to_string()]);
    }
}

#[test]
fn file_of_one_block_arrives() {
    let content = vec![42u8; BLOCK];
    let (written, paths, data_chunks) = transfer(&content);
    assert_eq!(written, content);
    assert_eq!(paths.len(), 1);
    assert_eq!(data_chunks, 1);
}

#[test]
fn empty_file_sends_the_end_alone() {
    let (written, paths, data_chunks) = transfer(&[]);
    assert!(written.is_empty());
    assert!(paths.is_empty());
    assert_eq!(data_chunks, 0);
}
