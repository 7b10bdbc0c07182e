use termchat::action::{Demand, Effect, Processing, Supply};
use termchat::commands::send_audio::SendAudio;
use termchat::commands::send_file::SendFile;
use termchat::commands::send_stream::{SendStream, StopStream};
use termchat::message::{Chunk, NetMessage};
use termchat::read_event::{Chunk as Block, Phase, ReadFile, BLOCK};
use termchat::state::{
    ChatMessage, Endpoint, IpAddress, MessageType, Severity, SocketAddress, State,
};
use termchat::task::Task;

fn endpoint(id: u64) -> Endpoint {
    Endpoint { resource_id: id, addr: SocketAddress { ip: IpAddress::V4(7), port: 9 } }
}

fn state_with_peers() -> State {
    let mut state = State::new();
    state.connected_user(endpoint(1), "ann");
    state.connected_user(endpoint(2), "bob");
    state
}

fn block(data: Vec<u8>) -> Block {
    Block { id: 3, file_name: "a.bin".to_string(), bytes_read: data.len(), data, file_size: 10 }
}

fn broadcast(message: NetMessage) -> Effect {
    Effect::Broadcast { endpoints: vec![endpoint(1), endpoint(2)], message }
}

fn error_notice(text: &str) -> ChatMessage {
    ChatMessage {
        user: "termchat".to_string(),
        message_type: MessageType::System(text.to_string(), Severity::Error),
    }
}

#[test]
fn file_block_is_sent_and_acknowledged() {
    let mut state = state_with_peers();
    let mut task = SendFile::new(3, "a.bin".to_string());
    let (effects, processing) = task.process(&mut state, Ok(block(vec![1, 2, 3])));
    assert_eq!(processing, Processing::Partial);
    assert_eq!(
        effects,
        vec![
            broadcast(NetMessage::UserData("a.bin".to_string(), Chunk::Data(vec![1, 2, 3]))),
            Effect::Acknowledge { id: 3 },
        ]
    );
    assert!(state.messages().is_empty());
}

#[test]
fn empty_block_ends_the_transfer() {
    let mut state = state_with_peers();
    let mut task = SendFile::new(3, "a.bin".to_string());
    let (effects, processing) = task.process(&mut state, Ok(block(vec![])));
    assert_eq!(processing, Processing::Completed);
    assert_eq!(
        effects,
        vec![
            broadcast(NetMessage::UserData("a.bin".to_string(), Chunk::End)),
            Effect::Release { id: 3 },
        ]
    );
    assert!(state.messages().is_empty());
}

#[test]
fn failed_read_ends_the_transfer() {
    let mut state = state_with_peers();
    let mut task = SendFile::new(3, "a.bin".to_string());
    let (effects, processing) = task.process(&mut state, Err("no such file".to_string()));
    assert_eq!(processing, Processing::Completed);
    assert_eq!(
        effects,
        vec![
            broadcast(NetMessage::UserData("a.bin".to_string(), Chunk::Error)),
            Effect::Release { id: 3 },
        ]
    );
    assert_eq!(state.messages(), &vec![error_notice("no such file")]);
}

#[test]
fn frame_is_sent_with_its_size() {
    let mut state = state_with_peers();
    let mut task = SendStream::new(5, 4, 2);
    let (effects, processing) = task.process(&mut state, Some(Ok(vec![10, 20, 30, 40])));
    assert_eq!(processing, Processing::Partial);
    assert_eq!(effects, vec![broadcast(NetMessage::Stream(Some((vec![10, 20, 30, 40], 4, 2))))]);
    assert!(!state.stop_stream());
}

#[test]
fn stop_flag_ends_the_stream() {
    let mut state = state_with_peers();
    state.set_stop_stream(true);
    let mut task = SendStream::new(5, 4, 2);
    let (effects, processing) = task.process(&mut state, None);
    assert_eq!(processing, Processing::Completed);
    assert_eq!(effects, vec![broadcast(NetMessage::Stream(None)), Effect::Release { id: 5 }]);
    assert!(!state.stop_stream());
    assert!(state.messages().is_empty());
}

#[test]
fn stop_flag_wins_over_a_frame() {
    let mut state = state_with_peers();
    state.set_stop_stream(true);
    let mut task = SendStream::new(5, 4, 2);
    let (effects, processing) = task.process(&mut state, Some(Ok(vec![1, 2, 3, 4])));
    assert_eq!(processing, Processing::Completed);
    assert_eq!(effects, vec![broadcast(NetMessage::Stream(None)), Effect::Release { id: 5 }]);
}

#[test]
fn failed_capture_ends_the_stream() {
    let mut state = state_with_peers();
    let mut task = SendStream::new(5, 4, 2);
    let (effects, processing) = task.process(&mut state, Some(Err("camera gone".to_string())));
    assert_eq!(processing, Processing::Completed);
    assert_eq!(effects, vec![broadcast(NetMessage::Stream(None)), Effect::Release { id: 5 }]);
    assert_eq!(state.messages(), &vec![error_notice("camera gone")]);
}

#[test]
fn stop_task_sets_the_flag() {
    let mut state = State::new();
    let mut task = StopStream {};
    assert_eq!(task.process(&mut state), Processing::Completed);
    assert!(state.stop_stream());
}

#[test]
fn audio_goes_out_as_raw_chunk() {
    let mut state = state_with_peers();
    let mut task = SendAudio::new(8);
    let (effects, processing) = task.process(&mut state, vec![9, 8, 7]);
    assert_eq!(processing, Processing::Partial);
    assert_eq!(
        effects,
        vec![broadcast(NetMessage::UserData("AUDIO".to_string(), Chunk::Stream(vec![9, 8, 7])))]
    );
}

#[test]
fn tasks_say_what_they_need() {
    let mut state = State::new();
    assert_eq!(Task::SendFile(SendFile::new(1, "f".to_string())).demand(&state), Demand::Block);
    assert_eq!(Task::SendAudio(SendAudio::new(1)).demand(&state), Demand::Audio);
    assert_eq!(Task::StopStream(StopStream {}).demand(&state), Demand::Nothing);
    assert_eq!(Task::SendStream(SendStream::new(1, 2, 2)).demand(&state), Demand::Frame);
    state.set_stop_stream(true);
    assert_eq!(Task::SendStream(SendStream::new(1, 2, 2)).demand(&state), Demand::Nothing);
}

#[test]
fn frames_have_the_size_of_their_stream() {
    let stream = SendStream::new(1, 640, 480);
    assert!(stream.is_frame(320 * 480));
    assert!(!stream.is_frame(640 * 480));
    assert!(!stream.is_frame(0));
    assert!(SendStream::new(1, 5, 3).is_frame(6));
    assert!(SendStream::new(1, 1, 3).is_frame(0));
    assert!(SendStream::new(1, usize::MAX, 1).is_frame(usize::MAX / 2));
    assert!(!SendStream::new(1, usize::MAX, usize::MAX).is_frame(1));
    let task = Task::SendStream(SendStream::new(1, 4, 2));
    assert!(task.takes(&Supply::Frame(Ok(vec![0; 4]))));
    assert!(!task.takes(&Supply::Frame(Ok(vec![0; 5]))));
    assert!(task.takes(&Supply::Frame(Err("x".to_string()))));
    assert!(task.takes(&Supply::Nothing));
    assert!(Task::SendAudio(SendAudio::new(1)).takes(&Supply::Audio(vec![0; 5])));
}

#[test]
fn sent_frames_pass_the_receiver() {
    let mut state = state_with_peers();
    let mut task = SendStream::new(5, 6, 2);
    let (effects, _) = task.process(&mut state, Some(Ok(vec![1, 2, 3, 4, 5, 6])));
    match &effects[0] {
        Effect::Broadcast { message, .. } => assert!(message.is_well_sized()),
        other => panic!("unexpected effect {:?}", other),
    }
}

#[test]
fn supplies_answer_demands() {
    let all = [Demand::Nothing, Demand::Block, Demand::Frame, Demand::Audio];
    let supplies = [
        Supply::Nothing,
        Supply::Block(Err("x".to_string())),
        Supply::Frame(Ok(vec![1])),
        Supply::Audio(vec![]),
    ];
    for (i, supply) in supplies.iter().enumerate() {
        for (j, demand) in all.iter().enumerate() {
            assert_eq!(supply.fits(*demand), i == j);
        }
    }
}

#[test]
fn resource_is_released_once_by_the_last_step() {
    let mut state = state_with_peers();
    let mut task = Task::SendFile(SendFile::new(3, "a.bin".to_string()));
    let mut releases = 0;
    let mut steps = 0;
    let blocks = vec![vec![1u8; 4], vec![2u8; 4], vec![3u8; 2], vec![]];
    for data in blocks {
        let (effects, processing) = task.process(&mut state, Supply::Block(Ok(block(data))));
        steps += 1;
        let here = effects.iter().filter(|e| **e == Effect::Release { id: 3 }).count();
        releases += here;
        match processing {
            Processing::Partial => assert_eq!(here, 0),
            Processing::Completed => {
                assert_eq!(here, 1);
                break;
            },
        }
    }
    assert_eq!(steps, 4);
    assert_eq!(releases, 1);
}

#[test]
fn stream_releases_once_when_stopped() {
    let mut state = state_with_peers();
    let mut task = Task::SendStream(SendStream::new(5, 2, 1));
    let mut releases = 0;
    for round in 0..5 {
        if round == 3 {
            Task::StopStream(StopStream {}).process(&mut state, Supply::Nothing);
        }
        let supply = match task.demand(&state) {
            Demand::Frame => Supply::Frame(Ok(vec![round])),
            _ => Supply::Nothing,
        };
        let (effects, processing) = task.process(&mut state, supply);
        releases += effects.iter().filter(|e| **e == Effect::Release { id: 5 }).count();
        if processing == Processing::Completed {
            assert_eq!(round, 3);
            break;
        }
    }
    assert_eq!(releases, 1);
    assert!(!state.stop_stream());
}

#[test]
fn reader_cuts_no_corners() {
    let mut reader = ReadFile::new();
    assert_eq!(reader.send(1, "f".to_string(), 0, Ok(vec![])).unwrap().bytes_read, 0);
    assert_eq!(reader.phase(), Phase::Finished);
    reader.acknowledge();
    assert!(!reader.resume());
}

#[test]
fn reader_passes_a_failure_on() {
    let mut reader = ReadFile::new();
    assert_eq!(reader.send(1, "f".to_string(), 0, Err("denied".to_string())), Err("denied".to_string()));
    assert_eq!(reader.phase(), Phase::Finished);
    assert!(!reader.resume());
}

#[test]
fn closing_lets_a_waiting_reader_go() {
    let mut reader = ReadFile::new();
    reader.send(1, "f".to_string(), 9, Ok(vec![1, 2, 3])).unwrap();
    assert_eq!(reader.phase(), Phase::Waiting);
    reader.close();
    assert_eq!(reader.phase(), Phase::Finished);
    reader.acknowledge();
    assert!(!reader.resume());
    assert_eq!(reader.phase(), Phase::Finished);
}

#[test]
fn reader_has_one_block_in_flight() {
    let mut reader = ReadFile::new();
    let mut produced = 0;
    let mut acknowledged = 0;
    for round in 0..10 {
        if reader.phase() == Phase::Ready {
            reader.send(1, "f".to_string(), 100, Ok(vec![round; 10])).unwrap();
            produced += 1;
        }
        assert!(produced <= acknowledged + 1);
        if round % 3 == 0 {
            reader.acknowledge();
            acknowledged += 1;
        }
        reader.resume();
        assert!(produced <= acknowledged + 1);
    }
    assert_eq!(acknowledged, 4);
    assert_eq!(produced, 4);
}

#[test]
fn block_size_is_64_kib() {
    assert_eq!(BLOCK, 65536);
}

#[test]
fn reader_hands_out_a_full_block() {
    let mut reader = ReadFile::new();
    let chunk = reader.send(1, "f".to_string(), 1 << 20, Ok(vec![7; BLOCK])).unwrap();
    assert_eq!(chunk.bytes_read, BLOCK);
    assert_eq!(chunk.data.len(), BLOCK);
    assert_eq!(chunk.file_size, 1 << 20);
    assert_eq!(reader.phase(), Phase::Waiting);
}
