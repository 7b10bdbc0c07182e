//! What holds of every step of a node.

use vstd::prelude::*;
use crate::action::{EffectView, SupplyView};
use crate::application::steps::{
    close_requested, dispatch_step, network_step, own_label, reached_step, terminal_step,
    transfer_done_text, transfer_failed_text, unreadable_text,
};
use crate::application::{ApplicationView, Event, Flow, NetEvent};
use crate::commands::{chosen, parameters, CommandKind};
use crate::message::{ChunkView, NetMessageView};
use crate::state::{notice, text_message, ChatMessageView, Endpoint, Severity, SocketAddress};
use crate::task::Task;
use crate::terminal_events::{KeyCode, KeyEvent, TermEvent};

verus! {

/// A request to close that the terminal makes is served before
/// everything that was queued in the ordinary way, however much that is:
/// after Escape or control-C the next event that the loop is given is a
/// request to close.
pub proof fn lemma_close_overtakes(
    before: ApplicationView,
    key: KeyEvent,
    after: ApplicationView,
    effects: Seq<EffectView>,
)
    requires
        before.urgent_closes(),
        key.code == KeyCode::Esc || (key.code == KeyCode::Char('c') && key.modifiers.control),
        terminal_step(before, TermEvent::Key(key), after, effects),
    ensures
        after.next() is Some,
        after.next()->0 is Close,
        before.urgent.len() == 0 ==> after.next() == Some(Event::Close(None)),
        after.ordinary == before.ordinary,
{
    assert(after == close_requested(before));
    if before.urgent.len() > 0 {
        assert(after.urgent[0] == before.urgent[0]);
    }
}

/// A line of chat from an endpoint that is not in the directory is
/// dropped: nothing is logged, nothing else changes, and nothing is left
/// to do.
pub proof fn lemma_chat_of_stranger_dropped(
    before: ApplicationView,
    endpoint: Endpoint,
    text: Seq<char>,
    after: ApplicationView,
    effects: Seq<EffectView>,
)
    requires
        !before.state.users.dom().contains(endpoint),
        network_step(before, endpoint, NetMessageView::UserMessage(text), after, effects),
    ensures
        after == before,
        after.state.messages == before.state.messages,
        effects.len() == 0,
{
}

/// The end of a stream from an endpoint that has no window changes
/// nothing and leaves nothing to do: no window is opened, none is closed.
/// From an endpoint that has a window it closes that window, and the
/// endpoint has none afterwards.
pub proof fn lemma_stream_end(
    before: ApplicationView,
    endpoint: Endpoint,
    after: ApplicationView,
    effects: Seq<EffectView>,
)
    requires
        network_step(before, endpoint, NetMessageView::Stream(None), after, effects),
    ensures
        !before.windows.contains(endpoint) ==> after == before && effects.len() == 0,
        before.windows.contains(endpoint) ==> effects == seq![EffectView::CloseWindow { endpoint }],
        !after.windows.contains(endpoint),
        forall|other: Endpoint|
            other != endpoint ==> (after.windows.contains(other) <==> before.windows.contains(
                other,
            )),
        after.state == before.state,
{
    if !before.windows.contains(endpoint) {
        assert(before.windows.remove(endpoint) =~= before.windows);
    }
}

/// The handshake of two nodes of different names. One node hears the
/// announcement of the other, is connected to it as `outbound` and
/// answers; the other gets the answer from `inbound`. Then each has the
/// other in its directory, under the other's name, and two nodes that
/// knew nobody before know just each other.
pub proof fn lemma_handshake(
    listener: ApplicationView,
    announcer: ApplicationView,
    from: Endpoint,
    port: u16,
    outbound: Endpoint,
    inbound: Endpoint,
    heard: ApplicationView,
    asked: Seq<EffectView>,
    answered: ApplicationView,
    answer: Seq<EffectView>,
    known: ApplicationView,
    left: Seq<EffectView>,
)
    requires
        listener.user_name != announcer.user_name,
        network_step(
            listener,
            from,
            NetMessageView::HelloLan(announcer.user_name, port),
            heard,
            asked,
        ),
        reached_step(heard, outbound, announcer.user_name, answered, answer),
        answer[0] matches EffectView::Send { message, .. } && network_step(
            announcer,
            inbound,
            message,
            known,
            left,
        ),
    ensures
        asked == seq![
            EffectView::Connect {
                addr: SocketAddress { ip: from.addr.ip, port },
                user: announcer.user_name,
            },
        ],
        answered.state.users == listener.state.users.insert(outbound, announcer.user_name),
        known.state.users == announcer.state.users.insert(inbound, listener.user_name),
        left.len() == 0,
        listener.state.users == Map::<Endpoint, Seq<char>>::empty() ==> answered.state.users
            == map![outbound => announcer.user_name],
        announcer.state.users == Map::<Endpoint, Seq<char>>::empty() ==> known.state.users
            == map![inbound => listener.user_name],
{
    if listener.state.users == Map::<Endpoint, Seq<char>>::empty() {
        assert(answered.state.users =~= map![outbound => announcer.user_name]);
    }
    if announcer.state.users == Map::<Endpoint, Seq<char>>::empty() {
        assert(known.state.users =~= map![inbound => listener.user_name]);
    }
}

/// The chat log only grows: whatever event the loop works on, the
/// entries that were in the log stay as they were, in their places.
pub proof fn lemma_log_only_grows(
    before: ApplicationView,
    event: Event,
    supply: SupplyView,
    after: ApplicationView,
    flow: Flow,
)
    requires
        dispatch_step(before, event, supply, after, flow),
    ensures
        before.state.messages.is_prefix_of(after.state.messages),
{
    let old_log = before.state.messages;
    let new_log = after.state.messages;
    assert(new_log == old_log || (exists|a: ChatMessageView| new_log == old_log.push(a)) || (
    exists|a: ChatMessageView, b: ChatMessageView| new_log == old_log.push(a).push(b))) by {
        match event {
            Event::Network(NetEvent::DeserializationError(_)) => {
                assert(new_log == old_log.push(notice(unreadable_text(), Severity::Error)));
            },
            Event::Network(NetEvent::Message(endpoint, message)) => {
                match message@ {
                    NetMessageView::UserMessage(text) => {
                        if before.state.users.dom().contains(endpoint) {
                            assert(new_log == old_log.push(
                                text_message(before.state.users[endpoint], text),
                            ));
                        }
                    },
                    NetMessageView::UserData(file_name, chunk) => {
                        if before.state.users.dom().contains(endpoint) {
                            let user = before.state.users[endpoint];
                            match chunk {
                                ChunkView::Error => {
                                    assert(new_log == old_log.push(
                                        notice(
                                            transfer_failed_text(user, file_name),
                                            Severity::Error,
                                        ),
                                    ));
                                },
                                ChunkView::End => {
                                    assert(new_log == old_log.push(
                                        notice(transfer_done_text(user, file_name), Severity::Info),
                                    ));
                                },
                                _ => {},
                            }
                        }
                    },
                    _ => {},
                }
            },
            Event::Terminal(TermEvent::Key(key)) => {
                if key.code == KeyCode::Enter && before.state.input.len() > 0 {
                    let line = before.state.input;
                    let said = text_message(own_label(before.user_name), line);
                    if chosen(before.commands, line) == Some(CommandKind::SendFile) && parameters(
                        line,
                    ).len() == 0 {
                        assert(new_log == old_log.push(said).push(
                            notice("No file specified"@, Severity::Error),
                        ));
                    } else {
                        assert(new_log == old_log.push(said));
                    }
                }
            },
            Event::Action(task) => {
                match task {
                    Task::SendFile(_) => {
                        if after.ordinary.len() <= before.ordinary.len() && new_log != old_log {
                            let reason = supply->Block_0->Err_0;
                            assert(new_log == old_log.push(notice(reason, Severity::Error)));
                        }
                    },
                    Task::SendStream(_) => {
                        if !before.state.stop_stream && new_log != old_log {
                            let reason = supply->Frame_0->Err_0;
                            assert(new_log == old_log.push(notice(reason, Severity::Error)));
                        }
                    },
                    _ => {},
                }
            },
            _ => {},
        }
    }
}

/// While the loop works on an event, an endpoint enters the directory
/// only if the event is the answer of that endpoint to an announcement:
/// whatever other event the loop works on, no endpoint is in the
/// directory afterwards that was not in it before. (The node that
/// answers enters its peer when their connection is made.)
pub proof fn lemma_directory_only_grows_by_answer(
    before: ApplicationView,
    event: Event,
    supply: SupplyView,
    after: ApplicationView,
    flow: Flow,
    endpoint: Endpoint,
)
    requires
        dispatch_step(before, event, supply, after, flow),
        after.state.users.dom().contains(endpoint),
        !before.state.users.dom().contains(endpoint),
    ensures
        event matches Event::Network(NetEvent::Message(from, message)) && from == endpoint
            && message is HelloUser,
{
}

} // verus!
