//! The queue of events that the loop of a node takes its work from.
//!
//! The queue is the one of `message_io`. It holds two lines of events: a
//! line of urgent events and a line of ordinary ones. Each line is served
//! first come, first served, and the urgent line is served first.

use vstd::prelude::*;
use message_io::events::EventReceiver;
use crate::application::Event;

verus! {

/// `EventReceiver` of `message_io`, the receiving end of the queue, which
/// holds a sender to itself. Nothing is known of what is inside it but
/// what the names below say.
#[verifier::external_type_specification]
#[verifier::external_body]
#[verifier::reject_recursive_types(E)]
pub struct ExEventReceiver<E>(EventReceiver<E>);

/// The events that were sent to the queue with priority and not yet
/// received, oldest first.
pub uninterp spec fn urgent(queue: &EventReceiver<Event>) -> Seq<Event>;

/// The events that were sent to the queue in the ordinary way and not yet
/// received, oldest first.
pub uninterp spec fn ordinary(queue: &EventReceiver<Event>) -> Seq<Event>;

/// The events that were sent to the queue with a timer and not yet
/// received. The functions of this module send none.
pub uninterp spec fn timed(queue: &EventReceiver<Event>) -> Seq<Event>;

/// `EventReceiver::default` of `message_io`: a queue with its three
/// channels, all of them empty.
#[verifier::external_body]
pub(crate) fn queue_new() -> (queue: EventReceiver<Event>)
    ensures
        urgent(&queue) == Seq::<Event>::empty(),
        ordinary(&queue) == Seq::<Event>::empty(),
        timed(&queue) == Seq::<Event>::empty(),
{
    EventReceiver::default()
}

/// `EventSender::send` of `message_io`, on the sender that the queue
/// holds itself: the event goes to the end of the ordinary line. The
/// channel behind it has no bound, so the call does not wait.
#[verifier::external_body]
pub(crate) fn queue_send(queue: &mut EventReceiver<Event>, event: Event)
    ensures
        urgent(final(queue)) == urgent(old(queue)),
        ordinary(final(queue)) == ordinary(old(queue)).push(event),
        timed(final(queue)) == timed(old(queue)),
{
    queue.sender().send(event)
}

/// `EventSender::send_with_priority` of `message_io`, on the sender that
/// the queue holds itself: the event goes to the end of the urgent line.
#[verifier::external_body]
pub(crate) fn queue_send_with_priority(queue: &mut EventReceiver<Event>, event: Event)
    ensures
        urgent(final(queue)) == urgent(old(queue)).push(event),
        ordinary(final(queue)) == ordinary(old(queue)),
        timed(final(queue)) == timed(old(queue)),
{
    queue.sender().send_with_priority(event)
}

/// `EventReceiver::try_receive` of `message_io`, which does not wait: it
/// takes the oldest urgent event; if there is none and no timed event is
/// held, the oldest ordinary event; and `None` if there is none either.
#[verifier::external_body]
pub(crate) fn queue_try_receive(queue: &mut EventReceiver<Event>) -> (event: Option<Event>)
    requires
        timed(old(queue)).len() == 0,
    ensures
        timed(final(queue)) == timed(old(queue)),
        urgent(old(queue)).len() > 0 ==> event == Some(urgent(old(queue))[0]) && urgent(
            final(queue),
        ) == urgent(old(queue)).skip(1) && ordinary(final(queue)) == ordinary(old(queue)),
        urgent(old(queue)).len() == 0 && ordinary(old(queue)).len() > 0 ==> event == Some(
            ordinary(old(queue))[0],
        ) && ordinary(final(queue)) == ordinary(old(queue)).skip(1) && urgent(final(queue))
            == urgent(old(queue)),
        urgent(old(queue)).len() == 0 && ordinary(old(queue)).len() == 0 ==> event is None
            && ordinary(final(queue)) == ordinary(old(queue)) && urgent(final(queue)) == urgent(
            old(queue),
        ),
{
    queue.try_receive()
}

} // verus!
