//! What a session does over a whole sequence of events.

use vstd::prelude::*;
use crate::action::ActionView;
use crate::codec::{FrameView, decode_error_text, decoded};
use crate::dispatch::{EffectResultView, EffectView, planned};
use crate::session::{
    CommandView, EventView, SessionView, Turn, acknowledgement, stepped,
};

verus! {

/// The state after a sequence of events, taken one after the other, and all
/// the commands they called for, in their order.
pub open spec fn ran(session: SessionView, events: Seq<EventView>) -> Turn
    decreases events.len(),
{
    if events.len() == 0 {
        (session, Seq::empty())
    } else {
        let (next, commands) = stepped(session, events[0]);
        let (last, more) = ran(next, events.drop_first());
        (last, commands + more)
    }
}

/// A text frame with this payload, as an event.
pub open spec fn text_frame(payload: Seq<char>) -> EventView {
    EventView::Frame(FrameView::Text(payload))
}

/// So many operations reported as performed.
pub open spec fn all_done(count: nat) -> Seq<EventView> {
    Seq::new(count, |i: int| EventView::Performed(EffectResultView::Done))
}

/// The commands that ask for these operations, one for one.
pub open spec fn performs(effects: Seq<EffectView>) -> Seq<CommandView> {
    Seq::new(effects.len(), |i: int| CommandView::Perform(effects[i]))
}

/// The commands that end a message: the text for the client, then the wait
/// for the next frame.
pub open spec fn answered(text: Seq<char>) -> Seq<CommandView> {
    seq![CommandView::Send(text), CommandView::Receive]
}

/// Running over two sequences of events in a row is running over the first
/// and going on, from where that ends, over the second.
pub proof fn lemma_run_in_parts(session: SessionView, first: Seq<EventView>, second: Seq<EventView>)
    ensures
        ran(session, first + second) == (
            ran(ran(session, first).0, second).0,
            ran(session, first).1 + ran(ran(session, first).0, second).1,
        ),
    decreases first.len(),
{
    if first.len() == 0 {
        assert(first + second =~= second);
        assert(Seq::<CommandView>::empty() + ran(session, second).1 =~= ran(session, second).1);
    } else {
        let (next, commands) = stepped(session, first[0]);
        assert((first + second)[0] == first[0]);
        assert((first + second).drop_first() =~= first.drop_first() + second);
        lemma_run_in_parts(next, first.drop_first(), second);
        let rest = ran(next, first.drop_first());
        let tail = ran(rest.0, second);
        assert(commands + (rest.1 + tail.1) =~= (commands + rest.1) + tail.1);
    }
}

/// The operations that wait are performed in their order. When each is
/// reported as done, the session asks for the next, and after the last it
/// acknowledges the action and waits for the next frame.
pub proof fn lemma_pending_run_in_order(pending: Seq<EffectView>)
    ensures
        ran(SessionView::Busy { pending }, all_done(pending.len() + 1)) == (
            SessionView::Idle,
            performs(pending) + answered(acknowledgement()),
        ),
    decreases pending.len(),
{
    let events = all_done(pending.len() + 1);
    let (next, commands) = stepped(SessionView::Busy { pending }, events[0]);
    assert(events[0] == EventView::Performed(EffectResultView::Done));
    if pending.len() == 0 {
        assert(events.drop_first().len() == 0);
        assert(next == SessionView::Idle);
        assert(ran(next, events.drop_first()) == (next, Seq::<CommandView>::empty()));
        assert(commands =~= answered(acknowledgement()));
        assert(commands + Seq::<CommandView>::empty() =~= performs(pending) + answered(
            acknowledgement(),
        ));
    } else {
        let rest = pending.drop_first();
        lemma_pending_run_in_order(rest);
        assert(events.drop_first() =~= all_done(rest.len() + 1));
        assert(next == SessionView::Busy { pending: rest });
        assert(commands =~= seq![CommandView::Perform(pending[0])]);
        assert(commands + (performs(rest) + answered(acknowledgement())) =~= performs(pending)
            + answered(acknowledgement()));
    }
}

/// A message that decodes to an action whose operations all succeed: the
/// operations that the action asks for are performed, each once and in their
/// order, then the action is acknowledged, and the session waits for the next
/// frame.
pub proof fn lemma_message_is_carried_out(payload: Seq<char>)
    requires
        decoded(payload) is Ok,
        planned(decoded(payload)->Ok_0) is Ok,
    ensures
        ran(
            SessionView::Idle,
            seq![text_frame(payload)] + all_done(planned(decoded(payload)->Ok_0)->Ok_0.len()),
        ) == (
            SessionView::Idle,
            performs(planned(decoded(payload)->Ok_0)->Ok_0) + answered(acknowledgement()),
        ),
{
    let effects = planned(decoded(payload)->Ok_0)->Ok_0;
    crate::dispatch::lemma_plan_is_short(decoded(payload)->Ok_0);
    let events = seq![text_frame(payload)] + all_done(effects.len());
    let rest = effects.drop_first();
    assert(events[0] == text_frame(payload));
    assert(events.drop_first() =~= all_done(rest.len() + 1));
    lemma_pending_run_in_order(rest);
    assert(seq![CommandView::Perform(effects[0])] + (performs(rest) + answered(
        acknowledgement(),
    )) =~= performs(effects) + answered(acknowledgement()));
}

/// A malformed message between two good ones. The session takes the three in
/// their order and is active after each: the first is carried out and
/// acknowledged, the second is answered with the reason for which it was
/// refused and nothing is performed for it, and the third is carried out and
/// acknowledged as if nothing had gone wrong before it.
pub proof fn lemma_malformed_between_valid(first: Seq<char>, bad: Seq<char>, last: Seq<char>)
    requires
        decoded(first) is Ok,
        planned(decoded(first)->Ok_0) is Ok,
        decoded(bad) is Err,
        decoded(last) is Ok,
        planned(decoded(last)->Ok_0) is Ok,
    ensures
        ran(
            SessionView::Idle,
            (seq![text_frame(first)] + all_done(planned(decoded(first)->Ok_0)->Ok_0.len()))
                + seq![text_frame(bad)] + (seq![text_frame(last)] + all_done(
                planned(decoded(last)->Ok_0)->Ok_0.len(),
            )),
        ) == (
            SessionView::Idle,
            (performs(planned(decoded(first)->Ok_0)->Ok_0) + answered(acknowledgement()))
                + answered(decode_error_text(decoded(bad)->Err_0)) + (performs(
                planned(decoded(last)->Ok_0)->Ok_0,
            ) + answered(acknowledgement())),
        ),
{
    let one = seq![text_frame(first)] + all_done(planned(decoded(first)->Ok_0)->Ok_0.len());
    let two = seq![text_frame(bad)];
    let three = seq![text_frame(last)] + all_done(planned(decoded(last)->Ok_0)->Ok_0.len());
    lemma_message_is_carried_out(first);
    lemma_message_is_carried_out(last);
    assert(ran(SessionView::Idle, two) == (
        SessionView::Idle,
        answered(decode_error_text(decoded(bad)->Err_0)),
    )) by {
        assert(two.drop_first().len() == 0);
        let (next, commands) = stepped(SessionView::Idle, two[0]);
        assert(two[0] == text_frame(bad));
        assert(next == SessionView::Idle);
        assert(ran(next, two.drop_first()) == (next, Seq::<CommandView>::empty()));
        assert(commands =~= answered(decode_error_text(decoded(bad)->Err_0)));
        assert(commands + Seq::<CommandView>::empty() =~= commands);
    }
    lemma_run_in_parts(SessionView::Idle, one, two);
    lemma_run_in_parts(SessionView::Idle, one + two, three);
}

} // verus!
