//! What holds of the chat view's state machine over whole runs of events.

use vstd::prelude::*;
use crate::chat::{
    inbound, initial_state, received, received_all, toggled, ChatState, Inbound,
};
use crate::codec::ChatMessage;

verus! {

/// The message that a frame adds to the history, if it adds one.
pub open spec fn message_in(frame: Seq<char>) -> Option<ChatMessage> {
    match inbound(frame) {
        Ok(Inbound::Said(message)) => Some(message),
        _ => None,
    }
}

/// The messages that a run of frames adds to the history, in the order in
/// which the frames came.
pub open spec fn said(frames: Seq<Seq<char>>) -> Seq<ChatMessage> {
    frames.filter_map(|frame: Seq<char>| message_in(frame))
}

/// A run of frames that is taken in two parts gives the state that it gives
/// when taken at once.
pub proof fn lemma_received_all_append(
    state: ChatState,
    before: Seq<Seq<char>>,
    after: Seq<Seq<char>>,
)
    ensures
        received_all(state, before + after) == received_all(
            received_all(state, before),
            after,
        ),
    decreases after.len(),
{
    if after.len() == 0 {
        assert(before + after =~= before);
    } else {
        lemma_received_all_append(state, before, after.drop_last());
        assert((before + after).drop_last() =~= before + after.drop_last());
        assert((before + after).last() == after.last());
    }
}

/// After any run of inbound frames the last of which is a `users` envelope,
/// the roster is what this last envelope lists, in its order and with its
/// repetitions, whatever the roster held before and whatever the earlier
/// frames were: the roster is replaced, never merged.
pub proof fn lemma_roster_is_last_listing(
    state: ChatState,
    frames: Seq<Seq<char>>,
    names: Seq<Seq<char>>,
)
    requires
        frames.len() > 0,
        inbound(frames.last()) == Ok::<Inbound, crate::chat::ProtocolError>(Inbound::Roster(names)),
    ensures
        received_all(state, frames).roster == names,
{
}

/// A run of inbound frames appends to the history the messages of its valid
/// `message` envelopes, one for each, in the order of arrival, and nothing
/// else: `users` envelopes between them, frames that are dropped and
/// envelopes of other kinds leave the history as it is.
pub proof fn lemma_history_collects_messages(state: ChatState, frames: Seq<Seq<char>>)
    ensures
        received_all(state, frames).history == state.history + said(frames),
    decreases frames.len(),
{
    if frames.len() == 0 {
        assert(state.history + said(frames) =~= state.history);
    } else {
        lemma_history_collects_messages(state, frames.drop_last());
        let earlier = received_all(state, frames.drop_last());
        match message_in(frames.last()) {
            Some(message) => {
                assert(said(frames) == said(frames.drop_last()) + seq![message]);
                assert(earlier.history.push(message) =~= state.history + said(frames));
            },
            None => {
                assert(said(frames) == said(frames.drop_last()));
            },
        }
    }
}

/// The history grows by as many messages as the run holds valid `message`
/// envelopes, whatever else the run holds; from the initial state its length
/// is their number.
pub proof fn lemma_history_counts_messages(state: ChatState, frames: Seq<Seq<char>>)
    ensures
        received_all(state, frames).history.len() == state.history.len() + frames.filter(
            |frame: Seq<char>| message_in(frame) is Some,
        ).len(),
        received_all(initial_state(), frames).history.len() == frames.filter(
            |frame: Seq<char>| message_in(frame) is Some,
        ).len(),
{
    lemma_history_collects_messages(state, frames);
    lemma_history_collects_messages(initial_state(), frames);
    lemma_said_len(frames);
}

/// A run of frames holds as many messages as it holds frames that carry one.
pub proof fn lemma_said_len(frames: Seq<Seq<char>>)
    ensures
        said(frames).len() == frames.filter(|frame: Seq<char>| message_in(frame) is Some).len(),
    decreases frames.len(),
{
    reveal(Seq::filter);
    if frames.len() > 0 {
        lemma_said_len(frames.drop_last());
    }
}

/// Where every frame of a run is a valid `message` envelope, the history
/// grows by exactly these messages: after `n` of them, from the initial
/// state, it holds `n` messages, the `i`-th being that of the `i`-th frame.
pub proof fn lemma_history_of_messages(frames: Seq<Seq<char>>)
    requires
        forall|i: int| 0 <= i < frames.len() ==> (#[trigger] message_in(frames[i])) is Some,
    ensures
        received_all(initial_state(), frames).history.len() == frames.len(),
        forall|i: int|
            0 <= i < frames.len() ==> Some(
                (#[trigger] received_all(initial_state(), frames).history[i]),
            ) == message_in(frames[i]),
    decreases frames.len(),
{
    if frames.len() > 0 {
        lemma_history_of_messages(frames.drop_last());
        let earlier = received_all(initial_state(), frames.drop_last());
        let last = message_in(frames.last())->Some_0;
        assert(received_all(initial_state(), frames).history == earlier.history.push(last));
        assert forall|i: int| 0 <= i < frames.len() implies Some(
            (#[trigger] received_all(initial_state(), frames).history[i]),
        ) == message_in(frames[i]) by {
            if i < frames.len() - 1 {
                assert(frames.drop_last()[i] == frames[i]);
                assert(earlier.history[i] == earlier.history.push(last)[i]);
            }
        }
    }
}

/// An inbound frame that is dropped (text that is no JSON, JSON that is no
/// envelope, a `message` envelope without a chat message) leaves the roster,
/// the history and the picker as they were, and the frames after it are
/// taken as if it had not come.
pub proof fn lemma_dropped_frame_is_skipped(
    state: ChatState,
    before: Seq<Seq<char>>,
    dropped: Seq<char>,
    after: Seq<Seq<char>>,
)
    requires
        inbound(dropped) is Err,
    ensures
        received(state, dropped) == state,
        received_all(state, before.push(dropped) + after) == received_all(state, before + after),
{
    lemma_received_all_append(state, before.push(dropped), after);
    lemma_received_all_append(state, before, after);
    assert(before.push(dropped).drop_last() =~= before);
}

/// Pressing the picker's button flips the picker and nothing else; pressing
/// it twice gives the state back.
pub proof fn lemma_toggle_twice(state: ChatState)
    ensures
        toggled(state).picker_open == !state.picker_open,
        toggled(state).roster == state.roster,
        toggled(state).history == state.history,
        toggled(toggled(state)) == state,
{
}

} // verus!
