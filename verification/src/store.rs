//! The message store: the append-only log of conversation turns.

use crate::failure::{Failure, FailureKind, FailureView};
use crate::message::{message_views, ChatMessage, ChatMessageView};
use vstd::prelude::*;

verus! {

/// Whether a turn can be recorded: its content is not empty.
pub open spec fn recordable(turn: ChatMessageView) -> bool {
    turn.content.len() > 0
}

/// The `n` most recent turns of a log, oldest first; the whole log where it
/// holds no more than `n`.
pub open spec fn recent_of(log: Seq<ChatMessageView>, n: nat) -> Seq<ChatMessageView> {
    if n >= log.len() {
        log
    } else {
        log.subrange(log.len() - n, log.len() as int)
    }
}

/// The failure with which the store refuses a turn without content.
pub open spec fn empty_content_failure() -> FailureView {
    FailureView { kind: FailureKind::Storage, detail: "message content is empty"@ }
}

/// The log of conversation turns, in the order in which they were recorded.
/// Turns are only ever added at the end, and removed only all at once.
pub struct MessageStore {
    turns: Vec<ChatMessage>,
}

impl View for MessageStore {
    type V = Seq<ChatMessageView>;

    closed spec fn view(&self) -> Seq<ChatMessageView> {
        message_views(self.turns@)
    }
}

impl MessageStore {
    /// An empty log.
    pub fn new() -> (r: MessageStore)
        ensures
            r@ == Seq::<ChatMessageView>::empty(),
    {
        let store = MessageStore { turns: Vec::new() };
        assert(store@ =~= Seq::<ChatMessageView>::empty());
        store
    }

    /// The number of turns in the log.
    pub fn len(&self) -> (r: usize)
        ensures
            r == self@.len(),
    {
        self.turns.len()
    }

    /// Records a turn at the end of the log. A turn without content is
    /// refused, and the log stays as it was.
    pub fn append(&mut self, turn: ChatMessage) -> (r: Result<(), Failure>)
        ensures
            recordable(turn@) ==> r is Ok && final(self)@ == old(self)@.push(turn@),
            !recordable(turn@) ==> final(self)@ == old(self)@ && (r matches Err(failure)
                && failure@ == empty_content_failure()),
    {
        if turn.content.as_str().is_empty() {
            Err(Failure::with_text(FailureKind::Storage, "message content is empty"))
        } else {
            let ghost before = self.turns@;
            self.turns.push(turn);
            assert(message_views(self.turns@) =~= message_views(before).push(turn@));
            Ok(())
        }
    }

    /// The `n` most recent turns, oldest first, as copies.
    pub fn recent(&self, n: usize) -> (r: Vec<ChatMessage>)
        ensures
            message_views(r@) == recent_of(self@, n as nat),
    {
        let total = self.turns.len();
        let first = if n >= total {
            0
        } else {
            total - n
        };
        let mut copies: Vec<ChatMessage> = Vec::new();
        let mut i = first;
        while i < total
            invariant
                first <= i <= total,
                total == self.turns@.len(),
                message_views(copies@) == message_views(self.turns@).subrange(
                    first as int,
                    i as int,
                ),
            decreases total - i,
        {
            let ghost before = copies@;
            let copy = self.turns[i].duplicate();
            copies.push(copy);
            assert(message_views(copies@) =~= message_views(before).push(copy@));
            assert(message_views(self.turns@).subrange(first as int, i + 1) =~= message_views(
                self.turns@,
            ).subrange(first as int, i as int).push(self.turns@[i as int]@));
            i += 1;
        }
        assert(message_views(self.turns@).subrange(0, total as int) =~= message_views(self.turns@));
        copies
    }

    /// Removes every turn.
    pub fn clear(&mut self)
        ensures
            final(self)@ == Seq::<ChatMessageView>::empty(),
    {
        self.turns.clear();
        assert(self@ =~= Seq::<ChatMessageView>::empty());
    }
}

/// What was recorded last is what the store gives back first: after a turn
/// has been appended, the one most recent turn is that turn, field for field.
pub proof fn lemma_append_then_recent(log: Seq<ChatMessageView>, turn: ChatMessageView)
    ensures
        recent_of(log.push(turn), 1) == seq![turn],
{
    assert(recent_of(log.push(turn), 1) =~= seq![turn]);
}

/// Reading never reorders: the recent turns are the end of the log, as many
/// as were asked for or as the log holds.
pub proof fn lemma_recent_is_suffix(log: Seq<ChatMessageView>, n: nat)
    ensures
        recent_of(log, n).len() == if n <= log.len() {
            n
        } else {
            log.len()
        },
        forall|i: int|
            0 <= i < recent_of(log, n).len() ==> #[trigger] recent_of(log, n)[i] == log[log.len()
                - recent_of(log, n).len() + i],
{
}

} // verus!
