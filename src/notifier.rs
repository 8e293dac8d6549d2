use vstd::prelude::*;
use crate::change::{ChangeEvent, notice_of, notice_prefix, notification_for};

verus! {

/// What the notifier drains from the hand-off: a change, or an error that the
/// watcher reported for one observation cycle.
#[derive(Clone, Debug)]
pub enum BridgeItem {
    Change(ChangeEvent),
    WatchFailure,
}

/// The notification owed for one drained item; a watch error owes none.
pub open spec fn item_notice(item: BridgeItem) -> Option<Seq<char>> {
    match item {
        BridgeItem::Change(e) => notice_of(e.kind, e.path_views()),
        BridgeItem::WatchFailure => None,
    }
}

/// The notifications owed for a sequence of drained items, in order.
pub open spec fn notices(items: Seq<BridgeItem>) -> Seq<Seq<char>>
    decreases items.len(),
{
    if items.len() == 0 {
        Seq::empty()
    } else {
        let prev = notices(items.drop_last());
        match item_notice(items.last()) {
            Some(n) => prev.push(n),
            None => prev,
        }
    }
}

/// Whether a drained item is a content edit that names at least one path.
pub open spec fn is_content_edit(item: BridgeItem) -> bool {
    &&& item is Change
    &&& item->Change_0.kind == crate::change::ChangeKind::ModifiedData
    &&& item->Change_0.paths@.len() > 0
}

/// The first path of a drained change.
pub open spec fn first_path(item: BridgeItem) -> Seq<char> {
    item->Change_0.path_views()[0]
}

/// A run of content edits owes exactly one notification per item, and the
/// notification for each item holds its first path right after the prefix.
pub proof fn lemma_one_notice_per_edit(items: Seq<BridgeItem>)
    requires
        forall|i: int| 0 <= i < items.len() ==> is_content_edit(#[trigger] items[i]),
    ensures
        notices(items).len() == items.len(),
        forall|i: int|
            0 <= i < items.len() ==> #[trigger] notices(items)[i] == notice_prefix()
                + first_path(items[i]),
        forall|i: int|
            0 <= i < items.len() ==> (#[trigger] notices(items)[i]).subrange(
                notice_prefix().len() as int,
                notices(items)[i].len() as int,
            ) == first_path(items[i]),
    decreases items.len(),
{
    if items.len() > 0 {
        let prev = items.drop_last();
        assert forall|i: int| 0 <= i < prev.len() implies is_content_edit(#[trigger] prev[i]) by {
            assert(prev[i] == items[i]);
        }
        lemma_one_notice_per_edit(prev);
        assert(is_content_edit(items[items.len() - 1]));
        assert forall|i: int| 0 <= i < items.len() implies #[trigger] notices(items)[i]
            == notice_prefix() + first_path(items[i]) by {
            if i < prev.len() {
                assert(prev[i] == items[i]);
            }
        }
        assert forall|i: int| 0 <= i < items.len() implies (#[trigger] notices(items)[i]).subrange(
            notice_prefix().len() as int,
            notices(items)[i].len() as int,
        ) == first_path(items[i]) by {
            let n = notices(items)[i];
            assert(n == notice_prefix() + first_path(items[i]));
            assert(n.subrange(notice_prefix().len() as int, n.len() as int) =~= first_path(
                items[i],
            ));
        }
    }
}

/// Items that are creations, metadata changes, removals, edits without a path
/// or watch errors owe no notification at all.
pub proof fn lemma_no_notice_for_other_changes(items: Seq<BridgeItem>)
    requires
        forall|i: int| 0 <= i < items.len() ==> !is_content_edit(#[trigger] items[i]),
    ensures
        notices(items) == Seq::<Seq<char>>::empty(),
    decreases items.len(),
{
    if items.len() > 0 {
        let prev = items.drop_last();
        assert forall|i: int| 0 <= i < prev.len() implies !is_content_edit(#[trigger] prev[i]) by {
            assert(prev[i] == items[i]);
        }
        lemma_no_notice_for_other_changes(prev);
        assert(!is_content_edit(items[items.len() - 1]));
    }
}

/// Where the notifier task stands.
#[derive(Clone, Copy, Debug, PartialEq, Eq, Structural)]
pub enum NotifierPhase {
    /// Waiting for the next item from the hand-off.
    Receiving,
    /// A notification has been handed out and its send has not completed.
    Sending,
    /// The task is over.
    Finished,
}

/// What happened to the notifier task.
#[derive(Clone, Debug)]
pub enum NotifierEvent {
    /// An item was drained from the hand-off.
    Item(BridgeItem),
    /// The outstanding notification was sent.
    Sent,
    /// Sending failed: the client is gone.
    SendFailed,
    /// The watcher could not start or has stopped.
    SourceEnded,
}

/// What the notifier task must do next.
#[derive(Clone, Debug)]
pub enum NotifierAction {
    /// Send this text frame to the client.
    Send(String),
    /// Wait for the next event.
    Wait,
    /// End the task.
    Finish,
}

/// The notifier's phase after an event.
pub open spec fn notifier_next(phase: NotifierPhase, ev: NotifierEvent) -> NotifierPhase {
    match phase {
        NotifierPhase::Finished => NotifierPhase::Finished,
        NotifierPhase::Receiving => match ev {
            NotifierEvent::Item(i) => if item_notice(i) is Some {
                NotifierPhase::Sending
            } else {
                NotifierPhase::Receiving
            },
            NotifierEvent::SourceEnded => NotifierPhase::Finished,
            _ => NotifierPhase::Receiving,
        },
        NotifierPhase::Sending => match ev {
            NotifierEvent::Sent => NotifierPhase::Receiving,
            NotifierEvent::SendFailed => NotifierPhase::Finished,
            NotifierEvent::SourceEnded => NotifierPhase::Finished,
            _ => NotifierPhase::Sending,
        },
    }
}

/// The notifier task's decisions, with the items it has drained so far.
pub struct Notifier {
    pub phase: NotifierPhase,
    pub drained: Ghost<Seq<BridgeItem>>,
}

impl Notifier {
    /// The notifications handed out so far, one per drained content edit.
    pub open spec fn emitted(&self) -> Seq<Seq<char>> {
        notices(self.drained@)
    }

    /// A notifier that waits for its first item.
    pub fn new() -> (r: Notifier)
        ensures
            r.phase == NotifierPhase::Receiving,
            r.drained@ == Seq::<BridgeItem>::empty(),
    {
        Notifier { phase: NotifierPhase::Receiving, drained: Ghost(Seq::empty()) }
    }

    /// Feeds one event and returns the action the task must take. An item is
    /// taken only while receiving; a content edit then yields its notification.
    pub fn step(&mut self, ev: NotifierEvent) -> (r: NotifierAction)
        ensures
            final(self).phase == notifier_next(old(self).phase, ev),
            (r is Finish) == (final(self).phase == NotifierPhase::Finished),
            (r is Send) == (old(self).phase == NotifierPhase::Receiving && ev is Item
                && item_notice(ev->Item_0) is Some),
            r is Send ==> item_notice(ev->Item_0) == Some(r->Send_0@),
            old(self).phase == NotifierPhase::Receiving && ev is Item ==> final(self).drained@
                == old(self).drained@.push(ev->Item_0),
            !(old(self).phase == NotifierPhase::Receiving && ev is Item) ==> final(self).drained@
                == old(self).drained@,
            r is Send ==> final(self).emitted() == old(self).emitted().push(r->Send_0@),
            !(r is Send) ==> final(self).emitted() == old(self).emitted(),
    {
        let ghost prev = self.drained@;
        match self.phase {
            NotifierPhase::Finished => NotifierAction::Finish,
            NotifierPhase::Receiving => match ev {
                NotifierEvent::Item(item) => {
                    self.drained = Ghost(prev.push(item));
                    proof {
                        assert(self.drained@.drop_last() == prev);
                    }
                    let text = match &item {
                        BridgeItem::Change(e) => notification_for(e),
                        BridgeItem::WatchFailure => None,
                    };
                    match text {
                        Some(t) => {
                            self.phase = NotifierPhase::Sending;
                            NotifierAction::Send(t)
                        },
                        None => NotifierAction::Wait,
                    }
                },
                NotifierEvent::SourceEnded => {
                    self.phase = NotifierPhase::Finished;
                    NotifierAction::Finish
                },
                _ => NotifierAction::Wait,
            },
            NotifierPhase::Sending => match ev {
                NotifierEvent::Sent => {
                    self.phase = NotifierPhase::Receiving;
                    NotifierAction::Wait
                },
                NotifierEvent::SendFailed | NotifierEvent::SourceEnded => {
                    self.phase = NotifierPhase::Finished;
                    NotifierAction::Finish
                },
                _ => NotifierAction::Wait,
            },
        }
    }
}

} // verus!
