//! The channels behind the channel names.
//!
//! A connection's writer reads from a queue, and whoever has something for
//! that connection puts it on the queue through the queue's sender. [`Lines`]
//! keeps the senders of the queues that are open, each under a name that is
//! handed out once and never again.

use crate::registry::ChannelId;
use tokio::sync::mpsc::{Sender, UnboundedSender};
use vstd::prelude::*;

verus! {

/// `tokio::sync::mpsc::Sender`, the sending half of a bounded queue, carried
/// through as it is.
#[verifier::external_type_specification]
#[verifier::external_body]
#[verifier::reject_recursive_types(T)]
pub struct ExSender<T>(Sender<T>);

/// `tokio::sync::mpsc::UnboundedSender`, the sending half of an unbounded
/// queue, carried through as it is.
#[verifier::external_type_specification]
#[verifier::external_body]
#[verifier::reject_recursive_types(T)]
pub struct ExUnboundedSender<T>(UnboundedSender<T>);

/// Calls `Sender::is_closed`: whether the receiving half of the queue is
/// gone. The answer depends on what the receiver's owner has done, so nothing
/// is claimed about it.
#[verifier::external_body]
fn bounded_is_closed<T>(sender: &Sender<T>) -> (closed: bool) {
    sender.is_closed()
}

/// Calls `UnboundedSender::send`, which never waits. Whether the queue takes
/// the text depends on whether its receiving half is still there; if it does
/// not, the error hands the text back.
#[verifier::external_body]
fn unbounded_send(sender: &UnboundedSender<String>, text: String) -> (outcome: Result<(), String>)
    ensures
        outcome matches Err(returned) ==> returned == text,
{
    sender.send(text).map_err(|refused| refused.0)
}

struct Line<S> {
    id: ChannelId,
    sender: S,
}

spec fn id_at<S>(lines: Seq<Line<S>>, i: int) -> ChannelId {
    lines[i].id
}

spec fn distinct_ids<S>(lines: Seq<Line<S>>) -> bool {
    forall|i: int, j: int|
        0 <= i < j < lines.len() ==> #[trigger] id_at(lines, i) != #[trigger] id_at(lines, j)
}

spec fn ids_below<S>(lines: Seq<Line<S>>, next: u64) -> bool {
    forall|i: int| 0 <= i < lines.len() ==> (#[trigger] id_at(lines, i)).0 < next
}

spec fn has_id<S>(lines: Seq<Line<S>>, id: ChannelId) -> bool {
    exists|i: int| 0 <= i < lines.len() && #[trigger] id_at(lines, i) == id
}

spec fn index_of<S>(lines: Seq<Line<S>>, id: ChannelId) -> int {
    choose|i: int| 0 <= i < lines.len() && #[trigger] id_at(lines, i) == id
}

spec fn as_map<S>(lines: Seq<Line<S>>) -> Map<ChannelId, S> {
    Map::new(|id: ChannelId| has_id(lines, id), |id: ChannelId| lines[index_of(lines, id)].sender)
}

proof fn lemma_found<S>(lines: Seq<Line<S>>, i: int)
    requires
        distinct_ids(lines),
        0 <= i < lines.len(),
    ensures
        has_id(lines, id_at(lines, i)),
        index_of(lines, id_at(lines, i)) == i,
        as_map(lines).contains_key(id_at(lines, i)),
        as_map(lines)[id_at(lines, i)] == lines[i].sender,
{
    let j = index_of(lines, id_at(lines, i));
    assert(id_at(lines, j) == id_at(lines, i));
}

proof fn lemma_push<S>(lines: Seq<Line<S>>, line: Line<S>)
    requires
        distinct_ids(lines),
        !has_id(lines, line.id),
    ensures
        distinct_ids(lines.push(line)),
        as_map(lines.push(line)) == as_map(lines).insert(line.id, line.sender),
{
    let after = lines.push(line);
    assert forall|i: int, j: int| 0 <= i < j < after.len() implies #[trigger] id_at(after, i)
        != #[trigger] id_at(after, j) by {
        if j < lines.len() {
            assert(id_at(lines, i) != id_at(lines, j));
        } else {
            assert(id_at(lines, i) == id_at(after, i));
        }
    }
    assert forall|id: ChannelId|
        as_map(after).contains_key(id) <==> #[trigger] as_map(lines).insert(
            line.id,
            line.sender,
        ).contains_key(id) by {
        if has_id(lines, id) {
            let i = index_of(lines, id);
            assert(id_at(after, i) == id);
        }
        if id == line.id {
            assert(id_at(after, lines.len() as int) == id);
        }
        if has_id(after, id) {
            let i = index_of(after, id);
            if i < lines.len() {
                assert(id_at(lines, i) == id);
            }
        }
    }
    assert forall|id: ChannelId| #[trigger] as_map(after).contains_key(id) implies as_map(after)[id]
        == as_map(lines).insert(line.id, line.sender)[id] by {
        let i = index_of(after, id);
        lemma_found(after, i);
        if i < lines.len() {
            assert(id_at(lines, i) == id);
            lemma_found(lines, i);
        }
    }
    assert(as_map(after) =~= as_map(lines).insert(line.id, line.sender));
}

proof fn lemma_remove<S>(lines: Seq<Line<S>>, i: int)
    requires
        distinct_ids(lines),
        0 <= i < lines.len(),
    ensures
        distinct_ids(lines.remove(i)),
        as_map(lines.remove(i)) == as_map(lines).remove(id_at(lines, i)),
{
    let after = lines.remove(i);
    let gone = id_at(lines, i);
    assert forall|a: int| 0 <= a < after.len() implies #[trigger] id_at(after, a) == id_at(
        lines,
        if a < i {
            a
        } else {
            a + 1
        },
    ) by {}
    assert forall|a: int, b: int| 0 <= a < b < after.len() implies #[trigger] id_at(after, a)
        != #[trigger] id_at(after, b) by {
        let a0 = if a < i {
            a
        } else {
            a + 1
        };
        let b0 = if b < i {
            b
        } else {
            b + 1
        };
        assert(id_at(lines, a0) != id_at(lines, b0));
    }
    assert forall|id: ChannelId|
        as_map(after).contains_key(id) <==> #[trigger] as_map(lines).remove(gone).contains_key(
            id,
        ) by {
        if has_id(after, id) {
            let a = index_of(after, id);
            let a0 = if a < i {
                a
            } else {
                a + 1
            };
            assert(id_at(lines, a0) == id);
            if a0 < i {
                assert(id_at(lines, a0) != id_at(lines, i));
            } else {
                assert(id_at(lines, i) != id_at(lines, a0));
            }
        }
        if has_id(lines, id) && id != gone {
            let j = index_of(lines, id);
            let a = if j < i {
                j
            } else {
                j - 1
            };
            assert(id_at(after, a) == id);
        }
    }
    assert forall|id: ChannelId| #[trigger] as_map(after).contains_key(id) implies as_map(after)[id]
        == as_map(lines).remove(gone)[id] by {
        let a = index_of(after, id);
        lemma_found(after, a);
        let a0 = if a < i {
            a
        } else {
            a + 1
        };
        assert(id_at(lines, a0) == id);
        lemma_found(lines, a0);
    }
    assert(as_map(after) =~= as_map(lines).remove(gone));
}

/// The senders of the open channels, by name.
pub struct Lines<S> {
    next: u64,
    lines: Vec<Line<S>>,
}

impl<S> View for Lines<S> {
    type V = Map<ChannelId, S>;

    closed spec fn view(&self) -> Map<ChannelId, S> {
        as_map(self.lines@)
    }
}

impl<S> Lines<S> {
    #[verifier::type_invariant]
    spec fn names_are_unique(self) -> bool {
        distinct_ids(self.lines@) && ids_below(self.lines@, self.next)
    }

    /// The number of names handed out so far. Names are handed out in
    /// counting order, so every name in use is below it.
    pub closed spec fn issued(&self) -> nat {
        self.next as nat
    }

    /// No channel open, no name handed out.
    pub fn new() -> (lines: Lines<S>)
        ensures
            lines@ == Map::<ChannelId, S>::empty(),
            lines.issued() == 0,
    {
        let lines = Lines { next: 0, lines: Vec::new() };
        assert(lines@ =~= Map::<ChannelId, S>::empty());
        lines
    }

    fn position(&self, id: ChannelId) -> (found: Option<usize>)
        ensures
            match found {
                Some(i) => i < self.lines@.len() && id_at(self.lines@, i as int) == id,
                None => !has_id(self.lines@, id),
            },
    {
        let mut i: usize = 0;
        while i < self.lines.len()
            invariant
                i <= self.lines@.len(),
                forall|j: int| 0 <= j < i ==> id_at(self.lines@, j) != id,
            decreases self.lines@.len() - i,
        {
            if self.lines[i].id == id {
                return Some(i);
            }
            i += 1;
        }
        None
    }

    fn take_lines(&mut self) -> (lines: Vec<Line<S>>)
        ensures
            lines@ == old(self).lines@,
            final(self).lines@.len() == 0,
            final(self).next == old(self).next,
    {
        let mut lines: Vec<Line<S>> = Vec::new();
        std::mem::swap(&mut lines, &mut self.lines);
        lines
    }

    /// Opens a channel: the sender is kept under a name that was never in
    /// use before, and the name comes back. `None`, with nothing changed, once
    /// the names are used up.
    pub fn open(&mut self, sender: S) -> (name: Option<ChannelId>)
        ensures
            match name {
                Some(id) => {
                    &&& id == ChannelId(old(self).issued() as u64)
                    &&& !old(self)@.contains_key(id)
                    &&& final(self)@ == old(self)@.insert(id, sender)
                    &&& final(self).issued() == old(self).issued() + 1
                },
                None => {
                    &&& old(self).issued() == u64::MAX
                    &&& final(self)@ == old(self)@
                    &&& final(self).issued() == old(self).issued()
                },
            },
            old(self).issued() < u64::MAX ==> name is Some,
    {
        proof {
            use_type_invariant(&*self);
        }
        if self.next == u64::MAX {
            return None;
        }
        let id = ChannelId(self.next);
        let mut lines = self.take_lines();
        proof {
            if has_id(lines@, id) {
                let i = index_of(lines@, id);
                assert(id_at(lines@, i).0 < self.next);
            }
            lemma_push(lines@, Line { id, sender });
            assert forall|i: int| 0 <= i < lines@.push(Line { id, sender }).len() implies (
            #[trigger] id_at(lines@.push(Line { id, sender }), i)).0 < self.next + 1 by {
                if i < lines@.len() {
                    assert(id_at(lines@, i).0 < self.next);
                }
            }
        }
        lines.push(Line { id, sender });
        self.next = self.next + 1;
        self.lines = lines;
        Some(id)
    }

    /// Closes the channel `id`: its sender is dropped. The name is not used
    /// again.
    pub fn close(&mut self, id: ChannelId)
        ensures
            final(self)@ == old(self)@.remove(id),
            final(self).issued() == old(self).issued(),
    {
        proof {
            use_type_invariant(&*self);
        }
        match self.position(id) {
            Some(i) => {
                let mut lines = self.take_lines();
                proof {
                    lemma_remove(lines@, i as int);
                    assert forall|a: int| 0 <= a < lines@.remove(i as int).len() implies (
                    #[trigger] id_at(lines@.remove(i as int), a)).0 < self.next by {
                        let a0 = if a < i {
                            a
                        } else {
                            a + 1
                        };
                        assert(id_at(lines@, a0).0 < self.next);
                    }
                }
                lines.remove(i);
                self.lines = lines;
            },
            None => {
                assert(self@ =~= self@.remove(id));
            },
        }
    }

    /// The sender of the channel `id`, if that channel is open.
    pub fn sender(&self, id: ChannelId) -> (sender: Option<&S>)
        ensures
            match sender {
                Some(s) => self@.contains_key(id) && *s == self@[id],
                None => !self@.contains_key(id),
            },
    {
        proof {
            use_type_invariant(self);
        }
        match self.position(id) {
            Some(i) => {
                proof {
                    lemma_found(self.lines@, i as int);
                }
                Some(&self.lines[i].sender)
            },
            None => None,
        }
    }

    /// Whether the channel `id` is open.
    pub fn is_open(&self, id: ChannelId) -> (open: bool)
        ensures
            open == self@.contains_key(id),
    {
        self.position(id).is_some()
    }
}

impl<T> Lines<Sender<T>> {
    /// The channels whose queue says that its receiving half is gone. Each
    /// open channel's queue is asked once, in the order of opening, and the
    /// result is what [`Lines::pick`] gives for the answers.
    pub fn abandoned(&self) -> (closed: Vec<ChannelId>)
        ensures
            forall|k: int| 0 <= k < closed@.len() ==> self@.contains_key(#[trigger] closed@[k]),
            exists|answers: Seq<bool>|
                answers.len() == self.names().len() && closed@ == #[trigger] picked(
                    self.names(),
                    answers,
                ),
    {
        let mut answers: Vec<bool> = Vec::new();
        let mut i: usize = 0;
        while i < self.lines.len()
            invariant
                i <= self.lines@.len(),
                answers@.len() == i,
            decreases self.lines@.len() - i,
        {
            answers.push(bounded_is_closed(&self.lines[i].sender));
            i += 1;
        }
        let closed = self.pick(&answers);
        assert(closed@ == picked(self.names(), answers@));
        closed
    }
}

impl Lines<UnboundedSender<String>> {
    /// Puts the text on the queue of the channel `id`. If that channel is not
    /// open, or its queue no longer takes anything, the text comes back.
    pub fn send(&self, id: ChannelId, text: String) -> (outcome: Result<(), String>)
        ensures
            outcome matches Err(returned) ==> returned == text,
            !self@.contains_key(id) ==> outcome is Err,
    {
        match self.sender(id) {
            Some(sender) => unbounded_send(sender, text),
            None => Err(text),
        }
    }
}

/// The names in `names` whose flag in `flags` is set, in the same order. The
/// flag of a name is the one at the name's position; a name without a flag
/// counts as not set.
pub open spec fn picked(names: Seq<ChannelId>, flags: Seq<bool>) -> Seq<ChannelId>
    decreases names.len(),
{
    if names.len() == 0 {
        Seq::empty()
    } else {
        let before = picked(names.drop_last(), flags);
        if names.len() <= flags.len() && flags[names.len() - 1] {
            before.push(names.last())
        } else {
            before
        }
    }
}

spec fn names_of<S>(lines: Seq<Line<S>>) -> Seq<ChannelId> {
    Seq::new(lines.len(), |i: int| id_at(lines, i))
}

impl<S> Lines<S> {
    /// The names of the open channels, in the order in which the channels
    /// were opened.
    pub closed spec fn names(&self) -> Seq<ChannelId> {
        names_of(self.lines@)
    }

    /// The open channels whose flag is set, in the order in which the
    /// channels were opened. The flags go by position in that order.
    pub fn pick(&self, flags: &Vec<bool>) -> (chosen: Vec<ChannelId>)
        ensures
            chosen@ == picked(self.names(), flags@),
            forall|k: int| 0 <= k < chosen@.len() ==> self@.contains_key(#[trigger] chosen@[k]),
            self.names().no_duplicates(),
            forall|id: ChannelId| self.names().contains(id) <==> self@.contains_key(id),
    {
        proof {
            use_type_invariant(self);
        }
        let ghost names = names_of(self.lines@);
        let mut chosen: Vec<ChannelId> = Vec::new();
        let mut i: usize = 0;
        while i < self.lines.len()
            invariant
                i <= self.lines@.len(),
                names == names_of(self.lines@),
                chosen@ == picked(names.take(i as int), flags@),
                forall|k: int| 0 <= k < chosen@.len() ==> has_id(self.lines@, #[trigger] chosen@[k]),
            decreases self.lines@.len() - i,
        {
            proof {
                let longer = names.take(i + 1);
                assert(longer.drop_last() =~= names.take(i as int));
                assert(longer.last() == id_at(self.lines@, i as int));
            }
            if i < flags.len() && flags[i] {
                chosen.push(self.lines[i].id);
            }
            i += 1;
        }
        proof {
            assert(names.take(self.lines@.len() as int) =~= names);
            assert forall|a: int, b: int| 0 <= a < names.len() && 0 <= b < names.len() && a
                != b implies names[a] != names[b] by {
                if a < b {
                    assert(id_at(self.lines@, a) != id_at(self.lines@, b));
                } else {
                    assert(id_at(self.lines@, b) != id_at(self.lines@, a));
                }
            }
            assert forall|id: ChannelId| names.contains(id) <==> self@.contains_key(id) by {
                if names.contains(id) {
                    let a = choose|a: int| 0 <= a < names.len() && names[a] == id;
                    assert(id_at(self.lines@, a) == id);
                }
                if has_id(self.lines@, id) {
                    let a = index_of(self.lines@, id);
                    assert(names[a] == id);
                }
            }
        }
        chosen
    }
}

} // verus!
