//! A simple event emitter sending a single event to multiple channels.

use vstd::prelude::*;

verus! {

#[verifier::external_type_specification]
#[verifier::external_body]
#[verifier::reject_recursive_types(T)]
pub struct ExSender<T>(async_channel::Sender<T>);

/// Offers a copy of an event to a channel and tells whether the channel took
/// it.
///
/// Calls `async_channel::Sender::try_send`, which never waits: it fails when
/// the channel is closed, as it is once all its receivers were dropped, and
/// when a bounded channel is full. Both depend on what the receiving side has
/// done, so nothing is claimed of the answer.
#[verifier::external_body]
fn try_send<T: Clone>(sender: &async_channel::Sender<T>, event: &T) -> bool {
    match sender.try_send(event.clone()) {
        Ok(()) => true,
        Err(_) => false,
    }
}

/// Those of the senders whose flag in `keep` is set, in their order.
pub open spec fn spec_kept<T>(senders: Seq<async_channel::Sender<T>>, keep: Seq<bool>) -> Seq<
    async_channel::Sender<T>,
>
    decreases senders.len(),
{
    if senders.len() == 0 || keep.len() != senders.len() {
        senders
    } else if keep.last() {
        spec_kept(senders.drop_last(), keep.drop_last()).push(senders.last())
    } else {
        spec_kept(senders.drop_last(), keep.drop_last())
    }
}

/// A simple event emitter sending a single event to multiple channels.
#[verifier::reject_recursive_types(T)]
pub struct EventEmitter<T: Clone> {
    senders: Vec<async_channel::Sender<T>>,
}

impl<T: Clone> EventEmitter<T> {
    /// The senders that the emitter sends its events to, the earliest first.
    pub closed spec fn senders(&self) -> Seq<async_channel::Sender<T>> {
        self.senders@
    }

    /// Creates an emitter without senders.
    pub fn new() -> (r: Self)
        ensures
            r.senders() == Seq::<async_channel::Sender<T>>::empty(),
    {
        Self { senders: Vec::new() }
    }

    /// The number of senders of the emitter.
    pub fn sender_count(&self) -> (r: usize)
        ensures
            r == self.senders().len(),
    {
        self.senders.len()
    }

    /// Adds the sender of a new listener to the end of the sender list.
    pub fn add_sender(&mut self, sender: async_channel::Sender<T>)
        ensures
            final(self).senders() == old(self).senders().push(sender),
    {
        self.senders.push(sender);
    }

    /// Keeps those of the senders whose flag in `keep` is set, and drops the
    /// others.
    pub fn retain(&mut self, keep: &Vec<bool>)
        requires
            keep@.len() == old(self).senders().len(),
        ensures
            final(self).senders() == spec_kept(old(self).senders(), keep@),
    {
        let n = keep.len();
        let mut kept: Vec<async_channel::Sender<T>> = Vec::new();
        let mut i: usize = 0;
        assert(old(self).senders@.take(0) =~= Seq::<async_channel::Sender<T>>::empty());
        assert(keep@.take(0) =~= Seq::<bool>::empty());
        while i < n
            invariant
                i <= n,
                n == keep@.len(),
                n == old(self).senders@.len(),
                self.senders@ == old(self).senders@.subrange(i as int, n as int),
                kept@ == spec_kept(old(self).senders@.take(i as int), keep@.take(i as int)),
            decreases n - i,
        {
            let sender = self.senders.remove(0);
            proof {
                assert(sender == old(self).senders@[i as int]);
                assert(self.senders@ =~= old(self).senders@.subrange(i + 1, n as int));
                assert(old(self).senders@.take(i + 1).drop_last() =~= old(self).senders@.take(
                    i as int,
                ));
                assert(keep@.take(i + 1).drop_last() =~= keep@.take(i as int));
                assert(old(self).senders@.take(i + 1).last() == sender);
                assert(keep@.take(i + 1).last() == keep@[i as int]);
            }
            if keep[i] {
                kept.push(sender);
            }
            i += 1;
        }
        assert(old(self).senders@.take(n as int) =~= old(self).senders@);
        assert(keep@.take(n as int) =~= keep@);
        self.senders = kept;
    }

    /// Emits an event to all senders. Senders that do not take the event,
    /// because their receivers were dropped or because their channel is full,
    /// are removed from the list; the others stay, in their order.
    pub fn emit(&mut self, event: T)
        ensures
            exists|keep: Seq<bool>|
                keep.len() == old(self).senders().len() && final(self).senders() == #[trigger] spec_kept(
                    old(self).senders(),
                    keep,
                ),
    {
        let n = self.senders.len();
        let mut keep: Vec<bool> = Vec::new();
        let mut i: usize = 0;
        while i < n
            invariant
                i <= n,
                n == self.senders@.len(),
                self.senders@ == old(self).senders@,
                keep@.len() == i,
            decreases n - i,
        {
            let delivered = try_send(&self.senders[i], &event);
            keep.push(delivered);
            i += 1;
        }
        self.retain(&keep);
    }
}

/// What is kept of a list of senders is no longer than the list, and holds
/// senders of the list only.
pub proof fn lemma_kept<T>(senders: Seq<async_channel::Sender<T>>, keep: Seq<bool>)
    requires
        keep.len() == senders.len(),
    ensures
        spec_kept(senders, keep).len() <= senders.len(),
        forall|i: int|
            0 <= i < spec_kept(senders, keep).len() ==> senders.contains(
                #[trigger] spec_kept(senders, keep)[i],
            ),
    decreases senders.len(),
{
    if senders.len() > 0 {
        lemma_kept(senders.drop_last(), keep.drop_last());
        let before = spec_kept(senders.drop_last(), keep.drop_last());
        assert forall|i: int| 0 <= i < spec_kept(senders, keep).len() implies senders.contains(
            #[trigger] spec_kept(senders, keep)[i],
        ) by {
            if i < before.len() {
                let s = before[i];
                assert(senders.drop_last().contains(s));
                let j = choose|j: int| 0 <= j < senders.drop_last().len() && senders.drop_last()[j] == s;
                assert(senders[j] == s);
            } else {
                assert(senders[senders.len() - 1] == spec_kept(senders, keep)[i]);
            }
        }
    }
}

} // verus!
