//! Handing tags to a picker, which may close at any time.

use vstd::prelude::*;
use crate::tag::{tag_views, Tag, TagView};

verus! {

/// Tags on their way to a picker. They go one by one, in order, until none is left or the picker
/// refuses one.
pub struct Delivery {
    /// The tags still to go, the next one last.
    rest: Vec<Tag>,
    closed: bool,
}

/// The value of a [`Delivery`]: the tags still to go, in order, and whether one was refused.
pub struct DeliveryView {
    pub pending: Seq<TagView>,
    pub closed: bool,
}

impl View for Delivery {
    type V = DeliveryView;

    closed spec fn view(&self) -> DeliveryView {
        DeliveryView { pending: tag_views(self.rest@).reverse(), closed: self.closed }
    }
}

impl DeliveryView {
    /// The tag to hand over next.
    pub open spec fn next(self) -> Option<TagView> {
        if self.closed || self.pending.len() == 0 {
            None
        } else {
            Some(self.pending[0])
        }
    }

    /// The delivery once the next tag is handed over, if there is one.
    pub open spec fn offered(self) -> DeliveryView {
        match self.next() {
            Some(_) => DeliveryView { pending: self.pending.drop_first(), closed: self.closed },
            None => self,
        }
    }

    /// The delivery once the picker has accepted or refused a tag.
    pub open spec fn answered(self, accepted: bool) -> DeliveryView {
        DeliveryView { pending: self.pending, closed: self.closed || !accepted }
    }

    /// The delivery after a picker has given these answers, one for each tag handed over.
    pub open spec fn after(self, answers: Seq<bool>) -> DeliveryView
        decreases answers.len(),
    {
        if answers.len() == 0 || self.next() is None {
            self
        } else {
            self.offered().answered(answers[0]).after(answers.drop_first())
        }
    }
}

impl Delivery {
    /// A delivery of these tags.
    pub fn new(tags: Vec<Tag>) -> (r: Self)
        ensures
            r@ == (DeliveryView { pending: tag_views(tags@), closed: false }),
    {
        let ghost all = tag_views(tags@);
        let mut tags = tags;
        let mut rest: Vec<Tag> = Vec::new();
        while tags.len() > 0
            invariant
                tag_views(tags@) + tag_views(rest@).reverse() =~= all,
            decreases tags@.len(),
        {
            let ghost before = tags@;
            let ghost moved = rest@;
            if let Some(tag) = tags.pop() {
                rest.push(tag);
                proof {
                    assert(tag_views(tags@) =~= tag_views(before).drop_last());
                    assert(tag_views(rest@) =~= tag_views(moved).push(tag@));
                    assert(tag_views(before).last() == tag@);
                }
            }
        }
        assert(tag_views(rest@).reverse() =~= all);
        Delivery { rest, closed: false }
    }

    /// The tag to hand over next, if there is one.
    pub fn offer(&mut self) -> (r: Option<Tag>)
        ensures
            final(self)@ == old(self)@.offered(),
            match old(self)@.next() {
                Some(next) => r matches Some(tag) && tag@ == next,
                None => r is None,
            },
    {
        if self.closed {
            return None;
        }
        let ghost before = self.rest@;
        let r = self.rest.pop();
        proof {
            if before.len() > 0 {
                assert(self@.pending =~= tag_views(before).reverse().drop_first());
            } else {
                assert(self@.pending =~= tag_views(before).reverse());
            }
        }
        r
    }

    /// Takes the picker's answer to the tag that was handed over.
    pub fn answer(&mut self, accepted: bool)
        ensures
            final(self)@ == old(self)@.answered(accepted),
    {
        if !accepted {
            self.closed = true;
        }
    }

    /// Whether the picker refused a tag.
    pub fn is_closed(&self) -> (r: bool)
        ensures
            r == self@.closed,
    {
        self.closed
    }
}

/// A picker that refuses a tag has been handed that one and those before it, in order, and is
/// handed none after it.
pub proof fn refusal_ends_delivery(tags: Seq<TagView>, answers: Seq<bool>, refused: int)
    requires
        0 <= refused < answers.len(),
        refused < tags.len(),
        !answers[refused],
        forall|i: int| 0 <= i < refused ==> answers[i],
    ensures
        ({
            let end = (DeliveryView { pending: tags, closed: false }).after(answers);
            &&& end.closed
            &&& end.pending == tags.skip(refused + 1)
            &&& end.next() is None
        }),
    decreases answers.len(),
{
    let start = DeliveryView { pending: tags, closed: false };
    let next = start.offered().answered(answers[0]);
    if refused == 0 {
        assert(next.after(answers.drop_first()) == next);
        assert(tags.skip(1) =~= tags.drop_first());
    } else {
        assert(next == (DeliveryView { pending: tags.drop_first(), closed: false }));
        refusal_ends_delivery(tags.drop_first(), answers.drop_first(), refused - 1);
        assert(tags.drop_first().skip(refused) =~= tags.skip(refused + 1));
    }
}

/// A picker that refuses nothing is handed every tag.
pub proof fn acceptance_completes_delivery(tags: Seq<TagView>, answers: Seq<bool>)
    requires
        tags.len() <= answers.len(),
        forall|i: int| 0 <= i < tags.len() ==> answers[i],
    ensures
        ({
            let end = (DeliveryView { pending: tags, closed: false }).after(answers);
            &&& !end.closed
            &&& end.pending.len() == 0
        }),
    decreases answers.len(),
{
    if tags.len() > 0 {
        let start = DeliveryView { pending: tags, closed: false };
        assert(start.offered().answered(answers[0]) == (DeliveryView {
            pending: tags.drop_first(),
            closed: false,
        }));
        acceptance_completes_delivery(tags.drop_first(), answers.drop_first());
    }
}

/// Tags are handed over in order: once the first `k` are accepted, the next is the one after
/// them; and once all are, there is none.
pub proof fn tags_are_handed_over_in_order(tags: Seq<TagView>, answers: Seq<bool>, k: int)
    requires
        0 <= k <= tags.len(),
        answers.len() == k,
        forall|i: int| 0 <= i < k ==> answers[i],
    ensures
        ({
            let then = (DeliveryView { pending: tags, closed: false }).after(answers);
            &&& k < tags.len() ==> then.next() == Some(tags[k])
            &&& k == tags.len() ==> then.next() is None
            &&& !then.closed
        }),
    decreases k,
{
    if k > 0 {
        let start = DeliveryView { pending: tags, closed: false };
        assert(start.offered().answered(answers[0]) == (DeliveryView {
            pending: tags.drop_first(),
            closed: false,
        }));
        tags_are_handed_over_in_order(tags.drop_first(), answers.drop_first(), k - 1);
    }
}

/// Handing a tag over takes it, and only it, from those that are still to go; a refusal closes the
/// delivery for good, and an acceptance changes nothing.
pub proof fn delivery_goes_tag_by_tag(pending: Seq<TagView>, closed: bool, accepted: bool)
    ensures
        ({
            let delivery = DeliveryView { pending, closed };
            &&& !closed && pending.len() > 0 ==> delivery.next() == Some(pending[0])
                && delivery.offered() == (DeliveryView { pending: pending.skip(1), closed: false })
            &&& closed || pending.len() == 0 ==> delivery.next() is None && delivery.offered()
                == delivery
            &&& delivery.answered(accepted).pending == pending
            &&& delivery.answered(accepted).closed <==> closed || !accepted
        }),
{
    if pending.len() > 0 {
        assert(pending.drop_first() =~= pending.skip(1));
    }
}

/// A new delivery has all its tags still to go, and is open.
pub proof fn delivery_starts_with_all_tags(tags: Vec<Tag>, r: Delivery, closed: bool)
    requires
        call_ensures(Delivery::new, (tags,), r),
        call_ensures(Delivery::is_closed, (&r,), closed),
    ensures
        r@.pending == tag_views(tags@),
        !closed,
{
}

/// What is handed over is the first of the tags still to go, and those after it stay to go.
pub proof fn first_tag_is_handed_over(delivery: &mut Delivery, r: Option<Tag>)
    requires
        call_ensures(Delivery::offer, (delivery,), r),
    ensures
        r is Some <==> !old(delivery)@.closed && old(delivery)@.pending.len() > 0,
        r matches Some(tag) ==> tag@ == old(delivery)@.pending[0] && final(delivery)@.pending
            == old(delivery)@.pending.skip(1),
        r is None ==> final(delivery)@.pending == old(delivery)@.pending,
        final(delivery)@.closed == old(delivery)@.closed,
{
    if old(delivery)@.pending.len() > 0 {
        assert(old(delivery)@.pending.drop_first() =~= old(delivery)@.pending.skip(1));
    }
}

/// A refusal closes a delivery, and nothing opens it again.
pub proof fn refusal_closes_delivery(delivery: &mut Delivery, accepted: bool)
    requires
        call_ensures(Delivery::answer, (delivery, accepted), ()),
    ensures
        final(delivery)@.closed <==> old(delivery)@.closed || !accepted,
        final(delivery)@.pending == old(delivery)@.pending,
{
}

} // verus!
