use vstd::prelude::*;

use std::collections::VecDeque;

use crate::model::{Webhook, WebhookView};

verus! {

/// The views of a sequence of payloads, in the same order.
pub open spec fn views_of(s: Seq<Webhook>) -> Seq<WebhookView> {
    Seq::new(s.len(), |i: int| s[i]@)
}

/// The pending deliveries: a double-ended sequence of payloads. Producers
/// push to the front; the drain takes up to two payloads per window from the
/// back, the oldest end. The view lists the payloads front to back, so the
/// last element is the next to be delivered.
pub struct WebhookQueue {
    pub webhooks: VecDeque<Webhook>,
}

impl View for WebhookQueue {
    type V = Seq<WebhookView>;

    open spec fn view(&self) -> Seq<WebhookView> {
        views_of(self.webhooks@)
    }
}

impl WebhookQueue {
    /// Builds an empty queue.
    pub fn new() -> (r: WebhookQueue)
        ensures
            r@ == Seq::<WebhookView>::empty(),
    {
        let r = WebhookQueue { webhooks: VecDeque::new() };
        proof {
            assert(r@ =~= Seq::<WebhookView>::empty());
        }
        r
    }

    /// How many payloads are pending.
    pub fn len(&self) -> (r: usize)
        ensures
            r == self@.len(),
    {
        self.webhooks.len()
    }

    /// Pushes one payload to the front of the queue.
    pub fn enqueue(&mut self, webhook: Webhook)
        ensures
            final(self)@ == seq![webhook@] + old(self)@,
    {
        let ghost before = self@;
        let ghost wv = webhook@;
        self.webhooks.push_front(webhook);
        proof {
            assert(self@ =~= seq![wv] + before);
        }
    }

    /// Pushes each payload of the batch, in the order given, to the front of
    /// the queue: the batch therefore sits in the queue in reverse of its
    /// own order, the last payload of the batch closest to the front.
    pub fn enqueue_multi(&mut self, webhooks: Vec<Webhook>)
        ensures
            final(self)@ == views_of(webhooks@).reverse() + old(self)@,
    {
        let ghost batch = views_of(webhooks@);
        let ghost before = self@;
        let mut rest = webhooks;
        let n = rest.len();
        proof {
            assert(batch.len() == n);
        }
        let mut k: usize = 0;
        proof {
            assert(batch.take(0).reverse() + before =~= before);
            assert(batch.skip(0) =~= batch);
        }
        while rest.len() > 0
            invariant
                k + rest@.len() == batch.len(),
                batch.len() <= usize::MAX,
                views_of(rest@) == batch.skip(k as int),
                self@ == batch.take(k as int).reverse() + before,
            decreases rest@.len(),
        {
            let ghost rest_before = rest@;
            let w = rest.remove(0);
            let ghost wv = w@;
            proof {
                assert(rest@ =~= rest_before.skip(1));
                assert(views_of(rest_before)[0] == wv);
                assert(batch[k as int] == wv);
                assert forall|i: int| 0 <= i < rest@.len() implies views_of(rest@)[i]
                    == batch.skip(k as int + 1)[i] by {
                    assert(rest@[i] == rest_before[i + 1]);
                    assert(views_of(rest_before)[i + 1] == rest_before[i + 1]@);
                    assert(views_of(rest_before)[i + 1] == batch.skip(k as int)[i + 1]);
                }
                assert(views_of(rest@) =~= batch.skip(k as int + 1));
            }
            let ghost mid = self@;
            self.webhooks.push_front(w);
            proof {
                assert(self@ =~= seq![wv] + mid);
                assert(batch.take(k as int + 1).reverse() =~= seq![wv] + batch.take(
                    k as int,
                ).reverse());
                assert(self@ =~= batch.take(k as int + 1).reverse() + before);
            }
            k += 1;
        }
        proof {
            assert(batch.take(batch.len() as int) =~= batch);
        }
    }

    /// One drain window's worth of pops: up to two payloads from the back,
    /// oldest first. The queue keeps its front part, in order.
    pub fn drain_window(&mut self) -> (r: (Option<Webhook>, Option<Webhook>))
        ensures
            old(self)@.len() == 0 ==> r.0 is None && r.1 is None && final(self)@ == old(self)@,
            old(self)@.len() == 1 ==> (r.0 matches Some(w) && w@ == old(self)@.last()) && r.1
                is None && final(self)@.len() == 0,
            old(self)@.len() >= 2 ==> (r.0 matches Some(w) && w@ == old(self)@.last()) && (
            r.1 matches Some(w) && w@ == old(self)@[old(self)@.len() - 2]) && final(self)@ == old(
                self,
            )@.take(old(self)@.len() - 2),
    {
        let ghost before = self@;
        let one = self.webhooks.pop_back();
        let ghost mid = self@;
        let two = self.webhooks.pop_back();
        proof {
            if before.len() == 0 {
                assert(self@ =~= before);
            } else if before.len() == 1 {
                assert(mid =~= before.take(before.len() - 1));
            } else {
                assert(mid =~= before.take(before.len() - 1));
                assert(self@ =~= before.take(before.len() - 2));
                assert(mid.len() > 0);
                assert(mid.last() == before[before.len() - 2]);
            }
        }
        (one, two)
    }

    /// Drains the whole queue in bounded mode: windows of up to two pops
    /// run until a window finds the queue empty. Returns the payloads in
    /// delivery order, back first, together with how many windows delivered
    /// anything: one window for every two pending payloads, rounded up.
    pub fn drain_all(&mut self) -> (r: (Vec<Webhook>, usize))
        ensures
            r.0.deep_view() == old(self)@.reverse(),
            final(self)@.len() == 0,
            r.1 == (old(self)@.len() + 1) / 2,
    {
        let ghost orig = self@;
        let mut delivered: Vec<Webhook> = Vec::new();
        let mut windows: usize = 0;
        let pending = self.len();
        proof {
            assert(orig.len() == pending);
            assert(self@ =~= orig.take(orig.len() as int));
            assert(delivered.deep_view() =~= orig.skip(orig.len() as int).reverse());
        }
        while self.len() > 0
            invariant
                self@.len() <= orig.len(),
                orig.len() <= usize::MAX,
                self@ == orig.take(self@.len() as int),
                delivered.deep_view() == orig.skip(self@.len() as int).reverse(),
                2 * windows == orig.len() - self@.len() || (self@.len() == 0 && 2 * windows
                    == orig.len() + 1),
            decreases self@.len(),
        {
            let ghost m = self@.len() as int;
            let ghost del0 = delivered@;
            let (one, two) = self.drain_window();
            windows += 1;
            match one {
                Some(w) => {
                    delivered.push(w);
                },
                None => {},
            }
            match two {
                Some(w) => {
                    delivered.push(w);
                },
                None => {},
            }
            proof {
                let n = orig.len() as int;
                let left = if m >= 2 { m - 2 } else { 0 };
                assert(orig.skip(m).len() == n - m);
                assert(orig.skip(m).reverse().len() == n - m);
                assert(del0.len() == n - m);
                assert(orig.skip(left).len() == n - left);
                assert(orig.skip(left).reverse().len() == n - left);
                assert(orig.take(m).last() == orig[m - 1]);
                if m >= 2 {
                    assert(orig.take(m).take(m - 2) =~= orig.take(m - 2));
                    assert(orig.take(m)[m - 2] == orig[m - 2]);
                    assert(delivered@ == del0.push(one.unwrap()).push(two.unwrap()));
                } else {
                    assert(self@ =~= orig.take(0));
                    assert(delivered@ == del0.push(one.unwrap()));
                }
                assert forall|i: int| 0 <= i < delivered@.len() implies delivered@[i].deep_view()
                    == orig.skip(left).reverse()[i] by {
                    if i < del0.len() {
                        assert(delivered@[i] == del0[i]);
                        assert(del0[i].deep_view() == orig.skip(m).reverse()[i]);
                        assert(orig.skip(m).reverse()[i] == orig[n - 1 - i]);
                    } else if i == del0.len() {
                        assert(delivered@[i].deep_view() == orig[m - 1]);
                    } else {
                        assert(delivered@[i].deep_view() == orig[m - 2]);
                    }
                    assert(orig.skip(left).reverse()[i] == orig[n - 1 - i]);
                }
                assert(delivered.deep_view() =~= orig.skip(left).reverse());
            }
        }
        proof {
            assert(orig.take(0) =~= Seq::<WebhookView>::empty());
            assert(orig.skip(0) =~= orig);
        }
        (delivered, windows)
    }
}

/// Law: a batch pushed by `enqueue_multi` into an empty queue sits in the
/// queue reversed, and a full drain, which delivers back first, hands it
/// back in exactly the batch's own order.
pub proof fn lemma_batch_drain_order(batch: Seq<WebhookView>, q: Seq<WebhookView>, delivered: Seq<
    WebhookView,
>)
    requires
        q == batch.reverse() + Seq::<WebhookView>::empty(),
        delivered == q.reverse(),
    ensures
        delivered == batch,
{
    assert(q =~= batch.reverse());
    assert(batch.reverse().reverse() =~= batch);
}

} // verus!
