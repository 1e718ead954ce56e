//! Proxy-channel bindings: the persisted association between a channel and
//! the proxy handle (webhook URL) used to post into it under an arbitrary
//! identity. At most one binding exists per channel; bindings are created
//! lazily and never updated or deleted.

use vstd::prelude::*;
use vstd::string::*;

use crate::errors::ModelError;

verus! {

/// The binding between a channel and its provisioned proxy handle.
#[derive(Debug)]
pub struct Binding {
    pub channel_id: u64,
    pub webhook_url: String,
}

/// The handle bound to `channel_id`, or `None` when the channel has none.
pub open spec fn lookup_spec(rows: Seq<Binding>, channel_id: u64) -> Option<Seq<char>>
    decreases rows.len(),
{
    if rows.len() == 0 {
        None
    } else if rows[0].channel_id == channel_id {
        Some(rows[0].webhook_url@)
    } else {
        lookup_spec(rows.drop_first(), channel_id)
    }
}

proof fn lemma_lookup_none(rows: Seq<Binding>, channel_id: u64)
    requires
        lookup_spec(rows, channel_id) is None,
    ensures
        forall|i: int| 0 <= i < rows.len() ==> (#[trigger] rows[i]).channel_id != channel_id,
    decreases rows.len(),
{
    if rows.len() > 0 {
        let r1 = rows.drop_first();
        lemma_lookup_none(r1, channel_id);
        assert forall|i: int| 0 <= i < rows.len() implies (#[trigger] rows[i]).channel_id
            != channel_id by {
            if i >= 1 {
                assert(rows[i] == r1[i - 1]);
            }
        }
    }
}

/// After a binding for a fresh channel is recorded at the end of the rows,
/// looking that channel up finds exactly the recorded handle.
pub proof fn lemma_lookup_push(rows: Seq<Binding>, b: Binding)
    requires
        lookup_spec(rows, b.channel_id) is None,
    ensures
        lookup_spec(rows.push(b), b.channel_id) == Some(b.webhook_url@),
    decreases rows.len(),
{
    if rows.len() == 0 {
        assert(rows.push(b)[0] == b);
    } else {
        assert(rows.push(b)[0] == rows[0]);
        assert(rows.push(b).drop_first() =~= rows.drop_first().push(b));
        lemma_lookup_push(rows.drop_first(), b);
    }
}

proof fn lemma_lookup_push_other(rows: Seq<Binding>, b: Binding, channel_id: u64)
    requires
        b.channel_id != channel_id,
    ensures
        lookup_spec(rows.push(b), channel_id) == lookup_spec(rows, channel_id),
    decreases rows.len(),
{
    if rows.len() == 0 {
        assert(rows.push(b)[0] == b);
        assert(rows.push(b).drop_first() =~= Seq::<Binding>::empty());
        assert(lookup_spec(rows.push(b).drop_first(), channel_id) is None);
        assert(lookup_spec(rows.push(b), channel_id) is None);
        assert(lookup_spec(rows, channel_id) is None);
    } else {
        assert(rows.push(b)[0] == rows[0]);
        assert(rows.push(b).drop_first() =~= rows.drop_first().push(b));
        lemma_lookup_push_other(rows.drop_first(), b, channel_id);
        if rows[0].channel_id == channel_id {
            assert(lookup_spec(rows.push(b), channel_id) == Some(rows[0].webhook_url@));
        } else {
            assert(lookup_spec(rows.push(b), channel_id) == lookup_spec(
                rows.drop_first().push(b),
                channel_id,
            ));
        }
    }
}

/// Insert-only store of channel bindings.
pub struct WebhookStore {
    rows: Vec<Binding>,
}

impl WebhookStore {
    /// The stored bindings, in insertion order.
    pub closed spec fn rows(&self) -> Seq<Binding> {
        self.rows@
    }

    /// No two bindings share a channel.
    pub open spec fn inv(&self) -> bool {
        forall|i: int, j: int|
            0 <= i < j < self.rows().len() ==> (#[trigger] self.rows()[i]).channel_id != (
            #[trigger] self.rows()[j]).channel_id
    }

    /// An empty store.
    pub fn new() -> (s: Self)
        ensures
            s.inv(),
            s.rows() =~= Seq::<Binding>::empty(),
    {
        WebhookStore { rows: Vec::new() }
    }

    /// The webhook URL bound to the channel, or `NoSuchItem` when the
    /// channel has no binding yet.
    pub fn webhook_for_channel(&self, channel_id: u64) -> (r: Result<String, ModelError>)
        ensures
            match r {
                Ok(u) => lookup_spec(self.rows(), channel_id) == Some(u@),
                Err(e) => e is NoSuchItem && lookup_spec(self.rows(), channel_id) is None,
            },
    {
        let n: usize = self.rows.len();
        let mut i: usize = 0;
        while i < n
            invariant
                0 <= i <= n,
                n == self.rows().len(),
                forall|k: int|
                    0 <= k < i ==> (#[trigger] self.rows()[k]).channel_id != channel_id,
            decreases n - i,
        {
            if self.rows[i].channel_id == channel_id {
                proof {
                    lemma_lookup_prefix(self.rows(), channel_id, i as int);
                }
                return Ok(self.rows[i].webhook_url.clone());
            }
            i += 1;
        }
        proof {
            lemma_lookup_all_other(self.rows(), channel_id);
        }
        Err(ModelError::NoSuchItem)
    }

    /// Records the binding for a channel that has none yet.
    pub fn insert_binding(&mut self, channel_id: u64, webhook_url: String) -> (r: Result<
        (),
        ModelError,
    >)
        requires
            old(self).inv(),
            lookup_spec(old(self).rows(), channel_id) is None,
        ensures
            r is Ok,
            final(self).inv(),
            final(self).rows().len() == old(self).rows().len() + 1,
            lookup_spec(final(self).rows(), channel_id) == Some(webhook_url@),
            forall|ch: u64|
                ch != channel_id ==> #[trigger] lookup_spec(final(self).rows(), ch) == lookup_spec(
                    old(self).rows(),
                    ch,
                ),
    {
        let ghost rows0 = self.rows();
        let b = Binding { channel_id, webhook_url };
        let ghost bg = b;
        self.rows.push(b);
        proof {
            lemma_lookup_none(rows0, channel_id);
            lemma_lookup_push(rows0, bg);
            assert forall|ch: u64| ch != channel_id implies #[trigger] lookup_spec(
                self.rows(),
                ch,
            ) == lookup_spec(rows0, ch) by {
                lemma_lookup_push_other(rows0, bg, ch);
            }
            assert forall|i: int, j: int| 0 <= i < j < self.rows().len() implies (
            #[trigger] self.rows()[i]).channel_id != (#[trigger] self.rows()[j]).channel_id by {
                if j < rows0.len() {
                    assert(self.rows()[i] == rows0[i] && self.rows()[j] == rows0[j]);
                } else {
                    assert(self.rows()[i] == rows0[i] && self.rows()[j] == bg);
                }
            }
        }
        Ok(())
    }
}

proof fn lemma_lookup_prefix(rows: Seq<Binding>, channel_id: u64, i: int)
    requires
        0 <= i < rows.len(),
        rows[i].channel_id == channel_id,
        forall|k: int| 0 <= k < i ==> (#[trigger] rows[k]).channel_id != channel_id,
    ensures
        lookup_spec(rows, channel_id) == Some(rows[i].webhook_url@),
    decreases i,
{
    if i > 0 {
        let r1 = rows.drop_first();
        assert forall|k: int| 0 <= k < i - 1 implies (#[trigger] r1[k]).channel_id
            != channel_id by {
            assert(r1[k] == rows[k + 1]);
        }
        assert(r1[i - 1] == rows[i]);
        lemma_lookup_prefix(r1, channel_id, i - 1);
    }
}

proof fn lemma_lookup_all_other(rows: Seq<Binding>, channel_id: u64)
    requires
        forall|k: int| 0 <= k < rows.len() ==> (#[trigger] rows[k]).channel_id != channel_id,
    ensures
        lookup_spec(rows, channel_id) is None,
    decreases rows.len(),
{
    if rows.len() > 0 {
        let r1 = rows.drop_first();
        assert forall|k: int| 0 <= k < r1.len() implies (#[trigger] r1[k]).channel_id
            != channel_id by {
            assert(r1[k] == rows[k + 1]);
        }
        lemma_lookup_all_other(r1, channel_id);
    }
}

} // verus!
