//! Messaging startup rules: the declaration of the well-known queue with
//! its idempotence law, and the stream producer's fixed configuration.
//! The broker itself is an external collaborator; [`BrokerQueues`] models
//! its queue table exactly far enough to state what a declaration does.

use vstd::prelude::*;
use crate::error::AppError;

verus! {

/// The properties the well-known queue is declared with. The broker treats
/// a re-declaration with equal properties as a success and one with
/// different properties as a conflict.
#[derive(Clone, Copy, PartialEq, Eq, Structural, Debug)]
pub struct QueueProps {
    pub durable: bool,
    pub exclusive: bool,
    pub auto_delete: bool,
}

impl Default for QueueProps {
    /// The default declaration: transient, shared, kept when unused.
    fn default() -> (r: QueueProps)
        ensures
            !r.durable && !r.exclusive && !r.auto_delete,
    {
        QueueProps { durable: false, exclusive: false, auto_delete: false }
    }
}

/// The name of the well-known queue declared once at startup.
pub fn well_known_queue_name() -> (r: String)
    ensures
        r@ == "example"@,
{
    String::from_str("example")
}

/// The properties a queue name is bound to, if any; the latest declaration
/// of a name is the binding.
pub open spec fn queue_lookup(entries: Seq<(String, QueueProps)>, name: Seq<char>) -> Option<
    QueueProps,
>
    decreases entries.len(),
{
    if entries.len() == 0 {
        None
    } else if entries.last().0@ == name {
        Some(entries.last().1)
    } else {
        queue_lookup(entries.drop_last(), name)
    }
}

/// Whether declaring a queue with the given properties succeeds against
/// the given table: always, unless the name is already bound to different
/// properties.
pub open spec fn declare_ok(
    entries: Seq<(String, QueueProps)>,
    name: Seq<char>,
    props: QueueProps,
) -> bool {
    queue_lookup(entries, name) matches Some(p) ==> p == props
}

/// A model of the broker's queue table, holding each declared queue under
/// its name with the properties it was declared with.
pub struct BrokerQueues {
    pub entries: Vec<(String, QueueProps)>,
}

impl BrokerQueues {
    /// A broker with no queues declared.
    pub fn new() -> (r: BrokerQueues)
        ensures
            r.entries@.len() == 0,
    {
        BrokerQueues { entries: Vec::new() }
    }

    /// The binding a name currently has, if any.
    pub fn lookup(&self, name: &String) -> (r: Option<QueueProps>)
        ensures
            r == queue_lookup(self.entries@, name@),
    {
        let mut i: usize = self.entries.len();
        proof {
            assert(self.entries@.take(self.entries@.len() as int) =~= self.entries@);
        }
        while i > 0
            invariant
                i <= self.entries@.len(),
                queue_lookup(self.entries@, name@) == queue_lookup(
                    self.entries@.take(i as int),
                    name@,
                ),
            decreases i,
        {
            let idx = i - 1;
            proof {
                assert(self.entries@.take(i as int).last() == self.entries@[idx as int]);
                assert(self.entries@.take(i as int).drop_last() =~= self.entries@.take(idx as int));
            }
            if self.entries[idx].0 == *name {
                return Some(self.entries[idx].1);
            }
            i = idx;
        }
        None
    }

    /// Declares a queue: idempotently succeeds when the name is free or
    /// already bound to the same properties — binding it to the given ones —
    /// and fails with a queue error, changing nothing, when the existing
    /// binding conflicts.
    pub fn declare(&mut self, name: &String, props: QueueProps) -> (r: Result<(), AppError>)
        ensures
            r is Ok <==> declare_ok(old(self).entries@, name@, props),
            r is Ok ==> queue_lookup(final(self).entries@, name@) == Some(props),
            r is Ok ==> forall|k: Seq<char>|
                k != name@ ==> queue_lookup(final(self).entries@, k) == queue_lookup(
                    old(self).entries@,
                    k,
                ),
            r matches Err(e) ==> e is Queue && final(self).entries == old(self).entries,
    {
        match self.lookup(name) {
            Some(existing) => {
                if existing == props {
                    Ok(())
                } else {
                    Err(
                        AppError::Queue(
                            String::from_str("queue declaration conflicts with an existing queue"),
                        ),
                    )
                }
            },
            None => {
                let ghost before = self.entries@;
                self.entries.push((name.clone(), props));
                proof {
                    assert(self.entries@.last() == (self.entries@[before.len() as int]));
                    assert(self.entries@.drop_last() =~= before);
                }
                Ok(())
            },
        }
    }
}

/// Law: declaring the well-known queue twice with identical properties
/// never fails the second time. After any successful declaration the name
/// is bound to exactly those properties, so the same declaration is
/// accepted again.
pub proof fn lemma_declare_idempotent(
    entries: Seq<(String, QueueProps)>,
    name: Seq<char>,
    props: QueueProps,
)
    requires
        queue_lookup(entries, name) == Some(props),
    ensures
        declare_ok(entries, name, props),
{
}

/// The stream producer's bounded per-message delivery timeout, in
/// milliseconds.
pub const STREAM_DELIVERY_TIMEOUT_MS: u64 = 5000;

/// The key/value pairs the stream producer is configured with: the broker
/// address list and the bounded delivery timeout, nothing else.
pub fn kafka_producer_config(brokers: &String) -> (r: Vec<(String, String)>)
    ensures
        r@.len() == 2,
        r@[0].0@ == "bootstrap.servers"@,
        r@[0].1@ == brokers@,
        r@[1].0@ == "message.timeout.ms"@,
        r@[1].1@ == "5000"@,
{
    let mut out: Vec<(String, String)> = Vec::new();
    out.push((String::from_str("bootstrap.servers"), brokers.clone()));
    out.push((String::from_str("message.timeout.ms"), String::from_str("5000")));
    out
}

} // verus!
