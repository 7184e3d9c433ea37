//! The optimistic send pipeline: client-minted ids, the deterministic
//! `op_id` each send is retried under, and the honest phase a send is in
//! after its reply or failure.

use vstd::prelude::*;

use crate::api::{MessageSendOut, Timestamp};
use crate::client::{execution_spec, wire_code_spec, CallError, Execution};
use crate::text::{
    decimal_spec, decimal_string, lemma_decimal_injective, lemma_decimal_is_digits,
    lemma_split_at_separator, owned, push_str,
};

verus! {

/// A client-minted send id, unique within one [`SendIds`].
#[derive(Clone, Copy, PartialEq, Eq, Hash, Debug, PartialOrd, Ord, Structural)]
pub struct SendId(pub u64);

/// The monotonic minter of send ids.
#[derive(Clone, Copy, PartialEq, Eq, Debug, Structural)]
pub struct SendIds {
    next: u64,
}

impl SendIds {
    /// The next id this minter hands out.
    pub closed spec fn next_spec(self) -> u64 {
        self.next
    }

    /// A fresh minter starting at 0.
    pub fn new() -> (r: Self)
        ensures
            r.next_spec() == 0,
    {
        SendIds { next: 0 }
    }

    /// Mint the next id; ids are consecutive and the counter saturates.
    pub fn mint(&mut self) -> (r: SendId)
        ensures
            r.0 == old(self).next_spec(),
            final(self).next_spec() == mint_next(old(self).next_spec()),
    {
        let id = SendId(self.next);
        self.next = self.next.saturating_add(1);
        id
    }
}

/// The counter after one mint: one more, held at `u64::MAX`.
pub open spec fn mint_next(c: u64) -> u64 {
    if c == u64::MAX {
        u64::MAX
    } else {
        (c + 1) as u64
    }
}

/// The counter after `n` mints from `start`; it is also the id the next
/// mint hands out.
pub open spec fn after_mints(start: u64, n: nat) -> u64
    decreases n,
{
    if n == 0 {
        start
    } else {
        mint_next(after_mints(start, (n - 1) as nat))
    }
}

/// Minting counts: after `n` mints from a minter at `start`, the next id is
/// `start + n`, held at `u64::MAX` once reached (it never wraps back to 0).
/// From a fresh minter the ids are 0, 1, 2, ...
pub proof fn lemma_mint_counts(start: u64, n: nat)
    ensures
        after_mints(start, n) == if start + n >= u64::MAX {
            u64::MAX as int
        } else {
            start + n
        },
    decreases n,
{
    if n > 0 {
        lemma_mint_counts(start, (n - 1) as nat);
    }
}

/// Ids strictly increase: an id minted before the counter saturates is
/// smaller than every later one.
pub proof fn lemma_mint_increases(start: u64, i: nat, j: nat)
    requires
        i < j,
        after_mints(start, i) < u64::MAX,
    ensures
        after_mints(start, i) < after_mints(start, j),
{
    lemma_mint_counts(start, i);
    lemma_mint_counts(start, j);
}

impl Default for SendIds {
    fn default() -> (r: Self)
        ensures
            r.next_spec() == 0,
    {
        SendIds::new()
    }
}

/// The Unix epoch, the placeholder instant of a send not yet signed.
pub fn epoch_timestamp() -> (r: Timestamp)
    ensures
        r.seconds() == 0,
        r.subsec() == 0,
{
    Timestamp::unix_epoch()
}

/// The send namespace numbered `seq`: `dx-send-` and the number.
pub open spec fn send_namespace_spec(seq: nat) -> Seq<char> {
    "dx-send-"@ + decimal_spec(seq)
}

/// The send namespace numbered `seq`.
pub fn send_namespace(seq: u64) -> (r: String)
    ensures
        r@ == send_namespace_spec(seq as nat),
{
    let mut s = owned("dx-send-");
    let d = decimal_string(seq);
    push_str(&mut s, d.as_str());
    s
}

/// A fresh send namespace from the process-wide sequence `seq`, which
/// advances (wrapping) so two pane mounts never share a namespace.
pub fn next_send_namespace(seq: &mut u64) -> (r: String)
    ensures
        r@ == send_namespace_spec(*old(seq) as nat),
        *final(seq) == (if *old(seq) == u64::MAX { 0 } else { (*old(seq) + 1) as u64 }),
{
    let r = send_namespace(*seq);
    *seq = seq.wrapping_add(1);
    r
}

/// The `op_id` of a send: its namespace, a dash, and its client id.
pub open spec fn op_id_spec(namespace: Seq<char>, client_id: SendId) -> Seq<char> {
    namespace + "-"@ + decimal_spec(client_id.0 as nat)
}

/// The deterministic `op_id` a send is retried under: stable across
/// retries of the same entry, distinct between entries.
pub fn op_id_for(namespace: &str, client_id: SendId) -> (r: String)
    ensures
        r@ == op_id_spec(namespace@, client_id),
{
    let mut s = owned(namespace);
    push_str(&mut s, "-");
    let d = decimal_string(client_id.0);
    push_str(&mut s, d.as_str());
    proof {
        reveal_strlit("-");
    }
    s
}

/// Two sends carry the same `op_id` exactly when they come from the same
/// namespace number and have the same client id: every retry of an entry
/// reuses its `op_id`, while no two entries, and no two pane mounts, share
/// one.
pub proof fn lemma_op_ids_are_unique(seq_a: nat, id_a: SendId, seq_b: nat, id_b: SendId)
    ensures
        op_id_spec(send_namespace_spec(seq_a), id_a) == op_id_spec(send_namespace_spec(seq_b), id_b)
            <==> (seq_a == seq_b && id_a == id_b),
{
    let p = "dx-send-"@;
    let (da, db) = (decimal_spec(seq_a), decimal_spec(seq_b));
    let (ca, cb) = (decimal_spec(id_a.0 as nat), decimal_spec(id_b.0 as nat));
    let oa = op_id_spec(send_namespace_spec(seq_a), id_a);
    let ob = op_id_spec(send_namespace_spec(seq_b), id_b);
    if oa == ob {
        reveal_strlit("-");
        assert(oa =~= p + (da.push('-') + ca));
        assert(ob =~= p + (db.push('-') + cb));
        assert(da.push('-') + ca =~= oa.skip(p.len() as int));
        assert(db.push('-') + cb =~= ob.skip(p.len() as int));
        lemma_decimal_is_digits(seq_a);
        lemma_decimal_is_digits(seq_b);
        lemma_split_at_separator(da, db, '-', ca, cb);
        lemma_decimal_injective(seq_a, seq_b);
        lemma_decimal_injective(id_a.0 as nat, id_b.0 as nat);
    }
}

/// Where a send stands.
#[derive(PartialEq, Eq, Debug)]
pub enum SendPhase {
    /// Sent; no reply yet.
    Pending,
    /// The daemon authored it; waiting for the committed row (by id when
    /// the reply named it).
    Syncing { event_id: Option<String> },
    /// Not authored, or not known to be: the execution says which, and a
    /// typed refusal carries its protocol code.
    Failed { execution: Execution, code: Option<String> },
}

/// A phase as plain values.
pub enum SendPhaseView {
    Pending,
    Syncing(Option<Seq<char>>),
    Failed(Execution, Option<Seq<char>>),
}

/// A phase's plain value.
pub open spec fn phase_view(p: SendPhase) -> SendPhaseView {
    match p {
        SendPhase::Pending => SendPhaseView::Pending,
        SendPhase::Syncing { event_id } => SendPhaseView::Syncing(match event_id {
            Some(e) => Some(e@),
            None => None,
        }),
        SendPhase::Failed { execution, code } => SendPhaseView::Failed(execution, match code {
            Some(c) => Some(c@),
            None => None,
        }),
    }
}

impl Clone for SendPhase {
    fn clone(&self) -> (r: Self)
        ensures
            r == *self,
    {
        match self {
            SendPhase::Pending => SendPhase::Pending,
            SendPhase::Syncing { event_id } => SendPhase::Syncing {
                event_id: match event_id {
                    Some(e) => Some(e.clone()),
                    None => None,
                },
            },
            SendPhase::Failed { execution, code } => SendPhase::Failed {
                execution: *execution,
                code: match code {
                    Some(c) => Some(c.clone()),
                    None => None,
                },
            },
        }
    }
}

/// An optimistic send.
#[derive(PartialEq, Eq, Debug)]
pub struct SendEntry {
    /// The client id.
    pub client_id: SendId,
    /// The `op_id` it is sent (and retried) under.
    pub op_id: String,
    /// The message body.
    pub body: String,
    /// When it was composed.
    pub at: Timestamp,
    /// Where it stands.
    pub phase: SendPhase,
}

impl Clone for SendEntry {
    fn clone(&self) -> (r: Self)
        ensures
            r == *self,
    {
        SendEntry {
            client_id: self.client_id,
            op_id: self.op_id.clone(),
            body: self.body.clone(),
            at: self.at,
            phase: self.phase.clone(),
        }
    }
}

impl SendEntry {
    /// A pending send under `namespace`.
    pub fn new(namespace: &str, client_id: SendId, body: String, at: Timestamp) -> (r: Self)
        ensures
            r.client_id == client_id,
            r.op_id@ == op_id_spec(namespace@, client_id),
            r.body == body,
            r.at == at,
            r.phase == SendPhase::Pending,
    {
        SendEntry { client_id, op_id: op_id_for(namespace, client_id), body, at, phase: SendPhase::Pending }
    }

    /// Whether the timeline now holds this send's committed row: only a
    /// syncing entry with a known event id reconciles, and only on that id.
    pub fn reconciled_by<F: Fn(&String) -> bool>(&self, timeline_has: &F) -> (r: bool)
        requires
            forall|id: &String| timeline_has.requires((id,)),
        ensures
            r ==> (self.phase matches SendPhase::Syncing { event_id: Some(id) } && timeline_has.ensures((&id,), true)),
            !r ==> (!(self.phase matches SendPhase::Syncing { event_id: Some(_) }) || (self.phase matches SendPhase::Syncing { event_id: Some(id) } && timeline_has.ensures((&id,), false))),
    {
        match &self.phase {
            SendPhase::Syncing { event_id: Some(id) } => timeline_has(id),
            _ => false,
        }
    }
}

/// The phase a successful reply moves a send to: syncing on the authored
/// event's id.
pub fn phase_for_reply(out: &MessageSendOut) -> (r: SendPhase)
    ensures
        phase_view(r) == SendPhaseView::Syncing(Some(out.event_id@)),
{
    SendPhase::Syncing { event_id: Some(out.event_id.clone()) }
}

/// The honest phase of a failed send: a call the daemon definitely ran is
/// syncing (its row will arrive); otherwise it failed, with whether it may
/// have been sent and the refusal's code.
pub open spec fn failed_phase_spec(error: CallError) -> SendPhaseView {
    match execution_spec(error) {
        Execution::Definitely => SendPhaseView::Syncing(None),
        e => SendPhaseView::Failed(e, wire_code_spec(error)),
    }
}

/// Classify a failed send into its honest phase.
pub fn classify_error(error: &CallError) -> (r: SendPhase)
    ensures
        phase_view(r) == failed_phase_spec(*error),
{
    match error.execution() {
        Execution::Definitely => SendPhase::Syncing { event_id: None },
        execution => SendPhase::Failed { execution, code: wire_code(error) },
    }
}

fn wire_code(error: &CallError) -> (r: Option<String>)
    ensures
        match r {
            Some(c) => wire_code_spec(*error) == Some(c@),
            None => wire_code_spec(*error) is None,
        },
{
    match error.as_wire() {
        Some(api) => Some(api.wire_code()),
        None => None,
    }
}

} // verus!
