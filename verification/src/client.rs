//! The IPC client's verified core: registering a command in the pending
//! table under a fresh identifier, encoding its line, and routing one
//! inbound line — deliver it to the one caller whose request it answers,
//! discard it as an event, or end the read loop on a protocol violation.

use crate::errors::IpcError;
use crate::ids::IdGen;
use crate::ids::gen_step;
use crate::inbound::Inbound;
use crate::inbound::classify_inbound;
use crate::inbound::json_u64_field;
use crate::inbound::json_wf;
use crate::pending::Pending;
use crate::pending::send_response;
use crate::wire::encode_command;
use crate::wire::spec_command_line;
use crate::wire::views_of;
use vstd::prelude::*;

verus! {

/// The completion handle of one command.
pub type Handle = tokio::sync::oneshot::Sender<serde_json::Value>;

/// The field of an inbound line that echoes a request identifier.
pub open spec fn request_id_key() -> Seq<char> {
    "request_id"@
}

/// Every identifier in the table was issued before the generator's counter:
/// the next identifier cannot collide with an outstanding request.
pub open spec fn ids_fresh(m: Map<u64, Handle>, g: IdGen) -> bool {
    forall|k: u64| #[trigger] m.contains_key(k) ==> k < g.counter()
}

/// Allocate a fresh request identifier and register `tx` under it.  The
/// identifier never collides with an outstanding request.
pub fn register_command(pending: &mut Pending, ids: &mut IdGen, tx: Handle) -> (id: u64)
    requires
        old(ids).wf(),
        old(ids).counter() < u64::MAX,
        ids_fresh(old(pending)@, *old(ids)),
    ensures
        gen_step(*old(ids), *final(ids), id),
        final(ids).wf(),
        !old(pending)@.contains_key(id),
        final(pending)@ == old(pending)@.insert(id, tx),
        ids_fresh(final(pending)@, *final(ids)),
{
    let id = ids.get_id();
    pending.insert(id, tx);
    id
}

/// Everything `command` computes before touching the socket: allocate the
/// identifier, register the completion handle, and encode the line to write.
pub fn prepare_command(pending: &mut Pending, ids: &mut IdGen, tx: Handle, args: &Vec<String>) -> (r:
    (u64, Vec<u8>))
    requires
        old(ids).wf(),
        old(ids).counter() < u64::MAX,
        ids_fresh(old(pending)@, *old(ids)),
    ensures
        r.1@ == spec_command_line(r.0, views_of(args@)),
        gen_step(*old(ids), *final(ids), r.0),
        final(ids).wf(),
        !old(pending)@.contains_key(r.0),
        final(pending)@ == old(pending)@.insert(r.0, tx),
        ids_fresh(final(pending)@, *final(ids)),
{
    let id = register_command(pending, ids, tx);
    let line = encode_command(id, args);
    (id, line)
}

/// What routing one inbound line did.
pub enum LineOutcome {
    /// The line was not valid JSON: the read loop must end with this error.
    Malformed(serde_json::Error),
    /// Valid JSON without a request identifier: an event, discarded.
    Ignored,
    /// A response: the pending entry with this identifier was removed and
    /// its caller handed the value.
    Delivered(u64),
    /// A response whose identifier no command awaits: discarded.
    Unclaimed(u64),
}

/// How the pending table and the outcome relate to the line routed.
pub open spec fn route_spec(
    pre: Map<u64, Handle>,
    line: Seq<char>,
    post: Map<u64, Handle>,
    r: LineOutcome,
) -> bool {
    match r {
        LineOutcome::Malformed(_) => !json_wf(line) && post == pre,
        LineOutcome::Ignored => json_wf(line) && json_u64_field(line, request_id_key()) is None
            && post == pre,
        LineOutcome::Delivered(id) => json_wf(line) && json_u64_field(line, request_id_key())
            == Some(id) && pre.contains_key(id) && post == pre.remove(id),
        LineOutcome::Unclaimed(id) => json_wf(line) && json_u64_field(line, request_id_key())
            == Some(id) && !pre.contains_key(id) && post == pre,
    }
}

/// Route one inbound line.  A malformed line leaves the table untouched and
/// ends the loop; a line without a request identifier resolves nothing; a
/// response removes exactly the entry it echoes and wakes that caller with
/// the line's value.
pub fn handle_line(pending: &mut Pending, line: &str) -> (r: LineOutcome)
    ensures
        route_spec(old(pending)@, line@, final(pending)@, r),
{
    match classify_inbound(line, "request_id") {
        Inbound::Malformed(e) => LineOutcome::Malformed(e),
        Inbound::Event(_) => LineOutcome::Ignored,
        Inbound::Response(id, v) => match pending.take(id) {
            Some(tx) => {
                send_response(tx, v);
                LineOutcome::Delivered(id)
            },
            None => LineOutcome::Unclaimed(id),
        },
    }
}

/// The result the read loop's owner sees after one line: a malformed line is
/// that line's parse failure (fail-fast); anything else lets the loop go on.
pub fn listen_verdict(r: LineOutcome) -> (v: Result<(), IpcError>)
    ensures
        (v is Err) <==> (r is Malformed),
        match r {
            LineOutcome::Malformed(e) => v matches Err(IpcError::Serialization(e2)) && e2 == e,
            _ => v is Ok,
        },
{
    match r {
        LineOutcome::Malformed(e) => Err(IpcError::Serialization(e)),
        _ => Ok(()),
    }
}

/// The pending tables reached by delivering responses for `ids`, in order.
pub open spec fn after_deliveries(m: Map<u64, Handle>, ids: Seq<u64>) -> Map<u64, Handle>
    decreases ids.len(),
{
    if ids.len() == 0 {
        m
    } else {
        after_deliveries(m.remove(ids[0]), ids.drop_first())
    }
}

proof fn lemma_deliveries_preserve_other(m: Map<u64, Handle>, ids: Seq<u64>, x: u64)
    requires
        m.contains_key(x),
        forall|i: int| 0 <= i < ids.len() ==> #[trigger] ids[i] != x,
    ensures
        after_deliveries(m, ids).contains_key(x),
        after_deliveries(m, ids)[x] == m[x],
    decreases ids.len(),
{
    if ids.len() > 0 {
        assert(ids[0] != x);
        lemma_deliveries_preserve_other(m.remove(ids[0]), ids.drop_first(), x);
    }
}

proof fn lemma_deliveries_snoc(m: Map<u64, Handle>, ids: Seq<u64>, x: u64)
    ensures
        after_deliveries(m, ids.push(x)) == after_deliveries(m, ids).remove(x),
    decreases ids.len(),
{
    if ids.len() == 0 {
        let s1 = ids.push(x);
        assert(s1[0] == x);
        assert(s1.drop_first() =~= Seq::<u64>::empty());
        assert(after_deliveries(m, s1) == after_deliveries(m.remove(x), s1.drop_first()));
        assert(after_deliveries(m.remove(x), s1.drop_first()) == m.remove(x));
    } else {
        assert(ids.push(x)[0] == ids[0]);
        assert(ids.push(x).drop_first() =~= ids.drop_first().push(x));
        lemma_deliveries_snoc(m.remove(ids[0]), ids.drop_first(), x);
    }
}

/// Law: issue any number of commands, then feed their responses back in any
/// order.  When the response for `ids[k]` is routed, the table still holds
/// exactly the handle that was registered for it (earlier deliveries touched
/// only their own entries), and immediately afterwards that entry is gone —
/// every caller is resolved exactly once, with its own handle, and never a
/// second time.
pub proof fn lemma_shuffled_delivery(m: Map<u64, Handle>, ids: Seq<u64>, k: int)
    requires
        ids.no_duplicates(),
        forall|i: int| 0 <= i < ids.len() ==> m.contains_key(#[trigger] ids[i]),
        0 <= k < ids.len(),
    ensures
        after_deliveries(m, ids.take(k)).contains_key(ids[k]),
        after_deliveries(m, ids.take(k))[ids[k]] == m[ids[k]],
        !after_deliveries(m, ids.take(k + 1)).contains_key(ids[k]),
{
    let pre = ids.take(k);
    assert forall|i: int| 0 <= i < pre.len() implies #[trigger] pre[i] != ids[k] by {
        assert(pre[i] == ids[i]);
    }
    lemma_deliveries_preserve_other(m, pre, ids[k]);
    assert(ids.take(k + 1) =~= pre.push(ids[k]));
    lemma_deliveries_snoc(m, pre, ids[k]);
}

} // verus!
