use vstd::prelude::*;

use crate::score::{insert_score, insert_table, page, NewScore, Score, ScoreTable, Timestamp};
use crate::wire::{encode_score, encode_scores, score_json, scores_json, timestamp_text};

verus! {

/// An HTTP reply: the status code and the text body.
pub struct HttpReply {
    pub status: u16,
    pub body: String,
}

/// Serve one create request against the table. `payload` is the outcome of
/// decoding the request body: a decode failure carries the decoder's
/// diagnostic and yields a client error with the table untouched; a decoded
/// payload is inserted, stamped with `at`, and the reply body is the JSON
/// object of the persisted record.
pub fn handle_create(
    table: &mut ScoreTable,
    payload: Result<NewScore, String>,
    at: Timestamp,
) -> (r: HttpReply)
    requires
        old(table).wf(),
        at@.wf(),
        old(table)@.next_id < i32::MAX,
    ensures
        final(table).wf(),
        payload matches Err(e) ==> final(table)@ == old(table)@ && r.status == 400 && r.body@
            == e@,
        payload matches Ok(p) ==> final(table)@ == insert_table(old(table)@, p@, at@) && r.status
            == 200 && r.body@ == score_json(insert_score(old(table)@, p@, at@)),
        payload matches Ok(p) ==> timestamp_text(at@.secs, at@.nanos).len() > 0,
{
    match payload {
        Err(e) => HttpReply { status: 400, body: e },
        Ok(p) => {
            let s = table.insert(p, at);
            let body = encode_score(&s);
            HttpReply { status: 200, body }
        },
    }
}

/// Serve one list request against the table: always a success reply whose
/// body is the JSON array of the first rows, up to the page limit, in
/// table order.
pub fn handle_list(table: &ScoreTable) -> (r: HttpReply)
    requires
        table.wf(),
    ensures
        r.status == 200,
        r.body@ == scores_json(page(table@.rows)),
{
    let rows = table.list();
    proof {
        assert forall|k: int| 0 <= k < rows@.len() implies (#[trigger] rows@[k])@.creation_date.wf() by {
            let vs = rows@.map_values(|s: Score| s@);
            assert(vs[k] == rows@[k]@);
            assert(k < page(table@.rows).len());
            assert(k < table@.rows.len());
            assert(page(table@.rows)[k] == table@.rows[k]);
            assert(table@.rows[k].wf());
        }
    }
    let body = encode_scores(&rows);
    HttpReply { status: 200, body }
}

/// The reply to a create request once the storage call has finished: the
/// persisted record as JSON on success, the storage error's text under a
/// server-error status otherwise.
pub fn create_response(res: Result<Score, String>) -> (r: HttpReply)
    requires
        res matches Ok(s) ==> s@.creation_date.wf(),
    ensures
        res matches Ok(s) ==> r.status == 200 && r.body@ == score_json(s@),
        res matches Err(e) ==> r.status == 500 && r.body@ == e@,
{
    match res {
        Ok(s) => HttpReply { status: 200, body: encode_score(&s) },
        Err(e) => HttpReply { status: 500, body: e },
    }
}

/// The reply to a list request once the storage call has finished: the
/// rows as a JSON array on success, the storage error's text under a
/// server-error status otherwise.
pub fn list_response(res: Result<Vec<Score>, String>) -> (r: HttpReply)
    requires
        res matches Ok(v) ==> forall|k: int|
            0 <= k < v@.len() ==> (#[trigger] v@[k])@.creation_date.wf(),
    ensures
        res matches Ok(v) ==> r.status == 200 && r.body@ == scores_json(
            v@.map_values(|s: Score| s@),
        ),
        res matches Err(e) ==> r.status == 500 && r.body@ == e@,
{
    match res {
        Ok(v) => HttpReply { status: 200, body: encode_scores(&v) },
        Err(e) => HttpReply { status: 500, body: e },
    }
}

} // verus!
