use vstd::prelude::*;

verus! {

/// How far a listing reaches into the table: at most this many records
/// come back from one list call.
pub const PAGE_LIMIT: usize = 20;

/// A point in time, as non-leap seconds since the Unix epoch together
/// with the nanoseconds since the last whole second.
///
/// The storage engine stamps each record with the moment of its insertion;
/// this type carries that stamp as plain numbers.
#[derive(Clone, Copy)]
pub struct Timestamp {
    pub secs: i64,
    pub nanos: u32,
}

/// The mathematical value of a `Timestamp`.
pub ghost struct TimestampView {
    pub secs: int,
    pub nanos: int,
}

impl View for Timestamp {
    type V = TimestampView;

    open spec fn view(&self) -> TimestampView {
        TimestampView { secs: self.secs as int, nanos: self.nanos as int }
    }
}

impl TimestampView {
    /// A creation stamp is a real clock reading: on or after the epoch,
    /// before the year 10000, with a normalized fractional part.
    pub open spec fn wf(self) -> bool {
        &&& 0 <= self.secs <= 253_402_300_799
        &&& 0 <= self.nanos < 1_000_000_000
    }
}

impl Timestamp {
    /// Whether this stamp is within the range the library accepts.
    pub fn valid(&self) -> (b: bool)
        ensures
            b == self@.wf(),
    {
        0 <= self.secs && self.secs <= 253_402_300_799 && self.nanos < 1_000_000_000
    }
}

/// A game result as a client submits it: every field chosen by the player,
/// none by the storage layer.
pub struct NewScore {
    pub player: String,
    pub n_turn: i32,
    pub disks: i32,
    pub median_time: i32,
}

/// The mathematical value of a `NewScore`.
pub ghost struct NewScoreView {
    pub player: Seq<char>,
    pub n_turn: int,
    pub disks: int,
    pub median_time: int,
}

impl View for NewScore {
    type V = NewScoreView;

    open spec fn view(&self) -> NewScoreView {
        NewScoreView {
            player: self.player@,
            n_turn: self.n_turn as int,
            disks: self.disks as int,
            median_time: self.median_time as int,
        }
    }
}

impl Clone for NewScore {
    fn clone(&self) -> (r: Self)
        ensures
            r@ == self@,
    {
        NewScore {
            player: self.player.clone(),
            n_turn: self.n_turn,
            disks: self.disks,
            median_time: self.median_time,
        }
    }
}

/// One persisted game result: the submitted fields plus the id and the
/// creation stamp that the storage layer assigned.
pub struct Score {
    pub id: i32,
    pub player: String,
    pub n_turn: i32,
    pub median_time: i32,
    pub disks: i32,
    pub creation_date: Timestamp,
}

/// The mathematical value of a `Score`.
pub ghost struct ScoreView {
    pub id: int,
    pub player: Seq<char>,
    pub n_turn: int,
    pub median_time: int,
    pub disks: int,
    pub creation_date: TimestampView,
}

impl View for Score {
    type V = ScoreView;

    open spec fn view(&self) -> ScoreView {
        ScoreView {
            id: self.id as int,
            player: self.player@,
            n_turn: self.n_turn as int,
            median_time: self.median_time as int,
            disks: self.disks as int,
            creation_date: self.creation_date@,
        }
    }
}

impl ScoreView {
    /// A persisted record carries a positive id and a real creation stamp.
    pub open spec fn wf(self) -> bool {
        &&& 1 <= self.id
        &&& self.creation_date.wf()
    }
}

impl Clone for Score {
    fn clone(&self) -> (r: Self)
        ensures
            r@ == self@,
    {
        Score {
            id: self.id,
            player: self.player.clone(),
            n_turn: self.n_turn,
            median_time: self.median_time,
            disks: self.disks,
            creation_date: self.creation_date,
        }
    }
}

/// The mathematical value of the score table: the rows in insertion order
/// and the id the next insert will receive.
pub ghost struct ScoreTableView {
    pub rows: Seq<ScoreView>,
    pub next_id: int,
}

impl ScoreTableView {
    /// Every row is well formed, ids grow in insertion order, and all of
    /// them lie below the id reserved for the next insert.
    pub open spec fn wf(self) -> bool {
        &&& 1 <= self.next_id
        &&& forall|i: int|
            0 <= i < self.rows.len() ==> (#[trigger] self.rows[i]).wf()
                && self.rows[i].id < self.next_id
        &&& forall|i: int, j: int|
            0 <= i < j < self.rows.len() ==> #[trigger] self.rows[i].id < #[trigger] self.rows[j].id
    }
}

/// The record an insert produces: the submitted fields, the table's next
/// free id, and the stamp taken at insertion time.
pub open spec fn insert_score(t: ScoreTableView, p: NewScoreView, at: TimestampView) -> ScoreView {
    ScoreView {
        id: t.next_id,
        player: p.player,
        n_turn: p.n_turn,
        median_time: p.median_time,
        disks: p.disks,
        creation_date: at,
    }
}

/// The table after an insert: the new record appended, the next id advanced.
pub open spec fn insert_table(
    t: ScoreTableView,
    p: NewScoreView,
    at: TimestampView,
) -> ScoreTableView {
    ScoreTableView { rows: t.rows.push(insert_score(t, p, at)), next_id: t.next_id + 1 }
}

/// What one list call returns: the rows in table order, cut off at the
/// page limit. No other ordering is applied.
pub open spec fn page(rows: Seq<ScoreView>) -> Seq<ScoreView> {
    if rows.len() <= PAGE_LIMIT { rows } else { rows.take(PAGE_LIMIT as int) }
}

/// Law: a create reflects the submitted payload exactly — the persisted
/// record carries the submitted player, turn count, disk count and median
/// time unchanged — its id is positive, and no row already in the table
/// carries that id.
pub proof fn lemma_create_reflects_payload(t: ScoreTableView, p: NewScoreView, at: TimestampView)
    requires
        t.wf(),
    ensures
        insert_score(t, p, at).player == p.player,
        insert_score(t, p, at).n_turn == p.n_turn,
        insert_score(t, p, at).disks == p.disks,
        insert_score(t, p, at).median_time == p.median_time,
        insert_score(t, p, at).creation_date == at,
        insert_score(t, p, at).id >= 1,
        forall|i: int|
            0 <= i < t.rows.len() ==> (#[trigger] t.rows[i]).id != insert_score(t, p, at).id,
{
}

/// Law: listing an empty table yields no records.
pub proof fn lemma_list_after_zero_creates(t: ScoreTableView)
    requires
        t.rows.len() == 0,
    ensures
        page(t.rows).len() == 0,
{
}

/// Law: a listing returns every row while the table holds at most the page
/// limit, and exactly the page limit once it holds more.
pub proof fn lemma_list_bounded(t: ScoreTableView)
    ensures
        t.rows.len() <= PAGE_LIMIT ==> page(t.rows) == t.rows,
        t.rows.len() > PAGE_LIMIT ==> page(t.rows).len() == PAGE_LIMIT,
{
}

/// Law: an insert grows the table by exactly one row, so listing after N
/// inserts into an empty table sees N rows (cut off at the page limit).
pub proof fn lemma_insert_adds_one_row(t: ScoreTableView, p: NewScoreView, at: TimestampView)
    ensures
        insert_table(t, p, at).rows.len() == t.rows.len() + 1,
{
}

/// Law: two creates with identical payloads both succeed and the two
/// persisted records carry distinct ids, whatever stamps they receive.
pub proof fn lemma_two_creates_distinct_ids(
    t: ScoreTableView,
    p: NewScoreView,
    at1: TimestampView,
    at2: TimestampView,
)
    ensures
        insert_score(t, p, at1).id != insert_score(insert_table(t, p, at1), p, at2).id,
{
}

/// The single table of persisted results. Ids and creation stamps are
/// assigned here and never supplied by a client; rows are never mutated
/// or deleted once inserted.
pub struct ScoreTable {
    rows: Vec<Score>,
    next_id: i32,
}

impl View for ScoreTable {
    type V = ScoreTableView;

    closed spec fn view(&self) -> ScoreTableView {
        ScoreTableView {
            rows: self.rows@.map_values(|s: Score| s@),
            next_id: self.next_id as int,
        }
    }
}

impl ScoreTable {
    pub open spec fn wf(self) -> bool {
        self@.wf()
    }

    /// An empty table; the first insert will receive id 1.
    pub fn new() -> (t: ScoreTable)
        ensures
            t.wf(),
            t@.rows.len() == 0,
            t@.next_id == 1,
    {
        let t = ScoreTable { rows: Vec::new(), next_id: 1 };
        proof {
            assert(t@.rows =~= Seq::<ScoreView>::empty());
        }
        t
    }

    /// Insert one submitted result, stamped with `at`, and hand back the
    /// fully populated record exactly as it was persisted.
    pub fn insert(&mut self, new: NewScore, at: Timestamp) -> (s: Score)
        requires
            old(self).wf(),
            at@.wf(),
            old(self)@.next_id < i32::MAX,
        ensures
            final(self).wf(),
            s@ == insert_score(old(self)@, new@, at@),
            final(self)@ == insert_table(old(self)@, new@, at@),
    {
        let ghost newv = new@;
        let s = Score {
            id: self.next_id,
            player: new.player,
            n_turn: new.n_turn,
            median_time: new.median_time,
            disks: new.disks,
            creation_date: at,
        };
        let stored = s.clone();
        self.rows.push(stored);
        self.next_id = self.next_id + 1;
        proof {
            assert(self@.rows =~= insert_table(old(self)@, newv, at@).rows);
        }
        s
    }

    /// How many rows the table holds.
    pub fn count(&self) -> (n: usize)
        ensures
            n == self@.rows.len(),
    {
        self.rows.len()
    }

    /// List the stored results: the first rows of the table, at most
    /// `PAGE_LIMIT` of them, in table order.
    pub fn list(&self) -> (r: Vec<Score>)
        ensures
            r@.map_values(|s: Score| s@) == page(self@.rows),
    {
        let n = if self.rows.len() <= PAGE_LIMIT {
            self.rows.len()
        } else {
            PAGE_LIMIT
        };
        let mut r: Vec<Score> = Vec::new();
        let mut i: usize = 0;
        while i < n
            invariant
                i <= n,
                n <= self.rows.len(),
                n == if self@.rows.len() <= PAGE_LIMIT { self@.rows.len() as int } else { PAGE_LIMIT as int },
                r@.len() == i,
                forall|j: int| 0 <= j < i ==> (#[trigger] r@[j])@ == self@.rows[j],
            decreases n - i,
        {
            let s = self.rows[i].clone();
            r.push(s);
            i = i + 1;
        }
        proof {
            assert(r@.map_values(|s: Score| s@) =~= page(self@.rows));
        }
        r
    }
}

} // verus!
