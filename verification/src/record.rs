use vstd::prelude::*;

verus! {

/// The mathematical model of one live record: the submitter as a plain
/// identity number, the payload strings as character sequences.
pub ghost struct RecordModel {
    pub submitter: u64,
    pub content_hash: Seq<char>,
    pub latitude: Seq<char>,
    pub longitude: Seq<char>,
    pub price: u64,
    pub deposit_amount: u64,
    pub created_at: i64,
    pub approve_votes: u32,
    pub reject_votes: u32,
}

impl RecordModel {
    /// A record is well formed when its payload strings are non-empty and
    /// its creation time is not negative.
    pub open spec fn wf(self) -> bool {
        &&& self.content_hash.len() > 0
        &&& self.latitude.len() > 0
        &&& self.longitude.len() > 0
        &&& self.created_at >= 0
    }
}

/// One live escrowed submission. A record exists exactly while its deposit
/// is in custody: creation and destruction of the two are a single step.
pub struct Record {
    /// Identity that created the record; sole withdrawer and reward recipient.
    pub submitter: u64,
    /// Hash of the submitted document; non-empty.
    pub content_hash: String,
    /// Latitude of the submission, as text; non-empty.
    pub latitude: String,
    /// Longitude of the submission, as text; non-empty.
    pub longitude: String,
    /// Asking price attached to the submission; unconstrained.
    pub price: u64,
    /// Native-value units held in custody while the record lives.
    pub deposit_amount: u64,
    /// Host-clock seconds at creation; start of the time-lock.
    pub created_at: i64,
    /// Count of approving votes; only ever incremented.
    pub approve_votes: u32,
    /// Count of rejecting votes; only ever incremented.
    pub reject_votes: u32,
}

impl View for Record {
    type V = RecordModel;

    open spec fn view(&self) -> RecordModel {
        RecordModel {
            submitter: self.submitter,
            content_hash: self.content_hash@,
            latitude: self.latitude@,
            longitude: self.longitude@,
            price: self.price,
            deposit_amount: self.deposit_amount,
            created_at: self.created_at,
            approve_votes: self.approve_votes,
            reject_votes: self.reject_votes,
        }
    }
}

/// No two live records belong to the same submitter.
pub open spec fn distinct_submitters(s: Seq<RecordModel>) -> bool {
    forall|i: int, j: int|
        0 <= i < s.len() && 0 <= j < s.len() && i != j ==> s[i].submitter != s[j].submitter
}

/// Every live record is well formed.
pub open spec fn all_wf(s: Seq<RecordModel>) -> bool {
    forall|i: int| 0 <= i < s.len() ==> s[i].wf()
}

/// Whether a live record exists for the submitter identity `id`.
pub open spec fn has_record(s: Seq<RecordModel>, id: u64) -> bool {
    exists|i: int| 0 <= i < s.len() && s[i].submitter == id
}

/// The position of the live record for `id`; unique when submitters are
/// distinct.
pub open spec fn record_index(s: Seq<RecordModel>, id: u64) -> int {
    choose|i: int| 0 <= i < s.len() && s[i].submitter == id
}

/// The live record for `id`.
pub open spec fn record_for(s: Seq<RecordModel>, id: u64) -> RecordModel {
    s[record_index(s, id)]
}

/// With distinct submitters, an index whose record carries `id` is the
/// record's one position, and `record_for` reads exactly that record.
pub proof fn lemma_record_index_is(s: Seq<RecordModel>, id: u64, i: int)
    requires
        distinct_submitters(s),
        0 <= i < s.len(),
        s[i].submitter == id,
    ensures
        has_record(s, id),
        record_index(s, id) == i,
        record_for(s, id) == s[i],
{
    assert(has_record(s, id));
    let j = record_index(s, id);
    assert(0 <= j < s.len() && s[j].submitter == id);
    if j != i {
        assert(s[i].submitter != s[j].submitter);
    }
}

/// Appending a record for a fresh submitter keeps submitters distinct.
pub proof fn lemma_distinct_push(s: Seq<RecordModel>, m: RecordModel)
    requires
        distinct_submitters(s),
        !has_record(s, m.submitter),
    ensures
        distinct_submitters(s.push(m)),
{
    let t = s.push(m);
    assert forall|i: int, j: int|
        0 <= i < t.len() && 0 <= j < t.len() && i != j implies t[i].submitter != t[j].submitter by {
        if i < s.len() && j < s.len() {
            assert(t[i] == s[i] && t[j] == s[j]);
        } else if i < s.len() {
            assert(t[j] == m && t[i] == s[i]);
            if s[i].submitter == m.submitter {
                assert(has_record(s, m.submitter));
            }
        } else {
            assert(t[i] == m && t[j] == s[j]);
            if s[j].submitter == m.submitter {
                assert(has_record(s, m.submitter));
            }
        }
    }
}

/// Removing the one record for `id` leaves no record for `id`, and keeps the
/// remaining submitters distinct.
pub proof fn lemma_remove_erases(s: Seq<RecordModel>, id: u64)
    requires
        distinct_submitters(s),
        has_record(s, id),
    ensures
        !has_record(s.remove(record_index(s, id)), id),
        distinct_submitters(s.remove(record_index(s, id))),
        s.remove(record_index(s, id)).len() == s.len() - 1,
{
    let i = record_index(s, id);
    assert(0 <= i < s.len() && s[i].submitter == id);
    let t = s.remove(i);
    assert forall|k: int| 0 <= k < t.len() implies t[k].submitter != id by {
        if k < i {
            assert(t[k] == s[k]);
        } else {
            assert(t[k] == s[k + 1]);
        }
    }
    assert forall|p: int, q: int|
        0 <= p < t.len() && 0 <= q < t.len() && p != q implies t[p].submitter != t[q].submitter by {
        let p0: int = if p < i { p } else { p + 1 };
        let q0: int = if q < i { q } else { q + 1 };
        assert(t[p] == s[p0] && t[q] == s[q0]);
    }
}

} // verus!
