use vstd::prelude::*;

use crate::config::Config;
use crate::errors::ProtocolError;
use crate::record::{
    all_wf, distinct_submitters, has_record, lemma_distinct_push, lemma_record_index_is,
    lemma_remove_erases, record_for, record_index, Record, RecordModel,
};

verus! {

/// What a successful withdrawal did: the custody refund, the reward mint,
/// and the record's final tally, for the host to apply and report.
#[derive(Clone, Copy, Debug, PartialEq, Eq, Structural)]
pub struct WithdrawReceipt {
    /// Native-value units moved from the record's custody back to the submitter.
    pub refunded: u64,
    /// The submitter's native balance after the refund.
    pub submitter_balance_after: u64,
    /// Credential minor-units minted to the submitter.
    pub reward_minted: u64,
    /// The submitter's credential balance after the mint.
    pub credential_balance_after: u64,
    /// Approving votes at the moment of release.
    pub approve_votes: u32,
    /// Rejecting votes at the moment of release.
    pub reject_votes: u32,
}

/// The record a successful submission creates: the given payload, the
/// deposit in custody, the clock reading, and a zeroed tally.
pub open spec fn new_record_model(
    submitter: u64,
    content_hash: Seq<char>,
    latitude: Seq<char>,
    longitude: Seq<char>,
    price: u64,
    deposit_amount: u64,
    now: i64,
) -> RecordModel {
    RecordModel {
        submitter,
        content_hash,
        latitude,
        longitude,
        price,
        deposit_amount,
        created_at: now,
        approve_votes: 0,
        reject_votes: 0,
    }
}

/// The submission transition. Checked in order: non-empty payload strings,
/// no live record for the submitter, sufficient balance for the deposit.
/// On success the record is appended and the deposit leaves the balance.
pub open spec fn spec_submit_data(
    s: Seq<RecordModel>,
    submitter: u64,
    content_hash: Seq<char>,
    latitude: Seq<char>,
    longitude: Seq<char>,
    price: u64,
    deposit_amount: u64,
    submitter_balance: u64,
    now: i64,
) -> (Seq<RecordModel>, Result<u64, ProtocolError>) {
    if content_hash.len() == 0 || latitude.len() == 0 || longitude.len() == 0 {
        (s, Err(ProtocolError::InvalidArgument))
    } else if has_record(s, submitter) {
        (s, Err(ProtocolError::DuplicateRecord))
    } else if submitter_balance < deposit_amount {
        (s, Err(ProtocolError::TransferFailure))
    } else {
        (
            s.push(new_record_model(
                submitter, content_hash, latitude, longitude, price, deposit_amount, now,
            )),
            Ok((submitter_balance - deposit_amount) as u64),
        )
    }
}

/// The vote transition. Checked in order: the record exists, the voter holds
/// a nonzero credential balance. On success exactly one counter grows by one
/// and the new tally is reported.
pub open spec fn spec_vote(
    s: Seq<RecordModel>,
    record_id: u64,
    voter_credential_balance: u64,
    approve: bool,
) -> (Seq<RecordModel>, Result<(u32, u32), ProtocolError>) {
    if !has_record(s, record_id) {
        (s, Err(ProtocolError::RecordNotFound))
    } else if voter_credential_balance == 0 {
        (s, Err(ProtocolError::Unauthorized))
    } else {
        let i = record_index(s, record_id);
        let r = s[i];
        let voted = if approve {
            RecordModel { approve_votes: (r.approve_votes + 1) as u32, ..r }
        } else {
            RecordModel { reject_votes: (r.reject_votes + 1) as u32, ..r }
        };
        (s.update(i, voted), Ok((voted.approve_votes, voted.reject_votes)))
    }
}

/// The withdrawal transition. Checked in order: the record exists, the
/// time-lock has elapsed (boundary inclusive), the requester is the
/// submitter, approvals meet or exceed rejections (a tie releases), and the
/// refund and the reward mint both fit their balances. On success the
/// deposit returns to the submitter, the reward is minted, and the record
/// is destroyed.
pub open spec fn spec_withdraw(
    s: Seq<RecordModel>,
    requester: u64,
    record_id: u64,
    now: i64,
    requester_balance: u64,
    requester_credential_balance: u64,
    cfg: Config,
) -> (Seq<RecordModel>, Result<WithdrawReceipt, ProtocolError>) {
    if !has_record(s, record_id) {
        (s, Err(ProtocolError::RecordNotFound))
    } else {
        let i = record_index(s, record_id);
        let r = s[i];
        if now < r.created_at + cfg.lock_duration {
            (s, Err(ProtocolError::TooEarly))
        } else if r.submitter != requester {
            (s, Err(ProtocolError::Unauthorized))
        } else if r.reject_votes > r.approve_votes {
            (s, Err(ProtocolError::VoteRejected))
        } else if requester_balance + r.deposit_amount > u64::MAX
            || requester_credential_balance + cfg.reward_amount > u64::MAX {
            (s, Err(ProtocolError::TransferFailure))
        } else {
            (
                s.remove(i),
                Ok(WithdrawReceipt {
                    refunded: r.deposit_amount,
                    submitter_balance_after: (requester_balance + r.deposit_amount) as u64,
                    reward_minted: cfg.reward_amount,
                    credential_balance_after: (requester_credential_balance
                        + cfg.reward_amount) as u64,
                    approve_votes: r.approve_votes,
                    reject_votes: r.reject_votes,
                }),
            )
        }
    }
}

/// The protocol state: the configuration and every live record. Balances
/// and the clock belong to the host ledger and cross the interface as
/// plain values.
pub struct System {
    config: Config,
    records: Vec<Record>,
}

impl View for System {
    type V = Seq<RecordModel>;

    closed spec fn view(&self) -> Seq<RecordModel> {
        self.records@.map_values(|r: Record| r@)
    }
}

impl System {
    /// The configuration the system was initialized with.
    pub closed spec fn spec_config(self) -> Config {
        self.config
    }

    /// The state is well formed: a non-negative lock duration, no two live
    /// records for one submitter, and every record well formed.
    pub open spec fn wf(self) -> bool {
        &&& self.spec_config().wf()
        &&& distinct_submitters(self@)
        &&& all_wf(self@)
    }

    /// Creates the protocol state with the given configuration and no live
    /// records.
    pub fn initialize(config: Config) -> (s: System)
        requires
            config.wf(),
        ensures
            s.wf(),
            s@ == Seq::<RecordModel>::empty(),
            s.spec_config() == config,
    {
        let s = System { config, records: Vec::new() };
        proof {
            assert(s@ =~= Seq::<RecordModel>::empty());
        }
        s
    }

    /// The position of the live record for `id`, if one exists.
    fn find_index(&self, id: u64) -> (r: Option<usize>)
        requires
            distinct_submitters(self@),
        ensures
            match r {
                Some(i) => i < self@.len() && has_record(self@, id)
                    && record_index(self@, id) == i as int,
                None => !has_record(self@, id),
            },
    {
        let n = self.records.len();
        let mut i: usize = 0;
        while i < n
            invariant
                n == self.records.len(),
                self@.len() == n,
                i <= n,
                distinct_submitters(self@),
                forall|j: int| 0 <= j < i ==> self@[j].submitter != id,
            decreases n - i,
        {
            if self.records[i].submitter == id {
                proof {
                    assert(self@[i as int] == self.records@[i as int]@);
                    lemma_record_index_is(self@, id, i as int);
                }
                return Some(i);
            }
            proof {
                assert(self@[i as int] == self.records@[i as int]@);
            }
            i += 1;
        }
        proof {
            assert(!has_record(self@, id));
        }
        None
    }

    /// Whether a live record exists for the submitter identity `id`.
    pub fn contains_record(&self, id: u64) -> (b: bool)
        requires
            self.wf(),
        ensures
            b == has_record(self@, id),
    {
        self.find_index(id).is_some()
    }

    /// The number of live records.
    pub fn record_count(&self) -> (n: usize)
        ensures
            n == self@.len(),
    {
        self.records.len()
    }

    /// The live record for `id`, if one exists.
    pub fn get_record(&self, id: u64) -> (r: Option<&Record>)
        requires
            self.wf(),
        ensures
            match r {
                Some(rec) => has_record(self@, id) && rec@ == record_for(self@, id),
                None => !has_record(self@, id),
            },
    {
        match self.find_index(id) {
            Some(i) => Some(&self.records[i]),
            None => None,
        }
    }

    /// Accepts a submission: validates the payload, refuses a duplicate,
    /// moves the deposit out of the submitter's balance into custody, and
    /// creates the record with a zeroed tally. Returns the submitter's
    /// balance after the deposit.
    pub fn submit_data(
        &mut self,
        submitter: u64,
        content_hash: String,
        latitude: String,
        longitude: String,
        price: u64,
        deposit_amount: u64,
        submitter_balance: u64,
        now: i64,
    ) -> (r: Result<u64, ProtocolError>)
        requires
            old(self).wf(),
            now >= 0,
        ensures
            final(self).wf(),
            final(self).spec_config() == old(self).spec_config(),
            final(self)@ == spec_submit_data(
                old(self)@, submitter, content_hash@, latitude@, longitude@,
                price, deposit_amount, submitter_balance, now,
            ).0,
            r == spec_submit_data(
                old(self)@, submitter, content_hash@, latitude@, longitude@,
                price, deposit_amount, submitter_balance, now,
            ).1,
    {
        if content_hash.as_str().unicode_len() == 0 || latitude.as_str().unicode_len() == 0
            || longitude.as_str().unicode_len() == 0 {
            return Err(ProtocolError::InvalidArgument);
        }
        if self.find_index(submitter).is_some() {
            return Err(ProtocolError::DuplicateRecord);
        }
        if submitter_balance < deposit_amount {
            return Err(ProtocolError::TransferFailure);
        }
        let record = Record {
            submitter,
            content_hash,
            latitude,
            longitude,
            price,
            deposit_amount,
            created_at: now,
            approve_votes: 0,
            reject_votes: 0,
        };
        proof {
            let m = record@;
            lemma_distinct_push(old(self)@, m);
        }
        self.records.push(record);
        proof {
            assert(self@ =~= old(self)@.push(
                new_record_model(
                    submitter, content_hash@, latitude@, longitude@, price, deposit_amount, now,
                ),
            ));
        }
        Ok(submitter_balance - deposit_amount)
    }

    /// Casts one vote on the record for `record_id`. The voter must hold a
    /// nonzero credential balance, read fresh from the oracle and handed in
    /// here. Exactly one counter grows by one; the new tally is returned.
    pub fn vote(
        &mut self,
        record_id: u64,
        voter_credential_balance: u64,
        approve: bool,
    ) -> (r: Result<(u32, u32), ProtocolError>)
        requires
            old(self).wf(),
            approve && has_record(old(self)@, record_id) && voter_credential_balance > 0
                ==> record_for(old(self)@, record_id).approve_votes < u32::MAX,
            !approve && has_record(old(self)@, record_id) && voter_credential_balance > 0
                ==> record_for(old(self)@, record_id).reject_votes < u32::MAX,
        ensures
            final(self).wf(),
            final(self).spec_config() == old(self).spec_config(),
            final(self)@ == spec_vote(old(self)@, record_id, voter_credential_balance, approve).0,
            r == spec_vote(old(self)@, record_id, voter_credential_balance, approve).1,
    {
        let idx = match self.find_index(record_id) {
            Some(i) => i,
            None => {
                return Err(ProtocolError::RecordNotFound);
            },
        };
        if voter_credential_balance == 0 {
            return Err(ProtocolError::Unauthorized);
        }
        proof {
            assert(self@[idx as int] == self.records@[idx as int]@);
        }
        let ghost prior = self@;
        let mut rec = self.records.remove(idx);
        if approve {
            rec.approve_votes = rec.approve_votes + 1;
        } else {
            rec.reject_votes = rec.reject_votes + 1;
        }
        let tally_approve = rec.approve_votes;
        let tally_reject = rec.reject_votes;
        proof {
            assert(prior.remove(idx as int) =~= self@);
        }
        self.records.insert(idx, rec);
        proof {
            assert(self@ =~= prior.update(idx as int, spec_vote(
                prior, record_id, voter_credential_balance, approve,
            ).0[idx as int]));
            assert(self@ =~= spec_vote(prior, record_id, voter_credential_balance, approve).0);
        }
        Ok((tally_approve, tally_reject))
    }

    /// Attempts release of the record for `record_id`: the time-lock must
    /// have elapsed (boundary inclusive), the requester must be the
    /// submitter, and approvals must meet or exceed rejections (a tie
    /// releases). On success the deposit returns to the requester's
    /// balance, the configured reward is minted onto the requester's
    /// credential balance, and the record is destroyed.
    pub fn withdraw(
        &mut self,
        requester: u64,
        record_id: u64,
        now: i64,
        requester_balance: u64,
        requester_credential_balance: u64,
    ) -> (r: Result<WithdrawReceipt, ProtocolError>)
        requires
            old(self).wf(),
        ensures
            final(self).wf(),
            final(self).spec_config() == old(self).spec_config(),
            final(self)@ == spec_withdraw(
                old(self)@, requester, record_id, now, requester_balance,
                requester_credential_balance, old(self).spec_config(),
            ).0,
            r == spec_withdraw(
                old(self)@, requester, record_id, now, requester_balance,
                requester_credential_balance, old(self).spec_config(),
            ).1,
    {
        let idx = match self.find_index(record_id) {
            Some(i) => i,
            None => {
                return Err(ProtocolError::RecordNotFound);
            },
        };
        proof {
            assert(self@[idx as int] == self.records@[idx as int]@);
            assert(self@[idx as int].wf());
        }
        let rec = &self.records[idx];
        if !(now >= rec.created_at && now - rec.created_at >= self.config.lock_duration) {
            return Err(ProtocolError::TooEarly);
        }
        if rec.submitter != requester {
            return Err(ProtocolError::Unauthorized);
        }
        if rec.reject_votes > rec.approve_votes {
            return Err(ProtocolError::VoteRejected);
        }
        if requester_balance > u64::MAX - rec.deposit_amount
            || requester_credential_balance > u64::MAX - self.config.reward_amount {
            return Err(ProtocolError::TransferFailure);
        }
        let ghost prior = self@;
        proof {
            lemma_remove_erases(prior, record_id);
        }
        let rec = self.records.remove(idx);
        let receipt = WithdrawReceipt {
            refunded: rec.deposit_amount,
            submitter_balance_after: requester_balance + rec.deposit_amount,
            reward_minted: self.config.reward_amount,
            credential_balance_after: requester_credential_balance + self.config.reward_amount,
            approve_votes: rec.approve_votes,
            reject_votes: rec.reject_votes,
        };
        proof {
            assert(self@ =~= prior.remove(idx as int));
        }
        Ok(receipt)
    }

    /// The configuration, for the host and for callers.
    pub fn config(&self) -> (c: Config)
        ensures
            c == self.spec_config(),
    {
        self.config
    }
}

} // verus!
