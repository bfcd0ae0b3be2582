use vstd::prelude::*;

use crate::config::Config;
use crate::errors::ProtocolError;
use crate::record::{
    distinct_submitters, has_record, lemma_distinct_push, lemma_record_index_is,
    lemma_remove_erases, record_for, record_index, RecordModel,
};
use crate::system::{
    new_record_model, spec_submit_data, spec_vote, spec_withdraw, WithdrawReceipt,
};

verus! {

/// Single ownership, first half: while a live record exists for a submitter,
/// a second submission by that submitter — whatever its payload, deposit or
/// balance — is refused with `DuplicateRecord` and changes nothing.
pub proof fn lemma_single_ownership(
    s: Seq<RecordModel>,
    submitter: u64,
    content_hash: Seq<char>,
    latitude: Seq<char>,
    longitude: Seq<char>,
    price: u64,
    deposit_amount: u64,
    submitter_balance: u64,
    now: i64,
)
    requires
        has_record(s, submitter),
        content_hash.len() > 0,
        latitude.len() > 0,
        longitude.len() > 0,
    ensures
        spec_submit_data(
            s, submitter, content_hash, latitude, longitude, price, deposit_amount,
            submitter_balance, now,
        ).1 == Err::<u64, ProtocolError>(ProtocolError::DuplicateRecord),
        spec_submit_data(
            s, submitter, content_hash, latitude, longitude, price, deposit_amount,
            submitter_balance, now,
        ).0 == s,
{
}

/// Single ownership, second half: every transition keeps submitters
/// distinct, so at most one live record ever exists per submitter.
pub proof fn lemma_single_ownership_invariant(
    s: Seq<RecordModel>,
    submitter: u64,
    content_hash: Seq<char>,
    latitude: Seq<char>,
    longitude: Seq<char>,
    price: u64,
    deposit_amount: u64,
    submitter_balance: u64,
    now: i64,
    voter_credential_balance: u64,
    approve: bool,
    requester: u64,
    record_id: u64,
    w_now: i64,
    requester_balance: u64,
    requester_credential_balance: u64,
    cfg: Config,
)
    requires
        distinct_submitters(s),
    ensures
        distinct_submitters(spec_submit_data(
            s, submitter, content_hash, latitude, longitude, price, deposit_amount,
            submitter_balance, now,
        ).0),
        distinct_submitters(spec_vote(s, record_id, voter_credential_balance, approve).0),
        distinct_submitters(spec_withdraw(
            s, requester, record_id, w_now, requester_balance, requester_credential_balance, cfg,
        ).0),
{
    let s1 = spec_submit_data(
        s, submitter, content_hash, latitude, longitude, price, deposit_amount,
        submitter_balance, now,
    ).0;
    if s1 != s {
        lemma_distinct_push(s, new_record_model(
            submitter, content_hash, latitude, longitude, price, deposit_amount, now,
        ));
    }
    let s2 = spec_vote(s, record_id, voter_credential_balance, approve).0;
    if s2 != s {
        let i = record_index(s, record_id);
        assert(0 <= i < s.len() && s[i].submitter == record_id);
        assert forall|p: int, q: int|
            0 <= p < s2.len() && 0 <= q < s2.len() && p != q
            implies s2[p].submitter != s2[q].submitter by {
            assert(s2[p].submitter == s[p].submitter);
            assert(s2[q].submitter == s[q].submitter);
        }
    }
    let s3 = spec_withdraw(
        s, requester, record_id, w_now, requester_balance, requester_credential_balance, cfg,
    ).0;
    if s3 != s {
        lemma_remove_erases(s, record_id);
    }
}

/// Custody conservation: a successful submission moves the deposit out of
/// the submitter's balance and into the new record's custody exactly once;
/// a successful withdrawal moves the same amount back exactly once; over
/// the round trip the submitter's native balance ends where it began.
pub proof fn lemma_custody_conservation(
    s: Seq<RecordModel>,
    submitter: u64,
    content_hash: Seq<char>,
    latitude: Seq<char>,
    longitude: Seq<char>,
    price: u64,
    deposit_amount: u64,
    submitter_balance: u64,
    t0: i64,
    t1: i64,
    credential_balance: u64,
    cfg: Config,
)
    requires
        cfg.wf(),
        distinct_submitters(s),
        !has_record(s, submitter),
        content_hash.len() > 0,
        latitude.len() > 0,
        longitude.len() > 0,
        deposit_amount <= submitter_balance,
        t1 >= t0 + cfg.lock_duration,
        credential_balance + cfg.reward_amount <= u64::MAX,
    ensures
        spec_submit_data(
            s, submitter, content_hash, latitude, longitude, price, deposit_amount,
            submitter_balance, t0,
        ).1 == Ok::<u64, ProtocolError>((submitter_balance - deposit_amount) as u64),
        record_for(
            spec_submit_data(
                s, submitter, content_hash, latitude, longitude, price, deposit_amount,
                submitter_balance, t0,
            ).0,
            submitter,
        ).deposit_amount == deposit_amount,
        ({
            let s1 = spec_submit_data(
                s, submitter, content_hash, latitude, longitude, price, deposit_amount,
                submitter_balance, t0,
            ).0;
            let r2 = spec_withdraw(
                s1, submitter, submitter, t1, (submitter_balance - deposit_amount) as u64,
                credential_balance, cfg,
            ).1;
            &&& r2 is Ok
            &&& r2->Ok_0.refunded == deposit_amount
            &&& r2->Ok_0.submitter_balance_after == submitter_balance
        }),
{
    let m = new_record_model(
        submitter, content_hash, latitude, longitude, price, deposit_amount, t0,
    );
    let s1 = s.push(m);
    lemma_distinct_push(s, m);
    lemma_record_index_is(s1, submitter, s.len() as int);
}

/// Time-lock enforcement: while `now` is strictly before
/// `created_at + lock_duration` a withdrawal is refused with `TooEarly` and
/// changes nothing; from that moment on (boundary inclusive), `TooEarly` is
/// never the reported failure.
pub proof fn lemma_time_lock(
    s: Seq<RecordModel>,
    requester: u64,
    record_id: u64,
    now: i64,
    requester_balance: u64,
    requester_credential_balance: u64,
    cfg: Config,
)
    requires
        distinct_submitters(s),
        has_record(s, record_id),
    ensures
        now < record_for(s, record_id).created_at + cfg.lock_duration ==> {
            let (s2, r) = spec_withdraw(
                s, requester, record_id, now, requester_balance,
                requester_credential_balance, cfg,
            );
            s2 == s && r == Err::<WithdrawReceipt, ProtocolError>(ProtocolError::TooEarly)
        },
        now >= record_for(s, record_id).created_at + cfg.lock_duration ==> spec_withdraw(
            s, requester, record_id, now, requester_balance,
            requester_credential_balance, cfg,
        ).1 != Err::<WithdrawReceipt, ProtocolError>(ProtocolError::TooEarly),
{
}

/// Vote-gated release: a reject majority never releases, whatever the time
/// or the requester; on a matured record addressed by its submitter, the
/// outcome is `VoteRejected` exactly when rejections outnumber approvals —
/// a tie releases, provided the refund and the mint fit their balances.
pub proof fn lemma_vote_gated_release(
    s: Seq<RecordModel>,
    requester: u64,
    record_id: u64,
    now: i64,
    requester_balance: u64,
    requester_credential_balance: u64,
    cfg: Config,
)
    requires
        distinct_submitters(s),
        has_record(s, record_id),
    ensures
        record_for(s, record_id).reject_votes > record_for(s, record_id).approve_votes
            ==> !(spec_withdraw(
                s, requester, record_id, now, requester_balance,
                requester_credential_balance, cfg,
            ).1 is Ok),
        now >= record_for(s, record_id).created_at + cfg.lock_duration
            && requester == record_for(s, record_id).submitter
            && record_for(s, record_id).reject_votes > record_for(s, record_id).approve_votes
            ==> {
                let (s2, r) = spec_withdraw(
                    s, requester, record_id, now, requester_balance,
                    requester_credential_balance, cfg,
                );
                s2 == s && r == Err::<WithdrawReceipt, ProtocolError>(ProtocolError::VoteRejected)
            },
        now >= record_for(s, record_id).created_at + cfg.lock_duration
            && requester == record_for(s, record_id).submitter
            && record_for(s, record_id).reject_votes <= record_for(s, record_id).approve_votes
            && requester_balance + record_for(s, record_id).deposit_amount <= u64::MAX
            && requester_credential_balance + cfg.reward_amount <= u64::MAX
            ==> spec_withdraw(
                s, requester, record_id, now, requester_balance,
                requester_credential_balance, cfg,
            ).1 is Ok,
{
}

/// Ownership enforcement: a withdrawal by any identity but the record's
/// submitter never releases and never mutates the state; once the record
/// has matured, the reported failure is exactly `Unauthorized`.
pub proof fn lemma_ownership_enforcement(
    s: Seq<RecordModel>,
    requester: u64,
    record_id: u64,
    now: i64,
    requester_balance: u64,
    requester_credential_balance: u64,
    cfg: Config,
)
    requires
        distinct_submitters(s),
        has_record(s, record_id),
        requester != record_for(s, record_id).submitter,
    ensures
        spec_withdraw(
            s, requester, record_id, now, requester_balance,
            requester_credential_balance, cfg,
        ).0 == s,
        !(spec_withdraw(
            s, requester, record_id, now, requester_balance,
            requester_credential_balance, cfg,
        ).1 is Ok),
        now >= record_for(s, record_id).created_at + cfg.lock_duration ==> spec_withdraw(
            s, requester, record_id, now, requester_balance,
            requester_credential_balance, cfg,
        ).1 == Err::<WithdrawReceipt, ProtocolError>(ProtocolError::Unauthorized),
{
}

/// Terminality: a successful withdrawal destroys the record — afterwards a
/// vote or a second withdrawal against the same identity is refused with
/// `RecordNotFound`, while a fresh submission by the same submitter
/// succeeds again and creates an independent record with a zeroed tally.
pub proof fn lemma_terminality(
    s: Seq<RecordModel>,
    requester: u64,
    record_id: u64,
    now: i64,
    requester_balance: u64,
    requester_credential_balance: u64,
    cfg: Config,
    voter_credential_balance: u64,
    approve: bool,
    requester2: u64,
    now2: i64,
    balance2: u64,
    credential2: u64,
    content_hash: Seq<char>,
    latitude: Seq<char>,
    longitude: Seq<char>,
    price: u64,
    deposit2: u64,
    balance3: u64,
    t2: i64,
)
    requires
        distinct_submitters(s),
        spec_withdraw(
            s, requester, record_id, now, requester_balance,
            requester_credential_balance, cfg,
        ).1 is Ok,
        content_hash.len() > 0,
        latitude.len() > 0,
        longitude.len() > 0,
        deposit2 <= balance3,
    ensures
        ({
            let s2 = spec_withdraw(
                s, requester, record_id, now, requester_balance,
                requester_credential_balance, cfg,
            ).0;
            &&& !has_record(s2, record_id)
            &&& spec_vote(s2, record_id, voter_credential_balance, approve)
                == (s2, Err::<(u32, u32), ProtocolError>(ProtocolError::RecordNotFound))
            &&& spec_withdraw(s2, requester2, record_id, now2, balance2, credential2, cfg)
                == (s2, Err::<WithdrawReceipt, ProtocolError>(ProtocolError::RecordNotFound))
            &&& spec_submit_data(
                s2, record_id, content_hash, latitude, longitude, price, deposit2, balance3, t2,
            ).1 == Ok::<u64, ProtocolError>((balance3 - deposit2) as u64)
            &&& record_for(
                spec_submit_data(
                    s2, record_id, content_hash, latitude, longitude, price, deposit2,
                    balance3, t2,
                ).0,
                record_id,
            ) == new_record_model(
                record_id, content_hash, latitude, longitude, price, deposit2, t2,
            )
        }),
{
    lemma_remove_erases(s, record_id);
    let s2 = spec_withdraw(
        s, requester, record_id, now, requester_balance, requester_credential_balance, cfg,
    ).0;
    let m = new_record_model(
        record_id, content_hash, latitude, longitude, price, deposit2, t2,
    );
    let s3 = s2.push(m);
    lemma_distinct_push(s2, m);
    lemma_record_index_is(s3, record_id, s2.len() as int);
}

/// Reward issuance: a successful withdrawal mints exactly the configured
/// reward — the submitter's credential balance grows by `cfg.reward_amount`
/// and by no more — and a second attempt against the destroyed record is
/// refused, so the reward cannot be minted twice.
pub proof fn lemma_reward_issuance(
    s: Seq<RecordModel>,
    requester: u64,
    record_id: u64,
    now: i64,
    requester_balance: u64,
    requester_credential_balance: u64,
    cfg: Config,
    now2: i64,
    balance2: u64,
    credential2: u64,
)
    requires
        distinct_submitters(s),
        spec_withdraw(
            s, requester, record_id, now, requester_balance,
            requester_credential_balance, cfg,
        ).1 is Ok,
    ensures
        ({
            let (s2, r) = spec_withdraw(
                s, requester, record_id, now, requester_balance,
                requester_credential_balance, cfg,
            );
            &&& r->Ok_0.reward_minted == cfg.reward_amount
            &&& r->Ok_0.credential_balance_after
                == requester_credential_balance + cfg.reward_amount
            &&& spec_withdraw(s2, requester, record_id, now2, balance2, credential2, cfg).1
                == Err::<WithdrawReceipt, ProtocolError>(ProtocolError::RecordNotFound)
        }),
{
    lemma_remove_erases(s, record_id);
}

} // verus!
