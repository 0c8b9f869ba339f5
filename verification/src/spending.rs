//! What payments add up to per token, and the record of what owners have spent.

use crate::ledger::{Ledger, LedgerView};
use crate::rules;
use crate::types::{Address, SpendingKey, SpentTracker, Transfer};
use vstd::prelude::*;

verus! {

/// Whether `totals` names each token of a list of payments once, with the sum
/// of its amounts.
pub open spec fn totals_of(transfers: Seq<Transfer>, totals: Seq<(Address, i128)>) -> bool {
    &&& forall|i: int, j: int|
        0 <= i < totals.len() && 0 <= j < totals.len() && (#[trigger] totals[i]).0 == (
        #[trigger] totals[j]).0 ==> i == j
    &&& forall|j: int|
        0 <= j < totals.len() ==> (#[trigger] totals[j]).1 == rules::token_total(
            transfers,
            totals[j].0,
        ) && rules::pays_in(transfers, totals[j].0)
    &&& forall|i: int|
        0 <= i < transfers.len() ==> names_token(totals, (#[trigger] transfers[i]).token)
}

/// Whether a list of totals names a token.
pub open spec fn names_token(totals: Seq<(Address, i128)>, token: Address) -> bool {
    exists|j: int| 0 <= j < totals.len() && (#[trigger] totals[j]).0 == token
}

/// A longer prefix adds one payment to the total of its token.
pub proof fn lemma_token_total_step(transfers: Seq<Transfer>, i: int, token: Address)
    requires
        0 <= i < transfers.len(),
    ensures
        rules::token_total(transfers.take(i + 1), token) == rules::token_total(
            transfers.take(i),
            token,
        ) + if transfers[i].token == token {
            transfers[i].amount as int
        } else {
            0
        },
{
    assert(transfers.take(i + 1).drop_last() =~= transfers.take(i));
    assert(transfers.take(i + 1).last() == transfers[i]);
}

/// A token in which no payment is made has the total 0.
pub proof fn lemma_token_total_none(transfers: Seq<Transfer>, token: Address)
    requires
        !rules::pays_in(transfers, token),
    ensures
        rules::token_total(transfers, token) == 0,
    decreases transfers.len(),
{
    if transfers.len() > 0 {
        assert(transfers.last() == transfers[transfers.len() - 1]);
        assert(!rules::pays_in(transfers.drop_last(), token)) by {
            if rules::pays_in(transfers.drop_last(), token) {
                let i: int = choose|i: int|
                    0 <= i < transfers.drop_last().len() && (
                    #[trigger] transfers.drop_last()[i]).token == token;
                assert(transfers[i].token == token);
            }
        }
        lemma_token_total_none(transfers.drop_last(), token);
    }
}

/// The total of each token in a list of payments, or `None` if a running total
/// is more than an amount can hold.
pub fn token_totals(transfers: &Vec<Transfer>) -> (totals: Option<Vec<(Address, i128)>>)
    ensures
        totals is Some == rules::totals_fit(transfers@),
        totals matches Some(t) ==> totals_of(transfers@, t@),
{
    let mut totals: Vec<(Address, i128)> = Vec::new();
    let mut i: usize = 0;
    assert(transfers@.take(0) =~= Seq::<Transfer>::empty());
    while i < transfers.len()
        invariant
            i <= transfers@.len(),
            totals_of(transfers@.take(i as int), totals@),
            forall|k: int, token: Address|
                0 <= k <= i ==> rules::is_amount(
                    #[trigger] rules::token_total(transfers@.take(k), token),
                ),
        decreases transfers@.len() - i,
    {
        let ghost seen = transfers@.take(i as int);
        let ghost next = transfers@.take(i + 1);
        let ghost before = totals@;
        let transfer: Transfer = transfers[i];
        proof {
            assert forall|token: Address| #[trigger]
                rules::token_total(next, token) == rules::token_total(seen, token) + if transfer.token
                    == token {
                    transfer.amount as int
                } else {
                    0
                } by {
                lemma_token_total_step(transfers@, i as int, token);
            }
            assert(next =~= seen.push(transfer));
            assert forall|token: Address| rules::pays_in(seen, token) implies rules::pays_in(
                next,
                token,
            ) by {
                let w: int = choose|w: int|
                    0 <= w < seen.len() && (#[trigger] seen[w]).token == token;
                assert(next[w].token == token);
            }
            assert(next[i as int].token == transfer.token);
            assert(rules::pays_in(next, transfer.token));
        }
        let mut j: usize = 0;
        while j < totals.len() && totals[j].0 != transfer.token
            invariant
                j <= totals@.len(),
                totals@ == before,
                forall|k: int| 0 <= k < j ==> (#[trigger] totals@[k]).0 != transfer.token,
            decreases totals@.len() - j,
        {
            j = j + 1;
        }
        if j < totals.len() {
            let total: i128 = match totals[j].1.checked_add(transfer.amount) {
                Some(total) => total,
                None => {
                    proof {
                        let sum: int = rules::token_total(next, transfer.token);
                        assert(!rules::is_amount(
                            rules::token_total(transfers@.take(i + 1), transfer.token),
                        ));
                    }
                    return None;
                },
            };
            totals.set(j, (transfer.token, total));
            proof {
                assert forall|k: int| 0 <= k < totals@.len() implies (#[trigger] totals@[k]).0
                    == before[k].0 by {}
                assert forall|k: int| 0 <= k < next.len() implies names_token(
                    totals@,
                    (#[trigger] next[k]).token,
                ) by {
                    if k < i {
                        assert(names_token(before, seen[k].token));
                        let w: int = choose|w: int|
                            0 <= w < before.len() && (#[trigger] before[w]).0 == seen[k].token;
                        assert(totals@[w].0 == next[k].token);
                    } else {
                        assert(totals@[j as int].0 == next[k].token);
                    }
                }
                assert forall|k: int, l: int|
                    0 <= k < totals@.len() && 0 <= l < totals@.len() && (#[trigger] totals@[k]).0
                        == (#[trigger] totals@[l]).0 implies k == l by {
                    assert(before[k].0 == before[l].0);
                }
                assert forall|k: int| 0 <= k < totals@.len() implies (#[trigger] totals@[k]).1
                    == rules::token_total(next, totals@[k].0) && rules::pays_in(
                    next,
                    totals@[k].0,
                ) by {
                    assert(before[k].1 == rules::token_total(seen, before[k].0));
                    if k != j {
                        assert(before[k].0 != before[j as int].0);
                    }
                }
                assert(totals_of(next, totals@));
            }
        } else {
            totals.push((transfer.token, transfer.amount));
            proof {
                assert(!rules::pays_in(seen, transfer.token)) by {
                    if rules::pays_in(seen, transfer.token) {
                        let w: int = choose|w: int|
                            0 <= w < seen.len() && (#[trigger] seen[w]).token == transfer.token;
                        assert(names_token(before, seen[w].token));
                    }
                }
                lemma_token_total_none(seen, transfer.token);
                assert forall|k: int| 0 <= k < before.len() implies #[trigger] totals@[k]
                    == before[k] by {}
                assert(totals@[before.len() as int] == (transfer.token, transfer.amount));
                assert forall|k: int| 0 <= k < next.len() implies names_token(
                    totals@,
                    (#[trigger] next[k]).token,
                ) by {
                    if k < i {
                        assert(names_token(before, seen[k].token));
                        let w: int = choose|w: int|
                            0 <= w < before.len() && (#[trigger] before[w]).0 == seen[k].token;
                        assert(totals@[w].0 == next[k].token);
                    } else {
                        assert(totals@[before.len() as int].0 == next[k].token);
                    }
                }
                assert forall|k: int| 0 <= k < totals@.len() implies (#[trigger] totals@[k]).1
                    == rules::token_total(next, totals@[k].0) && rules::pays_in(
                    next,
                    totals@[k].0,
                ) by {
                    if k < before.len() {
                        assert(before[k].1 == rules::token_total(seen, before[k].0));
                        assert(before[k].0 != transfer.token);
                    }
                }
                assert(totals_of(next, totals@));
            }
        }
        proof {
            assert forall|token: Address| rules::is_amount(
                #[trigger] rules::token_total(next, token),
            ) by {
                assert(rules::is_amount(rules::token_total(transfers@.take(i as int), token)));
                if token == transfer.token {
                    assert(names_token(totals@, next[i as int].token));
                    let w: int = choose|w: int|
                        0 <= w < totals@.len() && (#[trigger] totals@[w]).0 == token;
                    assert(totals@[w].1 == rules::token_total(next, token));
                }
            }
        }
        i = i + 1;
    }
    assert(transfers@.take(i as int) =~= transfers@);
    Some(totals)
}

/// The tracker of each token after a spend of its total.
pub open spec fn trackers_of(
    s: LedgerView,
    now: u64,
    owner: Address,
    totals: Seq<(Address, i128)>,
    trackers: Seq<SpentTracker>,
) -> bool {
    forall|j: int|
        0 <= j < trackers.len() ==> #[trigger] trackers[j] == rules::tracker_after(
            rules::tracker_of(s, owner, totals[j].0),
            totals[j].1 as int,
            now,
        )
}

/// The tracker after a spend, or `None` if the recorded amount would be more
/// than an amount can hold.
pub fn track(tracker: SpentTracker, amount: i128, now: u64) -> (after: Option<SpentTracker>)
    ensures
        after is Some == rules::is_amount(rules::spent_after(tracker, amount as int, now)),
        after matches Some(t) ==> t == rules::tracker_after(tracker, amount as int, now),
{
    if tracker.epoch != 0 && now > tracker.epoch.saturating_add(rules::SPENDING_WINDOW) {
        return Some(SpentTracker { spent: amount, epoch: now });
    }
    let epoch: u64 = if tracker.epoch == 0 {
        now
    } else {
        tracker.epoch
    };
    match tracker.spent.checked_add(amount) {
        Some(spent) => Some(SpentTracker { spent, epoch }),
        None => None,
    }
}

impl Ledger {
    /// Records that an owner made a list of payments, unless an amount would be
    /// more than the record can hold: then nothing is recorded.
    pub fn record_spends(&mut self, now: u64, owner: Address, transfers: &Vec<Transfer>) -> (recorded:
        bool)
        requires
            old(self).wf(),
        ensures
            final(self).wf(),
            recorded == rules::spends_fit(old(self)@, now, owner, transfers@),
            final(self)@ == (if recorded {
                LedgerView {
                    spent: rules::spends_recorded(old(self)@, now, owner, transfers@),
                    ..old(self)@
                }
            } else {
                old(self)@
            }),
    {
        let totals: Vec<(Address, i128)> = match token_totals(transfers) {
            None => {
                return false;
            },
            Some(totals) => totals,
        };
        let ghost before = self@;
        let mut trackers: Vec<SpentTracker> = Vec::new();
        let mut i: usize = 0;
        while i < totals.len()
            invariant
                i <= totals@.len(),
                trackers@.len() == i,
                self.wf(),
                self@ == before,
                rules::totals_fit(transfers@),
                totals_of(transfers@, totals@),
                trackers_of(before, now, owner, totals@, trackers@),
                forall|j: int|
                    0 <= j < i ==> rules::is_amount(
                        rules::spent_after(
                            rules::tracker_of(before, owner, (#[trigger] totals@[j]).0),
                            totals@[j].1 as int,
                            now,
                        ),
                    ),
            decreases totals@.len() - i,
        {
            let tracker: SpentTracker = self.read_spent_tracker(owner, totals[i].0);
            match track(tracker, totals[i].1, now) {
                None => {
                    proof {
                        let token = totals@[i as int].0;
                        assert(rules::pays_in(transfers@, token));
                        let w: int = choose|w: int|
                            0 <= w < transfers@.len() && (#[trigger] transfers@[w]).token == token;
                        assert(!rules::is_amount(
                            rules::spent_after(
                                rules::tracker_of(before, owner, transfers@[w].token),
                                rules::token_total(transfers@, transfers@[w].token),
                                now,
                            ),
                        ));
                    }
                    return false;
                },
                Some(after) => {
                    trackers.push(after);
                },
            }
            i = i + 1;
        }
        proof {
            assert forall|k: int| 0 <= k < transfers@.len() implies rules::is_amount(
                rules::spent_after(
                    rules::tracker_of(before, owner, (#[trigger] transfers@[k]).token),
                    rules::token_total(transfers@, transfers@[k].token),
                    now,
                ),
            ) by {
                assert(names_token(totals@, transfers@[k].token));
                let w: int = choose|w: int|
                    0 <= w < totals@.len() && (#[trigger] totals@[w]).0 == transfers@[k].token;
            }
        }
        let mut j: usize = 0;
        while j < totals.len()
            invariant
                j <= totals@.len(),
                trackers@.len() == totals@.len(),
                self.wf(),
                totals_of(transfers@, totals@),
                self@ == (LedgerView { spent: self@.spent, ..before }),
                forall|key: SpendingKey| #[trigger]
                    self@.spent.contains_key(key) <==> before.spent.contains_key(key) || key.owner
                        == owner && names_token(totals@.take(j as int), key.token),
                forall|k: int|
                    0 <= k < j ==> self@.spent[SpendingKey {
                        owner,
                        token: (#[trigger] totals@[k]).0,
                    }] == trackers@[k],
                forall|key: SpendingKey| #[trigger]
                    self@.spent.contains_key(key) && !(key.owner == owner && names_token(
                        totals@.take(j as int),
                        key.token,
                    )) ==> self@.spent[key] == before.spent[key],
            decreases totals@.len() - j,
        {
            let ghost held = self@.spent;
            let token: Address = totals[j].0;
            let ghost done = totals@.take(j as int);
            let ghost next = totals@.take(j + 1);
            self.write_spent_tracker(owner, token, trackers[j]);
            proof {
                assert forall|t: Address| #[trigger]
                    names_token(next, t) == (names_token(done, t) || t == token) by {
                    if names_token(next, t) {
                        let w: int = choose|w: int|
                            0 <= w < next.len() && (#[trigger] next[w]).0 == t;
                        if w < j {
                            assert(done[w].0 == t);
                        }
                    }
                    if names_token(done, t) {
                        let w: int = choose|w: int|
                            0 <= w < done.len() && (#[trigger] done[w]).0 == t;
                        assert(next[w].0 == t);
                    }
                    if t == token {
                        assert(next[j as int].0 == t);
                    }
                }
                assert forall|k: int| 0 <= k < j implies (#[trigger] totals@[k]).0 != token by {}
            }
            j = j + 1;
        }
        proof {
            assert(totals@.take(j as int) =~= totals@);
            let goal = rules::spends_recorded(before, now, owner, transfers@);
            assert forall|token: Address| #[trigger]
                names_token(totals@, token) == rules::pays_in(transfers@, token) by {
                if names_token(totals@, token) {
                    let w: int = choose|w: int|
                        0 <= w < totals@.len() && (#[trigger] totals@[w]).0 == token;
                    assert(rules::pays_in(transfers@, totals@[w].0));
                }
                if rules::pays_in(transfers@, token) {
                    let w: int = choose|w: int|
                        0 <= w < transfers@.len() && (#[trigger] transfers@[w]).token == token;
                    assert(names_token(totals@, transfers@[w].token));
                }
            }
            assert forall|key: SpendingKey| #[trigger]
                self@.spent.contains_key(key) implies self@.spent[key] == goal[key] by {
                if key.owner == owner && names_token(totals@, key.token) {
                    let w: int = choose|w: int|
                        0 <= w < totals@.len() && (#[trigger] totals@[w]).0 == key.token;
                    assert(key == SpendingKey { owner, token: totals@[w].0 });
                }
            }
            assert(self@.spent =~= goal);
        }
        true
    }
}

} // verus!
