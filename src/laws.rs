use vstd::prelude::*;
use crate::collab::has_pending;
use crate::pairs::{key_is, lookup, upsert};
use crate::royalties::{credited, share};
use crate::store::{first_match, lemma_first_match, lemma_first_match_at, request_is_pending, Store};
use crate::types::{CollabRequest, CollabRequestStatus, Split};

verus! {

/// A payment is split without normalising the percentages: an artist named by
/// exactly one split is credited that split's truncated share, however much the
/// percentages add up to.
pub proof fn law_single_split_credits_its_share(splits: Seq<Split>, amount: u64, i: int)
    requires
        0 <= i < splits.len(),
        forall|j: int| 0 <= j < splits.len() && j != i ==> splits[j].id != splits[i].id,
    ensures
        credited(splits, splits[i].id, amount) == share(amount, splits[i].pct),
    decreases splits.len(),
{
    let id = splits[i].id;
    let n = splits.len();
    if i == n - 1 {
        lemma_credited_none(splits.drop_last(), id, amount);
    } else {
        let s0 = splits.drop_last();
        assert forall|j: int| 0 <= j < s0.len() && j != i implies s0[j].id != s0[i].id by {
            assert(s0[j] == splits[j]);
        }
        law_single_split_credits_its_share(s0, amount, i);
    }
}

/// A payment credits nothing to an artist that no split names.
pub proof fn lemma_credited_none(splits: Seq<Split>, artist_id: u64, amount: u64)
    requires
        forall|j: int| 0 <= j < splits.len() ==> splits[j].id != artist_id,
    ensures
        credited(splits, artist_id, amount) == 0,
    decreases splits.len(),
{
    if splits.len() > 0 {
        let s0 = splits.drop_last();
        assert forall|j: int| 0 <= j < s0.len() implies s0[j].id != artist_id by {
            assert(s0[j] == splits[j]);
        }
        lemma_credited_none(s0, artist_id, amount);
    }
}

/// Rating a track a second time replaces the user's rating: the entries are those
/// of rating it once with the second value, no entry is added, and the user's
/// rating reads the second value.
pub proof fn law_rating_again_overwrites(ratings: Seq<(u64, u8)>, user_id: u64, first: u8, second: u8)
    ensures
        upsert(upsert(ratings, user_id, first), user_id, second) == upsert(ratings, user_id, second),
        upsert(upsert(ratings, user_id, first), user_id, second).len() == upsert(
            ratings,
            user_id,
            first,
        ).len(),
        lookup(upsert(ratings, user_id, second), user_id) == Some(second),
{
    let p = key_is::<u8>(user_id);
    let k = first_match(ratings, p);
    lemma_first_match(ratings, p);
    let once = upsert(ratings, user_id, first);
    if k >= 0 {
        assert forall|j: int| 0 <= j < k implies !p(#[trigger] once[j]) by {
            assert(once[j] == ratings[j]);
        }
        lemma_first_match_at(once, p, k);
        let again = upsert(ratings, user_id, second);
        assert forall|j: int| 0 <= j < k implies !p(#[trigger] again[j]) by {
            assert(again[j] == ratings[j]);
        }
        lemma_first_match_at(again, p, k);
        assert(once.update(k, (user_id, second)) =~= again);
    } else {
        let n = ratings.len() as int;
        assert forall|j: int| 0 <= j < n implies !p(#[trigger] once[j]) by {
            assert(once[j] == ratings[j]);
        }
        lemma_first_match_at(once, p, n);
        assert(once.update(n, (user_id, second)) =~= ratings.push((user_id, second)));
        let again = upsert(ratings, user_id, second);
        lemma_first_match_at(again, p, n);
    }
}

/// While a request is pending, an equal one is refused; once it is answered,
/// an equal one may be sent again. `sent` is the store after the request `q`
/// was sent on `before`, and `answered` the store after `q` was accepted or
/// declined.
pub proof fn law_pending_request_blocks_duplicates(
    before: Store,
    q: CollabRequest,
    sent: Store,
    accept: bool,
    answered: Store,
)
    requires
        before.wf(),
        !has_pending(before.collab_requests@, q.from, q.to, q.track_id),
        q.id == before.next_collab_request_id,
        q.status == CollabRequestStatus::Pending,
        sent.collab_requests@ == before.collab_requests@.push(q),
        answered.collab_requests@ == sent.collab_requests@.update(
            sent.pending_request_index(q.id),
            CollabRequest {
                status: if accept {
                    CollabRequestStatus::Accepted
                } else {
                    CollabRequestStatus::Declined
                },
                ..sent.collab_requests@[sent.pending_request_index(q.id)]
            },
        ),
    ensures
        has_pending(sent.collab_requests@, q.from, q.to, q.track_id),
        sent.pending_request_index(q.id) == before.collab_requests@.len(),
        !has_pending(answered.collab_requests@, q.from, q.to, q.track_id),
{
    let b = before.collab_requests@;
    let s = sent.collab_requests@;
    let n = b.len() as int;
    assert(s[n] == q);
    assert forall|j: int| 0 <= j < n implies !request_is_pending(q.id)(#[trigger] s[j]) by {
        assert(s[j] == b[j]);
        assert(b[j].id < before.next_collab_request_id);
    }
    lemma_first_match_at(s, request_is_pending(q.id), n);
    let a = answered.collab_requests@;
    assert forall|j: int|
        0 <= j < a.len() && (#[trigger] a[j]).from == q.from && a[j].to == q.to && a[j].track_id
            == q.track_id implies a[j].status != CollabRequestStatus::Pending by {
        if j < n {
            assert(a[j] == b[j]);
        }
    }
}

} // verus!
