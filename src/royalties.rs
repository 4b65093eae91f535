use vstd::prelude::*;
use crate::activity::logged_once;
use crate::store::{
    artist_has_id, lemma_first_match, lemma_views_update, track_has_id,
    views, Store,
};
use crate::text::{decimal, join2, join3, to_decimal};
use crate::types::{ArtistView, Payment, Split, Track, TrackView};

verus! {

/// An artist's share of a payment: the percentage of the amount, truncated.
pub open spec fn share(amount: u64, pct: u8) -> int {
    (amount as int) * (pct as int) / 100
}

/// What one payment credits to an artist: the shares of every split naming it.
pub open spec fn credited(splits: Seq<Split>, artist_id: u64, amount: u64) -> int
    decreases splits.len(),
{
    if splits.len() == 0 {
        0
    } else {
        credited(splits.drop_last(), artist_id, amount) + (if splits.last().id == artist_id {
            share(amount, splits.last().pct)
        } else {
            0
        })
    }
}

/// The splits of the track with this id, if it has any.
pub open spec fn splits_of(s: &Store, track_id: u64) -> Option<Seq<Split>> {
    match s.track_at(track_id) {
        Some(t) => t.splits,
        None => None,
    }
}

/// Paying `amount` for the track leaves every balance within `u64`.
pub open spec fn payment_fits(s: &Store, track_id: u64, amount: u64) -> bool {
    splits_of(s, track_id) matches Some(sp) ==> forall|j: int|
        0 <= j < s.artists@.len() ==> #[trigger] s.artists@[j].royalty_balance + credited(
            sp,
            s.artists@[j].id,
            amount,
        ) <= u64::MAX
}

/// The details logged for a payment.
pub open spec fn paid_details(amount: u64, track_id: u64) -> Seq<char> {
    "Paid "@ + decimal(amount as nat) + " for track "@ + decimal(track_id as nat)
}

/// The details logged for a withdrawal.
pub open spec fn withdrew_details(amount: u64) -> Seq<char> {
    "Withdrew "@ + decimal(amount as nat) + " tokens"@
}

pub proof fn lemma_credited_nonneg(splits: Seq<Split>, artist_id: u64, amount: u64)
    ensures
        credited(splits, artist_id, amount) >= 0,
    decreases splits.len(),
{
    if splits.len() > 0 {
        lemma_credited_nonneg(splits.drop_last(), artist_id, amount);
        assert(share(amount, splits.last().pct) >= 0) by (nonlinear_arith);
    }
}

/// A prefix of the splits credits no more than all of them.
pub proof fn lemma_credited_prefix(splits: Seq<Split>, artist_id: u64, amount: u64, i: int)
    requires
        0 <= i <= splits.len(),
    ensures
        credited(splits.take(i), artist_id, amount) <= credited(splits, artist_id, amount),
    decreases splits.len() - i,
{
    if i < splits.len() {
        lemma_credited_prefix(splits, artist_id, amount, i + 1);
        let t = splits.take(i + 1);
        assert(t.drop_last() =~= splits.take(i));
        assert(share(amount, t.last().pct) >= 0) by (nonlinear_arith);
    } else {
        assert(splits.take(i) =~= splits);
    }
}

impl Store {
    /// Replaces the splits of a track wholesale; percentages are not checked.
    /// Fails when the track is unknown.
    pub fn set_track_splits(&mut self, track_id: u64, splits: Vec<Split>) -> (r: Option<Track>)
        requires
            old(self).wf(),
        ensures
            final(self).wf(),
            r is Some <==> old(self).track_index(track_id) >= 0,
            final(self).only_tracks_differ(old(self)),
            r is None ==> final(self).tracks == old(self).tracks,
            r matches Some(t) ==> {
                let k = old(self).track_index(track_id);
                &&& t@ == TrackView { splits: Some(splits@), ..old(self).tracks_view()[k] }
                &&& final(self).tracks_view() == old(self).tracks_view().update(k, t@)
            },
    {
        match self.find_track(track_id) {
            Some(i) => {
                proof {
                    lemma_first_match(self.tracks@, track_has_id(track_id));
                }
                let mut t = self.tracks[i].clone();
                t.splits = Some(splits);
                let result = t.clone();
                proof {
                    lemma_views_update(self.tracks@, i as int, t);
                }
                self.tracks.set(i, t);
                Some(result)
            },
            None => None,
        }
    }

    /// The splits of a track; none when the track is unknown or has none.
    pub fn get_track_splits(&self, track_id: u64) -> (r: Option<Vec<Split>>)
        ensures
            crate::types::opt_seq(r) == splits_of(self, track_id),
    {
        match self.find_track(track_id) {
            Some(i) => {
                let r = crate::types::copy_opt_vec(&self.tracks[i].splits);
                proof {
                    assert(self.track_at(track_id) == Some(self.tracks@[i as int]@));
                }
                r
            },
            None => None,
        }
    }

    /// The payments made for a track; empty for an unknown track.
    pub fn get_payment_history(&self, track_id: u64) -> (r: Vec<Payment>)
        ensures
            r@ == (match self.track_at(track_id) {
                Some(t) => t.payments,
                None => Seq::empty(),
            }),
    {
        match self.find_track(track_id) {
            Some(i) => crate::types::copy_vec(&self.tracks[i].payments),
            None => Vec::new(),
        }
    }

    /// An artist's royalty balance; zero for an unknown artist.
    pub fn get_royalty_balance(&self, artist_id: u64) -> (r: u64)
        ensures
            r == (if self.artist_index(artist_id) >= 0 {
                self.artists@[self.artist_index(artist_id)].royalty_balance
            } else {
                0
            }),
    {
        match self.find_artist(artist_id) {
            Some(i) => self.artists[i].royalty_balance,
            None => 0,
        }
    }

    /// Whether paying `amount` for the track would leave every balance within
    /// `u64`, which `distribute_payment` needs.
    pub fn can_distribute(&self, track_id: u64, amount: u64) -> (r: bool)
        ensures
            r == payment_fits(self, track_id, amount),
    {
        let i = match self.find_track(track_id) {
            Some(i) => i,
            None => {
                return true;
            },
        };
        proof {
            assert(self.track_at(track_id) == Some(self.tracks@[i as int]@));
        }
        let splits = match &self.tracks[i].splits {
            Some(sp) => sp,
            None => {
                return true;
            },
        };
        let mut j: usize = 0;
        while j < self.artists.len()
            invariant
                self.tracks@[i as int].splits == Some(*splits),
                self.track_at(track_id) == Some(self.tracks@[i as int]@),
                j <= self.artists@.len(),
                forall|a: int|
                    0 <= a < j ==> #[trigger] self.artists@[a].royalty_balance + credited(
                        splits@,
                        self.artists@[a].id,
                        amount,
                    ) <= u64::MAX,
            decreases self.artists@.len() - j,
        {
            let id = self.artists[j].id;
            let room: u128 = (u64::MAX - self.artists[j].royalty_balance) as u128;
            let mut total: u128 = 0;
            let mut k: usize = 0;
            while k < splits.len()
                invariant
                    self.tracks@[i as int].splits == Some(*splits),
                    self.track_at(track_id) == Some(self.tracks@[i as int]@),
                    j < self.artists@.len(),
                    id == self.artists@[j as int].id,
                    room == u64::MAX - self.artists@[j as int].royalty_balance,
                    k <= splits@.len(),
                    total == credited(splits@.take(k as int), id, amount),
                    total <= room,
                    room <= u64::MAX,
                decreases splits@.len() - k,
            {
                let sp = splits[k];
                proof {
                    let t = splits@.take(k + 1);
                    assert(t.drop_last() =~= splits@.take(k as int));
                    assert(0 <= share(amount, sp.pct) <= 3 * u64::MAX) by (nonlinear_arith)
                        requires
                            sp.pct <= 255,
                    ;
                }
                if sp.id == id {
                    let part: u128 = (amount as u128) * (sp.pct as u128) / 100;
                    if part > room - total {
                        proof {
                            lemma_credited_prefix(splits@, id, amount, k + 1);
                            assert(splits_of(self, track_id) == Some(splits@));
                            assert(self.artists@[j as int].royalty_balance + credited(
                                splits@,
                                self.artists@[j as int].id,
                                amount,
                            ) > u64::MAX);
                        }
                        return false;
                    }
                    total = total + part;
                }
                k = k + 1;
            }
            proof {
                assert(splits@.take(splits@.len() as int) =~= splits@);
            }
            j = j + 1;
        }
        true
    }

    /// Pays `amount` for a track: every split credits its artist with its share,
    /// truncated, whether or not the percentages add up to 100; a split naming no
    /// known artist credits nobody. The payment is then recorded on the track and
    /// logged for the payer. Fails, changing nothing, when the track is unknown or
    /// has no splits.
    pub fn distribute_payment(&mut self, track_id: u64, payer: u64, amount: u64, timestamp: u64) -> (r:
        bool)
        requires
            old(self).wf(),
            payment_fits(old(self), track_id, amount),
        ensures
            final(self).wf(),
            r == splits_of(old(self), track_id) is Some,
            !r ==> *final(self) == *old(self),
            r ==> {
                let k = old(self).track_index(track_id);
                let t = old(self).tracks_view()[k];
                let sp = t.splits->0;
                &&& final(self).artists_view().len() == old(self).artists_view().len()
                &&& forall|j: int|
                    0 <= j < old(self).artists_view().len() ==> #[trigger] final(self).artists_view()[j]
                        == (ArtistView {
                        royalty_balance: (old(self).artists@[j].royalty_balance + credited(
                            sp,
                            old(self).artists@[j].id,
                            amount,
                        )) as u64,
                        ..old(self).artists_view()[j]
                    })
                &&& final(self).tracks_view() == old(self).tracks_view().update(
                    k,
                    TrackView {
                        payments: t.payments.push(Payment { payer, amount, timestamp }),
                        ..t
                    },
                )
                &&& logged_once(
                    old(self).activity_log@,
                    final(self).activity_log@,
                    payer,
                    "distribute_payment"@,
                    timestamp,
                    paid_details(amount, track_id),
                )
                &&& final(self).next_artist_id == old(self).next_artist_id
                &&& final(self).next_track_id == old(self).next_track_id
                &&& final(self).same_versions(old(self))
                &&& final(self).same_user_log(old(self))
                &&& final(self).same_requests(old(self))
                &&& final(self).same_tasks(old(self))
                &&& final(self).community == old(self).community
            },
    {
        let i = match self.find_track(track_id) {
            Some(i) => i,
            None => {
                return false;
            },
        };
        let splits = match &self.tracks[i].splits {
            Some(sp) => crate::types::copy_vec(sp),
            None => {
                return false;
            },
        };
        let ghost a0 = self.artists@;
        let mut k: usize = 0;
        while k < splits.len()
            invariant
                *self == (Store { artists: self.artists, ..*old(self) }),
                self.artists@.len() == a0.len(),
                a0 == old(self).artists@,
                old(self).wf(),
                payment_fits(old(self), track_id, amount),
                splits_of(old(self), track_id) == Some(splits@),
                k <= splits@.len(),
                forall|j: int| 0 <= j < a0.len() ==> #[trigger] self.artists@[j].id == a0[j].id,
                forall|j: int|
                    0 <= j < a0.len() ==> #[trigger] views(self.artists@)[j] == (ArtistView {
                        royalty_balance: (a0[j].royalty_balance + credited(
                            splits@.take(k as int),
                            a0[j].id,
                            amount,
                        )) as u64,
                        ..views(a0)[j]
                    }),
                forall|j: int|
                    0 <= j < a0.len() ==> a0[j].royalty_balance + credited(
                        #[trigger] splits@.take(k as int),
                        a0[j].id,
                        amount,
                    ) <= u64::MAX,
            decreases splits@.len() - k,
        {
            let sp = splits[k];
            proof {
                let t = splits@.take(k + 1);
                assert(t.drop_last() =~= splits@.take(k as int));
                assert(t.last() == sp);
                assert(0 <= share(amount, sp.pct) <= 3 * u64::MAX) by (nonlinear_arith)
                    requires
                        sp.pct <= 255,
                ;
                assert forall|j: int| 0 <= j < a0.len() implies a0[j].royalty_balance + credited(
                    #[trigger] splits@.take(k + 1),
                    a0[j].id,
                    amount,
                ) <= u64::MAX by {
                    lemma_credited_prefix(splits@, a0[j].id, amount, k + 1);
                    assert(old(self).artists@[j].royalty_balance + credited(
                        splits@,
                        old(self).artists@[j].id,
                        amount,
                    ) <= u64::MAX);
                }
            }
            let part: u128 = (amount as u128) * (sp.pct as u128) / 100;
            match self.find_artist(sp.id) {
                Some(a) => {
                    proof {
                        assert(views(self.artists@)[a as int].royalty_balance == self.artists@[a as int].royalty_balance);
                        lemma_credited_nonneg(splits@.take(k as int), a0[a as int].id, amount);
                    }
                    let mut artist = self.artists[a].clone();
                    artist.royalty_balance = artist.royalty_balance + part as u64;
                    proof {
                        lemma_views_update(self.artists@, a as int, artist);
                    }
                    self.artists.set(a, artist);
                    proof {
                        assert(views(self.artists@)[a as int].id == a0[a as int].id);
                        assert forall|j: int| 0 <= j < a0.len() && j != a implies a0[j].id != sp.id by {
                            if j < a {
                                assert(a0[j].id != a0[a as int].id);
                            } else {
                                assert(a0[a as int].id != a0[j].id);
                            }
                        }
                    }
                },
                None => {
                    proof {
                        lemma_first_match(self.artists@, artist_has_id(sp.id));
                        assert forall|j: int| 0 <= j < a0.len() implies a0[j].id != sp.id by {
                            assert(!artist_has_id(sp.id)(self.artists@[j]));
                        }
                    }
                },
            }
            k = k + 1;
        }
        proof {
            assert(splits@.take(splits@.len() as int) =~= splits@);
        }
        let mut t = self.tracks[i].clone();
        t.payments.push(Payment { payer, amount, timestamp });
        proof {
            lemma_views_update(self.tracks@, i as int, t);
            assert(t@.payments == old(self).tracks_view()[i as int].payments.push(
                Payment { payer, amount, timestamp },
            ));
        }
        self.tracks.set(i, t);
        let amount_text = to_decimal(amount);
        let id_text = to_decimal(track_id);
        let head = join3("Paid ", amount_text.as_str(), " for track ");
        let details = join2(head.as_str(), id_text.as_str());
        self.log_activity(payer, "distribute_payment", timestamp, details.as_str());
        true
    }

    /// Takes `amount` out of an artist's balance and logs it. Fails, changing
    /// nothing, when the amount is zero, the artist is unknown or the balance is
    /// short.
    pub fn withdraw_royalties(&mut self, artist_id: u64, amount: u64, now: u64) -> (r: bool)
        requires
            old(self).wf(),
        ensures
            final(self).wf(),
            r == (amount > 0 && old(self).artist_index(artist_id) >= 0
                && old(self).artists@[old(self).artist_index(artist_id)].royalty_balance >= amount),
            !r ==> *final(self) == *old(self),
            r ==> {
                let k = old(self).artist_index(artist_id);
                &&& final(self).artists_view() == old(self).artists_view().update(
                    k,
                    ArtistView {
                        royalty_balance: (old(self).artists@[k].royalty_balance - amount) as u64,
                        ..old(self).artists_view()[k]
                    },
                )
                &&& logged_once(
                    old(self).activity_log@,
                    final(self).activity_log@,
                    artist_id,
                    "withdraw_royalties"@,
                    now,
                    withdrew_details(amount),
                )
                &&& final(self).next_artist_id == old(self).next_artist_id
                &&& final(self).same_tracks(old(self))
                &&& final(self).same_versions(old(self))
                &&& final(self).same_user_log(old(self))
                &&& final(self).same_requests(old(self))
                &&& final(self).same_tasks(old(self))
                &&& final(self).community == old(self).community
            },
    {
        if amount == 0 {
            return false;
        }
        let i = match self.find_artist(artist_id) {
            Some(i) => i,
            None => {
                return false;
            },
        };
        if self.artists[i].royalty_balance < amount {
            return false;
        }
        let mut artist = self.artists[i].clone();
        artist.royalty_balance = artist.royalty_balance - amount;
        proof {
            lemma_views_update(self.artists@, i as int, artist);
        }
        self.artists.set(i, artist);
        let amount_text = to_decimal(amount);
        let details = join3("Withdrew ", amount_text.as_str(), " tokens");
        self.log_activity(artist_id, "withdraw_royalties", now, details.as_str());
        true
    }
}

} // verus!
