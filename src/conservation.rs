use vstd::prelude::*;

use crate::finance::bite_part;
use crate::fish::{Fish, PlayerKey};
use crate::hunt::{hunted_ocean, hunted_prey, hunting_hunter};
use crate::marks::marked_prey;
use crate::operations::{creation_shares, created_ocean, exited_ocean, fed_fish, fed_ocean, feed_added, hatchling};
use crate::ocean::Ocean;

verus! {

/// Sum of the shares held by the fishes `fs`.
pub open spec fn shares_sum(fs: Seq<Fish>) -> int
    decreases fs.len(),
{
    if fs.len() == 0 {
        0
    } else {
        shares_sum(fs.drop_last()) + fs.last().share
    }
}

proof fn lemma_sum_update(fs: Seq<Fish>, i: int, f: Fish)
    requires
        0 <= i < fs.len(),
    ensures
        shares_sum(fs.update(i, f)) == shares_sum(fs) - fs[i].share + f.share,
    decreases fs.len(),
{
    let g = fs.update(i, f);
    if i == fs.len() - 1 {
        assert(g.drop_last() =~= fs.drop_last());
    } else {
        lemma_sum_update(fs.drop_last(), i, f);
        assert(g.drop_last() =~= fs.drop_last().update(i, f));
    }
}

proof fn lemma_sum_push(fs: Seq<Fish>, f: Fish)
    ensures
        shares_sum(fs.push(f)) == shares_sum(fs) + f.share,
{
    assert(fs.push(f).drop_last() =~= fs);
}

proof fn lemma_member_within_sum(fs: Seq<Fish>, i: int)
    requires
        0 <= i < fs.len(),
    ensures
        fs[i].share <= shares_sum(fs),
    decreases fs.len(),
{
    lemma_sum_nonnegative(fs.drop_last());
    if i < fs.len() - 1 {
        lemma_member_within_sum(fs.drop_last(), i);
    }
}

proof fn lemma_sum_nonnegative(fs: Seq<Fish>)
    ensures
        shares_sum(fs) >= 0,
    decreases fs.len(),
{
    if fs.len() > 0 {
        lemma_sum_nonnegative(fs.drop_last());
    }
}

proof fn lemma_pair_within_sum(fs: Seq<Fish>, i: int, j: int)
    requires
        0 <= i < fs.len(),
        0 <= j < fs.len(),
        i != j,
    ensures
        fs[i].share + fs[j].share <= shares_sum(fs),
{
    lemma_sum_update(fs, i, Fish { share: 0, ..fs[i] });
    lemma_member_within_sum(fs.update(i, Fish { share: 0, ..fs[i] }), j);
}

/// Feeding fish `i` keeps the shares of all fishes summing to the ocean's
/// share total, as long as that total does not saturate.
pub proof fn law_feed_conserves_shares(fs: Seq<Fish>, i: int, o: Ocean, amount: u64, now: i64)
    requires
        0 <= i < fs.len(),
        shares_sum(fs) == o.total_shares,
        o.total_shares + feed_added(o, amount) <= u64::MAX,
    ensures
        shares_sum(fs.update(i, fed_fish(o, fs[i], amount, now))) == fed_ocean(o, amount).total_shares,
{
    lemma_member_within_sum(fs, i);
    lemma_sum_update(fs, i, fed_fish(o, fs[i], amount, now));
}

/// Fish `i` hunting fish `j` keeps the shares of all fishes summing to the
/// ocean's share total.
pub proof fn law_hunt_conserves_shares(fs: Seq<Fish>, i: int, j: int, o: Ocean, now: i64)
    requires
        0 <= i < fs.len(),
        0 <= j < fs.len(),
        i != j,
        shares_sum(fs) == o.total_shares,
    ensures
        shares_sum(
            fs.update(i, hunting_hunter(o, fs[i], fs[j], now)).update(j, hunted_prey(fs[j], now)),
        ) == hunted_ocean(o, fs[j]).total_shares,
{
    let b = fs[j].share;
    lemma_pair_within_sum(fs, i, j);
    assert(bite_part(b, 80) <= b);
    let h = hunting_hunter(o, fs[i], fs[j], now);
    let fs1 = fs.update(i, h);
    lemma_sum_update(fs, i, h);
    lemma_sum_update(fs1, j, hunted_prey(fs[j], now));
}

/// A fish leaving the game keeps the shares of all fishes summing to the
/// ocean's share total.
pub proof fn law_exit_conserves_shares(fs: Seq<Fish>, i: int, o: Ocean)
    requires
        0 <= i < fs.len(),
        shares_sum(fs) == o.total_shares,
    ensures
        shares_sum(fs.update(i, Fish { share: 0, ..fs[i] })) == exited_ocean(o, fs[i]).total_shares,
{
    lemma_member_within_sum(fs, i);
    lemma_sum_update(fs, i, Fish { share: 0, ..fs[i] });
}

/// Creating (or resurrecting) a fish keeps the shares of all fishes summing
/// to the ocean's share total, as long as that total does not saturate.
pub proof fn law_create_conserves_shares(
    fs: Seq<Fish>,
    o: Ocean,
    owner: PlayerKey,
    name: String,
    deposit: u64,
    now: i64,
)
    requires
        shares_sum(fs) == o.total_shares,
        o.total_shares + creation_shares(o, deposit) <= u64::MAX,
    ensures
        shares_sum(fs.push(hatchling(o, owner, name, creation_shares(o, deposit), now)))
            == created_ocean(o, deposit).total_shares,
{
    lemma_sum_push(fs, hatchling(o, owner, name, creation_shares(o, deposit), now));
}

/// Handing fish `i` to a new owner leaves the sum of all shares unchanged.
pub proof fn law_transfer_conserves_shares(fs: Seq<Fish>, i: int, new_owner: PlayerKey)
    requires
        0 <= i < fs.len(),
    ensures
        shares_sum(fs.update(i, Fish { owner: new_owner, ..fs[i] })) == shares_sum(fs),
{
    lemma_sum_update(fs, i, Fish { owner: new_owner, ..fs[i] });
}

/// Fish `i` marking fish `j` moves no shares: the sum stays the ocean's total.
pub proof fn law_mark_conserves_shares(fs: Seq<Fish>, i: int, j: int, o: Ocean, now: i64)
    requires
        0 <= i < fs.len(),
        0 <= j < fs.len(),
        i != j,
        shares_sum(fs) == o.total_shares,
    ensures
        ({
            let h = Fish { hunting_marks_placed: if fs[i].hunting_marks_placed == u8::MAX {
                u8::MAX
            } else {
                (fs[i].hunting_marks_placed + 1) as u8
            }, ..fs[i] };
            shares_sum(fs.update(i, h).update(j, marked_prey(o, fs[j], fs[i].id, now))) == o.total_shares
        }),
{
    let h = Fish { hunting_marks_placed: if fs[i].hunting_marks_placed == u8::MAX {
        u8::MAX
    } else {
        (fs[i].hunting_marks_placed + 1) as u8
    }, ..fs[i] };
    lemma_sum_update(fs, i, h);
    lemma_sum_update(fs.update(i, h), j, marked_prey(o, fs[j], fs[i].id, now));
}

} // verus!
