use vstd::prelude::*;

use crate::events::OceanModeChanged;
use crate::ocean::{
    following_midnight, mode_changed, schedulable, schedule_aligned, storm_roll, Ocean,
};

verus! {

/// Reason recorded with every daily roll.
pub const DAILY_ROLL_REASON: &'static str = "daily_roll_250bps";

/// What `keccak::hash` returns for the given bytes.
pub uninterp spec fn keccak_of(data: Seq<u8>) -> Seq<u8>;

/// Relies on anchor_lang's `solana_program::keccak::hash`: the 32-byte
/// Keccak-256 digest of the bytes.
#[verifier::external_body]
fn keccak_digest(data: &Vec<u8>) -> (r: Vec<u8>)
    ensures
        r@ == keccak_of(data@),
        r@.len() == 32,
{
    #[allow(deprecated)]
    let digest = anchor_lang::solana_program::keccak::hash(data.as_slice());
    digest.to_bytes().to_vec()
}

/// The first `n` little-endian bytes of `x`.
pub open spec fn le_bytes(x: nat, n: nat) -> Seq<u8>
    decreases n,
{
    if n == 0 {
        Seq::empty()
    } else {
        seq![(x % 256) as u8] + le_bytes(x / 256, (n - 1) as nat)
    }
}

/// The number that little-endian bytes `s` encode.
pub open spec fn le_value(s: Seq<u8>) -> nat
    decreases s.len(),
{
    if s.len() == 0 {
        0
    } else {
        s[0] as nat + 256 * le_value(s.drop_first())
    }
}

/// `256` to the power `n`.
pub open spec fn byte_power(n: nat) -> nat
    decreases n,
{
    if n == 0 {
        1
    } else {
        256 * byte_power((n - 1) as nat)
    }
}

/// The bytes that seed a daily roll: time, slot and cycle start as
/// little-endian 64-bit words, then the vault's bump.
pub open spec fn entropy_bytes(now: i64, slot: u64, cycle_start: i64, bump: u8) -> Seq<u8> {
    le_bytes((now as u64) as nat, 8) + le_bytes(slot as nat, 8) + le_bytes((cycle_start as u64) as nat, 8)
        + seq![bump]
}

/// The seed of a daily roll: the first eight bytes, little-endian, of the
/// Keccak digest of the entropy bytes followed by the most recent block hash
/// when there is one.
pub open spec fn daily_seed(now: i64, slot: u64, cycle_start: i64, bump: u8, recent_hash: Option<Seq<u8>>) -> nat {
    let buf = entropy_bytes(now, slot, cycle_start, bump);
    let data = match recent_hash {
        Some(h) => buf + h,
        None => buf,
    };
    le_value(keccak_of(data).take(8))
}

/// Appends the eight little-endian bytes of `x`.
fn push_le_u64(out: &mut Vec<u8>, x: u64)
    ensures
        final(out)@ == old(out)@ + le_bytes(x as nat, 8),
{
    let mut v: u64 = x;
    let mut i: usize = 0;
    while i < 8
        invariant
            0 <= i <= 8,
            old(out)@ + le_bytes(x as nat, 8) == out@ + le_bytes(v as nat, (8 - i) as nat),
        decreases 8 - i,
    {
        let ghost before = out@;
        out.push((v % 256) as u8);
        proof {
            let k = (8 - i) as nat;
            assert(le_bytes(v as nat, k) == seq![(v as nat % 256) as u8] + le_bytes(v as nat / 256, (k - 1) as nat));
            assert(out@ =~= before + seq![(v as nat % 256) as u8]);
            assert(before + le_bytes(v as nat, k) =~= out@ + le_bytes(v as nat / 256, (k - 1) as nat));
        }
        v = v / 256;
        i = i + 1;
    }
    assert(le_bytes(v as nat, 0) =~= Seq::<u8>::empty());
    assert(out@ + le_bytes(v as nat, 0) =~= out@);
}

proof fn lemma_le_value_bound(s: Seq<u8>)
    ensures
        le_value(s) < byte_power(s.len()),
    decreases s.len(),
{
    if s.len() > 0 {
        lemma_le_value_bound(s.drop_first());
    }
}

/// Reads the first eight bytes of `d` as a little-endian number.
fn read_le_u64(d: &Vec<u8>) -> (r: u64)
    requires
        d@.len() >= 8,
    ensures
        r == le_value(d@.take(8)),
{
    let mut r: u128 = 0;
    let mut i: usize = 8;
    while i > 0
        invariant
            0 <= i <= 8,
            d@.len() >= 8,
            r == le_value(d@.subrange(i as int, 8)),
            r < byte_power((8 - i) as nat),
        decreases i,
    {
        let b = d[i - 1];
        proof {
            let tail = d@.subrange(i as int - 1, 8);
            assert(tail.drop_first() =~= d@.subrange(i as int, 8));
            assert(le_value(tail) == b as nat + 256 * le_value(d@.subrange(i as int, 8)));
            assert(byte_power((8 - i + 1) as nat) == 256 * byte_power((8 - i) as nat));
            lemma_byte_power_eight();
            if i > 1 {
                assert(byte_power((8 - i + 1) as nat) <= byte_power(8)) by {
                    lemma_byte_power_grows((8 - i + 1) as nat, 8);
                }
            }
        }
        r = r * 256 + b as u128;
        i = i - 1;
    }
    assert(d@.subrange(0, 8) =~= d@.take(8));
    proof {
        lemma_byte_power_eight();
    }
    r as u64
}

proof fn lemma_byte_power_eight()
    ensures
        byte_power(8) == 0x1_0000_0000_0000_0000nat,
{
    reveal_with_fuel(byte_power, 9);
}

proof fn lemma_byte_power_grows(a: nat, b: nat)
    requires
        a <= b,
    ensures
        byte_power(a) <= byte_power(b),
    decreases b - a,
{
    if a < b {
        lemma_byte_power_grows(a, (b - 1) as nat);
    }
}

/// Derives the seed of a daily roll from the clock, the slot, the cycle start,
/// the vault's bump and, when there is one, the most recent block hash.
pub fn daily_random_seed(now: i64, slot: u64, cycle_start: i64, bump: u8, recent_hash: Option<&Vec<u8>>) -> (r: u64)
    ensures
        r == daily_seed(
            now,
            slot,
            cycle_start,
            bump,
            match recent_hash {
                Some(h) => Some(h@),
                None => None,
            },
        ),
{
    let mut buf: Vec<u8> = Vec::new();
    push_le_u64(&mut buf, now as u64);
    push_le_u64(&mut buf, slot);
    push_le_u64(&mut buf, cycle_start as u64);
    buf.push(bump);
    assert(buf@ =~= entropy_bytes(now, slot, cycle_start, bump));
    match recent_hash {
        Some(h) => {
            let mut i: usize = 0;
            while i < h.len()
                invariant
                    0 <= i <= h@.len(),
                    buf@ =~= entropy_bytes(now, slot, cycle_start, bump) + h@.take(i as int),
                decreases h@.len() - i,
            {
                buf.push(h[i]);
                assert(h@.take(i as int + 1) =~= h@.take(i as int).push(h@[i as int]));
                i = i + 1;
            }
            assert(h@.take(h@.len() as int) =~= h@);
        },
        None => {},
    }
    let digest = keccak_digest(&buf);
    read_le_u64(&digest)
}

/// Runs the daily scheduler: before the scheduled change nothing happens;
/// from then on the mode is rolled from the seed and the next change is
/// scheduled for the following midnight.
pub fn update_ocean_daily(
    ocean: &mut Ocean,
    now: i64,
    slot: u64,
    recent_hash: Option<&Vec<u8>>,
) -> (r: Option<OceanModeChanged>)
    requires
        schedulable(now),
    ensures
        now < old(ocean).next_mode_change_time ==> r is None && *final(ocean) == *old(ocean),
        now >= old(ocean).next_mode_change_time ==> schedule_aligned(*final(ocean)),
        now >= old(ocean).next_mode_change_time ==> r is Some && *final(ocean) == mode_changed(
            *old(ocean),
            storm_roll(
                daily_seed(
                    now,
                    slot,
                    old(ocean).cycle_start_time,
                    old(ocean).vault_bump,
                    match recent_hash {
                        Some(h) => Some(h@),
                        None => None,
                    },
                ) as u64,
            ),
            now,
        ),
{
    if !ocean.should_change_mode(now) {
        return None;
    }
    let seed = daily_random_seed(now, slot, ocean.cycle_start_time, ocean.vault_bump, recent_hash);
    let new_mode = ocean.determine_next_mode(seed);
    Some(ocean.apply_mode_change(new_mode, now, DAILY_ROLL_REASON))
}

/// Once the scheduler has switched the mode at time `t`, every later call
/// before the following midnight comes before the next scheduled change, so
/// it leaves the ocean as it is: the mode changes at most once a day.
pub proof fn law_one_change_per_day(o: Ocean, storm: bool, t: i64, later: i64)
    requires
        schedulable(t),
        t <= later < following_midnight(t as int),
    ensures
        later < mode_changed(o, storm, t).next_mode_change_time,
{
}

} // verus!
