use vstd::prelude::*;

verus! {

/// What a holder keeps of `amount` when `percent_kept` percent is retained:
/// the share, rounded down.
pub open spec fn kept_amount(amount: nat, percent_kept: nat) -> nat {
    amount * percent_kept / 100
}

/// What is revoked of `amount` when `percent_kept` percent is retained: all
/// that the holder does not keep.
pub open spec fn revoked_amount(amount: nat, percent_kept: nat) -> nat {
    (amount - kept_amount(amount, percent_kept)) as nat
}

/// The kept share never exceeds the amount as long as no more than all of it
/// is kept.
pub proof fn lemma_kept_is_bounded(amount: nat, percent_kept: nat)
    requires
        percent_kept <= 100,
    ensures
        kept_amount(amount, percent_kept) <= amount,
{
    assert(amount * percent_kept / 100 <= amount) by (nonlinear_arith)
        requires
            percent_kept <= 100,
    ;
}

/// Conservation: what is kept and what is revoked add up to the amount.
pub proof fn lemma_split_conserves(amount: nat, percent_kept: nat)
    requires
        percent_kept <= 100,
    ensures
        kept_amount(amount, percent_kept) + revoked_amount(amount, percent_kept) == amount,
{
    lemma_kept_is_bounded(amount, percent_kept);
}

/// Keeping everything revokes nothing.
pub proof fn lemma_keep_all(amount: nat)
    ensures
        kept_amount(amount, 100) == amount,
        revoked_amount(amount, 100) == 0,
{
    assert(amount * 100 / 100 == amount) by (nonlinear_arith);
}

/// Keeping nothing revokes everything.
pub proof fn lemma_keep_nothing(amount: nat)
    ensures
        kept_amount(amount, 0) == 0,
        revoked_amount(amount, 0) == amount,
{
    assert(amount * 0 / 100 == 0) by (nonlinear_arith);
}

/// Rounding favours the holder's counterpart: the revoked amount is at least
/// the exact share that is not kept.
pub proof fn lemma_revoked_not_under_reported(amount: nat, percent_kept: nat)
    requires
        percent_kept <= 100,
    ensures
        revoked_amount(amount, percent_kept) * 100 >= amount * (100 - percent_kept),
{
    lemma_kept_is_bounded(amount, percent_kept);
    let k = kept_amount(amount, percent_kept);
    assert(k * 100 <= amount * percent_kept) by (nonlinear_arith)
        requires
            k == amount * percent_kept / 100,
    ;
    assert((amount - k) * 100 >= amount * (100 - percent_kept)) by (nonlinear_arith)
        requires
            k * 100 <= amount * percent_kept,
            k <= amount,
            percent_kept <= 100,
    ;
}

/// Splits `amount` into what the holder keeps and what is revoked.
pub fn split(amount: u64, percent_kept: u8) -> (r: (u64, u64))
    requires
        percent_kept <= 100,
    ensures
        r.0 == kept_amount(amount as nat, percent_kept as nat),
        r.1 == revoked_amount(amount as nat, percent_kept as nat),
        r.0 + r.1 == amount,
        percent_kept == 100 ==> r.0 == amount && r.1 == 0,
        percent_kept == 0 ==> r.0 == 0 && r.1 == amount,
{
    let a: u128 = amount as u128;
    let p: u128 = percent_kept as u128;
    assert(a * p <= a * 100 && a * 100 <= 0xffff_ffff_ffff_ffff * 100) by (nonlinear_arith)
        requires
            p <= 100,
            a <= 0xffff_ffff_ffff_ffff,
    ;
    let kept: u128 = a * p / 100;
    proof {
        lemma_kept_is_bounded(amount as nat, percent_kept as nat);
        lemma_keep_all(amount as nat);
        lemma_keep_nothing(amount as nat);
    }
    let kept64: u64 = kept as u64;
    (kept64, amount - kept64)
}

} // verus!
