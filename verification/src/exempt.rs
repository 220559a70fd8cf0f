use vstd::prelude::*;
use crate::consts::MAX_EXEMPTED_WALLETS;
use crate::errors::ErrorCode;
use crate::identity::{position_of, Identity};
use crate::structs::GlobalState;

verus! {

/// Adds `wallet` to the exemption registry.
///
/// At capacity the call fails with `MaxExemptedWallets` and changes
/// nothing. A wallet already present is left where it is. Otherwise the
/// wallet is appended.
pub fn exempt_wallet(global: &mut GlobalState, wallet: Identity) -> (r: Result<(), ErrorCode>)
    requires
        old(global).well_formed(),
    ensures
        final(global).well_formed(),
        final(global).progressed_from(*old(global)),
        old(global).exempted_wallets@.len() >= MAX_EXEMPTED_WALLETS ==> r == Err::<
            (),
            ErrorCode,
        >(ErrorCode::MaxExemptedWallets) && *final(global) == *old(global),
        old(global).exempted_wallets@.len() < MAX_EXEMPTED_WALLETS ==> r == Ok::<
            (),
            ErrorCode,
        >(()),
        r is Ok && old(global).exempts(wallet) ==> *final(global) == *old(global),
        r is Ok && !old(global).exempts(wallet) ==> final(global).exempted_wallets@
            == old(global).exempted_wallets@.push(wallet),
        r is Ok ==> final(global).exempts(wallet),
        forall|other: Identity|
            other != wallet ==> final(global).exempts(other) == old(global).exempts(other),
        *final(global) == (GlobalState {
            exempted_wallets: final(global).exempted_wallets,
            ..*old(global)
        }),
{
    if global.exempted_wallets.len() >= MAX_EXEMPTED_WALLETS {
        return Err(ErrorCode::MaxExemptedWallets);
    }
    if position_of(&global.exempted_wallets, &wallet).is_none() {
        global.exempted_wallets.push(wallet);
        proof {
            let before = old(global).exempted_wallets@;
            let after = global.exempted_wallets@;
            assert(after == before.push(wallet));
            assert forall|other: Identity| other != wallet implies after.contains(other)
                == before.contains(other) by {
                if after.contains(other) {
                    let k = choose|k: int| 0 <= k < after.len() && after[k] == other;
                    assert(before[k] == other);
                }
                if before.contains(other) {
                    let k = choose|k: int| 0 <= k < before.len() && before[k] == other;
                    assert(after[k] == other);
                }
            }
            assert(after[before.len() as int] == wallet);
        }
    }
    Ok(())
}

/// Takes `wallet` out of the exemption registry; an absent wallet changes
/// nothing. The other wallets keep their order.
pub fn unexempt_wallet(global: &mut GlobalState, wallet: Identity) -> (removed: bool)
    requires
        old(global).well_formed(),
    ensures
        final(global).well_formed(),
        final(global).progressed_from(*old(global)),
        removed == old(global).exempts(wallet),
        !removed ==> *final(global) == *old(global),
        removed ==> final(global).exempted_wallets@ == old(global).exempted_wallets@.remove(
            old(global).exempted_wallets@.index_of(wallet),
        ),
        !final(global).exempts(wallet),
        forall|other: Identity|
            other != wallet ==> final(global).exempts(other) == old(global).exempts(other),
        *final(global) == (GlobalState {
            exempted_wallets: final(global).exempted_wallets,
            ..*old(global)
        }),
{
    match position_of(&global.exempted_wallets, &wallet) {
        None => false,
        Some(at) => {
            global.exempted_wallets.remove(at);
            proof {
                let before = old(global).exempted_wallets@;
                let after = global.exempted_wallets@;
                assert(before.index_of(wallet) == at as int);
                assert(after == before.remove(at as int));
                assert forall|i: int, j: int| 0 <= i < j < after.len() implies after[i]
                    != after[j] by {
                    let si = if i < at { i } else { i + 1 };
                    let sj = if j < at { j } else { j + 1 };
                    assert(after[i] == before[si]);
                    assert(after[j] == before[sj]);
                }
                assert forall|other: Identity| other != wallet implies after.contains(other)
                    == before.contains(other) by {
                    if after.contains(other) {
                        let k = choose|k: int| 0 <= k < after.len() && after[k] == other;
                        let sk = if k < at { k } else { k + 1 };
                        assert(before[sk] == other);
                    }
                    if before.contains(other) {
                        let k = choose|k: int| 0 <= k < before.len() && before[k] == other;
                        let tk = if k < at { k } else { k - 1 };
                        assert(after[tk] == other);
                    }
                }
                if after.contains(wallet) {
                    let k = choose|k: int| 0 <= k < after.len() && after[k] == wallet;
                    let sk = if k < at { k } else { k + 1 };
                    assert(before[sk] == wallet);
                    assert(before[at as int] == wallet);
                }
            }
            true
        },
    }
}

} // verus!
