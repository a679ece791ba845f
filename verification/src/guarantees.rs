//! What holds of every submission, proved over `verdict` and `step`, the
//! two functions in which `Pallet::submit_pop` states its contract.

use vstd::prelude::*;
use crate::handler::{step, verdict, HostState};
use crate::types::{Balance, Config, Error, Event, MIN_ENTROPY, TT_PER_PLAY};

verus! {

/// The record of an accepted submission by `origin` with `entropy`.
pub open spec fn play_verified<T: Config>(origin: T::AccountId, entropy: u32) -> Event<T> {
    Event::PlayVerified { player: origin, entropy, tt_minted: 1 }
}

/// From the threshold upwards a submission with a non-empty token is
/// accepted: exactly one unit is credited and the matching record emitted.
/// The one submission of this kind that is not accepted is that of a caller
/// whose balance has no room for the mint; it is left out here.
pub proof fn accepted_from_threshold<T: Config>(
    pre: HostState<T>,
    origin: T::AccountId,
    player: Seq<u8>,
    entropy: u32,
)
    requires
        entropy >= 20,
        player.len() > 0,
        pre.balance < Balance::MAX,
    ensures
        verdict(player, entropy, pre.balance) == Ok::<Balance, Error>(1),
        step(pre, origin, player, entropy).balance == pre.balance + 1,
        step(pre, origin, player, entropy).events == pre.events.push(
            play_verified::<T>(origin, entropy),
        ),
{
}

/// Below the threshold a submission is rejected as `LowEntropy`, whatever
/// its token holds, and nothing changes.
pub proof fn rejected_below_threshold<T: Config>(
    pre: HostState<T>,
    origin: T::AccountId,
    player: Seq<u8>,
    entropy: u32,
)
    requires
        entropy < 20,
    ensures
        verdict(player, entropy, pre.balance) == Err::<Balance, Error>(Error::LowEntropy),
        step(pre, origin, player, entropy) == pre,
{
}

/// The entropy is judged before the token: an empty token is rejected as
/// `InvalidPlayer` only where the entropy reaches the threshold, and as
/// `LowEntropy` where it does not. Either way nothing changes.
pub proof fn empty_token_judged_after_entropy<T: Config>(
    pre: HostState<T>,
    origin: T::AccountId,
    player: Seq<u8>,
    entropy: u32,
)
    requires
        player.len() == 0,
    ensures
        entropy >= MIN_ENTROPY ==> verdict(player, entropy, pre.balance) == Err::<Balance, Error>(
            Error::InvalidPlayer,
        ),
        entropy < MIN_ENTROPY ==> verdict(player, entropy, pre.balance) == Err::<Balance, Error>(
            Error::LowEntropy,
        ),
        step(pre, origin, player, entropy) == pre,
{
}

/// `Overflow` is the rejection of a submission that passes both checks on
/// its arguments and whose mint does not fit on top of the caller's
/// balance. So a balance within range stays within range.
pub proof fn overflow_only_for_want_of_room<T: Config>(
    pre: HostState<T>,
    origin: T::AccountId,
    player: Seq<u8>,
    entropy: u32,
)
    ensures
        verdict(player, entropy, pre.balance) == Err::<Balance, Error>(Error::Overflow) <==> (
        entropy >= MIN_ENTROPY && player.len() > 0 && pre.balance + TT_PER_PLAY > Balance::MAX),
        pre.balance <= Balance::MAX ==> step(pre, origin, player, entropy).balance
            <= Balance::MAX,
{
}

/// A submission is all or nothing. The balance moves exactly when the
/// submission is accepted, and so does the log; an accepted submission adds
/// one record, which names the caller, the entropy and the very amount by
/// which the balance grew. The handler never debits.
pub proof fn balance_and_record_move_together<T: Config>(
    pre: HostState<T>,
    origin: T::AccountId,
    player: Seq<u8>,
    entropy: u32,
)
    ensures
        ({
            let res = verdict(player, entropy, pre.balance);
            let post = step(pre, origin, player, entropy);
            &&& res is Ok <==> post.balance != pre.balance
            &&& res is Ok <==> post.events != pre.events
            &&& res is Err ==> post == pre
            &&& post.balance >= pre.balance
            &&& res matches Ok(minted) ==> {
                &&& post.balance == pre.balance + minted
                &&& post.events.len() == pre.events.len() + 1
                &&& post.events.drop_last() == pre.events
                &&& post.events.last() == (Event::<T>::PlayVerified {
                    player: origin,
                    entropy,
                    tt_minted: minted,
                })
            }
        }),
{
    let post = step(pre, origin, player, entropy);
    if verdict(player, entropy, pre.balance) is Ok {
        assert(post.events.len() == pre.events.len() + 1);
        assert(post.events.drop_last() =~= pre.events);
    }
}

/// Nothing guards against a repeated claim: where a submission is accepted
/// and the same submission is accepted again, each credits its own unit and
/// emits its own record.
pub proof fn repeated_submission_mints_again<T: Config>(
    pre: HostState<T>,
    origin: T::AccountId,
    player: Seq<u8>,
    entropy: u32,
)
    requires
        verdict(player, entropy, pre.balance) is Ok,
        verdict(player, entropy, step(pre, origin, player, entropy).balance) is Ok,
    ensures
        ({
            let mid = step(pre, origin, player, entropy);
            let post = step(mid, origin, player, entropy);
            &&& mid.balance == pre.balance + 1
            &&& post.balance == pre.balance + 2
            &&& post.events == pre.events.push(play_verified::<T>(origin, entropy)).push(
                play_verified::<T>(origin, entropy),
            )
        }),
{
}

} // verus!
