//! The Proof-of-Play transaction handler.
//!
//! A submission is judged by `evaluate_pop`, which looks at nothing but its
//! arguments and says what the host has to do: reject with a typed error, or
//! credit the caller with the amount returned and emit one record.
//! `Pallet::submit_pop` carries that out on a `Host`, the caller's balance
//! cell together with the log of emitted records.

use vstd::prelude::*;
use crate::types::{rejection, validate, Balance, Config, Error, Event, TT_PER_PLAY};

verus! {

/// What a submission comes to, given the caller's balance before it: the
/// amount to mint, or the rejection.
///
/// The token and the entropy are judged first (see `rejection`); only a
/// submission that passes can fail on the balance, and it does so exactly
/// when the mint would leave the range of `Balance`.
pub open spec fn verdict(player: Seq<u8>, entropy: u32, balance: int) -> Result<Balance, Error> {
    match rejection(player, entropy) {
        Some(e) => Err(e),
        None => if balance + TT_PER_PLAY > Balance::MAX {
            Err(Error::Overflow)
        } else {
            Ok(TT_PER_PLAY)
        },
    }
}

/// Judges a submission of `player_ugid` and `entropy` by a caller whose free
/// balance is `balance`. Touches no state: on `Ok` the host is to credit the
/// returned amount to the caller and emit the record of it, on `Err` it is
/// to change nothing.
pub fn evaluate_pop(player_ugid: &Vec<u8>, entropy: u32, balance: Balance) -> (res: Result<
    Balance,
    Error,
>)
    ensures
        res == verdict(player_ugid@, entropy, balance as int),
{
    match validate(player_ugid, entropy) {
        Err(e) => Err(e),
        Ok(()) => match balance.checked_add(TT_PER_PLAY) {
            None => Err(Error::Overflow),
            Some(_) => Ok(TT_PER_PLAY),
        },
    }
}

/// Mathematical content of a `Host`.
pub struct HostState<T: Config> {
    /// Free balance of the caller.
    pub balance: int,
    /// Records emitted so far, oldest first.
    pub events: Seq<Event<T>>,
}

/// The state that follows `pre` when `origin` submits: on acceptance the
/// mint is added and its record appended, on rejection nothing moves.
pub open spec fn step<T: Config>(
    pre: HostState<T>,
    origin: T::AccountId,
    player: Seq<u8>,
    entropy: u32,
) -> HostState<T> {
    match verdict(player, entropy, pre.balance) {
        Ok(minted) => HostState {
            balance: pre.balance + minted,
            events: pre.events.push(
                Event::PlayVerified { player: origin, entropy, tt_minted: minted },
            ),
        },
        Err(_) => pre,
    }
}

/// The host state that one caller's submissions act on: that account's
/// balance cell and the sink for outcome records.
pub struct Host<T: Config> {
    /// Free balance of the caller.
    pub free_balance: Balance,
    /// Records emitted so far, oldest first.
    pub events: Vec<Event<T>>,
}

impl<T: Config> View for Host<T> {
    type V = HostState<T>;

    open spec fn view(&self) -> HostState<T> {
        HostState { balance: self.free_balance as int, events: self.events@ }
    }
}

impl<T: Config> Host<T> {
    /// A host on which the caller holds `free_balance` and nothing has been
    /// emitted yet.
    pub fn new(free_balance: Balance) -> (host: Self)
        ensures
            host@.balance == free_balance,
            host@.events == Seq::<Event<T>>::empty(),
    {
        Host { free_balance, events: Vec::new() }
    }

    /// Creates `value` of new supply on the caller's account. This is a
    /// credit, not a transfer: no other balance pays for it.
    pub fn deposit_creating(&mut self, value: Balance)
        requires
            old(self)@.balance + value <= Balance::MAX,
        ensures
            final(self)@.balance == old(self)@.balance + value,
            final(self)@.events == old(self)@.events,
    {
        self.free_balance = self.free_balance + value;
    }

    /// Appends `event` to the emitted records.
    pub fn deposit_event(&mut self, event: Event<T>)
        ensures
            final(self)@.balance == old(self)@.balance,
            final(self)@.events == old(self)@.events.push(event),
    {
        self.events.push(event);
    }
}

/// The handler, for a host described by `T`.
pub struct Pallet<T>(pub std::marker::PhantomData<T>);

impl<T: Config> Pallet<T> {
    /// Handles one submission by `origin` against `host`.
    ///
    /// The result and the state after the call are those of `verdict` and
    /// `step`: an accepted submission credits `TT_PER_PLAY` and emits one
    /// `PlayVerified` record that names `origin`, `entropy` and the amount,
    /// a rejected one returns its error and leaves `host` as it was.
    pub fn submit_pop(
        host: &mut Host<T>,
        origin: T::AccountId,
        player_ugid: Vec<u8>,
        entropy: u32,
    ) -> (res: Result<(), Error>)
        ensures
            res == match verdict(player_ugid@, entropy, old(host)@.balance) {
                Ok(_) => Ok::<(), Error>(()),
                Err(e) => Err(e),
            },
            final(host)@ == step(old(host)@, origin, player_ugid@, entropy),
    {
        match evaluate_pop(&player_ugid, entropy, host.free_balance) {
            Err(e) => Err(e),
            Ok(tt_amount) => {
                host.deposit_creating(tt_amount);
                host.deposit_event(
                    Event::PlayVerified { player: origin, entropy, tt_minted: tt_amount },
                );
                Ok(())
            },
        }
    }
}

} // verus!
