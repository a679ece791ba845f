//! Data carried by a Proof-of-Play submission and by its outcome.

use vstd::prelude::*;

verus! {

/// Amount of the time token, in the ledger's native representation.
pub type Balance = u128;

/// Smallest reaction-time measurement that is accepted, in scaled
/// milliseconds (20 units are 0.2 s).
pub const MIN_ENTROPY: u32 = 20;

/// Time token minted for each accepted submission.
pub const TT_PER_PLAY: Balance = 1;

/// What the host supplies to the handler.
pub trait Config {
    /// Identity of an account on the host's ledger. The handler receives it
    /// already authenticated and only carries it into the outcome record.
    type AccountId;
}

/// Why a submission was rejected.
#[derive(Clone, Copy, Debug, PartialEq, Eq, Structural)]
pub enum Error {
    /// The reaction-time measurement is below `MIN_ENTROPY`.
    LowEntropy,
    /// The player token is empty.
    InvalidPlayer,
    /// Crediting the mint would leave the representable balance range.
    Overflow,
}

/// Record of how a submission ended, for observers outside the ledger.
#[derive(Clone, Debug, PartialEq, Eq)]
pub enum Event<T: Config> {
    /// A submission was accepted and `tt_minted` was credited to `player`.
    PlayVerified { player: T::AccountId, entropy: u32, tt_minted: Balance },
    /// A submission was turned down. The handler never emits this itself:
    /// it reports a rejection through its result.
    InvalidPlay { reason: &'static str },
}

/// One completed timed-interaction attempt.
#[derive(Clone, Debug, PartialEq, Eq)]
pub struct PlaySession {
    /// Token that identifies the participant outside the ledger.
    pub player: Vec<u8>,
    /// Reaction latency in scaled milliseconds.
    pub entropy: u32,
    /// When the attempt was made. Informational.
    pub timestamp: u64,
}

/// The rejection that a player token and an entropy value earn on their
/// own, before any balance is looked at. The entropy is judged first, so a
/// submission that fails both ways is a `LowEntropy` one.
pub open spec fn rejection(player: Seq<u8>, entropy: u32) -> Option<Error> {
    if entropy < MIN_ENTROPY {
        Some(Error::LowEntropy)
    } else if player.len() == 0 {
        Some(Error::InvalidPlayer)
    } else {
        None
    }
}

/// Judges a player token and an entropy value.
pub fn validate(player: &Vec<u8>, entropy: u32) -> (res: Result<(), Error>)
    ensures
        res == match rejection(player@, entropy) {
            Some(e) => Err::<(), Error>(e),
            None => Ok(()),
        },
{
    if entropy < MIN_ENTROPY {
        Err(Error::LowEntropy)
    } else if player.len() == 0 {
        Err(Error::InvalidPlayer)
    } else {
        Ok(())
    }
}

impl PlaySession {
    /// Whether the session meets the entropy threshold and names a player.
    pub open spec fn is_valid(&self) -> bool {
        rejection(self.player@, self.entropy) is None
    }

    /// Judges the session as a submission of its token and entropy would be.
    pub fn validate(&self) -> (res: Result<(), Error>)
        ensures
            res is Ok <==> self.is_valid(),
            res matches Err(e) ==> rejection(self.player@, self.entropy) == Some(e),
    {
        validate(&self.player, self.entropy)
    }
}

} // verus!
