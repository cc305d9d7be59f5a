//! Data model of a game session: player identities, phases, actions,
//! commitments and the persisted session record.

use vstd::prelude::*;

verus! {

/// Number of turns a session lasts; once the turn counter reaches this bound,
/// finalising the turn ends the game instead of advancing it.
pub const MAX_TURNS: u32 = 10;

/// An opaque authenticated player identity, carried as the bytes of the
/// host environment's canonical encoding of an address. Two identities are
/// the same player exactly when their byte sequences are equal.
#[derive(Debug, PartialEq, Eq)]
pub struct PlayerId {
    pub bytes: Vec<u8>,
}

impl View for PlayerId {
    type V = Seq<u8>;

    open spec fn view(&self) -> Seq<u8> {
        self.bytes@
    }
}

/// Decides whether two identities denote the same player.
pub fn same_id(a: &PlayerId, b: &PlayerId) -> (r: bool)
    ensures
        r == (a@ == b@),
{
    if a.bytes.len() != b.bytes.len() {
        return false;
    }
    let n = a.bytes.len();
    let mut i: usize = 0;
    while i < n
        invariant
            n == a@.len() && n == b@.len(),
            i <= n,
            forall|k: int| 0 <= k < i ==> a@[k] == b@[k],
        decreases n - i,
    {
        if a.bytes[i] != b.bytes[i] {
            return false;
        }
        i += 1;
    }
    proof {
        assert(a@ =~= b@);
    }
    true
}

/// The phase of the session, which drives which operations are legal.
#[derive(Clone, Copy, Debug, PartialEq, Eq, Structural)]
pub enum GamePhase {
    WaitingForPlayers,
    Commit,
    Reveal,
    Finished,
}

/// A revealed action for a turn. The session stores the accompanying proof
/// verbatim; checking the action against the commitment is delegated to the
/// off-chain relayer.
#[derive(Clone, Copy, Debug, PartialEq, Eq, Structural)]
pub enum Action {
    Attack,
    Defend,
    Vault,
}

/// A single vault entry a player commits to each turn: the commitment hash
/// of the player's chosen action, opaque to the session.
#[derive(Clone, Copy, Debug, PartialEq, Eq)]
pub struct VaultCommit {
    pub commitment: [u8; 32],
}

/// The full persisted state of a game session.
#[derive(Debug)]
pub struct GameState {
    pub player_one: PlayerId,
    pub player_two: PlayerId,
    pub phase: GamePhase,
    pub turn: u32,
    pub score_player_one: i32,
    pub score_player_two: i32,
    /// Proof submitted by player one for the current turn.
    pub proof_player_one: Vec<u8>,
    /// Proof submitted by player two for the current turn.
    pub proof_player_two: Vec<u8>,
}

impl GameState {
    /// An identity is registered when it is one of the two recorded players.
    pub open spec fn is_registered(self, p: Seq<u8>) -> bool {
        p == self.player_one@ || p == self.player_two@
    }

    /// Every session record the operations produce satisfies this: the turn
    /// counter stays between 1 and `MAX_TURNS`, the declared
    /// `WaitingForPlayers` phase is never entered, and the terminal
    /// `Finished` phase is only ever reached at the turn bound.
    pub open spec fn wf(self) -> bool {
        &&& 1 <= self.turn <= MAX_TURNS
        &&& self.phase != GamePhase::WaitingForPlayers
        &&& (self.phase == GamePhase::Finished ==> self.turn == MAX_TURNS)
    }
}

/// Why an operation was rejected. A rejected operation mutates nothing.
#[derive(Clone, Copy, Debug, PartialEq, Eq, Structural)]
pub enum GameError {
    /// The session was never initialised.
    NotInitialised,
    /// The session is not in the phase the operation requires.
    WrongPhase,
    /// The supplied identity is neither registered player.
    UnknownPlayer,
}

} // verus!
