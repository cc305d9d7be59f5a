//! The game session state machine: initialise, commit, reveal, finalise and
//! a read accessor, each an operation on an explicit session object. The
//! host shell owns persistence and caller authentication; every operation
//! here either succeeds and mutates the session, or rejects the call and
//! leaves it untouched.

use vstd::prelude::*;

use crate::types::Action;
use crate::types::GameError;
use crate::types::GamePhase;
use crate::types::GameState;
use crate::types::PlayerId;
use crate::types::VaultCommit;
use crate::types::MAX_TURNS;
use crate::types::same_id;

verus! {

/// Saturating addition on the range of `i32`: the mathematical sum, clamped
/// to the representable bounds.
pub open spec fn saturating_add_i32(a: int, b: int) -> int {
    if a + b > i32::MAX {
        i32::MAX as int
    } else if a + b < i32::MIN {
        i32::MIN as int
    } else {
        a + b
    }
}

/// Adds two scores, clamping at the bounds of `i32` instead of wrapping.
pub fn saturating_add(a: i32, b: i32) -> (r: i32)
    ensures
        r as int == saturating_add_i32(a as int, b as int),
{
    match a.checked_add(b) {
        Some(v) => v,
        None => if b > 0 {
            i32::MAX
        } else {
            i32::MIN
        },
    }
}

/// Saturating accumulation never wraps: a non-negative delta never lowers a
/// score, a non-positive delta never raises it, and the result always stays
/// within the bounds of `i32`. In particular, repeatedly adding positive
/// deltas can never turn a non-negative score negative, and symmetrically
/// for negative deltas.
pub proof fn lemma_saturating_add_no_wrap(score: int, delta: int)
    requires
        i32::MIN <= score <= i32::MAX,
        i32::MIN <= delta <= i32::MAX,
    ensures
        i32::MIN <= saturating_add_i32(score, delta) <= i32::MAX,
        delta >= 0 ==> saturating_add_i32(score, delta) >= score,
        delta <= 0 ==> saturating_add_i32(score, delta) <= score,
{
}

/// In every well-formed session the turn counter never exceeds `MAX_TURNS`.
pub proof fn lemma_turn_bounded(game: ClawbotVaultWars)
    requires
        game.wf(),
        game.state is Some,
    ensures
        game.state->Some_0.turn <= MAX_TURNS,
{
}

/// Once a session is finished, commits and reveals are rejected for every
/// identity, registered players included: no phase an operation requires
/// matches `Finished`.
pub proof fn lemma_finished_rejects(game: ClawbotVaultWars, p: Seq<u8>)
    requires
        game.state is Some,
        game.state->Some_0.phase == GamePhase::Finished,
    ensures
        game.commit_outcome(p) == Err::<(), GameError>(GameError::WrongPhase),
        game.reveal_outcome(p) == Err::<(), GameError>(GameError::WrongPhase),
{
}

/// One game session: the single authoritative state record plus the two
/// transient per-player commitment slots, exactly the records the host
/// shell persists between calls.
pub struct ClawbotVaultWars {
    /// The session record; absent until the first initialisation.
    pub state: Option<GameState>,
    /// Commitment most recently submitted by player one.
    pub commit_one: Option<VaultCommit>,
    /// Commitment most recently submitted by player two.
    pub commit_two: Option<VaultCommit>,
}

impl ClawbotVaultWars {
    /// Whether the session record, if present, is well formed. Holds of a
    /// fresh session and is preserved by every operation.
    pub open spec fn wf(self) -> bool {
        self.state is Some ==> self.state->Some_0.wf()
    }

    /// A session on which no operation has run: uninitialised, with empty
    /// commitment slots.
    pub fn new() -> (r: Self)
        ensures
            r.state is None,
            r.commit_one is None,
            r.commit_two is None,
            r.wf(),
    {
        ClawbotVaultWars { state: None, commit_one: None, commit_two: None }
    }

    /// How the session answers a commit by the identity `p`: rejected when
    /// the session is uninitialised, out of the commit phase, or `p` is
    /// neither registered player; accepted otherwise.
    pub open spec fn commit_outcome(self, p: Seq<u8>) -> Result<(), GameError> {
        if self.state is None {
            Err(GameError::NotInitialised)
        } else if self.state->Some_0.phase != GamePhase::Commit {
            Err(GameError::WrongPhase)
        } else if !self.state->Some_0.is_registered(p) {
            Err(GameError::UnknownPlayer)
        } else {
            Ok(())
        }
    }

    /// Initialise a new game between two players, unconditionally
    /// overwriting any prior session record: the fresh record starts in the
    /// commit phase at turn 1 with both scores zero and both proof slots
    /// empty. The host shell must have authenticated the caller as
    /// `player_one` before invoking this.
    pub fn init_game(&mut self, player_one: PlayerId, player_two: PlayerId)
        ensures
            final(self).state is Some,
            final(self).state->Some_0.player_one == player_one,
            final(self).state->Some_0.player_two == player_two,
            final(self).state->Some_0.phase == GamePhase::Commit,
            final(self).state->Some_0.turn == 1,
            final(self).state->Some_0.score_player_one == 0,
            final(self).state->Some_0.score_player_two == 0,
            final(self).state->Some_0.proof_player_one@ == Seq::<u8>::empty(),
            final(self).state->Some_0.proof_player_two@ == Seq::<u8>::empty(),
            final(self).commit_one == old(self).commit_one,
            final(self).commit_two == old(self).commit_two,
            final(self).wf(),
    {
        self.state = Some(
            GameState {
                player_one,
                player_two,
                phase: GamePhase::Commit,
                turn: 1,
                score_player_one: 0,
                score_player_two: 0,
                proof_player_one: Vec::new(),
                proof_player_two: Vec::new(),
            },
        );
    }

    /// Record the commitment hash of `player`'s chosen action for the
    /// current turn in that player's slot, overwriting any earlier one. The
    /// session record itself — phase and turn included — is not touched; a
    /// rejected call changes nothing at all. The host shell must have
    /// authenticated the caller as `player` before invoking this.
    pub fn commit_action(&mut self, player: &PlayerId, commitment: [u8; 32]) -> (r: Result<
        (),
        GameError,
    >)
        ensures
            r == old(self).commit_outcome(player@),
            r is Err ==> *final(self) == *old(self),
            r is Ok ==> {
                &&& final(self).state == old(self).state
                &&& (player@ == old(self).state->Some_0.player_one@ ==> {
                    &&& final(self).commit_one is Some
                    &&& final(self).commit_one->Some_0.commitment == commitment
                    &&& final(self).commit_two == old(self).commit_two
                })
                &&& (player@ != old(self).state->Some_0.player_one@ ==> {
                    &&& final(self).commit_two is Some
                    &&& final(self).commit_two->Some_0.commitment == commitment
                    &&& final(self).commit_one == old(self).commit_one
                })
            },
            final(self).wf() == old(self).wf(),
    {
        let st = match &self.state {
            Some(st) => st,
            None => {
                return Err(GameError::NotInitialised);
            },
        };
        if st.phase != GamePhase::Commit {
            return Err(GameError::WrongPhase);
        }
        let is_one = same_id(player, &st.player_one);
        let is_two = same_id(player, &st.player_two);
        if !is_one && !is_two {
            return Err(GameError::UnknownPlayer);
        }
        // Store the commitment so the relayer can check it at reveal time.
        if is_one {
            self.commit_one = Some(VaultCommit { commitment });
        } else {
            self.commit_two = Some(VaultCommit { commitment });
        }
        Ok(())
    }

    /// How the session answers a reveal by the identity `p`: rejected when
    /// the session is uninitialised, out of the reveal phase, or `p` is
    /// neither registered player; accepted otherwise.
    pub open spec fn reveal_outcome(self, p: Seq<u8>) -> Result<(), GameError> {
        if self.state is None {
            Err(GameError::NotInitialised)
        } else if self.state->Some_0.phase != GamePhase::Reveal {
            Err(GameError::WrongPhase)
        } else if !self.state->Some_0.is_registered(p) {
            Err(GameError::UnknownPlayer)
        } else {
            Ok(())
        }
    }

    /// Attach the proof accompanying `player`'s revealed action to that
    /// player's slot in the session record; nothing else of the record — nor
    /// either commitment slot — changes, and a rejected call changes nothing
    /// at all. The action itself is not checked against the stored
    /// commitment here: that verification is delegated to the off-chain
    /// relayer, which supplies the score deltas for the finalise step. The
    /// host shell must have authenticated the caller as `player`.
    #[allow(unused_variables)]
    pub fn reveal_action(&mut self, player: &PlayerId, action: Action, proof: Vec<u8>) -> (r:
        Result<(), GameError>)
        ensures
            r == old(self).reveal_outcome(player@),
            r is Err ==> *final(self) == *old(self),
            r is Ok ==> {
                &&& final(self).commit_one == old(self).commit_one
                &&& final(self).commit_two == old(self).commit_two
                &&& final(self).state is Some
                &&& (player@ == old(self).state->Some_0.player_one@ ==> final(self).state->Some_0
                    == (GameState { proof_player_one: proof, ..old(self).state->Some_0 }))
                &&& (player@ != old(self).state->Some_0.player_one@ ==> final(self).state->Some_0
                    == (GameState { proof_player_two: proof, ..old(self).state->Some_0 }))
            },
            final(self).wf() == old(self).wf(),
    {
        let st = match &mut self.state {
            Some(st) => st,
            None => {
                return Err(GameError::NotInitialised);
            },
        };
        if st.phase != GamePhase::Reveal {
            return Err(GameError::WrongPhase);
        }
        if same_id(player, &st.player_one) {
            st.proof_player_one = proof;
            Ok(())
        } else if same_id(player, &st.player_two) {
            st.proof_player_two = proof;
            Ok(())
        } else {
            Err(GameError::UnknownPlayer)
        }
    }

    /// How the session answers a finalise request: rejected only when the
    /// session is uninitialised. There is deliberately no phase or identity
    /// guard — the relayer delivers an already-verified result at any time.
    pub open spec fn finalise_outcome(self) -> Result<(), GameError> {
        if self.state is None {
            Err(GameError::NotInitialised)
        } else {
            Ok(())
        }
    }

    /// How the session answers a request to open the reveal phase: rejected
    /// when the session is uninitialised or not in the commit phase.
    pub open spec fn advance_outcome(self) -> Result<(), GameError> {
        if self.state is None {
            Err(GameError::NotInitialised)
        } else if self.state->Some_0.phase != GamePhase::Commit {
            Err(GameError::WrongPhase)
        } else {
            Ok(())
        }
    }

    /// Open the reveal phase for the current turn. Committing and revealing
    /// never change the phase themselves; this event is injected by the
    /// off-chain relayer once it has observed both commitments, so — like
    /// `finalise_turn` — it carries no identity guard. Nothing but the phase
    /// changes, and a rejected call changes nothing at all.
    pub fn advance_to_reveal(&mut self) -> (r: Result<(), GameError>)
        ensures
            r == old(self).advance_outcome(),
            r is Err ==> *final(self) == *old(self),
            r is Ok ==> {
                &&& final(self).commit_one == old(self).commit_one
                &&& final(self).commit_two == old(self).commit_two
                &&& final(self).state is Some
                &&& final(self).state->Some_0 == (GameState {
                    phase: GamePhase::Reveal,
                    ..old(self).state->Some_0
                })
            },
            old(self).wf() ==> final(self).wf(),
    {
        let st = match &mut self.state {
            Some(st) => st,
            None => {
                return Err(GameError::NotInitialised);
            },
        };
        if st.phase != GamePhase::Commit {
            return Err(GameError::WrongPhase);
        }
        st.phase = GamePhase::Reveal;
        Ok(())
    }

    /// Close the current turn with the score deltas the off-chain relayer
    /// computed from the verified proofs: each delta is added to the
    /// matching score with saturating arithmetic, and then either the game
    /// ends — the phase becomes `Finished` exactly when the turn counter has
    /// reached `MAX_TURNS` — or the counter advances by one and the phase
    /// resets to `Commit` for the next cycle. Players' identities, proofs
    /// and commitment slots are untouched. The deltas are trusted
    /// unconditionally, so any caller may invoke this.
    pub fn finalise_turn(
        &mut self,
        score_delta_player_one: i32,
        score_delta_player_two: i32,
    ) -> (r: Result<(), GameError>)
        ensures
            r == old(self).finalise_outcome(),
            r is Err ==> *final(self) == *old(self),
            r is Ok ==> {
                &&& final(self).commit_one == old(self).commit_one
                &&& final(self).commit_two == old(self).commit_two
                &&& final(self).state is Some
                &&& final(self).state->Some_0.player_one == old(self).state->Some_0.player_one
                &&& final(self).state->Some_0.player_two == old(self).state->Some_0.player_two
                &&& final(self).state->Some_0.proof_player_one == old(
                    self,
                ).state->Some_0.proof_player_one
                &&& final(self).state->Some_0.proof_player_two == old(
                    self,
                ).state->Some_0.proof_player_two
                &&& final(self).state->Some_0.score_player_one as int == saturating_add_i32(
                    old(self).state->Some_0.score_player_one as int,
                    score_delta_player_one as int,
                )
                &&& final(self).state->Some_0.score_player_two as int == saturating_add_i32(
                    old(self).state->Some_0.score_player_two as int,
                    score_delta_player_two as int,
                )
                &&& (old(self).state->Some_0.turn >= MAX_TURNS ==> {
                    &&& final(self).state->Some_0.phase == GamePhase::Finished
                    &&& final(self).state->Some_0.turn == old(self).state->Some_0.turn
                })
                &&& (old(self).state->Some_0.turn < MAX_TURNS ==> {
                    &&& final(self).state->Some_0.phase == GamePhase::Commit
                    &&& final(self).state->Some_0.turn == old(self).state->Some_0.turn + 1
                })
            },
            old(self).wf() ==> final(self).wf(),
            old(self).wf() && r is Ok ==> (final(self).state->Some_0.phase == GamePhase::Finished
                <==> old(self).state->Some_0.turn == MAX_TURNS),
    {
        let st = match &mut self.state {
            Some(st) => st,
            None => {
                return Err(GameError::NotInitialised);
            },
        };
        st.score_player_one = saturating_add(st.score_player_one, score_delta_player_one);
        st.score_player_two = saturating_add(st.score_player_two, score_delta_player_two);
        if st.turn >= MAX_TURNS {
            st.phase = GamePhase::Finished;
        } else {
            st.turn = st.turn + 1;
            st.phase = GamePhase::Commit;
        }
        Ok(())
    }

    /// Read-only snapshot of the session record; fails only when the session
    /// was never initialised.
    pub fn get_state(&self) -> (r: Result<&GameState, GameError>)
        ensures
            match r {
                Ok(s) => self.state is Some && *s == self.state->Some_0,
                Err(e) => self.state is None && e == GameError::NotInitialised,
            },
    {
        match &self.state {
            Some(s) => Ok(s),
            None => Err(GameError::NotInitialised),
        }
    }
}

} // verus!
