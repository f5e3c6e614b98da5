//! The three hands with their cyclic outcome relation, the committed rounds,
//! and the session that sequences them.

use vstd::prelude::*;

use crate::util::{bytes_to_hex, gen_random_bytes, sha256_hex, spec_hex, spec_sha256_hex};
use rand::seq::SliceRandom;
use vstd::string::StringExecFns;

verus! {

/// One of the three shapes a player can throw.
#[derive(Clone, Copy, Debug, PartialEq, Eq, Structural)]
pub enum Hand {
    Rock,
    Paper,
    Scissors,
}

/// The verdict of one round, seen from the human player's side.
#[derive(Clone, Copy, Debug, PartialEq, Eq, Structural)]
pub enum Outcome {
    Lose,
    Draw,
    Win,
}

/// True when `a` dominates `b` in the cyclic relation
/// Rock > Scissors > Paper > Rock.
pub open spec fn spec_beats(a: Hand, b: Hand) -> bool {
    ||| a == Hand::Rock && b == Hand::Scissors
    ||| a == Hand::Scissors && b == Hand::Paper
    ||| a == Hand::Paper && b == Hand::Rock
}

/// The outcome of `human` against `opponent`, from `human`'s side.
pub open spec fn spec_outcome(human: Hand, opponent: Hand) -> Outcome {
    if human == opponent {
        Outcome::Draw
    } else if spec_beats(human, opponent) {
        Outcome::Win
    } else {
        Outcome::Lose
    }
}

/// The long verdict text shown for a finished round.
pub open spec fn spec_outcome_str(lhs: Hand, rhs: Hand) -> Seq<char> {
    match spec_outcome(lhs, rhs) {
        Outcome::Lose => "You lose"@,
        Outcome::Draw => "Draw"@,
        Outcome::Win => "You win"@,
    }
}

/// The one-letter verdict shown in the history table.
pub open spec fn spec_outcome_abbrev(lhs: Hand, rhs: Hand) -> Seq<char> {
    match spec_outcome(lhs, rhs) {
        Outcome::Lose => "L"@,
        Outcome::Draw => "D"@,
        Outcome::Win => "W"@,
    }
}

/// The glyph a hand is drawn with.
pub open spec fn spec_icon(h: Hand) -> Seq<char> {
    match h {
        Hand::Rock => "✊🏼"@,
        Hand::Paper => "✋🏼"@,
        Hand::Scissors => "✌🏼"@,
    }
}

/// The lowercase identifier of a hand; it is part of the commitment string.
pub open spec fn spec_name(h: Hand) -> Seq<char> {
    match h {
        Hand::Rock => "rock"@,
        Hand::Paper => "paper"@,
        Hand::Scissors => "scissors"@,
    }
}

impl Hand {
    /// The outcome of `human` against `opponent`, from `human`'s side.
    pub fn outcome(human: Hand, opponent: Hand) -> (o: Outcome)
        ensures
            o == spec_outcome(human, opponent),
    {
        match (human, opponent) {
            (Hand::Rock, Hand::Rock) => Outcome::Draw,
            (Hand::Rock, Hand::Paper) => Outcome::Lose,
            (Hand::Rock, Hand::Scissors) => Outcome::Win,
            (Hand::Paper, Hand::Rock) => Outcome::Win,
            (Hand::Paper, Hand::Paper) => Outcome::Draw,
            (Hand::Paper, Hand::Scissors) => Outcome::Lose,
            (Hand::Scissors, Hand::Rock) => Outcome::Lose,
            (Hand::Scissors, Hand::Paper) => Outcome::Win,
            (Hand::Scissors, Hand::Scissors) => Outcome::Draw,
        }
    }

    /// The verdict of `lhs` against `rhs` as a sentence.
    pub fn cmp_as_str(lhs: Hand, rhs: Hand) -> (r: &'static str)
        ensures
            r@ == spec_outcome_str(lhs, rhs),
    {
        match Hand::outcome(lhs, rhs) {
            Outcome::Lose => "You lose",
            Outcome::Draw => "Draw",
            Outcome::Win => "You win",
        }
    }

    /// The verdict of `lhs` against `rhs` as a single letter.
    pub fn cmp_as_s(lhs: Hand, rhs: Hand) -> (r: &'static str)
        ensures
            r@ == spec_outcome_abbrev(lhs, rhs),
    {
        match Hand::outcome(lhs, rhs) {
            Outcome::Lose => "L",
            Outcome::Draw => "D",
            Outcome::Win => "W",
        }
    }

    /// The glyph this hand is drawn with.
    pub fn as_icon(&self) -> (r: &'static str)
        ensures
            r@ == spec_icon(*self),
    {
        match *self {
            Hand::Rock => "✊🏼",
            Hand::Paper => "✋🏼",
            Hand::Scissors => "✌🏼",
        }
    }

    /// The lowercase identifier used in the commitment string.
    pub fn name(&self) -> (r: &'static str)
        ensures
            r@ == spec_name(*self),
    {
        match *self {
            Hand::Rock => "rock",
            Hand::Paper => "paper",
            Hand::Scissors => "scissors",
        }
    }

    /// Draws one of the three hands.
    ///
    /// Relies on rand: `SliceRandom::choose` on a nonempty slice with
    /// `thread_rng` returns `Some` of one of its elements, picked uniformly.
    /// Which hand comes back is up to the generator, so nothing more can be
    /// promised of the result.
    #[verifier::external_body]
    pub fn random() -> Hand {
        let mut rng = rand::thread_rng();
        let choices = [Hand::Rock, Hand::Paper, Hand::Scissors];
        *choices.choose(&mut rng).unwrap()
    }
}

/// Every hand draws against itself.
pub proof fn lemma_outcome_self(x: Hand)
    ensures
        spec_outcome(x, x) == Outcome::Draw,
{
}

/// For two different hands the two orders give opposite verdicts: one side
/// wins exactly when the other loses, and neither side draws.
pub proof fn lemma_outcome_antisymmetric(a: Hand, b: Hand)
    requires
        a != b,
    ensures
        spec_outcome(a, b) != Outcome::Draw,
        spec_outcome(a, b) == Outcome::Win <==> spec_outcome(b, a) == Outcome::Lose,
        spec_outcome(a, b) == Outcome::Lose <==> spec_outcome(b, a) == Outcome::Win,
{
}

/// One play of rock-paper-scissors: the opponent's committed hand, the nonce
/// and digest that bind the commitment, and the human's throw once made.
pub struct Round {
    /// Zero-based position of this round in the session.
    pub i: usize,
    /// The opponent's hand, fixed when the round is created.
    pub computer: Hand,
    /// Lowercase hex of the 32-byte nonce drawn when the round was created.
    pub random_bytes: String,
    /// Lowercase hex SHA-256 digest of the verification string.
    pub digest: String,
    /// The human's throw; absent until the human throws, then fixed.
    pub human: Option<Hand>,
}

/// The string whose digest the opponent published before the human threw:
/// the hex nonce, one underscore, and the committed hand's name.
pub open spec fn spec_verification_string(r: Round) -> Seq<char> {
    r.random_bytes@ + "_"@ + spec_name(r.computer)
}

impl Round {
    /// The commitment is well formed: the stored hex renders some 32-byte
    /// nonce, and the stored digest is the SHA-256 hex digest of the
    /// verification string.
    pub open spec fn inv(self) -> bool {
        &&& exists|nonce: Seq<u8>|
            nonce.len() == 32 && self.random_bytes@ == #[trigger] spec_hex(nonce)
        &&& self.random_bytes@.len() == 64
        &&& self.digest@ == spec_sha256_hex(spec_verification_string(self))
        &&& self.digest@.len() == 64
    }

    /// Builds the round at position `i` that commits `computer` under the
    /// given 32-byte nonce: the hex rendering and the digest are computed
    /// here, and the human's throw is still absent.
    pub fn from_parts(i: usize, computer: Hand, nonce: &[u8]) -> (r: Round)
        requires
            nonce@.len() == 32,
        ensures
            r.i == i,
            r.computer == computer,
            r.human is None,
            r.random_bytes@ == spec_hex(nonce@),
            r.inv(),
    {
        let random_bytes = bytes_to_hex(nonce);
        let mut concat = random_bytes.clone();
        concat.append("_");
        concat.append(computer.name());
        let digest = sha256_hex(concat.as_str());
        let r = Round { i, computer, random_bytes, digest, human: None };
        r
    }

    /// Begins the round at position `i`: the opponent commits to a random
    /// hand under a fresh 32-byte nonce.
    pub fn random(i: usize) -> (r: Round)
        ensures
            r.i == i,
            r.human is None,
            r.inv(),
    {
        let hand = Hand::random();
        let nonce = gen_random_bytes(32);
        Round::from_parts(i, hand, nonce.as_slice())
    }

    /// Round number, 1-based, as shown to the player.
    pub fn num1(&self) -> (n: usize)
        requires
            self.i < usize::MAX,
        ensures
            n == self.i + 1,
    {
        self.i + 1
    }

    /// The revealed commitment input: hex nonce, underscore, hand name.
    /// Hashing exactly this string must give back the stored digest.
    pub fn verification_string(&self) -> (s: String)
        ensures
            s@ == spec_verification_string(*self),
    {
        let mut s = self.random_bytes.clone();
        s.append("_");
        s.append(self.computer.name());
        s
    }

    /// Recomputes the SHA-256 hex digest of the verification string and
    /// compares it with the stored commitment.
    pub fn verify_commitment(&self) -> (ok: bool)
        ensures
            ok == (spec_sha256_hex(spec_verification_string(*self)) == self.digest@),
    {
        let vs = self.verification_string();
        let recomputed = sha256_hex(vs.as_str());
        recomputed == self.digest
    }

    /// The verdict text once the human has thrown, absent beforehand.
    pub fn result_str(&self) -> (r: Option<&'static str>)
        ensures
            match r {
                Some(s) => self.human is Some && s@ == spec_outcome_str(
                    self.human->0,
                    self.computer,
                ),
                None => self.human is None,
            },
    {
        if let Some(human) = self.human {
            Some(Hand::cmp_as_str(human, self.computer))
        } else {
            None
        }
    }
}

/// A well-formed round passes verification: hashing its revealed
/// verification string gives back exactly the stored commitment.
pub proof fn lemma_commitment_verifies(r: Round)
    requires
        r.inv(),
    ensures
        spec_sha256_hex(spec_verification_string(r)) == r.digest@,
{
}

/// The verdict of a resolved round, from the human's side.
pub open spec fn spec_round_outcome(r: Round) -> Outcome
    recommends
        r.human is Some,
{
    spec_outcome(r.human->0, r.computer)
}

/// `r` with the human's throw recorded and everything else kept.
pub open spec fn spec_resolved(r: Round, hand: Hand) -> Round {
    Round { human: Some(hand), ..r }
}

/// How many rounds of `h` ended with the verdict `o`.
pub open spec fn spec_count_outcome(h: Seq<Round>, o: Outcome) -> nat
    decreases h.len(),
{
    if h.len() == 0 {
        0
    } else {
        spec_count_outcome(h.drop_last(), o) + if spec_round_outcome(h.last()) == o {
            1nat
        } else {
            0nat
        }
    }
}

proof fn lemma_count_outcome_le_len(h: Seq<Round>, o: Outcome)
    ensures
        spec_count_outcome(h, o) <= h.len(),
    decreases h.len(),
{
    if h.len() > 0 {
        lemma_count_outcome_le_len(h.drop_last(), o);
    }
}

proof fn lemma_count_outcome_push(h: Seq<Round>, r: Round, o: Outcome)
    ensures
        spec_count_outcome(h.push(r), o) == spec_count_outcome(h, o) + if spec_round_outcome(r)
            == o {
            1int
        } else {
            0int
        },
{
    assert(h.push(r).drop_last() =~= h);
    assert(h.push(r).last() == r);
}

/// Each resolved round counts toward exactly one of the three verdicts, so
/// the three outcome counts of any history add up to its length.
pub proof fn lemma_counts_total(h: Seq<Round>)
    ensures
        spec_count_outcome(h, Outcome::Win) + spec_count_outcome(h, Outcome::Draw)
            + spec_count_outcome(h, Outcome::Lose) == h.len(),
    decreases h.len(),
{
    if h.len() > 0 {
        lemma_counts_total(h.drop_last());
    }
}

/// One play-through: the archived rounds, the round awaiting a throw, the
/// inspection cursor, and the running score.
pub struct State {
    /// Resolved rounds, oldest first; each sits at its own index.
    pub history: Vec<Round>,
    /// The one round awaiting the human's throw; always present.
    pub current_round: Option<Round>,
    /// Inspection cursor into the history; cleared by every new throw.
    pub selected_round: Option<usize>,
    /// How many rounds the human has won.
    pub win_count: usize,
    /// How many rounds were drawn.
    pub draw_count: usize,
    /// How many rounds the human has lost.
    pub loss_count: usize,
}

impl State {
    /// Everything the session keeps is consistent: one well-formed round is
    /// awaiting a throw at the position right after the history; every
    /// archived round is resolved, well formed, and stored at its own
    /// position; and each counter is exactly the count of its verdict.
    pub open spec fn inv(self) -> bool {
        &&& self.current_round is Some
        &&& self.current_round->0.inv()
        &&& self.current_round->0.human is None
        &&& self.current_round->0.i == self.history@.len()
        &&& forall|k: int|
            0 <= k < self.history@.len() ==> (#[trigger] self.history@[k]).inv()
        &&& forall|k: int| 0 <= k < self.history@.len() ==> (#[trigger] self.history@[k]).i == k
        &&& forall|k: int|
            0 <= k < self.history@.len() ==> (#[trigger] self.history@[k]).human is Some
        &&& self.win_count == spec_count_outcome(self.history@, Outcome::Win)
        &&& self.draw_count == spec_count_outcome(self.history@, Outcome::Draw)
        &&& self.loss_count == spec_count_outcome(self.history@, Outcome::Lose)
    }

    /// Opens a session: empty history, zero counters, no selection, and one
    /// round at position zero awaiting the first throw.
    pub fn new() -> (s: State)
        ensures
            s.inv(),
            s.history@.len() == 0,
            s.selected_round is None,
            s.win_count == 0 && s.draw_count == 0 && s.loss_count == 0,
            s.current_round is Some && s.current_round->0.i == 0,
    {
        State {
            history: Vec::new(),
            current_round: Some(Round::random(0)),
            selected_round: None,
            win_count: 0,
            draw_count: 0,
            loss_count: 0,
        }
    }

    /// Opens a session whose first round is the given one, for callers that
    /// build the opening commitment themselves.
    pub fn starting_with(round: Round) -> (s: State)
        requires
            round.inv(),
            round.human is None,
            round.i == 0,
        ensures
            s.inv(),
            s.history@.len() == 0,
            s.selected_round is None,
            s.win_count == 0 && s.draw_count == 0 && s.loss_count == 0,
            s.current_round == Some(round),
    {
        State {
            history: Vec::new(),
            current_round: Some(round),
            selected_round: None,
            win_count: 0,
            draw_count: 0,
            loss_count: 0,
        }
    }

    /// The archived rounds, oldest first.
    pub fn history(&self) -> (h: &[Round])
        ensures
            h@ == self.history@,
    {
        self.history.as_slice()
    }

    /// The number of resolved rounds.
    pub fn num_rounds(&self) -> (n: usize)
        ensures
            n == self.history@.len(),
    {
        self.history.len()
    }

    /// Points the inspection cursor at round `i`. An out-of-range index is
    /// kept as given; `selected_round` then answers `None` for it.
    pub fn set_selected_round(&mut self, i: usize)
        ensures
            *final(self) == (State { selected_round: Some(i), ..*old(self) }),
            old(self).inv() ==> final(self).inv(),
    {
        self.selected_round = Some(i);
    }

    /// The round the cursor points at, when it points into the history.
    pub fn selected_round(&self) -> (r: Option<&Round>)
        ensures
            match r {
                Some(round) => {
                    &&& self.selected_round is Some
                    &&& self.selected_round->0 < self.history@.len()
                    &&& *round == self.history@[self.selected_round->0 as int]
                },
                None => self.selected_round is None || self.selected_round->0
                    >= self.history@.len(),
            },
    {
        match self.selected_round {
            Some(i) => {
                if i < self.history.len() {
                    Some(&self.history[i])
                } else {
                    None
                }
            },
            None => None,
        }
    }

    /// The most recently resolved round, if any.
    pub fn last_round(&self) -> (r: Option<&Round>)
        ensures
            match r {
                Some(round) => self.history@.len() > 0 && *round == self.history@.last(),
                None => self.history@.len() == 0,
            },
    {
        self.history.as_slice().last()
    }

    /// The round awaiting the human's throw.
    pub fn current_round(&self) -> (r: Option<&Round>)
        ensures
            match r {
                Some(round) => self.current_round is Some && *round == self.current_round->0,
                None => self.current_round is None,
            },
    {
        self.current_round.as_ref()
    }

    /// Resolves the current round with the human's throw: records the hand,
    /// scores the verdict, archives the round, clears any selection, and
    /// begins the next round right after it.
    pub fn human_throw(&mut self, hand: Hand)
        requires
            old(self).inv(),
        ensures
            final(self).inv(),
            final(self).history@ == old(self).history@.push(
                spec_resolved(old(self).current_round->0, hand),
            ),
            final(self).history@.len() == old(self).history@.len() + 1,
            final(self).selected_round is None,
            final(self).current_round is Some,
            final(self).current_round->0.i == old(self).history@.len() + 1,
            ({
                let o = spec_outcome(hand, old(self).current_round->0.computer);
                &&& final(self).win_count == old(self).win_count + if o == Outcome::Win {
                    1int
                } else {
                    0int
                }
                &&& final(self).draw_count == old(self).draw_count + if o == Outcome::Draw {
                    1int
                } else {
                    0int
                }
                &&& final(self).loss_count == old(self).loss_count + if o == Outcome::Lose {
                    1int
                } else {
                    0int
                }
            }),
    {
        let mut round = self.current_round.take().unwrap();
        round.human = Some(hand);
        let outcome = Hand::outcome(hand, round.computer);
        proof {
            lemma_count_outcome_push(old(self).history@, round, Outcome::Win);
            lemma_count_outcome_push(old(self).history@, round, Outcome::Draw);
            lemma_count_outcome_push(old(self).history@, round, Outcome::Lose);
            lemma_count_outcome_le_len(old(self).history@, Outcome::Win);
            lemma_count_outcome_le_len(old(self).history@, Outcome::Draw);
            lemma_count_outcome_le_len(old(self).history@, Outcome::Lose);
        }
        self.history.push(round);
        let next_i = self.history.len();
        match outcome {
            Outcome::Lose => {
                self.loss_count = self.loss_count + 1;
            },
            Outcome::Draw => {
                self.draw_count = self.draw_count + 1;
            },
            Outcome::Win => {
                self.win_count = self.win_count + 1;
            },
        }
        self.selected_round = None;
        self.current_round = Some(Round::random(next_i));
    }

    /// The hands of the last resolved round: the human's and the computer's.
    pub fn last_human_vs_computer(&self) -> (r: Option<(Hand, Hand)>)
        ensures
            match r {
                Some(p) => {
                    &&& self.history@.len() > 0
                    &&& self.history@.last().human == Some(p.0)
                    &&& self.history@.last().computer == p.1
                },
                None => self.history@.len() == 0 || self.history@.last().human is None,
            },
    {
        match self.last_round() {
            Some(round) => match round.human {
                Some(human) => Some((human, round.computer)),
                None => None,
            },
            None => None,
        }
    }

    /// How many rounds the human has won.
    pub fn win_count(&self) -> (n: usize)
        ensures
            n == self.win_count,
    {
        self.win_count
    }

    /// How many rounds were drawn.
    pub fn draw_count(&self) -> (n: usize)
        ensures
            n == self.draw_count,
    {
        self.draw_count
    }

    /// How many rounds the human has lost.
    pub fn loss_count(&self) -> (n: usize)
        ensures
            n == self.loss_count,
    {
        self.loss_count
    }
}

/// In a well-formed session the scoreboard accounts for every round: the
/// win, draw and loss counters sum to the history length.
pub proof fn lemma_score_total(s: State)
    requires
        s.inv(),
    ensures
        s.win_count + s.draw_count + s.loss_count == s.history@.len(),
{
    lemma_counts_total(s.history@);
}

/// A selected in-range position holds the round with that very index:
/// archived rounds sit at their own position.
pub proof fn lemma_selected_round_index(s: State, i: int)
    requires
        s.inv(),
        0 <= i < s.history@.len(),
    ensures
        s.history@[i].i == i,
{
}

/// Rock beats Scissors, Scissors beats Paper, Paper beats Rock, and each
/// reversed pair loses.
pub proof fn lemma_cyclic_dominance()
    ensures
        spec_outcome(Hand::Rock, Hand::Scissors) == Outcome::Win,
        spec_outcome(Hand::Scissors, Hand::Paper) == Outcome::Win,
        spec_outcome(Hand::Paper, Hand::Rock) == Outcome::Win,
        spec_outcome(Hand::Scissors, Hand::Rock) == Outcome::Lose,
        spec_outcome(Hand::Paper, Hand::Scissors) == Outcome::Lose,
        spec_outcome(Hand::Rock, Hand::Paper) == Outcome::Lose,
{
}

} // verus!
