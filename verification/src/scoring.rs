use vstd::prelude::*;

verus! {

/// Total announced before any maze has been dealt.
pub const INITIAL_TOTAL: i32 = 6;

/// The running tally of a game: answers found correct so far, and the number
/// of command/definition pairs dealt in the current maze.
pub struct ScoreBoard {
    pub score: i32,
    pub total: i32,
}

/// What a client is told about the tally.
pub struct ScoreResponse {
    pub score: i32,
    pub total: i32,
}

/// An answer submitted by a player: a command and the definition chosen for it.
pub struct ValidateRequest {
    pub command: String,
    pub definition: String,
}

/// The verdict on an answer, echoing what was submitted.
pub struct ValidateResponse {
    pub correct: bool,
    pub command: String,
    pub definition: String,
}

/// An answer is right exactly when the catalogue holds a definition for the
/// command and that definition is the submitted one.
pub open spec fn answer_matches(stored: Option<String>, submitted: Seq<char>) -> bool {
    match stored {
        Some(d) => d@ == submitted,
        None => false,
    }
}

/// The score after one answer.
pub open spec fn scored(score: int, correct: bool) -> int {
    if correct {
        score + 1
    } else {
        score
    }
}

/// What can happen to a board: a maze of some number of pairs is dealt, an
/// answer is judged, the score is reset, or the tally is read.
pub enum BoardEvent {
    Dealt(usize),
    Answered(bool),
    Reset,
    Read,
}

/// The board after one event.
pub open spec fn step(board: ScoreBoard, event: BoardEvent) -> ScoreBoard {
    match event {
        BoardEvent::Dealt(pairs) => ScoreBoard { score: board.score, total: pairs as i32 },
        BoardEvent::Answered(correct) => ScoreBoard {
            score: scored(board.score as int, correct) as i32,
            total: board.total,
        },
        BoardEvent::Reset => after_reset(board),
        BoardEvent::Read => board,
    }
}

/// The board after a sequence of events, in order.
pub open spec fn run(board: ScoreBoard, events: Seq<BoardEvent>) -> ScoreBoard
    decreases events.len(),
{
    if events.len() == 0 {
        board
    } else {
        step(run(board, events.drop_last()), events.last())
    }
}

/// How many answers were judged correct after the last reset of the
/// sequence (in the whole sequence if it holds no reset).
pub open spec fn correct_since_reset(events: Seq<BoardEvent>) -> nat
    decreases events.len(),
{
    if events.len() == 0 {
        0
    } else {
        match events.last() {
            BoardEvent::Reset => 0,
            BoardEvent::Answered(true) => correct_since_reset(events.drop_last()) + 1,
            _ => correct_since_reset(events.drop_last()),
        }
    }
}

/// How many answers of the sequence were judged correct.
pub open spec fn correct_answers(events: Seq<BoardEvent>) -> nat
    decreases events.len(),
{
    if events.len() == 0 {
        0
    } else {
        match events.last() {
            BoardEvent::Answered(true) => correct_answers(events.drop_last()) + 1,
            _ => correct_answers(events.drop_last()),
        }
    }
}

/// The total announced by the last deal of the sequence, `initial` if none.
pub open spec fn dealt_total(initial: i32, events: Seq<BoardEvent>) -> i32
    decreases events.len(),
{
    if events.len() == 0 {
        initial
    } else {
        match events.last() {
            BoardEvent::Dealt(pairs) => pairs as i32,
            _ => dealt_total(initial, events.drop_last()),
        }
    }
}

/// The board after a reset: the score is cleared, the total kept.
pub open spec fn after_reset(board: ScoreBoard) -> ScoreBoard {
    ScoreBoard { score: 0, total: board.total }
}

/// Decides whether a submitted definition is the one stored for the command;
/// `stored` is the catalogue's definition, `None` where the lookup found none.
pub fn is_correct(stored: &Option<String>, submitted: &String) -> (r: bool)
    ensures
        r == answer_matches(*stored, submitted@),
        r <==> (stored.is_some() && stored.unwrap()@ == submitted@),
{
    match stored {
        Some(d) => *d == *submitted,
        None => false,
    }
}

impl ScoreBoard {
    /// A fresh board: no point scored, the default total announced.
    pub fn new() -> (b: ScoreBoard)
        ensures
            b.score == 0,
            b.total == INITIAL_TOTAL,
    {
        ScoreBoard { score: 0, total: INITIAL_TOTAL }
    }

    /// Records that a maze of `pair_count` pairs was dealt; the score is kept.
    pub fn start_round(&mut self, pair_count: usize)
        ensures
            final(self).total == pair_count as i32,
            final(self).score == old(self).score,
            *final(self) == step(*old(self), BoardEvent::Dealt(pair_count)),
    {
        self.total = pair_count as i32;
    }

    /// Counts one answer: a point for a correct one, nothing otherwise.
    pub fn record_answer(&mut self, correct: bool)
        requires
            correct ==> old(self).score < i32::MAX,
        ensures
            final(self).score == scored(old(self).score as int, correct),
            final(self).total == old(self).total,
            *final(self) == step(*old(self), BoardEvent::Answered(correct)),
    {
        if correct {
            self.score = self.score + 1;
        }
    }

    /// Judges an answer against the catalogue's definition for its command
    /// (`None` where the catalogue has none), counts it, and reports the verdict.
    pub fn validate(&mut self, stored: Option<String>, req: ValidateRequest) -> (resp:
        ValidateResponse)
        requires
            answer_matches(stored, req.definition@) ==> old(self).score < i32::MAX,
        ensures
            resp.correct == answer_matches(stored, req.definition@),
            resp.correct <==> (stored.is_some() && stored.unwrap()@ == req.definition@),
            resp.command == req.command,
            resp.definition == req.definition,
            final(self).score == scored(old(self).score as int, resp.correct),
            final(self).total == old(self).total,
            *final(self) == step(*old(self), BoardEvent::Answered(resp.correct)),
    {
        let correct = is_correct(&stored, &req.definition);
        self.record_answer(correct);
        ValidateResponse { correct, command: req.command, definition: req.definition }
    }

    /// The current tally.
    pub fn score_response(&self) -> (resp: ScoreResponse)
        ensures
            resp.score == self.score,
            resp.total == self.total,
            step(*self, BoardEvent::Read) == *self,
    {
        ScoreResponse { score: self.score, total: self.total }
    }

    /// Clears the score, keeps the total, and reports the new tally.
    pub fn reset(&mut self) -> (resp: ScoreResponse)
        ensures
            *final(self) == after_reset(*old(self)),
            *final(self) == step(*old(self), BoardEvent::Reset),
            resp.score == 0,
            resp.total == old(self).total,
    {
        self.score = 0;
        ScoreResponse { score: 0, total: self.total }
    }
}

/// An answer is judged correct exactly when a definition is stored for the
/// command and it is character for character the submitted one: never
/// without a stored definition, always for the stored text itself, never for
/// any other text (a prefix, an extension or a variant of it).
pub proof fn lemma_verdict_is_equality(stored: Option<String>, submitted: Seq<char>)
    ensures
        answer_matches(stored, submitted) <==> (stored.is_some() && stored.unwrap()@
            == submitted),
        stored.is_none() ==> !answer_matches(stored, submitted),
        stored.is_some() ==> answer_matches(stored, stored.unwrap()@),
        stored.is_some() && submitted != stored.unwrap()@ ==> !answer_matches(stored, submitted),
{
}

/// At most as many answers are correct since the last reset as in all.
pub proof fn lemma_correct_since_reset_bounded(events: Seq<BoardEvent>)
    ensures
        correct_since_reset(events) <= correct_answers(events),
    decreases events.len(),
{
    if events.len() > 0 {
        lemma_correct_since_reset_bounded(events.drop_last());
    }
}

/// Over any sequence of deals, answers, resets and reads, a board that starts
/// with no point scores the answers judged correct since the last reset, and
/// announces the total of the last deal (its starting total before any deal).
pub proof fn lemma_board_after_events(board: ScoreBoard, events: Seq<BoardEvent>)
    requires
        board.score == 0,
        correct_answers(events) < i32::MAX,
    ensures
        run(board, events).score == correct_since_reset(events),
        run(board, events).total == dealt_total(board.total, events),
    decreases events.len(),
{
    if events.len() > 0 {
        let prefix = events.drop_last();
        assert(correct_answers(prefix) <= correct_answers(events));
        lemma_board_after_events(board, prefix);
        lemma_correct_since_reset_bounded(prefix);
    }
}

/// Resetting twice leaves the board as one reset does.
pub proof fn lemma_reset_idempotent(board: ScoreBoard)
    ensures
        after_reset(after_reset(board)) == after_reset(board),
{
}

} // verus!
