//! The interactive gate.
//!
//! When enabled, this stage intercepts each argument before it becomes a
//! job: the operator sees the fully resolved command and answers with one
//! byte word.  Affirming runs this one job; declining skips the argument,
//! which then never produces a job or a result; affirming all runs this job
//! and silences all later prompting for the run.  Any other word is rejected
//! and the prompt is repeated.  Prompting happens strictly inside the
//! producer: it holds back production of jobs, never execution of jobs
//! already queued.

use vstd::prelude::*;

verus! {

/// One recognised answer to the interactive prompt.
#[derive(Clone, Copy, PartialEq, Eq, Structural, Debug)]
pub enum Answer {
    /// Run this one job.
    Affirm,
    /// Skip this argument: no job, no result.
    Decline,
    /// Run this job and every later one without asking again.
    AffirmAll,
}

/// Words that affirm one job: the empty word, `y`, `Y`, `yes`, `Yes`.
pub open spec fn is_affirm_word(s: Seq<u8>) -> bool {
    ||| s == Seq::<u8>::empty()
    ||| s == seq![121u8]
    ||| s == seq![89u8]
    ||| s == seq![121u8, 101u8, 115u8]
    ||| s == seq![89u8, 101u8, 115u8]
}

/// Words that decline one argument: `n`, `N`, `no`, `No`.
pub open spec fn is_decline_word(s: Seq<u8>) -> bool {
    ||| s == seq![110u8]
    ||| s == seq![78u8]
    ||| s == seq![110u8, 111u8]
    ||| s == seq![78u8, 111u8]
}

/// Words that affirm every remaining job: `a`, `A`, `all`, `All`, `always`,
/// `Always`.
pub open spec fn is_affirm_all_word(s: Seq<u8>) -> bool {
    ||| s == seq![97u8]
    ||| s == seq![65u8]
    ||| s == seq![97u8, 108u8, 108u8]
    ||| s == seq![65u8, 108u8, 108u8]
    ||| s == seq![97u8, 108u8, 119u8, 97u8, 121u8, 115u8]
    ||| s == seq![65u8, 108u8, 119u8, 97u8, 121u8, 115u8]
}

/// The answer meant by the prompt word `s`, or `None` for an unrecognised
/// word, which has the prompt repeated.
pub open spec fn answer_spec(s: Seq<u8>) -> Option<Answer> {
    if is_affirm_word(s) {
        Some(Answer::Affirm)
    } else if is_decline_word(s) {
        Some(Answer::Decline)
    } else if is_affirm_all_word(s) {
        Some(Answer::AffirmAll)
    } else {
        None
    }
}

/// `s` is exactly the one byte `b0`.
fn matches1(s: &Vec<u8>, b0: u8) -> (r: bool)
    ensures
        r <==> s@ == seq![b0],
{
    let r = s.len() == 1 && s[0] == b0;
    proof {
        if r {
            assert(s@ =~= seq![b0]);
        }
    }
    r
}

/// `s` is exactly the two bytes `b0 b1`.
fn matches2(s: &Vec<u8>, b0: u8, b1: u8) -> (r: bool)
    ensures
        r <==> s@ == seq![b0, b1],
{
    let r = s.len() == 2 && s[0] == b0 && s[1] == b1;
    proof {
        if r {
            assert(s@ =~= seq![b0, b1]);
        }
    }
    r
}

/// `s` is exactly the three bytes `b0 b1 b2`.
fn matches3(s: &Vec<u8>, b0: u8, b1: u8, b2: u8) -> (r: bool)
    ensures
        r <==> s@ == seq![b0, b1, b2],
{
    let r = s.len() == 3 && s[0] == b0 && s[1] == b1 && s[2] == b2;
    proof {
        if r {
            assert(s@ =~= seq![b0, b1, b2]);
        }
    }
    r
}

/// `s` is exactly the six bytes `b0 .. b5`.
fn matches6(s: &Vec<u8>, b0: u8, b1: u8, b2: u8, b3: u8, b4: u8, b5: u8) -> (r: bool)
    ensures
        r <==> s@ == seq![b0, b1, b2, b3, b4, b5],
{
    let r = s.len() == 6 && s[0] == b0 && s[1] == b1 && s[2] == b2 && s[3] == b3 && s[4] == b4
        && s[5] == b5;
    proof {
        if r {
            assert(s@ =~= seq![b0, b1, b2, b3, b4, b5]);
        }
    }
    r
}

/// Parse one prompt word, already stripped of surrounding whitespace.
pub fn parse_answer(word: &Vec<u8>) -> (parsed: Option<Answer>)
    ensures
        parsed == answer_spec(word@),
{
    if word.len() == 0 {
        proof {
            assert(word@ =~= Seq::<u8>::empty());
        }
        return Some(Answer::Affirm);
    }
    if matches1(word, 121) || matches1(word, 89) || matches3(word, 121, 101, 115) || matches3(
        word,
        89,
        101,
        115,
    ) {
        return Some(Answer::Affirm);
    }
    if matches1(word, 110) || matches1(word, 78) || matches2(word, 110, 111) || matches2(
        word,
        78,
        111,
    ) {
        return Some(Answer::Decline);
    }
    if matches1(word, 97) || matches1(word, 65) || matches3(word, 97, 108, 108) || matches3(
        word,
        65,
        108,
        108,
    ) || matches6(word, 97, 108, 119, 97, 121, 115) || matches6(word, 65, 108, 119, 97, 121, 115) {
        return Some(Answer::AffirmAll);
    }
    None
}

/// The interactive gate's state: whether it was enabled for the run, and
/// whether an affirm-all answer has silenced it.
#[derive(Clone, Copy, PartialEq, Eq, Structural, Debug)]
pub struct Gate {
    /// The run was started with prompting enabled.
    pub enabled: bool,
    /// An affirm-all answer has been given: no further prompting.
    pub always: bool,
}

impl Gate {
    /// A gate at the start of a run.
    pub fn new(interactive: bool) -> (gate: Gate)
        ensures
            gate.enabled == interactive,
            !gate.always,
    {
        Gate { enabled: interactive, always: false }
    }

    /// The operator must be prompted for the next argument.
    pub open spec fn must_prompt_spec(self) -> bool {
        self.enabled && !self.always
    }

    /// The state after recording `answer`.
    pub open spec fn record_spec(self, answer: Answer) -> Gate {
        Gate { enabled: self.enabled, always: self.always || answer == Answer::AffirmAll }
    }

    /// Whether the operator must be prompted for the next argument.
    pub fn must_prompt(&self) -> (r: bool)
        ensures
            r == self.must_prompt_spec(),
    {
        self.enabled && !self.always
    }

    /// Record the operator's answer; the result says whether the argument
    /// becomes a job.
    pub fn record_answer(&mut self, answer: Answer) -> (run: bool)
        ensures
            *final(self) == old(self).record_spec(answer),
            run == (answer != Answer::Decline),
    {
        if matches!(answer, Answer::AffirmAll) {
            self.always = true;
        }
        !matches!(answer, Answer::Decline)
    }

    /// The state after recording `answers`, one after the other.
    pub open spec fn record_all_spec(self, answers: Seq<Answer>) -> Gate
        decreases answers.len(),
    {
        if answers.len() == 0 {
            self
        } else {
            self.record_spec(answers[0]).record_all_spec(answers.skip(1))
        }
    }

    /// An affirm-all answer is permanent: once it has been recorded, no
    /// later argument of the run is prompted for, whatever is answered in
    /// between.
    pub proof fn lemma_affirm_all_is_permanent(self, later: Seq<Answer>)
        requires
            self.always,
        ensures
            !self.record_all_spec(later).must_prompt_spec(),
        decreases later.len(),
    {
        if later.len() > 0 {
            self.record_spec(later[0]).lemma_affirm_all_is_permanent(later.skip(1));
        }
    }
}

} // verus!
