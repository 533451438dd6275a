use vstd::prelude::*;

use crate::identity::ViolationKind;
use crate::matrix_id::{is_user_id, localpart_of, matrix_to_of, user_link, user_localpart};

verus! {

/// One question of a room's challenge bank; `answer` is the number of the
/// right option.
#[derive(Clone, Debug)]
pub struct CaptchaQuestion {
    pub body: String,
    pub answer: u8,
}

/// Tuning of the join-time challenge for one room.
#[derive(Clone, Debug)]
pub struct CaptchaConfig {
    /// How long the user has to answer.
    pub timeout_secs: u64,
    pub questions: Vec<CaptchaQuestion>,
}

/// The number of options offered with each question.
pub const OPTION_COUNT: u8 = 5;

/// The keycap glyph of option `n` (`1️⃣` to `5️⃣`), and `*️⃣` for any other
/// number.
pub open spec fn glyph_of(n: u8) -> Seq<char> {
    let head = if n == 1 {
        '1'
    } else if n == 2 {
        '2'
    } else if n == 3 {
        '3'
    } else if n == 4 {
        '4'
    } else if n == 5 {
        '5'
    } else {
        '*'
    };
    seq![head, '\u{FE0F}', '\u{20E3}']
}

/// The glyph of the option numbered `n`.
pub fn answer_glyph(n: u8) -> (r: String)
    ensures
        r@ == glyph_of(n),
{
    proof {
        reveal_strlit("1\u{FE0F}\u{20E3}");
        reveal_strlit("2\u{FE0F}\u{20E3}");
        reveal_strlit("3\u{FE0F}\u{20E3}");
        reveal_strlit("4\u{FE0F}\u{20E3}");
        reveal_strlit("5\u{FE0F}\u{20E3}");
        reveal_strlit("*\u{FE0F}\u{20E3}");
    }
    let r = if n == 1 {
        String::from_str("1\u{FE0F}\u{20E3}")
    } else if n == 2 {
        String::from_str("2\u{FE0F}\u{20E3}")
    } else if n == 3 {
        String::from_str("3\u{FE0F}\u{20E3}")
    } else if n == 4 {
        String::from_str("4\u{FE0F}\u{20E3}")
    } else if n == 5 {
        String::from_str("5\u{FE0F}\u{20E3}")
    } else {
        String::from_str("*\u{FE0F}\u{20E3}")
    };
    assert(r@ =~= glyph_of(n));
    r
}

/// The glyphs of the options, in order, sent as reactions to the question.
pub fn option_glyphs() -> (r: Vec<String>)
    ensures
        r.len() == OPTION_COUNT,
        forall|i: int| 0 <= i < r.len() ==> #[trigger] r[i]@ == glyph_of((i + 1) as u8),
{
    let mut r: Vec<String> = Vec::new();
    let mut n: u8 = 1;
    while n <= OPTION_COUNT
        invariant
            1 <= n <= OPTION_COUNT + 1,
            r.len() == n - 1,
            forall|i: int| 0 <= i < r.len() ==> #[trigger] r[i]@ == glyph_of((i + 1) as u8),
        decreases OPTION_COUNT + 1 - n,
    {
        r.push(answer_glyph(n));
        n = n + 1;
    }
    r
}

/// The plain text of a challenge: the user's display name, then the question.
pub fn challenge_text(display_name: &str, question: &str) -> (r: String)
    ensures
        r@ == display_name@ + ": "@ + question@,
{
    let mut r = String::from_str(display_name);
    r.append(": ");
    r.append(question);
    r
}

/// The HTML form of a challenge: a link to the user, then the question.
pub fn challenge_html(user_url: &str, display_name: &str, question: &str) -> (r: String)
    ensures
        r@ == "<a href='"@ + user_url@ + "'>"@ + display_name@ + "</a>: "@ + question@,
{
    let mut r = String::from_str("<a href='");
    r.append(user_url);
    r.append("'>");
    r.append(display_name);
    r.append("</a>: ");
    r.append(question);
    r
}

/// A challenge as plain text and as HTML.
#[derive(Clone, Debug)]
pub struct ChallengeMessage {
    pub text: String,
    pub html: String,
}

/// The name a challenge calls the user by: the display name of the user's
/// profile, else the localpart of the user id.
pub open spec fn addressed_name(profile_name: Option<String>, user_id: Seq<char>) -> Seq<char> {
    match profile_name {
        Some(n) => n@,
        None => localpart_of(user_id),
    }
}

/// The challenge that asks `question` of the user `user_id`, who goes by
/// `profile_name` if the profile has one; `None` when the user id is not
/// valid.
pub fn compose_challenge(
    user_id: &str,
    profile_name: Option<String>,
    question: &str,
) -> (r: Option<ChallengeMessage>)
    ensures
        r is Some <==> is_user_id(user_id@),
        r matches Some(m) ==> {
            let name = addressed_name(profile_name, user_id@);
            &&& m.text@ == name + ": "@ + question@
            &&& m.html@ == "<a href='"@ + matrix_to_of(user_id@) + "'>"@ + name + "</a>: "@ + question@
        },
{
    let link = match user_link(user_id) {
        Some(link) => link,
        None => return None,
    };
    let name = match profile_name {
        Some(n) => n,
        None => match user_localpart(user_id) {
            Some(l) => l,
            None => return None,
        },
    };
    let text = challenge_text(name.as_str(), question);
    let html = challenge_html(link.as_str(), name.as_str(), question);
    Some(ChallengeMessage { text, html })
}

/// The question that a random number picks from a bank of `n`, if any.
pub open spec fn question_index(n: nat, random: u32) -> Option<nat> {
    if n == 0 {
        None
    } else {
        Some((random as nat) % n)
    }
}

/// Relies on rand::random: a value drawn from the thread-local generator, of
/// which nothing is promised.
pub assume_specification<T>[ rand::random::<T> ]() -> T
    where
        rand::distr::StandardUniform: rand::distr::Distribution<T>,
;

/// The question to ask, from the room's settings and a random number; `None`
/// when the challenge is disabled or the bank is empty.
pub fn choose_question(config: Option<&CaptchaConfig>, random: u32) -> (r: Option<usize>)
    ensures
        config is None ==> r is None,
        config matches Some(c) ==> r == (match question_index(c.questions.len() as nat, random) {
            Some(i) => Some(i as usize),
            None => None,
        }),
{
    match config {
        None => None,
        Some(c) => {
            let n = c.questions.len();
            if n == 0 {
                None
            } else {
                Some(random as usize % n)
            }
        },
    }
}

/// Draws the question to ask at random; `None` exactly when the challenge is
/// disabled or the bank is empty.
pub fn draw_question(config: Option<&CaptchaConfig>) -> (r: Option<usize>)
    ensures
        r is None <==> (config is None || config->0.questions.len() == 0),
        r matches Some(i) ==> i < config->0.questions.len(),
{
    let random = rand::random::<u32>();
    choose_question(config, random)
}

/// Where a challenge stands.
#[derive(Clone, Copy, Debug, PartialEq, Eq, Structural)]
pub enum ChallengePhase {
    /// No question has been posted yet.
    AwaitingPost,
    /// A question is out and its answer is awaited.
    AwaitingAnswer,
    /// Answered, answered wrongly, timed out or stopped.
    Finished,
}

/// What the caller does after a step of a challenge: report the violation,
/// redact the posted question, end the monitor.
#[derive(Clone, Debug)]
pub struct ChallengeStep {
    pub violation: Option<ViolationKind>,
    pub redact: Option<String>,
    pub terminate: bool,
}

/// The join-time challenge of one user in one room.
#[derive(Clone, Debug)]
pub struct ChallengeMonitor {
    pub phase: ChallengePhase,
    pub posted_event_id: Option<String>,
    pub expected_glyph: String,
}

/// Nothing to do.
pub open spec fn idle_step(s: ChallengeStep) -> bool {
    s.violation is None && s.redact is None && !s.terminate
}

/// Report `v` (if any), redact the question `id`, end the monitor.
pub open spec fn closing_step(s: ChallengeStep, v: Option<ViolationKind>, id: Seq<char>) -> bool {
    &&& s.violation == v
    &&& s.redact matches Some(r) && r@ == id
    &&& s.terminate
}

impl ChallengeMonitor {
    /// A question is recorded exactly while an answer is awaited.
    pub open spec fn wf(&self) -> bool {
        (self.phase == ChallengePhase::AwaitingAnswer) <==> (self.posted_event_id is Some)
    }

    pub fn new() -> (r: ChallengeMonitor)
        ensures
            r.wf(),
            r.phase == ChallengePhase::AwaitingPost,
    {
        ChallengeMonitor {
            phase: ChallengePhase::AwaitingPost,
            posted_event_id: None,
            expected_glyph: String::new(),
        }
    }

    /// The question `event_id` has been posted with right option `answer`.
    /// Only the first question is taken: none is issued mid-flight.
    pub fn on_posted(&mut self, event_id: String, answer: u8) -> (taken: bool)
        requires
            old(self).wf(),
        ensures
            final(self).wf(),
            taken == (old(self).phase == ChallengePhase::AwaitingPost),
            taken ==> {
                &&& final(self).phase == ChallengePhase::AwaitingAnswer
                &&& final(self).posted_event_id matches Some(id) && id@ == event_id@
                &&& final(self).expected_glyph@ == glyph_of(answer)
            },
            !taken ==> *final(self) == *old(self),
    {
        match self.phase {
            ChallengePhase::AwaitingPost => {
                self.phase = ChallengePhase::AwaitingAnswer;
                self.posted_event_id = Some(event_id);
                self.expected_glyph = answer_glyph(answer);
                true
            },
            _ => false,
        }
    }

    /// A reaction `glyph` on the event `target`. Only a reaction on the posted
    /// question counts: a wrong glyph is reported as a likely bot, and either
    /// way the question is redacted and the challenge ends.
    pub fn on_reaction(&mut self, target: &String, glyph: &String) -> (s: ChallengeStep)
        requires
            old(self).wf(),
        ensures
            final(self).wf(),
            ({
                match old(self).posted_event_id {
                    Some(id) if id@ == target@ => {
                        &&& closing_step(
                            s,
                            if glyph@ == old(self).expected_glyph@ {
                                None
                            } else {
                                Some(ViolationKind::LikelyBot)
                            },
                            id@,
                        )
                        &&& final(self).phase == ChallengePhase::Finished
                    },
                    _ => idle_step(s) && *final(self) == *old(self),
                }
            }),
    {
        let hit = match &self.posted_event_id {
            Some(id) => *id == *target,
            None => false,
        };
        if !hit {
            return ChallengeStep { violation: None, redact: None, terminate: false };
        }
        let violation = if *glyph == self.expected_glyph {
            None
        } else {
            Some(ViolationKind::LikelyBot)
        };
        let redact = self.posted_event_id.take();
        self.phase = ChallengePhase::Finished;
        ChallengeStep { violation, redact, terminate: true }
    }

    /// The answer time has run out: while a question is out, the user is
    /// reported as a likely bot, the question is redacted and the challenge
    /// ends.
    pub fn on_timeout(&mut self) -> (s: ChallengeStep)
        requires
            old(self).wf(),
        ensures
            final(self).wf(),
            ({
                match old(self).posted_event_id {
                    Some(id) => {
                        &&& closing_step(s, Some(ViolationKind::LikelyBot), id@)
                        &&& final(self).phase == ChallengePhase::Finished
                    },
                    None => idle_step(s) && *final(self) == *old(self),
                }
            }),
    {
        match self.posted_event_id.take() {
            Some(id) => {
                self.phase = ChallengePhase::Finished;
                ChallengeStep {
                    violation: Some(ViolationKind::LikelyBot),
                    redact: Some(id),
                    terminate: true,
                }
            },
            None => ChallengeStep { violation: None, redact: None, terminate: false },
        }
    }

    /// The monitor is stopped from outside: returns the question still out, to
    /// be redacted, and ends the challenge.
    pub fn on_stop(&mut self) -> (r: Option<String>)
        requires
            old(self).wf(),
        ensures
            final(self).wf(),
            final(self).phase == ChallengePhase::Finished,
            r == old(self).posted_event_id,
    {
        self.phase = ChallengePhase::Finished;
        self.posted_event_id.take()
    }
}

} // verus!
