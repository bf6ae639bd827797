//! The mathematical model of a question: what it holds, how its prompt is
//! made, which answer a reply stands for, and where asking ends.

use vstd::prelude::*;
use vstd::utf8::encode_utf8;
use crate::answer::AnswerView;
use crate::lines::after_line;
use crate::lines::line_length_bounds;
use crate::lines::line_read;
use crate::lines::IoFailure;
use crate::text::normalized;
use crate::text::trimmed;

verus! {

/// The note on the default that a prompt carries, and the space that ends
/// every prompt. Without `show`, the space alone.
pub open spec fn hint(show: bool, default: Option<AnswerView>) -> Seq<char> {
    let note = if show {
        match default {
            Some(AnswerView::Yes) => " (Y/n)"@,
            Some(AnswerView::No) => " (y/N)"@,
            Some(AnswerView::Response(text)) => " ("@ + text + ")"@,
            None => " (y/n)"@,
        }
    } else {
        Seq::empty()
    };
    note + " "@
}

/// The answer that a read stands for where replies are checked: the answer
/// filed under the reply's normal form; else the default, where the reply as
/// it was read is empty; else none. A failed read stands for none.
pub open spec fn accepted(
    valid: Map<Seq<char>, AnswerView>,
    default: Option<AnswerView>,
    read: Result<Seq<char>, IoFailure>,
) -> Option<AnswerView> {
    match read {
        Ok(reply) => if valid.contains_key(normalized(reply)) {
            Some(valid[normalized(reply)])
        } else if reply.len() == 0 {
            default
        } else {
            None
        },
        Err(_) => None,
    }
}

/// The answer that a read stands for where replies are not checked: the
/// default, where there is one and the reply is empty; else the reply without
/// the white space around it. A failed read stays a failure.
pub open spec fn free_form(default: Option<AnswerView>, read: Result<Seq<char>, IoFailure>) -> Result<
    AnswerView,
    IoFailure,
> {
    match read {
        Ok(reply) => if reply.len() == 0 && default is Some {
            Ok(default->0)
        } else {
            Ok(AnswerView::Response(trimmed(reply)))
        },
        Err(failure) => Err(failure),
    }
}

/// Whether reading `input` line by line comes to a read that is accepted.
/// The read at the end of the input, which yields the empty reply, is the
/// last one that counts: every later read would yield the same.
pub open spec fn settles(
    valid: Map<Seq<char>, AnswerView>,
    default: Option<AnswerView>,
    input: Seq<u8>,
) -> bool
    decreases input.len(),
{
    accepted(valid, default, line_read(input)) is Some || (input.len() > 0 && {
        proof {
            line_length_bounds(input);
        }
        settles(valid, default, after_line(input))
    })
}

/// The answer of the first read of `input` that is accepted.
pub open spec fn first_answer(
    valid: Map<Seq<char>, AnswerView>,
    default: Option<AnswerView>,
    input: Seq<u8>,
) -> AnswerView
    recommends
        settles(valid, default, input),
    decreases input.len(),
{
    match accepted(valid, default, line_read(input)) {
        Some(answer) => answer,
        None => if input.len() > 0 {
            proof {
                line_length_bounds(input);
            }
            first_answer(valid, default, after_line(input))
        } else {
            arbitrary()
        },
    }
}

/// The answer of the first among the first `tries` reads of `input` that is
/// accepted, if one is.
pub open spec fn answer_within(
    valid: Map<Seq<char>, AnswerView>,
    default: Option<AnswerView>,
    input: Seq<u8>,
    tries: nat,
) -> Option<AnswerView>
    decreases tries,
{
    if tries == 0 {
        None
    } else {
        match accepted(valid, default, line_read(input)) {
            Some(answer) => Some(answer),
            None => answer_within(valid, default, after_line(input), (tries - 1) as nat),
        }
    }
}

/// What is left of `input` behind its first `count` lines.
pub open spec fn after_lines(input: Seq<u8>, count: nat) -> Seq<u8>
    decreases count,
{
    if count == 0 {
        input
    } else {
        after_lines(after_line(input), (count - 1) as nat)
    }
}

/// Whether none of the first `count` reads of `input` is accepted.
pub open spec fn none_accepted(
    valid: Map<Seq<char>, AnswerView>,
    default: Option<AnswerView>,
    input: Seq<u8>,
    count: nat,
) -> bool
    decreases count,
{
    count == 0 || (accepted(valid, default, line_read(input)) is None && none_accepted(
        valid,
        default,
        after_line(input),
        (count - 1) as nat,
    ))
}

/// The four replies of a yes/no question, filed over what `valid` holds.
pub open spec fn with_yes_and_no(valid: Map<Seq<char>, AnswerView>) -> Map<Seq<char>, AnswerView> {
    valid.insert("yes"@, AnswerView::Yes).insert("y"@, AnswerView::Yes).insert(
        "no"@,
        AnswerView::No,
    ).insert("n"@, AnswerView::No)
}

/// The course that asking takes.
#[derive(Debug, Clone, Copy, PartialEq, Eq, Structural)]
pub enum Course {
    /// Until a reply is accepted.
    Unbounded,
    /// Until a reply is accepted or the tries that are left are used up.
    Bounded(u64),
    /// Once, every reply taken as it is.
    Once,
}

/// What comes next in asking.
pub ghost enum TurnView {
    /// The prompt is to be shown and a line to be read; asking goes on in
    /// this course.
    Exchange(Course),
    /// Asking has ended, with this answer or with none.
    Done(Option<AnswerView>),
}

/// What a question is: its settings, the prompt as it stands, the input that
/// is still unread and the output written so far.
pub ghost struct QuestionView {
    pub question: Seq<char>,
    pub prompt: Seq<char>,
    pub default: Option<AnswerView>,
    pub clarification: Option<Seq<char>>,
    pub acceptable: Option<Seq<Seq<char>>>,
    pub valid_responses: Option<Map<Seq<char>, AnswerView>>,
    pub tries: Option<u64>,
    pub until_acceptable: bool,
    pub show_defaults: bool,
    pub yes_no: bool,
    pub input: Seq<u8>,
    pub output: Seq<u8>,
}

impl QuestionView {
    /// A question as it is first made: nothing set, the prompt the question
    /// itself.
    pub open spec fn fresh(question: Seq<char>, input: Seq<u8>, output: Seq<u8>) -> QuestionView {
        QuestionView {
            question,
            prompt: question,
            default: None,
            clarification: None,
            acceptable: None,
            valid_responses: None,
            tries: None,
            until_acceptable: false,
            show_defaults: false,
            yes_no: false,
            input,
            output,
        }
    }

    /// Whether `other` has the settings of this question: all but the prompt,
    /// the input and the output.
    pub open spec fn same_settings(self, other: QuestionView) -> bool {
        other == (QuestionView { prompt: other.prompt, input: other.input, output: other.output, ..self })
    }

    /// Whether replies are checked against the mapping.
    pub open spec fn checks(self) -> bool {
        self.until_acceptable || self.tries is Some
    }

    /// With `more` behind the replies listed so far.
    pub open spec fn accepting(self, more: Seq<Seq<char>>) -> QuestionView {
        QuestionView {
            acceptable: Some(
                match self.acceptable {
                    Some(listed) => listed + more,
                    None => more,
                },
            ),
            ..self
        }
    }

    /// As a yes/no question: the four replies merged into the mapping.
    pub open spec fn as_yes_no(self) -> QuestionView {
        QuestionView {
            yes_no: true,
            valid_responses: Some(
                with_yes_and_no(
                    match self.valid_responses {
                        Some(valid) => valid,
                        None => Map::empty(),
                    },
                ),
            ),
            ..self
        }
    }

    /// Asking without an end to the retries.
    pub open spec fn unbounded(self) -> QuestionView {
        QuestionView { until_acceptable: true, ..self }
    }

    /// With a number of tries: zero asks without end, one changes nothing,
    /// any other number is kept as the limit.
    pub open spec fn limited(self, tries: u64) -> QuestionView {
        if tries == 0 {
            self.unbounded()
        } else if tries == 1 {
            self
        } else {
            QuestionView { tries: Some(tries), ..self }
        }
    }

    /// With the hint and the closing space behind the prompt as it stands.
    pub open spec fn decorated(self) -> QuestionView {
        QuestionView { prompt: self.prompt + hint(self.show_defaults, self.default), ..self }
    }

    /// With the prompt made anew from the clarification, a line break and the
    /// question, where a clarification is set; unchanged where none is.
    pub open spec fn clarified(self) -> QuestionView {
        match self.clarification {
            Some(clarification) => QuestionView {
                prompt: clarification + "\n"@ + self.question,
                ..self
            }.decorated(),
            None => self,
        }
    }

    /// After one exchange: `shown` written, one line read.
    pub open spec fn exchanged(self, shown: Seq<char>) -> QuestionView {
        QuestionView {
            input: after_line(self.input),
            output: self.output + encode_utf8(shown),
            ..self
        }
    }

    /// What the next read yields.
    pub open spec fn heard(self) -> Result<Seq<char>, IoFailure> {
        line_read(self.input)
    }

    /// The answer that a read stands for under this question's mapping and
    /// default.
    pub open spec fn validated(self, read: Result<Seq<char>, IoFailure>) -> Option<AnswerView>
        recommends
            self.valid_responses is Some,
    {
        accepted(self.valid_responses->0, self.default, read)
    }

    /// Whether the unread input comes to a reply that is accepted.
    pub open spec fn settled(self) -> bool
        recommends
            self.valid_responses is Some,
    {
        settles(self.valid_responses->0, self.default, self.input)
    }

    /// Asking until a reply is accepted: the question afterwards and the
    /// answer. Each exchange shows the prompt as it then stands; each reply
    /// that is not accepted is followed by the clarification.
    pub open spec fn persisted(self) -> (QuestionView, AnswerView)
        recommends
            self.valid_responses is Some,
            self.settled(),
        decreases self.input.len(),
    {
        let next = self.exchanged(self.prompt);
        match self.validated(self.heard()) {
            Some(answer) => (next, answer),
            None => if self.input.len() > 0 {
                proof {
                    line_length_bounds(self.input);
                }
                next.clarified().persisted()
            } else {
                (next, arbitrary())
            },
        }
    }

    /// Asking at most `left` times: the question afterwards, and the answer
    /// of the first reply that is accepted, if one is.
    pub open spec fn attempted(self, left: nat) -> (QuestionView, Option<AnswerView>)
        recommends
            self.valid_responses is Some,
        decreases left,
    {
        if left == 0 {
            (self, None)
        } else {
            let next = self.exchanged(self.prompt);
            match self.validated(self.heard()) {
                Some(answer) => (next, Some(answer)),
                None => next.clarified().attempted((left - 1) as nat),
            }
        }
    }

    /// Asking once, every reply taken as it is: the question afterwards, and
    /// the answer unless the read failed.
    pub open spec fn heard_out(self) -> (QuestionView, Option<AnswerView>) {
        (
            self.exchanged(self.prompt),
            match free_form(self.default, self.heard()) {
                Ok(answer) => Some(answer),
                Err(_) => None,
            },
        )
    }

    /// Asking as the question is set: the question afterwards and the answer.
    pub open spec fn asked(self) -> (QuestionView, Option<AnswerView>) {
        let ready = self.decorated();
        if self.until_acceptable {
            (ready.persisted().0, Some(ready.persisted().1))
        } else if self.tries is Some {
            ready.attempted(self.tries->0 as nat)
        } else {
            ready.heard_out()
        }
    }

    /// The first turn of asking, once the prompt is built.
    pub open spec fn opening(self) -> TurnView {
        if self.until_acceptable {
            TurnView::Exchange(Course::Unbounded)
        } else if self.tries is Some {
            if self.tries->0 == 0 {
                TurnView::Done(None)
            } else {
                TurnView::Exchange(Course::Bounded(self.tries->0))
            }
        } else {
            TurnView::Exchange(Course::Once)
        }
    }

    /// The question and the next turn after an exchange in `course` that
    /// came to `read`. An accepted reply ends asking; any other outcome is
    /// followed by the clarification and uses up a try.
    pub open spec fn advanced(self, course: Course, read: Result<Seq<char>, IoFailure>) -> (
        QuestionView,
        TurnView,
    )
        recommends
            course != Course::Once ==> self.valid_responses is Some,
    {
        match course {
            Course::Once => (
                self,
                TurnView::Done(
                    match free_form(self.default, read) {
                        Ok(answer) => Some(answer),
                        Err(_) => None,
                    },
                ),
            ),
            Course::Unbounded => match self.validated(read) {
                Some(answer) => (self, TurnView::Done(Some(answer))),
                None => (self.clarified(), TurnView::Exchange(Course::Unbounded)),
            },
            Course::Bounded(left) => match self.validated(read) {
                Some(answer) => (self, TurnView::Done(Some(answer))),
                None => (
                    self.clarified(),
                    if left <= 1 {
                        TurnView::Done(None)
                    } else {
                        TurnView::Exchange(Course::Bounded((left - 1) as u64))
                    },
                ),
            },
        }
    }

    /// Asking as a yes/no question until a reply is accepted.
    pub open spec fn confirmed(self) -> (QuestionView, AnswerView) {
        self.as_yes_no().decorated().persisted()
    }
}

} // verus!
