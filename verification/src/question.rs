//! The question: its settings, its prompt, and asking it over a buffer of
//! input.

use vstd::prelude::*;
use vstd::string::StringExecFns;
use crate::answer::Answer;
use crate::answer::AnswerView;
use crate::lines::IoFailure;
use crate::lines::Source;
use crate::lines::line_length_bounds;
use crate::model::free_form;
use crate::model::settles;
use crate::model::Course;
use crate::model::QuestionView;
use crate::model::TurnView;
use crate::responses::Responses;

verus! {

/// What an optional answer means.
pub open spec fn answer_view(answer: Option<Answer>) -> Option<AnswerView> {
    match answer {
        Some(answer) => Some(answer@),
        None => None,
    }
}

/// What an optional text means.
pub open spec fn text_view(text: Option<String>) -> Option<Seq<char>> {
    match text {
        Some(text) => Some(text@),
        None => None,
    }
}

/// What a list of texts means.
pub open spec fn texts(list: Seq<String>) -> Seq<Seq<char>> {
    Seq::new(list.len(), |at: int| list[at]@)
}

/// What a list of borrowed texts means.
pub open spec fn slices(list: Seq<&str>) -> Seq<Seq<char>> {
    Seq::new(list.len(), |at: int| list[at]@)
}

/// What an optional list of texts means.
pub open spec fn list_view(list: Option<Vec<String>>) -> Option<Seq<Seq<char>>> {
    match list {
        Some(list) => Some(texts(list@)),
        None => None,
    }
}

/// What an optional mapping means.
pub open spec fn mapping_view(valid: Option<Responses>) -> Option<Map<Seq<char>, AnswerView>> {
    match valid {
        Some(valid) => Some(valid@),
        None => None,
    }
}

/// What the outcome of a read means.
pub open spec fn read_view(read: Result<String, IoFailure>) -> Result<Seq<char>, IoFailure> {
    match read {
        Ok(reply) => Ok(reply@),
        Err(failure) => Err(failure),
    }
}

/// Why a question was not asked.
#[derive(Debug, Clone, Copy, PartialEq, Eq, Structural)]
pub enum Unasked {
    /// Replies are to be checked, but no mapping from replies to answers is
    /// set.
    NothingValid,
    /// The question is to be asked until a reply is accepted, and the input
    /// holds none that would be.
    NeverSettled,
}

/// What comes next in asking.
#[derive(Debug)]
pub enum Turn {
    /// The prompt is to be shown and a line to be read; asking goes on in
    /// this course.
    Exchange(Course),
    /// Asking has ended, with this answer or with none.
    Done(Option<Answer>),
}

impl View for Turn {
    type V = TurnView;

    open spec fn view(&self) -> TurnView {
        match self {
            Turn::Exchange(course) => TurnView::Exchange(*course),
            Turn::Done(answer) => TurnView::Done(answer_view(*answer)),
        }
    }
}

/// An answer in the making. Once the question is set, `ask` or `confirm`
/// gets the answer.
pub struct Question {
    question: String,
    prompt: String,
    default: Option<Answer>,
    clarification: Option<String>,
    acceptable: Option<Vec<String>>,
    valid_responses: Option<Responses>,
    tries: Option<u64>,
    until_acceptable: bool,
    show_defaults: bool,
    yes_no: bool,
    reader: Source,
    writer: Vec<u8>,
}

impl View for Question {
    type V = QuestionView;

    closed spec fn view(&self) -> QuestionView {
        QuestionView {
            question: self.question@,
            prompt: self.prompt@,
            default: answer_view(self.default),
            clarification: text_view(self.clarification),
            acceptable: list_view(self.acceptable),
            valid_responses: mapping_view(self.valid_responses),
            tries: self.tries,
            until_acceptable: self.until_acceptable,
            show_defaults: self.show_defaults,
            yes_no: self.yes_no,
            input: self.reader.unread(),
            output: self.writer@,
        }
    }
}

/// A copy of a list of texts.
fn copied(list: &Vec<String>) -> (copy: Vec<String>)
    ensures
        copy@ == list@,
{
    let mut copy: Vec<String> = Vec::new();
    let mut next: usize = 0;
    while next < list.len()
        invariant
            next <= list@.len(),
            copy@ == list@.take(next as int),
        decreases list@.len() - next,
    {
        copy.push(list[next].clone());
        next = next + 1;
        assert(copy@ =~= list@.take(next as int));
    }
    assert(copy@ =~= list@);
    copy
}

/// A copy of some bytes.
fn copied_bytes(bytes: &Vec<u8>) -> (copy: Vec<u8>)
    ensures
        copy@ == bytes@,
{
    let mut copy: Vec<u8> = Vec::new();
    let mut next: usize = 0;
    while next < bytes.len()
        invariant
            next <= bytes@.len(),
            copy@ == bytes@.take(next as int),
        decreases bytes@.len() - next,
    {
        copy.push(bytes[next]);
        next = next + 1;
        assert(copy@ =~= bytes@.take(next as int));
    }
    assert(copy@ =~= bytes@);
    copy
}

impl Clone for Question {
    /// A question with the same settings, prompt, unread input and output.
    fn clone(&self) -> (copy: Question)
        ensures
            copy@ == self@,
    {
        Question {
            question: self.question.clone(),
            prompt: self.prompt.clone(),
            default: match &self.default {
                Some(answer) => Some(answer.clone()),
                None => None,
            },
            clarification: match &self.clarification {
                Some(text) => Some(text.clone()),
                None => None,
            },
            acceptable: match &self.acceptable {
                Some(listed) => Some(copied(listed)),
                None => None,
            },
            valid_responses: match &self.valid_responses {
                Some(valid) => Some(valid.clone()),
                None => None,
            },
            tries: self.tries,
            until_acceptable: self.until_acceptable,
            show_defaults: self.show_defaults,
            yes_no: self.yes_no,
            reader: self.reader.clone(),
            writer: copied_bytes(&self.writer),
        }
    }
}

impl Question {
    /// A new question, with no input to read.
    pub fn new(question: &str) -> (made: Question)
        ensures
            made@ == QuestionView::fresh(question@, Seq::empty(), Seq::empty()),
    {
        Question::with_cursor(question, Vec::new(), Vec::new())
    }

    /// A new question that reads its replies from `input` and writes its
    /// prompts behind what `output` holds.
    pub fn with_cursor(question: &str, input: Vec<u8>, output: Vec<u8>) -> (made: Question)
        ensures
            made@ == QuestionView::fresh(question@, input@, output@),
    {
        Question {
            question: question.to_owned(),
            prompt: question.to_owned(),
            default: None,
            acceptable: None,
            valid_responses: None,
            clarification: None,
            tries: None,
            until_acceptable: false,
            show_defaults: false,
            yes_no: false,
            reader: Source::new(input),
            writer: output,
        }
    }

    /// Adds one reply to the list of acceptable replies.
    pub fn accept(&mut self, accepted: &str) -> (this: &mut Question)
        ensures
            this@ == old(self)@.accepting(seq![accepted@]),
            *final(self) == *final(this),
    {
        let mut listed = match self.acceptable.take() {
            Some(listed) => listed,
            None => Vec::new(),
        };
        listed.push(accepted.to_owned());
        self.acceptable = Some(listed);
        proof {
            let after = self@.acceptable->0;
            let wanted = old(self)@.accepting(seq![accepted@]).acceptable->0;
            assert(after =~= wanted);
        }
        self
    }

    /// Adds a list of replies to the list of acceptable replies.
    pub fn acceptable(&mut self, accepted: Vec<&str>) -> (this: &mut Question)
        ensures
            this@ == old(self)@.accepting(slices(accepted@)),
            *final(self) == *final(this),
    {
        let mut listed = match self.acceptable.take() {
            Some(listed) => listed,
            None => Vec::new(),
        };
        let ghost first = texts(listed@);
        let ghost more = slices(accepted@);
        let mut next: usize = 0;
        while next < accepted.len()
            invariant
                next <= accepted@.len(),
                more == slices(accepted@),
                texts(listed@) == first + more.take(next as int),
            decreases accepted@.len() - next,
        {
            let ghost so_far = listed@;
            let text = accepted[next].to_owned();
            listed.push(text);
            next = next + 1;
            proof {
                let longer = first + more.take(next as int);
                let shorter = first + more.take(next - 1);
                assert(texts(so_far).len() == shorter.len());
                assert forall|at: int| 0 <= at < longer.len() implies texts(listed@)[at]
                    == longer[at] by {
                    if at < so_far.len() {
                        assert(texts(so_far)[at] == shorter[at]);
                    } else {
                        assert(longer[at] == more[next - 1]);
                    }
                }
                assert(texts(listed@) =~= longer);
            }
        }
        proof {
            assert(more.take(next as int) =~= more);
            assert(Seq::<Seq<char>>::empty() + more =~= more);
        }
        self.acceptable = Some(listed);
        self
    }

    /// Makes this a yes/no question: "yes" and "y" stand for yes, "no" and
    /// "n" for no, whatever stood under these replies before.
    pub fn yes_no(&mut self) -> (this: &mut Question)
        ensures
            this@ == old(self)@.as_yes_no(),
            *final(self) == *final(this),
    {
        self.yes_no = true;
        let mut valid = match self.valid_responses.take() {
            Some(valid) => valid,
            None => Responses::new(),
        };
        valid.insert("yes".to_owned(), Answer::YES);
        valid.insert("y".to_owned(), Answer::YES);
        valid.insert("no".to_owned(), Answer::NO);
        valid.insert("n".to_owned(), Answer::NO);
        self.valid_responses = Some(valid);
        self
    }

    /// Sets the number of tries. Zero means asking without end; one changes
    /// nothing, since a question is asked once as it is.
    pub fn tries(&mut self, tries: u64) -> (this: &mut Question)
        ensures
            this@ == old(self)@.limited(tries),
            *final(self) == *final(this),
    {
        if tries == 0 {
            self.until_acceptable = true;
        } else if tries > 1 {
            self.tries = Some(tries);
        }
        self
    }

    /// Never stop asking until the user gives an acceptable reply.
    pub fn until_acceptable(&mut self) -> (this: &mut Question)
        ensures
            this@ == old(self)@.unbounded(),
            *final(self) == *final(this),
    {
        self.until_acceptable = true;
        self
    }

    /// Shows in the prompt which answer an empty reply stands for.
    pub fn show_defaults(&mut self) -> (this: &mut Question)
        ensures
            this@ == (QuestionView { show_defaults: true, ..old(self)@ }),
            *final(self) == *final(this),
    {
        self.show_defaults = true;
        self
    }

    /// Sets the answer that an empty reply stands for.
    pub fn default(&mut self, answer: Answer) -> (this: &mut Question)
        ensures
            this@ == (QuestionView { default: Some(answer@), ..old(self)@ }),
            *final(self) == *final(this),
    {
        self.default = Some(answer);
        self
    }

    /// Sets the text that is shown before the question once a reply was not
    /// accepted.
    pub fn clarification(&mut self, c: &str) -> (this: &mut Question)
        ensures
            this@ == (QuestionView { clarification: Some(c@), ..old(self)@ }),
            *final(self) == *final(this),
    {
        self.clarification = Some(c.to_owned());
        self
    }

    /// Puts the hint on the default, where it is to be shown, and the closing
    /// space behind the prompt as it stands.
    pub fn build_prompt(&mut self)
        ensures
            final(self)@ == old(self)@.decorated(),
    {
        if self.show_defaults {
            match &self.default {
                Some(Answer::YES) => self.prompt.append(" (Y/n)"),
                Some(Answer::NO) => self.prompt.append(" (y/N)"),
                Some(Answer::RESPONSE(text)) => {
                    self.prompt.append(" (");
                    self.prompt.append(text.as_str());
                    self.prompt.append(")");
                },
                None => self.prompt.append(" (y/n)"),
            }
        }
        self.prompt.append(" ");
        assert(self@.prompt =~= old(self)@.decorated().prompt);
    }

    /// Makes the prompt anew where a clarification is set: the clarification,
    /// a line break, the question, then the hint and the closing space.
    /// Without a clarification the prompt stays as it is.
    pub fn build_clarification(&mut self)
        ensures
            final(self)@ == old(self)@.clarified(),
    {
        match &self.clarification {
            Some(clarification) => {
                let mut prompt = clarification.clone();
                prompt.append("\n");
                prompt.append(self.question.as_str());
                self.prompt = prompt;
                self.build_prompt();
            },
            None => {},
        }
    }

    /// One exchange: writes `question` to the output and reads one line of
    /// the input. The reply is the line without its newline.
    pub fn prompt_user(&mut self, question: &str) -> (read: Result<String, IoFailure>)
        ensures
            final(self)@ == old(self)@.exchanged(question@),
            read_view(read) == old(self)@.heard(),
    {
        let mut shown = question.as_bytes_vec();
        self.writer.append(&mut shown);
        self.reader.read_line()
    }

    /// The answer that a read stands for where replies are checked: the
    /// answer filed under the reply's normal form; else the default, where
    /// the reply as it was read is empty; else none.
    pub fn validate(&self, read: &Result<String, IoFailure>) -> (answer: Option<Answer>)
        requires
            self@.valid_responses is Some,
        ensures
            answer_view(answer) == self@.validated(read_view(*read)),
    {
        match (read, &self.valid_responses) {
            (Ok(reply), Some(valid)) => {
                let key = reply.as_str().trim().to_lowercase();
                match valid.get(key.as_str()) {
                    Some(answer) => Some(answer),
                    None => if reply.as_str().is_empty() {
                        match &self.default {
                            Some(answer) => Some(answer.clone()),
                            None => None,
                        }
                    } else {
                        None
                    },
                }
            },
            _ => None,
        }
    }

    /// The answer that a read stands for where replies are not checked: the
    /// default for the empty reply, where one is set; else the reply without
    /// the white space around it, as free text.
    pub fn interpret(&self, read: Result<String, IoFailure>) -> (answer: Result<Answer, IoFailure>)
        ensures
            answer is Ok <==> read is Ok,
            answer is Ok ==> Ok::<AnswerView, IoFailure>(answer->Ok_0@) == free_form(
                self@.default,
                read_view(read),
            ),
    {
        match read {
            Ok(reply) => {
                if reply.as_str().is_empty() {
                    match &self.default {
                        Some(answer) => {
                            return Ok(answer.clone());
                        },
                        None => {},
                    }
                }
                Ok(Answer::RESPONSE(reply.as_str().trim().to_owned()))
            },
            Err(failure) => Err(failure),
        }
    }

    /// Begins asking for a caller that does the exchanges itself: builds the
    /// prompt and gives the first turn.
    pub fn begin(&mut self) -> (turn: Turn)
        ensures
            final(self)@ == old(self)@.decorated(),
            turn@ == old(self)@.opening(),
    {
        self.build_prompt();
        if self.until_acceptable {
            return Turn::Exchange(Course::Unbounded);
        }
        match self.tries {
            Some(tries) => if tries == 0 {
                Turn::Done(None)
            } else {
                Turn::Exchange(Course::Bounded(tries))
            },
            None => Turn::Exchange(Course::Once),
        }
    }

    /// Goes on asking for a caller that does the exchanges itself: takes the
    /// outcome of the exchange that `course` called for and gives the next
    /// turn. The caller shows the prompt as it then stands.
    pub fn advance(&mut self, course: Course, read: Result<String, IoFailure>) -> (turn: Turn)
        requires
            course != Course::Once ==> old(self)@.valid_responses is Some,
        ensures
            final(self)@ == old(self)@.advanced(course, read_view(read)).0,
            turn@ == old(self)@.advanced(course, read_view(read)).1,
    {
        match course {
            Course::Once => Turn::Done(self.interpret(read).ok()),
            Course::Unbounded => match self.validate(&read) {
                Some(answer) => Turn::Done(Some(answer)),
                None => {
                    self.build_clarification();
                    Turn::Exchange(Course::Unbounded)
                },
            },
            Course::Bounded(left) => match self.validate(&read) {
                Some(answer) => Turn::Done(Some(answer)),
                None => {
                    self.build_clarification();
                    if left <= 1 {
                        Turn::Done(None)
                    } else {
                        Turn::Exchange(Course::Bounded(left - 1))
                    }
                },
            },
        }
    }

    /// Begins confirming for a caller that does the exchanges itself: makes
    /// this a yes/no question, builds the prompt and gives the first turn,
    /// which is an exchange in a course without end.
    pub fn begin_confirm(&mut self) -> (turn: Turn)
        ensures
            final(self)@ == old(self)@.as_yes_no().decorated(),
            turn@ == TurnView::Exchange(Course::Unbounded),
    {
        self.yes_no();
        self.build_prompt();
        Turn::Exchange(Course::Unbounded)
    }

    /// Asks once, every reply taken as it is.
    pub fn get_response(&mut self) -> (answer: Result<Answer, IoFailure>)
        ensures
            final(self)@ == old(self)@.heard_out().0,
            answer_view(answer.ok()) == old(self)@.heard_out().1,
    {
        let prompt = self.prompt.clone();
        let read = self.prompt_user(prompt.as_str());
        self.interpret(read)
    }

    /// Asks once and checks the reply.
    pub fn get_valid_response(&mut self) -> (answer: Option<Answer>)
        requires
            old(self)@.valid_responses is Some,
        ensures
            final(self)@ == old(self)@.exchanged(old(self)@.prompt),
            answer_view(answer) == old(self)@.validated(old(self)@.heard()),
    {
        let prompt = self.prompt.clone();
        let read = self.prompt_user(prompt.as_str());
        self.validate(&read)
    }

    /// Whether the unread input comes to a reply that is accepted, so that
    /// asking without end does end.
    pub fn settled(&self) -> (yes: bool)
        requires
            self@.valid_responses is Some,
        ensures
            yes == self@.settled(),
    {
        let mut ahead = self.reader.rest();
        loop
            invariant
                self@.valid_responses is Some,
                settles(self@.valid_responses->0, self@.default, ahead.unread()) == self@.settled(),
            decreases ahead.unread().len(),
        {
            let ghost unread = ahead.unread();
            let more = !ahead.is_empty();
            let read = ahead.read_line();
            if self.validate(&read).is_some() {
                return true;
            }
            if !more {
                return false;
            }
            proof {
                line_length_bounds(unread);
            }
        }
    }

    /// Asks until a reply is accepted. Each reply that is not accepted, and
    /// each read that fails, is followed by the clarification. The input has
    /// to come to a reply that is accepted: on any other input the asking
    /// would never end, since every read at the end of the input yields the
    /// same empty reply. `settled` tells, and `try_ask` asks only then.
    pub fn until_valid(&mut self) -> (answer: Answer)
        requires
            old(self)@.valid_responses is Some,
            old(self)@.settled(),
        ensures
            final(self)@ == old(self)@.persisted().0,
            answer@ == old(self)@.persisted().1,
    {
        loop
            invariant
                self@.valid_responses is Some,
                self@.settled(),
                self@.persisted() == old(self)@.persisted(),
            decreases self@.input.len(),
        {
            let ghost before = self@;
            match self.get_valid_response() {
                Some(answer) => {
                    return answer;
                },
                None => {
                    proof {
                        line_length_bounds(before.input);
                    }
                    self.build_clarification();
                },
            }
        }
    }

    /// Asks until a reply is accepted or the tries are used up. Each reply
    /// that is not accepted, and each read that fails, uses up one try and is
    /// followed by the clarification.
    pub fn max_tries(&mut self) -> (answer: Option<Answer>)
        requires
            old(self)@.tries is Some,
            old(self)@.valid_responses is Some,
        ensures
            final(self)@ == old(self)@.attempted(old(self)@.tries->0 as nat).0,
            answer_view(answer) == old(self)@.attempted(old(self)@.tries->0 as nat).1,
    {
        let limit: u64 = match self.tries {
            Some(limit) => limit,
            None => 0,
        };
        let mut attempts: u64 = 0;
        while attempts < limit
            invariant
                attempts <= limit,
                old(self)@.tries == Some(limit),
                old(self)@.valid_responses is Some,
                self@.valid_responses is Some,
                self@.attempted((limit - attempts) as nat) == old(self)@.attempted(limit as nat),
            decreases limit - attempts,
        {
            match self.get_valid_response() {
                Some(answer) => {
                    return Some(answer);
                },
                None => {
                    self.build_clarification();
                    attempts = attempts + 1;
                },
            }
        }
        None
    }

    /// Asks the question as it is set: without end where that is set, else
    /// within the tries where a number is set, else once with every reply
    /// taken as it is. Where replies are checked, a mapping from replies to
    /// answers has to be set; where the question is asked without end, the
    /// input has to come to a reply that is accepted.
    pub fn ask(&mut self) -> (answer: Option<Answer>)
        requires
            old(self)@.checks() ==> old(self)@.valid_responses is Some,
            old(self)@.until_acceptable ==> old(self)@.settled(),
        ensures
            final(self)@ == old(self)@.asked().0,
            answer_view(answer) == old(self)@.asked().1,
            old(self)@.until_acceptable ==> answer is Some,
    {
        self.build_prompt();
        if self.until_acceptable {
            return Some(self.until_valid());
        }
        if self.tries.is_some() {
            return self.max_tries();
        }
        self.get_response().ok()
    }

    /// Asks a yes/no question until a reply is accepted. The input has to
    /// come to such a reply; `try_confirm` asks only where it does.
    pub fn confirm(&mut self) -> (answer: Answer)
        requires
            old(self)@.as_yes_no().settled(),
        ensures
            final(self)@ == old(self)@.confirmed().0,
            answer@ == old(self)@.confirmed().1,
    {
        self.yes_no();
        self.build_prompt();
        self.until_valid()
    }

    /// Asks as `ask` does, where asking can be done and comes to an end;
    /// else says why not and leaves the question as it is.
    pub fn try_ask(&mut self) -> (answer: Result<Option<Answer>, Unasked>)
        ensures
            match answer {
                Ok(answer) => {
                    &&& old(self)@.checks() ==> old(self)@.valid_responses is Some
                    &&& old(self)@.until_acceptable ==> old(self)@.settled()
                    &&& final(self)@ == old(self)@.asked().0
                    &&& answer_view(answer) == old(self)@.asked().1
                },
                Err(Unasked::NothingValid) => {
                    &&& old(self)@.checks()
                    &&& old(self)@.valid_responses is None
                    &&& final(self)@ == old(self)@
                },
                Err(Unasked::NeverSettled) => {
                    &&& old(self)@.until_acceptable
                    &&& old(self)@.valid_responses is Some
                    &&& !old(self)@.settled()
                    &&& final(self)@ == old(self)@
                },
            },
    {
        if self.until_acceptable || self.tries.is_some() {
            if self.valid_responses.is_none() {
                return Err(Unasked::NothingValid);
            }
            if self.until_acceptable && !self.settled() {
                return Err(Unasked::NeverSettled);
            }
        }
        Ok(self.ask())
    }

    /// Asks as `confirm` does, where the input comes to a reply that is
    /// accepted; else gives no answer and nothing is asked, but the question
    /// is a yes/no question from then on.
    pub fn try_confirm(&mut self) -> (answer: Option<Answer>)
        ensures
            answer is Some <==> old(self)@.as_yes_no().settled(),
            answer is Some ==> final(self)@ == old(self)@.confirmed().0 && answer->0@ == old(
                self,
            )@.confirmed().1,
            answer is None ==> final(self)@ == old(self)@.as_yes_no(),
    {
        self.yes_no();
        if self.settled() {
            proof {
                assert(self@.as_yes_no().valid_responses->0 =~= self@.valid_responses->0);
                assert(self@.as_yes_no() == self@);
            }
            Some(self.confirm())
        } else {
            None
        }
    }

    /// The question as it was put.
    pub fn question(&self) -> (text: &str)
        ensures
            text@ == self@.question,
    {
        self.question.as_str()
    }

    /// The prompt as it stands.
    pub fn prompt(&self) -> (text: &str)
        ensures
            text@ == self@.prompt,
    {
        self.prompt.as_str()
    }

    /// The answer that an empty reply stands for, if one is set.
    pub fn default_answer(&self) -> (answer: Option<&Answer>)
        ensures
            answer is Some <==> self@.default is Some,
            answer is Some ==> answer->0@ == self@.default->0,
    {
        self.default.as_ref()
    }

    /// The clarification, if one is set.
    pub fn clarification_text(&self) -> (text: Option<&str>)
        ensures
            text is Some <==> self@.clarification is Some,
            text is Some ==> text->0@ == self@.clarification->0,
    {
        match &self.clarification {
            Some(text) => Some(text.as_str()),
            None => None,
        }
    }

    /// The replies listed as acceptable, in the order in which they were
    /// given, if any were.
    pub fn accepted(&self) -> (listed: Option<&Vec<String>>)
        ensures
            listed is Some <==> self@.acceptable is Some,
            listed is Some ==> texts(listed->0@) == self@.acceptable->0,
    {
        self.acceptable.as_ref()
    }

    /// The mapping from replies to answers, if one is set.
    pub fn valid_responses(&self) -> (valid: Option<&Responses>)
        ensures
            valid is Some <==> self@.valid_responses is Some,
            valid is Some ==> valid->0@ == self@.valid_responses->0,
    {
        self.valid_responses.as_ref()
    }

    /// The number of tries, if one is set.
    pub fn max_attempts(&self) -> (tries: Option<u64>)
        ensures
            tries == self@.tries,
    {
        self.tries
    }

    /// Whether the question is asked until a reply is accepted.
    pub fn asks_until_acceptable(&self) -> (set: bool)
        ensures
            set == self@.until_acceptable,
    {
        self.until_acceptable
    }

    /// Whether the prompt shows the default.
    pub fn shows_defaults(&self) -> (set: bool)
        ensures
            set == self@.show_defaults,
    {
        self.show_defaults
    }

    /// Whether this is a yes/no question.
    pub fn is_yes_no(&self) -> (set: bool)
        ensures
            set == self@.yes_no,
    {
        self.yes_no
    }

    /// Everything written so far.
    pub fn output(&self) -> (written: &Vec<u8>)
        ensures
            written@ == self@.output,
    {
        &self.writer
    }
}

} // verus!
