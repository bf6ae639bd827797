//! The answer to a question, and its mathematical view.

use vstd::prelude::*;
use vstd::std_specs::cmp::PartialEqSpecImpl;

verus! {

/// An answer, the result of asking a question.
#[derive(Debug, Hash)]
pub enum Answer {
    /// Free text, to be evaluated by the application.
    RESPONSE(String),
    /// Any reply that stands for "yes" in a yes/no question.
    YES,
    /// Any reply that stands for "no" in a yes/no question.
    NO,
}

/// What an [`Answer`] means: the same three cases, free text as a sequence of
/// characters.
pub ghost enum AnswerView {
    Response(Seq<char>),
    Yes,
    No,
}

impl View for Answer {
    type V = AnswerView;

    open spec fn view(&self) -> AnswerView {
        match self {
            Answer::RESPONSE(text) => AnswerView::Response(text@),
            Answer::YES => AnswerView::Yes,
            Answer::NO => AnswerView::No,
        }
    }
}

impl Clone for Answer {
    fn clone(&self) -> (copy: Answer)
        ensures
            copy == *self,
    {
        match self {
            Answer::RESPONSE(text) => Answer::RESPONSE(text.clone()),
            Answer::YES => Answer::YES,
            Answer::NO => Answer::NO,
        }
    }
}

impl PartialEq for Answer {
    fn eq(&self, other: &Answer) -> (same: bool) {
        match self {
            Answer::RESPONSE(a) => match other {
                Answer::RESPONSE(b) => *a == *b,
                _ => false,
            },
            Answer::YES => match other {
                Answer::YES => true,
                _ => false,
            },
            Answer::NO => match other {
                Answer::NO => true,
                _ => false,
            },
        }
    }
}

impl PartialEqSpecImpl for Answer {
    open spec fn obeys_eq_spec() -> bool {
        true
    }

    open spec fn eq_spec(&self, other: &Answer) -> bool {
        self@ == other@
    }
}

impl Eq for Answer {

}

} // verus!
