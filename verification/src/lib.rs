//! Questions for command line programs: a prompt, the line that answers it,
//! the rules that turn that line into an [`Answer`], and the retries that
//! follow a line which no rule accepts.
//!
//! A [`Question`] is set up step by step and then asked. It can be asked in
//! two ways. Over a buffer of input, `ask` and `confirm` do every exchange
//! themselves: they write the prompt behind the output and read the reply
//! from the input, line by line. A caller with streams of its own takes the
//! turns from `begin` and `advance` instead, shows the prompt, reads a line
//! and hands the outcome back.
//!
//! Every function states what it does over [`QuestionView`], the
//! mathematical model of a question; `laws` holds what follows for every
//! question.

pub mod answer;
pub mod laws;
pub mod lines;
pub mod model;
pub mod question;
pub mod responses;
pub mod text;

pub use answer::Answer;
pub use answer::AnswerView;
pub use lines::IoFailure;
pub use model::Course;
pub use model::QuestionView;
pub use model::TurnView;
pub use question::Question;
pub use question::Turn;
pub use question::Unasked;
pub use responses::Responses;
