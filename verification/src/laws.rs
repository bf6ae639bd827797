//! What holds of every question, proved from the model.

use vstd::prelude::*;
use vstd::utf8::decode_utf8;
use vstd::utf8::valid_utf8;
use crate::answer::AnswerView;
use crate::lines::after_line;
use crate::lines::first_line;
use crate::lines::line_length_bounds;
use crate::lines::line_read;
use crate::model::accepted;
use crate::model::after_lines;
use crate::model::answer_within;
use crate::model::first_answer;
use crate::model::free_form;
use crate::model::none_accepted;
use crate::model::settles;
use crate::model::with_yes_and_no;
use crate::model::Course;
use crate::model::QuestionView;
use crate::model::TurnView;
use crate::text::normalized;
use crate::text::is_white_space;
use crate::text::trimmed;
use crate::text::trimmed_end;
use crate::text::trimmed_start;

verus! {

/// A reply whose normal form is filed stands for the answer filed there,
/// whatever its case, the white space around it and the default.
pub proof fn filed_reply_is_answered(
    valid: Map<Seq<char>, AnswerView>,
    default: Option<AnswerView>,
    reply: Seq<char>,
)
    requires
        valid.contains_key(normalized(reply)),
    ensures
        accepted(valid, default, Ok(reply)) == Some(valid[normalized(reply)]),
{
}

/// Two replies with the same normal form, which is filed, stand for the same
/// answer.
pub proof fn spelling_does_not_matter(
    valid: Map<Seq<char>, AnswerView>,
    default: Option<AnswerView>,
    reply: Seq<char>,
    other: Seq<char>,
)
    requires
        normalized(reply) == normalized(other),
        valid.contains_key(normalized(reply)),
    ensures
        accepted(valid, default, Ok(reply)) == accepted(valid, default, Ok(other)),
{
}

/// Where the next reply's normal form is filed, asking ends with that one
/// exchange and the answer filed there: without end, and within any number of
/// tries but none.
pub proof fn filed_reply_ends_asking(q: QuestionView, reply: Seq<char>, tries: nat)
    requires
        q.valid_responses is Some,
        q.heard() == Ok::<Seq<char>, crate::lines::IoFailure>(reply),
        q.valid_responses->0.contains_key(normalized(reply)),
        tries > 0,
    ensures
        q.persisted() == (q.exchanged(q.prompt), q.valid_responses->0[normalized(reply)]),
        q.attempted(tries) == (
            q.exchanged(q.prompt),
            Some(q.valid_responses->0[normalized(reply)]),
        ),
{
}

/// In a yes/no question "yes" and "y" stand for yes, "no" and "n" for no.
pub proof fn yes_no_replies(valid: Map<Seq<char>, AnswerView>)
    ensures
        with_yes_and_no(valid)["yes"@] == AnswerView::Yes,
        with_yes_and_no(valid)["y"@] == AnswerView::Yes,
        with_yes_and_no(valid)["no"@] == AnswerView::No,
        with_yes_and_no(valid)["n"@] == AnswerView::No,
        with_yes_and_no(valid).dom() == valid.dom().insert("yes"@).insert("y"@).insert(
            "no"@,
        ).insert("n"@),
        with_yes_and_no(with_yes_and_no(valid)) == with_yes_and_no(valid),
{
    reveal_strlit("yes");
    reveal_strlit("y");
    reveal_strlit("no");
    reveal_strlit("n");
    assert("yes"@.len() == 3 && "y"@.len() == 1 && "no"@.len() == 2 && "n"@.len() == 1);
    assert("y"@[0] != "n"@[0]);
    assert(with_yes_and_no(valid).dom() =~= valid.dom().insert("yes"@).insert("y"@).insert(
        "no"@,
    ).insert("n"@));
    assert(with_yes_and_no(with_yes_and_no(valid)) =~= with_yes_and_no(valid));
}

/// A prompt that shows the default ends with " (Y/n) " where the default is
/// yes, with " (y/N) " where it is no, with " (y/n) " where none is set, and
/// with the default in brackets where it is free text. A prompt that does not
/// show it ends with a space.
pub proof fn prompt_ending(q: QuestionView)
    ensures
        q.decorated().same_settings(q),
        q.decorated().input == q.input,
        q.decorated().output == q.output,
        q.show_defaults && q.default == Some(AnswerView::Yes) ==> q.decorated().prompt == q.prompt
            + " (Y/n) "@,
        q.show_defaults && q.default == Some(AnswerView::No) ==> q.decorated().prompt == q.prompt
            + " (y/N) "@,
        q.show_defaults && q.default is None ==> q.decorated().prompt == q.prompt + " (y/n) "@,
        forall|text: Seq<char>|
            q.show_defaults && q.default == Some(AnswerView::Response(text))
                ==> q.decorated().prompt == q.prompt + " ("@ + text + ") "@,
        !q.show_defaults ==> q.decorated().prompt == q.prompt + " "@,
{
    reveal_strlit(" (Y/n) ");
    reveal_strlit(" (y/N) ");
    reveal_strlit(" (y/n) ");
    reveal_strlit(" (Y/n)");
    reveal_strlit(" (y/N)");
    reveal_strlit(" (y/n)");
    reveal_strlit(" (");
    reveal_strlit(")");
    reveal_strlit(") ");
    reveal_strlit(" ");
    assert(" (Y/n)"@ + " "@ =~= " (Y/n) "@);
    assert(" (y/N)"@ + " "@ =~= " (y/N) "@);
    assert(" (y/n)"@ + " "@ =~= " (y/n) "@);
    assert(Seq::<char>::empty() + " "@ =~= " "@);
    if q.show_defaults {
        match q.default {
            Some(AnswerView::Response(text)) => {
                assert(q.prompt + (" ("@ + text + ")"@ + " "@) =~= q.prompt + " ("@ + text + ") "@);
            },
            _ => {},
        }
    }
}

/// A question with `tries` tries, not set to be asked without end, gives no
/// answer where none of the first `tries` reads is accepted, and has then
/// read exactly that many lines; where one of them is accepted, it gives the
/// answer of the first that is.
pub proof fn bounded_asking(q: QuestionView, tries: u64)
    requires
        q.valid_responses is Some,
        !q.until_acceptable,
        q.tries == Some(tries),
    ensures
        q.asked().1 == answer_within(q.valid_responses->0, q.default, q.input, tries as nat),
        none_accepted(q.valid_responses->0, q.default, q.input, tries as nat) ==> q.asked().1 is None
            && q.asked().0.input == after_lines(q.input, tries as nat),
        !none_accepted(q.valid_responses->0, q.default, q.input, tries as nat)
            ==> q.asked().1 is Some,
{
    tries_run_out(q.decorated(), tries as nat);
}

/// Making the prompt anew from the clarification a second time changes
/// nothing.
pub proof fn clarifying_again_changes_nothing(q: QuestionView)
    ensures
        q.clarified().clarified() == q.clarified(),
        q.same_settings(q.clarified()),
        q.clarified().input == q.input,
        q.clarified().output == q.output,
        q.clarification is None ==> q.clarified() == q,
{
}

/// Within `tries` tries the answer is that of the first among the first
/// `tries` reads that is accepted, whatever the prompt and the clarification
/// are. No answer is given exactly where none of these reads is accepted; the
/// question has then read exactly that many lines. The settings stay as they
/// were, whatever the outcome, and the prompt is the one that was shown last,
/// or the one with the clarification where the last reply was not accepted.
pub proof fn tries_run_out(q: QuestionView, tries: nat)
    requires
        q.valid_responses is Some,
    ensures
        q.attempted(tries).1 == answer_within(q.valid_responses->0, q.default, q.input, tries),
        q.attempted(tries).1 is None <==> none_accepted(
            q.valid_responses->0,
            q.default,
            q.input,
            tries,
        ),
        q.attempted(tries).1 is None ==> q.attempted(tries).0.input == after_lines(q.input, tries),
        q.same_settings(q.attempted(tries).0),
        q.attempted(tries).0.prompt == q.prompt || q.attempted(tries).0.prompt
            == q.clarified().prompt,
        tries > 0 && q.validated(q.heard()) is None ==> q.attempted(tries).0.prompt
            == q.clarified().prompt,
    decreases tries,
{
    if tries > 0 && q.validated(q.heard()) is None {
        let next = q.exchanged(q.prompt).clarified();
        tries_run_out(next, (tries - 1) as nat);
        clarifying_again_changes_nothing(q);
        assert(next.clarified().prompt == q.clarified().prompt);
    }
}

/// Asking without end gives the answer of the first read that is accepted,
/// whatever the prompt, the clarification and the number of tries are. The
/// settings stay as they were, and the prompt is the one that was shown
/// first, where the first reply was accepted, or else the one with the
/// clarification.
pub proof fn asking_without_end_answers(q: QuestionView)
    requires
        q.valid_responses is Some,
        q.settled(),
    ensures
        q.persisted().1 == first_answer(q.valid_responses->0, q.default, q.input),
        q.same_settings(q.persisted().0),
        q.validated(q.heard()) is Some ==> q.persisted().0.prompt == q.prompt,
        q.validated(q.heard()) is None ==> q.persisted().0.prompt == q.clarified().prompt,
    decreases q.input.len(),
{
    if q.validated(q.heard()) is None {
        line_length_bounds(q.input);
        let next = q.exchanged(q.prompt).clarified();
        asking_without_end_answers(next);
        clarifying_again_changes_nothing(q);
        assert(next.clarified().prompt == q.clarified().prompt);
    }
}

/// The replies listed as acceptable do not matter to the answer.
pub proof fn listed_replies_do_not_matter(q: QuestionView, more: Seq<Seq<char>>)
    requires
        q.checks() ==> q.valid_responses is Some,
        q.until_acceptable ==> q.settled(),
    ensures
        q.accepting(more).asked().1 == q.asked().1,
{
    if q.until_acceptable {
        asking_without_end_answers(q.decorated());
        asking_without_end_answers(q.accepting(more).decorated());
    } else if q.tries is Some {
        tries_run_out(q.decorated(), q.tries->0 as nat);
        tries_run_out(q.accepting(more).decorated(), q.tries->0 as nat);
    }
}

/// The answer of the first read that is accepted is filed in the mapping or
/// is the default.
pub proof fn first_answer_is_known(
    valid: Map<Seq<char>, AnswerView>,
    default: Option<AnswerView>,
    input: Seq<u8>,
)
    requires
        settles(valid, default, input),
    ensures
        valid.contains_value(first_answer(valid, default, input)) || default == Some(
            first_answer(valid, default, input),
        ),
    decreases input.len(),
{
    match line_read(input) {
        Ok(reply) => {
            if valid.contains_key(normalized(reply)) {
                assert(valid.contains_value(valid[normalized(reply)]));
            }
        },
        Err(_) => {},
    }
    if accepted(valid, default, line_read(input)) is None {
        line_length_bounds(input);
        first_answer_is_known(valid, default, after_line(input));
    }
}

/// A question that is asked without end always gets an answer, and the
/// number of tries does not matter to it.
pub proof fn unbounded_goes_before_tries(q: QuestionView, tries: Option<u64>)
    requires
        q.until_acceptable,
        q.valid_responses is Some,
        q.settled(),
    ensures
        q.asked().1 == Some(first_answer(q.valid_responses->0, q.default, q.input)),
        (QuestionView { tries, ..q }).asked().1 == q.asked().1,
{
    asking_without_end_answers(q.decorated());
    asking_without_end_answers((QuestionView { tries, ..q }).decorated());
}

/// Asking until a reply is accepted goes the same way whether or not the
/// question is set to be asked without end.
proof fn persisting_ignores_the_setting(q: QuestionView)
    requires
        q.valid_responses is Some,
        q.settled(),
    ensures
        q.unbounded().persisted() == (q.persisted().0.unbounded(), q.persisted().1),
    decreases q.input.len(),
{
    if q.validated(q.heard()) is None {
        line_length_bounds(q.input);
        let next = q.exchanged(q.prompt).clarified();
        assert(q.unbounded().exchanged(q.prompt).clarified() == next.unbounded());
        persisting_ignores_the_setting(next);
    }
}

/// Confirming gives the answer of the first read that a yes/no question
/// accepts, and changes no setting but those that make it a yes/no question.
/// It is asking a yes/no question that is set to be asked without end.
pub proof fn confirming_answers(q: QuestionView)
    requires
        q.as_yes_no().settled(),
    ensures
        q.confirmed().1 == first_answer(
            q.as_yes_no().valid_responses->0,
            q.default,
            q.input,
        ),
        q.as_yes_no().same_settings(q.confirmed().0),
        q.as_yes_no().unbounded().asked() == (q.confirmed().0.unbounded(), Some(q.confirmed().1)),
{
    let ready = q.as_yes_no().decorated();
    asking_without_end_answers(ready);
    persisting_ignores_the_setting(ready);
    assert(q.as_yes_no().unbounded().decorated() == ready.unbounded());
}

/// Asking begins with the turn that the settings call for, and then goes the
/// way of that turn's course.
pub proof fn opening_turn(q: QuestionView)
    ensures
        match q.opening() {
            TurnView::Done(answer) => q.asked() == (q.decorated(), answer),
            TurnView::Exchange(Course::Unbounded) => q.asked() == (
                q.decorated().persisted().0,
                Some(q.decorated().persisted().1),
            ),
            TurnView::Exchange(Course::Bounded(tries)) => q.asked() == q.decorated().attempted(
                tries as nat,
            ),
            TurnView::Exchange(Course::Once) => q.asked() == q.decorated().heard_out(),
        },
{
}

/// One exchange over the input, followed by `advanced`, is one round of
/// asking: where it ends asking, asking has ended so; where it calls for
/// another exchange, asking goes on from there.
pub proof fn turns_follow_asking(q: QuestionView, tries: u64)
    requires
        q.valid_responses is Some,
        tries > 0,
    ensures
        match q.exchanged(q.prompt).advanced(Course::Unbounded, q.heard()) {
            (next, TurnView::Done(answer)) => answer == Some(q.persisted().1) && next
                == q.persisted().0,
            (next, TurnView::Exchange(course)) => course == Course::Unbounded && (q.input.len() > 0
                ==> next.persisted() == q.persisted()),
        },
        match q.exchanged(q.prompt).advanced(Course::Bounded(tries), q.heard()) {
            (next, TurnView::Done(answer)) => q.attempted(tries as nat) == (next, answer),
            (next, TurnView::Exchange(course)) => course == Course::Bounded((tries - 1) as u64)
                && q.attempted(tries as nat) == next.attempted((tries - 1) as nat),
        },
        q.exchanged(q.prompt).advanced(Course::Once, q.heard()) == (
            q.heard_out().0,
            TurnView::Done(q.heard_out().1),
        ),
{
    reveal_with_fuel(QuestionView::attempted, 2);
}

/// At the end of the input a read yields the empty reply.
pub proof fn end_of_input_reads_empty()
    ensures
        line_read(Seq::<u8>::empty()) == Ok::<Seq<char>, crate::lines::IoFailure>(Seq::empty()),
{
    let nothing = Seq::<u8>::empty();
    assert(first_line(nothing) =~= nothing);
    assert(valid_utf8(nothing));
    assert(decode_utf8(nothing) =~= Seq::<char>::empty());
}

/// A text of white space alone trims to nothing.
pub proof fn white_space_trims_to_nothing(text: Seq<char>)
    requires
        forall|at: int| 0 <= at < text.len() ==> is_white_space(#[trigger] text[at]),
    ensures
        trimmed(text) == Seq::<char>::empty(),
    decreases text.len(),
{
    if text.len() > 0 {
        let rest = text.drop_first();
        assert(forall|at: int| 0 <= at < rest.len() ==> rest[at] == text[at + 1]);
        white_space_trims_to_nothing(rest);
    } else {
        assert(text =~= Seq::<char>::empty());
    }
}

/// A text that neither starts nor ends with white space is left as it is by
/// trimming, and trimming a second time changes nothing.
pub proof fn trimming_leaves_the_inner_text(text: Seq<char>)
    ensures
        text.len() > 0 && !is_white_space(text.first()) && !is_white_space(text.last())
            ==> trimmed(text) == text,
        trimmed(text).len() > 0 ==> !is_white_space(trimmed(text).first()) && !is_white_space(
            trimmed(text).last(),
        ),
        trimmed(trimmed(text)) == trimmed(text),
{
    starts_without_white_space(text);
    ends_without_white_space(trimmed_start(text));
}

/// What is left behind the white space at the start of a text does not start
/// with white space.
proof fn starts_without_white_space(text: Seq<char>)
    ensures
        trimmed_start(text).len() > 0 ==> !is_white_space(trimmed_start(text).first()),
    decreases text.len(),
{
    if text.len() > 0 && is_white_space(text.first()) {
        starts_without_white_space(text.drop_first());
    }
}

/// What is left before the white space at the end of a text does not end
/// with white space, and starts as the text does.
proof fn ends_without_white_space(text: Seq<char>)
    ensures
        trimmed_end(text).len() > 0 ==> !is_white_space(trimmed_end(text).last())
            && trimmed_end(text).first() == text.first(),
    decreases text.len(),
{
    if text.len() > 0 && is_white_space(text.last()) {
        ends_without_white_space(text.drop_last());
    }
}

/// Only the reply that is empty as it was read takes the default: a reply
/// that holds anything, be it white space alone, and whose normal form is
/// not filed is not accepted.
pub proof fn only_the_empty_reply_takes_the_default(
    valid: Map<Seq<char>, AnswerView>,
    default: Option<AnswerView>,
    reply: Seq<char>,
)
    requires
        !valid.contains_key(normalized(reply)),
    ensures
        reply.len() == 0 ==> accepted(valid, default, Ok(reply)) == default,
        reply.len() > 0 ==> accepted(valid, default, Ok(reply)) is None,
{
}

/// Where replies are not checked, a reply of white space alone that is not
/// empty stands for the empty text, whatever the default is.
pub proof fn white_space_in_free_form(default: Option<AnswerView>, reply: Seq<char>)
    requires
        reply.len() > 0,
        forall|at: int| 0 <= at < reply.len() ==> is_white_space(#[trigger] reply[at]),
    ensures
        free_form(default, Ok(reply)) == Ok::<AnswerView, crate::lines::IoFailure>(
            AnswerView::Response(Seq::empty()),
        ),
{
    white_space_trims_to_nothing(reply);
}

/// Where a default is set, every input comes to a reply that is accepted: at
/// the latest the empty reply at the end of the input, which the default
/// answers unless the mapping does.
pub proof fn default_settles(
    valid: Map<Seq<char>, AnswerView>,
    default: Option<AnswerView>,
    input: Seq<u8>,
)
    requires
        default is Some,
    ensures
        settles(valid, default, input),
    decreases input.len(),
{
    if input.len() == 0 {
        end_of_input_reads_empty();
        assert(input =~= Seq::<u8>::empty());
    } else {
        line_length_bounds(input);
        default_settles(valid, default, after_line(input));
    }
}

/// Where replies are not checked, an empty reply stands for the default, or
/// for the empty text where no default is set; any other reply stands for
/// itself without the white space around it. Asking once takes one exchange.
pub proof fn free_form_answers(q: QuestionView, reply: Seq<char>)
    requires
        !q.checks(),
        q.heard() == Ok::<Seq<char>, crate::lines::IoFailure>(reply),
    ensures
        q.asked().0 == q.decorated().exchanged(q.decorated().prompt),
        reply.len() == 0 && q.default is Some ==> q.asked().1 == q.default,
        reply.len() == 0 && q.default is None ==> q.asked().1 == Some(
            AnswerView::Response(Seq::empty()),
        ),
        reply.len() > 0 ==> q.asked().1 == Some(AnswerView::Response(trimmed(reply))),
{
    if reply.len() == 0 {
        assert(reply =~= Seq::<char>::empty());
    }
}

/// Where replies are not checked and the input is at its end, asking gives
/// the default, or the empty text where no default is set.
pub proof fn free_form_at_end_of_input(q: QuestionView)
    requires
        !q.checks(),
        q.input.len() == 0,
    ensures
        q.default is Some ==> q.asked().1 == q.default,
        q.default is None ==> q.asked().1 == Some(AnswerView::Response(Seq::empty())),
{
    end_of_input_reads_empty();
    assert(q.input =~= Seq::<u8>::empty());
    free_form_answers(q, Seq::empty());
}

/// Where replies are not checked, a failed read gives no answer.
pub proof fn free_form_fails_with_the_read(q: QuestionView)
    requires
        !q.checks(),
        q.heard() is Err,
    ensures
        q.asked().1 is None,
        free_form(q.default, q.heard()) is Err,
{
}

/// No tries at all is asking without end; one try changes nothing.
pub proof fn tries_of_none_and_one(q: QuestionView)
    ensures
        q.limited(0) == q.unbounded(),
        q.limited(0).asked() == q.unbounded().asked(),
        q.limited(1) == q,
        q.limited(1).tries == q.tries,
{
}

/// Replies listed one after the other stand in the order in which they were
/// listed, each as often as it was listed.
pub proof fn listing_keeps_order(q: QuestionView, first: Seq<Seq<char>>, second: Seq<Seq<char>>)
    ensures
        q.accepting(first).accepting(second) == q.accepting(first + second),
        q.acceptable is None ==> q.accepting(first).acceptable == Some(first),
        q.acceptable is Some ==> q.accepting(first).acceptable == Some(q.acceptable->0 + first),
{
    match q.acceptable {
        Some(listed) => {
            assert((listed + first) + second =~= listed + (first + second));
        },
        None => {},
    }
}

} // verus!
