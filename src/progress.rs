use vstd::prelude::*;
use crate::question::{is_annotated, Mode, Question};

verus! {

/// The number of questions of `qs` that carry the field `mode` annotates.
pub open spec fn count_annotated(qs: Seq<Question>, mode: Mode) -> nat
    decreases qs.len(),
{
    if qs.len() == 0 {
        0
    } else {
        count_annotated(qs.drop_last(), mode) + if is_annotated(qs.last(), mode) {
            1nat
        } else {
            0nat
        }
    }
}

/// One for an annotated question, zero otherwise.
pub open spec fn mark(q: Question, mode: Mode) -> nat {
    if is_annotated(q, mode) {
        1
    } else {
        0
    }
}

/// A count never exceeds the number of questions counted.
pub proof fn lemma_count_bounded(qs: Seq<Question>, mode: Mode)
    ensures
        count_annotated(qs, mode) <= qs.len(),
    decreases qs.len(),
{
    if qs.len() > 0 {
        lemma_count_bounded(qs.drop_last(), mode);
    }
}

/// Replacing one question changes the count by the difference of the two marks.
pub proof fn lemma_count_update(qs: Seq<Question>, i: int, q: Question, mode: Mode)
    requires
        0 <= i < qs.len(),
    ensures
        count_annotated(qs.update(i, q), mode) + mark(qs[i], mode) == count_annotated(qs, mode)
            + mark(q, mode),
    decreases qs.len(),
{
    let u = qs.update(i, q);
    if i == qs.len() - 1 {
        assert(u.drop_last() =~= qs.drop_last());
    } else {
        lemma_count_update(qs.drop_last(), i, q, mode);
        assert(u.drop_last() =~= qs.drop_last().update(i, q));
    }
}

/// Whether `question` already carries the field that `mode` annotates.
pub fn was_annotated(question: &Question, mode: Mode) -> (r: bool)
    ensures
        r == is_annotated(*question, mode),
{
    match mode {
        Mode::Classify => question.is_higher_order.is_some(),
        Mode::Answer => question.human_answer.is_some(),
    }
}

/// Counts the questions already annotated for `mode`, so that a partly
/// annotated set resumes with the right progress.
pub fn get_num_answered(mode: &Mode, questions: &Vec<Question>) -> (r: usize)
    ensures
        r == count_annotated(questions@, *mode),
{
    let mut n: usize = 0;
    let mut i: usize = 0;
    while i < questions.len()
        invariant
            i <= questions@.len(),
            n == count_annotated(questions@.subrange(0, i as int), *mode),
        decreases questions@.len() - i,
    {
        proof {
            let next = questions@.subrange(0, i + 1);
            assert(next.drop_last() =~= questions@.subrange(0, i as int));
            lemma_count_bounded(questions@.subrange(0, i as int), *mode);
        }
        if was_annotated(&questions[i], *mode) {
            n = n + 1;
        }
        i = i + 1;
    }
    assert(questions@.subrange(0, i as int) =~= questions@);
    n
}

/// Adds one to `count` exactly when `question` is not yet annotated for
/// `mode`; to be called before the field is set.
pub fn record_if_new(question: &Question, mode: Mode, count: &mut usize)
    requires
        !is_annotated(*question, mode) ==> *old(count) < usize::MAX,
    ensures
        *final(count) == *old(count) + if is_annotated(*question, mode) {
            0int
        } else {
            1int
        },
{
    if !was_annotated(question, mode) {
        *count = *count + 1;
    }
}

} // verus!
