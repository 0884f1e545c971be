use vstd::prelude::*;

verus! {

/// One multiple-choice question together with its annotation fields.
#[derive(Clone, Debug, PartialEq, Eq)]
pub struct Question {
    /// The question text.
    pub question: String,
    /// The candidate answers; a shortcut symbol selects one by position.
    pub options: Vec<String>,
    /// The answer stated by the source document; never changed by a session.
    pub answer: String,
    /// Whether a human judged the question higher order; `None` until classified.
    pub is_higher_order: Option<bool>,
    /// The option a human selected; `None` until answered.
    pub human_answer: Option<String>,
}

/// The annotation task of a session.
#[derive(Clone, Copy, Debug, PartialEq, Eq, Structural)]
pub enum Mode {
    /// Judge each question as higher order or not.
    Classify,
    /// Select the correct option of each question.
    Answer,
}

/// The field that `mode` annotates is present on `q`.
pub open spec fn is_annotated(q: Question, mode: Mode) -> bool {
    match mode {
        Mode::Classify => q.is_higher_order is Some,
        Mode::Answer => q.human_answer is Some,
    }
}

/// `text` is, character for character, one of the options of `q`.
pub open spec fn is_option_of(q: Question, text: Seq<char>) -> bool {
    exists|j: int| 0 <= j < q.options@.len() && (#[trigger] q.options@[j])@ == text
}

/// The mode selector named by `name`, if it names one.
pub open spec fn mode_named(name: Seq<char>) -> Option<Mode> {
    if name == "classify"@ {
        Some(Mode::Classify)
    } else if name == "answer"@ {
        Some(Mode::Answer)
    } else {
        None
    }
}

impl Mode {
    /// Reads a mode selector: `"classify"` or `"answer"`, nothing else.
    pub fn from_name(name: &str) -> (r: Option<Mode>)
        ensures
            r == mode_named(name@),
    {
        let given = String::from_str(name);
        if given == String::from_str("classify") {
            Some(Mode::Classify)
        } else if given == String::from_str("answer") {
            Some(Mode::Answer)
        } else {
            None
        }
    }
}

/// What the question store refuses to do.
#[derive(Clone, Copy, Debug, PartialEq, Eq, Structural)]
pub enum StoreError {
    /// The index is not a position of the question set.
    OutOfRange,
    /// The text is not one of the options of the question.
    InvalidOption,
}

/// Sets the classification of question `index`.
pub fn set_classification(questions: &mut Vec<Question>, index: usize, value: bool) -> (r: Result<
    (),
    StoreError,
>)
    ensures
        r is Ok <==> index < old(questions)@.len(),
        r is Err ==> r == Err::<(), StoreError>(StoreError::OutOfRange),
        r is Ok ==> final(questions)@ == old(questions)@.update(
            index as int,
            (Question { is_higher_order: Some(value), ..old(questions)@[index as int] }),
        ),
        r is Err ==> final(questions)@ == old(questions)@,
{
    if index >= questions.len() {
        return Err(StoreError::OutOfRange);
    }
    questions[index].is_higher_order = Some(value);
    Ok(())
}

/// Sets the human answer of question `index` to `text`, which must be one of
/// that question's options.
pub fn set_human_answer(questions: &mut Vec<Question>, index: usize, text: String) -> (r: Result<
    (),
    StoreError,
>)
    ensures
        r is Ok <==> index < old(questions)@.len() && is_option_of(
            old(questions)@[index as int],
            text@,
        ),
        index >= old(questions)@.len() <==> r == Err::<(), StoreError>(StoreError::OutOfRange),
        index < old(questions)@.len() && !is_option_of(old(questions)@[index as int], text@)
            <==> r == Err::<(), StoreError>(StoreError::InvalidOption),
        r is Ok ==> final(questions)@ == old(questions)@.update(
            index as int,
            (Question { human_answer: Some(text), ..old(questions)@[index as int] }),
        ),
        r is Err ==> final(questions)@ == old(questions)@,
{
    if index >= questions.len() {
        return Err(StoreError::OutOfRange);
    }
    let mut j: usize = 0;
    let mut found = false;
    while j < questions[index].options.len()
        invariant
            index < questions@.len(),
            j <= questions@[index as int].options@.len(),
            found ==> is_option_of(questions@[index as int], text@),
            !found ==> forall|k: int|
                0 <= k < j ==> (#[trigger] questions@[index as int].options@[k])@ != text@,
        decreases questions@[index as int].options@.len() - j,
    {
        if questions[index].options[j] == text {
            found = true;
        }
        j = j + 1;
    }
    if !found {
        return Err(StoreError::InvalidOption);
    }
    questions[index].human_answer = Some(text);
    Ok(())
}

} // verus!
