use vstd::prelude::*;
use crate::clock::utc_now_text;
use crate::navigation::{
    get_answer_from_alphanum_option, next_index, next_of, previous_index, previous_of,
    resolved_option,
};
use crate::progress::{
    count_annotated, get_num_answered, lemma_count_bounded, lemma_count_update, record_if_new,
};
use crate::question::{
    is_annotated, is_option_of, set_classification, set_human_answer, Mode, Question, StoreError,
};

verus! {

/// One input command of an annotation session.
#[derive(Clone, Copy, Debug, PartialEq, Eq, Structural)]
pub enum Command {
    /// Save and end the session.
    Quit,
    /// Save and go on.
    Save,
    /// Go to the previous question, wrapping to the last.
    Previous,
    /// Go to the next question, wrapping to the first.
    Next,
    /// Classify the current question as higher order (classify mode only).
    ClassifyTrue,
    /// Classify the current question as not higher order (classify mode only).
    ClassifyFalse,
    /// Select the option a shortcut symbol stands for (answer mode only).
    SelectOption(char),
    /// Any input without a meaning; it changes nothing.
    Unknown,
}

/// A key as the terminal reports it, reduced to what the session reads.
#[derive(Clone, Copy, Debug, PartialEq, Eq, Structural)]
pub enum Key {
    /// A character key.
    Char(char),
    /// The left arrow.
    Left,
    /// The right arrow.
    Right,
    /// Any other key.
    Other,
}

/// What the caller of a transition must do next.
#[derive(Clone, Copy, Debug, PartialEq, Eq, Structural)]
pub enum Effect {
    /// Nothing beyond showing the new state.
    Nothing,
    /// Write the question set to storage, then report the outcome.
    Save,
    /// Write the question set to storage; the session has ended.
    SaveAndExit,
}

/// Why writing the question set to storage failed.
#[derive(Clone, Debug, PartialEq, Eq)]
pub enum SaveError {
    /// The question set could not be turned into text.
    Serialization(String),
    /// The text could not be written.
    Io(String),
}

/// Why a session could not start.
#[derive(Clone, Copy, Debug, PartialEq, Eq, Structural)]
pub enum SessionError {
    /// A session needs at least one question.
    NoQuestions,
}

/// The command bound to a key: `q` quit, `s` save, left and right arrows
/// move, `t` and `f` classify, `1` to `6` select an option.
pub open spec fn command_of(key: Key) -> Command {
    match key {
        Key::Left => Command::Previous,
        Key::Right => Command::Next,
        Key::Char(c) => if c == 'q' {
            Command::Quit
        } else if c == 's' {
            Command::Save
        } else if c == 't' {
            Command::ClassifyTrue
        } else if c == 'f' {
            Command::ClassifyFalse
        } else if c == '1' || c == '2' || c == '3' || c == '4' || c == '5' || c == '6' {
            Command::SelectOption(c)
        } else {
            Command::Unknown
        },
        Key::Other => Command::Unknown,
    }
}

/// Maps a key to its command.
pub fn command_for_key(key: Key) -> (r: Command)
    ensures
        r == command_of(key),
{
    match key {
        Key::Left => Command::Previous,
        Key::Right => Command::Next,
        Key::Char(c) => match c {
            'q' => Command::Quit,
            's' => Command::Save,
            't' => Command::ClassifyTrue,
            'f' => Command::ClassifyFalse,
            '1' | '2' | '3' | '4' | '5' | '6' => Command::SelectOption(c),
            _ => Command::Unknown,
        },
        Key::Other => Command::Unknown,
    }
}

/// The mathematical state of a session.
pub struct SessionView {
    pub questions: Seq<Question>,
    pub index: nat,
    pub mode: Mode,
    pub annotated: nat,
    pub message: Seq<char>,
    pub terminated: bool,
}

impl SessionView {
    /// The session's invariant: a non-empty set, a current index inside it,
    /// and a progress count equal to the number of annotated questions.
    pub open spec fn wf(self) -> bool {
        &&& self.questions.len() >= 1
        &&& self.index < self.questions.len()
        &&& self.annotated == count_annotated(self.questions, self.mode)
    }

    /// The question on display.
    pub open spec fn current(self) -> Question {
        self.questions[self.index as int]
    }

    /// The current question replaced by `q`, counted when it was not yet annotated.
    pub open spec fn annotate(self, q: Question) -> SessionView {
        SessionView {
            questions: self.questions.update(self.index as int, q),
            annotated: if is_annotated(self.current(), self.mode) {
                self.annotated
            } else {
                self.annotated + 1
            },
            ..self
        }
    }

    /// The state after `cmd`; a terminated session takes no more input.
    pub open spec fn step(self, cmd: Command) -> SessionView {
        if self.terminated {
            self
        } else {
            match cmd {
                Command::Quit => SessionView { terminated: true, ..self },
                Command::Previous => SessionView {
                    index: previous_of(self.index as int, self.questions.len() as int) as nat,
                    ..self
                },
                Command::Next => SessionView {
                    index: next_of(self.index as int, self.questions.len() as int) as nat,
                    ..self
                },
                Command::ClassifyTrue => if self.mode == Mode::Classify {
                    self.annotate(Question { is_higher_order: Some(true), ..self.current() })
                } else {
                    self
                },
                Command::ClassifyFalse => if self.mode == Mode::Classify {
                    self.annotate(Question { is_higher_order: Some(false), ..self.current() })
                } else {
                    self
                },
                Command::SelectOption(c) => if self.mode == Mode::Answer {
                    match resolved_option(c, self.current()) {
                        Some(text) => self.annotate(
                            Question { human_answer: Some(text), ..self.current() },
                        ),
                        None => self,
                    }
                } else {
                    self
                },
                _ => self,
            }
        }
    }

    /// What the caller must do after `cmd`.
    pub open spec fn effect(self, cmd: Command) -> Effect {
        if self.terminated {
            Effect::Nothing
        } else {
            match cmd {
                Command::Quit => Effect::SaveAndExit,
                Command::Save => Effect::Save,
                _ => Effect::Nothing,
            }
        }
    }

    /// `cmd` annotates the current question in this session's mode.
    pub open spec fn annotates(self, cmd: Command) -> bool {
        !self.terminated && match cmd {
            Command::ClassifyTrue | Command::ClassifyFalse => self.mode == Mode::Classify,
            Command::SelectOption(c) => self.mode == Mode::Answer && resolved_option(
                c,
                self.current(),
            ) is Some,
            _ => false,
        }
    }
}

/// A value for the annotation field of a question.
enum Annotation {
    Classification(bool),
    Answer(String),
}

impl Annotation {
    spec fn applied_to(self, q: Question) -> Question {
        match self {
            Annotation::Classification(b) => Question { is_higher_order: Some(b), ..q },
            Annotation::Answer(text) => Question { human_answer: Some(text), ..q },
        }
    }

    /// The value annotates the field of `mode` and, for an answer, is an option of `q`.
    spec fn fits(self, q: Question, mode: Mode) -> bool {
        match self {
            Annotation::Classification(_) => mode == Mode::Classify,
            Annotation::Answer(text) => mode == Mode::Answer && is_option_of(q, text@),
        }
    }
}

/// Every transition keeps the current index inside the question set and the
/// progress count equal to the number of annotated questions.
pub proof fn lemma_step_keeps_invariant(s: SessionView, cmd: Command)
    requires
        s.wf(),
    ensures
        s.step(cmd).wf(),
        s.step(cmd).index < s.step(cmd).questions.len(),
{
    if !s.terminated {
        match cmd {
            Command::ClassifyTrue | Command::ClassifyFalse | Command::SelectOption(_) => {
                let t = s.step(cmd);
                if t != s {
                    let q = t.questions[s.index as int];
                    assert(t.questions == s.questions.update(s.index as int, q));
                    lemma_count_update(s.questions, s.index as int, q, s.mode);
                }
            },
            _ => {},
        }
    }
}

/// Navigation wraps around: `Previous` on the first question goes to the
/// last, `Next` on the last goes to the first, for every set size.
pub proof fn lemma_navigation_wraps(s: SessionView)
    requires
        s.wf(),
        !s.terminated,
    ensures
        s.index == 0 ==> s.step(Command::Previous).index == s.questions.len() - 1,
        s.index == s.questions.len() - 1 ==> s.step(Command::Next).index == 0,
{
}

/// An annotation command counts the current question once: the first time
/// it adds one to the count, and sent again it leaves the count as it is
/// (while still setting the new value).
pub proof fn lemma_annotation_counted_once(s: SessionView, cmd: Command)
    requires
        s.wf(),
        s.annotates(cmd),
    ensures
        !is_annotated(s.current(), s.mode) ==> s.step(cmd).annotated == s.annotated + 1,
        is_annotated(s.current(), s.mode) ==> s.step(cmd).annotated == s.annotated,
        s.step(cmd).annotates(cmd),
        is_annotated(s.step(cmd).current(), s.mode),
        s.step(cmd).step(cmd).annotated == s.step(cmd).annotated,
{
    let t = s.step(cmd);
    assert(t.current().options == s.current().options);
}

/// What the current question still lacks, or what it holds, in the session's mode.
#[derive(Clone, Copy, Debug, PartialEq, Eq, Structural)]
pub enum QuestionStatus {
    /// Classify mode, not yet classified.
    MissingClassification,
    /// Classify mode, classified as higher order or not.
    Classified(bool),
    /// Answer mode, no option selected yet.
    MissingAnswer,
    /// Answer mode, an option is selected.
    Answered,
}

/// The status of `q` in `mode`.
pub open spec fn status_of(q: Question, mode: Mode) -> QuestionStatus {
    match mode {
        Mode::Classify => match q.is_higher_order {
            Some(b) => QuestionStatus::Classified(b),
            None => QuestionStatus::MissingClassification,
        },
        Mode::Answer => match q.human_answer {
            Some(_) => QuestionStatus::Answered,
            None => QuestionStatus::MissingAnswer,
        },
    }
}

/// The confirmation shown after a save that finished at `stamp`.
pub open spec fn saved_message(stamp: Seq<char>) -> Seq<char> {
    "Progress saved at "@ + stamp
}

/// An annotation session: the question set, the current position, the mode,
/// the progress count, a status message and whether the session has ended.
#[derive(Debug)]
pub struct App {
    questions: Vec<Question>,
    question_index: usize,
    mode: Mode,
    message: String,
    exit: bool,
    num_answered: usize,
}

impl View for App {
    type V = SessionView;

    closed spec fn view(&self) -> SessionView {
        SessionView {
            questions: self.questions@,
            index: self.question_index as nat,
            mode: self.mode,
            annotated: self.num_answered as nat,
            message: self.message@,
            terminated: self.exit,
        }
    }
}

impl App {
    /// The session invariant, over the view.
    pub open spec fn wf(&self) -> bool {
        self@.wf()
    }

    /// Starts a session on `questions` in `mode` at the first question, with
    /// the questions already annotated for `mode` counted.
    pub fn new(questions: Vec<Question>, mode: Mode) -> (r: Result<App, SessionError>)
        ensures
            r is Err <==> questions@.len() == 0,
            r matches Ok(app) ==> app.wf() && app@ == (SessionView {
                questions: questions@,
                index: 0,
                mode,
                annotated: count_annotated(questions@, mode),
                message: Seq::empty(),
                terminated: false,
            }),
    {
        if questions.len() == 0 {
            return Err(SessionError::NoQuestions);
        }
        let num_answered = get_num_answered(&mode, &questions);
        Ok(
            App {
                questions,
                question_index: 0,
                mode,
                message: String::new(),
                exit: false,
                num_answered,
            },
        )
    }

    pub fn questions(&self) -> (r: &Vec<Question>)
        ensures
            r@ == self@.questions,
    {
        &self.questions
    }

    pub fn current_question(&self) -> (r: &Question)
        requires
            self.wf(),
        ensures
            *r == self@.current(),
    {
        &self.questions[self.question_index]
    }

    pub fn question_index(&self) -> (r: usize)
        ensures
            r == self@.index,
    {
        self.question_index
    }

    pub fn mode(&self) -> (r: Mode)
        ensures
            r == self@.mode,
    {
        self.mode
    }

    pub fn message(&self) -> (r: &str)
        ensures
            r@ == self@.message,
    {
        self.message.as_str()
    }

    pub fn num_answered(&self) -> (r: usize)
        ensures
            r == self@.annotated,
    {
        self.num_answered
    }

    pub fn is_terminated(&self) -> (r: bool)
        ensures
            r == self@.terminated,
    {
        self.exit
    }

    /// Annotates the current question with `value`, counting it if it was not
    /// annotated before.
    fn annotate_current(&mut self, value: Annotation)
        requires
            old(self).wf(),
            value.fits(old(self)@.current(), old(self)@.mode),
        ensures
            final(self)@ == old(self)@.annotate(value.applied_to(old(self)@.current())),
            final(self).wf(),
    {
        let ghost before = self@;
        let ghost q = value.applied_to(before.current());
        // the set's length is a usize, and the count stays below it
        let len = self.questions.len();
        proof {
            lemma_count_update(before.questions, before.index as int, q, before.mode);
            lemma_count_bounded(before.questions.update(before.index as int, q), before.mode);
            assert(!is_annotated(before.current(), before.mode) ==> before.annotated < len);
        }
        record_if_new(&self.questions[self.question_index], self.mode, &mut self.num_answered);
        let r = match value {
            Annotation::Classification(b) => set_classification(
                &mut self.questions,
                self.question_index,
                b,
            ),
            Annotation::Answer(text) => set_human_answer(
                &mut self.questions,
                self.question_index,
                text,
            ),
        };
        assert(r is Ok);
        assert(self.questions@ == before.questions.update(before.index as int, q));
    }

    /// Applies one command. Navigation and annotation change the state in
    /// memory only; `Save` and `Quit` ask the caller to write the question set,
    /// and `Quit` ends the session whatever that write gives. Commands that do
    /// not apply to the mode, shortcuts past the last option, unknown input and
    /// any input after the session ended change nothing.
    pub fn apply(&mut self, cmd: Command) -> (e: Effect)
        requires
            old(self).wf(),
        ensures
            final(self).wf(),
            final(self)@ == old(self)@.step(cmd),
            e == old(self)@.effect(cmd),
            final(self)@.index < final(self)@.questions.len(),
            final(self)@.questions.len() == old(self)@.questions.len(),
            old(self)@.annotates(cmd) && is_annotated(old(self)@.current(), old(self)@.mode)
                ==> final(self)@.annotated == old(self)@.annotated,
            old(self)@.annotates(cmd) && !is_annotated(old(self)@.current(), old(self)@.mode)
                ==> final(self)@.annotated == old(self)@.annotated + 1,
            !old(self)@.annotates(cmd) ==> final(self)@.annotated == old(self)@.annotated,
            cmd matches Command::SelectOption(c) && resolved_option(c, old(self)@.current()) is None
                ==> final(self)@ == old(self)@,
    {
        if self.exit {
            return Effect::Nothing;
        }
        match cmd {
            Command::Quit => {
                self.exit = true;
                Effect::SaveAndExit
            },
            Command::Save => Effect::Save,
            Command::Previous => {
                self.question_index = previous_index(self.question_index, self.questions.len());
                Effect::Nothing
            },
            Command::Next => {
                self.question_index = next_index(self.question_index, self.questions.len());
                Effect::Nothing
            },
            Command::ClassifyTrue => {
                if self.mode == Mode::Classify {
                    self.annotate_current(Annotation::Classification(true));
                }
                Effect::Nothing
            },
            Command::ClassifyFalse => {
                if self.mode == Mode::Classify {
                    self.annotate_current(Annotation::Classification(false));
                }
                Effect::Nothing
            },
            Command::SelectOption(c) => {
                if self.mode == Mode::Answer {
                    let resolved = get_answer_from_alphanum_option(
                        c,
                        &self.questions[self.question_index],
                    );
                    if let Some(text) = resolved {
                        self.annotate_current(Annotation::Answer(text));
                    }
                }
                Effect::Nothing
            },
            Command::Unknown => Effect::Nothing,
        }
    }

    /// The annotation status of the current question.
    pub fn current_status(&self) -> (r: QuestionStatus)
        requires
            self.wf(),
        ensures
            r == status_of(self@.current(), self@.mode),
    {
        let q = &self.questions[self.question_index];
        match self.mode {
            Mode::Classify => match q.is_higher_order {
                Some(b) => QuestionStatus::Classified(b),
                None => QuestionStatus::MissingClassification,
            },
            Mode::Answer => match q.human_answer {
                Some(_) => QuestionStatus::Answered,
                None => QuestionStatus::MissingAnswer,
            },
        }
    }

    /// Records a save that finished at `stamp`: the message becomes the
    /// confirmation, nothing else changes.
    pub fn record_save_at(&mut self, stamp: &str)
        requires
            old(self).wf(),
        ensures
            final(self).wf(),
            final(self)@ == (SessionView { message: saved_message(stamp@), ..old(self)@ }),
    {
        let mut message = String::from_str("Progress saved at ");
        message.append(stamp);
        self.message = message;
    }

    /// Records the outcome of writing the question set. On success the
    /// message confirms the save with the current UTC time; on failure the
    /// error is handed back and the state is left as it was.
    pub fn record_save(&mut self, outcome: Result<(), SaveError>) -> (r: Result<(), SaveError>)
        requires
            old(self).wf(),
        ensures
            final(self).wf(),
            r == outcome,
            outcome is Err ==> final(self)@ == old(self)@,
            outcome is Ok ==> exists|stamp: Seq<char>|
                final(self)@ == (SessionView { message: #[trigger] saved_message(stamp), ..old(self)@ }),
    {
        if outcome.is_ok() {
            let stamp = utc_now_text();
            self.record_save_at(stamp.as_str());
        }
        outcome
    }
}

} // verus!
