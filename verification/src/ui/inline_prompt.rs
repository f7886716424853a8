//! The inline prompt: interactive question-and-answer and
//! plan-approval tools, answered from the keyboard within the chat
//! flow.

use vstd::prelude::*;
use crate::strutil;
use crate::ui::text_input::TextInputState;

verus! {

/// A key press, as the prompt sees it: the key plus the control and
/// alt modifiers.
#[derive(Debug, Clone, Copy, PartialEq, Eq, Structural)]
pub struct KeyPress {
    pub code: KeyCode,
    pub ctrl: bool,
    pub alt: bool,
}

/// The keys the prompt reacts to.
#[derive(Debug, Clone, Copy, PartialEq, Eq, Structural)]
pub enum KeyCode {
    Up,
    Down,
    Left,
    Right,
    Tab,
    BackTab,
    Enter,
    Esc,
    Backspace,
    Delete,
    Home,
    End,
    Character(char),
    Other,
}

/// One selectable answer to a question.
#[derive(Debug, Clone, PartialEq, Eq)]
pub struct QuestionOption {
    pub label: String,
    pub description: String,
}

/// One question put to the user.
#[derive(Debug, Clone, PartialEq, Eq)]
pub struct UserQuestion {
    /// The short tab header; filled from the question text when
    /// empty.
    pub header: String,
    pub question: String,
    pub multi_select: bool,
    pub options: Vec<QuestionOption>,
}

/// What kind of prompt is showing.
#[derive(Debug, Clone, PartialEq, Eq)]
pub enum InlinePromptType {
    /// One or more questions to answer.
    AskUserQuestion { questions: Vec<UserQuestion> },
    /// A plan to approve or give feedback on.
    ExitPlanMode { plan_content: String, plan_file_path: String },
}

/// The user's answer to a single question.
#[derive(Debug, Clone, PartialEq, Eq)]
pub enum QuestionAnswer {
    /// One predefined option, by index.
    Selected(usize),
    /// Several predefined options, by ascending index.
    MultiSelected(Vec<usize>),
    /// Custom text.
    Custom(String),
}

/// What a key press led to.
#[derive(Debug, Clone, PartialEq, Eq)]
pub enum PromptAction {
    /// The user submitted a response.
    Submit(PromptResponse),
    /// The user cancelled the prompt.
    Cancel,
    /// The key was handled; nothing to report yet.
    Consumed,
    /// The key was not the prompt's to handle.
    NotHandled,
}

/// The response sent back to the agent.
#[derive(Debug, Clone, PartialEq, Eq)]
pub enum PromptResponse {
    /// Answers keyed by question text, one entry per question.
    AskUserAnswers { answers: Vec<(String, PromptAnswer)> },
    /// Approval of the plan.
    ExitPlanApprove,
    /// Feedback on the plan (stay in plan mode).
    ExitPlanFeedback(String),
}

/// An answer value in a response.
#[derive(Debug, Clone, PartialEq, Eq)]
pub enum PromptAnswer {
    /// One answer: an option's label or custom text.
    Single(String),
    /// Several selected labels.
    Multiple(Vec<String>),
}

/// The prompt's state.
#[derive(Debug, Clone, PartialEq, Eq)]
pub struct InlinePromptState {
    /// The tool invocation this prompt answers.
    pub tool_id: String,
    pub prompt_type: InlinePromptType,
    /// The selected option within the current question (or within
    /// the plan prompt's two options).
    pub current_option: usize,
    /// The current question tab; one past the last question is the
    /// submit tab.
    pub current_question_idx: usize,
    /// One slot per question; `None` until answered.
    pub answers: Vec<Option<QuestionAnswer>>,
    /// Whether keys go to the text input.
    pub input_mode: bool,
    pub text_input: TextInputState,
}

/// The tab header a question ends up with: its own header when
/// that is non-blank, else the trimmed first twelve characters of
/// the question text, else a positional fallback.
pub open spec fn spec_prepared_header(q: UserQuestion, idx: int) -> Seq<char> {
    if strutil::spec_trim(q.header@).len() > 0 {
        q.header@
    } else {
        let cap: int = if q.question@.len() < 12 {
            q.question@.len() as int
        } else {
            12
        };
        let fallback = strutil::spec_trim(q.question@.take(cap));
        if fallback.len() > 0 {
            fallback
        } else {
            "Q"@ + strutil::spec_u64_string(idx + 1)
        }
    }
}

/// Whether `prepared` is `original` with every header filled per
/// `spec_prepared_header` and everything else unchanged.
pub open spec fn spec_questions_prepared(original: Seq<UserQuestion>, prepared: Seq<UserQuestion>) -> bool {
    &&& prepared.len() == original.len()
    &&& forall|k: int|
        0 <= k < original.len() ==> {
            &&& (#[trigger] prepared[k]).header@ == spec_prepared_header(original[k], k)
            &&& prepared[k].question == original[k].question
            &&& prepared[k].multi_select == original[k].multi_select
            &&& prepared[k].options@ == original[k].options@
        }
}

impl InlinePromptState {
    /// One answer slot per question, and the tab index stays within
    /// the questions plus the submit tab.
    pub open spec fn wf(self) -> bool {
        &&& self.text_input.wf()
        &&& match self.prompt_type {
            InlinePromptType::AskUserQuestion { questions } => {
                &&& self.answers@.len() == questions@.len()
                &&& self.current_question_idx <= questions@.len()
            },
            InlinePromptType::ExitPlanMode { .. } => self.current_option <= 1,
        }
    }

    /// A question prompt.  A question with an effectively empty
    /// header gets one derived from its text (its first twelve
    /// characters, trimmed), or a positional fallback.
    pub fn new_ask_user(tool_id: String, questions: Vec<UserQuestion>) -> (r: InlinePromptState)
        ensures
            r.wf(),
            r.tool_id == tool_id,
            r.current_option == 0,
            r.current_question_idx == 0,
            !r.input_mode,
            r.answers@.len() == questions@.len(),
            forall|k: int| 0 <= k < r.answers@.len() ==> (#[trigger] r.answers@[k]) is None,
            (r.prompt_type matches InlinePromptType::AskUserQuestion { questions: qs }
                && spec_questions_prepared(questions@, qs@)),
    {
        let mut prepared: Vec<UserQuestion> = Vec::new();
        let mut idx: usize = 0;
        while idx < questions.len()
            invariant
                idx <= questions@.len(),
                prepared@.len() == idx,
                forall|k: int|
                    0 <= k < idx ==> {
                        &&& (#[trigger] prepared@[k]).header@ == spec_prepared_header(
                            questions@[k],
                            k,
                        )
                        &&& prepared@[k].question == questions@[k].question
                        &&& prepared@[k].multi_select == questions@[k].multi_select
                        &&& prepared@[k].options@ == questions@[k].options@
                    },
            decreases questions@.len() - idx,
        {
            let q = &questions[idx];
            let header_chars = strutil::str_chars(q.header.as_str());
            let trimmed = strutil::trim_chars(&header_chars);
            let header: String = if trimmed.len() > 0 {
                q.header.clone()
            } else {
                let text_chars = strutil::str_chars(q.question.as_str());
                let mut prefix: Vec<char> = Vec::new();
                let mut t: usize = 0;
                while t < text_chars.len() && t < 12
                    invariant
                        t <= text_chars@.len(),
                        t <= 12,
                        text_chars@ == questions@[idx as int].question@,
                        idx < questions@.len(),
                        prefix@ == text_chars@.take(t as int),
                    decreases 12 - t,
                {
                    prefix.push(text_chars[t]);
                    t = t + 1;
                    proof {
                        assert(prefix@ =~= text_chars@.take(t as int));
                    }
                }
                let fallback = strutil::trim_chars(&prefix);
                if fallback.len() > 0 {
                    strutil::chars_to_string(&fallback)
                } else {
                    let mut s = String::new();
                    strutil::append_str(&mut s, "Q");
                    let number = strutil::u64_to_string((idx as u64) + 1);
                    strutil::append_str(&mut s, number.as_str());
                    proof {
                        assert(s@ =~= "Q"@ + strutil::spec_u64_string(idx + 1));
                    }
                    s
                }
            };
            proof {
                assert(header@ == spec_prepared_header(questions@[idx as int], idx as int));
            }
            prepared.push(UserQuestion {
                header,
                question: q.question.clone(),
                multi_select: q.multi_select,
                options: clone_options(&q.options),
            });
            idx = idx + 1;
        }
        let n = prepared.len();
        let mut answers: Vec<Option<QuestionAnswer>> = Vec::new();
        let mut a: usize = 0;
        while a < n
            invariant
                a <= n,
                answers@.len() == a,
                forall|k: int| 0 <= k < a ==> (#[trigger] answers@[k]) is None,
            decreases n - a,
        {
            answers.push(None);
            a = a + 1;
        }
        InlinePromptState {
            tool_id,
            prompt_type: InlinePromptType::AskUserQuestion { questions: prepared },
            current_option: 0,
            current_question_idx: 0,
            answers,
            input_mode: false,
            text_input: TextInputState::new(),
        }
    }

    /// A plan-approval prompt.
    pub fn new_exit_plan(tool_id: String, plan_content: String, plan_file_path: String) -> (r:
        InlinePromptState)
        ensures
            r.wf(),
            r.current_option == 0,
            !r.input_mode,
            (r.prompt_type matches InlinePromptType::ExitPlanMode { plan_content: c, plan_file_path: p }
                && c == plan_content && p == plan_file_path),
    {
        InlinePromptState {
            tool_id,
            prompt_type: InlinePromptType::ExitPlanMode { plan_content, plan_file_path },
            current_option: 0,
            current_question_idx: 0,
            answers: Vec::new(),
            input_mode: false,
            text_input: TextInputState::new(),
        }
    }

    /// Whether any question offers multiple selection, which adds a
    /// submit tab.
    fn has_submit_tab(&self) -> (r: bool)
        ensures
            r == spec_has_submit_tab(*self),
    {
        match &self.prompt_type {
            InlinePromptType::AskUserQuestion { questions } => {
                let mut i: usize = 0;
                while i < questions.len()
                    invariant
                        i <= questions@.len(),
                        (match self.prompt_type {
                            InlinePromptType::AskUserQuestion { questions: qs } => qs@
                                == questions@,
                            _ => false,
                        }),
                        forall|k: int| 0 <= k < i ==> !(#[trigger] questions@[k]).multi_select,
                    decreases questions@.len() - i,
                {
                    if questions[i].multi_select {
                        proof {
                            assert(questions@[i as int].multi_select);
                        }
                        return true;
                    }
                    i = i + 1;
                }
                false
            },
            _ => false,
        }
    }

    /// Whether the submit tab is the current tab.
    fn is_submit_tab(&self) -> (r: bool)
        ensures
            r == spec_is_submit_tab(*self),
    {
        match &self.prompt_type {
            InlinePromptType::AskUserQuestion { questions } => {
                let n = questions.len();
                self.has_submit_tab() && self.current_question_idx >= n
            },
            _ => false,
        }
    }

    /// Whether a question has a non-empty answer.
    fn question_answered(&self, idx: usize) -> (r: bool)
        requires
            self.wf(),
        ensures
            r == spec_question_answered(*self, idx as int),
    {
        match &self.prompt_type {
            InlinePromptType::AskUserQuestion { questions } => {
                if idx >= questions.len() {
                    return false;
                }
                proof {
                    assert(idx < self.answers@.len());
                }
                match &self.answers[idx] {
                    Some(QuestionAnswer::Custom(text)) => !text.as_str().is_empty(),
                    Some(QuestionAnswer::Selected(_)) => true,
                    Some(QuestionAnswer::MultiSelected(items)) => items.len() > 0,
                    None => false,
                }
            },
            _ => false,
        }
    }

    /// The number of options the current tab offers (the questions'
    /// options plus the free-text entry; two for the plan prompt).
    fn option_count(&self) -> (r: usize)
        requires
            self.wf(),
        ensures
            (self.prompt_type matches InlinePromptType::ExitPlanMode { .. }) ==> r == 2,
    {
        if self.is_submit_tab() {
            return 0;
        }
        match &self.prompt_type {
            InlinePromptType::AskUserQuestion { questions } => {
                if self.current_question_idx < questions.len() {
                    let n = questions[self.current_question_idx].options.len();
                    if n < usize::MAX {
                        n + 1
                    } else {
                        n
                    }
                } else {
                    0
                }
            },
            InlinePromptType::ExitPlanMode { .. } => 2,
        }
    }

    /// Whether the free-text entry is the selected option.
    fn is_type_something_selected(&self) -> (r: bool)
        requires
            self.wf(),
    {
        if self.is_submit_tab() {
            return false;
        }
        match &self.prompt_type {
            InlinePromptType::AskUserQuestion { questions } => {
                if self.current_question_idx < questions.len() {
                    self.current_option == questions[self.current_question_idx].options.len()
                } else {
                    false
                }
            },
            InlinePromptType::ExitPlanMode { .. } => self.current_option == 1,
        }
    }

    /// Whether the current question selects multiple options.
    fn current_question_multi_select(&self) -> (r: bool)
        requires
            self.wf(),
    {
        match &self.prompt_type {
            InlinePromptType::AskUserQuestion { questions } => {
                if self.current_question_idx < questions.len() {
                    questions[self.current_question_idx].multi_select
                } else {
                    false
                }
            },
            _ => false,
        }
    }

    /// Whether every question has an answer.
    fn all_questions_answered(&self) -> (r: bool)
        requires
            self.wf(),
        ensures
            r == spec_all_answered(*self),
    {
        match &self.prompt_type {
            InlinePromptType::AskUserQuestion { questions } => {
                let n = questions.len();
                let mut i: usize = 0;
                while i < n
                    invariant
                        self.wf(),
                        i <= n,
                        n == (match self.prompt_type {
                            InlinePromptType::AskUserQuestion { questions: qs } => qs@.len(),
                            _ => 0,
                        }),
                        forall|k: int| 0 <= k < i ==> spec_question_answered(*self, k),
                    decreases n - i,
                {
                    if !self.question_answered(i) {
                        return false;
                    }
                    i = i + 1;
                }
                if n == 0 {
                    return false;
                }
                true
            },
            _ => false,
        }
    }

    /// Handles a key press, returning what it led to.  In input
    /// mode keys go to the text entry; otherwise they navigate
    /// options and tabs, toggle or select answers, or cancel.
    pub fn handle_key(&mut self, key: KeyPress) -> (r: PromptAction)
        requires
            old(self).wf(),
        ensures
            final(self).wf(),
            final(self).tool_id == old(self).tool_id,
            !old(self).input_mode && key.code == KeyCode::Esc ==> r == PromptAction::Cancel,
            !old(self).input_mode && key.code == KeyCode::Up ==> r == PromptAction::Consumed
                && final(self).current_option == (if old(self).current_option > 0 {
                (old(self).current_option - 1) as usize
            } else {
                0usize
            }) && final(self).prompt_type == old(self).prompt_type && final(self).answers == old(self).answers,
            !old(self).input_mode && key.code == KeyCode::Down ==> r == PromptAction::Consumed
                && final(self).current_option >= old(self).current_option && final(self).prompt_type == old(self).prompt_type && final(self).answers == old(self).answers,
    {
        if self.input_mode {
            return self.handle_input_mode_key(key);
        }
        match key.code {
            KeyCode::Up => {
                if self.current_option > 0 {
                    self.current_option = self.current_option - 1;
                }
                PromptAction::Consumed
            },
            KeyCode::Down => {
                let count = self.option_count();
                if count > 0 && self.current_option < count - 1 {
                    self.current_option = self.current_option + 1;
                }
                PromptAction::Consumed
            },
            KeyCode::Left | KeyCode::BackTab => {
                self.step_question_left();
                PromptAction::Consumed
            },
            KeyCode::Right | KeyCode::Tab => {
                self.step_question_right();
                PromptAction::Consumed
            },
            KeyCode::Enter => {
                if self.is_submit_tab() {
                    if self.all_questions_answered() {
                        self.build_ask_user_response()
                    } else {
                        PromptAction::Consumed
                    }
                } else if self.is_type_something_selected() {
                    self.input_mode = true;
                    self.text_input.clear();
                    PromptAction::Consumed
                } else if self.current_question_multi_select() {
                    self.toggle_current_option();
                    PromptAction::Consumed
                } else {
                    self.select_current_option()
                }
            },
            KeyCode::Esc => PromptAction::Cancel,
            KeyCode::Character(c) => {
                if c == ' ' {
                    if self.is_submit_tab() {
                        PromptAction::Consumed
                    } else if self.is_type_something_selected() {
                        self.input_mode = true;
                        self.text_input.clear();
                        PromptAction::Consumed
                    } else if self.current_question_multi_select() {
                        self.toggle_current_option();
                        PromptAction::Consumed
                    } else {
                        PromptAction::NotHandled
                    }
                } else if c == 'k' {
                    if self.current_option > 0 {
                        self.current_option = self.current_option - 1;
                    }
                    PromptAction::Consumed
                } else if c == 'j' {
                    let count = self.option_count();
                    if count > 0 && self.current_option < count - 1 {
                        self.current_option = self.current_option + 1;
                    }
                    PromptAction::Consumed
                } else if c == 'h' {
                    self.step_question_left();
                    PromptAction::Consumed
                } else if c == 'l' {
                    self.step_question_right();
                    PromptAction::Consumed
                } else if '1' <= c && c <= '9' {
                    let idx = ((c as u32) - ('1' as u32)) as usize;
                    if idx < self.option_count() {
                        self.current_option = idx;
                        if self.is_type_something_selected() {
                            self.input_mode = true;
                            self.text_input.clear();
                        } else if self.current_question_multi_select() {
                            self.toggle_current_option();
                        } else {
                            return self.select_current_option();
                        }
                    }
                    PromptAction::Consumed
                } else if !key.ctrl {
                    if self.is_type_something_selected() {
                        self.input_mode = true;
                        self.text_input.clear();
                        self.text_input.insert_char(c);
                        PromptAction::Consumed
                    } else {
                        PromptAction::NotHandled
                    }
                } else {
                    PromptAction::NotHandled
                }
            },
            _ => PromptAction::NotHandled,
        }
    }

    /// Handles a key press while the text input has focus.
    fn handle_input_mode_key(&mut self, key: KeyPress) -> (r: PromptAction)
        requires
            old(self).wf(),
            old(self).input_mode,
        ensures
            final(self).wf(),
            final(self).tool_id == old(self).tool_id,
    {
        match key.code {
            KeyCode::Esc => {
                self.input_mode = false;
                self.text_input.clear();
                PromptAction::Consumed
            },
            KeyCode::Enter => {
                let text = self.text_input.value_string();
                if self.text_input.is_empty() {
                    self.input_mode = false;
                    PromptAction::Consumed
                } else {
                    self.submit_text_input(text)
                }
            },
            KeyCode::Backspace => {
                if self.text_input.is_empty() {
                    self.input_mode = false;
                } else {
                    self.text_input.delete_char();
                }
                PromptAction::Consumed
            },
            KeyCode::Delete => {
                self.text_input.delete_forward();
                PromptAction::Consumed
            },
            KeyCode::Left => {
                if key.alt {
                    self.text_input.move_word_left();
                } else {
                    self.text_input.move_left();
                }
                PromptAction::Consumed
            },
            KeyCode::Right => {
                if key.alt {
                    self.text_input.move_word_right();
                } else {
                    self.text_input.move_right();
                }
                PromptAction::Consumed
            },
            KeyCode::Home => {
                self.text_input.move_start();
                PromptAction::Consumed
            },
            KeyCode::End => {
                self.text_input.move_end();
                PromptAction::Consumed
            },
            KeyCode::Character(c) => {
                if key.ctrl && c == 'u' {
                    self.text_input.delete_to_start();
                } else if key.ctrl && c == 'k' {
                    self.text_input.delete_to_end();
                } else if key.ctrl && c == 'w' {
                    self.text_input.delete_word();
                } else if key.ctrl && c == 'a' {
                    self.text_input.move_start();
                } else if key.ctrl && c == 'e' {
                    self.text_input.move_end();
                } else if !key.ctrl {
                    self.text_input.insert_char(c);
                }
                PromptAction::Consumed
            },
            _ => PromptAction::Consumed,
        }
    }

    /// Moves one question tab left, wrapping through the submit tab
    /// when one exists.
    fn step_question_left(&mut self)
        requires
            old(self).wf(),
        ensures
            final(self).wf(),
            final(self).tool_id == old(self).tool_id,
            final(self).prompt_type == old(self).prompt_type,
            final(self).answers == old(self).answers,
    {
        let has_submit = self.has_submit_tab();
        match &self.prompt_type {
            InlinePromptType::AskUserQuestion { questions } => {
                let n = questions.len();
                if n > 1 || has_submit {
                    if self.current_question_idx > 0 {
                        self.current_question_idx = self.current_question_idx - 1;
                    } else if has_submit {
                        self.current_question_idx = n;
                    }
                    self.current_option = 0;
                }
            },
            _ => {},
        }
    }

    /// Moves one question tab right, wrapping through the submit
    /// tab when one exists.
    fn step_question_right(&mut self)
        requires
            old(self).wf(),
        ensures
            final(self).wf(),
            final(self).tool_id == old(self).tool_id,
            final(self).prompt_type == old(self).prompt_type,
            final(self).answers == old(self).answers,
    {
        let has_submit = self.has_submit_tab();
        match &self.prompt_type {
            InlinePromptType::AskUserQuestion { questions } => {
                let n = questions.len();
                if n > 1 || has_submit {
                    let last_idx = if has_submit {
                        n
                    } else {
                        if n > 0 {
                            n - 1
                        } else {
                            0
                        }
                    };
                    if self.current_question_idx < last_idx {
                        self.current_question_idx = self.current_question_idx + 1;
                    } else if has_submit {
                        self.current_question_idx = 0;
                    }
                    self.current_option = 0;
                }
            },
            _ => {},
        }
    }

    /// Toggles the current option in a multi-select question's
    /// answer, keeping the selected indices sorted; an empty
    /// selection clears the answer.
    fn toggle_current_option(&mut self)
        requires
            old(self).wf(),
        ensures
            final(self).wf(),
            final(self).tool_id == old(self).tool_id,
            final(self).prompt_type == old(self).prompt_type,
    {
        let (n_questions, n_options) = match &self.prompt_type {
            InlinePromptType::AskUserQuestion { questions } => {
                if self.current_question_idx < questions.len() {
                    (questions.len(), questions[self.current_question_idx].options.len())
                } else {
                    return ;
                }
            },
            _ => {
                return ;
            },
        };
        if self.current_option >= n_options {
            return ;
        }
        let qi = self.current_question_idx;
        proof {
            assert(qi < self.answers@.len());
        }
        let mut selections: Vec<usize> = match &self.answers[qi] {
            Some(QuestionAnswer::MultiSelected(items)) => clone_usizes(items),
            Some(QuestionAnswer::Selected(idx)) => {
                let mut v: Vec<usize> = Vec::new();
                v.push(*idx);
                v
            },
            _ => Vec::new(),
        };
        let mut found: Option<usize> = None;
        let mut i: usize = 0;
        while i < selections.len()
            invariant
                i <= selections@.len(),
            decreases selections@.len() - i,
        {
            if selections[i] == self.current_option {
                found = Some(i);
                i = selections.len();
            } else {
                i = i + 1;
            }
        }
        match found {
            Some(pos) => {
                if pos < selections.len() {
                    let _ = selections.remove(pos);
                }
            },
            None => {
                selections.push(self.current_option);
                sort_usizes(&mut selections);
            },
        }
        proof {
            assert(qi < self.answers@.len());
        }
        if selections.len() == 0 {
            self.answers.set(qi, None);
        } else {
            self.answers.set(qi, Some(QuestionAnswer::MultiSelected(selections)));
        }
    }

    /// Selects the current option: multi-select questions toggle;
    /// single-select questions record the answer and move on (or
    /// submit once everything is answered and no submit tab
    /// exists); the plan prompt approves or opens the feedback
    /// entry.
    fn select_current_option(&mut self) -> (r: PromptAction)
        requires
            old(self).wf(),
        ensures
            final(self).wf(),
            final(self).tool_id == old(self).tool_id,
    {
        let is_ask = match &self.prompt_type {
            InlinePromptType::AskUserQuestion { .. } => true,
            _ => false,
        };
        if is_ask {
            if self.current_question_multi_select() {
                self.toggle_current_option();
                return PromptAction::Consumed;
            }
            let record = match &self.prompt_type {
                InlinePromptType::AskUserQuestion { questions } => {
                    if self.current_question_idx < questions.len() && self.current_option
                        < questions[self.current_question_idx].options.len() {
                        true
                    } else {
                        false
                    }
                },
                _ => false,
            };
            if record {
                proof {
                    assert(self.current_question_idx < self.answers@.len());
                }
                self.answers.set(
                    self.current_question_idx,
                    Some(QuestionAnswer::Selected(self.current_option)),
                );
            }
            if self.all_questions_answered() && !self.has_submit_tab() {
                self.build_ask_user_response()
            } else {
                self.move_to_next_unanswered();
                PromptAction::Consumed
            }
        } else {
            if self.current_option == 0 {
                PromptAction::Submit(PromptResponse::ExitPlanApprove)
            } else {
                self.input_mode = true;
                self.text_input.clear();
                PromptAction::Consumed
            }
        }
    }

    /// Records submitted free text: a custom answer for the current
    /// question (moving on, or submitting when done), or plan
    /// feedback.
    fn submit_text_input(&mut self, text: String) -> (r: PromptAction)
        requires
            old(self).wf(),
        ensures
            final(self).wf(),
            final(self).tool_id == old(self).tool_id,
    {
        let is_ask = match &self.prompt_type {
            InlinePromptType::AskUserQuestion { .. } => true,
            _ => false,
        };
        if is_ask {
            if self.current_question_idx < self.answers.len() {
                self.answers.set(self.current_question_idx, Some(QuestionAnswer::Custom(text)));
            }
            if self.all_questions_answered() && !self.has_submit_tab() {
                self.build_ask_user_response()
            } else {
                self.input_mode = false;
                if !self.has_submit_tab() {
                    self.move_to_next_unanswered();
                }
                PromptAction::Consumed
            }
        } else {
            PromptAction::Submit(PromptResponse::ExitPlanFeedback(text))
        }
    }

    /// Moves to the next question without an answer, scanning
    /// forward with wrap-around; stays put when all are answered.
    fn move_to_next_unanswered(&mut self)
        requires
            old(self).wf(),
        ensures
            final(self).wf(),
            final(self).tool_id == old(self).tool_id,
            final(self).prompt_type == old(self).prompt_type,
            final(self).answers == old(self).answers,
    {
        let n = match &self.prompt_type {
            InlinePromptType::AskUserQuestion { questions } => questions.len(),
            _ => {
                return ;
            },
        };
        if n == 0 {
            return ;
        }
        let mut i: usize = 0;
        while i < n
            invariant
                self.wf(),
                i <= n,
                self.tool_id == old(self).tool_id,
                self.prompt_type == old(self).prompt_type,
                self.answers == old(self).answers,
                n == (match self.prompt_type {
                    InlinePromptType::AskUserQuestion { questions: qs } => qs@.len(),
                    _ => 0,
                }),
                self.current_question_idx == old(self).current_question_idx,
            decreases n - i,
        {
            let idx = add_mod(self.current_question_idx, 1 + i, n);
            if !self.question_answered(idx) {
                self.current_question_idx = idx;
                self.current_option = 0;
                return ;
            }
            i = i + 1;
        }
    }

    /// Builds the final response: one entry per answered question,
    /// keyed by the question text, with option indices replaced by
    /// their labels.
    fn build_ask_user_response(&self) -> (r: PromptAction)
        requires
            self.wf(),
        ensures
            (self.prompt_type matches InlinePromptType::AskUserQuestion { .. }) ==> (r matches
                PromptAction::Submit(resp) && resp is AskUserAnswers),
            !(self.prompt_type matches InlinePromptType::AskUserQuestion { .. }) ==> r
                == PromptAction::NotHandled,
    {
        match &self.prompt_type {
            InlinePromptType::AskUserQuestion { questions } => {
                let mut answers: Vec<(String, PromptAnswer)> = Vec::new();
                let mut i: usize = 0;
                let n = questions.len();
                while i < n
                    invariant
                        self.wf(),
                        i <= n,
                        n == (match self.prompt_type {
                            InlinePromptType::AskUserQuestion { questions: qs } => qs@.len(),
                            _ => 0,
                        }),
                        questions@ == (match self.prompt_type {
                            InlinePromptType::AskUserQuestion { questions: qs } => qs@,
                            _ => questions@,
                        }),
                    decreases n - i,
                {
                    let question = &questions[i];
                    match &self.answers[i] {
                        Some(QuestionAnswer::Selected(idx)) => {
                            let label = if *idx < question.options.len() {
                                question.options[*idx].label.clone()
                            } else {
                                String::new()
                            };
                            answers.push((question.question.clone(), PromptAnswer::Single(label)));
                        },
                        Some(QuestionAnswer::MultiSelected(indices)) => {
                            let mut labels: Vec<String> = Vec::new();
                            let mut o: usize = 0;
                            while o < question.options.len()
                                invariant
                                    o <= question.options@.len(),
                                decreases question.options@.len() - o,
                            {
                                if usizes_contain(indices, o) {
                                    labels.push(question.options[o].label.clone());
                                }
                                o = o + 1;
                            }
                            answers.push(
                                (question.question.clone(), PromptAnswer::Multiple(labels)),
                            );
                        },
                        Some(QuestionAnswer::Custom(text)) => {
                            answers.push(
                                (question.question.clone(), PromptAnswer::Single(text.clone())),
                            );
                        },
                        None => {},
                    }
                    i = i + 1;
                }
                PromptAction::Submit(PromptResponse::AskUserAnswers { answers })
            },
            _ => PromptAction::NotHandled,
        }
    }

    /// The number of terminal rows this prompt needs: fixed chrome
    /// plus two rows per option (and a tab bar for several
    /// questions), or the plan excerpt (capped at fifteen lines)
    /// plus its chrome.
    pub fn required_height(&self) -> (r: u16)
        requires
            self.wf(),
    {
        match &self.prompt_type {
            InlinePromptType::AskUserQuestion { questions } => {
                if self.current_question_idx < questions.len() {
                    let base: u16 = 6;
                    let tab_bar: u16 = if questions.len() > 1 || self.has_submit_tab() {
                        2
                    } else {
                        0
                    };
                    let n_options = questions[self.current_question_idx].options.len();
                    let options_rows: u16 = if n_options < 100 {
                        ((n_options as u16) + 1) * 2
                    } else {
                        202
                    };
                    base + tab_bar + options_rows
                } else {
                    10
                }
            },
            InlinePromptType::ExitPlanMode { plan_content, .. } => {
                let lines = count_lines_capped(plan_content.as_str(), 15);
                12 + lines
            },
        }
    }
}

/// Whether any question offers multiple selection.
pub open spec fn spec_has_submit_tab(s: InlinePromptState) -> bool {
    match s.prompt_type {
        InlinePromptType::AskUserQuestion { questions } => exists|k: int|
            0 <= k < questions@.len() && (#[trigger] questions@[k]).multi_select,
        _ => false,
    }
}

/// Whether the submit tab is current.
pub open spec fn spec_is_submit_tab(s: InlinePromptState) -> bool {
    match s.prompt_type {
        InlinePromptType::AskUserQuestion { questions } => spec_has_submit_tab(s)
            && s.current_question_idx >= questions@.len(),
        _ => false,
    }
}

/// Whether question `idx` has a non-empty answer.
pub open spec fn spec_question_answered(s: InlinePromptState, idx: int) -> bool {
    match s.prompt_type {
        InlinePromptType::AskUserQuestion { questions } => {
            &&& 0 <= idx < questions@.len()
            &&& idx < s.answers@.len()
            &&& match s.answers@[idx] {
                Some(QuestionAnswer::Custom(text)) => text@.len() > 0,
                Some(QuestionAnswer::Selected(_)) => true,
                Some(QuestionAnswer::MultiSelected(items)) => items@.len() > 0,
                None => false,
            }
        },
        _ => false,
    }
}

/// Whether every question has an answer (vacuously false with no
/// questions, matching a prompt that cannot be submitted empty).
pub open spec fn spec_all_answered(s: InlinePromptState) -> bool {
    match s.prompt_type {
        InlinePromptType::AskUserQuestion { questions } => questions@.len() > 0 && forall|k: int|
            0 <= k < questions@.len() ==> spec_question_answered(s, k),
        _ => false,
    }
}

/// `(base + add) % n` without overflow.
fn add_mod(base: usize, add: usize, n: usize) -> (r: usize)
    requires
        n > 0,
        base <= n,
        add <= n + 1,
    ensures
        r < n,
{
    let b = base % n;
    let a = add % n;
    if b >= n - a {
        b - (n - a)
    } else {
        b + a
    }
}

/// Whether a sorted-or-not index list contains a value.
fn usizes_contain(v: &Vec<usize>, x: usize) -> (r: bool)
    ensures
        r == (exists|k: int| 0 <= k < v@.len() && v@[k] == x),
{
    let mut i: usize = 0;
    while i < v.len()
        invariant
            i <= v@.len(),
            forall|k: int| 0 <= k < i ==> v@[k] != x,
        decreases v@.len() - i,
    {
        if v[i] == x {
            proof {
                assert(0 <= i < v@.len() && v@[i as int] == x);
            }
            return true;
        }
        i = i + 1;
    }
    false
}

/// A copy of an index list.
fn clone_usizes(v: &Vec<usize>) -> (r: Vec<usize>)
    ensures
        r@ == v@,
{
    let mut out: Vec<usize> = Vec::new();
    let mut i: usize = 0;
    while i < v.len()
        invariant
            i <= v@.len(),
            out@ == v@.take(i as int),
        decreases v@.len() - i,
    {
        out.push(v[i]);
        i = i + 1;
        proof {
            assert(out@ =~= v@.take(i as int));
        }
    }
    proof {
        assert(v@.take(v@.len() as int) =~= v@);
    }
    out
}

/// Sorts an index list ascending (insertion sort).
fn sort_usizes(v: &mut Vec<usize>)
    ensures
        final(v)@.len() == old(v)@.len(),
        forall|a: int, b: int| 0 <= a < b < final(v)@.len() ==> final(v)@[a] <= final(v)@[b],
{
    let n = v.len();
    if n <= 1 {
        return ;
    }
    let mut i: usize = 1;
    while i < n
        invariant
            n == v@.len(),
            1 <= i <= n,
            forall|a: int, b: int| 0 <= a < b < i ==> v@[a] <= v@[b],
        decreases n - i,
    {
        let mut j: usize = i;
        while j > 0 && v[j - 1] > v[j]
            invariant
                n == v@.len(),
                j <= i < n,
                forall|a: int, b: int| 0 <= a < b <= i && b != j ==> v@[a] <= v@[b],
            decreases j,
        {
            let x = v[j - 1];
            let y = v[j];
            v.set(j - 1, y);
            v.set(j, x);
            j = j - 1;
        }
        i = i + 1;
    }
}

/// A copy of an option list.
fn clone_options(v: &Vec<QuestionOption>) -> (r: Vec<QuestionOption>)
    ensures
        r@ == v@,
{
    let mut out: Vec<QuestionOption> = Vec::new();
    let mut i: usize = 0;
    while i < v.len()
        invariant
            i <= v@.len(),
            out@ == v@.take(i as int),
        decreases v@.len() - i,
    {
        out.push(QuestionOption {
            label: v[i].label.clone(),
            description: v[i].description.clone(),
        });
        i = i + 1;
        proof {
            assert(out@ =~= v@.take(i as int));
        }
    }
    proof {
        assert(v@.take(v@.len() as int) =~= v@);
    }
    out
}

/// The number of lines in a text, capped.
fn count_lines_capped(s: &str, cap: u16) -> (r: u16)
    ensures
        r <= cap,
{
    let chars = strutil::str_chars(s);
    if chars.len() == 0 {
        return 0;
    }
    let mut lines: u16 = 1;
    let mut i: usize = 0;
    while i < chars.len()
        invariant
            i <= chars@.len(),
            1 <= lines,
            lines <= cap || cap == 0,
        decreases chars@.len() - i,
    {
        if cap == 0 {
            return 0;
        }
        if chars[i] == '\n' && lines < cap {
            lines = lines + 1;
        }
        i = i + 1;
    }
    if lines > cap {
        cap
    } else {
        lines
    }
}

/// The prompt widget: rendering belongs to the caller, which draws
/// from an `InlinePromptState`.
#[derive(Debug, Clone, Copy, PartialEq, Eq, Structural)]
pub struct InlinePrompt;

impl InlinePrompt {
    /// The widget.
    pub fn new() -> (r: InlinePrompt) {
        InlinePrompt
    }
}

} // verus!
