//! The terminal-UI state machines: filters, selections, the
//! missing-tool dialog, the inline prompt, and the footer.

use conduit_core::agent::{AgentType, ReasoningEffort};
use conduit_core::config::{Config, Tool, ToolAvailability};
use conduit_core::ui::footer::{FooterContext, GlobalFooter, InputMode, ViewMode};
use conduit_core::ui::inline_prompt::{
    InlinePromptState, KeyCode, KeyPress, PromptAction, PromptResponse, QuestionOption,
    UserQuestion,
};
use conduit_core::ui::file_kind::{FileKind, FileViewMode};
use conduit_core::ui::missing_tool::{MissingToolDialogState, MissingToolResult, StartupToolDialog};
use conduit_core::ui::multi_select::{MultiSelectDialogState, MultiSelectItem};
use conduit_core::ui::provider_selector::ProviderSelectorState;
use conduit_core::ui::reasoning_selector::ReasoningSelectorState;
use conduit_core::ui::tab_bar::{item_at_offset, TabBar, TabBarHitTarget};
use conduit_core::ui::text_input::TextInputState;
use conduit_core::ui::text_width::str_display_width;

fn item(id: &str, title: &str, description: &str) -> MultiSelectItem {
    MultiSelectItem {
        id: id.to_string(),
        title: title.to_string(),
        description: description.to_string(),
        checked: false,
        disabled: false,
    }
}

fn plain_key(code: KeyCode) -> KeyPress {
    KeyPress { code, ctrl: false, alt: false }
}

#[test]
fn test_multi_select_filter_matches_case_insensitively() {
    let mut dialog = MultiSelectDialogState::new(10);
    dialog.configure(
        "Pick".to_string(),
        None,
        vec![
            item("alpha", "Alpha Thing", "first"),
            item("beta", "Beta Thing", "second"),
            item("gamma", "Gamma", "ALPHA adjacent"),
        ],
    );
    dialog.insert_str("alpha");
    let kept: Vec<usize> = dialog.list.filtered.clone();
    // "Alpha Thing" by title and "Gamma" by description.
    assert_eq!(kept, vec![0, 2]);
    dialog.delete_char();
    dialog.delete_char();
    dialog.delete_char();
    dialog.delete_char();
    dialog.delete_char();
    assert_eq!(dialog.list.filtered.len(), 3);
}

#[test]
fn test_multi_select_toggle_skips_disabled() {
    let mut dialog = MultiSelectDialogState::new(10);
    let mut disabled = item("off", "Disabled", "");
    disabled.disabled = true;
    dialog.configure("Pick".to_string(), None, vec![disabled, item("on", "Enabled", "")]);
    // The first (disabled) item cannot be toggled.
    assert!(!dialog.toggle_selected());
    assert!(dialog.selected_ids().is_empty());
    dialog.select_next();
    assert!(dialog.toggle_selected());
    assert_eq!(dialog.selected_ids(), vec!["on".to_string()]);
    // Toggling again unchecks.
    assert!(dialog.toggle_selected());
    assert!(dialog.selected_ids().is_empty());
}

#[test]
fn test_provider_selector_checks_installed_enabled_providers() {
    let config = Config::default();
    let tools = ToolAvailability { nova: true, codex: false, gemini: true, opencode: false, git: true, gh: false };
    let mut selector = ProviderSelectorState::configure_for(&config, &tools);
    // With no explicit provider list, installed providers start
    // checked; uninstalled ones are disabled and unchecked.
    assert_eq!(
        selector.selected_provider_ids(),
        vec!["nova".to_string(), "gemini".to_string()]
    );
    assert_eq!(
        selector.selected_providers(),
        vec![AgentType::Nova, AgentType::Gemini]
    );
    assert!(selector.validate_non_empty());
}

#[test]
fn test_provider_selector_validate_empty() {
    let config = Config::default();
    let tools = ToolAvailability::default();
    let mut selector = ProviderSelectorState::configure_for(&config, &tools);
    assert!(selector.selected_providers().is_empty());
    assert!(!selector.validate_non_empty());
    assert!(selector.dialog.validation_error.is_some());
}

#[test]
fn test_reasoning_selector_options_per_vendor() {
    let mut s = ReasoningSelectorState::new();
    s.show(AgentType::Codex, Some(ReasoningEffort::Medium));
    assert_eq!(s.options.len(), 6);
    let selected = s.selected_option().expect("selection");
    assert_eq!(selected.effort, Some(ReasoningEffort::Medium));

    s.show(AgentType::Gemini, None);
    assert_eq!(s.options.len(), 1);
    assert_eq!(s.selected_option().expect("auto").effort, None);
}

#[test]
fn test_reasoning_selector_filter() {
    let mut s = ReasoningSelectorState::new();
    s.show(AgentType::Codex, None);
    s.insert_str("budget");
    // Every Codex effort option mentions the reasoning budget; the
    // automatic option does not.
    assert_eq!(s.list.filtered.len(), 5);
    s.delete_char();
    assert!(s.list.filtered.len() >= 5);
}

#[test]
fn test_missing_tool_dialog_input_editing() {
    let mut d = MissingToolDialogState::new();
    d.show(Tool::Gh);
    assert!(d.is_visible());
    assert!(!d.is_required);
    for c in "/usr/bin/gh".chars() {
        d.insert_char(c);
    }
    assert_eq!(d.input.iter().collect::<String>(), "/usr/bin/gh");
    d.backspace();
    d.backspace();
    assert_eq!(d.input.iter().collect::<String>(), "/usr/bin/");
    d.move_to_start();
    d.delete();
    assert_eq!(d.input.iter().collect::<String>(), "usr/bin/");
    d.clear_input();
    assert!(d.input.is_empty());
}

#[test]
fn test_missing_tool_dialog_requirements() {
    let mut d = MissingToolDialogState::new();
    d.show(Tool::Git);
    assert!(d.is_required);
    d.show(Tool::Nova);
    assert!(d.is_required);
    d.show_with_context(Tool::Gh, "To use PR features, install the GitHub CLI.".to_string());
    assert!(!d.is_required);
    assert!(d.context_message.is_some());
    d.show_for_agent(Tool::Codex);
    assert!(d.is_required);
}

#[test]
fn test_missing_tool_validate() {
    let mut d = MissingToolDialogState::new();
    d.show(Tool::Git);
    // Empty input records an error.
    assert!(d.validate().is_none());
    assert!(d.error.is_some());
    // The root directory exists everywhere this runs.
    d.clear_input();
    d.insert_char('/');
    match d.validate() {
        Some(MissingToolResult::PathProvided(p)) => assert_eq!(p, "/"),
        other => panic!("expected a provided path, got {:?}", other),
    }
    // A nonsense path records an error.
    d.clear_input();
    for c in "/no/such/tool-xyz".chars() {
        d.insert_char(c);
    }
    assert!(d.validate().is_none());
    assert!(d.error.is_some());
}

#[test]
fn test_text_input_word_operations() {
    let mut t = TextInputState::new();
    for c in "one two  three".chars() {
        t.insert_char(c);
    }
    t.move_word_left();
    assert_eq!(t.cursor, 9);
    t.delete_word();
    assert_eq!(t.chars.iter().collect::<String>(), "one three");
    t.move_start();
    t.move_word_right();
    assert_eq!(t.cursor, 3);
}

#[test]
fn test_inline_prompt_single_question_flow() {
    let question = UserQuestion {
        header: "".to_string(),
        question: "Favourite colour?".to_string(),
        multi_select: false,
        options: vec![
            QuestionOption { label: "Red".to_string(), description: "".to_string() },
            QuestionOption { label: "Blue".to_string(), description: "".to_string() },
        ],
    };
    let mut prompt = InlinePromptState::new_ask_user("tool-1".to_string(), vec![question]);
    // Move to the second option and select it: with every question
    // answered and no submit tab, the response is submitted.
    assert_eq!(prompt.handle_key(plain_key(KeyCode::Down)), PromptAction::Consumed);
    match prompt.handle_key(plain_key(KeyCode::Enter)) {
        PromptAction::Submit(PromptResponse::AskUserAnswers { answers }) => {
            assert_eq!(answers.len(), 1);
            assert_eq!(answers[0].0, "Favourite colour?");
            match &answers[0].1 {
                conduit_core::ui::inline_prompt::PromptAnswer::Single(label) => {
                    assert_eq!(label, "Blue")
                },
                other => panic!("expected a single answer, got {:?}", other),
            }
        },
        other => panic!("expected a submit, got {:?}", other),
    }
}

#[test]
fn test_inline_prompt_esc_cancels() {
    let mut prompt = InlinePromptState::new_exit_plan(
        "tool-2".to_string(),
        "Step one.\nStep two.".to_string(),
        "/tmp/plan.md".to_string(),
    );
    assert_eq!(prompt.handle_key(plain_key(KeyCode::Esc)), PromptAction::Cancel);
}

#[test]
fn test_inline_prompt_plan_approval_and_feedback() {
    let mut prompt = InlinePromptState::new_exit_plan(
        "tool-3".to_string(),
        "Plan.".to_string(),
        "/tmp/plan.md".to_string(),
    );
    assert_eq!(
        prompt.handle_key(plain_key(KeyCode::Enter)),
        PromptAction::Submit(PromptResponse::ExitPlanApprove)
    );

    // The second option opens the feedback entry; typed text is
    // submitted as feedback.
    let mut again = InlinePromptState::new_exit_plan(
        "tool-4".to_string(),
        "Plan.".to_string(),
        "/tmp/plan.md".to_string(),
    );
    again.handle_key(plain_key(KeyCode::Down));
    again.handle_key(plain_key(KeyCode::Enter));
    assert!(again.input_mode);
    for c in "needs work".chars() {
        again.handle_key(plain_key(KeyCode::Character(c)));
    }
    match again.handle_key(plain_key(KeyCode::Enter)) {
        PromptAction::Submit(PromptResponse::ExitPlanFeedback(text)) => {
            assert_eq!(text, "needs work")
        },
        other => panic!("expected feedback, got {:?}", other),
    }
}

#[test]
fn test_inline_prompt_empty_header_fallback() {
    let question = UserQuestion {
        header: "  ".to_string(),
        question: "   ".to_string(),
        multi_select: false,
        options: vec![],
    };
    let prompt = InlinePromptState::new_ask_user("tool-5".to_string(), vec![question]);
    match &prompt.prompt_type {
        conduit_core::ui::inline_prompt::InlinePromptType::AskUserQuestion { questions } => {
            assert_eq!(questions[0].header, "Q1");
        },
        other => panic!("expected a question prompt, got {:?}", other),
    }
}

#[test]
fn test_footer_context_decision() {
    assert_eq!(
        FooterContext::from_state(ViewMode::Chat, InputMode::Normal, false),
        FooterContext::Empty
    );
    assert_eq!(
        FooterContext::from_state(ViewMode::Chat, InputMode::Normal, true),
        FooterContext::Chat
    );
    assert_eq!(
        FooterContext::from_state(ViewMode::Chat, InputMode::SidebarNavigation, true),
        FooterContext::Sidebar
    );
    assert_eq!(
        FooterContext::from_state(ViewMode::RawEvents, InputMode::Normal, true),
        FooterContext::RawEvents
    );
}

#[test]
fn test_footer_hint_sets() {
    let chat = GlobalFooter::new();
    assert_eq!(chat.hints.len(), 7);
    assert_eq!(chat.hints[0], ("tab", "next tab"));
    let raw = GlobalFooter::for_context(FooterContext::RawEvents);
    assert_eq!(raw.hints.len(), 5);
    let sidebar = GlobalFooter::from_state(ViewMode::Chat, InputMode::SidebarNavigation, true);
    assert_eq!(sidebar.hints.len(), 6);
}

#[test]
fn test_tab_bar_layout_and_hits() {
    let bar = TabBar::new(vec!["one".to_string(), "two".to_string()], 0);
    let layout = bar.layout(200);
    assert_eq!(layout.items.len(), 2);
    assert_eq!(layout.items[0].start, 0);
    assert_eq!(layout.items[1].start, layout.items[0].end);
    assert_eq!(layout.items[1].end, layout.total_width);
    // Everything fits: no scrolling.
    assert_eq!(layout.max_scroll, 0);
    // A column inside the first tab hits it.
    assert_eq!(item_at_offset(&layout, 0), TabBarHitTarget::Tab(0));
    assert_eq!(
        item_at_offset(&layout, layout.items[1].start),
        TabBarHitTarget::Tab(1)
    );
    assert_eq!(item_at_offset(&layout, layout.total_width), TabBarHitTarget::Nothing);
}

#[test]
fn test_tab_bar_scrolling_with_overflow() {
    let tabs: Vec<String> = (0..12).map(|i| format!("session-{i}")).collect();
    let bar = TabBar::new(tabs, 11).with_scroll_offset(0);
    let width: u16 = 40;
    let layout = bar.layout(width);
    assert!(layout.max_scroll > 0);
    // Scrolling right moves forward; the adjusted offset keeps the
    // active (last) tab visible and stays within range.
    let right = bar.scroll_right(width);
    assert!(right > 0);
    assert!(right <= layout.max_scroll);
    let adjusted = bar.adjust_scroll_to_active(width);
    assert!(adjusted <= layout.max_scroll);
    let item = layout.items[11];
    assert!(item.end <= adjusted + layout.visible_width);
    // From there, scrolling left moves back.
    let bar2 = TabBar::new(
        (0..12).map(|i| format!("session-{i}")).collect(),
        11,
    )
    .with_scroll_offset(adjusted);
    let left = bar2.scroll_left(width);
    assert!(left < adjusted);
}

#[test]
fn test_file_kind_detection() {
    assert_eq!(FileKind::from_extension("md"), FileKind::Markdown);
    assert_eq!(FileKind::from_extension("markdown"), FileKind::Markdown);
    assert_eq!(FileKind::from_extension("json"), FileKind::Json);
    assert_eq!(FileKind::from_extension("jsonl"), FileKind::Json);
    assert_eq!(FileKind::from_extension("rs"), FileKind::Rust);
    assert_eq!(FileKind::from_extension("toml"), FileKind::Toml);
    assert_eq!(FileKind::from_extension("yml"), FileKind::Yaml);
    assert_eq!(FileKind::from_extension("txt"), FileKind::PlainText);
    assert_eq!(FileKind::Rust.label(), "rust");
    assert_eq!(FileViewMode::Raw.label(), "raw");
    assert_eq!(FileViewMode::Rendered.label(), "rendered");
}

#[test]
fn test_startup_tool_dialog_gate() {
    let mut gate = StartupToolDialog::new(Tool::Nova);
    assert!(gate.state().is_required);
    assert_eq!(gate.state().tool, Tool::Nova);
    gate.state_mut().insert_char('/');
    assert_eq!(gate.state().input.len(), 1);
}

#[test]
fn test_display_width_counts_columns() {
    assert_eq!(str_display_width("abc"), 3);
    assert_eq!(str_display_width(""), 0);
    // A control character occupies no columns.
    assert_eq!(str_display_width("a\tb"), 2);
}
