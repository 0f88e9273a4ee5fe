use account_picker::account::{AccountKind, AccountSummary};
use account_picker::picker::{AccountPickerWidget, Key};
use account_picker::render::{DisplayLine, SpanStyle};

fn account(id: &str, kind: AccountKind, active: bool, email: Option<&str>, masked: Option<&str>) -> AccountSummary {
    AccountSummary {
        id: id.to_string(),
        label: id.to_uppercase(),
        kind,
        email: email.map(|e| e.to_string()),
        masked_api_key: masked.map(|m| m.to_string()),
        is_active: active,
    }
}

fn spans(line: &DisplayLine) -> Vec<(String, SpanStyle)> {
    line.spans.iter().map(|s| (s.text.clone(), s.style)).collect()
}

fn owned(v: &[(&str, SpanStyle)]) -> Vec<(String, SpanStyle)> {
    v.iter().map(|(t, s)| (t.to_string(), *s)).collect()
}

#[test]
fn lines_of_active_chatgpt_account() {
    let (w, _) = AccountPickerWidget::new(Ok(vec![account(
        "a1",
        AccountKind::ChatGpt,
        true,
        Some("x@y.com"),
        None,
    )]));
    let lines = w.lines();
    assert_eq!(lines.len(), 4);
    assert_eq!(
        spans(&lines[0]),
        owned(&[("Choose which account to use for this session:", SpanStyle::Plain)])
    );
    assert!(lines[1].spans.is_empty());
    assert_eq!(
        spans(&lines[2]),
        owned(&[
            ("> ", SpanStyle::Accent),
            ("A1 (current)", SpanStyle::AccentBold),
            (" ", SpanStyle::Plain),
            ("x@y.com", SpanStyle::Dim),
        ])
    );
    assert_eq!(
        spans(&lines[3]),
        owned(&[("  ", SpanStyle::Plain), ("Add another account", SpanStyle::Plain)])
    );
}

#[test]
fn details_fall_back_to_generic_text() {
    let (mut w, _) = AccountPickerWidget::new(Ok(vec![
        account("c", AccountKind::ChatGpt, false, None, None),
        account("k", AccountKind::ApiKey, false, None, None),
        account("m", AccountKind::ApiKey, false, None, Some("sk-***9")),
    ]));
    w.handle_key_event(Key::Up);
    let lines = w.lines();
    assert_eq!(lines.len(), 6);
    assert_eq!(
        spans(&lines[2]),
        owned(&[
            ("  ", SpanStyle::Plain),
            ("C", SpanStyle::Plain),
            (" ", SpanStyle::Plain),
            ("ChatGPT account", SpanStyle::Dim),
        ])
    );
    assert_eq!(spans(&lines[3])[3], ("API key".to_string(), SpanStyle::Dim));
    assert_eq!(spans(&lines[4])[3], ("sk-***9".to_string(), SpanStyle::Dim));
    assert_eq!(
        spans(&lines[5]),
        owned(&[("> ", SpanStyle::Accent), ("Add another account", SpanStyle::Accent)])
    );
}

#[test]
fn error_is_shown_after_a_blank_line() {
    let (w, _) = AccountPickerWidget::new(Err("network unreachable".to_string()));
    let lines = w.lines();
    assert_eq!(lines.len(), 5);
    assert_eq!(
        spans(&lines[2]),
        owned(&[("> ", SpanStyle::Accent), ("Add another account", SpanStyle::Accent)])
    );
    assert!(lines[3].spans.is_empty());
    assert_eq!(spans(&lines[4]), owned(&[("network unreachable", SpanStyle::Alert)]));
}

#[test]
fn render_entry_marks_only_highlighted_row() {
    let (w, _) = AccountPickerWidget::new(Ok(vec![
        account("a", AccountKind::ChatGpt, false, Some("a@b.c"), None),
        account("b", AccountKind::ChatGpt, false, Some("d@e.f"), None),
    ]));
    assert_eq!(spans(&w.render_entry(0))[0], ("> ".to_string(), SpanStyle::Accent));
    assert_eq!(spans(&w.render_entry(1))[0], ("  ".to_string(), SpanStyle::Plain));
    assert_eq!(spans(&w.render_entry(1))[1], ("B".to_string(), SpanStyle::Plain));
    assert_eq!(spans(&w.render_entry(2))[0], ("  ".to_string(), SpanStyle::Plain));
}
