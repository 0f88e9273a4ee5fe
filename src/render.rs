use vstd::prelude::*;

use crate::account::{AccountKind, AccountSummary};
use crate::picker::AccountPickerWidget;

verus! {

/// How a piece of text is drawn.
#[derive(Clone, Copy, Debug, PartialEq, Eq, Structural)]
pub enum SpanStyle {
    Plain,
    /// The highlighted entry.
    Accent,
    /// The label of the highlighted account.
    AccentBold,
    /// Secondary detail.
    Dim,
    /// An error message.
    Alert,
}

/// A run of text in one style.
#[derive(Debug)]
pub struct StyledSpan {
    pub text: String,
    pub style: SpanStyle,
}

/// One display line, made of styled spans; no spans is a blank line.
#[derive(Debug)]
pub struct DisplayLine {
    pub spans: Vec<StyledSpan>,
}

impl DisplayLine {
    pub open spec fn spans_view(&self) -> Seq<(Seq<char>, SpanStyle)> {
        self.spans@.map_values(|s: StyledSpan| (s.text@, s.style))
    }
}

/// The marker in front of an entry: an arrow on the highlighted one.
pub open spec fn indicator(highlighted: bool) -> Seq<char> {
    if highlighted {
        "> "@
    } else {
        "  "@
    }
}

/// An account's label, marked when it is the active account.
pub open spec fn account_label(a: AccountSummary) -> Seq<char> {
    if a.is_active {
        a.label@ + " (current)"@
    } else {
        a.label@
    }
}

/// The detail shown after the label: the email of a ChatGPT account or the
/// masked key of an API-key account, else a generic description.
pub open spec fn account_detail(a: AccountSummary) -> Seq<char> {
    match a.kind {
        AccountKind::ChatGpt => match a.email {
            Some(e) => e@,
            None => "ChatGPT account"@,
        },
        AccountKind::ApiKey => match a.masked_api_key {
            Some(k) => k@,
            None => "API key"@,
        },
    }
}

pub open spec fn account_line(a: AccountSummary, highlighted: bool) -> Seq<(Seq<char>, SpanStyle)> {
    if highlighted {
        seq![
            (indicator(true), SpanStyle::Accent),
            (account_label(a), SpanStyle::AccentBold),
            (" "@, SpanStyle::Plain),
            (account_detail(a), SpanStyle::Dim),
        ]
    } else {
        seq![
            (indicator(false), SpanStyle::Plain),
            (account_label(a), SpanStyle::Plain),
            (" "@, SpanStyle::Plain),
            (account_detail(a), SpanStyle::Dim),
        ]
    }
}

pub open spec fn add_new_line(highlighted: bool) -> Seq<(Seq<char>, SpanStyle)> {
    if highlighted {
        seq![(indicator(true), SpanStyle::Accent), ("Add another account"@, SpanStyle::Accent)]
    } else {
        seq![(indicator(false), SpanStyle::Plain), ("Add another account"@, SpanStyle::Plain)]
    }
}

/// Entry `i` of the list, with `current` the effective highlight.
pub open spec fn entry_line(accounts: Seq<AccountSummary>, current: nat, i: nat) -> Seq<
    (Seq<char>, SpanStyle),
> {
    if i < accounts.len() {
        account_line(accounts[i as int], current == i)
    } else {
        add_new_line(current == i)
    }
}

/// Everything the picker shows: the instruction, a blank line, one line per
/// entry, and, when there is an error, a blank line and the message.
pub open spec fn picker_lines(
    accounts: Seq<AccountSummary>,
    current: nat,
    error: Option<String>,
) -> Seq<Seq<(Seq<char>, SpanStyle)>> {
    seq![seq![("Choose which account to use for this session:"@, SpanStyle::Plain)], seq![]]
        + Seq::new(accounts.len() + 1, |i: int| entry_line(accounts, current, i as nat))
        + match error {
        Some(e) => seq![seq![], seq![(e@, SpanStyle::Alert)]],
        None => Seq::empty(),
    }
}

fn span(text: &str, style: SpanStyle) -> (r: StyledSpan)
    ensures
        r.text@ == text@,
        r.style == style,
{
    StyledSpan { text: String::from_str(text), style }
}

impl AccountPickerWidget {
    /// The line for entry `index`.
    pub fn render_entry(&self, index: usize) -> (r: DisplayLine)
        requires
            self.wf(),
            index < self.entry_count(),
        ensures
            r.spans_view() == entry_line(
                self.accounts_spec(),
                self.effective_highlight(),
                index as nat,
            ),
    {
        let current = self.current_highlight();
        let accounts = self.accounts();
        if index < accounts.len() {
            let account = &accounts[index];
            let highlighted = current == index;
            let indicator = if highlighted {
                "> "
            } else {
                "  "
            };
            let mut label = account.label.clone();
            if account.is_active {
                label.append(" (current)");
            }
            let detail = match account.kind {
                AccountKind::ChatGpt => match &account.email {
                    Some(e) => e.clone(),
                    None => String::from_str("ChatGPT account"),
                },
                AccountKind::ApiKey => match &account.masked_api_key {
                    Some(k) => k.clone(),
                    None => String::from_str("API key"),
                },
            };
            let (indicator_style, label_style) = if highlighted {
                (SpanStyle::Accent, SpanStyle::AccentBold)
            } else {
                (SpanStyle::Plain, SpanStyle::Plain)
            };
            let r = DisplayLine {
                spans: vec![
                    span(indicator, indicator_style),
                    StyledSpan { text: label, style: label_style },
                    span(" ", SpanStyle::Plain),
                    StyledSpan { text: detail, style: SpanStyle::Dim },
                ],
            };
            assert(r.spans_view() =~= entry_line(
                self.accounts_spec(),
                self.effective_highlight(),
                index as nat,
            ));
            r
        } else {
            let highlighted = current == index;
            let r = if highlighted {
                DisplayLine {
                    spans: vec![
                        span("> ", SpanStyle::Accent),
                        span("Add another account", SpanStyle::Accent),
                    ],
                }
            } else {
                DisplayLine {
                    spans: vec![
                        span("  ", SpanStyle::Plain),
                        span("Add another account", SpanStyle::Plain),
                    ],
                }
            };
            assert(r.spans_view() =~= entry_line(
                self.accounts_spec(),
                self.effective_highlight(),
                index as nat,
            ));
            r
        }
    }

    /// All display lines of the picker, in order.
    pub fn lines(&self) -> (r: Vec<DisplayLine>)
        requires
            self.wf(),
        ensures
            r@.len() == picker_lines(
                self.accounts_spec(),
                self.effective_highlight(),
                self.error_spec(),
            ).len(),
            forall|i: int|
                0 <= i < r@.len() ==> #[trigger] r@[i].spans_view() == picker_lines(
                    self.accounts_spec(),
                    self.effective_highlight(),
                    self.error_spec(),
                )[i],
    {
        let ghost want = picker_lines(
            self.accounts_spec(),
            self.effective_highlight(),
            self.error_spec(),
        );
        let mut lines: Vec<DisplayLine> = Vec::new();
        lines.push(
            DisplayLine {
                spans: vec![
                    span("Choose which account to use for this session:", SpanStyle::Plain),
                ],
            },
        );
        lines.push(DisplayLine { spans: Vec::new() });
        assert(lines@[0].spans_view() =~= want[0]);
        assert(lines@[1].spans_view() =~= want[1]);
        let total = self.total_entries();
        let mut index: usize = 0;
        while index < total
            invariant
                self.wf(),
                total == self.entry_count(),
                index <= total,
                want == picker_lines(
                    self.accounts_spec(),
                    self.effective_highlight(),
                    self.error_spec(),
                ),
                lines@.len() == 2 + index,
                forall|i: int| 0 <= i < lines@.len() ==> #[trigger] lines@[i].spans_view() == want[i],
            decreases total - index,
        {
            let line = self.render_entry(index);
            lines.push(line);
            index = index + 1;
        }
        match self.error() {
            Some(e) => {
                lines.push(DisplayLine { spans: Vec::new() });
                lines.push(
                    DisplayLine {
                        spans: vec![StyledSpan { text: e.clone(), style: SpanStyle::Alert }],
                    },
                );
                let k = lines.len() - 2;
                assert(lines@[k as int].spans_view() =~= want[k as int]);
                assert(lines@[k + 1].spans_view() =~= want[k + 1]);
            },
            None => {},
        }
        lines
    }
}

} // verus!
