use vstd::prelude::*;

use vstd::string::StringSliceAdditionalSpecFns;

use crate::text::{chars_equal, chars_of, push_decimal, decimal, string_of};
use crate::theme::{ColorRole, ColorSpec, plain, tinted};

verus! {

/// A `", "` separator starts at byte `i`.
pub open spec fn sep_at(t: Seq<u8>, i: int) -> bool {
    0 <= i && i + 1 < t.len() && t[i] == 44u8 && t[i + 1] == 32u8
}

/// `[s, e)` is one of the entries of a `", "`-separated list: it starts the
/// text or follows a separator, holds no separator, and ends at one or at
/// the end of the text.
pub open spec fn is_entry(t: Seq<u8>, s: int, e: int) -> bool {
    &&& 0 <= s <= e <= t.len()
    &&& (s == 0 || sep_at(t, s - 2))
    &&& forall|k: int| s <= k < e ==> !sep_at(t, k)
    &&& (e == t.len() || sep_at(t, e))
}

/// Finds the byte range of the first entry of a comma-separated branch list
/// that equals the selected entry.
pub fn history_selected_branch_entry_range(branches_text: &str, selected_branch_entry_text: &str) -> (r:
    Option<std::ops::Range<usize>>)
    ensures
        match r {
            Some(rg) => is_entry(branches_text.spec_bytes(), rg.start as int, rg.end as int)
                && branches_text.spec_bytes().subrange(rg.start as int, rg.end as int)
                == selected_branch_entry_text.spec_bytes() && forall|s: int, e: int|
                is_entry(branches_text.spec_bytes(), s, e) && s < rg.start
                    ==> branches_text.spec_bytes().subrange(s, e) != selected_branch_entry_text.spec_bytes(),
            None => forall|s: int, e: int|
                is_entry(branches_text.spec_bytes(), s, e) ==> branches_text.spec_bytes().subrange(s, e)
                    != selected_branch_entry_text.spec_bytes(),
        },
{
    let t = branches_text.as_bytes();
    let sel = selected_branch_entry_text.as_bytes();
    let ghost tv = t@;
    let ghost sv = sel@;
    let n = t.len();
    let mut start: usize = 0;
    loop
        invariant
            tv == t@,
            sv == sel@,
            tv == branches_text.spec_bytes(),
            sv == selected_branch_entry_text.spec_bytes(),
            n == t@.len(),
            start <= n,
            start == 0 || sep_at(tv, start - 2),
            forall|s: int, e: int| is_entry(tv, s, e) && s < start ==> tv.subrange(s, e) != sv,
        decreases n - start,
    {
        let mut end = start;
        while end < n && !(end + 1 < n && t[end] == 44u8 && t[end + 1] == 32u8)
            invariant
                tv == t@,
                n == t@.len(),
                start <= end <= n,
                forall|k: int| start <= k < end ==> !sep_at(tv, k),
            decreases n - end,
        {
            end = end + 1;
        }
        assert(is_entry(tv, start as int, end as int));
        // Compare the entry with the selection.
        let mut same = end - start == sel.len();
        if same {
            let mut k: usize = 0;
            while k < sel.len()
                invariant
                    tv == t@,
                    sv == sel@,
                    start <= end <= n,
                    n == t@.len(),
                    end - start == sel@.len(),
                    k <= sel@.len(),
                    same ==> forall|j: int| 0 <= j < k ==> tv[start + j] == sv[j],
                    !same ==> tv.subrange(start as int, end as int) != sv,
                decreases sel@.len() - k,
            {
                if t[start + k] != sel[k] {
                    same = false;
                    assert(tv.subrange(start as int, end as int)[k as int] != sv[k as int]);
                    proof {
                        assert(tv.subrange(start as int, end as int) != sv);
                    }
                }
                k = k + 1;
            }
            if same {
                assert(tv.subrange(start as int, end as int) =~= sv);
            }
        }
        if same {
            assert(tv.subrange(start as int, end as int) =~= sv);
            let rg = std::ops::Range { start: start, end: end };
            assert(rg.start == start && rg.end == end);
            return Some(rg);
        }
        proof {
            if end - start != sv.len() {
                assert(tv.subrange(start as int, end as int).len() != sv.len());
            }
            assert forall|s: int, e: int| is_entry(tv, s, e) && s < end + 2 implies tv.subrange(s, e) != sv by {
                if s < start {
                } else if s == start {
                    if e < end {
                        assert(sep_at(tv, e));
                    } else if e > end {
                        assert(!sep_at(tv, end as int));
                    }
                } else {
                    if s - 2 >= start && s - 2 < end {
                        assert(!sep_at(tv, s - 2));
                    } else if s - 2 == end {
                    } else if s - 2 == end + 1 {
                        assert(sep_at(tv, end as int));
                    }
                }
            }
        }
        if end >= n {
            proof {
                assert forall|s: int, e: int| is_entry(tv, s, e) implies tv.subrange(s, e) != sv by {
                }
            }
            return None;
        }
        start = end + 2;
    }
}


/// The kinds of rows a rendered markdown preview is made of.
#[derive(Clone, Copy, Debug, PartialEq, Eq, Structural)]
pub enum MarkdownPreviewRowKind {
    Heading { level: u8 },
    Paragraph,
    ListItem { number: Option<u64> },
    CodeLine { is_first: bool, is_last: bool },
    TableRow { is_header: bool },
    BlockquoteLine,
    DetailsSummary,
    ThematicBreak,
    Spacer,
    PlainFallback,
}

/// GitHub alert blocks.
#[derive(Clone, Copy, Debug, PartialEq, Eq, Structural)]
pub enum MarkdownAlertKind {
    Note,
    Tip,
    Important,
    Warning,
    Caution,
}

/// How a row of a markdown diff preview changed.
#[derive(Clone, Copy, Debug, PartialEq, Eq, Structural)]
pub enum MarkdownChangeHint {
    Unchanged,
    Added,
    Removed,
    Modified,
}

/// Inline styles of markdown text.
#[derive(Clone, Copy, Debug, PartialEq, Eq, Structural)]
pub enum MarkdownInlineStyle {
    Normal,
    Bold,
    Italic,
    BoldItalic,
    Code,
    Strikethrough,
    Link,
    Underline,
}

/// A styled byte range of a row's text.
#[derive(Clone, Copy, Debug, PartialEq, Eq, Structural)]
pub struct MarkdownInlineSpan {
    pub start: usize,
    pub end: usize,
    pub style: MarkdownInlineStyle,
}

/// One row of a markdown preview, as the row renderer reads it.
#[derive(Clone, Debug)]
pub struct MarkdownPreviewRow {
    pub kind: MarkdownPreviewRowKind,
    pub text: String,
    pub inline_spans: Vec<MarkdownInlineSpan>,
    pub change_hint: MarkdownChangeHint,
    pub indent_level: u8,
    pub blockquote_level: u8,
    pub footnote_label: Option<String>,
    pub alert_kind: Option<MarkdownAlertKind>,
    pub starts_alert: bool,
}

/// The marker text before a row: a footnote label first, then the
/// disclosure mark of a details summary, the number of an ordered item or
/// the bullet of an unordered one.
pub open spec fn row_marker(row: MarkdownPreviewRow) -> Option<Seq<char>> {
    match row.footnote_label {
        Some(label) => Some("[^"@ + label@ + "]:"@),
        None => match row.kind {
            MarkdownPreviewRowKind::DetailsSummary => Some("v"@),
            MarkdownPreviewRowKind::ListItem { number: Some(n) } => Some(decimal(n as nat).push('.')),
            MarkdownPreviewRowKind::ListItem { number: None } => Some(seq!['\u{2022}']),
            _ => None,
        },
    }
}

pub fn markdown_preview_row_marker(row: &MarkdownPreviewRow) -> (r: Option<String>)
    ensures
        match r {
            Some(m) => row_marker(*row) == Some(m@),
            None => row_marker(*row) is None,
        },
{
    if let Some(label) = &row.footnote_label {
        let mut out = chars_of("[^");
        let l = chars_of(label.as_str());
        let mut i: usize = 0;
        let ghost base = out@;
        while i < l.len()
            invariant
                i <= l@.len(),
                out@ == base + l@.subrange(0, i as int),
            decreases l@.len() - i,
        {
            out.push(l[i]);
            i = i + 1;
            assert(out@ =~= base + l@.subrange(0, i as int));
        }
        out.push(']');
        out.push(':');
        proof {
            reveal_strlit("]:");
            assert(l@.subrange(0, l@.len() as int) =~= l@);
            assert(out@ =~= "[^"@ + label@ + "]:"@);
        }
        return Some(string_of(out));
    }
    match row.kind {
        MarkdownPreviewRowKind::DetailsSummary => Some(String::from_str("v")),
        MarkdownPreviewRowKind::ListItem { number: Some(n) } => {
            let mut out: Vec<char> = Vec::new();
            push_decimal(&mut out, n);
            out.push('.');
            assert(out@ =~= decimal(n as nat).push('.'));
            Some(string_of(out))
        },
        MarkdownPreviewRowKind::ListItem { number: None } => {
            let out: Vec<char> = vec!['\u{2022}'];
            assert(out@ =~= seq!['\u{2022}']);
            Some(string_of(out))
        },
        _ => None,
    }
}

/// The badge title of the first row of an alert block.
pub open spec fn alert_title(row: MarkdownPreviewRow) -> Option<Seq<char>> {
    if !row.starts_alert {
        None
    } else {
        match row.alert_kind {
            None => None,
            Some(MarkdownAlertKind::Note) => Some("NOTE"@),
            Some(MarkdownAlertKind::Tip) => Some("TIP"@),
            Some(MarkdownAlertKind::Important) => Some("IMPORTANT"@),
            Some(MarkdownAlertKind::Warning) => Some("WARNING"@),
            Some(MarkdownAlertKind::Caution) => Some("CAUTION"@),
        }
    }
}

pub fn markdown_preview_alert_title_label(row: &MarkdownPreviewRow) -> (r: Option<&'static str>)
    ensures
        match r {
            Some(t) => alert_title(*row) == Some(t@),
            None => alert_title(*row) is None,
        },
{
    if !row.starts_alert {
        return None;
    }
    match row.alert_kind {
        None => None,
        Some(MarkdownAlertKind::Note) => Some("NOTE"),
        Some(MarkdownAlertKind::Tip) => Some("TIP"),
        Some(MarkdownAlertKind::Important) => Some("IMPORTANT"),
        Some(MarkdownAlertKind::Warning) => Some("WARNING"),
        Some(MarkdownAlertKind::Caution) => Some("CAUTION"),
    }
}

pub open spec fn alert_color(kind: MarkdownAlertKind) -> ColorSpec {
    match kind {
        MarkdownAlertKind::Note => plain(ColorRole::Accent),
        MarkdownAlertKind::Tip => plain(ColorRole::Success),
        MarkdownAlertKind::Important => tinted(ColorRole::Accent, 85),
        MarkdownAlertKind::Warning => plain(ColorRole::Warning),
        MarkdownAlertKind::Caution => plain(ColorRole::Danger),
    }
}

/// The color of an alert block's bar, badge and tint.
pub fn markdown_preview_alert_color(kind: MarkdownAlertKind) -> (r: ColorSpec)
    ensures
        r == alert_color(kind),
{
    match kind {
        MarkdownAlertKind::Note => ColorSpec { role: ColorRole::Accent, alpha_percent: None },
        MarkdownAlertKind::Tip => ColorSpec { role: ColorRole::Success, alpha_percent: None },
        MarkdownAlertKind::Important => ColorSpec { role: ColorRole::Accent, alpha_percent: Some(85) },
        MarkdownAlertKind::Warning => ColorSpec { role: ColorRole::Warning, alpha_percent: None },
        MarkdownAlertKind::Caution => ColorSpec { role: ColorRole::Danger, alpha_percent: None },
    }
}

pub open spec fn quote_bar_color(is_dark: bool) -> ColorSpec {
    tinted(ColorRole::Border, if is_dark { 96 } else { 86 })
}

/// The gutter of a blockquote row: its bars' colors, outermost first, and
/// their measures in hundredths of a pixel.
#[derive(Clone, Debug, PartialEq, Eq)]
pub struct BlockquoteGutter {
    pub bars: Vec<ColorSpec>,
    pub bar_width: u64,
    pub bar_radius: u64,
    pub gap: u64,
    pub margin_right: u64,
}

/// The bars left of a blockquote row, outermost first: one per nesting
/// level, the innermost in the alert's color when the quote is an alert.
/// Each bar is 4 design pixels wide with corners rounded by 2, the bars
/// stand 8 apart and the gutter keeps 12 to its right; all these are given
/// in hundredths of a pixel at a UI scale of `ui_scale_percent` percent.
pub fn markdown_preview_blockquote_gutter(
    is_dark: bool,
    blockquote_level: u8,
    alert_kind: Option<MarkdownAlertKind>,
    ui_scale_percent: u32,
) -> (r: Option<BlockquoteGutter>)
    ensures
        blockquote_level == 0 <==> r is None,
        r matches Some(g) ==> g.bar_width == 4 * ui_scale_percent && g.bar_radius == 2 * ui_scale_percent && g.gap
            == 8 * ui_scale_percent && g.margin_right == 12 * ui_scale_percent,
        r matches Some(g) ==> g.bars@.len() == blockquote_level && forall|i: int|
            0 <= i < g.bars@.len() ==> #[trigger] g.bars@[i] == (if i + 1 == blockquote_level && alert_kind is Some {
                alert_color(alert_kind->0)
            } else {
                quote_bar_color(is_dark)
            }),
{
    if blockquote_level == 0 {
        return None;
    }
    let quote = ColorSpec { role: ColorRole::Border, alpha_percent: Some(if is_dark { 96 } else { 86 }) };
    let mut bars: Vec<ColorSpec> = Vec::new();
    let mut ix: u8 = 0;
    while ix < blockquote_level
        invariant
            ix <= blockquote_level,
            bars@.len() == ix,
            quote == quote_bar_color(is_dark),
            forall|i: int|
                0 <= i < ix ==> #[trigger] bars@[i] == (if i + 1 == blockquote_level && alert_kind is Some {
                    alert_color(alert_kind->0)
                } else {
                    quote_bar_color(is_dark)
                }),
        decreases blockquote_level - ix,
    {
        let color = if ix + 1 == blockquote_level {
            match alert_kind {
                Some(kind) => markdown_preview_alert_color(kind),
                None => quote,
            }
        } else {
            quote
        };
        bars.push(color);
        ix = ix + 1;
    }
    let p = ui_scale_percent as u64;
    Some(BlockquoteGutter { bars, bar_width: 4 * p, bar_radius: 2 * p, gap: 8 * p, margin_right: 12 * p })
}

/// The row tint: a change tint first (added, removed, modified), then an
/// alert's tint, then the warning tint of rows shown as plain fallback text.
pub open spec fn row_background(is_dark: bool, row: MarkdownPreviewRow) -> Option<ColorSpec> {
    match row.change_hint {
        MarkdownChangeHint::Added => Some(tinted(ColorRole::Success, if is_dark { 18 } else { 12 })),
        MarkdownChangeHint::Removed => Some(tinted(ColorRole::Danger, if is_dark { 16 } else { 10 })),
        MarkdownChangeHint::Modified => Some(tinted(ColorRole::Accent, if is_dark { 18 } else { 10 })),
        MarkdownChangeHint::Unchanged => match row.alert_kind {
            Some(kind) => Some(ColorSpec {
                role: alert_color(kind).role,
                alpha_percent: Some(if is_dark { 10 } else { 6 }),
            }),
            None => match row.kind {
                MarkdownPreviewRowKind::PlainFallback => Some(tinted(ColorRole::Warning, if is_dark { 8 } else { 6 })),
                _ => None,
            },
        },
    }
}

pub fn markdown_preview_row_background(is_dark: bool, row: &MarkdownPreviewRow) -> (r: Option<ColorSpec>)
    ensures
        r == row_background(is_dark, *row),
{
    match row.change_hint {
        MarkdownChangeHint::Added => Some(ColorSpec { role: ColorRole::Success, alpha_percent: Some(if is_dark { 18 } else { 12 }) }),
        MarkdownChangeHint::Removed => Some(ColorSpec { role: ColorRole::Danger, alpha_percent: Some(if is_dark { 16 } else { 10 }) }),
        MarkdownChangeHint::Modified => Some(ColorSpec { role: ColorRole::Accent, alpha_percent: Some(if is_dark { 18 } else { 10 }) }),
        MarkdownChangeHint::Unchanged => {
            if let Some(kind) = row.alert_kind {
                let base = markdown_preview_alert_color(kind);
                return Some(ColorSpec { role: base.role, alpha_percent: Some(if is_dark { 10 } else { 6 }) });
            }
            match row.kind {
                MarkdownPreviewRowKind::PlainFallback => Some(ColorSpec { role: ColorRole::Warning, alpha_percent: Some(if is_dark { 8 } else { 6 }) }),
                _ => None,
            }
        },
    }
}

/// A change tint wins over the alert and fallback tints: rows with the same
/// change hint get the same background whatever else they are.
pub proof fn change_hint_decides_background(is_dark: bool, a: MarkdownPreviewRow, b: MarkdownPreviewRow)
    requires
        a.change_hint == b.change_hint,
        a.change_hint != MarkdownChangeHint::Unchanged,
    ensures
        row_background(is_dark, a) == row_background(is_dark, b),
        row_background(is_dark, a) is Some,
{
}

/// The text color of a row.
pub open spec fn row_text_color(row: MarkdownPreviewRow) -> ColorRole {
    if row.alert_kind is Some {
        ColorRole::Text
    } else {
        match row.kind {
            MarkdownPreviewRowKind::Heading { level } => if level == 6 { ColorRole::TextMuted } else { ColorRole::Text },
            MarkdownPreviewRowKind::BlockquoteLine | MarkdownPreviewRowKind::ThematicBreak => ColorRole::TextMuted,
            MarkdownPreviewRowKind::PlainFallback => ColorRole::Warning,
            _ => ColorRole::Text,
        }
    }
}

pub fn markdown_preview_row_text_color(row: &MarkdownPreviewRow) -> (r: ColorRole)
    ensures
        r == row_text_color(*row),
{
    if row.alert_kind.is_some() {
        return ColorRole::Text;
    }
    match row.kind {
        MarkdownPreviewRowKind::Heading { level } => if level == 6 { ColorRole::TextMuted } else { ColorRole::Text },
        MarkdownPreviewRowKind::BlockquoteLine | MarkdownPreviewRowKind::ThematicBreak => ColorRole::TextMuted,
        MarkdownPreviewRowKind::PlainFallback => ColorRole::Warning,
        _ => ColorRole::Text,
    }
}

/// Vertical insets of a row, in design pixels.
#[derive(Clone, Copy, Debug, PartialEq, Eq, Structural)]
pub struct MarkdownPreviewRowLayout {
    pub top_inset_px: u32,
    pub bottom_inset_px: u32,
}

pub open spec fn row_layout(kind: MarkdownPreviewRowKind) -> (u32, u32) {
    match kind {
        MarkdownPreviewRowKind::Heading { level } => if level == 1 || level == 2 {
            (0, 0)
        } else if level == 3 {
            (2, 4)
        } else {
            (2, 6)
        },
        MarkdownPreviewRowKind::DetailsSummary => (0, 0),
        MarkdownPreviewRowKind::Paragraph => (2, 6),
        MarkdownPreviewRowKind::BlockquoteLine => (2, 6),
        MarkdownPreviewRowKind::ListItem { .. } => (0, 0),
        MarkdownPreviewRowKind::CodeLine { is_first, is_last } => (
            if is_first { 5 } else { 0 },
            if is_last { 5 } else { 0 },
        ),
        MarkdownPreviewRowKind::ThematicBreak => (6, 6),
        MarkdownPreviewRowKind::Spacer => (0, 0),
        MarkdownPreviewRowKind::TableRow { .. } | MarkdownPreviewRowKind::PlainFallback => (2, 2),
    }
}

pub fn markdown_preview_row_layout(row: &MarkdownPreviewRow) -> (r: MarkdownPreviewRowLayout)
    ensures
        (r.top_inset_px, r.bottom_inset_px) == row_layout(row.kind),
{
    let (top, bottom): (u32, u32) = match row.kind {
        MarkdownPreviewRowKind::Heading { level } => if level == 1 || level == 2 {
            (0, 0)
        } else if level == 3 {
            (2, 4)
        } else {
            (2, 6)
        },
        MarkdownPreviewRowKind::DetailsSummary => (0, 0),
        MarkdownPreviewRowKind::Paragraph => (2, 6),
        MarkdownPreviewRowKind::BlockquoteLine => (2, 6),
        MarkdownPreviewRowKind::ListItem { .. } => (0, 0),
        MarkdownPreviewRowKind::CodeLine { is_first, is_last } => (
            if is_first { 5 } else { 0 },
            if is_last { 5 } else { 0 },
        ),
        MarkdownPreviewRowKind::ThematicBreak => (6, 6),
        MarkdownPreviewRowKind::Spacer => (0, 0),
        MarkdownPreviewRowKind::TableRow { .. } | MarkdownPreviewRowKind::PlainFallback => (2, 2),
    };
    MarkdownPreviewRowLayout { top_inset_px: top, bottom_inset_px: bottom }
}

/// Text metrics of a row, in design pixels.
#[derive(Clone, Debug)]
pub struct MarkdownPreviewRowTypography {
    pub font_size: u32,
    pub line_height: u32,
    pub bold: bool,
    /// The editor's monospace family for code, tables and fallback text;
    /// the interface font otherwise.
    pub font_family: Option<String>,
    pub text_color: ColorRole,
}

/// Font size, line height, weight and whether the editor font applies.
pub open spec fn row_type_metrics(kind: MarkdownPreviewRowKind) -> (u32, u32, bool, bool) {
    match kind {
        MarkdownPreviewRowKind::Heading { level } => if level == 1 {
            (28, 28, true, false)
        } else if level == 2 {
            (24, 24, true, false)
        } else if level == 3 {
            (20, 22, true, false)
        } else if level == 4 {
            (18, 20, true, false)
        } else if level == 5 {
            (16, 18, true, false)
        } else if level == 6 {
            (14, 16, true, false)
        } else {
            (13, 20, false, false)
        },
        MarkdownPreviewRowKind::DetailsSummary => (13, 28, true, false),
        MarkdownPreviewRowKind::ListItem { .. } => (13, 20, false, false),
        MarkdownPreviewRowKind::CodeLine { .. } => (12, 18, false, true),
        MarkdownPreviewRowKind::TableRow { is_header } => (12, 18, is_header, true),
        MarkdownPreviewRowKind::PlainFallback => (12, 18, false, true),
        _ => (13, 20, false, false),
    }
}

pub fn markdown_preview_row_typography(row: &MarkdownPreviewRow, editor_font_family: &str) -> (r:
    MarkdownPreviewRowTypography)
    ensures
        (r.font_size, r.line_height, r.bold, r.font_family is Some) == row_type_metrics(row.kind),
        r.font_family matches Some(f) ==> f@ == editor_font_family@,
        r.text_color == row_text_color(*row),
{
    let text_color = markdown_preview_row_text_color(row);
    let (font_size, line_height, bold, editor): (u32, u32, bool, bool) = match row.kind {
        MarkdownPreviewRowKind::Heading { level } => if level == 1 {
            (28, 28, true, false)
        } else if level == 2 {
            (24, 24, true, false)
        } else if level == 3 {
            (20, 22, true, false)
        } else if level == 4 {
            (18, 20, true, false)
        } else if level == 5 {
            (16, 18, true, false)
        } else if level == 6 {
            (14, 16, true, false)
        } else {
            (13, 20, false, false)
        },
        MarkdownPreviewRowKind::DetailsSummary => (13, 28, true, false),
        MarkdownPreviewRowKind::ListItem { .. } => (13, 20, false, false),
        MarkdownPreviewRowKind::CodeLine { .. } => (12, 18, false, true),
        MarkdownPreviewRowKind::TableRow { is_header } => (12, 18, is_header, true),
        MarkdownPreviewRowKind::PlainFallback => (12, 18, false, true),
        _ => (13, 20, false, false),
    };
    let font_family = if editor { Some(String::from_str(editor_font_family)) } else { None };
    MarkdownPreviewRowTypography { font_size, line_height, bold, font_family, text_color }
}

/// Headings are set larger the higher their rank, all above body text,
/// and bold.
pub proof fn heading_sizes_rank(a: u8, b: u8)
    requires
        1 <= a < b <= 6,
    ensures
        row_type_metrics(MarkdownPreviewRowKind::Heading { level: a }).0 > row_type_metrics(
            MarkdownPreviewRowKind::Heading { level: b },
        ).0,
        row_type_metrics(MarkdownPreviewRowKind::Heading { level: b }).0 > row_type_metrics(
            MarkdownPreviewRowKind::Paragraph,
        ).0,
        row_type_metrics(MarkdownPreviewRowKind::Heading { level: a }).2,
{
}

/// Horizontal padding of a row, in design pixels.
#[derive(Clone, Copy, Debug, PartialEq, Eq, Structural)]
pub struct MarkdownPreviewRowHorizontalPadding {
    pub left_px: u32,
    pub right_px: u32,
}

/// Code blocks ignore list indentation and keep a small edge gap; other
/// rows indent one step per level beyond the first.
pub open spec fn row_padding(kind: MarkdownPreviewRowKind, indent_level: u8) -> (int, int) {
    match kind {
        MarkdownPreviewRowKind::CodeLine { .. } => (8, 8),
        _ => (18 + 24 * (if indent_level > 0 { indent_level - 1 } else { 0 }), 18),
    }
}

pub fn markdown_preview_row_horizontal_padding(row: &MarkdownPreviewRow) -> (r: MarkdownPreviewRowHorizontalPadding)
    ensures
        (r.left_px as int, r.right_px as int) == row_padding(row.kind, row.indent_level),
{
    match row.kind {
        MarkdownPreviewRowKind::CodeLine { .. } => MarkdownPreviewRowHorizontalPadding { left_px: 8, right_px: 8 },
        _ => {
            let steps: u32 = if row.indent_level > 0 { (row.indent_level - 1) as u32 } else { 0 };
            MarkdownPreviewRowHorizontalPadding { left_px: 18 + 24 * steps, right_px: 18 }
        },
    }
}

/// The background of code blocks.
pub fn markdown_preview_code_background(is_dark: bool) -> (r: ColorSpec)
    ensures
        r == (if is_dark { tinted(ColorRole::SurfaceBgElevated, 88) } else { tinted(ColorRole::SurfaceBg, 86) }),
{
    if is_dark {
        ColorSpec { role: ColorRole::SurfaceBgElevated, alpha_percent: Some(88) }
    } else {
        ColorSpec { role: ColorRole::SurfaceBg, alpha_percent: Some(86) }
    }
}

/// The height of a preview row, in hundredths of a pixel, at a UI scale
/// given in percent: 28 design pixels, scaled.
pub fn markdown_preview_row_height(ui_scale_percent: u32) -> (r: u64)
    ensures
        r == 28 * ui_scale_percent,
{
    28 * (ui_scale_percent as u64)
}

// ---------------------------------------------------------------------------
// Inline styles of markdown text.
// ---------------------------------------------------------------------------

/// How a span of markdown text is drawn, beyond the row's own style.
#[derive(Clone, Copy, Debug, PartialEq, Eq, Structural)]
pub struct MarkdownHighlight {
    pub bold: bool,
    pub italic: bool,
    pub color: Option<ColorSpec>,
    pub background: Option<ColorSpec>,
    pub strikethrough: Option<ColorSpec>,
    pub underline: Option<ColorSpec>,
}

pub open spec fn no_highlight() -> MarkdownHighlight {
    MarkdownHighlight {
        bold: false,
        italic: false,
        color: None,
        background: None,
        strikethrough: None,
        underline: None,
    }
}

pub open spec fn inline_highlight(is_dark: bool, style: MarkdownInlineStyle) -> MarkdownHighlight {
    let none = no_highlight();
    match style {
        MarkdownInlineStyle::Normal => none,
        MarkdownInlineStyle::Bold => MarkdownHighlight { bold: true, ..none },
        MarkdownInlineStyle::Italic => MarkdownHighlight { italic: true, ..none },
        MarkdownInlineStyle::BoldItalic => MarkdownHighlight { bold: true, italic: true, ..none },
        MarkdownInlineStyle::Code => MarkdownHighlight {
            background: Some(tinted(ColorRole::ActiveSection, if is_dark { 75 } else { 55 })),
            ..none
        },
        MarkdownInlineStyle::Strikethrough => MarkdownHighlight {
            color: Some(plain(ColorRole::TextMuted)),
            strikethrough: Some(plain(ColorRole::TextMuted)),
            ..none
        },
        MarkdownInlineStyle::Link => MarkdownHighlight {
            color: Some(plain(ColorRole::Accent)),
            underline: Some(plain(ColorRole::Accent)),
            ..none
        },
        MarkdownInlineStyle::Underline => MarkdownHighlight {
            underline: Some(plain(ColorRole::Text)),
            ..none
        },
    }
}

/// The highlight of an inline style.
pub fn markdown_preview_inline_highlight(is_dark: bool, style: MarkdownInlineStyle) -> (r:
    MarkdownHighlight)
    ensures
        r == inline_highlight(is_dark, style),
{
    let none = MarkdownHighlight {
        bold: false,
        italic: false,
        color: None,
        background: None,
        strikethrough: None,
        underline: None,
    };
    match style {
        MarkdownInlineStyle::Normal => none,
        MarkdownInlineStyle::Bold => MarkdownHighlight { bold: true, ..none },
        MarkdownInlineStyle::Italic => MarkdownHighlight { italic: true, ..none },
        MarkdownInlineStyle::BoldItalic => MarkdownHighlight { bold: true, italic: true, ..none },
        MarkdownInlineStyle::Code => MarkdownHighlight {
            background: Some(
                ColorSpec { role: ColorRole::ActiveSection, alpha_percent: Some(if is_dark { 75 } else { 55 }) },
            ),
            ..none
        },
        MarkdownInlineStyle::Strikethrough => MarkdownHighlight {
            color: Some(ColorSpec { role: ColorRole::TextMuted, alpha_percent: None }),
            strikethrough: Some(ColorSpec { role: ColorRole::TextMuted, alpha_percent: None }),
            ..none
        },
        MarkdownInlineStyle::Link => MarkdownHighlight {
            color: Some(ColorSpec { role: ColorRole::Accent, alpha_percent: None }),
            underline: Some(ColorSpec { role: ColorRole::Accent, alpha_percent: None }),
            ..none
        },
        MarkdownInlineStyle::Underline => MarkdownHighlight {
            underline: Some(ColorSpec { role: ColorRole::Text, alpha_percent: None }),
            ..none
        },
    }
}

/// Only normal text is drawn without a highlight; only bold and italic
/// change the width of text.
pub proof fn only_normal_text_is_unhighlighted(is_dark: bool, style: MarkdownInlineStyle)
    ensures
        (inline_highlight(is_dark, style) == no_highlight()) <==> style == MarkdownInlineStyle::Normal,
        (inline_highlight(is_dark, style).bold || inline_highlight(is_dark, style).italic) <==> (
        style == MarkdownInlineStyle::Bold || style == MarkdownInlineStyle::Italic || style
            == MarkdownInlineStyle::BoldItalic),
{
}

/// A highlighted byte range of a row's text.
#[derive(Clone, Copy, Debug, PartialEq, Eq, Structural)]
pub struct StyledRange {
    pub start: usize,
    pub end: usize,
    pub highlight: MarkdownHighlight,
}

/// The spans of a row that get a highlight, in order: those whose style
/// changes the text's width when `width_only` is set, else all but normal
/// text.
pub open spec fn styled_spans(is_dark: bool, spans: Seq<MarkdownInlineSpan>, width_only: bool) -> Seq<
    StyledRange,
>
    decreases spans.len(),
{
    if spans.len() == 0 {
        seq![]
    } else {
        let prev = styled_spans(is_dark, spans.drop_last(), width_only);
        let span = spans.last();
        let h = inline_highlight(is_dark, span.style);
        let keep = if width_only { h.bold || h.italic } else { h != no_highlight() };
        if keep {
            prev.push(StyledRange { start: span.start, end: span.end, highlight: h })
        } else {
            prev
        }
    }
}

fn collect_styled_spans(is_dark: bool, spans: &Vec<MarkdownInlineSpan>, width_only: bool) -> (r: Vec<
    StyledRange,
>)
    ensures
        r@ == styled_spans(is_dark, spans@, width_only),
{
    let mut out: Vec<StyledRange> = Vec::new();
    let mut i: usize = 0;
    while i < spans.len()
        invariant
            i <= spans@.len(),
            out@ == styled_spans(is_dark, spans@.subrange(0, i as int), width_only),
        decreases spans@.len() - i,
    {
        let span = spans[i];
        let h = markdown_preview_inline_highlight(is_dark, span.style);
        let keep = if width_only {
            h.bold || h.italic
        } else {
            !(!h.bold && !h.italic && h.color.is_none() && h.background.is_none() && h.strikethrough.is_none()
                && h.underline.is_none())
        };
        if keep {
            out.push(StyledRange { start: span.start, end: span.end, highlight: h });
        }
        proof {
            assert(spans@.subrange(0, i + 1).drop_last() =~= spans@.subrange(0, i as int));
        }
        i = i + 1;
    }
    assert(spans@.subrange(0, spans@.len() as int) =~= spans@);
    out
}

/// The highlights that change how wide a row's text is set.
pub fn markdown_preview_width_affecting_highlights(is_dark: bool, row: &MarkdownPreviewRow) -> (r: Vec<
    StyledRange,
>)
    ensures
        r@ == styled_spans(is_dark, row.inline_spans@, true),
{
    collect_styled_spans(is_dark, &row.inline_spans, true)
}

/// How a row's text is styled: code lines take the syntax highlighting of
/// the diff text; other rows take the highlights of their inline spans.
#[derive(Clone, Debug)]
pub enum MarkdownRowStyling {
    SyntaxHighlighted,
    Inline(Vec<StyledRange>),
}

pub fn markdown_preview_row_styled_text(is_dark: bool, row: &MarkdownPreviewRow) -> (r: MarkdownRowStyling)
    ensures
        match row.kind {
            MarkdownPreviewRowKind::CodeLine { .. } => r is SyntaxHighlighted,
            _ => r matches MarkdownRowStyling::Inline(v) && v@ == styled_spans(
                is_dark,
                row.inline_spans@,
                false,
            ),
        },
{
    if let MarkdownPreviewRowKind::CodeLine { .. } = row.kind {
        return MarkdownRowStyling::SyntaxHighlighted;
    }
    MarkdownRowStyling::Inline(collect_styled_spans(is_dark, &row.inline_spans, false))
}

// ---------------------------------------------------------------------------
// Text runs.
// ---------------------------------------------------------------------------

/// A run of text in one style: `highlight` is `None` for the row's own style.
#[derive(Clone, Copy, Debug, PartialEq, Eq, Structural)]
pub struct TextRun {
    pub len: usize,
    pub highlight: Option<MarkdownHighlight>,
}

/// The runs for the highlights, each after a plain run that fills the gap
/// before it, and the offset where the last highlight ends.
pub open spec fn runs_through(hs: Seq<StyledRange>) -> (Seq<TextRun>, int)
    decreases hs.len(),
{
    if hs.len() == 0 {
        (seq![], 0)
    } else {
        let (prev, ix) = runs_through(hs.drop_last());
        let h = hs.last();
        let with_gap = if ix < h.start {
            prev.push(TextRun { len: (h.start - ix) as usize, highlight: None })
        } else {
            prev
        };
        let len = if h.start < h.end { h.end - h.start } else { 0 };
        (with_gap.push(TextRun { len: len as usize, highlight: Some(h.highlight) }), h.end as int)
    }
}

/// The runs that lay out a text of `text_len` bytes with the highlights:
/// those of `runs_through`, then a plain run for the rest of the text.
pub open spec fn text_runs(text_len: int, hs: Seq<StyledRange>) -> Seq<TextRun> {
    let (runs, ix) = runs_through(hs);
    if ix < text_len {
        runs.push(TextRun { len: (text_len - ix) as usize, highlight: None })
    } else {
        runs
    }
}

pub fn markdown_preview_text_runs(text: &str, highlights: &Vec<StyledRange>) -> (r: Vec<TextRun>)
    ensures
        r@ == text_runs(text.spec_bytes().len() as int, highlights@),
{
    let text_len = text.as_bytes().len();
    let mut runs: Vec<TextRun> = Vec::new();
    let mut ix: usize = 0;
    let mut i: usize = 0;
    while i < highlights.len()
        invariant
            i <= highlights@.len(),
            (runs@, ix as int) == runs_through(highlights@.subrange(0, i as int)),
        decreases highlights@.len() - i,
    {
        let h = highlights[i];
        if ix < h.start {
            runs.push(TextRun { len: h.start - ix, highlight: None });
        }
        let len = if h.start < h.end { h.end - h.start } else { 0 };
        runs.push(TextRun { len, highlight: Some(h.highlight) });
        ix = h.end;
        proof {
            assert(highlights@.subrange(0, i + 1).drop_last() =~= highlights@.subrange(0, i as int));
        }
        i = i + 1;
    }
    assert(highlights@.subrange(0, highlights@.len() as int) =~= highlights@);
    if ix < text_len {
        runs.push(TextRun { len: text_len - ix, highlight: None });
    }
    runs
}

/// The total length of a sequence of runs.
pub open spec fn runs_len(runs: Seq<TextRun>) -> int
    decreases runs.len(),
{
    if runs.len() == 0 { 0 } else { runs_len(runs.drop_last()) + runs.last().len }
}

/// The highlights are in order, do not overlap and lie inside the text.
pub open spec fn highlights_fit(text_len: int, hs: Seq<StyledRange>) -> bool {
    &&& forall|i: int| 0 <= i < hs.len() ==> #[trigger] hs[i].start <= hs[i].end <= text_len
    &&& forall|i: int, j: int| 0 <= i < j < hs.len() ==> #[trigger] hs[i].end <= #[trigger] hs[j].start
}

proof fn lemma_runs_through_len(hs: Seq<StyledRange>)
    requires
        forall|i: int| 0 <= i < hs.len() ==> #[trigger] hs[i].start <= hs[i].end,
        forall|i: int, j: int| 0 <= i < j < hs.len() ==> #[trigger] hs[i].end <= #[trigger] hs[j].start,
    ensures
        runs_through(hs).1 == (if hs.len() == 0 { 0 } else { hs.last().end as int }),
        runs_len(runs_through(hs).0) == runs_through(hs).1,
        forall|k: int| 0 <= k < runs_through(hs).0.len() ==> #[trigger] runs_through(hs).0[k].len > 0
            || runs_through(hs).0[k].highlight is Some,
    decreases hs.len(),
{
    if hs.len() > 0 {
        let p = hs.drop_last();
        lemma_runs_through_len(p);
        let (prev, ix) = runs_through(p);
        let h = hs.last();
        if p.len() > 0 {
            assert(p.last() == hs[hs.len() - 2]);
        }
        let with_gap = if ix < h.start {
            prev.push(TextRun { len: (h.start - ix) as usize, highlight: None })
        } else {
            prev
        };
        let run = TextRun { len: (h.end - h.start) as usize, highlight: Some(h.highlight) };
        assert(run.len == h.end - h.start);
        assert(runs_through(hs).0 == with_gap.push(run));
        assert(with_gap.push(run).drop_last() =~= with_gap);
        assert(runs_len(with_gap.push(run)) == runs_len(with_gap) + run.len);
        if ix < h.start {
            let gap = TextRun { len: (h.start - ix) as usize, highlight: None };
            assert(gap.len == h.start - ix);
            assert(with_gap.drop_last() =~= prev);
            assert(runs_len(with_gap) == runs_len(prev) + gap.len);
        }
    }
}

/// Laid out with highlights that are in order, do not overlap and lie inside
/// the text, the runs cover the text exactly, and every plain run holds text.
pub proof fn text_runs_cover_the_text(text_len: int, hs: Seq<StyledRange>)
    requires
        0 <= text_len <= usize::MAX,
        highlights_fit(text_len, hs),
    ensures
        runs_len(text_runs(text_len, hs)) == text_len,
        forall|k: int| 0 <= k < text_runs(text_len, hs).len() ==> #[trigger] text_runs(text_len, hs)[k].len > 0
            || text_runs(text_len, hs)[k].highlight is Some,
{
    lemma_runs_through_len(hs);
    let (runs, ix) = runs_through(hs);
    if hs.len() > 0 {
        assert(hs.last() == hs[hs.len() - 1]);
        assert(hs[hs.len() - 1].start <= hs[hs.len() - 1].end <= text_len);
    }
    if ix < text_len {
        let last = TextRun { len: (text_len - ix) as usize, highlight: None };
        assert(last.len == text_len - ix);
        assert(runs.push(last).drop_last() =~= runs);
        assert(runs_len(runs.push(last)) == runs_len(runs) + last.len);
    }
}

// ---------------------------------------------------------------------------
// The worktree preview.
// ---------------------------------------------------------------------------

/// Lays the search matches over a preview line's styled text where a search
/// is active, through `overlay`; without a search the text stays as it is.
pub fn worktree_preview_apply_query_overlay<S, M, F: Fn(&S, &M) -> S>(
    styled: S,
    query_matcher: Option<&M>,
    overlay: F,
) -> (r: S)
    requires
        query_matcher matches Some(m) ==> overlay.requires((&styled, m)),
    ensures
        match query_matcher {
            None => r == styled,
            Some(m) => overlay.ensures((&styled, m), r),
        },
{
    match query_matcher {
        Some(matcher) => overlay(&styled, matcher),
        None => styled,
    }
}

/// The change bar beside a worktree preview: red for a deleted file, green
/// for a new one.
pub fn worktree_preview_bar_color(deleted_file: bool, new_file: bool) -> (r: Option<ColorRole>)
    ensures
        r == (if deleted_file {
            Some(ColorRole::Danger)
        } else if new_file {
            Some(ColorRole::Success)
        } else {
            None
        }),
{
    if deleted_file {
        Some(ColorRole::Danger)
    } else if new_file {
        Some(ColorRole::Success)
    } else {
        None
    }
}

// ---------------------------------------------------------------------------
// History rows.
// ---------------------------------------------------------------------------

/// Which commits the history lists.
#[derive(Clone, Copy, Debug, PartialEq, Eq, Structural)]
pub enum LogScope {
    FullReachable,
    FirstParent,
    NoMerges,
    MergesOnly,
    AllBranches,
}

/// The graph's color marker shows in every scope but first-parent history.
pub fn history_scope_shows_graph_color_marker(scope: LogScope) -> (r: bool)
    ensures
        r == (scope != LogScope::FirstParent),
{
    !matches!(scope, LogScope::FirstParent)
}

/// The height of a history row, in hundredths of a pixel, at a UI scale
/// given in percent: 28 design pixels, scaled.
pub fn history_row_height(ui_scale_percent: u32) -> (r: u64)
    ensures
        r == 28 * ui_scale_percent,
{
    28 * (ui_scale_percent as u64)
}

/// A row of the commit graph: the color index of each lane through it.
#[derive(Clone, Debug)]
pub struct GraphRow {
    pub lane_color_ixs: Vec<usize>,
}

/// The lane color of the worktree node: that of the first lane of the
/// graph's first row, else the first lane color.
pub fn history_worktree_node_color(graph_rows: Option<&Vec<GraphRow>>) -> (r: usize)
    ensures
        r == (match graph_rows {
            Some(rows) => if rows@.len() > 0 && rows@[0].lane_color_ixs@.len() > 0 {
                rows@[0].lane_color_ixs@[0]
            } else {
                0
            },
            None => 0,
        }),
{
    if let Some(rows) = graph_rows {
        if rows.len() > 0 && rows[0].lane_color_ixs.len() > 0 {
            return rows[0].lane_color_ixs[0];
        }
    }
    0
}

/// The highlights of a commit's branch list: the entry that equals the
/// selected branch, if there is one, in the theme's emphasis text color.
pub fn history_branch_text_highlights(branches_text: &str, selected_branch_entry_text: Option<&str>) -> (r:
    Vec<(std::ops::Range<usize>, ColorSpec)>)
    ensures
        r@.len() <= 1,
        selected_branch_entry_text is None ==> r@.len() == 0,
        r@.len() == 1 ==> r@[0].1 == plain(ColorRole::EmphasisText),
        match selected_branch_entry_text {
            None => true,
            Some(sel) => {
                &&& r@.len() == 1 ==> is_entry(branches_text.spec_bytes(), r@[0].0.start as int, r@[0].0.end as int)
                    && branches_text.spec_bytes().subrange(r@[0].0.start as int, r@[0].0.end as int)
                    == sel.spec_bytes() && forall|s: int, e: int|
                    is_entry(branches_text.spec_bytes(), s, e) && s < r@[0].0.start
                        ==> branches_text.spec_bytes().subrange(s, e) != sel.spec_bytes()
                &&& r@.len() == 0 ==> forall|s: int, e: int|
                    is_entry(branches_text.spec_bytes(), s, e) ==> branches_text.spec_bytes().subrange(s, e)
                        != sel.spec_bytes()
            },
        },
{
    let mut out: Vec<(std::ops::Range<usize>, ColorSpec)> = Vec::new();
    if let Some(sel) = selected_branch_entry_text {
        if let Some(range) = history_selected_branch_entry_range(branches_text, sel) {
            out.push((range, ColorSpec { role: ColorRole::EmphasisText, alpha_percent: None }));
        }
    }
    out
}

/// How a commit row is drawn around its cells.
#[derive(Clone, Debug)]
pub struct HistoryRowChrome {
    /// The id under which the row's context menu is opened.
    pub context_menu_invoker: String,
    pub context_menu_active: bool,
    pub background: Option<ColorSpec>,
    pub hover_background: ColorRole,
    /// The outline drawn around the row of the checked-out commit.
    pub head_outline: Option<ColorSpec>,
}

pub open spec fn commit_menu_invoker(repo_id: u64, commit_id: Seq<char>) -> Seq<char> {
    "history_commit_menu_"@ + decimal(repo_id as nat) + seq!['_'] + commit_id
}

pub fn history_row_chrome(
    repo_id: u64,
    commit_id: &str,
    selected: bool,
    is_head: bool,
    active_context_menu_invoker: Option<&str>,
) -> (r: HistoryRowChrome)
    ensures
        r.context_menu_invoker@ == commit_menu_invoker(repo_id, commit_id@),
        r.context_menu_active == (active_context_menu_invoker matches Some(a) && a@ == commit_menu_invoker(
            repo_id,
            commit_id@,
        )),
        r.background == (if r.context_menu_active {
            Some(plain(ColorRole::Active))
        } else if selected {
            Some(tinted(ColorRole::Accent, 15))
        } else {
            None
        }),
        r.hover_background == (if r.context_menu_active { ColorRole::Active } else { ColorRole::Hover }),
        r.head_outline == (if is_head { Some(tinted(ColorRole::Accent, 90)) } else { None }),
{
    let mut id = chars_of("history_commit_menu_");
    push_decimal(&mut id, repo_id);
    id.push('_');
    let mut tail = chars_of(commit_id);
    let ghost before = id@;
    id.append(&mut tail);
    assert(id@ =~= commit_menu_invoker(repo_id, commit_id@));
    let active = match active_context_menu_invoker {
        Some(a) => {
            let av = chars_of(a);
            chars_equal(&av, &id)
        },
        None => false,
    };
    let background = if active {
        Some(ColorSpec { role: ColorRole::Active, alpha_percent: None })
    } else if selected {
        Some(ColorSpec { role: ColorRole::Accent, alpha_percent: Some(15) })
    } else {
        None
    };
    HistoryRowChrome {
        context_menu_invoker: string_of(id),
        context_menu_active: active,
        background,
        hover_background: if active { ColorRole::Active } else { ColorRole::Hover },
        head_outline: if is_head { Some(ColorSpec { role: ColorRole::Accent, alpha_percent: Some(90) }) } else { None },
    }
}

/// The kinds of changes the worktree summary row counts.
#[derive(Clone, Copy, Debug, PartialEq, Eq, Structural)]
pub enum ChangeCountKind {
    Modified,
    Added,
    Deleted,
}

/// One count of the worktree summary row, with the color of its icon.
#[derive(Clone, Copy, Debug, PartialEq, Eq, Structural)]
pub struct ChangeCountBadge {
    pub kind: ChangeCountKind,
    pub color: ColorRole,
    pub count: usize,
}

/// The badges of the summary row: modified, added and deleted files, in that
/// order, each only where its count is not zero.
pub open spec fn summary_badges(added: usize, modified: usize, deleted: usize) -> Seq<ChangeCountBadge> {
    (if modified > 0 {
        seq![ChangeCountBadge { kind: ChangeCountKind::Modified, color: ColorRole::Warning, count: modified }]
    } else {
        seq![]
    }) + (if added > 0 {
        seq![ChangeCountBadge { kind: ChangeCountKind::Added, color: ColorRole::Success, count: added }]
    } else {
        seq![]
    }) + (if deleted > 0 {
        seq![ChangeCountBadge { kind: ChangeCountKind::Deleted, color: ColorRole::Danger, count: deleted }]
    } else {
        seq![]
    })
}

/// The badges of the worktree summary row for counts of
/// `(added, modified, deleted)` files.
pub fn working_tree_summary_badges(counts: (usize, usize, usize)) -> (r: Vec<ChangeCountBadge>)
    ensures
        r@ == summary_badges(counts.0, counts.1, counts.2),
{
    let (added, modified, deleted) = counts;
    let mut parts: Vec<ChangeCountBadge> = Vec::new();
    if modified > 0 {
        parts.push(ChangeCountBadge { kind: ChangeCountKind::Modified, color: ColorRole::Warning, count: modified });
    }
    if added > 0 {
        parts.push(ChangeCountBadge { kind: ChangeCountKind::Added, color: ColorRole::Success, count: added });
    }
    if deleted > 0 {
        parts.push(ChangeCountBadge { kind: ChangeCountKind::Deleted, color: ColorRole::Danger, count: deleted });
    }
    assert(parts@ =~= summary_badges(added, modified, deleted));
    parts
}

/// The icon of a change count.
pub fn change_count_icon(kind: ChangeCountKind) -> (r: &'static str)
    ensures
        r@ == (match kind {
            ChangeCountKind::Modified => "icons/pencil.svg"@,
            ChangeCountKind::Added => "icons/plus.svg"@,
            ChangeCountKind::Deleted => "icons/minus.svg"@,
        }),
{
    match kind {
        ChangeCountKind::Modified => "icons/pencil.svg",
        ChangeCountKind::Added => "icons/plus.svg",
        ChangeCountKind::Deleted => "icons/minus.svg",
    }
}

/// What the history list needs to know to lay out its rows.
#[derive(Clone, Debug)]
pub struct HistoryListShape {
    /// The list starts with the row of uncommitted changes.
    pub show_working_tree_summary_row: bool,
    /// For each visible commit row, the index of its commit in the page.
    pub visible_indices: Vec<usize>,
    pub commit_count: usize,
    pub graph_row_count: usize,
    pub row_model_count: usize,
    pub decoration_row_count: usize,
}

/// A row of the history list.
#[derive(Clone, Copy, Debug, PartialEq, Eq, Structural)]
pub enum HistoryListRow {
    WorkingTreeSummary,
    Commit {
        list_ix: usize,
        visible_ix: usize,
        commit_ix: usize,
        /// The graph line continues up into the summary row.
        connect_from_top: bool,
    },
}

/// The row at list index `i`: the summary row first where it shows, then
/// one row per visible commit for which the page, the graph and the row
/// models all have an entry; `None` past them.
pub open spec fn history_row_at(shape: HistoryListShape, i: int) -> Option<HistoryListRow> {
    let offset: int = if shape.show_working_tree_summary_row { 1 } else { 0 };
    if shape.show_working_tree_summary_row && i == 0 {
        Some(HistoryListRow::WorkingTreeSummary)
    } else {
        let v = i - offset;
        if 0 <= v < shape.visible_indices@.len() && shape.visible_indices@[v] < shape.commit_count && v
            < shape.graph_row_count && v < shape.row_model_count && v < shape.decoration_row_count {
            Some(
                HistoryListRow::Commit {
                    list_ix: i as usize,
                    visible_ix: v as usize,
                    commit_ix: shape.visible_indices@[v],
                    connect_from_top: shape.show_working_tree_summary_row && v == 0,
                },
            )
        } else {
            None
        }
    }
}

/// The rows for list indices `start..end`, skipping those without a row.
pub open spec fn history_rows(shape: HistoryListShape, start: int, end: int) -> Seq<HistoryListRow>
    decreases end - start,
{
    if end <= start {
        seq![]
    } else {
        let prev = history_rows(shape, start, end - 1);
        match history_row_at(shape, end - 1) {
            Some(row) => prev.push(row),
            None => prev,
        }
    }
}

pub fn render_history_table_rows(shape: &HistoryListShape, start: usize, end: usize) -> (r: Vec<HistoryListRow>)
    ensures
        r@ == history_rows(*shape, start as int, end as int),
{
    let mut rows: Vec<HistoryListRow> = Vec::new();
    if end <= start {
        return rows;
    }
    let mut i: usize = start;
    while i < end
        invariant
            start <= i <= end,
            rows@ == history_rows(*shape, start as int, i as int),
        decreases end - i,
    {
        let show = shape.show_working_tree_summary_row;
        if show && i == 0 {
            rows.push(HistoryListRow::WorkingTreeSummary);
        } else {
            let offset: usize = if show { 1 } else { 0 };
            let v = i - offset;
            if v < shape.visible_indices.len() && shape.visible_indices[v] < shape.commit_count && v
                < shape.graph_row_count && v < shape.row_model_count && v < shape.decoration_row_count {
                rows.push(
                    HistoryListRow::Commit {
                        list_ix: i,
                        visible_ix: v,
                        commit_ix: shape.visible_indices[v],
                        connect_from_top: show && v == 0,
                    },
                );
            }
        }
        i = i + 1;
    }
    rows
}

/// Widths of a row's shaped texts, in hundredths of a pixel, as the text
/// system measured them at the row's font: the text (with its bold and
/// italic spans), the marker and the alert badge title.
#[derive(Clone, Copy, Debug, PartialEq, Eq, Structural)]
pub struct MeasuredWidths {
    pub text: u32,
    pub marker: u32,
    pub alert_title: u32,
}

/// The width a row needs before rounding, in hundredths of a pixel at a UI
/// scale of `p` percent (a design pixel is `p` hundredths).
pub open spec fn unrounded_row_width(row: MarkdownPreviewRow, m: MeasuredWidths, p: int) -> int {
    let pad = row_padding(row.kind, row.indent_level);
    let text = if row.kind is ThematicBreak { 0 } else { m.text as int };
    let bq = row.blockquote_level as int;
    let gutter = if bq > 0 { 4 * (bq * p) + 8 * ((bq - 1) * p) + 12 * p } else { 0 };
    let marker = if row_marker(row) is Some {
        (if m.marker as int > 22 * p { m.marker as int } else { 22 * p }) + 10 * p
    } else {
        0
    };
    let alert = if alert_title(row) is Some { m.alert_title as int + 12 * p + 10 * p } else { 0 };
    let shell = match row.kind {
        MarkdownPreviewRowKind::CodeLine { .. } => 26 * p,
        MarkdownPreviewRowKind::TableRow { .. } | MarkdownPreviewRowKind::PlainFallback => 24 * p,
        _ => 0,
    };
    (pad.0 + pad.1) * p + text + gutter + marker + alert + shell
}

/// The width a row needs, in hundredths of a pixel: nothing for spacers;
/// otherwise its content rounded to whole pixels, plus the change bar.
pub open spec fn required_row_width(row: MarkdownPreviewRow, m: MeasuredWidths, has_bar: bool, p: int) -> int {
    if row.kind is Spacer {
        0
    } else {
        (unrounded_row_width(row, m, p) + 50) / 100 * 100 + (if has_bar { 3 * p } else { 0 })
    }
}

fn blockquote_gutter_width(bq: u8, p: u64) -> (r: u64)
    requires
        p <= u32::MAX,
    ensures
        r == (if bq > 0 { 4 * (bq * p) + 8 * ((bq - 1) * p) + 12 * p } else { 0 }),
        r <= 30_000_000_000_000,
{
    if bq == 0 {
        return 0;
    }
    let b = bq as u64;
    assert(b * p <= 1_100_000_000_000) by (nonlinear_arith)
        requires
            b <= 255,
            p <= u32::MAX,
    ;
    assert((b - 1) * p <= 1_100_000_000_000) by (nonlinear_arith)
        requires
            b <= 255,
            b >= 1,
            p <= u32::MAX,
    ;
    4 * (b * p) + 8 * ((b - 1) * p) + 12 * p
}

fn padding_width(row: &MarkdownPreviewRow, p: u64) -> (r: u64)
    requires
        p <= u32::MAX,
    ensures
        r == (row_padding(row.kind, row.indent_level).0 + row_padding(row.kind, row.indent_level).1) * p,
        r <= 50_000_000_000_000,
{
    let padding = markdown_preview_row_horizontal_padding(row);
    let pad_sum = padding.left_px as u64 + padding.right_px as u64;
    assert(pad_sum <= 10000);
    assert(pad_sum * p <= 50_000_000_000_000) by (nonlinear_arith)
        requires
            pad_sum <= 10000,
            p <= u32::MAX,
    ;
    pad_sum * p
}

pub fn markdown_preview_row_required_width(
    row: &MarkdownPreviewRow,
    measured: MeasuredWidths,
    has_bar: bool,
    ui_scale_percent: u32,
) -> (r: u64)
    ensures
        r == required_row_width(*row, measured, has_bar, ui_scale_percent as int),
{
    if let MarkdownPreviewRowKind::Spacer = row.kind {
        return 0;
    }
    let p = ui_scale_percent as u64;
    let pad = padding_width(row, p);
    let text: u64 = match row.kind {
        MarkdownPreviewRowKind::ThematicBreak => 0,
        _ => measured.text as u64,
    };
    let gutter = blockquote_gutter_width(row.blockquote_level, p);
    let marker: u64 = if markdown_preview_row_marker(row).is_some() {
        (if measured.marker as u64 > 22 * p { measured.marker as u64 } else { 22 * p }) + 10 * p
    } else {
        0
    };
    let alert: u64 = if markdown_preview_alert_title_label(row).is_some() {
        measured.alert_title as u64 + 12 * p + 10 * p
    } else {
        0
    };
    let shell: u64 = match row.kind {
        MarkdownPreviewRowKind::CodeLine { .. } => 26 * p,
        MarkdownPreviewRowKind::TableRow { .. } | MarkdownPreviewRowKind::PlainFallback => 24 * p,
        _ => 0,
    };
    let width = pad + text + gutter + marker + alert + shell;
    assert(width == unrounded_row_width(*row, measured, p as int));
    let rounded = (width + 50) / 100 * 100;
    if has_bar {
        rounded + 3 * p
    } else {
        rounded
    }
}

/// The rows of a markdown preview document that a list range asks for,
/// clamped to the document's `row_count` rows.
pub fn markdown_preview_document_row_range(range: std::ops::Range<usize>, row_count: usize) -> (r:
    std::ops::Range<usize>)
    ensures
        r.start == (if range.start < row_count { range.start } else { row_count }),
        r.end == (if range.end < row_count { range.end } else { row_count }),
{
    let start = if range.start < row_count { range.start } else { row_count };
    let end = if range.end < row_count { range.end } else { row_count };
    start..end
}

/// The lines of the worktree preview that a list range asks for: from its
/// start, while below the file's `line_count` lines; nothing when the range
/// starts past them or is empty.
pub fn worktree_preview_row_range(range: std::ops::Range<usize>, line_count: usize) -> (r: std::ops::Range<usize>)
    ensures
        r.start == range.start,
        r.end == (if range.start < range.end && range.start < line_count {
            if range.end < line_count { range.end } else { line_count }
        } else {
            range.start
        }),
{
    let start = range.start;
    if start < range.end && start < line_count {
        start..(if range.end < line_count { range.end } else { line_count })
    } else {
        start..start
    }
}

proof fn lemma_history_rows_hold_each_row(shape: HistoryListShape, start: int, end: int, i: int)
    requires
        start <= i < end,
        history_row_at(shape, i) is Some,
    ensures
        history_rows(shape, start, end).contains(history_row_at(shape, i)->0),
    decreases end - start,
{
    let prev = history_rows(shape, start, end - 1);
    if i == end - 1 {
        assert(history_rows(shape, start, end) == prev.push(history_row_at(shape, i)->0));
        assert(history_rows(shape, start, end)[prev.len() as int] == history_row_at(shape, i)->0);
    } else {
        lemma_history_rows_hold_each_row(shape, start, end - 1, i);
        let k = choose|k: int| 0 <= k < prev.len() && prev[k] == history_row_at(shape, i)->0;
        match history_row_at(shape, end - 1) {
            Some(row) => {
                assert(history_rows(shape, start, end)[k] == prev[k]);
            },
            None => {},
        }
    }
}

/// Every visible commit that the page, the graph, the row models and the
/// decorations all reach has its row among the rows asked for: the graph,
/// row models and decorations are indexed by the position among the visible
/// commits, whatever the commit's index in the page.
pub proof fn visible_commits_get_their_rows(shape: HistoryListShape, start: int, end: int, i: int)
    requires
        start <= i < end,
        end <= usize::MAX + 1,
        !(shape.show_working_tree_summary_row && i == 0),
        ({
            let v = if shape.show_working_tree_summary_row { i - 1 } else { i };
            &&& 0 <= v < shape.visible_indices@.len()
            &&& shape.visible_indices@[v] < shape.commit_count
            &&& v < shape.graph_row_count
            &&& v < shape.row_model_count
            &&& v < shape.decoration_row_count
        }),
    ensures
        ({
            let v = if shape.show_working_tree_summary_row { i - 1 } else { i };
            history_rows(shape, start, end).contains(
                HistoryListRow::Commit {
                    list_ix: i as usize,
                    visible_ix: v as usize,
                    commit_ix: shape.visible_indices@[v],
                    connect_from_top: shape.show_working_tree_summary_row && v == 0,
                },
            )
        }),
{
    lemma_history_rows_hold_each_row(shape, start, end, i);
}

} // verus!
