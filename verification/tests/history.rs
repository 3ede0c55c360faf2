use gitcomet_view::history::{
    change_count_icon, history_branch_text_highlights, markdown_preview_document_row_range, worktree_preview_row_range, history_row_chrome, history_row_height,
    history_scope_shows_graph_color_marker, history_selected_branch_entry_range,
    history_worktree_node_color, markdown_preview_alert_color, markdown_preview_alert_title_label,
    markdown_preview_blockquote_gutter, markdown_preview_inline_highlight,
    markdown_preview_row_background, markdown_preview_row_height,
    markdown_preview_row_horizontal_padding, markdown_preview_row_layout,
    markdown_preview_row_marker, markdown_preview_row_styled_text, markdown_preview_row_text_color,
    markdown_preview_row_typography, markdown_preview_text_runs,
    markdown_preview_width_affecting_highlights, working_tree_summary_badges,
    worktree_preview_apply_query_overlay, worktree_preview_bar_color, ChangeCountBadge,
    ChangeCountKind, GraphRow, LogScope, MarkdownAlertKind, MarkdownChangeHint,
    MarkdownInlineSpan, MarkdownInlineStyle, MarkdownPreviewRow, MarkdownPreviewRowKind,
    MarkdownRowStyling, StyledRange, TextRun,
};
use gitcomet_view::history::{
    markdown_preview_code_background, markdown_preview_row_required_width, render_history_table_rows, HistoryListRow, HistoryListShape,
    MeasuredWidths,
};
use gitcomet_view::theme::{ColorRole, ColorSpec};

const EDITOR_MONOSPACE_FONT_FAMILY: &str = "Lilex";

fn markdown_row(kind: MarkdownPreviewRowKind) -> MarkdownPreviewRow {
    MarkdownPreviewRow {
        kind,
        text: "text".to_string(),
        inline_spans: Vec::new(),
        change_hint: MarkdownChangeHint::Unchanged,
        indent_level: 1,
        blockquote_level: 0,
        footnote_label: None,
        alert_kind: None,
        starts_alert: false,
    }
}

#[test]
fn history_selected_branch_entry_range_matches_head_branch_entry() {
    let text = "HEAD → main, origin/main";
    let range = history_selected_branch_entry_range(text, "HEAD → main")
        .expect("expected head branch entry range");

    assert_eq!(&text[range], "HEAD → main");
}

#[test]
fn history_selected_branch_entry_range_finds_later_entries_and_misses() {
    let text = "HEAD → main, origin/main, v1";
    let range = history_selected_branch_entry_range(text, "origin/main").unwrap();
    assert_eq!(&text[range], "origin/main");
    let range = history_selected_branch_entry_range(text, "v1").unwrap();
    assert_eq!(range, 28..30);
    assert_eq!(history_selected_branch_entry_range(text, "main"), None);
    assert_eq!(history_selected_branch_entry_range("", ""), Some(0..0));
}

#[test]
fn history_worktree_node_color_falls_back_to_primary_lane_color() {
    assert_eq!(history_worktree_node_color(None), 0);
}

#[test]
fn history_worktree_node_color_uses_first_lane_of_first_row() {
    let rows = vec![GraphRow { lane_color_ixs: vec![4, 2] }, GraphRow { lane_color_ixs: vec![7] }];
    assert_eq!(history_worktree_node_color(Some(&rows)), 4);
    let empty_first = vec![GraphRow { lane_color_ixs: vec![] }];
    assert_eq!(history_worktree_node_color(Some(&empty_first)), 0);
    assert_eq!(history_worktree_node_color(Some(&Vec::new())), 0);
}

#[test]
fn history_graph_color_marker_is_shown_for_all_non_first_parent_modes() {
    assert!(history_scope_shows_graph_color_marker(LogScope::FullReachable));
    assert!(!history_scope_shows_graph_color_marker(LogScope::FirstParent));
    assert!(history_scope_shows_graph_color_marker(LogScope::NoMerges));
    assert!(history_scope_shows_graph_color_marker(LogScope::MergesOnly));
    assert!(history_scope_shows_graph_color_marker(LogScope::AllBranches));
}

#[test]
fn history_branch_text_highlights_is_empty_when_selected_entry_is_missing() {
    let text = "HEAD → main, origin/main";
    let selected = "origin/feature";
    let highlights = history_branch_text_highlights(text, Some(selected));

    assert!(highlights.is_empty());
}

#[test]
fn history_branch_text_highlights_mark_the_selected_entry() {
    let text = "HEAD → main, origin/main";
    let highlights = history_branch_text_highlights(text, Some("origin/main"));
    assert_eq!(highlights.len(), 1);
    assert_eq!(&text[highlights[0].0.clone()], "origin/main");
    assert_eq!(highlights[0].1, ColorSpec { role: ColorRole::EmphasisText, alpha_percent: None });
    let head = history_branch_text_highlights(text, Some("HEAD → main"));
    assert_eq!(head.len(), 1);
    assert_eq!(head[0].0, 0..13);
    assert!(history_branch_text_highlights(text, None).is_empty());
}

#[test]
fn history_rows_scale_with_the_ui() {
    assert_eq!(history_row_height(100), 2800);
    assert_eq!(history_row_height(125), 3500);
    assert_eq!(markdown_preview_row_height(100), 2800);
    assert_eq!(markdown_preview_row_height(150), 4200);
}

#[test]
fn history_row_chrome_follows_selection_menu_and_head() {
    let plain = history_row_chrome(3, "abc123", false, false, None);
    assert_eq!(plain.context_menu_invoker, "history_commit_menu_3_abc123");
    assert!(!plain.context_menu_active);
    assert_eq!(plain.background, None);
    assert_eq!(plain.hover_background, ColorRole::Hover);
    assert_eq!(plain.head_outline, None);

    let selected_head = history_row_chrome(3, "abc123", true, true, Some("history_commit_menu_3_other"));
    assert!(!selected_head.context_menu_active);
    assert_eq!(selected_head.background, Some(ColorSpec { role: ColorRole::Accent, alpha_percent: Some(15) }));
    assert_eq!(selected_head.head_outline, Some(ColorSpec { role: ColorRole::Accent, alpha_percent: Some(90) }));

    let menu = history_row_chrome(3, "abc123", true, false, Some("history_commit_menu_3_abc123"));
    assert!(menu.context_menu_active);
    assert_eq!(menu.background, Some(ColorSpec { role: ColorRole::Active, alpha_percent: None }));
    assert_eq!(menu.hover_background, ColorRole::Active);
}

#[test]
fn working_tree_summary_lists_modified_added_deleted_counts() {
    assert_eq!(
        working_tree_summary_badges((2, 5, 1)),
        vec![
            ChangeCountBadge { kind: ChangeCountKind::Modified, color: ColorRole::Warning, count: 5 },
            ChangeCountBadge { kind: ChangeCountKind::Added, color: ColorRole::Success, count: 2 },
            ChangeCountBadge { kind: ChangeCountKind::Deleted, color: ColorRole::Danger, count: 1 },
        ]
    );
    assert_eq!(
        working_tree_summary_badges((0, 0, 3)),
        vec![ChangeCountBadge { kind: ChangeCountKind::Deleted, color: ColorRole::Danger, count: 3 }]
    );
    assert!(working_tree_summary_badges((0, 0, 0)).is_empty());
    assert_eq!(change_count_icon(ChangeCountKind::Modified), "icons/pencil.svg");
    assert_eq!(change_count_icon(ChangeCountKind::Added), "icons/plus.svg");
    assert_eq!(change_count_icon(ChangeCountKind::Deleted), "icons/minus.svg");
}

#[test]
fn worktree_preview_query_overlay_only_applies_with_a_matcher() {
    let overlay = |styled: &String, matcher: &String| format!("{styled}[{matcher}]");
    assert_eq!(worktree_preview_apply_query_overlay("row".to_string(), None, overlay), "row");
    let matcher = "cat".to_string();
    assert_eq!(worktree_preview_apply_query_overlay("row".to_string(), Some(&matcher), overlay), "row[cat]");
}

#[test]
fn worktree_preview_bar_marks_deleted_before_new_files() {
    assert_eq!(worktree_preview_bar_color(true, true), Some(ColorRole::Danger));
    assert_eq!(worktree_preview_bar_color(false, true), Some(ColorRole::Success));
    assert_eq!(worktree_preview_bar_color(false, false), None);
}

#[test]
fn markdown_preview_heading_typography_scales_above_body_text() {
    let paragraph = MarkdownPreviewRow {
        kind: MarkdownPreviewRowKind::Paragraph,
        text: "body".to_string(),
        inline_spans: Vec::new(),
        change_hint: MarkdownChangeHint::Unchanged,
        indent_level: 1,
        blockquote_level: 0,
        footnote_label: None,
        alert_kind: None,
        starts_alert: false,
    };
    let h1 = MarkdownPreviewRow { kind: MarkdownPreviewRowKind::Heading { level: 1 }, ..paragraph.clone() };
    let h2 = MarkdownPreviewRow { kind: MarkdownPreviewRowKind::Heading { level: 2 }, ..paragraph.clone() };
    let h6 = MarkdownPreviewRow { kind: MarkdownPreviewRowKind::Heading { level: 6 }, ..paragraph.clone() };

    let body_typography = markdown_preview_row_typography(&paragraph, EDITOR_MONOSPACE_FONT_FAMILY);
    let h1_typography = markdown_preview_row_typography(&h1, EDITOR_MONOSPACE_FONT_FAMILY);
    let h2_typography = markdown_preview_row_typography(&h2, EDITOR_MONOSPACE_FONT_FAMILY);
    let h6_typography = markdown_preview_row_typography(&h6, EDITOR_MONOSPACE_FONT_FAMILY);

    assert!(h1_typography.font_size > h2_typography.font_size);
    assert!(h2_typography.font_size > body_typography.font_size);
    assert!(h6_typography.font_size > body_typography.font_size);
    assert!(h1_typography.bold);
    assert!(h2_typography.bold);
    assert!(h6_typography.bold);
}

#[test]
fn markdown_preview_list_rows_match_body_line_height_and_keep_tighter_layout() {
    let paragraph = markdown_row(MarkdownPreviewRowKind::Paragraph);
    let list_item = markdown_row(MarkdownPreviewRowKind::ListItem { number: None });

    let paragraph_typography = markdown_preview_row_typography(&paragraph, EDITOR_MONOSPACE_FONT_FAMILY);
    let list_typography = markdown_preview_row_typography(&list_item, EDITOR_MONOSPACE_FONT_FAMILY);
    let paragraph_layout = markdown_preview_row_layout(&paragraph);
    let list_layout = markdown_preview_row_layout(&list_item);

    assert_eq!(list_typography.line_height, paragraph_typography.line_height);
    assert!(paragraph_layout.bottom_inset_px > list_layout.bottom_inset_px);
}

#[test]
fn markdown_preview_details_summary_rows_are_bold_and_marked() {
    let row = markdown_row(MarkdownPreviewRowKind::DetailsSummary);

    let typography = markdown_preview_row_typography(&row, EDITOR_MONOSPACE_FONT_FAMILY);

    assert!(typography.bold);
    assert_eq!(markdown_preview_row_marker(&row).as_deref(), Some("v"));
}

#[test]
fn markdown_preview_code_rows_do_not_reserve_bottom_space_for_local_scrollbar() {
    let first_row = markdown_row(MarkdownPreviewRowKind::CodeLine { is_first: true, is_last: false });
    let last_row = markdown_row(MarkdownPreviewRowKind::CodeLine { is_first: false, is_last: true });

    let first_layout = markdown_preview_row_layout(&first_row);
    let last_layout = markdown_preview_row_layout(&last_row);

    assert_eq!(first_layout.top_inset_px, 5);
    assert_eq!(last_layout.bottom_inset_px, 5);
}

#[test]
fn markdown_preview_nested_code_rows_keep_small_outer_edge_gap() {
    let mut row = markdown_row(MarkdownPreviewRowKind::CodeLine { is_first: true, is_last: false });
    row.indent_level = 3;

    let padding = markdown_preview_row_horizontal_padding(&row);

    assert_eq!(padding.left_px, 8);
    assert_eq!(padding.right_px, 8);
}

#[test]
fn markdown_preview_rows_indent_one_step_per_level() {
    let mut row = markdown_row(MarkdownPreviewRowKind::Paragraph);
    row.indent_level = 3;
    let padding = markdown_preview_row_horizontal_padding(&row);
    assert_eq!(padding.left_px, 18 + 2 * 24);
    assert_eq!(padding.right_px, 18);
    row.indent_level = 0;
    assert_eq!(markdown_preview_row_horizontal_padding(&row).left_px, 18);
}

#[test]
fn markdown_preview_row_marker_preserves_ordered_item_number() {
    let row = MarkdownPreviewRow {
        kind: MarkdownPreviewRowKind::ListItem { number: Some(7) },
        text: "item".to_string(),
        inline_spans: Vec::new(),
        change_hint: MarkdownChangeHint::Unchanged,
        indent_level: 1,
        blockquote_level: 0,
        footnote_label: None,
        alert_kind: None,
        starts_alert: false,
    };

    assert_eq!(markdown_preview_row_marker(&row).as_deref(), Some("7."));
}

#[test]
fn markdown_preview_row_marker_is_none_for_blockquotes_without_list_items() {
    let row = MarkdownPreviewRow {
        kind: MarkdownPreviewRowKind::BlockquoteLine,
        text: "quote".to_string(),
        inline_spans: Vec::new(),
        change_hint: MarkdownChangeHint::Unchanged,
        indent_level: 1,
        blockquote_level: 2,
        footnote_label: None,
        alert_kind: None,
        starts_alert: false,
    };

    assert_eq!(markdown_preview_row_marker(&row), None);
}

#[test]
fn markdown_preview_row_marker_uses_footnote_label_when_present() {
    let row = MarkdownPreviewRow {
        kind: MarkdownPreviewRowKind::Paragraph,
        text: "reference".to_string(),
        inline_spans: Vec::new(),
        change_hint: MarkdownChangeHint::Unchanged,
        indent_level: 1,
        blockquote_level: 0,
        footnote_label: Some("1".into()),
        alert_kind: None,
        starts_alert: false,
    };

    assert_eq!(markdown_preview_row_marker(&row).as_deref(), Some("[^1]:"));
}

#[test]
fn markdown_preview_row_marker_returns_unordered_bullet_inside_blockquote() {
    let row = MarkdownPreviewRow {
        kind: MarkdownPreviewRowKind::ListItem { number: None },
        text: "item".to_string(),
        inline_spans: Vec::new(),
        change_hint: MarkdownChangeHint::Unchanged,
        indent_level: 1,
        blockquote_level: 1,
        footnote_label: None,
        alert_kind: None,
        starts_alert: false,
    };

    assert_eq!(markdown_preview_row_marker(&row).as_deref(), Some("•"));
}

#[test]
fn markdown_preview_row_marker_numbers_large_items() {
    let row = markdown_row(MarkdownPreviewRowKind::ListItem { number: Some(1205) });
    assert_eq!(markdown_preview_row_marker(&row).as_deref(), Some("1205."));
    let row = markdown_row(MarkdownPreviewRowKind::ListItem { number: Some(0) });
    assert_eq!(markdown_preview_row_marker(&row).as_deref(), Some("0."));
}

#[test]
fn markdown_preview_alert_title_label_requires_alert_start_row() {
    for (kind, label) in [
        (MarkdownAlertKind::Note, "NOTE"),
        (MarkdownAlertKind::Tip, "TIP"),
        (MarkdownAlertKind::Important, "IMPORTANT"),
        (MarkdownAlertKind::Warning, "WARNING"),
        (MarkdownAlertKind::Caution, "CAUTION"),
    ] {
        let mut row = markdown_row(MarkdownPreviewRowKind::BlockquoteLine);
        row.alert_kind = Some(kind);
        row.starts_alert = true;
        assert_eq!(markdown_preview_alert_title_label(&row), Some(label));

        row.starts_alert = false;
        assert_eq!(markdown_preview_alert_title_label(&row), None);
    }

    let mut row = markdown_row(MarkdownPreviewRowKind::BlockquoteLine);
    row.starts_alert = true;
    assert_eq!(markdown_preview_alert_title_label(&row), None);
}

#[test]
fn markdown_preview_row_background_change_hints_override_alert_and_fallback_states() {
    let is_dark = false;

    let mut added_row = markdown_row(MarkdownPreviewRowKind::Paragraph);
    added_row.change_hint = MarkdownChangeHint::Added;

    let mut added_alert_row = added_row.clone();
    added_alert_row.alert_kind = Some(MarkdownAlertKind::Warning);
    assert_eq!(
        markdown_preview_row_background(is_dark, &added_alert_row),
        markdown_preview_row_background(is_dark, &added_row)
    );

    let mut removed_row = markdown_row(MarkdownPreviewRowKind::Paragraph);
    removed_row.change_hint = MarkdownChangeHint::Removed;

    let mut removed_fallback_row = removed_row.clone();
    removed_fallback_row.kind = MarkdownPreviewRowKind::PlainFallback;
    assert_eq!(
        markdown_preview_row_background(is_dark, &removed_fallback_row),
        markdown_preview_row_background(is_dark, &removed_row)
    );
}

#[test]
fn markdown_preview_row_background_uses_alert_and_fallback_only_when_unchanged() {
    let is_dark = true;

    let plain_row = markdown_row(MarkdownPreviewRowKind::Paragraph);
    assert_eq!(markdown_preview_row_background(is_dark, &plain_row), None);

    let mut alert_row = plain_row.clone();
    alert_row.alert_kind = Some(MarkdownAlertKind::Tip);

    let fallback_row = markdown_row(MarkdownPreviewRowKind::PlainFallback);
    let alert_bg = markdown_preview_row_background(is_dark, &alert_row);
    let fallback_bg = markdown_preview_row_background(is_dark, &fallback_row);

    assert!(alert_bg.is_some());
    assert!(fallback_bg.is_some());
    assert_ne!(alert_bg, fallback_bg);
}

#[test]
fn markdown_preview_row_background_tints() {
    let mut row = markdown_row(MarkdownPreviewRowKind::Paragraph);
    row.change_hint = MarkdownChangeHint::Modified;
    assert_eq!(
        markdown_preview_row_background(true, &row),
        Some(ColorSpec { role: ColorRole::Accent, alpha_percent: Some(18) })
    );
    row.change_hint = MarkdownChangeHint::Unchanged;
    row.alert_kind = Some(MarkdownAlertKind::Caution);
    assert_eq!(
        markdown_preview_row_background(false, &row),
        Some(ColorSpec { role: ColorRole::Danger, alpha_percent: Some(6) })
    );
}

#[test]
fn markdown_preview_row_styled_text_maps_inline_styles_and_skips_normal_spans() {
    let is_dark = false;

    let mut row = markdown_row(MarkdownPreviewRowKind::Paragraph);
    row.text = "link under strike plain".to_string();
    row.inline_spans = vec![
        MarkdownInlineSpan { start: 0, end: 4, style: MarkdownInlineStyle::Link },
        MarkdownInlineSpan { start: 5, end: 10, style: MarkdownInlineStyle::Underline },
        MarkdownInlineSpan { start: 11, end: 17, style: MarkdownInlineStyle::Strikethrough },
        MarkdownInlineSpan { start: 18, end: 23, style: MarkdownInlineStyle::Normal },
    ];

    let styled = markdown_preview_row_styled_text(is_dark, &row);
    let highlights = match styled {
        MarkdownRowStyling::Inline(highlights) => highlights,
        MarkdownRowStyling::SyntaxHighlighted => panic!("paragraphs are styled by their spans"),
    };

    assert_eq!(row.text, "link under strike plain");
    assert_eq!(highlights.len(), 3);
    assert_eq!((highlights[0].start, highlights[0].end), (0, 4));
    assert_eq!(highlights[0].highlight, markdown_preview_inline_highlight(is_dark, MarkdownInlineStyle::Link));
    assert_eq!((highlights[1].start, highlights[1].end), (5, 10));
    assert_eq!(highlights[1].highlight, markdown_preview_inline_highlight(is_dark, MarkdownInlineStyle::Underline));
    assert_eq!((highlights[2].start, highlights[2].end), (11, 17));
    assert_eq!(
        highlights[2].highlight,
        markdown_preview_inline_highlight(is_dark, MarkdownInlineStyle::Strikethrough)
    );
}

#[test]
fn markdown_preview_code_rows_take_syntax_highlighting() {
    let row = markdown_row(MarkdownPreviewRowKind::CodeLine { is_first: true, is_last: true });
    assert!(matches!(markdown_preview_row_styled_text(true, &row), MarkdownRowStyling::SyntaxHighlighted));
}

#[test]
fn markdown_preview_width_affecting_highlights_keep_bold_and_italic_only() {
    let mut row = markdown_row(MarkdownPreviewRowKind::Paragraph);
    row.inline_spans = vec![
        MarkdownInlineSpan { start: 0, end: 2, style: MarkdownInlineStyle::Bold },
        MarkdownInlineSpan { start: 3, end: 5, style: MarkdownInlineStyle::Code },
        MarkdownInlineSpan { start: 6, end: 8, style: MarkdownInlineStyle::Italic },
        MarkdownInlineSpan { start: 9, end: 11, style: MarkdownInlineStyle::BoldItalic },
        MarkdownInlineSpan { start: 12, end: 14, style: MarkdownInlineStyle::Link },
    ];
    let kept: Vec<(usize, usize)> = markdown_preview_width_affecting_highlights(false, &row)
        .iter()
        .map(|h| (h.start, h.end))
        .collect();
    assert_eq!(kept, vec![(0, 2), (6, 8), (9, 11)]);
}

#[test]
fn markdown_preview_inline_highlights_per_style() {
    let code_dark = markdown_preview_inline_highlight(true, MarkdownInlineStyle::Code);
    assert_eq!(code_dark.background, Some(ColorSpec { role: ColorRole::ActiveSection, alpha_percent: Some(75) }));
    let code_light = markdown_preview_inline_highlight(false, MarkdownInlineStyle::Code);
    assert_eq!(code_light.background, Some(ColorSpec { role: ColorRole::ActiveSection, alpha_percent: Some(55) }));
    let normal = markdown_preview_inline_highlight(false, MarkdownInlineStyle::Normal);
    assert!(!normal.bold && !normal.italic && normal.color.is_none() && normal.underline.is_none());
    let link = markdown_preview_inline_highlight(false, MarkdownInlineStyle::Link);
    assert_eq!(link.underline, Some(ColorSpec { role: ColorRole::Accent, alpha_percent: None }));
}

#[test]
fn markdown_preview_text_runs_cover_the_text() {
    let bold = markdown_preview_inline_highlight(false, MarkdownInlineStyle::Bold);
    let highlights = vec![
        StyledRange { start: 2, end: 5, highlight: bold },
        StyledRange { start: 5, end: 7, highlight: bold },
    ];
    let runs = markdown_preview_text_runs("abcdefghij", &highlights);
    assert_eq!(
        runs,
        vec![
            TextRun { len: 2, highlight: None },
            TextRun { len: 3, highlight: Some(bold) },
            TextRun { len: 2, highlight: Some(bold) },
            TextRun { len: 3, highlight: None },
        ]
    );
    assert_eq!(runs.iter().map(|r| r.len).sum::<usize>(), 10);
    assert_eq!(markdown_preview_text_runs("abc", &Vec::new()), vec![TextRun { len: 3, highlight: None }]);
    assert!(markdown_preview_text_runs("", &Vec::new()).is_empty());
}

#[test]
fn markdown_preview_blockquote_gutter_colors_the_innermost_alert_bar() {
    assert_eq!(markdown_preview_blockquote_gutter(true, 0, None, 100), None);
    let quote = ColorSpec { role: ColorRole::Border, alpha_percent: Some(86) };
    let plain = markdown_preview_blockquote_gutter(false, 2, None, 100).unwrap();
    assert_eq!(plain.bars, vec![quote, quote]);
    assert_eq!((plain.bar_width, plain.bar_radius, plain.gap, plain.margin_right), (400, 200, 800, 1200));
    let alert = markdown_preview_blockquote_gutter(false, 2, Some(MarkdownAlertKind::Important), 150).unwrap();
    assert_eq!(alert.bars, vec![quote, markdown_preview_alert_color(MarkdownAlertKind::Important)]);
    assert_eq!(alert.bar_width, 600);
    assert_eq!(
        markdown_preview_alert_color(MarkdownAlertKind::Important),
        ColorSpec { role: ColorRole::Accent, alpha_percent: Some(85) }
    );
}

#[test]
fn markdown_preview_row_text_colors() {
    assert_eq!(markdown_preview_row_text_color(&markdown_row(MarkdownPreviewRowKind::Heading { level: 6 })), ColorRole::TextMuted);
    assert_eq!(markdown_preview_row_text_color(&markdown_row(MarkdownPreviewRowKind::PlainFallback)), ColorRole::Warning);
    let mut alert = markdown_row(MarkdownPreviewRowKind::BlockquoteLine);
    assert_eq!(markdown_preview_row_text_color(&alert), ColorRole::TextMuted);
    alert.alert_kind = Some(MarkdownAlertKind::Note);
    assert_eq!(markdown_preview_row_text_color(&alert), ColorRole::Text);
}

#[test]
fn markdown_preview_table_rows_use_monospace_typography_and_only_headers_are_bold() {
    let header = markdown_row(MarkdownPreviewRowKind::TableRow { is_header: true });
    let body = markdown_row(MarkdownPreviewRowKind::TableRow { is_header: false });

    let header_typography = markdown_preview_row_typography(&header, EDITOR_MONOSPACE_FONT_FAMILY);
    let body_typography = markdown_preview_row_typography(&body, EDITOR_MONOSPACE_FONT_FAMILY);

    assert_eq!(header_typography.font_family.as_deref(), Some(EDITOR_MONOSPACE_FONT_FAMILY));
    assert_eq!(body_typography.font_family.as_deref(), Some(EDITOR_MONOSPACE_FONT_FAMILY));
    assert!(header_typography.bold);
    assert!(!body_typography.bold);
    assert_eq!(header_typography.font_size, body_typography.font_size);
    assert_eq!(header_typography.line_height, body_typography.line_height);
}

#[test]
fn markdown_preview_spacer_rows_have_no_extra_layout_or_background() {
    let row = markdown_row(MarkdownPreviewRowKind::Spacer);

    let layout = markdown_preview_row_layout(&row);

    assert_eq!(layout.top_inset_px, 0);
    assert_eq!(layout.bottom_inset_px, 0);
    assert_eq!(markdown_preview_row_background(false, &row), None);
    assert_eq!(markdown_preview_row_marker(&row), None);
}

#[test]
fn history_list_rows_map_list_indices_to_commits() {
    let shape = HistoryListShape {
        show_working_tree_summary_row: true,
        visible_indices: vec![0, 2, 3],
        commit_count: 3,
        graph_row_count: 3,
        row_model_count: 3,
        decoration_row_count: 3,
    };
    let rows = render_history_table_rows(&shape, 0, 6);
    assert_eq!(
        rows,
        vec![
            HistoryListRow::WorkingTreeSummary,
            HistoryListRow::Commit { list_ix: 1, visible_ix: 0, commit_ix: 0, connect_from_top: true },
            HistoryListRow::Commit { list_ix: 2, visible_ix: 1, commit_ix: 2, connect_from_top: false },
        ]
    );
    let plain = HistoryListShape { show_working_tree_summary_row: false, ..shape.clone() };
    assert_eq!(
        render_history_table_rows(&plain, 1, 3),
        vec![HistoryListRow::Commit { list_ix: 1, visible_ix: 1, commit_ix: 2, connect_from_top: false }]
    );
    assert!(render_history_table_rows(&plain, 3, 1).is_empty());
}

#[test]
fn markdown_rows_need_their_padding_text_and_decorations() {
    let measured = MeasuredWidths { text: 5000, marker: 1000, alert_title: 3000 };
    let paragraph = markdown_row(MarkdownPreviewRowKind::Paragraph);
    assert_eq!(markdown_preview_row_required_width(&paragraph, measured, false, 100), 8600);
    assert_eq!(markdown_preview_row_required_width(&paragraph, measured, true, 100), 8900);
    // the scale is not bounded: at 200 times, 36 design pixels of padding and the text
    assert_eq!(markdown_preview_row_required_width(&paragraph, measured, false, 20000), 36 * 20000 + 5000);
    let item = markdown_row(MarkdownPreviewRowKind::ListItem { number: Some(3) });
    assert_eq!(markdown_preview_row_required_width(&item, measured, false, 100), 8600 + 2200 + 1000);
    let code = markdown_row(MarkdownPreviewRowKind::CodeLine { is_first: true, is_last: true });
    assert_eq!(markdown_preview_row_required_width(&code, measured, false, 100), 1600 + 5000 + 2600);
    let mut quote = markdown_row(MarkdownPreviewRowKind::BlockquoteLine);
    quote.blockquote_level = 2;
    quote.alert_kind = Some(MarkdownAlertKind::Note);
    quote.starts_alert = true;
    // padding, text, two bars and a gap and the margin, the badge with its padding and gap
    assert_eq!(
        markdown_preview_row_required_width(&quote, measured, false, 100),
        3600 + 5000 + (800 + 800 + 1200) + (3000 + 1200 + 1000)
    );
    let spacer = markdown_row(MarkdownPreviewRowKind::Spacer);
    assert_eq!(markdown_preview_row_required_width(&spacer, measured, true, 100), 0);
    let rule = markdown_row(MarkdownPreviewRowKind::ThematicBreak);
    assert_eq!(markdown_preview_row_required_width(&rule, measured, false, 100), 3600);
    // Rounded to whole pixels.
    let odd = MeasuredWidths { text: 5049, marker: 0, alert_title: 0 };
    assert_eq!(markdown_preview_row_required_width(&paragraph, odd, false, 100), 8600);
    let odd = MeasuredWidths { text: 5050, marker: 0, alert_title: 0 };
    assert_eq!(markdown_preview_row_required_width(&paragraph, odd, false, 100), 8700);
    // Scaled: 150% makes a design pixel 150 hundredths.
    assert_eq!(markdown_preview_row_required_width(&rule, measured, true, 150), 5400 + 450);
}

#[test]
fn markdown_code_blocks_get_a_surface_background() {
    assert_eq!(markdown_preview_code_background(true), ColorSpec { role: ColorRole::SurfaceBgElevated, alpha_percent: Some(88) });
    assert_eq!(markdown_preview_code_background(false), ColorSpec { role: ColorRole::SurfaceBg, alpha_percent: Some(86) });
}

#[test]
fn list_ranges_stop_at_the_document() {
    assert_eq!(markdown_preview_document_row_range(2..10, 5), 2..5);
    assert_eq!(markdown_preview_document_row_range(7..9, 5), 5..5);
    assert_eq!(markdown_preview_document_row_range(0..3, 5), 0..3);
    assert_eq!(worktree_preview_row_range(2..10, 5), 2..5);
    assert_eq!(worktree_preview_row_range(7..9, 5), 7..7);
    assert_eq!(worktree_preview_row_range(1..4, 5), 1..4);
}
