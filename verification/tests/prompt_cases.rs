use keyecho::updater::{release_highlights, update_prompt_message};

#[test]
fn prompt_keeps_four_short_bullets_and_links_the_rest() {
    let notes = "## v9\n\n### Features\n\n- one\n- two\n- three\n- four\n- five\n\n### Security\n\n- six";
    let message = update_prompt_message("9.0.0", "8.0.0", notes);
    assert!(message.contains("Would you like to install it now?"));
    assert!(message.contains("• four"));
    assert!(!message.contains("five"));
    assert!(message.ends_with("See all changes at https://keyecho.app/updates"));
}

#[test]
fn prompt_shortens_long_bullets() {
    let notes = format!("- {}", "a".repeat(300));
    let message = update_prompt_message("9.0.0", "8.0.0", &notes);
    assert!(message.contains(&format!("• {}…", "a".repeat(99))));
}

#[test]
fn prompt_without_notes_is_just_the_question() {
    let message = update_prompt_message("9.0.0", "8.0.0", "");
    assert!(message.ends_with("Would you like to install it now?"));
}

#[test]
fn prompt_has_exact_layout() {
    let message = update_prompt_message("2.0.0", "1.0.0", "* first\r\n* second\n");
    assert_eq!(
        message,
        "KeyEcho 2.0.0 is now available. You have 1.0.0.\n\nWould you like to install it now?\n\nWhat's new:\n• first\n• second\n\nSee all changes at https://keyecho.app/updates"
    );
}

#[test]
fn highlights_fall_back_to_plain_lines_without_bullets() {
    let highlights = release_highlights("# Title\n\n  Fixed a crash.  \nFaster startup\n");
    assert_eq!(highlights, vec!["• Fixed a crash.".to_string(), "• Faster startup".to_string()]);
}

#[test]
fn highlights_prefer_bullets_and_strip_marks() {
    let highlights = release_highlights("Intro text\n- one\n-- not a bullet\n*x not a bullet\n* three\n- -*two\n");
    assert_eq!(highlights, vec!["• one".to_string(), "• three".to_string(), "• -*two".to_string()]);
}

#[test]
fn highlights_trim_unicode_space_and_keep_exactly_one_hundred_chars() {
    let exact = "b".repeat(100);
    let notes = format!("\u{3000}- {}\u{a0}", exact);
    let highlights = release_highlights(&notes);
    assert_eq!(highlights, vec![format!("• {}", exact)]);
}

#[test]
fn highlights_cut_line_is_trimmed_before_the_ellipsis() {
    let text = format!("{}  {}", "c".repeat(97), "d".repeat(10));
    let highlights = release_highlights(&format!("- {}", text));
    assert_eq!(highlights, vec![format!("• {}…", "c".repeat(97))]);
}

#[test]
fn unicode_white_space_is_trimmed_like_str_trim() {
    let notes = "\u{3000}- one\u{A0}\u{2028}\n\u{85}* two\u{205F}";
    assert_eq!(release_highlights(notes), vec!["• one".to_string(), "• two".to_string()]);
    assert_eq!(release_highlights(notes), vec![format!("• {}", "- one\u{A0}".trim_start_matches('-').trim()), "• two".to_string()]);
}
