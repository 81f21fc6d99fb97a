use chatbot::{
    changed_span_count, changed_spans, choose_profile_write, has_content, profile_request,
    reconcile, is_white_space_char, render_units, trim_text, reply_lead_in, reply_terminator, reply_text, written_content, Choice,
    CompletionReply, IndicatorStep, ProfileWrite, Role, WaitIndicator, INDICATOR_CYCLE, ROLLBACK_THRESHOLD,
};

#[test]
fn threshold_boundary_accepts_revision() {
    assert_eq!(ROLLBACK_THRESHOLD, 200);
    assert_eq!(
        choose_profile_write(200, "new".to_string()),
        ProfileWrite::Revision("new".to_string())
    );
    assert_eq!(choose_profile_write(201, "new".to_string()), ProfileWrite::Backup);
    assert_eq!(
        choose_profile_write(0, "same".to_string()),
        ProfileWrite::Revision("same".to_string())
    );
}

#[test]
fn written_content_picks_revision_or_backup() {
    assert_eq!(
        written_content(ProfileWrite::Revision("rev".to_string()), "bak".to_string()),
        "rev"
    );
    assert_eq!(written_content(ProfileWrite::Backup, "bak".to_string()), "bak");
}

#[test]
fn identical_revision_leaves_profile_unchanged() {
    let doc = "likes tea\nlives by the sea\n";
    assert_eq!(changed_spans(doc, doc), 0);
    let w = reconcile(doc, doc.to_string());
    assert_eq!(w, ProfileWrite::Revision(doc.to_string()));
    assert_eq!(written_content(w, "backup".to_string()), doc);
}

#[test]
fn small_revision_is_accepted() {
    let current = "likes tea";
    let revised = "likes green tea";
    let n = changed_spans(current, revised);
    assert!(n >= 1);
    assert!(n <= ROLLBACK_THRESHOLD);
    assert_eq!(
        reconcile(current, revised.to_string()),
        ProfileWrite::Revision(revised.to_string())
    );
}

#[test]
fn runaway_revision_is_rolled_back() {
    let current = "ab".repeat(300);
    let revised = "ac".repeat(300);
    let n = changed_spans(&current, &revised);
    assert!(n > ROLLBACK_THRESHOLD);
    assert_eq!(reconcile(&current, revised), ProfileWrite::Backup);
}

#[test]
fn span_count_skips_equal_tags() {
    let tags: Vec<String> = vec!["equal", "replace", "equal", "insert", "delete"]
        .into_iter()
        .map(|t| t.to_string())
        .collect();
    assert_eq!(changed_span_count(&tags), 3);
    assert_eq!(changed_span_count(&Vec::new()), 0);
}

#[test]
fn profile_request_is_the_fixed_exchange() {
    let r = profile_request();
    assert_eq!(r.model, "gpt-3.5-turbo-0125");
    assert_eq!(r.temperature, Some(0));
    assert_eq!(r.max_tokens, Some(4000));
    assert_eq!(r.messages.len(), 2);
    assert_eq!(r.messages[0].role, Role::System);
    assert_eq!(r.messages[0].content, "Profile_check");
    assert_eq!(r.messages[1].role, Role::User);
    assert_eq!(r.messages[1].content, "user_chat_log_content");
}

#[test]
fn reply_text_takes_first_choice() {
    let empty = CompletionReply { choices: Vec::new() };
    assert_eq!(reply_text(&empty), "");
    let no_content = CompletionReply { choices: vec![Choice { content: None }] };
    assert_eq!(reply_text(&no_content), "");
    let two = CompletionReply {
        choices: vec![
            Choice { content: Some("first".to_string()) },
            Choice { content: Some("second".to_string()) },
        ],
    };
    assert_eq!(reply_text(&two), "first");
}

#[test]
fn indicator_cycles_and_clears() {
    assert_eq!(INDICATOR_CYCLE, 6);
    let mut w = WaitIndicator::new();
    let mut frames = Vec::new();
    for _ in 0..8 {
        match w.step(false) {
            IndicatorStep::Frame(t) => frames.push(t),
            IndicatorStep::Finish(_) => panic!("no stop was requested"),
        }
    }
    assert_eq!(frames[0], "\rThinking");
    assert_eq!(frames[1], "\rThinking.");
    assert_eq!(frames[4], "\rThinking....");
    assert_eq!(frames[5], "\rThinking      ");
    assert_eq!(frames[6], frames[0]);
    assert_eq!(frames[7], frames[1]);
    for f in &frames {
        assert!(f.chars().count() <= "\rThinking".chars().count() + 6);
    }
    assert_eq!(w.position(), 2);
    match w.step(true) {
        IndicatorStep::Finish(t) => assert_eq!(t, "\rThinking       \n"),
        IndicatorStep::Frame(_) => panic!("a stop was requested"),
    }
}

#[test]
fn renderer_emits_each_character() {
    assert_eq!(reply_lead_in(), "Bot: ");
    assert_eq!(reply_terminator(), "\n");
    assert_eq!(render_units("héllo"), vec!['h', 'é', 'l', 'l', 'o']);
    assert!(render_units("").is_empty());
}

#[test]
fn content_test_ignores_white_space() {
    assert!(!has_content(""));
    assert!(!has_content(" \t\r\n\u{2003}"));
    assert!(has_content(" a "));
}

#[test]
fn stop_before_first_frame_writes_only_the_closing_line() {
    let mut w = WaitIndicator::new();
    match w.step(true) {
        IndicatorStep::Finish(t) => assert_eq!(t, format!("\rThinking{}\n", " ".repeat(7))),
        IndicatorStep::Frame(_) => panic!("a stop was requested"),
    }
}

#[test]
fn white_space_is_the_unicode_property() {
    let spaces: Vec<u32> = vec![
        0x9, 0xa, 0xb, 0xc, 0xd, 0x20, 0x85, 0xa0, 0x1680, 0x2000, 0x2001, 0x2002, 0x2003,
        0x2004, 0x2005, 0x2006, 0x2007, 0x2008, 0x2009, 0x200a, 0x2028, 0x2029, 0x202f, 0x205f,
        0x3000,
    ];
    assert_eq!(spaces.len(), 25);
    for n in 0u32..0x3100 {
        if let Some(c) = char::from_u32(n) {
            assert_eq!(is_white_space_char(c), spaces.contains(&n));
            assert_eq!(is_white_space_char(c), c.is_whitespace());
        }
    }
}

#[test]
fn trim_removes_white_space_at_both_ends() {
    assert_eq!(trim_text("  a b \n"), "a b");
    assert_eq!(trim_text("\u{3000}\u{85}x\u{2028}"), "x");
    assert_eq!(trim_text(" \t "), "");
    assert_eq!(trim_text(""), "");
    assert_eq!(trim_text("héllo"), "héllo");
    let sample = " \u{a0} mixed\ttext \u{205f}";
    assert_eq!(trim_text(sample), sample.trim());
}
