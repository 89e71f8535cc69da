use im_crashing::rime::{
    RawCandidate, RawCommit, RawComposition, RawContext, RawMenu, Rime, RimeCall, RimeCandidate,
    RimeCommit, RimeContext, RimeMenu, RimeSessionId, candidates_to_read, rime_traits,
};

fn raw_candidate(text: Option<&str>) -> RawCandidate {
    RawCandidate {
        text: text.map(|t| t.to_string()),
        comment: None,
    }
}

fn raw_menu(num: i32, candidates: Option<Vec<RawCandidate>>) -> RawMenu {
    RawMenu {
        page_size: 5,
        page_no: 2,
        is_last_page: 1,
        highlighted_candidate_index: 1,
        num_candidates: num,
        candidates,
        select_keys: Some("12345".to_string()),
    }
}

#[test]
fn first_init_sets_up_and_last_deinit_finalizes() {
    let mut rime = Rime::new();
    assert!(!rime.is_init());
    assert!(rime.init());
    assert!(rime.is_init());
    assert!(!rime.init());
    assert!(!rime.init());
    assert_eq!(rime.users(), 3);
    assert!(!rime.deinit());
    assert!(!rime.deinit());
    assert_eq!(rime.users(), 1);
    assert!(rime.deinit());
    assert_eq!(rime.users(), 0);
    assert!(rime.is_init());
}

#[test]
fn deinit_before_init_does_nothing() {
    let mut rime = Rime::new();
    assert!(!rime.deinit());
    assert_eq!(rime.users(), 0);
    assert!(!rime.is_init());
}

#[test]
fn init_after_final_deinit_does_not_set_up_again() {
    let mut rime = Rime::new();
    assert!(rime.init());
    assert!(rime.deinit());
    assert!(!rime.init());
    assert_eq!(rime.users(), 1);
    // The setup was released: the last user leaving finalises nothing more.
    assert!(!rime.deinit());
}

#[test]
fn init_then_deinit_restores_the_count() {
    let mut rime = Rime::new();
    rime.init();
    rime.init();
    let before = rime.users();
    assert!(!rime.init());
    assert!(!rime.deinit());
    assert_eq!(rime.users(), before);
}

#[test]
fn session_requests_name_the_session() {
    let mut rime = Rime::new();
    rime.init();
    let id = RimeSessionId::from_raw(42);
    assert_eq!(id.raw(), 42);
    assert_eq!(rime.create_session(), RimeCall::CreateSession);
    assert_eq!(rime.destroy_session(&id), RimeCall::DestroySession { session: 42 });
    assert_eq!(rime.clear_composition(&id), RimeCall::ClearComposition { session: 42 });
    assert_eq!(rime.get_commit(&id), RimeCall::GetCommit { session: 42 });
    assert_eq!(rime.get_context(&id), RimeCall::GetContext { session: 42 });
}

#[test]
fn process_key_request_carries_key_and_mask() {
    let id = RimeSessionId::from_raw(7);
    assert_eq!(
        Rime::process_key(&id, 0x61, 1 << 30),
        RimeCall::ProcessKey {
            session: 7,
            keycode: 0x61,
            mask: 1 << 30
        }
    );
}

#[test]
fn key_reply_is_true_only_for_one() {
    assert!(Rime::key_reply(1));
    assert!(!Rime::key_reply(0));
    assert!(!Rime::key_reply(2));
    assert!(!Rime::key_reply(-1));
}

#[test]
fn commit_reply_without_commit_is_none() {
    let raw = RawCommit { text: None };
    assert!(Rime::commit_reply(0, &raw).is_none());
}

#[test]
fn commit_reply_gives_the_text() {
    let raw = RawCommit {
        text: Some("你好".to_string()),
    };
    let commit: RimeCommit = Rime::commit_reply(1, &raw).unwrap();
    assert_eq!(commit.text, "你好");
    assert_eq!(RimeCommit::from_raw(&raw).text, "你好");
}

#[test]
fn candidate_with_null_text_is_empty() {
    let c = RimeCandidate::from_raw(&raw_candidate(None));
    assert_eq!(c.text, "");
    assert_eq!(c.text(), "");
    let d = RimeCandidate::from_raw(&raw_candidate(Some("好")));
    assert_eq!(d.text, "好");
}

#[test]
fn candidates_to_read_cases() {
    assert_eq!(candidates_to_read(true, 3), 3);
    assert_eq!(candidates_to_read(false, 3), 0);
    assert_eq!(candidates_to_read(true, 0), 0);
    assert_eq!(candidates_to_read(true, -4), 0);
}

#[test]
fn menu_converts_its_candidates() {
    let raw = raw_menu(
        2,
        Some(vec![raw_candidate(Some("你")), raw_candidate(None)]),
    );
    let menu: RimeMenu = RimeMenu::from_raw(&raw);
    assert_eq!(menu.page_size, 5);
    assert_eq!(menu.page_no, 2);
    assert_eq!(menu.highlighted_candidate_index, 1);
    assert_eq!(menu.highlighted(), 1);
    assert_eq!(menu.len(), 2);
    assert_eq!(menu.candidates[0].text, "你");
    assert_eq!(menu.candidate(1).text, "");
}

#[test]
fn menu_without_candidates_is_empty() {
    assert_eq!(RimeMenu::from_raw(&raw_menu(3, None)).len(), 0);
    assert_eq!(RimeMenu::from_raw(&raw_menu(0, Some(vec![]))).len(), 0);
    assert_eq!(RimeMenu::from_raw(&raw_menu(-2, Some(vec![]))).len(), 0);
}

#[test]
fn context_reply_converts_or_fails() {
    let raw = RawContext {
        composition: RawComposition {
            length: 2,
            cursor_pos: 2,
            sel_start: 0,
            sel_end: 2,
            preedit: Some("ni".to_string()),
        },
        menu: raw_menu(1, Some(vec![raw_candidate(Some("你"))])),
        commit_text_preview: Some("你".to_string()),
        select_labels: Some(vec!["1".to_string()]),
    };
    assert!(Rime::context_reply(0, &raw).is_none());
    let ctx: RimeContext = Rime::context_reply(1, &raw).unwrap();
    assert_eq!(ctx.composition.length, 2);
    assert_eq!(ctx.composition.cursor_pos, 2);
    assert_eq!(ctx.composition.sel_end, 2);
    assert_eq!(ctx.composition().preedit.as_deref(), Some("ni"));
    assert_eq!(ctx.menu().len(), 1);
    assert_eq!(ctx.menu.candidates[0].text, "你");
    let direct = RimeContext::from_raw(&raw);
    assert_eq!(direct.menu.page_no, 2);
}

#[test]
fn traits_paths_follow_home_and_program() {
    let t = rime_traits("/home/u", "/usr/share/rime-data", "im-crashing", "0.1.0");
    assert_eq!(t.shared_data_dir, "/usr/share/rime-data");
    assert_eq!(t.user_data_dir, "/home/u/.local/share/im-crashing/rime");
    assert_eq!(t.log_dir, "/home/u/.local/share/im-crashing/log");
    assert_eq!(t.app_name, "rime.im-crashing");
    assert_eq!(t.distribution_name, "im-crashing");
    assert_eq!(t.distribution_code_name, "im-crashing");
    assert_eq!(t.distribution_version, "0.1.0");
}

#[test]
fn initialized_stays_through_any_uses() {
    let mut rime = Rime::new();
    rime.init();
    for op in [false, false, true, false, true, true, false, false, false] {
        if op {
            rime.init();
        } else if !(rime.is_init() && rime.users() == 0) {
            rime.deinit();
        }
        assert!(rime.is_init());
    }
}
