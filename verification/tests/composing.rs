use im_crashing::preedit::render_preedit;
use im_crashing::rime::{RawCandidate, RawComposition, RawContext, RawMenu, RimeContext};

fn context(preedit: Option<&str>, candidates: &[&str], highlighted: i32) -> RimeContext {
    let raw = RawContext {
        composition: RawComposition {
            length: 0,
            cursor_pos: 0,
            sel_start: 0,
            sel_end: 0,
            preedit: preedit.map(|p| p.to_string()),
        },
        menu: RawMenu {
            page_size: 5,
            page_no: 0,
            is_last_page: 0,
            highlighted_candidate_index: highlighted,
            num_candidates: candidates.len() as i32,
            candidates: Some(
                candidates
                    .iter()
                    .map(|c| RawCandidate {
                        text: Some(c.to_string()),
                        comment: None,
                    })
                    .collect(),
            ),
            select_keys: None,
        },
        commit_text_preview: None,
        select_labels: None,
    };
    RimeContext::from_raw(&raw)
}

#[test]
fn preedit_lists_candidates_with_highlight() {
    let p = render_preedit(&context(Some("ni"), &["你", "尼", "泥"], 0));
    assert_eq!(p.text, "ni [1. 你] 2. 尼 3. 泥");
    assert_eq!(p.cursor_begin, 2);
    assert_eq!(p.cursor_end, 2);
}

#[test]
fn preedit_highlight_in_the_middle() {
    let p = render_preedit(&context(Some("hao"), &["好", "号"], 1));
    assert_eq!(p.text, "hao 1. 好 [2. 号]");
    assert_eq!(p.cursor_begin, 3);
}

#[test]
fn preedit_cursor_counts_bytes() {
    let p = render_preedit(&context(Some("你h"), &["你好"], -1));
    assert_eq!(p.text, "你h 1. 你好");
    assert_eq!(p.cursor_begin, 4);
    assert_eq!(p.cursor_end, 4);
    // The cursor stands right behind the composed text.
    assert_eq!(&p.text.as_bytes()[..p.cursor_begin as usize], "你h".as_bytes());
}

#[test]
fn preedit_numbers_past_nine() {
    let texts = ["a", "b", "c", "d", "e", "f", "g", "h", "i", "j", "k"];
    let p = render_preedit(&context(Some("x"), &texts, 10));
    assert_eq!(
        p.text,
        "x 1. a 2. b 3. c 4. d 5. e 6. f 7. g 8. h 9. i 10. j [11. k]"
    );
}

#[test]
fn preedit_empty_or_absent_shows_nothing() {
    let p = render_preedit(&context(Some(""), &["你"], 0));
    assert_eq!(p.text, "");
    assert_eq!(p.cursor_begin, 0);
    assert_eq!(p.cursor_end, 0);
    let q = render_preedit(&context(None, &["你"], 0));
    assert_eq!(q.text, "");
    assert_eq!(q.cursor_begin, 0);
}

#[test]
fn preedit_without_candidates_is_the_composed_text() {
    let p = render_preedit(&context(Some("abc"), &[], 0));
    assert_eq!(p.text, "abc");
    assert_eq!(p.cursor_begin, 3);
}
