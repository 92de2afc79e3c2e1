use bigbrother::error::ErrorCode;
use bigbrother::keymap::{KeyId, key_name_to_code, key_to_char, key_to_code};
use bigbrother::locator::Locator;
use bigbrother::selector::{Attr, Selector, parse_selector, parse_usize};
use bigbrother::tree::{NodeAttrs, ScrapedMessage, UiNode, dedup_messages, scrape_tree, str_contains};

fn attrs(role: &str, name: &str) -> NodeAttrs {
    NodeAttrs {
        role: Some(String::from(role)),
        name: Some(String::from(name)),
        value: None,
        description: None,
    }
}

fn leaf(role: &str, name: &str, x: i32, y: i32) -> UiNode {
    UiNode { attrs: attrs(role, name), x, y, children: Vec::new() }
}

fn demo_tree() -> UiNode {
    UiNode {
        attrs: attrs("Window", "Main"),
        x: 0,
        y: 0,
        children: vec![
            UiNode {
                attrs: attrs("Group", "Toolbar"),
                x: 0,
                y: 0,
                children: vec![
                    leaf("Button", "Submit", 10, 10),
                    leaf("Button", "Cancel", 20, 10),
                ],
            },
            leaf("Button", "Submit order", 30, 40),
        ],
    }
}

#[test]
fn parse_conjunction_with_and() {
    let sel = parse_selector("role:Button AND name:Submit").unwrap();
    assert_eq!(sel.predicates.len(), 2);
    assert!(matches!(sel.predicates[0].attr, Attr::Role));
    assert_eq!(sel.predicates[0].value, "Button");
    assert!(matches!(sel.predicates[1].attr, Attr::Name));
    assert_eq!(sel.predicates[1].value, "Submit");
    assert!(sel.index.is_none());
}

#[test]
fn parse_accepts_title_desc_value_and_case_folded_names() {
    let sel = parse_selector("TITLE:Doc and DESC:hint AND value:42").unwrap();
    assert_eq!(sel.predicates.len(), 3);
    assert!(matches!(sel.predicates[0].attr, Attr::Name));
    assert!(matches!(sel.predicates[1].attr, Attr::Description));
    assert!(matches!(sel.predicates[2].attr, Attr::Value));
}

#[test]
fn parse_index_selector() {
    let sel = parse_selector("index:42").unwrap();
    assert_eq!(sel.predicates.len(), 0);
    assert_eq!(sel.index, Some(42));
}

#[test]
fn parse_rejects_bad_tokens() {
    assert_eq!(parse_selector("Button").unwrap_err().code(), ErrorCode::InvalidSelector);
    assert_eq!(parse_selector("color:red").unwrap_err().code(), ErrorCode::InvalidSelector);
    assert_eq!(parse_selector("index:2 index:3").unwrap_err().code(), ErrorCode::InvalidSelector);
    assert_eq!(parse_selector("index:9x").unwrap_err().code(), ErrorCode::InvalidSelector);
    assert_eq!(parse_selector("index:").unwrap_err().code(), ErrorCode::InvalidSelector);
}

#[test]
fn parse_empty_selector_matches_every_node() {
    let sel = parse_selector("").unwrap();
    assert_eq!(sel.predicates.len(), 0);
    let root = demo_tree();
    let hits = Locator::new(sel).find_all(&root);
    assert_eq!(hits.len(), 5); // every node of the demo tree
}

#[test]
fn parse_usize_reads_decimal_numbers() {
    assert_eq!(parse_usize("0"), Some(0));
    assert_eq!(parse_usize("907"), Some(907));
    assert_eq!(parse_usize(""), None);
    assert_eq!(parse_usize("12a"), None);
    assert_eq!(parse_usize("99999999999999999999999999"), None);
}

#[test]
fn contains_is_substring_search() {
    assert!(str_contains("Submit order", "Submit"));
    assert!(str_contains("Submit order", "t o"));
    assert!(str_contains("abc", ""));
    assert!(!str_contains("abc", "abcd"));
    assert!(!str_contains("Submit", "submit"));
}

#[test]
fn find_all_collects_matches_in_visitation_order() {
    let root = demo_tree();
    let sel = parse_selector("role:Button").unwrap();
    let hits = Locator::new(sel).find_all(&root);
    let names: Vec<String> =
        hits.iter().map(|h| h.attrs.name.clone().unwrap()).collect();
    assert_eq!(
        names,
        vec![String::from("Submit"), String::from("Cancel"), String::from("Submit order")]
    );
}

#[test]
fn name_matching_is_by_containment_role_exact() {
    let root = demo_tree();
    let sel = parse_selector("role:Button AND name:Submit").unwrap();
    let hits = Locator::new(sel).find_all(&root);
    assert_eq!(hits.len(), 2); // "Submit" and "Submit order" both contain it
    let sel2 = parse_selector("role:Butt").unwrap();
    assert_eq!(Locator::new(sel2).find_all(&root).len(), 0); // role compares exactly
}

#[test]
fn index_selects_the_nth_match_of_one_traversal() {
    let root = demo_tree();
    let sel = parse_selector("index:1").unwrap();
    let hits = Locator::new(sel).find_all(&root);
    assert_eq!(hits.len(), 1);
    assert_eq!(hits[0].attrs.name.clone().unwrap(), "Toolbar"); // second node in DFS order
    let sel_far = parse_selector("index:99").unwrap();
    assert_eq!(Locator::new(sel_far).find_all(&root).len(), 0);
}

#[test]
fn depth_bound_guards_traversal() {
    let root = demo_tree();
    let sel = parse_selector("role:Button").unwrap();
    let loc = Locator { max_depth: 1, ..Locator::new(sel) };
    // at depth one only the toolbar's parent level is reached, not its leaves
    assert_eq!(loc.find_all(&root).len(), 1);
}

#[test]
fn locator_attempt_count_covers_the_timeout() {
    let sel = parse_selector("role:Button").unwrap();
    let loc = Locator::new(sel).timeout(5000).poll_interval(100);
    assert_eq!(loc.attempts(), 51);
    let sel2 = parse_selector("role:Button").unwrap();
    let loc2 = Locator::new(sel2).timeout(250).poll_interval(100);
    assert_eq!(loc2.attempts(), 4); // polls at 0, 100, 200, 300 ms
}

#[test]
fn find_fails_with_element_not_found_after_all_rounds() {
    let sel = parse_selector("role:Missing").unwrap();
    let loc = Locator::new(sel).timeout(300).poll_interval(100);
    let rounds: Vec<UiNode> = (0..loc.attempts()).map(|_| demo_tree()).collect();
    let err = loc.find_in_rounds(&rounds).unwrap_err();
    assert_eq!(err.code(), ErrorCode::ElementNotFound);
}

#[test]
fn find_returns_first_match_of_first_round_that_has_one() {
    let sel = parse_selector("role:Dialog").unwrap();
    let loc = Locator::new(sel).timeout(300).poll_interval(100);
    let mut rounds: Vec<UiNode> = (0..loc.attempts()).map(|_| demo_tree()).collect();
    rounds[2].children.push(leaf("Dialog", "Save?", 70, 80));
    rounds[3].children.push(leaf("Dialog", "Save?", 70, 80));
    let (hit, elapsed) = loc.find_in_rounds(&rounds).unwrap();
    assert_eq!(hit.attrs.role.unwrap(), "Dialog");
    assert_eq!((hit.x, hit.y), (70, 80));
    assert_eq!(elapsed, 200);
}

#[test]
fn scrape_collects_long_texts_with_role_labels() {
    let mut root = demo_tree();
    root.children[0].children[0].attrs.value = Some(String::from("hello there"));
    root.children[0].children[0].attrs.description = Some(String::from("ok")); // too short
    let msgs = scrape_tree(&root, 20);
    // names longer than two characters count too
    assert!(msgs.iter().any(|m| m.content == "hello there" && m.label == "Button"));
    assert!(msgs.iter().all(|m| m.content != "ok"));
}

#[test]
fn dedup_drops_consecutive_equal_contents() {
    let mk = |c: &str| ScrapedMessage { label: String::from("Text"), content: String::from(c) };
    let msgs = vec![mk("a"), mk("a"), mk("b"), mk("a"), mk("a"), mk("a")];
    let out = dedup_messages(&msgs);
    let contents: Vec<String> = out.iter().map(|m| m.content.clone()).collect();
    assert_eq!(contents, vec![String::from("a"), String::from("b"), String::from("a")]);
}

#[test]
fn key_tables_map_the_recorded_codes() {
    assert_eq!(key_to_code(KeyId::KeyA), 0x41);
    assert_eq!(key_to_code(KeyId::Return), 0x0D);
    assert_eq!(key_to_code(KeyId::F12), 0x7B);
    assert_eq!(key_to_code(KeyId::Unknown), 0);
    assert_eq!(key_to_char(KeyId::KeyA), Some('a'));
    assert_eq!(key_to_char(KeyId::Num7), Some('7'));
    assert_eq!(key_to_char(KeyId::Space), Some(' '));
    assert_eq!(key_to_char(KeyId::Escape), None);
}

#[test]
fn key_names_resolve_ignoring_case() {
    assert_eq!(key_name_to_code("PageUp"), Some(116));
    assert_eq!(key_name_to_code("page_up"), Some(116));
    assert_eq!(key_name_to_code("ESC"), Some(53));
    assert_eq!(key_name_to_code("Enter"), Some(36));
    assert_eq!(key_name_to_code("arrow_down"), Some(125));
    assert_eq!(key_name_to_code("bogus"), None);
}

#[test]
fn selector_views_survive_rebuilding() {
    let sel = parse_selector("name:Sub AND index:0").unwrap();
    let rebuilt = Selector { predicates: sel.predicates, index: sel.index };
    assert_eq!(rebuilt.index, Some(0));
    let hits = Locator::new(rebuilt).find_all(&demo_tree());
    assert_eq!(hits.len(), 1);
    assert_eq!(hits[0].attrs.name.clone().unwrap(), "Submit");
}
