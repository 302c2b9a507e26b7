use codex_login_mcp::sanitize::sanitize_tool_name;
use codex_login_mcp::tool_names::{
    after_fallback, fallback_failure_message, is_valid_tool_name, sanitize_protocol_tool_name,
    CallStep, ToolNameMap,
};
use sha2::Digest;

#[test]
fn basic_normalization() {
    assert_eq!(sanitize_tool_name("Hello World!"), "hello-world");
    assert_eq!(sanitize_tool_name("A__B"), "a__b");
    assert_eq!(sanitize_tool_name("A.B"), "a.b");
}

#[test]
fn clamped_with_hash() {
    let s = "x".repeat(200);
    let got = sanitize_tool_name(&s);
    assert!(got.len() <= 64);
    assert!(got.contains('-'));
}

#[test]
fn clamped_name_keeps_head_and_hash_tail() {
    let s = "x".repeat(200);
    let got = sanitize_tool_name(&s);
    // the head keeps 55; the tail hashes the whole trimmed name
    let trimmed = "x".repeat(200);
    let digest = sha2::Sha256::digest(trimmed.as_bytes());
    let hex: String = digest.iter().map(|b| format!("{:02x}", b)).collect();
    let expected = format!("{}-{}", "x".repeat(55), &hex[0..8]);
    assert_eq!(got, expected);
    assert_eq!(got.len(), 64);
}

#[test]
fn dashes_collapse_and_trim() {
    assert_eq!(sanitize_tool_name("--a  --  b--"), "a----b");
    assert_eq!(sanitize_tool_name("a--b"), "a--b");
    assert_eq!(sanitize_tool_name("a!?b"), "a-b");
    assert_eq!(sanitize_tool_name("a-!b"), "a--b");
    assert_eq!(sanitize_tool_name(&format!("{}x", "-".repeat(80))), "x");
    assert_eq!(sanitize_tool_name(&format!("x{}y", "-".repeat(79))).len(), 64);
    assert_eq!(sanitize_tool_name("éclair"), "clair");
    assert_eq!(sanitize_tool_name("a-b"), "a-b");
    assert_eq!(sanitize_tool_name(""), "");
    assert_eq!(sanitize_tool_name("!!!"), "");
}

#[test]
fn name_of_exactly_sixty_four_is_kept() {
    let s = "y".repeat(64);
    assert_eq!(sanitize_tool_name(&s), s);
    let t = "y".repeat(65);
    let got = sanitize_tool_name(&t);
    assert_eq!(got.len(), 64);
    assert_eq!(&got[0..56], &format!("{}-", "y".repeat(55)));
}

#[test]
fn protocol_sanitizer_replaces_other_characters() {
    assert_eq!(sanitize_protocol_tool_name("codex-reply"), "codex-reply");
    assert_eq!(sanitize_protocol_tool_name("a.b/c d"), "a_b_c_d");
    assert_eq!(sanitize_protocol_tool_name("Ünï"), "_n_");
    assert!(is_valid_tool_name(&sanitize_protocol_tool_name("x y.z")));
    assert!(!is_valid_tool_name("x y"));
    assert!(is_valid_tool_name("Tool_1-a"));
}

#[test]
fn colliding_names_get_numbered_and_map_back() {
    let advertised_names = vec![
        "a.b".to_string(),
        "a_b".to_string(),
        "a/b".to_string(),
        "".to_string(),
        "a.b".to_string(),
    ];
    let mut map = ToolNameMap::new();
    let names = map.assign(&advertised_names);
    assert_eq!(names, vec!["a_b", "a_b_2", "a_b_3", "_", "a_b"]);
    for (presented, advertised) in names.iter().zip(advertised_names.iter()) {
        assert_eq!(map.lookup(presented).as_ref(), Some(advertised));
        let plan = map.plan_call(presented);
        assert_eq!(&plan.primary, advertised);
    }
}

#[test]
fn call_plan_falls_back_to_presented_name() {
    let mut map = ToolNameMap::new();
    let names = map.assign(&vec!["do.it".to_string(), "plain".to_string()]);
    assert_eq!(names, vec!["do_it", "plain"]);
    let plan = map.plan_call(&"do_it".to_string());
    assert_eq!(plan.primary, "do.it");
    assert_eq!(plan.fallback.as_deref(), Some("do_it"));
    let plain = map.plan_call(&"plain".to_string());
    assert_eq!(plain.primary, "plain");
    assert_eq!(plain.fallback, None);
    let unknown = map.plan_call(&"other".to_string());
    assert_eq!(unknown.primary, "other");
    assert_eq!(unknown.fallback, None);
}

#[test]
fn reassigning_clears_earlier_names() {
    let mut map = ToolNameMap::new();
    map.assign(&vec!["x.y".to_string()]);
    map.assign(&vec!["z".to_string()]);
    assert_eq!(map.lookup(&"x_y".to_string()), None);
    assert_eq!(map.lookup(&"z".to_string()), Some("z".to_string()));
}

#[test]
fn sanitizing_twice_changes_nothing_for_short_names() {
    for name in ["Hello World!", "--A..b__C--", "x/y\\z", "ünïcode name", "ok-name.v2"] {
        let once = sanitize_tool_name(name);
        assert!(once.len() <= 64);
        assert_eq!(sanitize_tool_name(&once), once);
    }
}

#[test]
fn clamped_name_stays_when_sanitized_again() {
    let name = format!("{}-{}", "a".repeat(54), "b".repeat(20));
    let once = sanitize_tool_name(&name);
    assert_eq!(once.len(), 64);
    assert_eq!(&once[..56], &format!("{}--", "a".repeat(54)));
    assert_eq!(sanitize_tool_name(&once), once);
    let long = "Tool Name ".repeat(30);
    let clamped = sanitize_tool_name(&long);
    assert_eq!(clamped.len(), 64);
    assert_eq!(sanitize_tool_name(&clamped), clamped);
}

#[test]
fn call_retries_under_presented_name_only_after_failure() {
    let mut map = ToolNameMap::new();
    map.assign(&vec!["do.it".to_string()]);
    let plan = map.plan_call(&"do_it".to_string());
    match plan.after_first_attempt::<u32, String>(Ok(7)) {
        CallStep::Done(Ok(7)) => {}
        _ => panic!("a successful first attempt ends the call"),
    }
    match plan.after_first_attempt::<u32, String>(Err("e1".to_string())) {
        CallStep::Retry { name, first_error } => {
            assert_eq!(name, "do_it");
            assert_eq!(first_error, "e1");
        }
        _ => panic!("a failed first attempt is retried"),
    }
    let same = map.plan_call(&"other".to_string());
    match same.after_first_attempt::<u32, String>(Err("e1".to_string())) {
        CallStep::Done(Err(e)) => assert_eq!(e, "e1"),
        _ => panic!("without a fallback the first error ends the call"),
    }
}

#[test]
fn fallback_failure_names_both_errors() {
    assert_eq!(
        fallback_failure_message("boom", "bang"),
        "first attempt failed: boom; fallback failed: bang"
    );
    assert_eq!(after_fallback::<u32>("boom", Ok(3)), Ok(3));
    assert_eq!(
        after_fallback::<u32>("boom", Err("bang".to_string())),
        Err("first attempt failed: boom; fallback failed: bang".to_string())
    );
}
