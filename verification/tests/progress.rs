use vivado_mac::progress::{
    shorten_id, BarCommand, BarOp, BarStyle, ImageInfo, ProgressDetail, ProgressTracker,
};

fn event(id: Option<&str>, status: Option<&str>, detail: Option<(Option<i64>, Option<i64>)>) -> ImageInfo {
    ImageInfo {
        id: id.map(|s| s.to_string()),
        status: status.map(|s| s.to_string()),
        progress_detail: detail.map(|(current, total)| ProgressDetail { current, total }),
    }
}

fn describe(c: &BarCommand) -> Vec<String> {
    c.ops.iter().map(|o| format!("{o:?}")).collect()
}

#[test]
fn downloading_adds_a_bar_with_progress() {
    let mut t = ProgressTracker::new();
    let c = t
        .update(&event(Some("0123456789abcdef"), Some("Downloading"), Some((Some(10), Some(100)))))
        .unwrap();
    assert_eq!(c.index, 0);
    assert!(c.added);
    assert_eq!(
        describe(&c),
        vec![
            format!("{:?}", BarOp::SetStyle(BarStyle::Status)),
            format!("{:?}", BarOp::SetPrefix("0123456789ab".to_string())),
            format!("{:?}", BarOp::SetStyle(BarStyle::Download)),
            format!("{:?}", BarOp::SetPrefix("0123456789ab dl".to_string())),
            format!("{:?}", BarOp::SetLength(100)),
            format!("{:?}", BarOp::SetPosition(10)),
        ]
    );
    assert_eq!(t.len(), 1);
    let b = t.bar(0);
    assert_eq!(b.key, "0123456789abcdef");
    assert_eq!(b.style, BarStyle::Download);
    assert_eq!(b.prefix, "0123456789ab dl");
    assert_eq!(b.length, 100);
    assert_eq!(b.position, 10);
    assert!(!b.finished);
}

#[test]
fn later_events_reuse_the_bar() {
    let mut t = ProgressTracker::new();
    t.update(&event(Some("aaa"), Some("Downloading"), None));
    let c = t.update(&event(Some("aaa"), Some("Extracting"), Some((Some(5), Some(50))))).unwrap();
    assert_eq!(c.index, 0);
    assert!(!c.added);
    assert_eq!(c.ops.len(), 4);
    assert_eq!(t.len(), 1);
    assert_eq!(t.bar(0).style, BarStyle::Extract);
    assert_eq!(t.bar(0).prefix, "aaa ex");
    assert_eq!(t.bar(0).position, 5);
}

#[test]
fn counters_need_both_values() {
    let mut t = ProgressTracker::new();
    let c = t.update(&event(Some("aaa"), Some("Downloading"), Some((Some(5), None)))).unwrap();
    assert_eq!(c.ops.len(), 4);
    assert_eq!(t.bar(0).length, 0);
    assert_eq!(t.bar(0).position, 0);
}

#[test]
fn negative_counters_wrap_as_u64() {
    let mut t = ProgressTracker::new();
    t.update(&event(Some("aaa"), Some("Downloading"), Some((Some(-1), Some(-2)))));
    assert_eq!(t.bar(0).length, u64::MAX - 1);
    assert_eq!(t.bar(0).position, u64::MAX);
}

#[test]
fn pull_complete_finishes_known_layer() {
    let mut t = ProgressTracker::new();
    t.update(&event(Some("layer1"), Some("Downloading"), None));
    let c = t.update(&event(Some("layer1"), Some("Pull complete"), None)).unwrap();
    assert!(!c.added);
    assert_eq!(
        describe(&c),
        vec![
            format!("{:?}", BarOp::SetStyle(BarStyle::Status)),
            format!("{:?}", BarOp::SetPrefix("layer1".to_string())),
            format!("{:?}", BarOp::FinishWithMessage("Pull complete".to_string())),
        ]
    );
    assert!(t.bar(0).finished);
    assert_eq!(t.bar(0).message, "Pull complete");
}

#[test]
fn layer_end_of_unknown_layer_is_ignored() {
    let mut t = ProgressTracker::new();
    assert!(t.update(&event(Some("layer9"), Some("Already exists"), None)).is_none());
    assert!(t.update(&event(Some("layer9"), Some("Pull complete"), None)).is_none());
    assert_eq!(t.len(), 0);
}

#[test]
fn other_status_becomes_the_message() {
    let mut t = ProgressTracker::new();
    let c = t.update(&event(Some("layer2"), Some("Waiting"), None)).unwrap();
    assert!(c.added);
    assert_eq!(c.ops.len(), 5);
    assert_eq!(t.bar(0).message, "Waiting");
    assert_eq!(t.bar(0).style, BarStyle::Status);
    let c2 = t.update(&event(Some("layer2"), None, None)).unwrap();
    assert_eq!(c2.ops.len(), 3);
    assert_eq!(t.bar(0).message, "");
}

#[test]
fn untagged_status_goes_to_status_bar() {
    let mut t = ProgressTracker::new();
    t.update(&event(Some("layer1"), Some("Downloading"), None));
    let c = t.update(&event(None, Some("Pulling from yoketh/vivado-mac"), None)).unwrap();
    assert_eq!(c.index, 1);
    assert!(c.added);
    assert_eq!(t.bar(1).key, "__status__");
    assert_eq!(t.bar(1).prefix, "Status");
    assert_eq!(t.bar(1).message, "Pulling from yoketh/vivado-mac");
    let c2 = t.update(&event(None, Some("Digest: sha256:1"), None)).unwrap();
    assert_eq!(c2.index, 1);
    assert!(!c2.added);
    assert_eq!(c2.ops.len(), 1);
    assert_eq!(t.bar(0).prefix, "layer1 dl");
    assert_eq!(t.len(), 2);
}

#[test]
fn event_without_id_or_status_changes_nothing() {
    let mut t = ProgressTracker::new();
    assert!(t.update(&event(None, None, Some((Some(1), Some(2))))).is_none());
    assert_eq!(t.len(), 0);
}

#[test]
fn bars_keep_their_order() {
    let mut t = ProgressTracker::new();
    for id in ["c", "a", "b"] {
        t.update(&event(Some(id), Some("Waiting"), None));
    }
    t.update(&event(Some("a"), Some("Downloading"), None));
    assert_eq!(t.len(), 3);
    assert_eq!(t.bar(0).key, "c");
    assert_eq!(t.bar(1).key, "a");
    assert_eq!(t.bar(2).key, "b");
    assert_eq!(t.find(&"b".to_string()), Some(2));
    assert_eq!(t.find(&"z".to_string()), None);
}

#[test]
fn short_ids_cut_at_twelve_bytes() {
    assert_eq!(shorten_id(&"sha256:abcdefghij".to_string()), "sha256:abcde");
    assert_eq!(shorten_id(&"short".to_string()), "short");
    assert_eq!(shorten_id(&"exactly12byt".to_string()), "exactly12byt");
    assert_eq!(shorten_id(&"ééééééééé".to_string()), "éééééé");
}
