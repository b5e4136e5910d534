use socorro_cli::{CrashInfo, JsonValue, ProcessedCrash, StackFrame, Thread};

fn frame(n: u32, function: &str) -> StackFrame {
    StackFrame {
        frame: n,
        function: Some(function.to_string()),
        file: None,
        line: None,
        module: None,
        offset: None,
    }
}

fn thread(name: Option<&str>, frames: Vec<StackFrame>) -> Thread {
    Thread {
        thread: None,
        thread_name: name.map(|s| s.to_string()),
        frames,
    }
}

fn record(uuid: &str) -> ProcessedCrash {
    ProcessedCrash {
        uuid: uuid.to_string(),
        signature: None,
        product: None,
        version: None,
        os_name: None,
        os_version: None,
        crash_info: None,
        moz_crash_reason: None,
        abort_message: None,
        android_model: None,
        android_version: None,
        crashing_thread: None,
        threads: None,
        json_dump: None,
    }
}

fn text(s: &str) -> JsonValue {
    JsonValue::Str(s.to_string())
}

fn object(entries: Vec<(&str, JsonValue)>) -> JsonValue {
    JsonValue::Object(entries.into_iter().map(|(k, v)| (k.to_string(), v)).collect())
}

fn json_frame(n: u64, function: &str) -> JsonValue {
    object(vec![("frame", JsonValue::Unsigned(n)), ("function", text(function))])
}

fn two_threads() -> Vec<Thread> {
    vec![
        thread(None, vec![frame(0, "f0"), frame(1, "f1"), frame(2, "f2")]),
        thread(Some("Main"), vec![frame(0, "g0"), frame(1, "g1")]),
    ]
}

#[test]
fn scenario_main_thread_depth_one() {
    let mut c = record("abc123");
    c.crashing_thread = Some(1);
    c.threads = Some(two_threads());
    let s = c.to_summary(1, false);
    assert_eq!(s.crash_id, "abc123");
    assert_eq!(s.signature, "Unknown");
    assert_eq!(s.crashing_thread_name.as_deref(), Some("Main"));
    assert_eq!(s.frames, vec![frame(0, "g0")]);
    assert!(s.all_threads.is_empty());
}

#[test]
fn nothing_resolvable_gives_empty_thread_data() {
    let c = record("x");
    let s = c.to_summary(10, true);
    assert_eq!(s.crashing_thread_name, None);
    assert!(s.frames.is_empty());
    assert!(s.all_threads.is_empty());
    assert_eq!(s.reason, None);
    assert_eq!(s.address, None);
}

#[test]
fn threads_without_index_flag_nothing() {
    let mut c = record("x");
    c.threads = Some(two_threads());
    let s = c.to_summary(10, false);
    assert_eq!(s.crashing_thread_name, None);
    assert!(s.frames.is_empty());
    assert!(s.all_threads.is_empty());
    let s = c.to_summary(10, true);
    assert_eq!(s.all_threads.len(), 2);
    assert!(s.all_threads.iter().all(|t| !t.is_crashing));
}

#[test]
fn top_level_index_wins_over_extended_payload() {
    let mut c = record("x");
    c.crashing_thread = Some(0);
    c.threads = Some(two_threads());
    c.json_dump = Some(object(vec![("crashing_thread", JsonValue::Unsigned(1))]));
    assert_eq!(c.resolve_crashing_thread(), Some(0));
    let s = c.to_summary(10, true);
    assert_eq!(s.crashing_thread_name, None);
    assert_eq!(s.frames.len(), 3);
    assert!(s.all_threads[0].is_crashing);
    assert!(!s.all_threads[1].is_crashing);
}

#[test]
fn crash_info_index_used_when_top_level_absent() {
    let mut c = record("x");
    c.crash_info = Some(CrashInfo {
        crash_type: Some("EXCEPTION_ACCESS_VIOLATION_READ".to_string()),
        address: Some("0x0".to_string()),
        crashing_thread: Some(1),
    });
    c.json_dump = Some(object(vec![("crashing_thread", JsonValue::Unsigned(0))]));
    c.threads = Some(two_threads());
    assert_eq!(c.resolve_crashing_thread(), Some(1));
    let s = c.to_summary(10, false);
    assert_eq!(s.crashing_thread_name.as_deref(), Some("Main"));
    assert_eq!(s.reason.as_deref(), Some("EXCEPTION_ACCESS_VIOLATION_READ"));
    assert_eq!(s.address.as_deref(), Some("0x0"));
}

#[test]
fn extended_payload_index_is_fallback() {
    let mut c = record("x");
    c.json_dump = Some(object(vec![("crashing_thread", JsonValue::Unsigned(0))]));
    assert_eq!(c.resolve_crashing_thread(), Some(0));
    c.threads = Some(two_threads());
    let s = c.to_summary(2, true);
    assert_eq!(s.frames, vec![frame(0, "f0"), frame(1, "f1")]);
    assert!(s.all_threads[0].is_crashing);
    assert!(!s.all_threads[1].is_crashing);
}

#[test]
fn extended_payload_index_of_wrong_kind_is_ignored() {
    let mut c = record("x");
    c.json_dump = Some(object(vec![("crashing_thread", text("0"))]));
    assert_eq!(c.resolve_crashing_thread(), None);
    c.json_dump = Some(object(vec![("crashing_thread", JsonValue::OtherNumber)]));
    assert_eq!(c.resolve_crashing_thread(), None);
    c.json_dump = Some(JsonValue::Array(vec![JsonValue::Unsigned(0)]));
    assert_eq!(c.resolve_crashing_thread(), None);
}

#[test]
fn out_of_range_index_leaves_crashing_thread_empty() {
    let mut c = record("x");
    c.crashing_thread = Some(2);
    c.threads = Some(two_threads());
    let s = c.to_summary(10, true);
    assert_eq!(s.crashing_thread_name, None);
    assert!(s.frames.is_empty());
    assert_eq!(s.all_threads.len(), 2);
    assert!(s.all_threads.iter().all(|t| !t.is_crashing));
}

#[test]
fn depth_truncates_every_thread() {
    let mut c = record("x");
    c.crashing_thread = Some(0);
    c.threads = Some(two_threads());
    for d in 0..5usize {
        let s = c.to_summary(d, true);
        assert_eq!(s.frames.len(), d.min(3));
        assert_eq!(s.all_threads[0].frames.len(), d.min(3));
        assert_eq!(s.all_threads[1].frames.len(), d.min(2));
        for (k, f) in s.frames.iter().enumerate() {
            assert_eq!(f.frame, k as u32);
        }
    }
}

#[test]
fn thread_summaries_keep_order_and_names() {
    let mut c = record("x");
    c.crashing_thread = Some(1);
    c.threads = Some(two_threads());
    let s = c.to_summary(1, true);
    assert_eq!(s.all_threads[0].thread_index, 0);
    assert_eq!(s.all_threads[0].thread_name, None);
    assert_eq!(s.all_threads[0].frames, vec![frame(0, "f0")]);
    assert!(!s.all_threads[0].is_crashing);
    assert_eq!(s.all_threads[1].thread_index, 1);
    assert_eq!(s.all_threads[1].thread_name.as_deref(), Some("Main"));
    assert_eq!(s.all_threads[1].frames, vec![frame(0, "g0")]);
    assert!(s.all_threads[1].is_crashing);
}

#[test]
fn no_thread_list_without_flag() {
    let mut c = record("x");
    c.crashing_thread = Some(1);
    c.threads = Some(two_threads());
    let s = c.to_summary(10, false);
    assert_eq!(s.crashing_thread_name.as_deref(), Some("Main"));
    assert!(s.all_threads.is_empty());
}

#[test]
fn summarizing_twice_gives_equal_summaries() {
    let mut c = record("x");
    c.crashing_thread = Some(1);
    c.signature = Some("sig".to_string());
    c.threads = Some(two_threads());
    let a = c.to_summary(1, true);
    let b = c.to_summary(1, true);
    assert_eq!(format!("{:?}", a), format!("{:?}", b));
}

#[test]
fn missing_texts_default_to_unknown() {
    let c = record("x");
    let s = c.to_summary(10, false);
    assert_eq!(s.product, "Unknown");
    assert_eq!(s.version, "Unknown");
    assert_eq!(s.platform, "Unknown");
    assert_eq!(s.signature, "Unknown");
    let mut c = record("x");
    c.product = Some("Firefox".to_string());
    let s = c.to_summary(10, false);
    assert_eq!(s.product, "Firefox");
    assert_eq!(s.version, "Unknown");
}

#[test]
fn platform_joins_name_and_version() {
    let mut c = record("x");
    c.os_name = Some("Windows".to_string());
    c.os_version = Some("10".to_string());
    assert_eq!(c.to_summary(10, false).platform, "Windows 10");
    c.os_version = None;
    assert_eq!(c.to_summary(10, false).platform, "Windows");
    c.os_name = Some("Linux".to_string());
    assert_eq!(c.to_summary(10, false).platform, "Linux");
    c.os_name = None;
    c.os_version = Some("6.1".to_string());
    assert_eq!(c.to_summary(10, false).platform, "Unknown 6.1");
}

#[test]
fn diagnostic_texts_are_copied() {
    let mut c = record("x");
    c.moz_crash_reason = Some("MOZ_RELEASE_ASSERT(false)".to_string());
    c.abort_message = Some("abort".to_string());
    c.android_model = Some("Pixel".to_string());
    c.android_version = Some("14".to_string());
    c.version = Some("120.0".to_string());
    let s = c.to_summary(10, false);
    assert_eq!(s.moz_crash_reason.as_deref(), Some("MOZ_RELEASE_ASSERT(false)"));
    assert_eq!(s.abort_message.as_deref(), Some("abort"));
    assert_eq!(s.android_model.as_deref(), Some("Pixel"));
    assert_eq!(s.android_version.as_deref(), Some("14"));
    assert_eq!(s.version, "120.0");
}

#[test]
fn threads_decoded_from_extended_payload() {
    let mut c = record("x");
    c.json_dump = Some(object(vec![
        ("crashing_thread", JsonValue::Unsigned(1)),
        (
            "threads",
            JsonValue::Array(vec![
                object(vec![("frames", JsonValue::Array(vec![json_frame(0, "a")]))]),
                object(vec![
                    ("thread_name", text("Gecko")),
                    ("extra", JsonValue::Bool(true)),
                    (
                        "frames",
                        JsonValue::Array(vec![
                            json_frame(0, "b0"),
                            object(vec![
                                ("function", text("b1")),
                                ("line", JsonValue::Unsigned(7)),
                                ("file", JsonValue::Null),
                            ]),
                        ]),
                    ),
                ]),
            ]),
        ),
    ]));
    let s = c.to_summary(5, true);
    assert_eq!(s.crashing_thread_name.as_deref(), Some("Gecko"));
    let mut second = frame(0, "b1");
    second.line = Some(7);
    assert_eq!(s.frames, vec![frame(0, "b0"), second]);
    assert_eq!(s.all_threads.len(), 2);
    assert!(s.all_threads[1].is_crashing);
}

#[test]
fn top_level_threads_win_over_extended_payload() {
    let mut c = record("x");
    c.crashing_thread = Some(0);
    c.threads = Some(vec![thread(Some("Top"), vec![frame(0, "t")])]);
    c.json_dump = Some(object(vec![(
        "threads",
        JsonValue::Array(vec![object(vec![
            ("thread_name", text("Nested")),
            ("frames", JsonValue::Array(vec![])),
        ])]),
    )]));
    let s = c.to_summary(5, false);
    assert_eq!(s.crashing_thread_name.as_deref(), Some("Top"));
}

#[test]
fn malformed_extended_threads_count_as_absent() {
    let mut c = record("x");
    c.crashing_thread = Some(0);
    // a thread without frames
    c.json_dump = Some(object(vec![(
        "threads",
        JsonValue::Array(vec![object(vec![("thread_name", text("T"))])]),
    )]));
    let s = c.to_summary(5, true);
    assert_eq!(s.crashing_thread_name, None);
    assert!(s.all_threads.is_empty());
    // a frame number out of range
    c.json_dump = Some(object(vec![(
        "threads",
        JsonValue::Array(vec![object(vec![(
            "frames",
            JsonValue::Array(vec![object(vec![("frame", JsonValue::Unsigned(1 << 40))])]),
        )])]),
    )]));
    assert!(c.to_summary(5, true).all_threads.is_empty());
    // a name that is not text
    c.json_dump = Some(object(vec![(
        "threads",
        JsonValue::Array(vec![object(vec![
            ("thread_name", JsonValue::Unsigned(3)),
            ("frames", JsonValue::Array(vec![])),
        ])]),
    )]));
    assert!(c.to_summary(5, true).all_threads.is_empty());
    // not a list
    c.json_dump = Some(object(vec![("threads", JsonValue::Null)]));
    assert!(c.to_summary(5, true).all_threads.is_empty());
}

#[test]
fn extended_thread_in_array_form() {
    let mut c = record("x");
    c.crashing_thread = Some(0);
    let frame_items = JsonValue::Array(vec![
        JsonValue::Unsigned(4),
        text("f"),
        text("f.rs"),
        JsonValue::Unsigned(9),
        text("m.so"),
        text("0x10"),
    ]);
    c.json_dump = Some(object(vec![(
        "threads",
        JsonValue::Array(vec![JsonValue::Array(vec![
            JsonValue::Unsigned(3),
            text("Worker"),
            JsonValue::Array(vec![frame_items]),
        ])]),
    )]));
    let s = c.to_summary(5, false);
    assert_eq!(s.crashing_thread_name.as_deref(), Some("Worker"));
    assert_eq!(
        s.frames,
        vec![StackFrame {
            frame: 4,
            function: Some("f".to_string()),
            file: Some("f.rs".to_string()),
            line: Some(9),
            module: Some("m.so".to_string()),
            offset: Some("0x10".to_string()),
        }]
    );
    // an array form with a field missing does not decode
    c.json_dump = Some(object(vec![(
        "threads",
        JsonValue::Array(vec![JsonValue::Array(vec![
            JsonValue::Unsigned(3),
            text("Worker"),
        ])]),
    )]));
    assert_eq!(c.to_summary(5, false).crashing_thread_name, None);
}

#[test]
fn crash_info_decoded_from_extended_payload() {
    let mut c = record("x");
    c.json_dump = Some(object(vec![(
        "crash_info",
        object(vec![
            ("type", text("SIGSEGV")),
            ("address", text("0xdead")),
            ("crashing_thread", JsonValue::Unsigned(0)),
        ]),
    )]));
    let s = c.to_summary(5, false);
    assert_eq!(s.reason.as_deref(), Some("SIGSEGV"));
    assert_eq!(s.address.as_deref(), Some("0xdead"));
    // the nested block's index is not a source of the crashing thread
    assert_eq!(c.resolve_crashing_thread(), None);
    c.crash_info = Some(CrashInfo { crash_type: None, address: Some("0x1".to_string()), crashing_thread: None });
    let s = c.to_summary(5, false);
    assert_eq!(s.reason, None);
    assert_eq!(s.address.as_deref(), Some("0x1"));
}

#[test]
fn malformed_extended_crash_info_counts_as_absent() {
    let mut c = record("x");
    c.json_dump = Some(object(vec![(
        "crash_info",
        object(vec![("type", text("SIGSEGV")), ("address", JsonValue::Unsigned(5))]),
    )]));
    let s = c.to_summary(5, false);
    assert_eq!(s.reason, None);
    assert_eq!(s.address, None);
}

#[test]
fn zero_depth_gives_empty_frames() {
    let mut c = record("x");
    c.crashing_thread = Some(1);
    c.threads = Some(two_threads());
    let s = c.to_summary(0, true);
    assert_eq!(s.crashing_thread_name.as_deref(), Some("Main"));
    assert!(s.frames.is_empty());
    assert!(s.all_threads.iter().all(|t| t.frames.is_empty()));
}

#[test]
fn json_get_reads_object_fields() {
    let v = object(vec![("a", JsonValue::Unsigned(1)), ("b", text("x"))]);
    assert!(matches!(v.get("a"), Some(JsonValue::Unsigned(1))));
    assert!(matches!(v.get("b"), Some(JsonValue::Str(s)) if s == "x"));
    assert!(v.get("c").is_none());
    assert!(JsonValue::Null.get("a").is_none());
}
