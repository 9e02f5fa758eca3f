use erract::arena::{ContextArena, ContextHandle};
use erract::http::HttpErrorKind;
use erract::{Error, ErrorKind, ErrorStatus};
use std::sync::Arc;

#[test]
fn test_permanent_error() {
    let error = Error::permanent(ErrorKind::NotFound, "not found");
    assert!(!error.is_retryable());
    assert!(error.is_permanent());
    assert_eq!(error.kind(), &ErrorKind::NotFound);
    assert_eq!(error.message(), "not found");
}

#[test]
fn test_temporary_error() {
    let error = Error::temporary(ErrorKind::Timeout, "timeout");
    assert!(error.is_retryable());
    assert!(!error.is_permanent());
    assert_eq!(error.kind(), &ErrorKind::Timeout);
}

#[test]
fn test_context() {
    let mut arena = ContextArena::new(1);
    let error = Error::permanent(ErrorKind::NotFound, "not found")
        .with_context(&mut arena, "user_id", "123")
        .with_context(&mut arena, "operation", "lookup");

    assert_eq!(error.context(&arena).len(), 2);
    assert_eq!(error.context(&arena)[0].0, "user_id");
    assert_eq!(error.context(&arena)[0].1, "123");
}

#[test]
fn test_context_value() {
    let mut arena = ContextArena::new(1);
    let error = Error::permanent(ErrorKind::NotFound, "not found")
        .with_context_value(&mut arena, "user_id", 123)
        .with_context_value(&mut arena, "count", 42u64);

    assert_eq!(error.context(&arena).len(), 2);
    assert_eq!(error.context(&arena)[0].0, "user_id");
    assert_eq!(error.context(&arena)[0].1, "123");
    assert_eq!(error.context(&arena)[1].1, "42");
}

#[test]
fn test_operation() {
    let error = Error::permanent(ErrorKind::NotFound, "not found").with_operation("fetch_user");
    assert_eq!(error.operation(), Some("fetch_user"));
}

#[test]
fn error_test_display() {
    let mut arena = ContextArena::new(1);
    let error = Error::permanent(ErrorKind::NotFound, "not found")
        .with_operation("fetch")
        .with_context(&mut arena, "id", "123");

    let display = error.to_string(&arena);
    assert!(display.contains("not found"));
    assert!(display.contains("fetch"));
    assert!(display.contains("id"));
    assert!(display.contains("123"));
}

#[test]
fn test_builder() {
    let mut arena = ContextArena::new(1);
    let error = Error::builder(ErrorKind::NotFound, ErrorStatus::Permanent, "not found")
        .with_operation("fetch")
        .with_context("id", "123")
        .build(&mut arena);

    assert!(!error.is_retryable());
    assert_eq!(error.operation(), Some("fetch"));
    assert_eq!(error.context(&arena).len(), 1);
}

#[test]
fn test_static_constructors() {
    let error = Error::not_found();
    assert_eq!(error.kind(), &ErrorKind::NotFound);
    assert!(error.is_permanent());
    assert_eq!(error.message(), "not found");

    let error = Error::timeout();
    assert_eq!(error.kind(), &ErrorKind::Timeout);
    assert!(error.is_retryable());
}

#[test]
fn test_json_escaping() {
    let mut arena = ContextArena::new(1);
    let error = Error::permanent(ErrorKind::Validation, "invalid \"input\"\nwith newline")
        .with_context(&mut arena, "field", "user\\name");

    let json = error.to_json(&arena);
    assert!(json.contains(r#"invalid \"input\"\nwith newline"#));
    assert!(json.contains(r#"user\\name"#));
}

#[test]
fn test_memory_size() {
    let size = std::mem::size_of::<Error>();
    println!("Error size: {size} bytes");
    assert!(size <= 160, "Error size {size} exceeds 160 bytes");
}

#[test]
fn test_smallvec_inline() {
    let mut arena = ContextArena::new(1);
    let error = Error::permanent(ErrorKind::NotFound, "not found")
        .with_context(&mut arena, "key1", "value1");

    // a single pair is owned by the error and does not touch the arena
    assert_eq!(error.context(&arena).len(), 1);
    assert!(matches!(error.context_handle(), ContextHandle::Heap(_)));
    assert!(arena.is_empty());

    // a second pair moves the whole set to the arena
    let error2 = error.with_context(&mut arena, "key2", "value2");
    assert_eq!(error2.context(&arena).len(), 2);
    assert!(matches!(error2.context_handle(), ContextHandle::Arena { .. }));
    assert!(!arena.is_empty());
}

#[test]
fn test_write_json() {
    let mut arena = ContextArena::new(1);
    let error = Error::permanent(ErrorKind::NotFound, "test")
        .with_context(&mut arena, "key", "value");

    let mut buf = String::new();
    error.write_json(&arena, &mut buf);

    assert!(buf.contains("\"kind\":\"not_found\""));
    assert!(buf.contains("\"key\":\"value\""));
}

fn expected_pairs(n: usize) -> Vec<(String, String)> {
    (0..n).map(|i| (format!("key{i}"), format!("value{i}"))).collect()
}

fn with_n_pairs(arena: &mut ContextArena, n: usize) -> Error {
    let mut error = Error::not_found();
    for (key, value) in expected_pairs(n) {
        error = error.with_context(arena, &key, &value);
    }
    error
}

#[test]
fn context_holds_every_pair_in_insertion_order() {
    for n in [0usize, 1, 2, 100] {
        let mut arena = ContextArena::new(1);
        let error = with_n_pairs(&mut arena, n);
        let context = error.context(&arena);
        assert_eq!(context.len(), n);
        assert_eq!(context, expected_pairs(n));
        assert_eq!(error.context_handle().len(), n);
    }
}

#[test]
fn context_storage_depends_on_the_number_of_pairs() {
    let mut arena = ContextArena::new(3);
    let error = with_n_pairs(&mut arena, 0);
    assert!(matches!(error.context_handle(), ContextHandle::Empty));
    let error = with_n_pairs(&mut arena, 1);
    assert!(matches!(error.context_handle(), ContextHandle::Heap(_)));
    assert!(arena.is_empty());
    let error = with_n_pairs(&mut arena, 2);
    assert!(matches!(
        error.context_handle(),
        ContextHandle::Arena { offset: 0, len: 2, thread_id: 3 }
    ));
    // the whole set was written once: 2 * (4 + 4 + 4 + 6) bytes
    assert_eq!(arena.len(), 36);
    let before = arena.len();
    let error = error.with_context(&mut arena, "key2", "value2");
    // and written anew, with the third pair, behind it
    assert_eq!(arena.len(), before + 54);
    match error.context_handle() {
        ContextHandle::Arena { offset, len, thread_id } => {
            assert_eq!((*offset, *len, *thread_id), (before, 3, 3));
        }
        _ => panic!("expected an arena handle"),
    }
}

#[test]
fn context_read_on_another_thread_is_empty() {
    let mut home = ContextArena::new(1);
    let mut away = ContextArena::new(2);
    let error = with_n_pairs(&mut home, 3);
    assert_eq!(error.context(&home), expected_pairs(3));
    assert!(error.context(&away).is_empty());
    // a single pair lives on the heap and survives the hop
    let single = with_n_pairs(&mut home, 1);
    assert_eq!(single.context(&away), expected_pairs(1));
    // adding on the other thread starts from what can be read there
    let moved = error.with_context(&mut away, "late", "pair");
    assert_eq!(moved.context(&away), vec![("late".to_string(), "pair".to_string())]);
    assert!(matches!(moved.context_handle(), ContextHandle::Heap(_)));
}

#[test]
fn with_context_keeps_the_rest_of_the_error() {
    let mut arena = ContextArena::new(1);
    let error = Error::temporary(ErrorKind::Timeout, "slow")
        .with_operation("fetch")
        .with_context(&mut arena, "a", "1")
        .with_context(&mut arena, "b", "2");
    assert_eq!(error.kind(), &ErrorKind::Timeout);
    assert_eq!(error.status(), &ErrorStatus::Temporary);
    assert_eq!(error.message(), "slow");
    assert_eq!(error.operation(), Some("fetch"));
}

#[test]
fn display_renders_message_operation_and_context() {
    let mut arena = ContextArena::new(1);
    let bare = Error::permanent(ErrorKind::NotFound, "not found");
    assert_eq!(bare.to_string(&arena), "not found");
    let labelled = Error::permanent(ErrorKind::NotFound, "not found").with_operation("fetch");
    assert_eq!(labelled.to_string(&arena), "not found (operation: fetch)");
    let one = Error::permanent(ErrorKind::NotFound, "not found").with_context(&mut arena, "id", "123");
    assert_eq!(one.to_string(&arena), "not found [id: 123]");
    let full = Error::permanent(ErrorKind::NotFound, "not found")
        .with_operation("fetch")
        .with_context(&mut arena, "id", "123")
        .with_context(&mut arena, "table", "users")
        .with_context(&mut arena, "try", "3");
    assert_eq!(
        full.to_string(&arena),
        "not found (operation: fetch) [id: 123, table: users, try: 3]"
    );
}

#[test]
fn machine_string_has_fixed_fields_and_optional_segments() {
    let mut arena = ContextArena::new(1);
    let bare = Error::permanent(ErrorKind::NotFound, "user not found");
    assert_eq!(
        bare.to_machine_string(&arena),
        "kind=not_found;status=permanent;message=user not found"
    );
    let labelled = Error::temporary(ErrorKind::Timeout, "slow").with_operation("fetch_user");
    assert_eq!(
        labelled.to_machine_string(&arena),
        "kind=timeout;status=temporary;message=slow;operation=fetch_user"
    );
    let one = Error::persistent(ErrorKind::Unexpected, "again").with_context(&mut arena, "user_id", "123");
    assert_eq!(
        one.to_machine_string(&arena),
        "kind=unexpected_error;status=persistent;message=again;context=[user_id=123]"
    );
    let full = Error::permanent(ErrorKind::Http(HttpErrorKind::ClientError(404)), "gone")
        .with_context(&mut arena, "user_id", "123")
        .with_context(&mut arena, "region", "eu")
        .with_operation("fetch_user");
    assert_eq!(
        full.to_machine_string(&arena),
        "kind=http_client_error_404;status=permanent;message=gone;operation=fetch_user;context=[user_id=123,region=eu]"
    );
}

#[test]
fn machine_string_prefix_and_segments_for_all_combinations() {
    for with_op in [false, true] {
        for n in [0usize, 1, 3] {
            let mut arena = ContextArena::new(1);
            let mut error = with_n_pairs(&mut arena, n);
            if with_op {
                error = error.with_operation("op");
            }
            let text = error.to_machine_string(&arena);
            assert!(text.starts_with("kind=not_found;status=permanent;message=not found"));
            assert_eq!(text.contains(";operation="), with_op);
            assert_eq!(text.contains(";context=["), n > 0);
        }
    }
}

#[test]
fn machine_string_does_not_escape() {
    let arena = ContextArena::new(1);
    let error = Error::permanent(ErrorKind::Validation, "a;b=c\n\"d\"");
    assert_eq!(
        error.to_machine_string(&arena),
        "kind=validation_error;status=permanent;message=a;b=c\n\"d\""
    );
}

#[test]
fn json_has_fixed_members_and_optional_ones() {
    let mut arena = ContextArena::new(1);
    let bare = Error::permanent(ErrorKind::NotFound, "user not found");
    assert_eq!(
        bare.to_json(&arena),
        r#"{"kind":"not_found","status":"permanent","message":"user not found"}"#
    );
    let labelled = Error::temporary(ErrorKind::Timeout, "slow").with_operation("fetch");
    assert_eq!(
        labelled.to_json(&arena),
        r#"{"kind":"timeout","status":"temporary","message":"slow","operation":"fetch"}"#
    );
    let one = Error::permanent(ErrorKind::NotFound, "m").with_context(&mut arena, "k", "v");
    assert_eq!(
        one.to_json(&arena),
        r#"{"kind":"not_found","status":"permanent","message":"m","context":{"k":"v"}}"#
    );
    let full = Error::permanent(ErrorKind::NotFound, "m")
        .with_operation("op")
        .with_context(&mut arena, "k1", "v1")
        .with_context(&mut arena, "k2", "v2");
    assert_eq!(
        full.to_json(&arena),
        r#"{"kind":"not_found","status":"permanent","message":"m","operation":"op","context":{"k1":"v1","k2":"v2"}}"#
    );
}

#[test]
fn json_escapes_quotes_backslashes_and_control_codes() {
    let mut arena = ContextArena::new(1);
    let error = Error::permanent(ErrorKind::Validation, "q\" b\\ n\n r\r t\t nul\u{0} esc\u{1b} del\u{7f} c1\u{9f} é")
        .with_context(&mut arena, "k\"", "v\n");
    assert_eq!(
        error.to_json(&arena),
        "{\"kind\":\"validation_error\",\"status\":\"permanent\",\"message\":\"q\\\" b\\\\ n\\n r\\r t\\t nul\\u0000 esc\\u001b del\\u007f c1\\u009f é\",\"context\":{\"k\\\"\":\"v\\n\"}}"
    );
}

#[test]
fn json_escapes_exactly_the_control_codes_of_std() {
    let arena = ContextArena::new(1);
    let prefix = r#"{"kind":"not_found","status":"permanent","message":""#;
    let mut code: u32 = 0;
    while code <= 0x2ff {
        let c = char::from_u32(code).unwrap();
        let json = Error::permanent(ErrorKind::NotFound, &c.to_string()).to_json(&arena);
        let body = &json[prefix.len()..json.len() - 2];
        let expected = match c {
            '"' => "\\\"".to_string(),
            '\\' => "\\\\".to_string(),
            '\n' => "\\n".to_string(),
            '\r' => "\\r".to_string(),
            '\t' => "\\t".to_string(),
            c if c.is_control() => format!("\\u{:04x}", c as u32),
            c => c.to_string(),
        };
        assert_eq!(body, expected);
        code += 1;
    }
}

#[test]
fn write_json_appends_to_the_buffer() {
    let mut arena = ContextArena::new(1);
    let error = Error::permanent(ErrorKind::NotFound, "test").with_context(&mut arena, "key", "value");
    let mut buf = String::from("prefix:");
    error.write_json(&arena, &mut buf);
    assert_eq!(buf, format!("prefix:{}", error.to_json(&arena)));
}

#[test]
fn retryable_depends_on_the_status_alone() {
    let kinds = [
        ErrorKind::NotFound,
        ErrorKind::PermissionDenied,
        ErrorKind::Timeout,
        ErrorKind::Validation,
        ErrorKind::Unexpected,
        ErrorKind::Http(HttpErrorKind::ServerError(500)),
        ErrorKind::Http(HttpErrorKind::ClientError(400)),
        ErrorKind::Database(erract::db::DatabaseErrorKind::Deadlock),
        ErrorKind::Storage(erract::storage::StorageErrorKind::NotFound),
    ];
    let statuses = [ErrorStatus::Permanent, ErrorStatus::Temporary, ErrorStatus::Persistent];
    for kind in kinds {
        for status in statuses {
            let error = Error::new(kind, status, "m");
            assert_eq!(error.is_retryable(), status == ErrorStatus::Temporary);
            assert_eq!(error.is_permanent(), status == ErrorStatus::Permanent);
            assert_eq!(error.status(), &status);
            assert_eq!(error.kind(), &kind);
        }
    }
}

#[test]
fn constructors_set_kind_status_and_message() {
    let cases = [
        (Error::not_found(), ErrorKind::NotFound, ErrorStatus::Permanent, "not found"),
        (Error::permission_denied(), ErrorKind::PermissionDenied, ErrorStatus::Permanent, "permission denied"),
        (Error::timeout(), ErrorKind::Timeout, ErrorStatus::Temporary, "operation timed out"),
        (Error::validation_failed(), ErrorKind::Validation, ErrorStatus::Permanent, "validation failed"),
        (Error::unexpected(), ErrorKind::Unexpected, ErrorStatus::Permanent, "unexpected error"),
        (Error::permanent_static(ErrorKind::Timeout, "a"), ErrorKind::Timeout, ErrorStatus::Permanent, "a"),
        (Error::temporary_static(ErrorKind::NotFound, "b"), ErrorKind::NotFound, ErrorStatus::Temporary, "b"),
        (Error::persistent_static(ErrorKind::NotFound, "c"), ErrorKind::NotFound, ErrorStatus::Persistent, "c"),
        (Error::persistent(ErrorKind::Validation, "d"), ErrorKind::Validation, ErrorStatus::Persistent, "d"),
        (Error::new(ErrorKind::Unexpected, ErrorStatus::Temporary, "e"), ErrorKind::Unexpected, ErrorStatus::Temporary, "e"),
    ];
    let arena = ContextArena::new(1);
    for (error, kind, status, message) in cases {
        assert_eq!(error.kind(), &kind);
        assert_eq!(error.status(), &status);
        assert_eq!(error.message(), message);
        assert_eq!(error.operation(), None);
        assert!(error.context(&arena).is_empty());
        assert!(matches!(error.context_handle(), ContextHandle::Empty));
        assert!(error.cause().is_none());
    }
}

#[test]
fn equality_ignores_context_and_cause() {
    let mut arena = ContextArena::new(1);
    let plain = Error::permanent(ErrorKind::NotFound, "m").with_operation("op");
    let rich = Error::permanent_static(ErrorKind::NotFound, "m")
        .with_operation("op")
        .with_context(&mut arena, "k", "v")
        .with_cause(Arc::new(Error::timeout()));
    assert!(plain == rich);
    assert!(plain != Error::permanent(ErrorKind::NotFound, "m"));
    assert!(plain != Error::permanent(ErrorKind::NotFound, "m").with_operation("other"));
    assert!(plain != Error::permanent(ErrorKind::NotFound, "n").with_operation("op"));
    assert!(plain != Error::temporary(ErrorKind::NotFound, "m").with_operation("op"));
    assert!(plain != Error::permanent(ErrorKind::Timeout, "m").with_operation("op"));
}

#[test]
fn clone_keeps_everything_and_shares_the_cause() {
    let mut arena = ContextArena::new(1);
    let cause = Arc::new(Error::timeout());
    let error = Error::permanent(ErrorKind::NotFound, "m")
        .with_operation("op")
        .with_context(&mut arena, "k", "v")
        .with_cause(cause.clone());
    let copy = error.clone();
    assert!(copy == error);
    assert_eq!(copy.context(&arena), error.context(&arena));
    assert_eq!(copy.cause().map(|c| c.message()), Some("operation timed out"));
    assert_eq!(Arc::strong_count(&cause), 3);
    let many = error
        .with_context(&mut arena, "k2", "v2")
        .clone();
    assert_eq!(many.context(&arena).len(), 2);
    let fixed = Error::not_found().clone();
    assert_eq!(fixed.message(), "not found");
}

#[test]
fn builder_collects_and_commits_once() {
    let mut arena = ContextArena::new(5);
    let builder = Error::builder(ErrorKind::Timeout, ErrorStatus::Temporary, "slow")
        .with_operation("fetch")
        .with_context("a", "1")
        .with_context_value("b", 2)
        .with_context_iter(&[("c", "3"), ("d", "4")]);
    assert_eq!(builder.to_string(), "slow (operation: fetch) [a: 1, b: 2, c: 3, d: 4]");
    let error = builder.build(&mut arena);
    assert_eq!(error.kind(), &ErrorKind::Timeout);
    assert_eq!(error.status(), &ErrorStatus::Temporary);
    assert_eq!(error.message(), "slow");
    assert_eq!(error.operation(), Some("fetch"));
    assert!(error.cause().is_none());
    let context = error.context(&arena);
    assert_eq!(context.len(), 4);
    assert_eq!(context[1], ("b".to_string(), "2".to_string()));
    assert_eq!(context[3], ("d".to_string(), "4".to_string()));
    assert!(matches!(
        error.context_handle(),
        ContextHandle::Arena { offset: 0, len: 4, thread_id: 5 }
    ));
    // written once: 4 pairs of one-byte key and value
    assert_eq!(arena.len(), 40);

    let empty = erract::ErrorBuilder::new(ErrorKind::NotFound, ErrorStatus::Permanent, "m").build(&mut arena);
    assert!(matches!(empty.context_handle(), ContextHandle::Empty));
    assert_eq!(arena.len(), 40);
}

#[test]
fn json_escapes_the_operation_label() {
    let arena = ContextArena::new(1);
    let error = Error::not_found().with_operation("a\"b");
    assert_eq!(
        error.to_json(&arena),
        r#"{"kind":"not_found","status":"permanent","message":"not found","operation":"a\"b"}"#
    );
    let error = Error::not_found().with_operation("q\" b\\ n\n t\t c\u{1}");
    assert_eq!(
        error.to_json(&arena),
        "{\"kind\":\"not_found\",\"status\":\"permanent\",\"message\":\"not found\",\"operation\":\"q\\\" b\\\\ n\\n t\\t c\\u0001\"}"
    );
    let mut buf = String::new();
    error.write_json(&arena, &mut buf);
    assert_eq!(buf, error.to_json(&arena));
    // the other renderings write the label as it is
    assert_eq!(
        Error::not_found().with_operation("a\"b").to_machine_string(&arena),
        "kind=not_found;status=permanent;message=not found;operation=a\"b"
    );
    assert_eq!(
        Error::not_found().with_operation("a\"b").to_string(&arena),
        "not found (operation: a\"b)"
    );
}
