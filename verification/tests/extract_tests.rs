use erract::extract::Frame;
use erract::{
    count_errors, count_frames, has_permanent, has_retryable, is_all_retryable, ok, within_limit,
};
use erract::{Error, ErrorKind};

fn chain(inner: Error, outer: Error) -> Result<(), Frame> {
    Err(inner.raise().raise(outer))
}

#[test]
fn test_count_frames() {
    let result = chain(
        Error::permanent(ErrorKind::NotFound, "inner"),
        Error::temporary(ErrorKind::Unexpected, "outer"),
    );
    if let Err(exn) = result {
        assert_eq!(count_frames(&exn), 2);
    } else {
        panic!("expected error");
    }
}

#[test]
fn test_count_errors() {
    let result = chain(
        Error::permanent(ErrorKind::NotFound, "inner"),
        Error::temporary(ErrorKind::Unexpected, "outer"),
    );
    if let Err(exn) = result {
        assert_eq!(count_errors(&exn), 2);
    } else {
        panic!("expected error");
    }
}

#[test]
fn test_has_retryable() {
    let result = chain(
        Error::temporary(ErrorKind::Timeout, "timeout"),
        Error::permanent(ErrorKind::Unexpected, "outer"),
    );
    if let Err(exn) = result {
        assert!(has_retryable(&exn));
    } else {
        panic!("expected error");
    }
}

#[test]
fn test_has_retryable_only_permanent() {
    let result = chain(
        Error::permanent(ErrorKind::NotFound, "not found"),
        Error::permanent(ErrorKind::Unexpected, "outer"),
    );
    if let Err(exn) = result {
        assert!(!has_retryable(&exn));
    } else {
        panic!("expected error");
    }
}

#[test]
fn test_has_permanent() {
    let result = chain(
        Error::permanent(ErrorKind::NotFound, "not found"),
        Error::temporary(ErrorKind::Timeout, "outer"),
    );
    if let Err(exn) = result {
        assert!(has_permanent(&exn));
    } else {
        panic!("expected error");
    }
}

#[test]
fn test_is_all_retryable() {
    let result = chain(
        Error::temporary(ErrorKind::Timeout, "timeout"),
        Error::temporary(ErrorKind::Unexpected, "outer"),
    );
    if let Err(exn) = result {
        assert!(is_all_retryable(&exn));
    } else {
        panic!("expected error");
    }
}

#[test]
fn test_deep_recursion_safety() {
    let mut result: Result<(), Frame> = Err(Error::permanent(ErrorKind::NotFound, "base").raise());

    for i in 0..1000 {
        result = match result {
            Ok(v) => Ok(v),
            Err(exn) => Err(exn.raise(Error::temporary(ErrorKind::Unexpected, &format!("wrap {i}")))),
        };
    }

    if let Err(exn) = result {
        assert_eq!(count_frames(&exn), 1001);
        assert!(has_retryable(&exn));
        assert!(has_permanent(&exn));
    } else {
        panic!("expected error");
    }
}

#[test]
fn deep_chain_of_alternating_statuses() {
    let mut tree = Error::permanent(ErrorKind::NotFound, "root").raise();
    for i in 0..1000 {
        let wrapper = if i % 2 == 0 {
            Error::temporary(ErrorKind::Unexpected, "wrap")
        } else {
            Error::permanent(ErrorKind::Unexpected, "wrap")
        };
        tree = tree.raise(wrapper);
    }
    assert_eq!(count_frames(&tree), 1001);
    assert_eq!(count_errors(&tree), 1001);
    assert!(has_retryable(&tree));
    assert!(has_permanent(&tree));
    assert!(!is_all_retryable(&tree));
}

#[test]
fn single_frame() {
    let leaf = Error::temporary(ErrorKind::Timeout, "t").raise();
    assert_eq!(count_frames(&leaf), 1);
    assert!(has_retryable(&leaf));
    assert!(!has_permanent(&leaf));
    assert!(is_all_retryable(&leaf));
    assert!(leaf.children().is_empty());
    assert_eq!(leaf.error().map(|e| e.message()), Some("t"));

    let persistent = Error::persistent(ErrorKind::Timeout, "p").raise();
    assert!(!has_retryable(&persistent));
    assert!(!has_permanent(&persistent));
    assert!(!is_all_retryable(&persistent));
}

fn temporary(children: Vec<Frame>) -> Frame {
    Frame::new(Some(Error::temporary(ErrorKind::Timeout, "t")), children)
}

fn wide_tree(deepest: Frame) -> Frame {
    // the root, its three children, two and twenty grandchildren, and the deepest frame
    let many: Vec<Frame> = (0..20).map(|_| temporary(Vec::new())).collect();
    temporary(vec![
        temporary(vec![temporary(Vec::new()), temporary(vec![deepest])]),
        temporary(Vec::new()),
        temporary(many),
    ])
}

#[test]
fn all_retryable_flips_with_a_single_permanent_frame() {
    let tree = wide_tree(temporary(Vec::new()));
    assert_eq!(count_frames(&tree), 27);
    assert!(is_all_retryable(&tree));
    assert!(has_retryable(&tree));
    assert!(!has_permanent(&tree));

    let spoiled = wide_tree(Error::permanent(ErrorKind::NotFound, "p").raise());
    assert_eq!(count_frames(&spoiled), 27);
    assert!(!is_all_retryable(&spoiled));
    assert!(has_retryable(&spoiled));
    assert!(has_permanent(&spoiled));

    // at the root
    let top = Frame::new(
        Some(Error::permanent(ErrorKind::NotFound, "p")),
        vec![wide_tree(temporary(Vec::new()))],
    );
    assert!(!is_all_retryable(&top));
    // as the last child of a wide frame
    let mut children: Vec<Frame> = (0..30).map(|_| temporary(Vec::new())).collect();
    children.push(Error::permanent(ErrorKind::NotFound, "p").raise());
    let last = temporary(children);
    assert_eq!(count_frames(&last), 32);
    assert!(!is_all_retryable(&last));
    assert!(has_permanent(&last));
}

#[test]
fn frames_without_an_error_do_not_count_against_retryability() {
    let tree = Frame::new(None, vec![temporary(Vec::new()), Frame::new(None, Vec::new())]);
    assert_eq!(count_frames(&tree), 3);
    assert!(is_all_retryable(&tree));
    assert!(has_retryable(&tree));
    assert!(!has_permanent(&tree));

    let blank = Frame::new(None, Vec::new());
    assert_eq!(count_frames(&blank), 1);
    assert!(is_all_retryable(&blank));
    assert!(!has_retryable(&blank));
    assert!(!has_permanent(&blank));
    assert!(blank.error().is_none());
}

#[test]
fn raise_puts_the_tree_under_the_new_error() {
    let tree = Error::not_found().raise().raise(Error::timeout());
    assert_eq!(tree.error().map(|e| e.kind()), Some(&ErrorKind::Timeout));
    assert_eq!(tree.children().len(), 1);
    assert_eq!(tree.children()[0].error().map(|e| e.kind()), Some(&ErrorKind::NotFound));
    assert!(tree.children()[0].children().is_empty());
}

#[test]
fn ok_is_a_success() {
    assert_eq!(ok(5u8).ok(), Some(5));
}

#[test]
fn trees_that_fit_in_memory_are_within_the_limit() {
    assert!(within_limit(&Frame::new(None, Vec::new())));
    assert!(within_limit(&wide_tree(temporary(Vec::new()))));
    let mut tree = Error::not_found().raise();
    for _ in 0..5000 {
        tree = tree.raise(Error::timeout());
    }
    assert!(within_limit(&tree));
    assert_eq!(count_frames(&tree), 5001);
}
