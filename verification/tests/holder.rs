use leptos_abort::{create_abort, Issued, Token};

#[test]
fn test_abort() {
    let mut abort = create_abort();

    let signal1 = abort.signal().token;
    assert_eq!(abort.is_cancelled(signal1), false);

    // a new token retires the one before it
    let signal2 = abort.signal().token;
    assert_eq!(abort.is_cancelled(signal1), true);
    assert_eq!(abort.is_cancelled(signal2), false);

    // an explicit abort cancels the current token
    abort.abort();
    assert_eq!(abort.is_cancelled(signal2), true);

    // the teardown of the scope cancels the current token
    let signal3 = abort.signal().token;
    assert_eq!(abort.is_cancelled(signal3), false);
    abort.dispose();
    assert_eq!(abort.is_cancelled(signal3), true);
}

#[test]
fn fresh_holder_stores_nothing() {
    let abort = create_abort();
    assert_eq!(abort.stored(), None);
    assert!(abort.can_issue());
    assert!(!abort.is_cancelled(Token { serial: 0 }));
}

#[test]
fn first_token_has_serial_zero_and_retires_nothing() {
    let mut abort = create_abort();
    let issued = abort.signal();
    assert_eq!(
        issued,
        Issued {
            retired: None,
            token: Token { serial: 0 },
        }
    );
    assert_eq!(abort.stored(), Some(Token { serial: 0 }));
    assert!(!abort.is_cancelled(issued.token));
}

#[test]
fn second_signal_cancels_first() {
    let mut abort = create_abort();
    let first = abort.signal();
    let second = abort.signal();
    assert_eq!(
        second,
        Issued {
            retired: Some(first.token),
            token: Token { serial: 1 },
        }
    );
    assert!(abort.is_cancelled(first.token));
    assert!(!abort.is_cancelled(second.token));
    assert_eq!(abort.stored(), Some(second.token));
}

#[test]
fn every_signal_retires_the_token_before_it() {
    let mut abort = create_abort();
    let mut tokens: Vec<Token> = Vec::new();
    for round in 0u64..25 {
        let issued = abort.signal();
        assert_eq!(issued.token, Token { serial: round });
        assert_eq!(issued.retired, tokens.last().copied());
        tokens.push(issued.token);
        let (newest, earlier) = tokens.split_last().unwrap();
        assert!(!abort.is_cancelled(*newest));
        for token in earlier {
            assert!(abort.is_cancelled(*token));
        }
    }
}

#[test]
fn abort_cancels_the_stored_token_and_no_other() {
    let mut abort = create_abort();
    let first = abort.signal().token;
    let second = abort.signal().token;
    let not_issued = Token { serial: 2 };
    assert!(abort.is_cancelled(first));
    assert!(!abort.is_cancelled(second));
    assert!(!abort.is_cancelled(not_issued));

    assert_eq!(abort.abort(), Some(second));

    assert!(abort.is_cancelled(first));
    assert!(abort.is_cancelled(second));
    assert!(!abort.is_cancelled(not_issued));
}

#[test]
fn abort_without_token_changes_nothing() {
    let mut abort = create_abort();
    assert_eq!(abort.abort(), None);
    assert_eq!(abort.stored(), None);
    assert!(!abort.is_cancelled(Token { serial: 0 }));

    // the holder is as fresh as before
    let issued = abort.signal();
    assert_eq!(
        issued,
        Issued {
            retired: None,
            token: Token { serial: 0 },
        }
    );
}

#[test]
fn abort_twice_is_abort_once() {
    let mut abort = create_abort();
    let earlier = abort.signal().token;
    let token = abort.signal().token;

    assert_eq!(abort.abort(), Some(token));
    let stored_once = abort.stored();
    let state_once = (abort.is_cancelled(earlier), abort.is_cancelled(token));

    assert_eq!(abort.abort(), Some(token));
    assert_eq!(abort.stored(), stored_once);
    assert_eq!(
        (abort.is_cancelled(earlier), abort.is_cancelled(token)),
        state_once
    );
    assert_eq!(state_once, (true, true));
}

#[test]
fn abort_keeps_the_controller_in_the_slot() {
    let mut abort = create_abort();
    let token = abort.signal().token;
    abort.abort();
    assert_eq!(abort.stored(), Some(token));

    // the next signal retires it once more, and numbering goes on
    let next = abort.signal();
    assert_eq!(
        next,
        Issued {
            retired: Some(token),
            token: Token { serial: 1 },
        }
    );
    assert!(abort.is_cancelled(token));
    assert!(!abort.is_cancelled(next.token));
}

#[test]
fn dispose_cancels_the_newest_token() {
    let mut abort = create_abort();
    let first = abort.signal().token;
    let newest = abort.signal().token;
    assert_eq!(abort.dispose(), Some(newest));
    assert!(abort.is_cancelled(first));
    assert!(abort.is_cancelled(newest));
}

#[test]
fn dispose_after_abort_leaves_the_token_cancelled() {
    let mut abort = create_abort();
    let token = abort.signal().token;
    abort.abort();
    assert!(abort.is_cancelled(token));
    assert_eq!(abort.dispose(), Some(token));
    assert!(abort.is_cancelled(token));
}

#[test]
fn dispose_without_token_changes_nothing() {
    let mut abort = create_abort();
    assert_eq!(abort.dispose(), None);
    assert_eq!(abort.stored(), None);
    assert!(abort.can_issue());
}

#[test]
fn token_that_was_never_issued_is_not_cancelled() {
    let mut abort = create_abort();
    abort.signal();
    abort.signal();
    abort.abort();
    assert!(!abort.is_cancelled(Token { serial: 2 }));
    assert!(!abort.is_cancelled(Token { serial: u64::MAX }));
}

#[test]
fn can_issue_after_many_signals() {
    let mut abort = create_abort();
    for _ in 0..1000 {
        assert!(abort.can_issue());
        abort.signal();
    }
    assert_eq!(abort.stored(), Some(Token { serial: 999 }));
}
