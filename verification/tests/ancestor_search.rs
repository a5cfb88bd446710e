use tomori::rpc::{
    AncestorError, AncestorSearch, SearchAction, SearchEvent, SearchPhase, BLOCK_HEADER_METHOD,
    JSONRPC_VERSION, REQUEST_ID,
};

fn hash(b: u8) -> [u8; 32] {
    let mut h = [b; 32];
    h[0] = 0xAB;
    h
}

fn hex_of(h: &[u8; 32]) -> String {
    h.iter().map(|b| format!("{:02x}", b)).collect()
}

#[test]
fn search_starts_by_reading_local_hash() {
    let (s, a) = AncestorSearch::start(100);
    assert_eq!(a, SearchAction::ReadLocalHash { height: 100 });
    assert_eq!(s.height, 100);
    assert_eq!(s.phase, SearchPhase::AwaitingLocalHash);
}

#[test]
fn missing_local_hash_steps_back() {
    let (mut s, _) = AncestorSearch::start(10);
    assert_eq!(s.step(SearchEvent::LocalHash(None)), SearchAction::ReadLocalHash { height: 9 });
    assert_eq!(s.height, 9);
}

#[test]
fn missing_local_hash_at_genesis_is_refused() {
    let (s, _) = AncestorSearch::start(0);
    assert!(!s.accepts(&SearchEvent::LocalHash(None)));
    assert!(s.accepts(&SearchEvent::LocalHash(Some(hash(1)))));
    assert!(!s.accepts(&SearchEvent::DaemonHash(None)));
}

#[test]
fn matching_hash_finds_the_ancestor() {
    let (mut s, _) = AncestorSearch::start(42);
    let h = hash(0x0F);
    assert_eq!(s.step(SearchEvent::LocalHash(Some(h))), SearchAction::FetchDaemonHash { height: 42 });
    let daemon = hex_of(&h);
    assert!(daemon.starts_with("ab0f0f"));
    assert_eq!(s.step(SearchEvent::DaemonHash(Some(daemon))), SearchAction::Finished(Ok(42)));
    assert_eq!(s.phase, SearchPhase::Done);
    assert!(!s.accepts(&SearchEvent::DaemonHash(None)));
}

#[test]
fn uppercase_hash_does_not_match() {
    let (mut s, _) = AncestorSearch::start(7);
    let h = hash(0xCD);
    s.step(SearchEvent::LocalHash(Some(h)));
    let daemon = hex_of(&h).to_uppercase();
    assert_eq!(s.step(SearchEvent::DaemonHash(Some(daemon))), SearchAction::ReadLocalHash { height: 6 });
}

#[test]
fn raw_bytes_as_text_do_not_match() {
    let (mut s, _) = AncestorSearch::start(3);
    let h = [b'a'; 32];
    s.step(SearchEvent::LocalHash(Some(h)));
    let daemon = String::from_utf8(h.to_vec()).unwrap();
    assert_eq!(s.step(SearchEvent::DaemonHash(Some(daemon))), SearchAction::ReadLocalHash { height: 2 });
}

#[test]
fn mismatch_at_genesis_fails() {
    let (mut s, _) = AncestorSearch::start(0);
    s.step(SearchEvent::LocalHash(Some(hash(1))));
    let action = s.step(SearchEvent::DaemonHash(Some("00".to_string())));
    assert_eq!(action, SearchAction::Finished(Err(AncestorError::GenesisMismatch)));
}

#[test]
fn reply_without_hash_fails() {
    let (mut s, _) = AncestorSearch::start(5);
    s.step(SearchEvent::LocalHash(Some(hash(1))));
    assert_eq!(
        s.step(SearchEvent::DaemonHash(None)),
        SearchAction::Finished(Err(AncestorError::MissingDaemonHash))
    );
}

#[test]
fn full_search_walks_down_to_the_fork() {
    // Local history: heights 3 and 1 recorded; the daemon agrees at height 1 only.
    let local = |h: u64| match h {
        3 => Some(hash(3)),
        1 => Some(hash(1)),
        _ => None,
    };
    let daemon = |h: u64| match h {
        1 => hex_of(&hash(1)),
        _ => "ff".to_string(),
    };
    let (mut s, mut action) = AncestorSearch::start(4);
    let mut steps = 0;
    let result = loop {
        steps += 1;
        action = match action {
            SearchAction::ReadLocalHash { height } => s.step(SearchEvent::LocalHash(local(height))),
            SearchAction::FetchDaemonHash { height } => {
                s.step(SearchEvent::DaemonHash(Some(daemon(height))))
            }
            SearchAction::Finished(r) => break r,
        };
    };
    assert_eq!(result, Ok(1));
    assert!(steps <= 2 * 4 + 3);
}

#[test]
fn error_messages() {
    assert_eq!(
        AncestorError::MissingDaemonHash.message(),
        "Failed to parse daemon block hash from RPC response"
    );
    assert_eq!(
        AncestorError::GenesisMismatch.message(),
        "Genesis block mismatch! The stagenet may have been completely reset."
    );
}

#[test]
fn request_constants() {
    assert_eq!(JSONRPC_VERSION, "2.0");
    assert_eq!(REQUEST_ID, "tomori");
    assert_eq!(BLOCK_HEADER_METHOD, "get_block_header_by_height");
}

fn drive(
    start: u64,
    local: impl Fn(u64) -> Option<[u8; 32]>,
    daemon: impl Fn(u64) -> Option<String>,
) -> Result<u64, AncestorError> {
    let (mut s, mut action) = AncestorSearch::start(start);
    loop {
        action = match action {
            SearchAction::ReadLocalHash { height } => s.step(SearchEvent::LocalHash(local(height))),
            SearchAction::FetchDaemonHash { height } => s.step(SearchEvent::DaemonHash(daemon(height))),
            SearchAction::Finished(r) => return r,
        };
    }
}

#[test]
fn restarting_lower_finds_the_same_ancestor() {
    let local = |h: u64| if h % 3 == 0 { None } else { Some(hash(h as u8)) };
    let daemon = |h: u64| if h <= 4 { Some(hex_of(&hash(h as u8))) } else { Some("00".to_string()) };
    assert_eq!(drive(9, local, daemon), Ok(4));
    for lower in 4..=9 {
        assert_eq!(drive(lower, local, daemon), Ok(4));
    }
    assert_eq!(drive(3, local, daemon), Ok(2));
}
