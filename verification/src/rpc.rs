//! The search for the highest L1 block on which the local history and the L1
//! daemon agree, written as a state machine that the caller drives with the
//! answers of the local store and of the daemon.
use vstd::prelude::*;

verus! {

/// The JSON-RPC version of the daemon's interface.
pub const JSONRPC_VERSION: &'static str = "2.0";

/// The id that requests to the daemon carry.
pub const REQUEST_ID: &'static str = "tomori";

/// The daemon method that returns the header of the block at a height.
pub const BLOCK_HEADER_METHOD: &'static str = "get_block_header_by_height";

/// The lowercase hexadecimal digit of `n`, for `0 <= n < 16`.
pub open spec fn hex_digit(n: int) -> char {
    if n == 0 { '0' }
    else if n == 1 { '1' }
    else if n == 2 { '2' }
    else if n == 3 { '3' }
    else if n == 4 { '4' }
    else if n == 5 { '5' }
    else if n == 6 { '6' }
    else if n == 7 { '7' }
    else if n == 8 { '8' }
    else if n == 9 { '9' }
    else if n == 10 { 'a' }
    else if n == 11 { 'b' }
    else if n == 12 { 'c' }
    else if n == 13 { 'd' }
    else if n == 14 { 'e' }
    else { 'f' }
}

/// The lowercase hexadecimal text of `bytes`: two digits per byte, the high
/// half first.
pub open spec fn lower_hex(bytes: Seq<u8>) -> Seq<char>
    decreases bytes.len(),
{
    if bytes.len() == 0 {
        Seq::empty()
    } else {
        lower_hex(bytes.drop_last()) + seq![
            hex_digit(bytes.last() as int / 16),
            hex_digit(bytes.last() as int % 16),
        ]
    }
}

/// Calls `hex::encode`, which writes each byte as two lowercase hexadecimal
/// digits, the high half first. The contract claims exactly that.
#[verifier::external_body]
fn hex_encode(data: &[u8; 32]) -> (text: String)
    ensures
        text@ == lower_hex(data@),
{
    hex::encode(data)
}

/// The sixteen lowercase hexadecimal digits, in order.
pub open spec fn lowercase_hex_alphabet() -> Seq<char> {
    seq!['0', '1', '2', '3', '4', '5', '6', '7', '8', '9', 'a', 'b', 'c', 'd', 'e', 'f']
}

/// Byte `i` of `bytes` is written at positions `2 * i` and `2 * i + 1` of its
/// hexadecimal text, as the lowercase digits of its high and low halves.
pub proof fn lemma_lower_hex_digits(bytes: Seq<u8>, i: int)
    requires
        0 <= i < bytes.len(),
    ensures
        lower_hex(bytes).len() == 2 * bytes.len(),
        lower_hex(bytes)[2 * i] == lowercase_hex_alphabet()[bytes[i] as int / 16],
        lower_hex(bytes)[2 * i + 1] == lowercase_hex_alphabet()[bytes[i] as int % 16],
    decreases bytes.len(),
{
    lemma_lower_hex_len(bytes);
    lemma_lower_hex_len(bytes.drop_last());
    if i < bytes.len() - 1 {
        lemma_lower_hex_digits(bytes.drop_last(), i);
    }
}

/// Every character of a hexadecimal text is a digit `0`-`9` or a lowercase
/// letter `a`-`f`.
pub proof fn lemma_lower_hex_alphabet(bytes: Seq<u8>, k: int)
    requires
        0 <= k < lower_hex(bytes).len(),
    ensures
        ('0' <= lower_hex(bytes)[k] <= '9') || ('a' <= lower_hex(bytes)[k] <= 'f'),
{
    lemma_lower_hex_len(bytes);
    lemma_lower_hex_digits(bytes, k / 2);
}

/// A daemon hash whose text gives, for each byte of the local hash in order, the
/// lowercase digit of its high half and then of its low half, ends the search
/// at the current height with that height as the common ancestor.
pub proof fn lemma_lowercase_text_matches(s: AncestorSearch, local_hash: [u8; 32], text: Seq<char>)
    requires
        s.phase == (SearchPhase::AwaitingDaemonHash { local_hash }),
        text.len() == 64,
        forall|i: int|
            0 <= i < 32 ==> text[2 * i] == lowercase_hex_alphabet()[local_hash@[i] as int / 16]
                && text[2 * i + 1] == lowercase_hex_alphabet()[local_hash@[i] as int % 16],
    ensures
        next_step(s, SearchAnswer::Daemon(Some(text))).1 == SearchAction::Finished(
            Ok::<u64, AncestorError>(s.height),
        ),
{
    let bytes = local_hash@;
    lemma_lower_hex_len(bytes);
    assert forall|k: int| 0 <= k < 64 implies lower_hex(bytes)[k] == text[k] by {
        let i = k / 2;
        lemma_lower_hex_digits(bytes, i);
        assert(text[2 * i] == lowercase_hex_alphabet()[bytes[i] as int / 16]);
        assert(text[2 * i + 1] == lowercase_hex_alphabet()[bytes[i] as int % 16]);
    }
    assert(text =~= lower_hex(bytes));
}

/// The hexadecimal text of a byte string is two characters per byte.
pub proof fn lemma_lower_hex_len(bytes: Seq<u8>)
    ensures
        lower_hex(bytes).len() == 2 * bytes.len(),
    decreases bytes.len(),
{
    if bytes.len() > 0 {
        lemma_lower_hex_len(bytes.drop_last());
    }
}

/// Two byte strings with the same hexadecimal text are equal: comparing the
/// texts compares the bytes.
pub proof fn lemma_lower_hex_injective(a: Seq<u8>, b: Seq<u8>)
    requires
        lower_hex(a) == lower_hex(b),
    ensures
        a == b,
    decreases a.len(),
{
    lemma_lower_hex_len(a);
    lemma_lower_hex_len(b);
    if a.len() > 0 {
        let ha = lower_hex(a.drop_last());
        let hb = lower_hex(b.drop_last());
        lemma_lower_hex_len(a.drop_last());
        lemma_lower_hex_len(b.drop_last());
        let n = lower_hex(a).len();
        assert(lower_hex(a)[n - 2] == hex_digit(a.last() as int / 16));
        assert(lower_hex(b)[n - 2] == hex_digit(b.last() as int / 16));
        assert(lower_hex(a)[n - 1] == hex_digit(a.last() as int % 16));
        assert(lower_hex(b)[n - 1] == hex_digit(b.last() as int % 16));
        assert(a.last() == b.last());
        assert(ha =~= lower_hex(a).take(n - 2));
        assert(hb =~= lower_hex(b).take(n - 2));
        lemma_lower_hex_injective(a.drop_last(), b.drop_last());
        assert(a =~= a.drop_last().push(a.last()));
        assert(b =~= b.drop_last().push(b.last()));
    } else {
        assert(a =~= b);
    }
}

/// Why the search ended without a common ancestor.
#[derive(Debug, Clone, Copy, PartialEq, Eq)]
pub enum AncestorError {
    /// The daemon's reply held no block hash.
    MissingDaemonHash,
    /// Even the genesis block differs between the local history and the daemon.
    GenesisMismatch,
}

impl AncestorError {
    /// The message that the search reports for this error.
    pub fn message(&self) -> (m: &'static str)
        ensures
            m@ == ancestor_error_message(*self)@,
    {
        match self {
            AncestorError::MissingDaemonHash => "Failed to parse daemon block hash from RPC response",
            AncestorError::GenesisMismatch => "Genesis block mismatch! The stagenet may have been completely reset.",
        }
    }
}

/// The message of each search error.
pub open spec fn ancestor_error_message(e: AncestorError) -> &'static str {
    match e {
        AncestorError::MissingDaemonHash => "Failed to parse daemon block hash from RPC response",
        AncestorError::GenesisMismatch => "Genesis block mismatch! The stagenet may have been completely reset.",
    }
}

/// What the caller of the search learned since the last action.
pub enum SearchEvent {
    /// The block hash that the local history records at the asked height, if any.
    LocalHash(Option<[u8; 32]>),
    /// The block hash in the daemon's header reply, if the reply held one.
    DaemonHash(Option<String>),
}

/// What the search asks its caller to do next.
#[derive(Debug, Clone, Copy, PartialEq, Eq)]
pub enum SearchAction {
    /// Read the block hash that the local history records at `height`.
    ReadLocalHash { height: u64 },
    /// Ask the daemon for the header of the block at `height`.
    FetchDaemonHash { height: u64 },
    /// The search is over, with the common ancestor's height or the reason it failed.
    Finished(Result<u64, AncestorError>),
}

/// Where the search stands.
#[derive(Debug, Clone, Copy, PartialEq, Eq)]
pub enum SearchPhase {
    /// Waiting for the local hash at the current height.
    AwaitingLocalHash,
    /// Waiting for the daemon's hash at the current height, to compare with `local_hash`.
    AwaitingDaemonHash { local_hash: [u8; 32] },
    /// The search has finished.
    Done,
}

/// The state of a search for the common L1 ancestor.
#[derive(Debug, Clone, Copy, PartialEq, Eq)]
pub struct AncestorSearch {
    /// The height under examination.
    pub height: u64,
    pub phase: SearchPhase,
}

/// A bound on the number of steps left: each step lowers it.
pub open spec fn search_measure(s: AncestorSearch) -> nat {
    match s.phase {
        SearchPhase::AwaitingLocalHash => (2 * s.height + 2) as nat,
        SearchPhase::AwaitingDaemonHash { .. } => (2 * s.height + 1) as nat,
        SearchPhase::Done => 0,
    }
}

/// The answer that an event carries, as plain values.
pub enum SearchAnswer {
    /// The local history's hash at the asked height, if any.
    Local(Option<[u8; 32]>),
    /// The text of the daemon's hash at the asked height, if its reply held one.
    Daemon(Option<Seq<char>>),
}

/// The answer that `event` carries.
pub open spec fn event_answer(event: SearchEvent) -> SearchAnswer {
    match event {
        SearchEvent::LocalHash(found) => SearchAnswer::Local(found),
        SearchEvent::DaemonHash(Some(text)) => SearchAnswer::Daemon(Some(text@)),
        SearchEvent::DaemonHash(None) => SearchAnswer::Daemon(None),
    }
}

/// Whether the search in state `s` can take `answer`: it answers the question
/// asked, and a missing local hash does not stand at height 0, below which there
/// is no block to step back to.
pub open spec fn accepts_answer(s: AncestorSearch, answer: SearchAnswer) -> bool {
    match s.phase {
        SearchPhase::AwaitingLocalHash => match answer {
            SearchAnswer::Local(found) => found is Some || s.height > 0,
            SearchAnswer::Daemon(_) => false,
        },
        SearchPhase::AwaitingDaemonHash { .. } => answer is Daemon,
        SearchPhase::Done => false,
    }
}

/// The state and action that follow state `s` on `answer`: a height without a
/// local hash is skipped; a local hash is compared, as lowercase hexadecimal
/// text, with the daemon's hash at the same height; on a mismatch the search
/// steps one block down, and fails at the genesis block.
pub open spec fn next_step(s: AncestorSearch, answer: SearchAnswer) -> (AncestorSearch, SearchAction) {
    let done = AncestorSearch { height: s.height, phase: SearchPhase::Done };
    let below = AncestorSearch {
        height: (s.height - 1) as u64,
        phase: SearchPhase::AwaitingLocalHash,
    };
    match (s.phase, answer) {
        (SearchPhase::AwaitingLocalHash, SearchAnswer::Local(None)) => (
            below,
            SearchAction::ReadLocalHash { height: below.height },
        ),
        (SearchPhase::AwaitingLocalHash, SearchAnswer::Local(Some(hash))) => (
            AncestorSearch {
                height: s.height,
                phase: SearchPhase::AwaitingDaemonHash { local_hash: hash },
            },
            SearchAction::FetchDaemonHash { height: s.height },
        ),
        (SearchPhase::AwaitingDaemonHash { .. }, SearchAnswer::Daemon(None)) => (
            done,
            SearchAction::Finished(Err(AncestorError::MissingDaemonHash)),
        ),
        (SearchPhase::AwaitingDaemonHash { local_hash }, SearchAnswer::Daemon(Some(text))) => {
            if text == lower_hex(local_hash@) {
                (done, SearchAction::Finished(Ok(s.height)))
            } else if s.height == 0 {
                (done, SearchAction::Finished(Err(AncestorError::GenesisMismatch)))
            } else {
                (below, SearchAction::ReadLocalHash { height: below.height })
            }
        },
        _ => (done, SearchAction::Finished(Err(AncestorError::MissingDaemonHash))),
    }
}

/// Whether the local history and the daemon agree at `height`: the history
/// records a hash there and the daemon's hash is its lowercase hexadecimal text.
pub open spec fn agrees_at(
    local: spec_fn(u64) -> Option<[u8; 32]>,
    daemon: spec_fn(u64) -> Option<Seq<char>>,
    height: u64,
) -> bool {
    local(height) matches Some(hash) && daemon(height) == Some(lower_hex(hash@))
}

/// The outcome of a whole search from `height`, where `local` gives the hash
/// that the local history records at each height and `daemon` the text of the
/// daemon's hash there (`None` where its reply holds none). `None` is the
/// outcome where the search would step below height 0.
pub open spec fn search_outcome(
    local: spec_fn(u64) -> Option<[u8; 32]>,
    daemon: spec_fn(u64) -> Option<Seq<char>>,
    height: u64,
) -> Option<Result<u64, AncestorError>>
    decreases height,
{
    match local(height) {
        None => if height == 0 {
            None
        } else {
            search_outcome(local, daemon, (height - 1) as u64)
        },
        Some(hash) => match daemon(height) {
            None => Some(Err(AncestorError::MissingDaemonHash)),
            Some(text) => if text == lower_hex(hash@) {
                Some(Ok(height))
            } else if height == 0 {
                Some(Err(AncestorError::GenesisMismatch))
            } else {
                search_outcome(local, daemon, (height - 1) as u64)
            },
        },
    }
}

/// The answer that the history `local` and the daemon `daemon` give to `action`.
pub open spec fn model_answer(
    local: spec_fn(u64) -> Option<[u8; 32]>,
    daemon: spec_fn(u64) -> Option<Seq<char>>,
    action: SearchAction,
) -> SearchAnswer {
    match action {
        SearchAction::FetchDaemonHash { height } => SearchAnswer::Daemon(daemon(height)),
        SearchAction::ReadLocalHash { height } => SearchAnswer::Local(local(height)),
        SearchAction::Finished(_) => SearchAnswer::Local(None),
    }
}

/// The result that a caller gets by driving the search from state `s` and
/// action `action` with the answers of `local` and `daemon`, for at most `fuel`
/// steps; `None` where it is not finished by then or an answer cannot be taken.
pub open spec fn run_search(
    s: AncestorSearch,
    action: SearchAction,
    local: spec_fn(u64) -> Option<[u8; 32]>,
    daemon: spec_fn(u64) -> Option<Seq<char>>,
    fuel: nat,
) -> Option<Result<u64, AncestorError>>
    decreases fuel,
{
    match action {
        SearchAction::Finished(result) => Some(result),
        _ => if fuel == 0 {
            None
        } else {
            let answer = model_answer(local, daemon, action);
            if !accepts_answer(s, answer) {
                None
            } else {
                let (next, next_action) = next_step(s, answer);
                run_search(next, next_action, local, daemon, (fuel - 1) as nat)
            }
        },
    }
}

/// Driving a search started at `height` with the answers of a fixed history and
/// daemon gives `search_outcome`, within `2 * height + 2` steps.
pub proof fn lemma_search_runs_to_outcome(
    local: spec_fn(u64) -> Option<[u8; 32]>,
    daemon: spec_fn(u64) -> Option<Seq<char>>,
    height: u64,
    fuel: nat,
)
    requires
        fuel >= 2 * height + 2,
    ensures
        run_search(
            AncestorSearch { height, phase: SearchPhase::AwaitingLocalHash },
            SearchAction::ReadLocalHash { height },
            local,
            daemon,
            fuel,
        ) == search_outcome(local, daemon, height),
    decreases height,
{
    let s = AncestorSearch { height, phase: SearchPhase::AwaitingLocalHash };
    let a = SearchAction::ReadLocalHash { height };
    assert(model_answer(local, daemon, a) == SearchAnswer::Local(local(height)));
    match local(height) {
        None => {
            if height > 0 {
                let below = AncestorSearch {
                    height: (height - 1) as u64,
                    phase: SearchPhase::AwaitingLocalHash,
                };
                let a1 = SearchAction::ReadLocalHash { height: (height - 1) as u64 };
                assert(next_step(s, SearchAnswer::Local(None)) == (below, a1));
                assert(run_search(s, a, local, daemon, fuel) == run_search(
                    below,
                    a1,
                    local,
                    daemon,
                    (fuel - 1) as nat,
                ));
                lemma_search_runs_to_outcome(local, daemon, (height - 1) as u64, (fuel - 1) as nat);
            } else {
                assert(!accepts_answer(s, SearchAnswer::Local(None)));
            }
        },
        Some(hash) => {
            let s1 = AncestorSearch {
                height,
                phase: SearchPhase::AwaitingDaemonHash { local_hash: hash },
            };
            let a1 = SearchAction::FetchDaemonHash { height };
            assert(next_step(s, SearchAnswer::Local(Some(hash))) == (s1, a1));
            assert(run_search(s, a, local, daemon, fuel) == run_search(
                s1,
                a1,
                local,
                daemon,
                (fuel - 1) as nat,
            ));
            let ans = SearchAnswer::Daemon(daemon(height));
            assert(model_answer(local, daemon, a1) == ans);
            assert(accepts_answer(s1, ans));
            let (s2, a2) = next_step(s1, ans);
            assert(run_search(s1, a1, local, daemon, (fuel - 1) as nat) == run_search(
                s2,
                a2,
                local,
                daemon,
                (fuel - 2) as nat,
            ));
            match daemon(height) {
                None => {
                    assert(a2 == SearchAction::Finished(Err(AncestorError::MissingDaemonHash)));
                },
                Some(text) => {
                    if text == lower_hex(hash@) {
                        assert(a2 == SearchAction::Finished(Ok(height)));
                    } else if height == 0 {
                        assert(a2 == SearchAction::Finished(Err(AncestorError::GenesisMismatch)));
                    } else {
                        assert(s2 == AncestorSearch {
                            height: (height - 1) as u64,
                            phase: SearchPhase::AwaitingLocalHash,
                        });
                        assert(a2 == SearchAction::ReadLocalHash { height: (height - 1) as u64 });
                        lemma_search_runs_to_outcome(
                            local,
                            daemon,
                            (height - 1) as u64,
                            (fuel - 2) as nat,
                        );
                    }
                },
            }
        },
    }
}

/// A search that finds a common ancestor finds the highest height, at or below
/// its start, at which the local history and the daemon agree.
pub proof fn lemma_search_finds_highest_agreement(
    local: spec_fn(u64) -> Option<[u8; 32]>,
    daemon: spec_fn(u64) -> Option<Seq<char>>,
    height: u64,
    ancestor: u64,
)
    requires
        search_outcome(local, daemon, height) == Some(Ok::<u64, AncestorError>(ancestor)),
    ensures
        ancestor <= height,
        agrees_at(local, daemon, ancestor),
        forall|k: u64| ancestor < k <= height ==> !agrees_at(local, daemon, k),
    decreases height,
{
    match local(height) {
        None => {
            if height > 0 {
                lemma_search_finds_highest_agreement(local, daemon, (height - 1) as u64, ancestor);
            }
        },
        Some(hash) => match daemon(height) {
            None => {},
            Some(text) => {
                if text != lower_hex(hash@) && height > 0 {
                    lemma_search_finds_highest_agreement(
                        local,
                        daemon,
                        (height - 1) as u64,
                        ancestor,
                    );
                }
            },
        },
    }
}

/// Restarting the search lower, but not below the common ancestor that a search
/// found, finds the same ancestor.
pub proof fn lemma_restart_lower_same_ancestor(
    local: spec_fn(u64) -> Option<[u8; 32]>,
    daemon: spec_fn(u64) -> Option<Seq<char>>,
    height: u64,
    lower: u64,
    ancestor: u64,
)
    requires
        search_outcome(local, daemon, height) == Some(Ok::<u64, AncestorError>(ancestor)),
        ancestor <= lower <= height,
    ensures
        search_outcome(local, daemon, lower) == Some(Ok::<u64, AncestorError>(ancestor)),
    decreases height,
{
    if lower < height {
        lemma_search_finds_highest_agreement(local, daemon, height, ancestor);
        assert(search_outcome(local, daemon, height) == search_outcome(
            local,
            daemon,
            (height - 1) as u64,
        ));
        lemma_restart_lower_same_ancestor(local, daemon, (height - 1) as u64, lower, ancestor);
    }
}

impl AncestorSearch {
    /// Whether the search can take `event` as its next step: the event answers
    /// the question that the search asked, and a missing local hash does not
    /// stand at height 0, below which there is no block to step back to.
    pub open spec fn can_take(self, event: SearchEvent) -> bool {
        accepts_answer(self, event_answer(event))
    }

    /// Starts a search at `current_local_height`; the first action reads the
    /// local hash there.
    pub fn start(current_local_height: u64) -> (r: (AncestorSearch, SearchAction))
        ensures
            r.0.height == current_local_height,
            r.0.phase == SearchPhase::AwaitingLocalHash,
            r.1 == (SearchAction::ReadLocalHash { height: current_local_height }),
    {
        (
            AncestorSearch { height: current_local_height, phase: SearchPhase::AwaitingLocalHash },
            SearchAction::ReadLocalHash { height: current_local_height },
        )
    }

    /// Whether the search can take `event` as its next step.
    pub fn accepts(&self, event: &SearchEvent) -> (b: bool)
        ensures
            b == self.can_take(*event),
    {
        match self.phase {
            SearchPhase::AwaitingLocalHash => match event {
                SearchEvent::LocalHash(found) => found.is_some() || self.height > 0,
                SearchEvent::DaemonHash(_) => false,
            },
            SearchPhase::AwaitingDaemonHash { .. } => match event {
                SearchEvent::DaemonHash(_) => true,
                SearchEvent::LocalHash(_) => false,
            },
            SearchPhase::Done => false,
        }
    }

    /// Takes one answer and says what to do next. A height without a local
    /// hash is skipped; a local hash is compared with the daemon's hash at the
    /// same height, as lowercase hexadecimal text; on a mismatch the search
    /// steps one block down, and fails at the genesis block.
    pub fn step(&mut self, event: SearchEvent) -> (action: SearchAction)
        requires
            old(self).can_take(event),
        ensures
            final(self).height <= old(self).height,
            search_measure(*final(self)) < search_measure(*old(self)),
            (action is Finished) == (final(self).phase == SearchPhase::Done),
            (*final(self), action) == next_step(*old(self), event_answer(event)),
            match (old(self).phase, event) {
                (SearchPhase::AwaitingLocalHash, SearchEvent::LocalHash(None)) => {
                    &&& final(self).height == old(self).height - 1
                    &&& final(self).phase == SearchPhase::AwaitingLocalHash
                    &&& action == (SearchAction::ReadLocalHash { height: final(self).height })
                },
                (SearchPhase::AwaitingLocalHash, SearchEvent::LocalHash(Some(hash))) => {
                    &&& final(self).height == old(self).height
                    &&& final(self).phase == (SearchPhase::AwaitingDaemonHash { local_hash: hash })
                    &&& action == (SearchAction::FetchDaemonHash { height: old(self).height })
                },
                (SearchPhase::AwaitingDaemonHash { .. }, SearchEvent::DaemonHash(None)) => {
                    &&& final(self).height == old(self).height
                    &&& action == SearchAction::Finished(Err(AncestorError::MissingDaemonHash))
                },
                (
                    SearchPhase::AwaitingDaemonHash { local_hash },
                    SearchEvent::DaemonHash(Some(daemon_hash)),
                ) => if daemon_hash@ == lower_hex(local_hash@) {
                    &&& final(self).height == old(self).height
                    &&& action == SearchAction::Finished(Ok(old(self).height))
                } else if old(self).height == 0 {
                    &&& final(self).height == 0
                    &&& action == SearchAction::Finished(Err(AncestorError::GenesisMismatch))
                } else {
                    &&& final(self).height == old(self).height - 1
                    &&& final(self).phase == SearchPhase::AwaitingLocalHash
                    &&& action == (SearchAction::ReadLocalHash { height: final(self).height })
                },
                _ => false,
            },
    {
        match self.phase {
            SearchPhase::AwaitingLocalHash => {
                match event {
                    SearchEvent::LocalHash(Some(hash)) => {
                        self.phase = SearchPhase::AwaitingDaemonHash { local_hash: hash };
                        SearchAction::FetchDaemonHash { height: self.height }
                    },
                    _ => {
                        self.height = self.height - 1;
                        SearchAction::ReadLocalHash { height: self.height }
                    },
                }
            },
            SearchPhase::AwaitingDaemonHash { local_hash } => {
                match event {
                    SearchEvent::DaemonHash(Some(daemon_hash)) => {
                        let local_hash_hex = hex_encode(&local_hash);
                        if local_hash_hex == daemon_hash {
                            self.phase = SearchPhase::Done;
                            SearchAction::Finished(Ok(self.height))
                        } else if self.height == 0 {
                            self.phase = SearchPhase::Done;
                            SearchAction::Finished(Err(AncestorError::GenesisMismatch))
                        } else {
                            self.height = self.height - 1;
                            self.phase = SearchPhase::AwaitingLocalHash;
                            SearchAction::ReadLocalHash { height: self.height }
                        }
                    },
                    _ => {
                        self.phase = SearchPhase::Done;
                        SearchAction::Finished(Err(AncestorError::MissingDaemonHash))
                    },
                }
            },
            SearchPhase::Done => SearchAction::Finished(Err(AncestorError::MissingDaemonHash)),
        }
    }
}

} // verus!
