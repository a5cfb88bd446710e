//! Notifications that the Monero daemon publishes over ZMQ, and how each
//! received message is routed.
use vstd::prelude::*;
use vstd::utf8::{valid_utf8, decode_utf8};

verus! {

/// The daemon's ZMQ publisher on a local stagenet node.
pub const DAEMON_ZMQ_ADDRESS: &'static str = "tcp://127.0.0.1:38081";

/// The topic on which the daemon announces new blocks of the main chain.
pub const CHAIN_MAIN_TOPIC: &'static str = "json-minimal-chain_main";

/// The topic on which the daemon announces transactions entering its pool.
pub const TXPOOL_ADD_TOPIC: &'static str = "json-minimal-txpool_add";

/// A new block of the L1 main chain.
#[derive(Debug, Clone, PartialEq, Eq)]
pub struct BlockNotification {
    pub block_id: String,
    pub block_height: u64,
    pub wide_difficulty: String,
}

/// A transaction that entered the L1 transaction pool.
#[derive(Debug, Clone, PartialEq, Eq)]
pub struct TxpoolNotification {
    pub tx_hash: String,
    pub blob_size: u64,
    pub weight: u64,
    pub fee: u64,
}

/// The text that `String::from_utf8_lossy` makes of `bytes`.
pub uninterp spec fn utf8_lossy(bytes: Seq<u8>) -> Seq<char>;

/// Calls `String::from_utf8_lossy`, which replaces each invalid sequence by
/// U+FFFD. The contract claims that the text is a function of the bytes, and, as
/// std documents, that valid UTF-8 is decoded as it stands.
#[verifier::external_body]
fn from_utf8_lossy(bytes: &[u8]) -> (text: String)
    ensures
        text@ == utf8_lossy(bytes@),
        valid_utf8(bytes@) ==> text@ == decode_utf8(bytes@),
{
    String::from_utf8_lossy(bytes).into_owned()
}

/// A multipart ZMQ message, routed by its topic frame.
#[derive(Debug, Clone, PartialEq, Eq)]
pub enum L1Message {
    /// Fewer than two frames: the message is ignored.
    Malformed,
    /// A new main-chain block; `payload` is the JSON text of the notifications.
    ChainMain { payload: String },
    /// New pool transactions; `payload` is the JSON text of the notifications.
    TxpoolAdd { payload: String },
    /// A topic that the bridge does not handle.
    UnknownTopic { topic: String },
}

/// Routes a message by its topic text; `payload` is the text of its payload frame.
pub fn route_texts(topic: String, payload: String) -> (message: L1Message)
    ensures
        topic@ == CHAIN_MAIN_TOPIC@ ==> message == (L1Message::ChainMain { payload }),
        topic@ != CHAIN_MAIN_TOPIC@ && topic@ == TXPOOL_ADD_TOPIC@ ==> message == (
        L1Message::TxpoolAdd { payload }),
        topic@ != CHAIN_MAIN_TOPIC@ && topic@ != TXPOOL_ADD_TOPIC@ ==> message == (
        L1Message::UnknownTopic { topic }),
{
    let chain_main: String = CHAIN_MAIN_TOPIC.to_owned();
    let txpool_add: String = TXPOOL_ADD_TOPIC.to_owned();
    if topic == chain_main {
        L1Message::ChainMain { payload }
    } else if topic == txpool_add {
        L1Message::TxpoolAdd { payload }
    } else {
        L1Message::UnknownTopic { topic }
    }
}

/// Routes a multipart message `[topic, payload, ..]` by its topic, both frames
/// read as UTF-8 with invalid sequences replaced.
pub fn route_message(frames: &Vec<Vec<u8>>) -> (message: L1Message)
    ensures
        frames@.len() < 2 <==> message is Malformed,
        frames@.len() >= 2 ==> {
            let topic = utf8_lossy(frames@[0]@);
            let payload = utf8_lossy(frames@[1]@);
            match message {
                L1Message::ChainMain { payload: p } => topic == CHAIN_MAIN_TOPIC@ && p@ == payload,
                L1Message::TxpoolAdd { payload: p } => {
                    &&& topic != CHAIN_MAIN_TOPIC@
                    &&& topic == TXPOOL_ADD_TOPIC@
                    &&& p@ == payload
                },
                L1Message::UnknownTopic { topic: t } => {
                    &&& t@ == topic
                    &&& topic != CHAIN_MAIN_TOPIC@
                    &&& topic != TXPOOL_ADD_TOPIC@
                },
                L1Message::Malformed => false,
            }
        },
{
    if frames.len() < 2 {
        return L1Message::Malformed;
    }
    let topic = from_utf8_lossy(frames[0].as_slice());
    let payload = from_utf8_lossy(frames[1].as_slice());
    route_texts(topic, payload)
}

/// The block to report from a parsed chain notification: the first one, if the
/// payload parsed and held any.
pub fn chain_report(parsed: Option<Vec<BlockNotification>>) -> (block: Option<BlockNotification>)
    ensures
        match parsed {
            Some(blocks) => if blocks@.len() > 0 {
                block == Some(blocks@[0])
            } else {
                block is None
            },
            None => block is None,
        },
{
    match parsed {
        Some(mut blocks) => {
            if blocks.len() > 0 {
                Some(blocks.swap_remove(0))
            } else {
                None
            }
        },
        None => None,
    }
}

/// The hash and fee of each transaction of a parsed pool notification, in
/// order; nothing if the payload did not parse.
pub fn txpool_report(parsed: Option<Vec<TxpoolNotification>>) -> (reported: Vec<(String, u64)>)
    ensures
        match parsed {
            Some(txs) => {
                &&& reported@.len() == txs@.len()
                &&& forall|i: int|
                    0 <= i < txs@.len() ==> (#[trigger] reported@[i]).0@ == txs@[i].tx_hash@
                        && reported@[i].1 == txs@[i].fee
            },
            None => reported@.len() == 0,
        },
{
    let mut reported: Vec<(String, u64)> = Vec::new();
    match parsed {
        Some(txs) => {
            let mut i: usize = 0;
            while i < txs.len()
                invariant
                    i <= txs@.len(),
                    reported@.len() == i,
                    forall|k: int|
                        0 <= k < i ==> (#[trigger] reported@[k]).0@ == txs@[k].tx_hash@
                            && reported@[k].1 == txs@[k].fee,
                decreases txs@.len() - i,
            {
                reported.push((txs[i].tx_hash.clone(), txs[i].fee));
                i = i + 1;
            }
            reported
        },
        None => reported,
    }
}

} // verus!
