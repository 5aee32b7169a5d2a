//! The decisions behind live block and log streams read from a node's
//! database: when a stream must be (re)started, what a poll of the best block
//! leads to, and how the logs of one block are assembled from its receipts.
//! Spawning tasks, sleeping and channels are the caller's part.

use vstd::prelude::*;
use alloy_primitives::{Log, B256};
use crate::chains::{SupportedChains, spec_poll_time_ms};
use crate::text::{
    concat_str, u64_to_decimal, spec_decimal, spec_starts_with, spec_ends_with, spec_contains,
    lemma_affixes_are_found,
};

verus! {

/// How many messages a stream's broadcast channel buffers.
pub const DEFAULT_CHANNEL_CAPACITY: usize = 1024;

/// Why a live stream could not deliver data.
#[derive(Debug, Clone)]
pub enum LiveStateStreamError {
    NoData,
    FailedToFetchBestBlock(String),
    FailedToGetData(u64, String),
    StreamError(String),
}

/// The human-readable message of each error.
pub open spec fn spec_error_message(e: LiveStateStreamError) -> Seq<char> {
    match e {
        LiveStateStreamError::NoData => "data store disconnected"@,
        LiveStateStreamError::FailedToFetchBestBlock(s) => "failed to fetch best block: "@ + s@,
        LiveStateStreamError::FailedToGetData(n, s) => "failed to fetch data for best block, "@
            + spec_decimal(n as nat) + ", "@ + s@,
        LiveStateStreamError::StreamError(s) => "stream error: "@ + s@,
    }
}

impl LiveStateStreamError {
    /// The message shown when the error is displayed.
    pub fn message(&self) -> (r: String)
        ensures
            r@ == spec_error_message(*self),
    {
        match self {
            LiveStateStreamError::NoData => String::from_str("data store disconnected"),
            LiveStateStreamError::FailedToFetchBestBlock(s) => concat_str(
                "failed to fetch best block: ",
                s.as_str(),
            ),
            LiveStateStreamError::FailedToGetData(n, s) => {
                let mut r = String::from_str("failed to fetch data for best block, ");
                let digits = u64_to_decimal(*n);
                r.append(digits.as_str());
                r.append(", ");
                r.append(s.as_str());
                r
            },
            LiveStateStreamError::StreamError(s) => concat_str("stream error: ", s.as_str()),
        }
    }
}

/// Each message names what failed and ends with the detail the error holds;
/// a data error also names the block number in decimal.
pub proof fn lemma_error_messages_carry_details(e: LiveStateStreamError)
    ensures
        match e {
            LiveStateStreamError::NoData => spec_error_message(e) == "data store disconnected"@,
            LiveStateStreamError::FailedToFetchBestBlock(s) => spec_starts_with(
                spec_error_message(e),
                "failed to fetch best block: "@,
            ) && spec_ends_with(spec_error_message(e), s@),
            LiveStateStreamError::FailedToGetData(n, s) => spec_starts_with(
                spec_error_message(e),
                "failed to fetch data for best block, "@,
            ) && spec_contains(spec_error_message(e), spec_decimal(n as nat)) && spec_ends_with(
                spec_error_message(e),
                s@,
            ),
            LiveStateStreamError::StreamError(s) => spec_starts_with(
                spec_error_message(e),
                "stream error: "@,
            ) && spec_ends_with(spec_error_message(e), s@),
        },
{
    match e {
        LiveStateStreamError::NoData => {},
        LiveStateStreamError::FailedToFetchBestBlock(s) => {
            lemma_affixes_are_found(seq![], "failed to fetch best block: "@, s@);
            lemma_affixes_are_found("failed to fetch best block: "@, s@, seq![]);
            assert("failed to fetch best block: "@ + s@ + seq![] =~= spec_error_message(e));
            assert(seq![] + "failed to fetch best block: "@ + s@ =~= spec_error_message(e));
        },
        LiveStateStreamError::FailedToGetData(n, s) => {
            let pre = "failed to fetch data for best block, "@;
            let d = spec_decimal(n as nat);
            let rest = ", "@ + s@;
            lemma_affixes_are_found(seq![], pre, d + rest);
            lemma_affixes_are_found(pre, d, rest);
            lemma_affixes_are_found(pre + d + ", "@, s@, seq![]);
            assert(pre + (d + rest) =~= spec_error_message(e));
            assert(pre + d + rest =~= spec_error_message(e));
            assert(pre + d + ", "@ + s@ =~= spec_error_message(e));
        },
        LiveStateStreamError::StreamError(s) => {
            lemma_affixes_are_found(seq![], "stream error: "@, s@);
            lemma_affixes_are_found("stream error: "@, s@, seq![]);
            assert("stream error: "@ + s@ + seq![] =~= spec_error_message(e));
            assert(seq![] + "stream error: "@ + s@ =~= spec_error_message(e));
        },
    }
}

/// Which of the two live streams a handle belongs to.
#[derive(Debug, Clone, Copy, Hash, PartialEq, Eq, Structural)]
pub enum LiveStateStreamKind {
    Logs,
    Blocks,
}

/// A stream slot needs a (re)start when it holds no stream, or when the task
/// that fed its stream has finished. `slot` is `None` for an empty slot and
/// `Some(finished)` for an occupied one.
pub open spec fn spec_needs_restart(slot: Option<bool>) -> bool {
    match slot {
        None => true,
        Some(finished) => finished,
    }
}

/// Whether the stream slot must be filled with a newly spawned stream.
pub fn needs_restart(slot: Option<bool>) -> (r: bool)
    ensures
        r == spec_needs_restart(slot),
{
    match slot {
        None => true,
        Some(finished) => finished,
    }
}

/// Only a slot that holds a stream whose task is still running is left
/// alone; an empty slot and a finished stream both lead to a restart.
pub proof fn lemma_restart_unless_running(slot: Option<bool>)
    ensures
        !spec_needs_restart(slot) <==> slot == Some(false),
{
}

/// The slot after an `ensure` step: a restart puts a fresh, running stream in
/// it; otherwise it is left as it was.
pub open spec fn spec_ensure(slot: Option<bool>) -> Option<bool> {
    if spec_needs_restart(slot) {
        Some(false)
    } else {
        slot
    }
}

/// After the stream of a slot has been ensured, the slot holds a running
/// stream, so subscribing to it cannot find it empty; and ensuring it again
/// spawns nothing more.
pub proof fn lemma_ensure_yields_running_stream(slot: Option<bool>)
    ensures
        spec_ensure(slot) == Some(false),
        !spec_needs_restart(spec_ensure(slot)),
        spec_ensure(spec_ensure(slot)) == spec_ensure(slot),
{
}

/// The poll interval of a stream spawned for `chain`.
pub fn stream_poll_interval_ms(chain: SupportedChains) -> (r: usize)
    ensures
        r == spec_poll_time_ms(chain),
{
    chain.get_default_poll_time_ms_for_chain()
}

/// A stream only polls the database while someone is listening.
pub fn should_poll(receiver_count: usize) -> (r: bool)
    ensures
        r == (receiver_count != 0),
{
    receiver_count != 0
}

/// What a stream does after asking for the best block.
#[derive(Debug, Clone)]
pub enum PollAction {
    /// Tell the subscribers that the best block could not be read.
    ReportError(LiveStateStreamError),
    /// Read the data of this block and send it to the subscribers.
    Fetch(u64),
    /// The best block has already been sent: nothing to do.
    Wait,
}

/// One poll step on the last block sent: `best` is the best block number when
/// it could be read, `None` when reading it failed. The result is the new last
/// block and the block to fetch, if any.
pub open spec fn spec_poll_step(last: Option<u64>, best: Option<u64>) -> (Option<u64>, Option<u64>) {
    match best {
        None => (last, None),
        Some(n) => if last == Some(n) {
            (last, None)
        } else {
            (Some(n), Some(n))
        },
    }
}

/// The state of a stream's polling loop: the last block whose data was sent.
pub struct StreamCursor {
    last_block: Option<u64>,
}

impl View for StreamCursor {
    type V = Option<u64>;

    closed spec fn view(&self) -> Option<u64> {
        self.last_block
    }
}

impl StreamCursor {
    /// A cursor that has sent nothing yet.
    pub fn new() -> (r: Self)
        ensures
            r@ is None,
    {
        StreamCursor { last_block: None }
    }

    /// The last block whose data was sent.
    pub fn last_block(&self) -> (r: Option<u64>)
        ensures
            r == self@,
    {
        self.last_block
    }

    /// Advances the cursor with the outcome of reading the best block number.
    pub fn on_best_block(&mut self, best: Result<u64, String>) -> (action: PollAction)
        ensures
            best matches Ok(n) ==> if old(self)@ == Some(n) {
                action == PollAction::Wait && final(self)@ == old(self)@
            } else {
                action == PollAction::Fetch(n) && final(self)@ == Some(n)
            },
            match best {
                Ok(n) => {
                    &&& final(self)@ == spec_poll_step(old(self)@, Some(n)).0
                    &&& match action {
                        PollAction::Fetch(m) => spec_poll_step(old(self)@, Some(n)).1 == Some(m),
                        PollAction::Wait => spec_poll_step(old(self)@, Some(n)).1 is None,
                        PollAction::ReportError(_) => false,
                    }
                },
                Err(msg) => {
                    &&& final(self)@ == old(self)@
                    &&& action == PollAction::ReportError(
                        LiveStateStreamError::FailedToFetchBestBlock(msg),
                    )
                },
            },
    {
        match best {
            Ok(n) => {
                let same = match self.last_block {
                    Some(m) => m == n,
                    None => false,
                };
                if same {
                    PollAction::Wait
                } else {
                    self.last_block = Some(n);
                    PollAction::Fetch(n)
                }
            },
            Err(msg) => PollAction::ReportError(LiveStateStreamError::FailedToFetchBestBlock(msg)),
        }
    }
}

/// A poll that reads a best block other than the last one sent fetches that
/// block and records it as sent; one that reads the block last sent fetches
/// nothing; a failed read changes nothing.
pub proof fn lemma_poll_step_fetches_each_new_block(last: Option<u64>, n: u64)
    ensures
        last != Some(n) ==> spec_poll_step(last, Some(n)) == (Some(n), Some(n)),
        last == Some(n) ==> spec_poll_step(last, Some(n)) == (last, None::<u64>),
        spec_poll_step(last, None) == (last, None::<u64>),
{
}

/// The blocks fetched over a sequence of polls that start after `last`.
pub open spec fn spec_fetches(last: Option<u64>, bests: Seq<Option<u64>>) -> Seq<u64>
    decreases bests.len(),
{
    if bests.len() == 0 {
        seq![]
    } else {
        let (next, fetched) = spec_poll_step(last, bests[0]);
        let rest = spec_fetches(next, bests.drop_first());
        match fetched {
            Some(n) => seq![n] + rest,
            None => rest,
        }
    }
}

/// A live stream never sends the same block twice in a row, never sends again
/// the block it sent last, and only sends blocks that were reported as best.
pub proof fn lemma_fetches_never_repeat(last: Option<u64>, bests: Seq<Option<u64>>)
    ensures
        forall|k: int|
            0 <= k < spec_fetches(last, bests).len() - 1 ==> #[trigger] spec_fetches(last, bests)[k]
                != spec_fetches(last, bests)[k + 1],
        spec_fetches(last, bests).len() > 0 && last is Some ==> spec_fetches(last, bests)[0]
            != last.unwrap(),
        forall|k: int|
            0 <= k < spec_fetches(last, bests).len() ==> bests.contains(
                Some(#[trigger] spec_fetches(last, bests)[k]),
            ),
    decreases bests.len(),
{
    if bests.len() > 0 {
        let (next, fetched) = spec_poll_step(last, bests[0]);
        let tail = bests.drop_first();
        lemma_fetches_never_repeat(next, tail);
        let rest = spec_fetches(next, tail);
        let all = spec_fetches(last, bests);
        assert forall|k: int| 0 <= k < rest.len() implies bests.contains(Some(rest[k])) by {
            let j = choose|j: int| 0 <= j < tail.len() && tail[j] == Some(rest[k]);
            assert(bests[j + 1] == Some(rest[k]));
        }
        match fetched {
            Some(n) => {
                assert(all == seq![n] + rest);
                assert(bests[0] == Some(n));
                assert forall|k: int| 0 <= k < all.len() - 1 implies #[trigger] all[k] != all[k
                    + 1] by {
                    if k > 0 {
                        assert(all[k] == rest[k - 1]);
                        assert(all[k + 1] == rest[k]);
                    }
                }
                assert forall|k: int| 0 <= k < all.len() implies bests.contains(
                    Some(#[trigger] all[k]),
                ) by {
                    if k > 0 {
                        assert(all[k] == rest[k - 1]);
                    }
                }
            },
            None => {
                assert(all == rest);
            },
        }
    }
}

/// When every poll reads a best block and each differs from the one before
/// (the first from the last block already sent), every one of them is
/// fetched, in order.
pub proof fn lemma_fetches_follow_changing_bests(last: Option<u64>, bests: Seq<Option<u64>>)
    requires
        forall|k: int| 0 <= k < bests.len() ==> #[trigger] bests[k] is Some,
        forall|k: int| 0 <= k < bests.len() - 1 ==> #[trigger] bests[k] != bests[k + 1],
        bests.len() > 0 ==> last != bests[0],
    ensures
        spec_fetches(last, bests) == bests.map_values(|b: Option<u64>| b.unwrap()),
    decreases bests.len(),
{
    if bests.len() > 0 {
        let n = bests[0].unwrap();
        assert(bests[0] == Some(n));
        let tail = bests.drop_first();
        assert forall|k: int| 0 <= k < tail.len() implies #[trigger] tail[k] is Some by {
            assert(tail[k] == bests[k + 1]);
        }
        assert forall|k: int| 0 <= k < tail.len() - 1 implies #[trigger] tail[k] != tail[k + 1] by {
            assert(tail[k] == bests[k + 1]);
            assert(tail[k + 1] == bests[k + 2]);
        }
        if tail.len() > 0 {
            assert(tail[0] == bests[1]);
            assert(bests[0] != bests[1]);
        }
        lemma_fetches_follow_changing_bests(Some(n), tail);
        assert(bests.map_values(|b: Option<u64>| b.unwrap()) =~= seq![n] + tail.map_values(
            |b: Option<u64>| b.unwrap(),
        ));
    }
}

/// What a stream knows of a block header: its hash and its timestamp.
#[derive(Debug, Clone, Copy)]
pub struct BlockHeaderInfo {
    pub hash: B256,
    pub timestamp: u64,
}

/// An event log as the RPC returns it: the log itself, with the block and
/// transaction it belongs to and its position.
#[derive(Debug)]
pub struct RpcLog {
    pub inner: Log,
    pub block_hash: Option<B256>,
    pub block_number: Option<u64>,
    pub block_timestamp: Option<u64>,
    pub transaction_hash: Option<B256>,
    pub transaction_index: Option<u64>,
    pub log_index: Option<u64>,
    pub removed: bool,
}

/// The logs of one block, in the order of its receipts.
pub type NodeLogs = Vec<RpcLog>;

/// The RPC form of the `index`-th log of a receipt of block `block_number`.
/// The index counts within the receipt; no transaction is recorded.
pub open spec fn spec_block_log(
    block_number: u64,
    header: BlockHeaderInfo,
    index: int,
    inner: Log,
) -> RpcLog {
    RpcLog {
        inner,
        block_hash: Some(header.hash),
        block_number: Some(block_number),
        block_timestamp: Some(header.timestamp),
        transaction_hash: None,
        transaction_index: None,
        log_index: Some(index as u64),
        removed: false,
    }
}

/// The RPC logs of one receipt.
pub open spec fn spec_receipt_logs(block_number: u64, header: BlockHeaderInfo, logs: Seq<Log>) -> Seq<
    RpcLog,
> {
    Seq::new(logs.len(), |j: int| spec_block_log(block_number, header, j, logs[j]))
}

/// The RPC logs of all receipts of a block, receipt after receipt.
pub open spec fn spec_block_logs(
    block_number: u64,
    header: BlockHeaderInfo,
    receipts: Seq<Vec<Log>>,
) -> Seq<RpcLog>
    decreases receipts.len(),
{
    if receipts.len() == 0 {
        seq![]
    } else {
        spec_block_logs(block_number, header, receipts.drop_last()) + spec_receipt_logs(
            block_number,
            header,
            receipts.last()@,
        )
    }
}

/// What reading the logs of a block gives, from the outcome of reading its
/// header and, when the header exists, of reading its receipts.
pub open spec fn spec_latest_logs(
    block_number: u64,
    header: Result<Option<BlockHeaderInfo>, String>,
    receipts: Result<Option<Vec<Vec<Log>>>, String>,
) -> Result<Seq<RpcLog>, LiveStateStreamError> {
    match header {
        Err(e) => Err(LiveStateStreamError::FailedToGetData(block_number, e)),
        Ok(None) => Ok(seq![]),
        Ok(Some(h)) => match receipts {
            Err(e) => Err(LiveStateStreamError::FailedToGetData(block_number, e)),
            Ok(None) => Ok(seq![]),
            Ok(Some(rs)) => Ok(spec_block_logs(block_number, h, rs@)),
        },
    }
}

/// The outcome of the first read of a log lookup.
#[derive(Debug)]
pub enum LogsStep {
    /// The lookup is over, with this result.
    Finished(Result<NodeLogs, LiveStateStreamError>),
    /// The header exists: read the block's receipts and finish with them.
    ReadReceipts(BlockHeaderInfo),
}

/// First step of fetching the logs of block `block_number`, from the outcome
/// of reading its header.
pub fn latest_logs_header_step(
    block_number: u64,
    header: Result<Option<BlockHeaderInfo>, String>,
) -> (r: LogsStep)
    ensures
        match header {
            Err(e) => r == LogsStep::Finished(
                Err(LiveStateStreamError::FailedToGetData(block_number, e)),
            ),
            Ok(None) => r matches LogsStep::Finished(Ok(v)) && v@.len() == 0,
            Ok(Some(h)) => r == LogsStep::ReadReceipts(h),
        },
{
    match header {
        Err(e) => LogsStep::Finished(Err(LiveStateStreamError::FailedToGetData(block_number, e))),
        Ok(None) => LogsStep::Finished(Ok(Vec::new())),
        Ok(Some(h)) => LogsStep::ReadReceipts(h),
    }
}

/// Second step of fetching the logs of block `block_number`: the logs of all
/// its receipts, each marked with the block's hash, number and timestamp and
/// with its index within its receipt.
pub fn latest_logs_receipts_step(
    block_number: u64,
    header: &BlockHeaderInfo,
    receipts: Result<Option<Vec<Vec<Log>>>, String>,
) -> (r: Result<NodeLogs, LiveStateStreamError>)
    ensures
        match receipts {
            Err(e) => r == Err::<NodeLogs, _>(LiveStateStreamError::FailedToGetData(block_number, e)),
            Ok(None) => r matches Ok(v) && v@.len() == 0,
            Ok(Some(rs)) => r matches Ok(v) && v@ == spec_block_logs(block_number, *header, rs@),
        },
{
    match receipts {
        Err(e) => Err(LiveStateStreamError::FailedToGetData(block_number, e)),
        Ok(None) => Ok(Vec::new()),
        Ok(Some(rs)) => Ok(collect_block_logs(block_number, header, rs)),
    }
}

fn collect_block_logs(block_number: u64, header: &BlockHeaderInfo, receipts: Vec<Vec<Log>>) -> (r:
    NodeLogs)
    ensures
        r@ == spec_block_logs(block_number, *header, receipts@),
{
    let ghost all = receipts@;
    let mut rest = receipts;
    let mut out: Vec<RpcLog> = Vec::new();
    let n = rest.len();
    let mut i: usize = 0;
    while i < n
        invariant
            n == all.len(),
            i <= n,
            rest@ == all.subrange(i as int, n as int),
            out@ == spec_block_logs(block_number, *header, all.subrange(0, i as int)),
        decreases n - i,
    {
        let mut logs = rest.remove(0);
        assert(logs@ == all[i as int]@);
        let ghost before = out@;
        let m = logs.len();
        let mut j: usize = 0;
        while j < m
            invariant
                m == all[i as int]@.len(),
                j <= m,
                logs@ == all[i as int]@.subrange(j as int, m as int),
                out@ == before + spec_receipt_logs(block_number, *header, all[i as int]@).subrange(
                    0,
                    j as int,
                ),
            decreases m - j,
        {
            let log = logs.remove(0);
            let entry = RpcLog {
                inner: log,
                block_hash: Some(header.hash),
                block_number: Some(block_number),
                block_timestamp: Some(header.timestamp),
                transaction_hash: None,
                transaction_index: None,
                log_index: Some(j as u64),
                removed: false,
            };
            out.push(entry);
            proof {
                let full = spec_receipt_logs(block_number, *header, all[i as int]@);
                assert(entry == full[j as int]);
                assert(full.subrange(0, j + 1) =~= full.subrange(0, j as int).push(full[j as int]));
                assert(logs@ =~= all[i as int]@.subrange(j + 1, m as int));
            }
            j = j + 1;
        }
        proof {
            let full = spec_receipt_logs(block_number, *header, all[i as int]@);
            assert(full.subrange(0, m as int) =~= full);
            assert(all.subrange(0, i + 1).drop_last() =~= all.subrange(0, i as int));
            assert(all.subrange(0, i + 1).last() == all[i as int]);
            assert(rest@ =~= all.subrange(i + 1, n as int));
        }
        i = i + 1;
    }
    assert(all.subrange(0, n as int) =~= all);
    out
}

/// Fetching the logs of a block step by step, header first, then receipts
/// when the header exists, gives exactly the logs that `spec_latest_logs`
/// describes.
pub proof fn lemma_log_steps_compose(
    block_number: u64,
    header: Result<Option<BlockHeaderInfo>, String>,
    receipts: Result<Option<Vec<Vec<Log>>>, String>,
    first: LogsStep,
    second: Result<NodeLogs, LiveStateStreamError>,
)
    requires
        match header {
            Err(e) => first == LogsStep::Finished(
                Err(LiveStateStreamError::FailedToGetData(block_number, e)),
            ),
            Ok(None) => first matches LogsStep::Finished(Ok(v)) && v@.len() == 0,
            Ok(Some(h)) => first == LogsStep::ReadReceipts(h),
        },
        first matches LogsStep::ReadReceipts(h) ==> match receipts {
            Err(e) => second == Err::<NodeLogs, _>(
                LiveStateStreamError::FailedToGetData(block_number, e),
            ),
            Ok(None) => second matches Ok(v) && v@.len() == 0,
            Ok(Some(rs)) => second matches Ok(v) && v@ == spec_block_logs(block_number, h, rs@),
        },
    ensures
        ({
            let outcome = match first {
                LogsStep::Finished(r) => r,
                LogsStep::ReadReceipts(_) => second,
            };
            match spec_latest_logs(block_number, header, receipts) {
                Ok(expected) => outcome matches Ok(v) && v@ == expected,
                Err(e) => outcome == Err::<NodeLogs, _>(e),
            }
        }),
{
}

/// The number of logs in a block is the number of logs over all its receipts,
/// and every log carries the block's hash, number and timestamp, is not marked
/// removed, and has an index below the size of its receipt.
pub proof fn lemma_block_logs_shape(
    block_number: u64,
    header: BlockHeaderInfo,
    receipts: Seq<Vec<Log>>,
)
    ensures
        spec_block_logs(block_number, header, receipts).len() == spec_total_logs(receipts),
        forall|k: int|
            0 <= k < spec_block_logs(block_number, header, receipts).len() ==> {
                let l = #[trigger] spec_block_logs(block_number, header, receipts)[k];
                &&& l.block_hash == Some(header.hash)
                &&& l.block_number == Some(block_number)
                &&& l.block_timestamp == Some(header.timestamp)
                &&& l.transaction_hash is None
                &&& l.transaction_index is None
                &&& !l.removed
                &&& l.log_index is Some
            },
    decreases receipts.len(),
{
    if receipts.len() > 0 {
        lemma_block_logs_shape(block_number, header, receipts.drop_last());
        let a = spec_block_logs(block_number, header, receipts.drop_last());
        let b = spec_receipt_logs(block_number, header, receipts.last()@);
        let all = spec_block_logs(block_number, header, receipts);
        assert(all == a + b);
        assert forall|k: int| 0 <= k < all.len() implies {
            let l = #[trigger] all[k];
            &&& l.block_hash == Some(header.hash)
            &&& l.block_number == Some(block_number)
            &&& l.block_timestamp == Some(header.timestamp)
            &&& l.transaction_hash is None
            &&& l.transaction_index is None
            &&& !l.removed
            &&& l.log_index is Some
        } by {
            if k < a.len() {
                assert(all[k] == a[k]);
            } else {
                assert(all[k] == b[k - a.len()]);
            }
        }
    }
}

/// The `k`-th log of the `i`-th receipt of a block sits right after the logs
/// of the receipts before it, holds that very log, carries the block's hash,
/// number and timestamp, and has index `k`, its position within its receipt.
pub proof fn lemma_block_log_positions(
    block_number: u64,
    header: BlockHeaderInfo,
    receipts: Seq<Vec<Log>>,
    i: int,
    k: int,
)
    requires
        0 <= i < receipts.len(),
        0 <= k < receipts[i]@.len(),
    ensures
        spec_total_logs(receipts.take(i)) + k < spec_block_logs(block_number, header, receipts).len(),
        spec_block_logs(block_number, header, receipts)[spec_total_logs(receipts.take(i)) + k] == (
        RpcLog {
            inner: receipts[i]@[k],
            block_hash: Some(header.hash),
            block_number: Some(block_number),
            block_timestamp: Some(header.timestamp),
            transaction_hash: None,
            transaction_index: None,
            log_index: Some(k as u64),
            removed: false,
        }),
    decreases receipts.len(),
{
    let front = receipts.drop_last();
    lemma_block_logs_shape(block_number, header, front);
    lemma_block_logs_shape(block_number, header, receipts);
    let a = spec_block_logs(block_number, header, front);
    let b = spec_receipt_logs(block_number, header, receipts.last()@);
    let all = spec_block_logs(block_number, header, receipts);
    assert(all == a + b);
    if i == receipts.len() - 1 {
        assert(receipts.take(i) =~= front);
        assert(all[a.len() + k] == b[k]);
    } else {
        assert(front.take(i) =~= receipts.take(i));
        assert(front[i] == receipts[i]);
        lemma_block_log_positions(block_number, header, front, i, k);
        assert(all[spec_total_logs(receipts.take(i)) + k] == a[spec_total_logs(receipts.take(i)) + k]);
    }
}

/// The number of logs over all receipts.
pub open spec fn spec_total_logs(receipts: Seq<Vec<Log>>) -> nat
    decreases receipts.len(),
{
    if receipts.len() == 0 {
        0
    } else {
        spec_total_logs(receipts.drop_last()) + receipts.last()@.len()
    }
}

/// The latest block of the database, with a failed read reported as an error
/// about that block.
pub fn get_latest_block<B>(block_number: u64, block: Result<Option<B>, String>) -> (r: Result<
    Option<B>,
    LiveStateStreamError,
>)
    ensures
        match block {
            Ok(b) => r == Ok::<Option<B>, LiveStateStreamError>(b),
            Err(e) => r == Err::<Option<B>, _>(LiveStateStreamError::FailedToGetData(block_number, e)),
        },
{
    match block {
        Ok(b) => Ok(b),
        Err(e) => Err(LiveStateStreamError::FailedToGetData(block_number, e)),
    }
}

} // verus!
