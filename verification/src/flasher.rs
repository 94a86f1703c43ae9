//! The write pipeline's rules: the pre-flight check, the aligned write buffer
//! of the device writer, throttled progress, and how the two sides' outcomes
//! combine into the pipeline's result.

use vstd::prelude::*;
use vstd::slice::slice_subrange;
use vstd::string::*;
use crate::text::{parse_u64, u64_text};

verus! {

/// How many chunks the hand-off queue between the downloader and the device
/// writer admits before the downloader blocks.
pub const CHANNEL_BOUND: usize = 4;

/// The size of an aligned device write: 1 MiB.
pub const WRITE_BUFFER_SIZE: usize = 1048576;

/// The aligned blocks that `data` holds, in order.
pub open spec fn full_blocks(data: Seq<u8>) -> Seq<Seq<u8>> {
    Seq::new(
        (data.len() / WRITE_BUFFER_SIZE as nat),
        |i: int| data.subrange(i * WRITE_BUFFER_SIZE, (i + 1) * WRITE_BUFFER_SIZE),
    )
}

/// What is left of `data` behind its aligned blocks.
pub open spec fn remainder(data: Seq<u8>) -> Seq<u8> {
    data.skip((data.len() / WRITE_BUFFER_SIZE as nat) * WRITE_BUFFER_SIZE)
}

/// The writes that reach the device for a stream: `pending` is what the
/// writer holds when the first of `chunks` arrives. Every chunk releases the
/// aligned blocks it completes; the end of the stream releases what is left.
pub open spec fn device_writes(pending: Seq<u8>, chunks: Seq<Seq<u8>>) -> Seq<Seq<u8>>
    decreases chunks.len(),
{
    if chunks.len() == 0 {
        if pending.len() == 0 {
            Seq::empty()
        } else {
            seq![pending]
        }
    } else {
        full_blocks(pending + chunks[0]) + device_writes(
            remainder(pending + chunks[0]),
            chunks.drop_first(),
        )
    }
}

/// The first `count` aligned blocks of `data`.
pub open spec fn leading_blocks(data: Seq<u8>, count: nat) -> Seq<Seq<u8>> {
    Seq::new(count, |i: int| data.subrange(i * WRITE_BUFFER_SIZE, (i + 1) * WRITE_BUFFER_SIZE))
}

proof fn lemma_leading_blocks(data: Seq<u8>, count: nat)
    requires
        count * WRITE_BUFFER_SIZE <= data.len(),
    ensures
        leading_blocks(data, count).flatten() == data.take(count * WRITE_BUFFER_SIZE),
    decreases count,
{
    if count == 0 {
        assert(leading_blocks(data, count).flatten() =~= data.take(0));
    } else {
        let fewer = (count - 1) as nat;
        let block = data.subrange(fewer * WRITE_BUFFER_SIZE, count * WRITE_BUFFER_SIZE);
        lemma_leading_blocks(data, fewer);
        assert(leading_blocks(data, count) =~= leading_blocks(data, fewer).push(block));
        leading_blocks(data, fewer).lemma_flatten_push(block);
        assert(data.take(fewer * WRITE_BUFFER_SIZE) + block =~= data.take(
            count * WRITE_BUFFER_SIZE,
        ));
    }
}

/// Cutting `data` into its aligned blocks and its remainder loses nothing.
pub proof fn lemma_blocks_rebuild(data: Seq<u8>)
    ensures
        full_blocks(data).flatten() + remainder(data) == data,
        remainder(data).len() < WRITE_BUFFER_SIZE,
        forall|i: int|
            0 <= i < full_blocks(data).len() ==> (#[trigger] full_blocks(data)[i]).len()
                == WRITE_BUFFER_SIZE,
{
    let size = WRITE_BUFFER_SIZE as int;
    let count = data.len() / (size as nat);
    vstd::arithmetic::div_mod::lemma_fundamental_div_mod(data.len() as int, size);
    vstd::arithmetic::div_mod::lemma_mod_bound(data.len() as int, size);
    assert(size * (data.len() as int / size) == count * size) by (nonlinear_arith)
        requires
            count == data.len() as int / size,
    ;
    lemma_leading_blocks(data, count);
    assert(full_blocks(data) =~= leading_blocks(data, count));
    assert(data.take(count * size) + data.skip(count * size) =~= data);
}

/// The aligned-buffering law: whatever the sizes of the chunks, the writes
/// that reach the device, joined in order, are the bytes held at the start
/// followed by the chunks' bytes, with nothing lost, repeated or reordered.
/// Every write but the last is one full block, and no write is empty.
pub proof fn lemma_device_writes_preserve_stream(pending: Seq<u8>, chunks: Seq<Seq<u8>>)
    requires
        pending.len() < WRITE_BUFFER_SIZE,
    ensures
        device_writes(pending, chunks).flatten() == pending + chunks.flatten(),
        forall|i: int|
            0 <= i < device_writes(pending, chunks).len() - 1 ==> (#[trigger] device_writes(
                pending,
                chunks,
            )[i]).len() == WRITE_BUFFER_SIZE,
        forall|i: int|
            0 <= i < device_writes(pending, chunks).len() ==> 0 < (#[trigger] device_writes(
                pending,
                chunks,
            )[i]).len() <= WRITE_BUFFER_SIZE,
    decreases chunks.len(),
{
    let writes = device_writes(pending, chunks);
    if chunks.len() == 0 {
        if pending.len() == 0 {
            assert(writes.flatten() =~= pending + chunks.flatten());
        } else {
            writes.lemma_flatten_one_element();
            assert(writes.flatten() =~= pending + chunks.flatten());
        }
    } else {
        let data = pending + chunks[0];
        let blocks = full_blocks(data);
        let later = device_writes(remainder(data), chunks.drop_first());
        lemma_blocks_rebuild(data);
        lemma_device_writes_preserve_stream(remainder(data), chunks.drop_first());
        vstd::seq_lib::lemma_flatten_concat(blocks, later);
        assert(writes.flatten() =~= blocks.flatten() + (remainder(data)
            + chunks.drop_first().flatten()));
        let rest = chunks.drop_first().flatten();
        assert(chunks.flatten() =~= chunks[0] + rest);
        assert(blocks.flatten() + (remainder(data) + rest) =~= (blocks.flatten() + remainder(
            data,
        )) + rest);
        assert((pending + chunks[0]) + rest =~= pending + (chunks[0] + rest));
        assert(writes.flatten() =~= pending + chunks.flatten());
        assert forall|i: int| 0 <= i < writes.len() implies 0 < (#[trigger] writes[i]).len()
            <= WRITE_BUFFER_SIZE by {
            if i < blocks.len() {
                assert(writes[i] == blocks[i]);
            } else {
                assert(writes[i] == later[i - blocks.len()]);
            }
        }
        assert forall|i: int| 0 <= i < writes.len() - 1 implies (#[trigger] writes[i]).len()
            == WRITE_BUFFER_SIZE by {
            if i < blocks.len() {
                assert(writes[i] == blocks[i]);
            } else {
                assert(writes[i] == later[i - blocks.len()]);
            }
        }
    }
}

/// The device writer's buffer. It collects incoming chunks and releases them
/// in blocks of exactly `WRITE_BUFFER_SIZE` bytes; only the last write of a
/// stream may be shorter.
pub struct WriteBuffer {
    pending: Vec<u8>,
}

impl View for WriteBuffer {
    type V = Seq<u8>;

    /// The bytes received and not yet released.
    closed spec fn view(&self) -> Seq<u8> {
        self.pending@
    }
}

impl WriteBuffer {
    /// Less than one block is ever held back.
    #[verifier::type_invariant]
    pub closed spec fn wf(&self) -> bool {
        self.pending@.len() < WRITE_BUFFER_SIZE
    }

    /// An empty buffer.
    pub fn new() -> (buffer: Self)
        ensures
            buffer@ == Seq::<u8>::empty(),
    {
        WriteBuffer { pending: Vec::new() }
    }

    /// How many bytes are held back: always less than one block.
    pub fn pending_len(&self) -> (len: usize)
        ensures
            len == self@.len(),
            len < WRITE_BUFFER_SIZE,
    {
        proof {
            use_type_invariant(self);
        }
        self.pending.len()
    }

    /// Takes one chunk in and hands out every aligned block that is now
    /// complete, in stream order. What does not fill a block stays buffered.
    pub fn push_chunk(&mut self, chunk: &[u8]) -> (blocks: Vec<Vec<u8>>)
        ensures
            blocks.deep_view() == full_blocks(old(self)@ + chunk@),
            final(self)@ == remainder(old(self)@ + chunk@),
    {
        proof {
            use_type_invariant(&*self);
        }
        let ghost data = self.pending@ + chunk@;
        let ghost held = self.pending@.len();
        let n: usize = chunk.len();
        let mut blocks: Vec<Vec<u8>> = Vec::new();
        let mut current: Vec<u8> = Vec::new();
        std::mem::swap(&mut self.pending, &mut current);
        let mut pos: usize = 0;
        while n - pos >= WRITE_BUFFER_SIZE - current.len()
            invariant
                n == chunk@.len(),
                pos <= n,
                current@.len() < WRITE_BUFFER_SIZE,
                data == old(self).pending@ + chunk@,
                held == old(self).pending@.len(),
                self.pending@.len() == 0,
                blocks@.len() * WRITE_BUFFER_SIZE + current@.len() == held + pos,
                current@ == data.subrange(blocks@.len() * WRITE_BUFFER_SIZE, held + pos),
                forall|i: int|
                    0 <= i < blocks@.len() ==> (#[trigger] blocks@[i])@ == data.subrange(
                        i * WRITE_BUFFER_SIZE,
                        (i + 1) * WRITE_BUFFER_SIZE,
                    ),
            decreases n - pos,
        {
            let take: usize = WRITE_BUFFER_SIZE - current.len();
            let ghost before = current@;
            current.extend_from_slice(slice_subrange(chunk, pos, pos + take));
            assert(current@ =~= before + chunk@.subrange(pos as int, pos + take));
            pos += take;
            assert(current@ =~= data.subrange(
                blocks@.len() * WRITE_BUFFER_SIZE,
                (blocks@.len() + 1) * WRITE_BUFFER_SIZE,
            ));
            blocks.push(current);
            current = Vec::new();
            assert(current@ =~= data.subrange(blocks@.len() * WRITE_BUFFER_SIZE, held + pos));
        }
        let ghost before = current@;
        current.extend_from_slice(slice_subrange(chunk, pos, n));
        proof {
            assert(current@ =~= before + chunk@.subrange(pos as int, n as int));
            let count = blocks@.len() as int;
            let size = WRITE_BUFFER_SIZE as int;
            assert(count * size + current@.len() == data.len());
            vstd::arithmetic::div_mod::lemma_fundamental_div_mod_converse(
                data.len() as int,
                size,
                count,
                current@.len() as int,
            );
            assert(current@ =~= remainder(data));
            assert(data.len() as int / size == count);
            assert forall|i: int| 0 <= i < count implies #[trigger] blocks.deep_view()[i]
                == full_blocks(data)[i] by {
                assert(blocks@[i].deep_view() =~= blocks@[i]@);
            }
            assert(blocks.deep_view() =~= full_blocks(data));
        }
        self.pending = current;
        blocks
    }

    /// Ends the stream: what is still buffered is the final, shorter write.
    /// An empty buffer asks for no write at all.
    pub fn finish(self) -> (last: Option<Vec<u8>>)
        ensures
            self@.len() == 0 ==> last is None,
            self@.len() > 0 ==> (last matches Some(block) && block@ == self@),
    {
        if self.pending.len() == 0 {
            None
        } else {
            Some(self.pending)
        }
    }
}

/// A snapshot of a running transfer. The speed is the average since the
/// start in bytes per second; the share done is in hundredths of a percent.
#[derive(Debug, Clone, Copy, PartialEq, Eq, Structural)]
pub struct FlashProgress {
    pub bytes_written: u64,
    pub total_bytes: u64,
    pub speed_bytes_per_sec: u64,
    pub percent_hundredths: u64,
}

/// Average speed in bytes per second, capped at `u64::MAX`. With no time
/// elapsed the speed of a transfer that moved anything is the cap.
pub open spec fn average_speed(bytes: u64, elapsed_micros: u64) -> u64 {
    if elapsed_micros == 0 {
        if bytes == 0 {
            0
        } else {
            u64::MAX
        }
    } else if bytes * 1000000 / (elapsed_micros as int) > u64::MAX {
        u64::MAX
    } else {
        (bytes * 1000000 / (elapsed_micros as int)) as u64
    }
}

/// The share of `total` that `bytes` is, in hundredths of a percent, capped
/// at `u64::MAX`. Of an empty total, anything written is the cap.
pub open spec fn share_done(bytes: u64, total: u64) -> u64 {
    if total == 0 {
        if bytes == 0 {
            0
        } else {
            u64::MAX
        }
    } else if bytes * 10000 / (total as int) > u64::MAX {
        u64::MAX
    } else {
        (bytes * 10000 / (total as int)) as u64
    }
}

/// The snapshot of a transfer that has moved `bytes` of `total` in
/// `elapsed_micros` microseconds.
pub open spec fn progress_at(bytes: u64, total: u64, elapsed_micros: u64) -> FlashProgress {
    FlashProgress {
        bytes_written: bytes,
        total_bytes: total,
        speed_bytes_per_sec: average_speed(bytes, elapsed_micros),
        percent_hundredths: share_done(bytes, total),
    }
}

fn scaled_ratio(amount: u64, scale: u64, divisor: u64) -> (ratio: u64)
    requires
        scale <= 1000000,
    ensures
        ratio == (if divisor == 0 {
            if amount == 0 {
                0
            } else {
                u64::MAX
            }
        } else if amount * scale / (divisor as int) > u64::MAX {
            u64::MAX
        } else {
            (amount * scale / (divisor as int)) as u64
        }),
{
    if divisor == 0 {
        return if amount == 0 {
            0
        } else {
            u64::MAX
        };
    }
    assert(amount * scale <= 0xFFFF_FFFF_FFFF_FFFF * 1000000) by (nonlinear_arith)
        requires
            amount <= 0xFFFF_FFFF_FFFF_FFFF,
            scale <= 1000000,
    ;
    let wide: u128 = (amount as u128) * (scale as u128) / (divisor as u128);
    if wide > u64::MAX as u128 {
        u64::MAX
    } else {
        wide as u64
    }
}

impl FlashProgress {
    /// The snapshot of a transfer that has moved `bytes` of `total` in
    /// `elapsed_micros` microseconds.
    pub fn new(bytes: u64, total: u64, elapsed_micros: u64) -> (progress: Self)
        ensures
            progress == progress_at(bytes, total, elapsed_micros),
    {
        FlashProgress {
            bytes_written: bytes,
            total_bytes: total,
            speed_bytes_per_sec: scaled_ratio(bytes, 1000000, elapsed_micros),
            percent_hundredths: scaled_ratio(bytes, 10000, total),
        }
    }
}

/// A transfer that has written all of a non-empty total stands at exactly
/// one hundred percent.
pub proof fn lemma_complete_is_hundred_percent(total: u64, elapsed_micros: u64)
    requires
        total > 0,
    ensures
        progress_at(total, total, elapsed_micros).percent_hundredths == 10000,
{
    assert(total * 10000 / (total as int) == 10000) by (nonlinear_arith)
        requires
            total > 0,
    ;
}

/// The shortest pause between two progress reports, in whole milliseconds:
/// a report is due once more than this has passed since the last one.
pub const PROGRESS_INTERVAL_MILLIS: u64 = 100;

/// Whether a report is due at `now`, the last one having gone out at `last`
/// (both in microseconds since the transfer began).
pub open spec fn report_due(last: u64, now: u64) -> bool {
    now >= last && (now - last) / 1000 > PROGRESS_INTERVAL_MILLIS
}

/// The downloader's running count, and when it last reported.
#[derive(Debug, Clone, Copy, PartialEq, Eq, Structural)]
pub struct ProgressTracker {
    pub total_bytes: u64,
    pub bytes_processed: u64,
    pub last_report_micros: u64,
}

impl ProgressTracker {
    /// The tracker after a chunk of `chunk_len` bytes went to the writer at
    /// `now_micros`.
    pub open spec fn after(self, chunk_len: u64, now_micros: u64) -> ProgressTracker {
        ProgressTracker {
            total_bytes: self.total_bytes,
            bytes_processed: (self.bytes_processed + chunk_len) as u64,
            last_report_micros: if report_due(self.last_report_micros, now_micros) {
                now_micros
            } else {
                self.last_report_micros
            },
        }
    }

    /// The report that such a chunk sets off, if one is due.
    pub open spec fn report(self, chunk_len: u64, now_micros: u64) -> Option<FlashProgress> {
        if report_due(self.last_report_micros, now_micros) {
            Some(
                progress_at(
                    (self.bytes_processed + chunk_len) as u64,
                    self.total_bytes,
                    now_micros,
                ),
            )
        } else {
            None
        }
    }

    /// A tracker for a transfer of `total_bytes` that begins now.
    pub fn new(total_bytes: u64) -> (tracker: Self)
        ensures
            tracker == (ProgressTracker { total_bytes, bytes_processed: 0, last_report_micros: 0 }),
    {
        ProgressTracker { total_bytes, bytes_processed: 0, last_report_micros: 0 }
    }

    /// Counts a chunk that was handed to the writer `now_micros` microseconds
    /// after the transfer began, and returns the report to send if one is due.
    pub fn record(&mut self, chunk_len: u64, now_micros: u64) -> (emitted: Option<FlashProgress>)
        requires
            old(self).bytes_processed + chunk_len <= u64::MAX,
        ensures
            *final(self) == old(self).after(chunk_len, now_micros),
            emitted == old(self).report(chunk_len, now_micros),
            final(self).bytes_processed == old(self).bytes_processed + chunk_len,
    {
        self.bytes_processed = self.bytes_processed + chunk_len;
        if now_micros >= self.last_report_micros && (now_micros - self.last_report_micros) / 1000
            > PROGRESS_INTERVAL_MILLIS {
            self.last_report_micros = now_micros;
            Some(FlashProgress::new(self.bytes_processed, self.total_bytes, now_micros))
        } else {
            None
        }
    }
}

/// The total size of the chunks in `events`, each a chunk's length and the
/// time it was handed over.
pub open spec fn bytes_in(events: Seq<(u64, u64)>) -> nat
    decreases events.len(),
{
    if events.len() == 0 {
        0
    } else {
        events[0].0 as nat + bytes_in(events.drop_first())
    }
}

/// The reports that go out while `tracker` counts `events` in order.
pub open spec fn reports(tracker: ProgressTracker, events: Seq<(u64, u64)>) -> Seq<FlashProgress>
    decreases events.len(),
{
    if events.len() == 0 {
        Seq::empty()
    } else {
        let first = match tracker.report(events[0].0, events[0].1) {
            Some(progress) => seq![progress],
            None => Seq::empty(),
        };
        first + reports(tracker.after(events[0].0, events[0].1), events.drop_first())
    }
}

/// Progress never runs backwards: over a whole transfer the byte counts of
/// the reports sent never decrease, none is below where the tracker began,
/// and none is above what had been handed over in all.
pub proof fn lemma_reports_non_decreasing(tracker: ProgressTracker, events: Seq<(u64, u64)>)
    requires
        tracker.bytes_processed + bytes_in(events) <= u64::MAX,
    ensures
        forall|i: int, j: int|
            0 <= i <= j < reports(tracker, events).len() ==> reports(
                tracker,
                events,
            )[i].bytes_written <= reports(tracker, events)[j].bytes_written,
        forall|i: int|
            0 <= i < reports(tracker, events).len() ==> tracker.bytes_processed <= (
            #[trigger] reports(tracker, events)[i]).bytes_written <= tracker.bytes_processed
                + bytes_in(events),
    decreases events.len(),
{
    if events.len() > 0 {
        let next = tracker.after(events[0].0, events[0].1);
        let later = reports(next, events.drop_first());
        lemma_reports_non_decreasing(next, events.drop_first());
        let all = reports(tracker, events);
        match tracker.report(events[0].0, events[0].1) {
            Some(progress) => {
                assert(all =~= seq![progress] + later);
                assert forall|i: int| 0 < i < all.len() implies all[i] == later[i - 1] by {}
            },
            None => {
                assert(all =~= later);
            },
        }
    }
}

/// What a report says: every report that goes out while `tracker` counts
/// `events` carries the transfer's total size, and as bytes written the
/// running total, which is what the tracker began with plus the lengths of
/// all chunks handed over up to the one that set the report off.
pub proof fn lemma_reports_carry_running_total(tracker: ProgressTracker, events: Seq<(u64, u64)>)
    requires
        tracker.bytes_processed + bytes_in(events) <= u64::MAX,
    ensures
        forall|i: int|
            0 <= i < reports(tracker, events).len() ==> {
                let report = #[trigger] reports(tracker, events)[i];
                &&& report.total_bytes == tracker.total_bytes
                &&& exists|k: int|
                    1 <= k <= events.len() && report.bytes_written == tracker.bytes_processed
                        + bytes_in(#[trigger] events.take(k)) && report == progress_at(
                        report.bytes_written,
                        tracker.total_bytes,
                        events[k - 1].1,
                    )
            },
    decreases events.len(),
{
    if events.len() > 0 {
        let next = tracker.after(events[0].0, events[0].1);
        let rest = events.drop_first();
        let later = reports(next, rest);
        let all = reports(tracker, events);
        lemma_reports_carry_running_total(next, rest);
        let offset: int = if tracker.report(events[0].0, events[0].1) is Some {
            1
        } else {
            0
        };
        assert(events.take(1).drop_first() =~= Seq::<(u64, u64)>::empty());
        assert(events.take(1)[0] == events[0]);
        assert(bytes_in(events.take(1).drop_first()) == 0);
        assert(bytes_in(events.take(1)) == events[0].0 + bytes_in(events.take(1).drop_first()));
        assert forall|i: int| 0 <= i < all.len() implies ({
            let report = #[trigger] all[i];
            &&& report.total_bytes == tracker.total_bytes
            &&& exists|k: int|
                1 <= k <= events.len() && report.bytes_written == tracker.bytes_processed
                    + bytes_in(#[trigger] events.take(k)) && report == progress_at(
                    report.bytes_written,
                    tracker.total_bytes,
                    events[k - 1].1,
                )
        }) by {
            let report = all[i];
            if i < offset {
                assert(report == tracker.report(events[0].0, events[0].1)->0);
                assert(events.take(1).len() == 1);
            } else {
                assert(report == later[i - offset]);
                let k = choose|k: int|
                    1 <= k <= rest.len() && report.bytes_written == next.bytes_processed
                        + bytes_in(#[trigger] rest.take(k)) && report == progress_at(
                        report.bytes_written,
                        next.total_bytes,
                        rest[k - 1].1,
                    );
                assert(events.take(k + 1).drop_first() =~= rest.take(k));
                assert(events.take(k + 1)[0] == events[0]);
                assert(bytes_in(events.take(k + 1)) == events[0].0 + bytes_in(
                    events.take(k + 1).drop_first(),
                ));
                assert(events[k + 1 - 1] == rest[k - 1]);
            }
        }
    }
}

/// The tracker after it has counted `events` in order.
pub open spec fn tracker_after(tracker: ProgressTracker, events: Seq<(u64, u64)>)
    -> ProgressTracker
    decreases events.len(),
{
    if events.len() == 0 {
        tracker
    } else {
        tracker_after(tracker.after(events[0].0, events[0].1), events.drop_first())
    }
}

/// Where the last chunk of a transfer sets off a report, that report is the
/// last one, and it says that everything handed over has been written. If
/// that is the whole of a transfer whose size was announced rightly, the
/// report stands at exactly one hundred percent. Reports are throttled, so
/// a last chunk that comes too soon after the report before it sets off
/// none; nothing is said of that case.
pub proof fn lemma_last_report_of_a_transfer(tracker: ProgressTracker, events: Seq<(u64, u64)>)
    requires
        events.len() > 0,
        tracker.bytes_processed + bytes_in(events) <= u64::MAX,
        tracker_after(tracker, events.drop_last()).report(events.last().0, events.last().1)
            is Some,
    ensures
        reports(tracker, events).len() > 0,
        reports(tracker, events).last().bytes_written == tracker.bytes_processed + bytes_in(
            events,
        ),
        reports(tracker, events).last().total_bytes == tracker.total_bytes,
        tracker.bytes_processed + bytes_in(events) == tracker.total_bytes && tracker.total_bytes
            > 0 ==> reports(tracker, events).last().percent_hundredths == 10000,
    decreases events.len(),
{
    let all = reports(tracker, events);
    let next = tracker.after(events[0].0, events[0].1);
    let rest = events.drop_first();
    if events.len() == 1 {
        assert(events.drop_last() =~= Seq::<(u64, u64)>::empty());
        assert(rest =~= Seq::<(u64, u64)>::empty());
        assert(bytes_in(rest) == 0);
        assert(reports(next, rest) =~= Seq::<FlashProgress>::empty());
        assert(all =~= seq![tracker.report(events[0].0, events[0].1)->0]);
    } else {
        assert(events.drop_last().drop_first() =~= rest.drop_last());
        assert(events.drop_last()[0] == events[0]);
        assert(rest.last() == events.last());
        lemma_last_report_of_a_transfer(next, rest);
        let later = reports(next, rest);
        assert(all.last() == later.last());
    }
    if tracker.bytes_processed + bytes_in(events) == tracker.total_bytes && tracker.total_bytes
        > 0 {
        lemma_complete_is_hundred_percent(tracker.total_bytes, all.last().speed_bytes_per_sec);
        assert(all.last().percent_hundredths == share_done(
            tracker.total_bytes,
            tracker.total_bytes,
        ));
    }
}

/// Why a write to the device failed; each carries the system's own words.
#[derive(Debug, Clone, PartialEq, Eq)]
pub enum DeviceWriteError {
    /// A full, aligned block could not be written.
    AlignedBlock(String),
    /// The short block that ends the stream could not be written.
    FinalBlock(String),
    /// The data was written, but the device could not be synced.
    Sync(String),
}

/// A device write error with its strings as sequences of characters.
pub enum DeviceWriteErrorView {
    AlignedBlock(Seq<char>),
    FinalBlock(Seq<char>),
    Sync(Seq<char>),
}

impl View for DeviceWriteError {
    type V = DeviceWriteErrorView;

    open spec fn view(&self) -> DeviceWriteErrorView {
        match self {
            DeviceWriteError::AlignedBlock(detail) => DeviceWriteErrorView::AlignedBlock(detail@),
            DeviceWriteError::FinalBlock(detail) => DeviceWriteErrorView::FinalBlock(detail@),
            DeviceWriteError::Sync(detail) => DeviceWriteErrorView::Sync(detail@),
        }
    }
}

impl DeviceWriteErrorView {
    pub open spec fn message(self) -> Seq<char> {
        match self {
            DeviceWriteErrorView::AlignedBlock(detail) =>
                "Failed to write to device (aligned block): "@ + detail,
            DeviceWriteErrorView::FinalBlock(detail) =>
                "Failed to write to device (final block): "@ + detail,
            DeviceWriteErrorView::Sync(detail) => "Failed to sync device: "@ + detail,
        }
    }
}

impl DeviceWriteError {
    /// The error in words, cause included.
    pub fn message(&self) -> (text: String)
        ensures
            text@ == self@.message(),
    {
        match self {
            DeviceWriteError::AlignedBlock(detail) => String::from_str(
                "Failed to write to device (aligned block): ",
            ).concat(detail.as_str()),
            DeviceWriteError::FinalBlock(detail) => String::from_str(
                "Failed to write to device (final block): ",
            ).concat(detail.as_str()),
            DeviceWriteError::Sync(detail) => String::from_str("Failed to sync device: ").concat(
                detail.as_str(),
            ),
        }
    }
}

/// Why a flash failed.
#[derive(Debug, Clone, PartialEq, Eq)]
pub enum FlashError {
    /// A request could not be sent or answered.
    Request(String),
    /// The pre-flight request was answered with a status outside 200..=299;
    /// the status is kept as the server gave it.
    BadStatus(String),
    /// The pre-flight answer names no usable total size.
    MissingLength,
    /// The device could not be opened for writing.
    OpenDevice { path: String, detail: String },
    /// The download broke off in the middle of the body.
    Download(String),
    /// The writer reported a failure when the stream had ended.
    Device(DeviceWriteError),
    /// The writer gave up while the download was still running.
    WriterFailed(DeviceWriteError),
    /// The writer did not end in an orderly way.
    WriterPanicked(String),
}

/// A flash error with its strings as sequences of characters.
pub enum FlashErrorView {
    Request(Seq<char>),
    BadStatus(Seq<char>),
    MissingLength,
    OpenDevice { path: Seq<char>, detail: Seq<char> },
    Download(Seq<char>),
    Device(DeviceWriteErrorView),
    WriterFailed(DeviceWriteErrorView),
    WriterPanicked(Seq<char>),
}

impl View for FlashError {
    type V = FlashErrorView;

    open spec fn view(&self) -> FlashErrorView {
        match self {
            FlashError::Request(detail) => FlashErrorView::Request(detail@),
            FlashError::BadStatus(status) => FlashErrorView::BadStatus(status@),
            FlashError::MissingLength => FlashErrorView::MissingLength,
            FlashError::OpenDevice { path, detail } => FlashErrorView::OpenDevice {
                path: path@,
                detail: detail@,
            },
            FlashError::Download(detail) => FlashErrorView::Download(detail@),
            FlashError::Device(cause) => FlashErrorView::Device(cause@),
            FlashError::WriterFailed(cause) => FlashErrorView::WriterFailed(cause@),
            FlashError::WriterPanicked(detail) => FlashErrorView::WriterPanicked(detail@),
        }
    }
}

impl FlashErrorView {
    pub open spec fn message(self) -> Seq<char> {
        match self {
            FlashErrorView::Request(detail) => detail,
            FlashErrorView::BadStatus(status) => "Failed to access URL: "@ + status,
            FlashErrorView::MissingLength => "Could not retrieve content length from URL"@,
            FlashErrorView::OpenDevice { path, detail } => "Failed to open device "@ + path + ": "@
                + detail,
            FlashErrorView::Download(detail) => "Error downloading chunk: "@ + detail,
            FlashErrorView::Device(cause) => cause.message(),
            FlashErrorView::WriterFailed(cause) => "Writer thread failed: "@ + cause.message(),
            FlashErrorView::WriterPanicked(detail) => "Writer thread panicked: "@ + detail,
        }
    }
}

impl FlashError {
    /// The error in words, from the outermost context down to the cause.
    pub fn message(&self) -> (text: String)
        ensures
            text@ == self@.message(),
    {
        match self {
            FlashError::Request(detail) => detail.clone(),
            FlashError::BadStatus(status) => String::from_str("Failed to access URL: ").concat(
                status.as_str(),
            ),
            FlashError::MissingLength => String::from_str(
                "Could not retrieve content length from URL",
            ),
            FlashError::OpenDevice { path, detail } => String::from_str(
                "Failed to open device ",
            ).concat(path.as_str()).concat(": ").concat(detail.as_str()),
            FlashError::Download(detail) => String::from_str("Error downloading chunk: ").concat(
                detail.as_str(),
            ),
            FlashError::Device(cause) => cause.message(),
            FlashError::WriterFailed(cause) => {
                let inner = cause.message();
                String::from_str("Writer thread failed: ").concat(inner.as_str())
            },
            FlashError::WriterPanicked(detail) => String::from_str(
                "Writer thread panicked: ",
            ).concat(detail.as_str()),
        }
    }
}

/// Whether an HTTP status code reports success.
pub open spec fn status_is_success(status: u16) -> bool {
    200 <= status < 300
}

/// What the pre-flight answer amounts to: the total size to expect, or the
/// reason not to begin.
pub open spec fn preflight_outcome(
    status: u16,
    status_text: Seq<char>,
    content_length: Option<Seq<char>>,
) -> Result<u64, FlashErrorView> {
    if !status_is_success(status) {
        Err(FlashErrorView::BadStatus(status_text))
    } else {
        match content_length {
            Some(text) => match u64_text(text) {
                Some(total) => Ok(total),
                None => Err(FlashErrorView::MissingLength),
            },
            None => Err(FlashErrorView::MissingLength),
        }
    }
}

/// Judges the answer to the metadata-only request that precedes a flash.
/// The device is opened only when this returns `Ok`: a status outside
/// 200..=299 fails at once, and so does an answer whose content length is
/// absent or is no decimal number that fits in 64 bits.
pub fn preflight(status: u16, status_text: &str, content_length: Option<&str>) -> (outcome: Result<
    u64,
    FlashError,
>)
    ensures
        match outcome {
            Ok(total) => preflight_outcome(
                status,
                status_text@,
                match content_length {
                    Some(text) => Some(text@),
                    None => None,
                },
            ) == Ok::<u64, FlashErrorView>(total),
            Err(e) => preflight_outcome(
                status,
                status_text@,
                match content_length {
                    Some(text) => Some(text@),
                    None => None,
                },
            ) == Err::<u64, FlashErrorView>(e@),
        },
{
    if !(200 <= status && status < 300) {
        return Err(FlashError::BadStatus(String::from_str(status_text)));
    }
    match content_length {
        Some(text) => match parse_u64(text) {
            Some(total) => Ok(total),
            None => Err(FlashError::MissingLength),
        },
        None => Err(FlashError::MissingLength),
    }
}

/// The error code with which some raw devices answer a sync although the
/// data was written: "inappropriate ioctl for device".
pub const INAPPROPRIATE_IOCTL: i32 = 25;

/// A failed system call: the raw error code, where there is one, and the
/// system's words.
#[derive(Debug, Clone, PartialEq, Eq)]
pub struct IoFailure {
    pub raw_os_error: Option<i32>,
    pub detail: String,
}

/// What the final sync amounts to.
pub open spec fn sync_result(
    tolerate_ioctl_error: bool,
    raw_os_error: Option<i32>,
    detail: Seq<char>,
) -> Result<(), DeviceWriteErrorView> {
    if tolerate_ioctl_error && raw_os_error == Some(INAPPROPRIATE_IOCTL) {
        Ok(())
    } else {
        Err(DeviceWriteErrorView::Sync(detail))
    }
}

/// Judges the sync that ends the writer's work. Swallowing the error is a
/// matter of the platform: raw devices on macOS and the BSDs answer the
/// sync call itself with "inappropriate ioctl" although the data has been
/// written, so there (`tolerate_ioctl_error` set) that one error code counts
/// as success. Where the platform has no such quirk the flag is clear, and
/// the same code is a failure like every other.
pub fn sync_outcome(tolerate_ioctl_error: bool, synced: Result<(), IoFailure>) -> (outcome: Result<
    (),
    DeviceWriteError,
>)
    ensures
        synced is Ok ==> outcome is Ok,
        synced matches Err(failure) ==> match outcome {
            Ok(_) => sync_result(tolerate_ioctl_error, failure.raw_os_error, failure.detail@)
                is Ok,
            Err(e) => sync_result(tolerate_ioctl_error, failure.raw_os_error, failure.detail@)
                == Err::<(), DeviceWriteErrorView>(e@),
        },
{
    match synced {
        Ok(_) => Ok(()),
        Err(failure) => {
            let tolerated = match failure.raw_os_error {
                Some(code) => tolerate_ioctl_error && code == INAPPROPRIATE_IOCTL,
                None => false,
            };
            if tolerated {
                Ok(())
            } else {
                Err(DeviceWriteError::Sync(failure.detail))
            }
        },
    }
}

/// Why the downloader stopped feeding the writer.
#[derive(Debug, PartialEq, Eq)]
pub enum StopReason {
    /// The body was read to its end and the hand-off was closed.
    StreamEnded,
    /// A chunk could not be handed over: the writer had already gone.
    HandOffClosed,
    /// The download broke off: a request or a read of the body failed with
    /// this error.
    DownloadFailed(FlashError),
}

/// A stop reason with its strings as sequences of characters.
pub enum StopReasonView {
    StreamEnded,
    HandOffClosed,
    DownloadFailed(FlashErrorView),
}

impl View for StopReason {
    type V = StopReasonView;

    open spec fn view(&self) -> StopReasonView {
        match self {
            StopReason::StreamEnded => StopReasonView::StreamEnded,
            StopReason::HandOffClosed => StopReasonView::HandOffClosed,
            StopReason::DownloadFailed(e) => StopReasonView::DownloadFailed(e@),
        }
    }
}

/// How the writer ended, as seen where it is joined.
#[derive(Debug, PartialEq, Eq)]
pub enum WriterOutcome {
    Finished(Result<(), DeviceWriteError>),
    Panicked(String),
}

/// A writer's outcome with its strings as sequences of characters.
pub enum WriterOutcomeView {
    Finished(Result<(), DeviceWriteErrorView>),
    Panicked(Seq<char>),
}

impl View for WriterOutcome {
    type V = WriterOutcomeView;

    open spec fn view(&self) -> WriterOutcomeView {
        match self {
            WriterOutcome::Finished(Ok(_)) => WriterOutcomeView::Finished(Ok(())),
            WriterOutcome::Finished(Err(cause)) => WriterOutcomeView::Finished(Err(cause@)),
            WriterOutcome::Panicked(text) => WriterOutcomeView::Panicked(text@),
        }
    }
}

/// The view of how a flash ended.
pub open spec fn flash_outcome_view(outcome: Result<(), FlashError>) -> Result<
    (),
    FlashErrorView,
> {
    match outcome {
        Ok(_) => Ok(()),
        Err(e) => Err(e@),
    }
}

/// The pipeline's result, from why the downloader stopped and how the
/// writer ended. A download that broke off is the pipeline's failure,
/// however the writer ended after it. Otherwise the writer decides: its
/// error is passed on as it is, also when the downloader only noticed a
/// closed hand-off, and a writer that panicked is an error like any other.
pub open spec fn joined_result(reason: StopReasonView, writer: WriterOutcomeView) -> Result<
    (),
    FlashErrorView,
> {
    match reason {
        StopReasonView::DownloadFailed(e) => Err(e),
        StopReasonView::StreamEnded => match writer {
            WriterOutcomeView::Finished(Ok(_)) => Ok(()),
            WriterOutcomeView::Finished(Err(cause)) => Err(FlashErrorView::Device(cause)),
            WriterOutcomeView::Panicked(text) => Err(FlashErrorView::WriterPanicked(text)),
        },
        StopReasonView::HandOffClosed => match writer {
            WriterOutcomeView::Finished(Ok(_)) => Ok(()),
            WriterOutcomeView::Finished(Err(cause)) => Err(FlashErrorView::WriterFailed(cause)),
            WriterOutcomeView::Panicked(text) => Err(FlashErrorView::WriterPanicked(text)),
        },
    }
}

/// Combines the two sides of the pipeline. It takes how the writer ended,
/// so it can only be called once the hand-off is closed and the writer has
/// been joined: whatever stopped the downloader, both sides have come to
/// rest before the pipeline's result exists.
pub fn pipeline_result(reason: StopReason, writer: WriterOutcome) -> (outcome: Result<
    (),
    FlashError,
>)
    ensures
        flash_outcome_view(outcome) == joined_result(reason@, writer@),
{
    match reason {
        StopReason::DownloadFailed(e) => Err(e),
        StopReason::StreamEnded => match writer {
            WriterOutcome::Finished(Ok(_)) => Ok(()),
            WriterOutcome::Finished(Err(cause)) => Err(FlashError::Device(cause)),
            WriterOutcome::Panicked(text) => Err(FlashError::WriterPanicked(text)),
        },
        StopReason::HandOffClosed => match writer {
            WriterOutcome::Finished(Ok(_)) => Ok(()),
            WriterOutcome::Finished(Err(cause)) => Err(FlashError::WriterFailed(cause)),
            WriterOutcome::Panicked(text) => Err(FlashError::WriterPanicked(text)),
        },
    }
}

} // verus!
