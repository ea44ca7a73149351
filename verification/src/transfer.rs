//! The transfer engine: a table of transfers, each driven through its state
//! machine by the caller's operations and by the reports of the streaming
//! loop.
use vstd::prelude::*;
use std::path::PathBuf;
use crate::error::TransferError;
use crate::error::TsunaguError;
use crate::ident::fresh_id;
use crate::models::device_info::DeviceInfo;
use crate::models::device_info::DeviceInfoView;
use crate::models::file_info::FileInfo;
use crate::models::file_info::FileInfoView;
use crate::models::transfer_info::file_holding;
use crate::models::transfer_info::file_views;
use crate::models::transfer_info::lemma_file_holding;
use crate::models::transfer_info::lemma_start_of_next;
use crate::models::transfer_info::start_of;
use crate::models::transfer_info::lemma_step_preserves_wf;
use crate::models::transfer_info::new_record;
use crate::models::transfer_info::sum_sizes;
use crate::models::transfer_info::reason_cancelled;
use crate::models::transfer_info::total_size_of;
use crate::models::transfer_info::transition_outcome;
use crate::models::transfer_info::TransferInfo;
use crate::models::transfer_info::TransferInfoView;
use crate::models::transfer_info::TransferOp;
use crate::models::transfer_info::TransferStatus;
use crate::models::transfer_info::TransferStatusView;

verus! {

/// Largest number of bytes sent as one chunk.
pub const CHUNK_SIZE: u64 = 65536;

/// The views of a list of records, in order.
pub open spec fn record_views(records: Seq<TransferInfo>) -> Seq<TransferInfoView> {
    records.map_values(|record: TransferInfo| record@)
}

/// The identifiers of a list of records, in order.
pub open spec fn record_ids(records: Seq<TransferInfoView>) -> Seq<Seq<char>> {
    records.map_values(|record: TransferInfoView| record.id)
}

/// The invariant of a table of transfers: every record is well formed and
/// no identifier occurs twice.
pub open spec fn table_wf(records: Seq<TransferInfoView>) -> bool {
    &&& forall|i: int| 0 <= i < records.len() ==> (#[trigger] records[i]).wf()
    &&& record_ids(records).no_duplicates()
}

/// What an operation on the transfer `id` owes: for an unknown identifier
/// `UnknownTransfer` and an untouched table; for a known one the outcome of
/// the state machine on that record, every other record and every
/// identifier untouched.
pub open spec fn table_outcome(
    before: Seq<TransferInfoView>,
    id: Seq<char>,
    op: TransferOp,
    done: Result<(), TsunaguError>,
    now: Seq<TransferInfoView>,
) -> bool {
    if record_ids(before).contains(id) {
        let i = record_ids(before).index_of(id);
        &&& now.len() == before.len()
        &&& transition_outcome(before[i], op, done, now[i])
        &&& now == before.update(i, now[i])
        &&& record_ids(now) == record_ids(before)
    } else {
        (done matches Err(TsunaguError::Transfer(TransferError::UnknownTransfer))) && now == before
    }
}

/// In a table, too, a terminal transfer is final: resuming it, or any other
/// operation on it, is refused with `InvalidState` and leaves the whole
/// table as it was.
pub proof fn lemma_table_terminal_is_final(
    before: Seq<TransferInfoView>,
    id: Seq<char>,
    op: TransferOp,
    done: Result<(), TsunaguError>,
    now: Seq<TransferInfoView>,
)
    requires
        record_ids(before).contains(id),
        before[record_ids(before).index_of(id)].status.is_terminal(),
        table_outcome(before, id, op, done, now),
    ensures
        done matches Err(TsunaguError::InvalidState),
        now == before,
{
    let i = record_ids(before).index_of(id);
    assert(0 <= i < before.len());
    assert(now =~= before);
}

/// Cancelling a transfer of the table that is not terminal leaves it
/// `Failed("cancelled")` and every other transfer as it was.
pub proof fn lemma_table_cancel_reaches_failed(
    before: Seq<TransferInfoView>,
    id: Seq<char>,
    done: Result<(), TsunaguError>,
    now: Seq<TransferInfoView>,
)
    requires
        record_ids(before).contains(id),
        !before[record_ids(before).index_of(id)].status.is_terminal(),
        table_outcome(before, id, TransferOp::Cancel, done, now),
    ensures
        done is Ok,
        now == before.update(
            record_ids(before).index_of(id),
            TransferInfoView {
                status: TransferStatusView::Failed(reason_cancelled()),
                ..before[record_ids(before).index_of(id)]
            },
        ),
{
}

/// Whether `error` is the refusal that registering `files` in `table` may
/// meet: `NoFiles` for no files, `SizeOverflow` for sizes that do not add
/// up to 64 bits, and for files in order `DuplicateTransfer`, which takes
/// a table that holds a transfer already.
pub open spec fn init_refusal(
    error: TsunaguError,
    files: Seq<FileInfoView>,
    table: Seq<TransferInfoView>,
) -> bool {
    if files.len() == 0 {
        error == TsunaguError::Transfer(TransferError::NoFiles)
    } else if total_size_of(files) > u64::MAX {
        error == TsunaguError::Transfer(TransferError::SizeOverflow)
    } else {
        error == TsunaguError::Transfer(TransferError::DuplicateTransfer) && table.len() > 0
    }
}

/// What registering the new record `fresh` owes: refusals in their order,
/// each leaving the table as it was; otherwise the record itself and the
/// table with it at the end.
pub open spec fn init_outcome(
    before: Seq<TransferInfoView>,
    fresh: TransferInfoView,
    record: Result<TransferInfo, TsunaguError>,
    now: Seq<TransferInfoView>,
) -> bool {
    if fresh.files.len() == 0 {
        (record matches Err(TsunaguError::Transfer(TransferError::NoFiles))) && now == before
    } else if total_size_of(fresh.files) > u64::MAX {
        (record matches Err(TsunaguError::Transfer(TransferError::SizeOverflow))) && now == before
    } else if record_ids(before).contains(fresh.id) {
        (record matches Err(TsunaguError::Transfer(TransferError::DuplicateTransfer))) && now
            == before
    } else {
        (record matches Ok(info) && info@ == fresh) && now == before.push(fresh)
    }
}

/// The next piece of the stream to send: a run of bytes of one file.
#[derive(Debug, Clone, Copy, PartialEq, Eq)]
pub struct Chunk {
    /// Position of the file in the transfer's list of files.
    pub file: usize,
    /// Offset of the first byte within that file.
    pub file_offset: u64,
    /// Offset of the first byte counted over all files in order.
    pub offset: u64,
    /// Number of bytes, at least 1 and at most [`CHUNK_SIZE`].
    pub len: u64,
}

/// The chunk that the streaming loop sends next for a record, if any: only
/// a transfer in progress with bytes left has one. It starts where the
/// bytes transferred so far end, and it ends with its file or after
/// [`CHUNK_SIZE`] bytes, whichever comes first.
pub open spec fn next_chunk_of(record: TransferInfoView) -> Option<Chunk> {
    if record.status is InProgress && record.transferred < record.total_size {
        let file = file_holding(record.files, record.transferred as nat, 0);
        let within = record.transferred - start_of(record.files, file);
        let left = record.files[file].size - within;
        Some(
            Chunk {
                file: file as usize,
                file_offset: within as u64,
                offset: record.transferred,
                len: if left < CHUNK_SIZE {
                    left as u64
                } else {
                    CHUNK_SIZE
                },
            },
        )
    } else {
        None
    }
}

/// Once a transfer is paused, cancelled, failed or complete, no further
/// chunk is sent: only a transfer in progress has a next chunk.
pub proof fn lemma_no_chunk_unless_in_progress(record: TransferInfoView)
    requires
        !(record.status is InProgress),
    ensures
        next_chunk_of(record) is None,
{
}

/// The next chunk is never empty, never longer than the chunk size, lies
/// within one file, and never goes beyond the total size.
pub proof fn lemma_next_chunk_within_file(record: TransferInfoView)
    requires
        record.wf(),
    ensures
        next_chunk_of(record) matches Some(chunk) ==> {
            &&& chunk.file < record.files.len()
            &&& 1 <= chunk.len <= CHUNK_SIZE
            &&& chunk.file_offset + chunk.len <= record.files[chunk.file as int].size
            &&& chunk.offset == start_of(record.files, chunk.file as int) + chunk.file_offset
            &&& chunk.offset == record.transferred
            &&& chunk.offset + chunk.len <= record.total_size
        },
{
    if next_chunk_of(record) is Some {
        lemma_start_of_next(record.files, 0);
        lemma_file_holding(record.files, record.transferred as nat, 0);
        let file = file_holding(record.files, record.transferred as nat, 0);
        lemma_start_of_next(record.files, file);
    }
}

/// What the streaming loop reports back to the engine.
#[derive(Debug)]
pub enum TransferEvent {
    /// A chunk of this many bytes was sent (or received) and acknowledged.
    ChunkTransferred(u64),
    /// The stream ended in an orderly way.
    StreamEnded,
    /// Reading, writing or the connection failed, with the reason.
    IoError(String),
}

impl TransferEvent {
    /// The report for a chunk that has arrived: the chunk that was planned
    /// is counted if what arrived has its length, and a chunk of another
    /// length is a protocol violation.
    pub fn for_received(planned: &Chunk, received_len: usize) -> (event: Result<
        TransferEvent,
        TsunaguError,
    >)
        ensures
            received_len == planned.len ==> (event matches Ok(e) && e@ == TransferOp::Progress(
                planned.len,
            )),
            received_len != planned.len ==> event matches Err(
                TsunaguError::Transfer(TransferError::ProtocolViolation),
            ),
    {
        if received_len as u64 == planned.len {
            Ok(TransferEvent::ChunkTransferred(planned.len))
        } else {
            Err(TsunaguError::Transfer(TransferError::ProtocolViolation))
        }
    }
}

impl View for TransferEvent {
    type V = TransferOp;

    open spec fn view(&self) -> TransferOp {
        match *self {
            TransferEvent::ChunkTransferred(bytes) => TransferOp::Progress(bytes),
            TransferEvent::StreamEnded => TransferOp::EndOfStream,
            TransferEvent::IoError(reason) => TransferOp::IoError(reason@),
        }
    }
}

/// An operation of the state machine as executable code passes it on.
enum Operation {
    Start,
    Pause,
    Resume,
    Cancel,
    Progress(u64),
    EndOfStream,
    IoError(String),
}

impl View for Operation {
    type V = TransferOp;

    closed spec fn view(&self) -> TransferOp {
        match *self {
            Operation::Start => TransferOp::Start,
            Operation::Pause => TransferOp::Pause,
            Operation::Resume => TransferOp::Resume,
            Operation::Cancel => TransferOp::Cancel,
            Operation::Progress(bytes) => TransferOp::Progress(bytes),
            Operation::EndOfStream => TransferOp::EndOfStream,
            Operation::IoError(reason) => TransferOp::IoError(reason@),
        }
    }
}

/// The operations of a transfer engine.
pub trait FileTransfer {
    /// The table of transfers that the engine holds.
    spec fn transfers(&self) -> Seq<TransferInfoView>;

    /// The device on whose behalf the engine sends and receives.
    spec fn local(&self) -> DeviceInfoView;

    /// The engine's invariant.
    spec fn valid(&self) -> bool;

    /// Registers a transfer of `files` to `receiver`, `Pending`, under a
    /// fresh identifier, and hands back its record. No files, or sizes that
    /// do not add up to 64 bits, are refused; where the files are in order,
    /// only an identifier that the table already holds stands in the way,
    /// so an engine without transfers registers them. A refusal leaves the
    /// table as it was.
    fn init_transfer(&mut self, files: Vec<FileInfo>, receiver: DeviceInfo) -> (record: Result<
        TransferInfo,
        TsunaguError,
    >)
        requires
            old(self).valid(),
        ensures
            final(self).valid(),
            final(self).local() == old(self).local(),
            files@.len() == 0 ==> record matches Err(
                TsunaguError::Transfer(TransferError::NoFiles),
            ),
            files@.len() > 0 && total_size_of(file_views(files@)) > u64::MAX ==> record matches Err(
                TsunaguError::Transfer(TransferError::SizeOverflow),
            ),
            record matches Ok(info) ==> {
                &&& files@.len() > 0
                &&& total_size_of(file_views(files@)) <= u64::MAX
                &&& info@ == new_record(
                    info@.id,
                    old(self).local(),
                    receiver@,
                    file_views(files@),
                )
                &&& !record_ids(old(self).transfers()).contains(info@.id)
                &&& final(self).transfers() == old(self).transfers().push(info@)
            },
            old(self).transfers().len() == 0 && files@.len() > 0 && total_size_of(
                file_views(files@),
            ) <= u64::MAX ==> record is Ok,
            record matches Err(e) ==> {
                &&& final(self).transfers() == old(self).transfers()
                &&& init_refusal(e, file_views(files@), old(self).transfers())
            },
    ;

    /// `Pending` or `Paused` becomes `InProgress`.
    fn start_transfer(&mut self, transfer_info: &TransferInfo) -> (done: Result<(), TsunaguError>)
        requires
            old(self).valid(),
        ensures
            final(self).valid(),
            final(self).local() == old(self).local(),
            table_outcome(
                old(self).transfers(),
                transfer_info@.id,
                TransferOp::Start,
                done,
                final(self).transfers(),
            ),
    ;

    /// `InProgress` becomes `Paused` at the last acknowledged offset.
    fn pause_transfer(&mut self, transfer_info: &TransferInfo) -> (done: Result<(), TsunaguError>)
        requires
            old(self).valid(),
        ensures
            final(self).valid(),
            final(self).local() == old(self).local(),
            table_outcome(
                old(self).transfers(),
                transfer_info@.id,
                TransferOp::Pause,
                done,
                final(self).transfers(),
            ),
    ;

    /// `Paused` becomes `InProgress` at the recorded offset.
    fn resume_transfer(&mut self, transfer_info: &TransferInfo) -> (done: Result<(), TsunaguError>)
        requires
            old(self).valid(),
        ensures
            final(self).valid(),
            final(self).local() == old(self).local(),
            table_outcome(
                old(self).transfers(),
                transfer_info@.id,
                TransferOp::Resume,
                done,
                final(self).transfers(),
            ),
    ;

    /// Any state that is not terminal becomes `Failed("cancelled")`.
    fn cancel_transfer(&mut self, transfer_info: &TransferInfo) -> (done: Result<(), TsunaguError>)
        requires
            old(self).valid(),
        ensures
            final(self).valid(),
            final(self).local() == old(self).local(),
            table_outcome(
                old(self).transfers(),
                transfer_info@.id,
                TransferOp::Cancel,
                done,
                final(self).transfers(),
            ),
    ;

    /// The current status of a transfer; `UnknownTransfer` for an
    /// identifier that the engine does not hold.
    fn get_transfer_status(&self, transfer_info: &TransferInfo) -> (status: Result<
        TransferStatus,
        TsunaguError,
    >)
        requires
            self.valid(),
        ensures
            record_ids(self.transfers()).contains(transfer_info@.id) ==> (status matches Ok(s) && s@
                == self.transfers()[record_ids(self.transfers()).index_of(
                transfer_info@.id,
            )].status),
            !record_ids(self.transfers()).contains(transfer_info@.id) ==> status matches Err(
                TsunaguError::Transfer(TransferError::UnknownTransfer),
            ),
    ;
}

/// Mathematical value of a [`TcpFileTransfer`].
pub struct TcpFileTransferView {
    pub local_device: DeviceInfoView,
    pub transfer_dir: PathBuf,
    pub transfers: Seq<TransferInfoView>,
}

/// The engine for transfers over one stream connection each.
///
/// It holds the state of every transfer and decides; the streaming loop
/// around it does the reading and sending and reports back what happened.
#[derive(Debug)]
pub struct TcpFileTransfer {
    local_device: DeviceInfo,
    transfer_dir: PathBuf,
    transfers: Vec<TransferInfo>,
}

impl View for TcpFileTransfer {
    type V = TcpFileTransferView;

    closed spec fn view(&self) -> TcpFileTransferView {
        TcpFileTransferView {
            local_device: self.local_device@,
            transfer_dir: self.transfer_dir,
            transfers: record_views(self.transfers@),
        }
    }
}

impl TcpFileTransfer {
    /// The engine's invariant: see [`table_wf`].
    pub open spec fn wf(&self) -> bool {
        table_wf(self@.transfers)
    }

    /// An engine for `local_device` that keeps received files under
    /// `transfer_dir` and holds no transfer yet.
    pub fn new(local_device: DeviceInfo, transfer_dir: PathBuf) -> (engine: Self)
        ensures
            engine.wf(),
            engine@ == (TcpFileTransferView {
                local_device: local_device@,
                transfer_dir,
                transfers: Seq::empty(),
            }),
    {
        let engine = Self { local_device, transfer_dir, transfers: Vec::new() };
        assert(record_views(engine.transfers@) =~= Seq::empty());
        engine
    }

    pub fn local_device(&self) -> (device: &DeviceInfo)
        ensures
            device@ == self@.local_device,
    {
        &self.local_device
    }

    pub fn transfer_dir(&self) -> (dir: &PathBuf)
        ensures
            *dir == self@.transfer_dir,
    {
        &self.transfer_dir
    }

    /// Number of transfers that the engine holds.
    pub fn transfer_count(&self) -> (count: usize)
        ensures
            count == self@.transfers.len(),
    {
        self.transfers.len()
    }

    /// Position of the record that goes by `id`, if the engine holds one.
    fn find(&self, id: &String) -> (found: Option<usize>)
        requires
            self.wf(),
        ensures
            match found {
                Some(i) => i < self.transfers@.len() && record_ids(self@.transfers).contains(id@)
                    && record_ids(self@.transfers).index_of(id@) == i,
                None => !record_ids(self@.transfers).contains(id@),
            },
    {
        let ghost ids = record_ids(self@.transfers);
        let mut i: usize = 0;
        while i < self.transfers.len()
            invariant
                i <= self.transfers.len(),
                ids == record_ids(self@.transfers),
                ids.len() == self.transfers@.len(),
                ids.no_duplicates(),
                forall|k: int| 0 <= k < i ==> ids[k] != id@,
            decreases self.transfers.len() - i,
        {
            if self.transfers[i].has_id(id) {
                proof {
                    assert(ids[i as int] == id@);
                    let j = ids.index_of(id@);
                    assert(0 <= j < ids.len() && ids[j] == id@);
                }
                return Some(i);
            }
            i = i + 1;
        }
        None
    }

    /// Applies one operation of the state machine to the record at `i`.
    fn apply(&mut self, i: usize, op: Operation) -> (done: Result<(), TsunaguError>)
        requires
            old(self).wf(),
            i < old(self)@.transfers.len(),
        ensures
            final(self).wf(),
            final(self)@.local_device == old(self)@.local_device,
            final(self)@.transfer_dir == old(self)@.transfer_dir,
            final(self)@.transfers.len() == old(self)@.transfers.len(),
            transition_outcome(
                old(self)@.transfers[i as int],
                op@,
                done,
                final(self)@.transfers[i as int],
            ),
            final(self)@.transfers == old(self)@.transfers.update(
                i as int,
                final(self)@.transfers[i as int],
            ),
            record_ids(final(self)@.transfers) == record_ids(old(self)@.transfers),
    {
        let ghost before = self@.transfers;
        let ghost opv = op@;
        let done = match op {
            Operation::Start => self.transfers[i].start(),
            Operation::Pause => self.transfers[i].pause(),
            Operation::Resume => self.transfers[i].resume(),
            Operation::Cancel => self.transfers[i].cancel(),
            Operation::Progress(bytes) => self.transfers[i].record_progress(bytes),
            Operation::EndOfStream => self.transfers[i].record_end_of_stream(),
            Operation::IoError(reason) => self.transfers[i].record_failure(reason),
        };
        proof {
            let now = self@.transfers;
            assert(now =~= before.update(i as int, now[i as int]));
            lemma_step_preserves_wf(before[i as int], opv);
            assert(now[i as int].id == before[i as int].id);
            assert(record_ids(now) =~= record_ids(before));
            assert forall|k: int| 0 <= k < now.len() implies (#[trigger] now[k]).wf() by {
                if k != i {
                    assert(now[k] == before[k]);
                }
            }
        }
        done
    }

    /// Registers a transfer of `files` to `receiver` under the identifier
    /// given, `Pending`, and hands back its record.
    ///
    /// Refused, in this order: an empty file list, sizes that do not add up
    /// to 64 bits, an identifier that the engine already holds. A refusal
    /// leaves the table as it was.
    pub fn init_transfer_with_id(
        &mut self,
        id: String,
        files: Vec<FileInfo>,
        receiver: DeviceInfo,
    ) -> (record: Result<TransferInfo, TsunaguError>)
        requires
            old(self).wf(),
        ensures
            final(self).wf(),
            final(self)@.local_device == old(self)@.local_device,
            final(self)@.transfer_dir == old(self)@.transfer_dir,
            init_outcome(
                old(self)@.transfers,
                new_record(id@, old(self)@.local_device, receiver@, file_views(files@)),
                record,
                final(self)@.transfers,
            ),
    {
        let sender = self.local_device.clone();
        self.register(id, sender, receiver, files)
    }

    /// Registers a transfer that `sender` has announced under the
    /// identifier given, with this engine's device as the receiver,
    /// `Pending`, and hands back its record. The refusals are those of
    /// [`TcpFileTransfer::init_transfer_with_id`].
    pub fn accept_transfer(
        &mut self,
        id: String,
        files: Vec<FileInfo>,
        sender: DeviceInfo,
    ) -> (record: Result<TransferInfo, TsunaguError>)
        requires
            old(self).wf(),
        ensures
            final(self).wf(),
            final(self)@.local_device == old(self)@.local_device,
            final(self)@.transfer_dir == old(self)@.transfer_dir,
            init_outcome(
                old(self)@.transfers,
                new_record(id@, sender@, old(self)@.local_device, file_views(files@)),
                record,
                final(self)@.transfers,
            ),
    {
        let receiver = self.local_device.clone();
        self.register(id, sender, receiver, files)
    }

    /// Makes the record of a new transfer and puts it at the end of the
    /// table.
    fn register(
        &mut self,
        id: String,
        sender: DeviceInfo,
        receiver: DeviceInfo,
        files: Vec<FileInfo>,
    ) -> (record: Result<TransferInfo, TsunaguError>)
        requires
            old(self).wf(),
        ensures
            final(self).wf(),
            final(self)@.local_device == old(self)@.local_device,
            final(self)@.transfer_dir == old(self)@.transfer_dir,
            init_outcome(
                old(self)@.transfers,
                new_record(id@, sender@, receiver@, file_views(files@)),
                record,
                final(self)@.transfers,
            ),
    {
        let ghost before = self@.transfers;
        if files.len() == 0 {
            return Err(TsunaguError::Transfer(TransferError::NoFiles));
        }
        if sum_sizes(&files).is_none() {
            return Err(TsunaguError::Transfer(TransferError::SizeOverflow));
        }
        if self.find(&id).is_some() {
            return Err(TsunaguError::Transfer(TransferError::DuplicateTransfer));
        }
        let info = TransferInfo::with_id(id, sender, receiver, files);
        self.transfers.push(info.clone());
        proof {
            let now = self@.transfers;
            assert(now =~= before.push(info@));
            assert(record_ids(now) =~= record_ids(before).push(info@.id));
        }
        Ok(info)
    }

    /// Takes a report of the streaming loop into the record of the transfer.
    ///
    /// A chunk moves the byte count and completes the transfer when the
    /// count reaches the total; the end of the stream completes it only if
    /// every byte arrived; a failure ends it with the reason given. A chunk
    /// beyond the total size and an early end of the stream fail the
    /// transfer and come back as `SizeMismatch`. Reports on a transfer that
    /// is not in a state to take them are refused with `InvalidState`.
    pub fn report(&mut self, transfer_info: &TransferInfo, event: TransferEvent) -> (done: Result<
        (),
        TsunaguError,
    >)
        requires
            old(self).wf(),
        ensures
            final(self).wf(),
            final(self)@.local_device == old(self)@.local_device,
            final(self)@.transfer_dir == old(self)@.transfer_dir,
            table_outcome(
                old(self)@.transfers,
                transfer_info@.id,
                event@,
                done,
                final(self)@.transfers,
            ),
    {
        let id = transfer_info.id().to_owned();
        let op = match event {
            TransferEvent::ChunkTransferred(bytes) => Operation::Progress(bytes),
            TransferEvent::StreamEnded => Operation::EndOfStream,
            TransferEvent::IoError(reason) => Operation::IoError(reason),
        };
        self.apply_to(&id, op)
    }

    /// A copy of the engine's record of a transfer, with its status and
    /// byte count as they are now.
    pub fn get_transfer(&self, transfer_info: &TransferInfo) -> (record: Result<
        TransferInfo,
        TsunaguError,
    >)
        requires
            self.wf(),
        ensures
            record_ids(self@.transfers).contains(transfer_info@.id) ==> (record matches Ok(r) && r@
                == self@.transfers[record_ids(self@.transfers).index_of(transfer_info@.id)]),
            !record_ids(self@.transfers).contains(transfer_info@.id) ==> record matches Err(
                TsunaguError::Transfer(TransferError::UnknownTransfer),
            ),
    {
        let id = transfer_info.id().to_owned();
        match self.find(&id) {
            Some(i) => Ok(self.transfers[i].clone()),
            None => Err(TsunaguError::Transfer(TransferError::UnknownTransfer)),
        }
    }

    /// The chunk to send next, or none: a transfer that is paused,
    /// cancelled, failed, complete or not yet started sends nothing more.
    pub fn next_chunk(&self, transfer_info: &TransferInfo) -> (chunk: Result<
        Option<Chunk>,
        TsunaguError,
    >)
        requires
            self.wf(),
        ensures
            record_ids(self@.transfers).contains(transfer_info@.id) ==> chunk == Ok::<
                Option<Chunk>,
                TsunaguError,
            >(
                next_chunk_of(
                    self@.transfers[record_ids(self@.transfers).index_of(transfer_info@.id)],
                ),
            ),
            !record_ids(self@.transfers).contains(transfer_info@.id) ==> chunk matches Err(
                TsunaguError::Transfer(TransferError::UnknownTransfer),
            ),
    {
        let id = transfer_info.id().to_owned();
        match self.find(&id) {
            Some(i) => {
                let record = &self.transfers[i];
                let offset = record.transferred();
                proof {
                    if offset < record@.total_size {
                        lemma_start_of_next(record@.files, 0);
                        lemma_file_holding(record@.files, offset as nat, 0);
                        lemma_start_of_next(
                            record@.files,
                            file_holding(record@.files, offset as nat, 0),
                        );
                    }
                }
                match record.status() {
                    TransferStatus::InProgress(_) => match record.locate(offset) {
                        Some((file, file_offset)) => {
                            let files = record.files();
                            assert(file_views(files@)[file as int] == files@[file as int]@);
                            let left: u64 = files[file].size() - file_offset;
                            let len = if left < CHUNK_SIZE {
                                left
                            } else {
                                CHUNK_SIZE
                            };
                            Ok(Some(Chunk { file, file_offset, offset, len }))
                        },
                        None => Ok(None),
                    },
                    _ => Ok(None),
                }
            },
            None => Err(TsunaguError::Transfer(TransferError::UnknownTransfer)),
        }
    }

    /// Looks the record of `id` up and applies `op` to it.
    fn apply_to(&mut self, id: &String, op: Operation) -> (done: Result<(), TsunaguError>)
        requires
            old(self).wf(),
        ensures
            final(self).wf(),
            final(self)@.local_device == old(self)@.local_device,
            final(self)@.transfer_dir == old(self)@.transfer_dir,
            table_outcome(old(self)@.transfers, id@, op@, done, final(self)@.transfers),
    {
        match self.find(id) {
            Some(i) => self.apply(i, op),
            None => Err(TsunaguError::Transfer(TransferError::UnknownTransfer)),
        }
    }
}

impl FileTransfer for TcpFileTransfer {
    open spec fn transfers(&self) -> Seq<TransferInfoView> {
        self@.transfers
    }

    open spec fn local(&self) -> DeviceInfoView {
        self@.local_device
    }

    open spec fn valid(&self) -> bool {
        self.wf()
    }

    fn init_transfer(&mut self, files: Vec<FileInfo>, receiver: DeviceInfo) -> (record: Result<
        TransferInfo,
        TsunaguError,
    >)
        ensures
            final(self)@.transfer_dir == old(self)@.transfer_dir,
    {
        proof {
            assert(record_ids(Seq::<TransferInfoView>::empty()) =~= Seq::<Seq<char>>::empty());
        }
        self.init_transfer_with_id(fresh_id(), files, receiver)
    }

    fn start_transfer(&mut self, transfer_info: &TransferInfo) -> (done: Result<(), TsunaguError>)
        ensures
            final(self)@.transfer_dir == old(self)@.transfer_dir,
    {
        let id = transfer_info.id().to_owned();
        self.apply_to(&id, Operation::Start)
    }

    fn pause_transfer(&mut self, transfer_info: &TransferInfo) -> (done: Result<(), TsunaguError>)
        ensures
            final(self)@.transfer_dir == old(self)@.transfer_dir,
    {
        let id = transfer_info.id().to_owned();
        self.apply_to(&id, Operation::Pause)
    }

    fn resume_transfer(&mut self, transfer_info: &TransferInfo) -> (done: Result<(), TsunaguError>)
        ensures
            final(self)@.transfer_dir == old(self)@.transfer_dir,
    {
        let id = transfer_info.id().to_owned();
        self.apply_to(&id, Operation::Resume)
    }

    fn cancel_transfer(&mut self, transfer_info: &TransferInfo) -> (done: Result<(), TsunaguError>)
        ensures
            final(self)@.transfer_dir == old(self)@.transfer_dir,
    {
        let id = transfer_info.id().to_owned();
        self.apply_to(&id, Operation::Cancel)
    }

    fn get_transfer_status(&self, transfer_info: &TransferInfo) -> (status: Result<
        TransferStatus,
        TsunaguError,
    >) {
        let id = transfer_info.id().to_owned();
        match self.find(&id) {
            Some(i) => Ok(self.transfers[i].status().clone()),
            None => Err(TsunaguError::Transfer(TransferError::UnknownTransfer)),
        }
    }
}

} // verus!
