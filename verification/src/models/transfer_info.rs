//! The record of one transfer and the state machine that governs it.
use vstd::prelude::*;
use crate::error::TransferError;
use crate::error::TsunaguError;
use crate::ident::fresh_id;
use crate::ident::ID_LEN;
use crate::models::device_info::DeviceInfo;
use crate::models::device_info::DeviceInfoView;
use crate::models::file_info::FileInfo;
use crate::models::file_info::FileInfoView;

verus! {

/// Where a transfer stands.
///
/// `InProgress` carries the number of bytes transferred so far and `Paused`
/// the offset from which streaming resumes; progress as a fraction is that
/// count over the record's total size.
#[derive(Debug)]
pub enum TransferStatus {
    Pending,
    InProgress(u64),
    Paused(u64),
    Completed,
    Failed(String),
}

/// Mathematical value of a [`TransferStatus`].
pub enum TransferStatusView {
    Pending,
    InProgress(u64),
    Paused(u64),
    Completed,
    Failed(Seq<char>),
}

impl View for TransferStatus {
    type V = TransferStatusView;

    open spec fn view(&self) -> TransferStatusView {
        match *self {
            TransferStatus::Pending => TransferStatusView::Pending,
            TransferStatus::InProgress(sent) => TransferStatusView::InProgress(sent),
            TransferStatus::Paused(offset) => TransferStatusView::Paused(offset),
            TransferStatus::Completed => TransferStatusView::Completed,
            TransferStatus::Failed(reason) => TransferStatusView::Failed(reason@),
        }
    }
}

impl Clone for TransferStatus {
    fn clone(&self) -> (copy: Self)
        ensures
            copy@ == self@,
    {
        match self {
            TransferStatus::Pending => TransferStatus::Pending,
            TransferStatus::InProgress(sent) => TransferStatus::InProgress(*sent),
            TransferStatus::Paused(offset) => TransferStatus::Paused(*offset),
            TransferStatus::Completed => TransferStatus::Completed,
            TransferStatus::Failed(reason) => TransferStatus::Failed(reason.clone()),
        }
    }
}

impl TransferStatusView {
    /// `Completed` and `Failed` admit no further transition.
    pub open spec fn is_terminal(self) -> bool {
        self is Completed || self is Failed
    }
}

impl TransferStatus {
    /// True for `Completed` and `Failed`.
    pub fn is_terminal(&self) -> (terminal: bool)
        ensures
            terminal == self@.is_terminal(),
    {
        match self {
            TransferStatus::Completed => true,
            TransferStatus::Failed(_) => true,
            _ => false,
        }
    }
}

/// What can happen to a transfer: the four caller operations and the three
/// reports of the streaming loop.
pub enum TransferOp {
    Start,
    Pause,
    Resume,
    Cancel,
    /// A chunk of this many bytes was transferred and acknowledged. A
    /// paused transfer takes this report too: the chunk that was under way
    /// when the pause came is finished and counted.
    Progress(u64),
    /// The stream ended in an orderly way.
    EndOfStream,
    /// Reading, writing or the connection failed, with the reason.
    IoError(Seq<char>),
}

/// The views of a list of files, in order.
pub open spec fn file_views(files: Seq<FileInfo>) -> Seq<FileInfoView> {
    files.map_values(|file: FileInfo| file@)
}

/// Sum of the sizes of a list of files.
pub open spec fn total_size_of(files: Seq<FileInfoView>) -> nat
    decreases files.len(),
{
    if files.len() == 0 {
        0
    } else {
        total_size_of(files.drop_last()) + files.last().size as nat
    }
}

/// Number of bytes of the files that come before the file at `index`.
pub open spec fn start_of(files: Seq<FileInfoView>, index: int) -> nat {
    total_size_of(files.take(index))
}

/// The file that holds the byte at `offset`, the offset counted over all
/// files in order and the search starting at the file `from`: the first
/// file that ends beyond the offset, or the number of files where there is
/// none.
pub open spec fn file_holding(files: Seq<FileInfoView>, offset: nat, from: int) -> int
    decreases files.len() - from,
{
    if from < 0 || from >= files.len() {
        files.len() as int
    } else if offset < start_of(files, from + 1) {
        from
    } else {
        file_holding(files, offset, from + 1)
    }
}

/// The total size that a record declares for its files: the sum of their
/// sizes, or the largest number there is where the sum goes beyond it.
pub open spec fn declared_total(files: Seq<FileInfoView>) -> u64 {
    if total_size_of(files) > u64::MAX {
        u64::MAX
    } else {
        total_size_of(files) as u64
    }
}

/// What a new transfer looks like: `Pending`, nothing transferred, the
/// total size the one that its files declare.
pub open spec fn new_record(
    id: Seq<char>,
    sender: DeviceInfoView,
    receiver: DeviceInfoView,
    files: Seq<FileInfoView>,
) -> TransferInfoView {
    TransferInfoView {
        id,
        sender,
        receiver,
        files,
        status: TransferStatusView::Pending,
        total_size: declared_total(files),
        transferred: 0,
    }
}

/// Reason recorded when the caller cancels a transfer.
pub open spec fn reason_cancelled() -> Seq<char> {
    "cancelled"@
}

/// Reason recorded when more bytes arrive than the files declare.
pub open spec fn reason_too_many_bytes() -> Seq<char> {
    "size mismatch: more bytes than declared"@
}

/// Reason recorded when the stream ends before all declared bytes arrived.
pub open spec fn reason_short_stream() -> Seq<char> {
    "size mismatch: stream ended early"@
}

/// Mathematical value of a [`TransferInfo`].
pub struct TransferInfoView {
    pub id: Seq<char>,
    pub sender: DeviceInfoView,
    pub receiver: DeviceInfoView,
    pub files: Seq<FileInfoView>,
    pub status: TransferStatusView,
    pub total_size: u64,
    pub transferred: u64,
}

impl TransferInfoView {
    /// The record's invariant: a non-empty file list, no longer than a
    /// list in memory can be, whose sizes add up to `total_size`, a byte
    /// count within that total, and a status that agrees with the byte
    /// count.
    pub open spec fn wf(self) -> bool {
        &&& 0 < self.files.len() <= usize::MAX
        &&& self.total_size as nat == total_size_of(self.files)
        &&& self.transferred <= self.total_size
        &&& match self.status {
            TransferStatusView::Pending => self.transferred == 0,
            TransferStatusView::InProgress(sent) => sent == self.transferred,
            TransferStatusView::Paused(offset) => offset == self.transferred,
            TransferStatusView::Completed => self.transferred == self.total_size,
            TransferStatusView::Failed(_) => true,
        }
    }

    /// Whether the state machine has a transition for `op` from this state.
    pub open spec fn accepts(self, op: TransferOp) -> bool {
        match op {
            TransferOp::Start => self.status is Pending || self.status is Paused,
            TransferOp::Pause => self.status is InProgress,
            TransferOp::Resume => self.status is Paused,
            TransferOp::Cancel => !self.status.is_terminal(),
            TransferOp::Progress(_) => self.status is InProgress || self.status is Paused,
            TransferOp::EndOfStream => self.status is InProgress,
            TransferOp::IoError(_) => self.status is InProgress || self.status is Paused,
        }
    }

    /// The record after the transition for `op`; meaningful where
    /// `accepts(op)` holds.
    pub open spec fn after(self, op: TransferOp) -> TransferInfoView {
        match op {
            TransferOp::Start | TransferOp::Resume => TransferInfoView {
                status: TransferStatusView::InProgress(self.transferred),
                ..self
            },
            TransferOp::Pause => TransferInfoView {
                status: TransferStatusView::Paused(self.transferred),
                ..self
            },
            TransferOp::Cancel => TransferInfoView {
                status: TransferStatusView::Failed(reason_cancelled()),
                ..self
            },
            TransferOp::Progress(bytes) => {
                if self.transferred + bytes > self.total_size {
                    TransferInfoView {
                        status: TransferStatusView::Failed(reason_too_many_bytes()),
                        ..self
                    }
                } else if self.transferred + bytes == self.total_size {
                    TransferInfoView {
                        status: TransferStatusView::Completed,
                        transferred: self.total_size,
                        ..self
                    }
                } else if self.status is Paused {
                    TransferInfoView {
                        status: TransferStatusView::Paused((self.transferred + bytes) as u64),
                        transferred: (self.transferred + bytes) as u64,
                        ..self
                    }
                } else {
                    TransferInfoView {
                        status: TransferStatusView::InProgress((self.transferred + bytes) as u64),
                        transferred: (self.transferred + bytes) as u64,
                        ..self
                    }
                }
            },
            TransferOp::EndOfStream => {
                if self.transferred == self.total_size {
                    TransferInfoView { status: TransferStatusView::Completed, ..self }
                } else {
                    TransferInfoView {
                        status: TransferStatusView::Failed(reason_short_stream()),
                        ..self
                    }
                }
            },
            TransferOp::IoError(reason) => TransferInfoView {
                status: TransferStatusView::Failed(reason),
                ..self
            },
        }
    }

    /// Whether `op` shows that the bytes of the stream are not the bytes
    /// that the files declare: a chunk that goes beyond the total size, or
    /// the end of the stream before it.
    pub open spec fn size_mismatch(self, op: TransferOp) -> bool {
        match op {
            TransferOp::Progress(bytes) => self.transferred + bytes > self.total_size,
            TransferOp::EndOfStream => self.transferred != self.total_size,
            _ => false,
        }
    }

    /// One step of the state machine: the next record where `op` is legal,
    /// none where it is not.
    pub open spec fn step(self, op: TransferOp) -> Option<TransferInfoView> {
        if self.accepts(op) {
            Some(self.after(op))
        } else {
            None
        }
    }
}

/// What a transition function owes: where the state machine has a step for
/// `op`, the stepped record, and success unless the step has failed the
/// transfer for a size mismatch, which is reported as such; where it has
/// none, `InvalidState` and the record untouched.
pub open spec fn transition_outcome(
    before: TransferInfoView,
    op: TransferOp,
    done: Result<(), TsunaguError>,
    now: TransferInfoView,
) -> bool {
    match before.step(op) {
        Some(next) => now == next && if before.size_mismatch(op) {
            done matches Err(TsunaguError::Transfer(TransferError::SizeMismatch))
        } else {
            done is Ok
        },
        None => (done matches Err(TsunaguError::InvalidState)) && now == before,
    }
}

/// The record after a run of operations, each applied where the state
/// machine has a step for it and skipped where it has none.
pub open spec fn run(start: TransferInfoView, ops: Seq<TransferOp>) -> TransferInfoView
    decreases ops.len(),
{
    if ops.len() == 0 {
        start
    } else {
        let before = run(start, ops.drop_last());
        match before.step(ops.last()) {
            Some(next) => next,
            None => before,
        }
    }
}

/// A terminal record admits no operation: every one is refused.
pub proof fn lemma_terminal_refuses(record: TransferInfoView, op: TransferOp)
    requires
        record.status.is_terminal(),
    ensures
        record.step(op) is None,
{
}

/// Resuming a `Completed` or `Failed` transfer is refused with
/// `InvalidState` and leaves the record as it was.
pub proof fn lemma_resume_terminal_invalid(
    record: TransferInfoView,
    done: Result<(), TsunaguError>,
    now: TransferInfoView,
)
    requires
        record.status is Completed || record.status is Failed,
        transition_outcome(record, TransferOp::Resume, done, now),
    ensures
        done matches Err(TsunaguError::InvalidState),
        now == record,
{
}

/// Cancelling a transfer that is not terminal succeeds and leaves it
/// `Failed("cancelled")`, with everything else as it was.
pub proof fn lemma_cancel_reaches_failed(record: TransferInfoView)
    requires
        !record.status.is_terminal(),
    ensures
        record.step(TransferOp::Cancel) == Some(
            TransferInfoView { status: TransferStatusView::Failed(reason_cancelled()), ..record },
        ),
{
}

/// A terminal record never changes again, whatever operations follow; in
/// particular a cancelled transfer never reverts.
pub proof fn lemma_terminal_is_final(record: TransferInfoView, ops: Seq<TransferOp>)
    requires
        record.status.is_terminal(),
    ensures
        run(record, ops) == record,
    decreases ops.len(),
{
    if ops.len() > 0 {
        lemma_terminal_is_final(record, ops.drop_last());
        lemma_terminal_refuses(record, ops.last());
    }
}

/// Every step keeps the record's invariant and its identity: only the
/// status and the byte count move.
pub proof fn lemma_step_preserves_wf(record: TransferInfoView, op: TransferOp)
    requires
        record.wf(),
    ensures
        record.step(op) matches Some(next) ==> next.wf() && next.id == record.id && next.sender
            == record.sender && next.receiver == record.receiver && next.files == record.files
            && next.total_size == record.total_size,
{
}

/// The byte count never goes down, so progress never decreases.
pub proof fn lemma_progress_monotone(record: TransferInfoView, op: TransferOp)
    requires
        record.wf(),
    ensures
        record.step(op) matches Some(next) ==> record.transferred <= next.transferred
            <= next.total_size,
{
}

/// One transfer: who sends what to whom, and how far it has come.
#[derive(Debug)]
pub struct TransferInfo {
    id: String,
    sender: DeviceInfo,
    receiver: DeviceInfo,
    files: Vec<FileInfo>,
    status: TransferStatus,
    total_size: u64,
    transferred: u64,
}

impl View for TransferInfo {
    type V = TransferInfoView;

    closed spec fn view(&self) -> TransferInfoView {
        TransferInfoView {
            id: self.id@,
            sender: self.sender@,
            receiver: self.receiver@,
            files: file_views(self.files@),
            status: self.status@,
            total_size: self.total_size,
            transferred: self.transferred,
        }
    }
}

/// The sum over a prefix never exceeds the sum over the whole list.
pub proof fn lemma_total_size_prefix(files: Seq<FileInfoView>, n: int)
    requires
        0 <= n <= files.len(),
    ensures
        total_size_of(files.take(n)) <= total_size_of(files),
    decreases files.len(),
{
    if n == files.len() {
        assert(files.take(n) =~= files);
    } else {
        lemma_total_size_prefix(files.drop_last(), n);
        assert(files.drop_last().take(n) =~= files.take(n));
    }
}

/// The bytes before a file and the file's own make the bytes before the
/// next file.
pub proof fn lemma_start_of_next(files: Seq<FileInfoView>, index: int)
    requires
        0 <= index < files.len(),
    ensures
        start_of(files, index + 1) == start_of(files, index) + files[index].size,
        start_of(files, index + 1) <= total_size_of(files),
        start_of(files, 0) == 0,
{
    assert(files.take(index + 1).drop_last() =~= files.take(index));
    assert(files.take(index + 1).last() == files[index]);
    lemma_total_size_prefix(files, index + 1);
    assert(files.take(0) =~= Seq::<FileInfoView>::empty());
}

/// Every byte of a transfer lies in exactly one file: for an offset within
/// the total size, the file that holds it starts at or before the offset
/// and ends beyond it.
pub proof fn lemma_file_holding(files: Seq<FileInfoView>, offset: nat, from: int)
    requires
        0 <= from <= files.len(),
        start_of(files, from) <= offset < total_size_of(files),
    ensures
        from <= file_holding(files, offset, from) < files.len(),
        start_of(files, file_holding(files, offset, from)) <= offset < start_of(
            files,
            file_holding(files, offset, from) + 1,
        ),
    decreases files.len() - from,
{
    if from == files.len() {
        assert(files.take(from) =~= files);
    } else {
        lemma_start_of_next(files, from);
        if offset >= start_of(files, from + 1) {
            lemma_file_holding(files, offset, from + 1);
        }
    }
}

/// Copies a list of files one by one.
pub fn clone_files(files: &Vec<FileInfo>) -> (copy: Vec<FileInfo>)
    ensures
        file_views(copy@) == file_views(files@),
{
    let mut copy: Vec<FileInfo> = Vec::new();
    let mut i: usize = 0;
    while i < files.len()
        invariant
            i <= files.len(),
            copy.len() == i,
            forall|k: int| 0 <= k < i ==> copy@[k]@ == files@[k]@,
        decreases files.len() - i,
    {
        copy.push(files[i].clone());
        i = i + 1;
    }
    assert(file_views(copy@) =~= file_views(files@));
    copy
}

/// Adds up the sizes of the files, or reports that the sum does not fit.
pub fn sum_sizes(files: &Vec<FileInfo>) -> (total: Option<u64>)
    ensures
        total matches Some(sum) ==> sum as nat == total_size_of(file_views(files@)),
        total is None <==> total_size_of(file_views(files@)) > u64::MAX,
{
    let ghost views = file_views(files@);
    let mut sum: u64 = 0;
    let mut i: usize = 0;
    while i < files.len()
        invariant
            i <= files.len(),
            views == file_views(files@),
            sum as nat == total_size_of(views.take(i as int)),
        decreases files.len() - i,
    {
        proof {
            assert(views.take(i + 1).drop_last() =~= views.take(i as int));
            assert(views.take(i + 1).last() == files@[i as int]@);
            lemma_total_size_prefix(views, i + 1);
        }
        match sum.checked_add(files[i].size()) {
            Some(next) => {
                sum = next;
            },
            None => {
                return None;
            },
        }
        i = i + 1;
    }
    proof {
        assert(views.take(i as int) =~= views);
    }
    Some(sum)
}

impl Clone for TransferInfo {
    fn clone(&self) -> (copy: Self)
        ensures
            copy@ == self@,
    {
        TransferInfo {
            id: self.id.clone(),
            sender: self.sender.clone(),
            receiver: self.receiver.clone(),
            files: clone_files(&self.files),
            status: self.status.clone(),
            total_size: self.total_size,
            transferred: self.transferred,
        }
    }
}

impl TransferInfo {
    /// Sets up a transfer of `files` under a fresh random identifier: the
    /// record starts `Pending` with nothing transferred. It is well formed
    /// where there is a file and the sizes add up to 64 bits; a total
    /// beyond that is recorded as the largest number there is.
    pub fn new(sender: DeviceInfo, receiver: DeviceInfo, files: Vec<FileInfo>) -> (info: Self)
        ensures
            info@.id.len() == ID_LEN,
            info@ == new_record(info@.id, sender@, receiver@, file_views(files@)),
            files@.len() > 0 && total_size_of(file_views(files@)) <= u64::MAX ==> info@.wf(),
    {
        Self::with_id(fresh_id(), sender, receiver, files)
    }

    /// Sets up a transfer of `files` under the identifier given.
    pub fn with_id(
        id: String,
        sender: DeviceInfo,
        receiver: DeviceInfo,
        files: Vec<FileInfo>,
    ) -> (info: Self)
        ensures
            info@ == new_record(id@, sender@, receiver@, file_views(files@)),
            files@.len() > 0 && total_size_of(file_views(files@)) <= u64::MAX ==> info@.wf(),
    {
        let total_size = match sum_sizes(&files) {
            Some(total_size) => total_size,
            None => u64::MAX,
        };
        let count = files.len();
        assert(file_views(files@).len() == count);
        TransferInfo {
            id,
            sender,
            receiver,
            files,
            status: TransferStatus::Pending,
            total_size,
            transferred: 0,
        }
    }

    pub fn id(&self) -> (id: &str)
        ensures
            id@ == self@.id,
    {
        self.id.as_str()
    }

    /// Whether this record goes by the identifier given.
    pub fn has_id(&self, id: &String) -> (same: bool)
        ensures
            same == (self@.id == id@),
    {
        self.id == *id
    }

    /// Whether two records go by the same identifier.
    pub fn same_id(&self, other: &TransferInfo) -> (same: bool)
        ensures
            same == (self@.id == other@.id),
    {
        self.id == other.id
    }

    pub fn sender(&self) -> (sender: &DeviceInfo)
        ensures
            sender@ == self@.sender,
    {
        &self.sender
    }

    pub fn receiver(&self) -> (receiver: &DeviceInfo)
        ensures
            receiver@ == self@.receiver,
    {
        &self.receiver
    }

    pub fn files(&self) -> (files: &Vec<FileInfo>)
        ensures
            file_views(files@) == self@.files,
    {
        &self.files
    }

    pub fn status(&self) -> (status: &TransferStatus)
        ensures
            status@ == self@.status,
    {
        &self.status
    }

    /// Total number of bytes of all files.
    pub fn total_size(&self) -> (total_size: u64)
        ensures
            total_size == self@.total_size,
    {
        self.total_size
    }

    /// Number of bytes transferred so far; it stays as it was when a
    /// transfer fails.
    pub fn transferred(&self) -> (transferred: u64)
        ensures
            transferred == self@.transferred,
    {
        self.transferred
    }

    /// The file that holds the byte at `offset`, the offset counted over
    /// all files in order, and the byte's offset within that file; nothing
    /// for an offset at or beyond the total size.
    pub fn locate(&self, offset: u64) -> (place: Option<(usize, u64)>)
        requires
            self@.wf(),
        ensures
            offset >= self@.total_size ==> place is None,
            offset < self@.total_size ==> place == Some(
                (
                    file_holding(self@.files, offset as nat, 0) as usize,
                    (offset - start_of(self@.files, file_holding(self@.files, offset as nat, 0)))
                        as u64,
                ),
            ),
    {
        if offset >= self.total_size {
            return None;
        }
        let ghost files = self@.files;
        let mut start: u64 = 0;
        let mut i: usize = 0;
        proof {
            assert(files.take(0) =~= Seq::<FileInfoView>::empty());
            lemma_file_holding(files, offset as nat, 0);
        }
        while i < self.files.len()
            invariant
                i <= self.files.len(),
                files == file_views(self.files@),
                files.len() == self.files@.len(),
                total_size_of(files) == self.total_size,
                start as nat == start_of(files, i as int),
                start <= offset < self.total_size,
                file_holding(files, offset as nat, 0) == file_holding(
                    files,
                    offset as nat,
                    i as int,
                ),
                file_holding(files, offset as nat, 0) < files.len(),
            decreases self.files.len() - i,
        {
            proof {
                lemma_start_of_next(files, i as int);
                assert(files[i as int] == self.files@[i as int]@);
            }
            let end: u64 = start + self.files[i].size();
            if offset < end {
                return Some((i, offset - start));
            }
            start = end;
            i = i + 1;
        }
        proof {
            assert(file_holding(files, offset as nat, i as int) == files.len());
        }
        None
    }

    /// `Pending` or `Paused` becomes `InProgress` at the recorded offset.
    pub(crate) fn start(&mut self) -> (done: Result<(), TsunaguError>)
        ensures
            transition_outcome(old(self)@, TransferOp::Start, done, final(self)@),
    {
        match self.status {
            TransferStatus::Pending | TransferStatus::Paused(_) => {
                self.status = TransferStatus::InProgress(self.transferred);
                Ok(())
            },
            _ => Err(TsunaguError::InvalidState),
        }
    }

    /// `InProgress` becomes `Paused` at the last acknowledged offset.
    pub(crate) fn pause(&mut self) -> (done: Result<(), TsunaguError>)
        ensures
            transition_outcome(old(self)@, TransferOp::Pause, done, final(self)@),
    {
        match self.status {
            TransferStatus::InProgress(_) => {
                self.status = TransferStatus::Paused(self.transferred);
                Ok(())
            },
            _ => Err(TsunaguError::InvalidState),
        }
    }

    /// `Paused` becomes `InProgress` at the recorded offset.
    pub(crate) fn resume(&mut self) -> (done: Result<(), TsunaguError>)
        ensures
            transition_outcome(old(self)@, TransferOp::Resume, done, final(self)@),
    {
        match self.status {
            TransferStatus::Paused(_) => {
                self.status = TransferStatus::InProgress(self.transferred);
                Ok(())
            },
            _ => Err(TsunaguError::InvalidState),
        }
    }

    /// Any state that is not terminal becomes `Failed("cancelled")`.
    pub(crate) fn cancel(&mut self) -> (done: Result<(), TsunaguError>)
        ensures
            transition_outcome(old(self)@, TransferOp::Cancel, done, final(self)@),
    {
        if self.status.is_terminal() {
            Err(TsunaguError::InvalidState)
        } else {
            self.status = TransferStatus::Failed("cancelled".to_owned());
            Ok(())
        }
    }

    /// Counts a transferred chunk: the transfer completes when the count
    /// reaches the total and fails, with `SizeMismatch`, when it passes it. A paused transfer
    /// still counts the chunk that was under way when it was paused.
    pub(crate) fn record_progress(&mut self, bytes: u64) -> (done: Result<(), TsunaguError>)
        requires
            old(self)@.wf(),
        ensures
            transition_outcome(old(self)@, TransferOp::Progress(bytes), done, final(self)@),
    {
        let paused = match self.status {
            TransferStatus::InProgress(_) => false,
            TransferStatus::Paused(_) => true,
            _ => {
                return Err(TsunaguError::InvalidState);
            },
        };
        let left: u64 = self.total_size - self.transferred;
        if bytes > left {
            self.status = TransferStatus::Failed(
                "size mismatch: more bytes than declared".to_owned(),
            );
            return Err(TsunaguError::Transfer(TransferError::SizeMismatch));
        } else if bytes == left {
            self.transferred = self.total_size;
            self.status = TransferStatus::Completed;
        } else if paused {
            self.transferred = self.transferred + bytes;
            self.status = TransferStatus::Paused(self.transferred);
        } else {
            self.transferred = self.transferred + bytes;
            self.status = TransferStatus::InProgress(self.transferred);
        }
        Ok(())
    }

    /// The stream ended: complete if every byte arrived, failed with
    /// `SizeMismatch` if not.
    pub(crate) fn record_end_of_stream(&mut self) -> (done: Result<(), TsunaguError>)
        ensures
            transition_outcome(old(self)@, TransferOp::EndOfStream, done, final(self)@),
    {
        match self.status {
            TransferStatus::InProgress(_) => {
                if self.transferred == self.total_size {
                    self.status = TransferStatus::Completed;
                    Ok(())
                } else {
                    self.status = TransferStatus::Failed(
                        "size mismatch: stream ended early".to_owned(),
                    );
                    Err(TsunaguError::Transfer(TransferError::SizeMismatch))
                }
            },
            _ => Err(TsunaguError::InvalidState),
        }
    }

    /// An I/O failure ends an active or paused transfer with its reason.
    pub(crate) fn record_failure(&mut self, reason: String) -> (done: Result<(), TsunaguError>)
        ensures
            transition_outcome(old(self)@, TransferOp::IoError(reason@), done, final(self)@),
    {
        match self.status {
            TransferStatus::InProgress(_) | TransferStatus::Paused(_) => {
                self.status = TransferStatus::Failed(reason);
                Ok(())
            },
            _ => Err(TsunaguError::InvalidState),
        }
    }
}

} // verus!
