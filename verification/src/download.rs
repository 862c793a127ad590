//! Loading a kernel of known size over the network.
use vstd::prelude::*;

verus! {

/// The largest kernel that is loaded.
pub const MAX_KERNEL_DOWNLOAD_SIZE: u64 = 268_435_456;

/// How often a part of the kernel is asked for.
pub const HTTP_RETRY_LIMIT: u64 = 8;

/// The pause between two attempts, in milliseconds.
pub const HTTP_RETRY_STALL_MS: u64 = 250;

/// Progress is shown at each such step.
pub const KERNEL_PROGRESS_STEP_PERCENT: usize = 1;

/// The width of the progress bar.
pub const KERNEL_PROGRESS_BAR_WIDTH: usize = 50;

pub const KIB: usize = 1024;

pub const MIB: usize = 1_048_576;

#[derive(Clone, Copy, Debug, PartialEq, Eq, Structural)]
pub enum DownloadError {
    NoHttpBinding,
    HttpUnavailable,
    ConfigureFailed,
    RequestFailed,
    ResponseFailed,
    BodyTooLarge,
    UnexpectedStatus,
}

#[derive(Clone, Copy, Debug, PartialEq, Eq, Structural)]
pub enum KernelLoadError {
    ZeroSize,
    SizeTooLarge,
    Download(DownloadError),
    SizeMismatch,
}

/// Why a kernel of this size is not loaded.
pub open spec fn size_error(expected_size: u64) -> Option<KernelLoadError> {
    if expected_size == 0 {
        Some(KernelLoadError::ZeroSize)
    } else if expected_size > MAX_KERNEL_DOWNLOAD_SIZE {
        Some(KernelLoadError::SizeTooLarge)
    } else {
        None
    }
}

pub fn checked_kernel_size(expected_size: u64) -> (result: Result<usize, KernelLoadError>)
    ensures
        match result {
            Ok(size) => size_error(expected_size) is None && size == expected_size,
            Err(error) => size_error(expected_size) == Some(error),
        },
{
    if expected_size == 0 {
        return Err(KernelLoadError::ZeroSize);
    }
    if expected_size > MAX_KERNEL_DOWNLOAD_SIZE {
        return Err(KernelLoadError::SizeTooLarge);
    }
    Ok(expected_size as usize)
}

/// Adds a part to the body, unless the body would become larger than expected.
/// Says how much there is.
pub fn append_download_chunk(body: &mut Vec<u8>, expected_size: usize, chunk: &Vec<u8>) -> (result: Result<usize, DownloadError>)
    requires
        old(body)@.len() <= expected_size,
    ensures
        if old(body)@.len() + chunk@.len() > expected_size {
            result == Err::<usize, DownloadError>(DownloadError::BodyTooLarge) && final(body)@
                == old(body)@
        } else {
            result == Ok::<usize, DownloadError>((old(body)@.len() + chunk@.len()) as usize)
                && final(body)@ == old(body)@ + chunk@
        },
{
    if chunk.len() > expected_size - body.len() {
        return Err(DownloadError::BodyTooLarge);
    }
    let ghost before = body@;
    let mut i: usize = 0;
    while i < chunk.len()
        invariant
            i <= chunk.len(),
            body@ == before + chunk@.take(i as int),
        decreases chunk.len() - i,
    {
        body.push(chunk[i]);
        i = i + 1;
        assert(chunk@.take(i as int) =~= chunk@.take(i - 1).push(chunk@[i - 1]));
    }
    assert(chunk@.take(i as int) =~= chunk@);
    Ok(body.len())
}

/// The part of a download that is done, in percent.
pub open spec fn percent_of(downloaded: usize, expected_size: usize) -> int {
    let scaled = if downloaded * 100 > usize::MAX {
        usize::MAX as int
    } else {
        downloaded * 100
    };
    if expected_size == 0 {
        0
    } else {
        scaled / expected_size as int
    }
}

pub fn download_percent(downloaded: usize, expected_size: usize) -> (percent: usize)
    ensures
        percent == percent_of(downloaded, expected_size),
{
    if expected_size == 0 {
        return 0;
    }
    let scaled: usize = if downloaded > usize::MAX / 100 {
        usize::MAX
    } else {
        downloaded * 100
    };
    scaled / expected_size
}

/// A number of bytes as it is shown, with two decimals.
#[derive(Clone, Copy, Debug, PartialEq, Eq, Structural)]
pub enum HumanSize {
    Bytes(usize),
    Kib { whole: usize, hundredths: usize },
    Mib { whole: usize, hundredths: usize },
}

pub open spec fn shown_size(bytes: usize) -> HumanSize {
    if bytes >= MIB {
        HumanSize::Mib {
            whole: bytes / MIB,
            hundredths: ((bytes % MIB) * 100 / MIB as int) as usize,
        }
    } else if bytes >= KIB {
        HumanSize::Kib {
            whole: bytes / KIB,
            hundredths: ((bytes % KIB) * 100 / KIB as int) as usize,
        }
    } else {
        HumanSize::Bytes(bytes)
    }
}

pub fn human_size(bytes: usize) -> (size: HumanSize)
    ensures
        size == shown_size(bytes),
{
    if bytes >= MIB {
        HumanSize::Mib { whole: bytes / MIB, hundredths: bytes % MIB * 100 / MIB }
    } else if bytes >= KIB {
        HumanSize::Kib { whole: bytes / KIB, hundredths: bytes % KIB * 100 / KIB }
    } else {
        HumanSize::Bytes(bytes)
    }
}

/// What is shown of a download.
#[derive(Clone, Copy, Debug, PartialEq, Eq, Structural)]
pub struct ProgressLine {
    pub percent: usize,
    /// How many fields of the bar are filled.
    pub filled: usize,
    pub downloaded: HumanSize,
    pub expected: HumanSize,
}

pub open spec fn progress_line(downloaded: usize, expected_size: usize) -> ProgressLine {
    let percent = percent_of(downloaded, expected_size);
    let scaled = if percent * KERNEL_PROGRESS_BAR_WIDTH > usize::MAX {
        usize::MAX as int
    } else {
        percent * KERNEL_PROGRESS_BAR_WIDTH
    };
    ProgressLine {
        percent: percent as usize,
        filled: (scaled / 100) as usize,
        downloaded: shown_size(downloaded),
        expected: shown_size(expected_size),
    }
}

/// How far a download has been shown.
#[derive(Clone, Copy, Debug, PartialEq, Eq, Structural)]
pub struct DownloadProgress {
    pub expected_size: usize,
    pub next_percent: usize,
}

impl DownloadProgress {
    pub fn new(expected_size: usize) -> (progress: Self)
        ensures
            progress == (DownloadProgress {
                expected_size,
                next_percent: KERNEL_PROGRESS_STEP_PERCENT,
            }),
    {
        DownloadProgress { expected_size, next_percent: KERNEL_PROGRESS_STEP_PERCENT }
    }

    /// The line for what is there.
    pub fn line(&self, downloaded: usize) -> (line: ProgressLine)
        ensures
            line == progress_line(downloaded, self.expected_size),
    {
        let percent: usize = download_percent(downloaded, self.expected_size);
        let scaled: usize = if percent > usize::MAX / KERNEL_PROGRESS_BAR_WIDTH {
            usize::MAX
        } else {
            percent * KERNEL_PROGRESS_BAR_WIDTH
        };
        ProgressLine {
            percent,
            filled: scaled / 100,
            downloaded: human_size(downloaded),
            expected: human_size(self.expected_size),
        }
    }

    /// Whether a new line is due.
    pub open spec fn due(&self, downloaded: usize) -> bool {
        percent_of(downloaded, self.expected_size) >= self.next_percent || downloaded
            == self.expected_size
    }

    /// The line that is due, if any. The next one is due at the next step.
    pub fn maybe_line(&mut self, downloaded: usize) -> (line: Option<ProgressLine>)
        requires
            percent_of(downloaded, old(self).expected_size) < usize::MAX,
        ensures
            line == if old(self).due(downloaded) {
                Some(progress_line(downloaded, old(self).expected_size))
            } else {
                None
            },
            *final(self) == (DownloadProgress {
                next_percent: if percent_of(downloaded, old(self).expected_size)
                    >= old(self).next_percent {
                    (percent_of(downloaded, old(self).expected_size) + 1) as usize
                } else {
                    old(self).next_percent
                },
                ..*old(self)
            }),
    {
        let percent: usize = download_percent(downloaded, self.expected_size);
        let line = if percent >= self.next_percent || downloaded == self.expected_size {
            Some(self.line(downloaded))
        } else {
            None
        };
        if self.next_percent <= percent {
            self.next_percent = percent + KERNEL_PROGRESS_STEP_PERCENT;
        }
        line
    }
}

/// What follows an attempt that failed.
#[derive(Clone, Copy, Debug, PartialEq, Eq, Structural)]
pub enum RetryStep {
    /// Pause and try again.
    Again,
    GiveUp(DownloadError),
}

/// Counts the attempts at one part.
#[derive(Clone, Copy, Debug, PartialEq, Eq, Structural)]
pub struct HttpRetry {
    pub attempts: u64,
}

impl HttpRetry {
    pub fn new() -> (retry: Self)
        ensures
            retry == (HttpRetry { attempts: 0 }),
    {
        HttpRetry { attempts: 0 }
    }

    /// Notes an attempt that failed. The last one gives up with its error.
    pub fn failed(&mut self, error: DownloadError) -> (step: RetryStep)
        requires
            old(self).attempts < HTTP_RETRY_LIMIT,
        ensures
            final(self).attempts == old(self).attempts + 1,
            step == if final(self).attempts < HTTP_RETRY_LIMIT {
                RetryStep::Again
            } else {
                RetryStep::GiveUp(error)
            },
    {
        self.attempts = self.attempts + 1;
        if self.attempts < HTTP_RETRY_LIMIT {
            RetryStep::Again
        } else {
            RetryStep::GiveUp(error)
        }
    }
}

/// What became of one network card.
#[derive(Clone, Copy, Debug, PartialEq, Eq, Structural)]
pub enum BindingOutcome {
    OpenFailed,
    ConfigureFailed,
    Configured,
}

/// The first card that could be configured, or the last error.
pub open spec fn chosen_binding(outcomes: Seq<BindingOutcome>) -> Result<usize, DownloadError>
    decreases outcomes.len(),
{
    if outcomes.len() == 0 {
        Err(DownloadError::NoHttpBinding)
    } else {
        match chosen_binding(outcomes.drop_last()) {
            Ok(index) => Ok(index),
            Err(_) => match outcomes.last() {
                BindingOutcome::Configured => Ok((outcomes.len() - 1) as usize),
                BindingOutcome::OpenFailed => Err(DownloadError::HttpUnavailable),
                BindingOutcome::ConfigureFailed => Err(DownloadError::ConfigureFailed),
            },
        }
    }
}

/// The search for a network card. It ends with the first that can be
/// configured.
#[derive(Clone, Copy, Debug, PartialEq, Eq)]
pub struct BindingSearch {
    pub seen: usize,
    pub result: Result<usize, DownloadError>,
}

impl BindingSearch {
    /// The search has seen these outcomes.
    pub open spec fn after(&self, outcomes: Seq<BindingOutcome>) -> bool {
        self.seen == outcomes.len() && self.result == chosen_binding(outcomes)
    }

    pub fn new() -> (search: Self)
        ensures
            search.after(Seq::empty()),
            search.seen == 0,
    {
        BindingSearch { seen: 0, result: Err(DownloadError::NoHttpBinding) }
    }

    /// Notes what became of the next card.
    pub fn note(&mut self, outcome: BindingOutcome)
        requires
            old(self).seen < usize::MAX,
        ensures
            forall|outcomes: Seq<BindingOutcome>|
                old(self).after(outcomes) ==> #[trigger] final(self).after(
                    outcomes.push(outcome),
                ),
            final(self).seen == old(self).seen + 1,
    {
        let ghost before = *self;
        if self.result.is_err() {
            self.result = match outcome {
                BindingOutcome::Configured => Ok(self.seen),
                BindingOutcome::OpenFailed => Err(DownloadError::HttpUnavailable),
                BindingOutcome::ConfigureFailed => Err(DownloadError::ConfigureFailed),
            };
        }
        self.seen = self.seen + 1;
        proof {
            assert forall|outcomes: Seq<BindingOutcome>| before.after(outcomes) implies #[trigger] self.after(outcomes.push(outcome)) by {
                assert(outcomes.push(outcome).drop_last() =~= outcomes);
            }
        }
    }
}

/// What a download needs next.
#[derive(Clone, Copy, Debug, PartialEq, Eq, Structural)]
pub enum DownloadStep {
    /// The next part.
    Receive,
    /// A pause, and the next part once more.
    Pause,
    /// Nothing: the body is complete.
    Done,
    Failed(DownloadError),
}

/// A download under way.
#[derive(Debug)]
pub struct Download {
    pub expected_size: usize,
    pub body: Vec<u8>,
    pub retry: HttpRetry,
}

/// What follows once a part was added, or was too large to be.
pub open spec fn added_step(body: Seq<u8>, expected_size: usize, chunk: Seq<u8>) -> DownloadStep {
    if body.len() + chunk.len() > expected_size {
        DownloadStep::Failed(DownloadError::BodyTooLarge)
    } else if body.len() + chunk.len() == expected_size {
        DownloadStep::Done
    } else {
        DownloadStep::Receive
    }
}

/// The body with a part added, unless it is too large.
pub open spec fn added_body(body: Seq<u8>, expected_size: usize, chunk: Seq<u8>) -> Seq<u8> {
    if body.len() + chunk.len() > expected_size {
        body
    } else {
        body + chunk
    }
}

impl Download {
    pub open spec fn wf(&self) -> bool {
        &&& self.body@.len() <= self.expected_size
        &&& self.retry.attempts < HTTP_RETRY_LIMIT
    }

    pub fn new(expected_size: usize) -> (download: Self)
        ensures
            download.expected_size == expected_size,
            download.body@ == Seq::<u8>::empty(),
            download.retry.attempts == 0,
            download.wf(),
    {
        Download { expected_size, body: Vec::new(), retry: HttpRetry::new() }
    }

    fn add_part(&mut self, chunk: &Vec<u8>) -> (step: DownloadStep)
        requires
            old(self).wf(),
        ensures
            step == added_step(old(self).body@, old(self).expected_size, chunk@),
            final(self).body@ == added_body(old(self).body@, old(self).expected_size, chunk@),
            final(self).expected_size == old(self).expected_size,
            final(self).retry == old(self).retry,
            final(self).wf(),
    {
        match append_download_chunk(&mut self.body, self.expected_size, chunk) {
            Err(error) => DownloadStep::Failed(error),
            Ok(downloaded) => if downloaded == self.expected_size {
                DownloadStep::Done
            } else {
                DownloadStep::Receive
            },
        }
    }

    /// Takes the first reply. Only one that the server calls a success counts.
    pub fn first(&mut self, success: bool, chunk: &Vec<u8>) -> (step: DownloadStep)
        requires
            old(self).wf(),
        ensures
            step == if success {
                added_step(old(self).body@, old(self).expected_size, chunk@)
            } else {
                DownloadStep::Failed(DownloadError::UnexpectedStatus)
            },
            final(self).body@ == if success {
                added_body(old(self).body@, old(self).expected_size, chunk@)
            } else {
                old(self).body@
            },
            final(self).expected_size == old(self).expected_size,
            final(self).retry == old(self).retry,
            final(self).wf(),
    {
        if !success {
            return DownloadStep::Failed(DownloadError::UnexpectedStatus);
        }
        self.add_part(chunk)
    }

    /// Takes a further part. An empty one ends the download.
    pub fn part(&mut self, chunk: &Vec<u8>) -> (step: DownloadStep)
        requires
            old(self).wf(),
        ensures
            step == if chunk@.len() == 0 {
                DownloadStep::Failed(DownloadError::ResponseFailed)
            } else {
                added_step(old(self).body@, old(self).expected_size, chunk@)
            },
            final(self).body@ == added_body(old(self).body@, old(self).expected_size, chunk@),
            final(self).expected_size == old(self).expected_size,
            final(self).retry.attempts == 0,
            final(self).wf(),
    {
        self.retry = HttpRetry::new();
        if chunk.len() == 0 {
            assert(self.body@ + chunk@ =~= self.body@);
            return DownloadStep::Failed(DownloadError::ResponseFailed);
        }
        self.add_part(chunk)
    }

    /// Takes note that a further part did not come. It is asked for again, up
    /// to a limit.
    pub fn part_failed(&mut self, error: DownloadError) -> (step: DownloadStep)
        requires
            old(self).wf(),
        ensures
            step == if old(self).retry.attempts + 1 < HTTP_RETRY_LIMIT {
                DownloadStep::Pause
            } else {
                DownloadStep::Failed(error)
            },
            final(self).retry.attempts == if old(self).retry.attempts + 1 < HTTP_RETRY_LIMIT {
                old(self).retry.attempts + 1
            } else {
                0
            },
            final(self).body == old(self).body,
            final(self).expected_size == old(self).expected_size,
            final(self).wf(),
    {
        match self.retry.failed(error) {
            RetryStep::Again => DownloadStep::Pause,
            RetryStep::GiveUp(error) => {
                self.retry = HttpRetry::new();
                DownloadStep::Failed(error)
            },
        }
    }
}

/// The body that the replies of a server make up.
pub open spec fn assembled(body: Seq<u8>, expected_size: usize, attempts: nat, replies: Seq<Result<Vec<u8>, DownloadError>>) -> Result<Seq<u8>, DownloadError>
    decreases replies.len(),
{
    if body.len() >= expected_size {
        Ok(body)
    } else if replies.len() == 0 {
        Err(DownloadError::ResponseFailed)
    } else {
        match replies[0] {
            Err(error) => if attempts + 1 < HTTP_RETRY_LIMIT {
                assembled(body, expected_size, attempts + 1, replies.skip(1))
            } else {
                Err(error)
            },
            Ok(chunk) => if chunk@.len() == 0 {
                Err(DownloadError::ResponseFailed)
            } else if body.len() + chunk@.len() > expected_size {
                Err(DownloadError::BodyTooLarge)
            } else {
                assembled(body + chunk@, expected_size, 0, replies.skip(1))
            },
        }
    }
}

/// The kernel that the replies of a server make up, or why there is none.
pub open spec fn downloaded(expected_size: u64, success: bool, first: Seq<u8>, replies: Seq<Result<Vec<u8>, DownloadError>>) -> Result<Seq<u8>, KernelLoadError> {
    match size_error(expected_size) {
        Some(error) => Err(error),
        None => if !success {
            Err(KernelLoadError::Download(DownloadError::UnexpectedStatus))
        } else if first.len() > expected_size {
            Err(KernelLoadError::Download(DownloadError::BodyTooLarge))
        } else {
            match assembled(first, expected_size as usize, 0, replies) {
                Ok(body) => Ok(body),
                Err(error) => Err(KernelLoadError::Download(error)),
            }
        },
    }
}

/// Puts a kernel of known size together from the replies of a server: whether
/// the first one was a success, its body, and what came after. A server that
/// says no more before the kernel is complete has failed.
pub fn download_sized_body(expected_size: u64, success: bool, first: &Vec<u8>, replies: &Vec<Result<Vec<u8>, DownloadError>>) -> (result: Result<Vec<u8>, KernelLoadError>)
    ensures
        match result {
            Ok(body) => downloaded(expected_size, success, first@, replies@) == Ok::<
                Seq<u8>,
                KernelLoadError,
            >(body@),
            Err(error) => downloaded(expected_size, success, first@, replies@) == Err::<
                Seq<u8>,
                KernelLoadError,
            >(error),
        },
{
    let expected: usize = match checked_kernel_size(expected_size) {
        Ok(expected) => expected,
        Err(error) => {
            return Err(error);
        },
    };
    let mut download = Download::new(expected);
    let mut step = download.first(success, first);
    assert(Seq::<u8>::empty() + first@ =~= first@);
    match step {
        DownloadStep::Failed(error) => {
            return Err(KernelLoadError::Download(error));
        },
        _ => {},
    }
    let mut i: usize = 0;
    assert(replies@.skip(0) =~= replies@);
    while i < replies.len() && download.body.len() < expected
        invariant
            i <= replies.len(),
            download.wf(),
            download.expected_size == expected,
            expected == expected_size,
            size_error(expected_size) is None,
            success,
            first@.len() <= expected,
            assembled(
                download.body@,
                expected,
                download.retry.attempts as nat,
                replies@.skip(i as int),
            ) == assembled(first@, expected, 0, replies@),
        decreases replies.len() - i,
    {
        let ghost rest = replies@.skip(i as int);
        assert(rest.skip(1) =~= replies@.skip(i + 1));
        assert(rest[0] == replies@[i as int]);
        let step = match &replies[i] {
            Ok(chunk) => download.part(chunk),
            Err(error) => download.part_failed(*error),
        };
        match step {
            DownloadStep::Failed(error) => {
                return Err(KernelLoadError::Download(error));
            },
            _ => {},
        }
        i = i + 1;
    }
    if download.body.len() < expected {
        return Err(KernelLoadError::Download(DownloadError::ResponseFailed));
    }
    Ok(download.body)
}

/// A kernel that was put together has the size that was asked for. It begins
/// with what the first reply brought.
pub proof fn assembled_body_is_complete(body: Seq<u8>, expected_size: usize, attempts: nat, replies: Seq<Result<Vec<u8>, DownloadError>>)
    requires
        body.len() <= expected_size,
    ensures
        assembled(body, expected_size, attempts, replies) matches Ok(all) ==> all.len()
            == expected_size && all.take(body.len() as int) == body,
    decreases replies.len(),
{
    if body.len() < expected_size && replies.len() > 0 {
        match replies[0] {
            Err(_) => {
                assembled_body_is_complete(body, expected_size, attempts + 1, replies.skip(1));
            },
            Ok(chunk) => {
                if body.len() + chunk@.len() <= expected_size {
                    assembled_body_is_complete(
                        body + chunk@,
                        expected_size,
                        0,
                        replies.skip(1),
                    );
                    if let Ok(all) = assembled(body + chunk@, expected_size, 0, replies.skip(1)) {
                        assert(all.take(body.len() as int) =~= all.take(
                            (body + chunk@).len() as int,
                        ).take(body.len() as int));
                        assert((body + chunk@).take(body.len() as int) =~= body);
                    }
                }
            },
        }
    } else {
        assert(body.take(body.len() as int) =~= body);
    }
}

} // verus!
