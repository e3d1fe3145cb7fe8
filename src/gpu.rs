use vstd::prelude::*;

verus! {

pub const VIRTIO_GPU_DEVICE_ID: u32 = 0x1050;
pub const VIRTIO_GPU_VENDOR_ID: u32 = 0x1AF4;

/// Largest buffer, in bytes, that the safety gate lets through (1 MiB).
pub const MAX_BUFFER_SIZE: usize = 1048576;
/// Number of descriptor slots of each command queue.
pub const QUEUE_CAPACITY: usize = 64;
pub const NUM_QUEUES: usize = 3;
pub const CONTROL_QUEUE: usize = 0;
pub const CURSOR_QUEUE: usize = 1;
pub const DISPLAY_QUEUE: usize = 2;

/// Wire codes of the commands, as the safety gate receives them.
pub const CMD_GET_DISPLAY_INFO: u32 = 0x0100;
pub const CMD_RESOURCE_CREATE_2D: u32 = 0x0101;
pub const CMD_RESOURCE_UNREF: u32 = 0x0102;

pub const VIRTIO_GPU_F_VIRGL: u64 = 1;
pub const VIRTIO_GPU_F_EDID: u64 = 2;
pub const VIRTIO_GPU_F_RESIZE: u64 = 4;
/// Every capability this driver knows how to use.
pub const SUPPORTED_FEATURES: u64 = VIRTIO_GPU_F_VIRGL | VIRTIO_GPU_F_EDID | VIRTIO_GPU_F_RESIZE;

/// Negotiated capability bitset. Only bits of `SUPPORTED_FEATURES` are ever set.
#[derive(Clone, Copy, Debug, PartialEq, Eq, Structural)]
pub struct VirtGpuFeatures {
    bits: u64,
}

impl View for VirtGpuFeatures {
    type V = u64;

    closed spec fn view(&self) -> u64 {
        self.bits
    }
}

impl VirtGpuFeatures {
    pub fn empty() -> (r: Self)
        ensures
            r@ == 0,
    {
        VirtGpuFeatures { bits: 0 }
    }

    /// Keeps the bits this driver supports and drops the others.
    pub fn from_bits_truncate(bits: u64) -> (r: Self)
        ensures
            r@ == bits & SUPPORTED_FEATURES,
    {
        VirtGpuFeatures { bits: bits & SUPPORTED_FEATURES }
    }

    pub fn bits(&self) -> (r: u64)
        ensures
            r == self@,
    {
        self.bits
    }

    pub fn contains(&self, other: VirtGpuFeatures) -> (r: bool)
        ensures
            r == (self@ & other@ == other@),
    {
        self.bits & other.bits == other.bits
    }
}

/// A command the driver can place on a queue.
#[derive(Clone, Copy, Debug, PartialEq, Eq, Structural)]
pub enum GpuCmd {
    GetDisplayInfo,
    ResourceCreate2d,
    ResourceUnref,
}

pub open spec fn cmd_code(cmd: GpuCmd) -> u32 {
    match cmd {
        GpuCmd::GetDisplayInfo => CMD_GET_DISPLAY_INFO,
        GpuCmd::ResourceCreate2d => CMD_RESOURCE_CREATE_2D,
        GpuCmd::ResourceUnref => CMD_RESOURCE_UNREF,
    }
}

pub open spec fn cmd_of_tag(tag: u32) -> Option<GpuCmd> {
    if tag == CMD_GET_DISPLAY_INFO {
        Some(GpuCmd::GetDisplayInfo)
    } else if tag == CMD_RESOURCE_CREATE_2D {
        Some(GpuCmd::ResourceCreate2d)
    } else if tag == CMD_RESOURCE_UNREF {
        Some(GpuCmd::ResourceUnref)
    } else {
        None
    }
}

/// Which commands the safety gate accepts: destroying a resource is left to
/// the privileged dispatcher.
pub open spec fn gate_allows(cmd: GpuCmd) -> bool {
    match cmd {
        GpuCmd::GetDisplayInfo => true,
        GpuCmd::ResourceCreate2d => true,
        GpuCmd::ResourceUnref => false,
    }
}

/// Commands that carry payload data, and so need a non-empty buffer.
pub open spec fn needs_payload(cmd: GpuCmd) -> bool {
    match cmd {
        GpuCmd::GetDisplayInfo => false,
        GpuCmd::ResourceCreate2d => true,
        GpuCmd::ResourceUnref => true,
    }
}

/// The queue the safety gate routes each command to.
pub open spec fn gate_queue(cmd: GpuCmd) -> usize {
    match cmd {
        GpuCmd::GetDisplayInfo => CONTROL_QUEUE,
        GpuCmd::ResourceCreate2d => DISPLAY_QUEUE,
        GpuCmd::ResourceUnref => CONTROL_QUEUE,
    }
}

impl GpuCmd {
    pub fn code(&self) -> (r: u32)
        ensures
            r == cmd_code(*self),
    {
        match self {
            GpuCmd::GetDisplayInfo => CMD_GET_DISPLAY_INFO,
            GpuCmd::ResourceCreate2d => CMD_RESOURCE_CREATE_2D,
            GpuCmd::ResourceUnref => CMD_RESOURCE_UNREF,
        }
    }

    pub fn from_tag(tag: u32) -> (r: Option<GpuCmd>)
        ensures
            r == cmd_of_tag(tag),
    {
        if tag == CMD_GET_DISPLAY_INFO {
            Some(GpuCmd::GetDisplayInfo)
        } else if tag == CMD_RESOURCE_CREATE_2D {
            Some(GpuCmd::ResourceCreate2d)
        } else if tag == CMD_RESOURCE_UNREF {
            Some(GpuCmd::ResourceUnref)
        } else {
            None
        }
    }

    pub fn allowed_through_gate(&self) -> (r: bool)
        ensures
            r == gate_allows(*self),
    {
        match self {
            GpuCmd::ResourceUnref => false,
            _ => true,
        }
    }

    pub fn carries_payload(&self) -> (r: bool)
        ensures
            r == needs_payload(*self),
    {
        match self {
            GpuCmd::GetDisplayInfo => false,
            _ => true,
        }
    }

    pub fn gate_queue(&self) -> (r: usize)
        ensures
            r == gate_queue(*self),
    {
        match self {
            GpuCmd::ResourceCreate2d => DISPLAY_QUEUE,
            _ => CONTROL_QUEUE,
        }
    }
}

#[derive(Clone, Copy, Debug, PartialEq, Eq, Structural)]
pub enum GpuError {
    NotInitialized,
    InvalidQueue,
    QueueFull,
    UnknownJob,
    BufferTooLarge,
    /// `render_safe` refuses the request: the tag names no command, the
    /// command is reserved to privileged callers, or it carries payload data
    /// and the buffer is empty.
    UnsupportedCommand,
}

#[derive(Clone, Copy, Debug, PartialEq, Eq, Structural)]
pub enum JobState {
    Submitted,
    Completed,
    Failed(u32),
}

/// One occupied descriptor slot of a queue.
#[derive(Clone, Copy, Debug, PartialEq, Eq, Structural)]
pub struct QueueEntry {
    pub job_id: usize,
    pub code: u32,
}

/// What the driver records of each job it has issued.
#[derive(Clone, Copy, Debug, PartialEq, Eq, Structural)]
pub struct JobRecord {
    pub queue: usize,
    pub cmd: GpuCmd,
    pub state: JobState,
}

#[derive(Clone, Copy, Debug, PartialEq, Eq, Structural)]
pub struct DeviceIdentity {
    pub vendor_id: u32,
    pub device_id: u32,
}

/// A command queue: a bounded ring of in-flight entries, completed in the
/// order they were placed on it.
pub struct VirtQueue {
    index: usize,
    ring: Vec<QueueEntry>,
}

impl View for VirtQueue {
    type V = Seq<QueueEntry>;

    closed spec fn view(&self) -> Seq<QueueEntry> {
        self.ring@
    }
}

impl VirtQueue {
    pub closed spec fn spec_index(&self) -> usize {
        self.index
    }

    pub fn new(index: usize) -> (r: Self)
        ensures
            r@ == Seq::<QueueEntry>::empty(),
            r.spec_index() == index,
    {
        VirtQueue { index, ring: Vec::new() }
    }

    pub fn len(&self) -> (r: usize)
        ensures
            r == self@.len(),
    {
        self.ring.len()
    }

    /// Places an entry on the queue, unless every descriptor slot is taken.
    pub fn enqueue(&mut self, entry: QueueEntry) -> (r: Result<(), GpuError>)
        ensures
            final(self).spec_index() == old(self).spec_index(),
            old(self)@.len() >= QUEUE_CAPACITY ==> r == Err::<(), GpuError>(GpuError::QueueFull)
                && final(self)@ == old(self)@,
            old(self)@.len() < QUEUE_CAPACITY ==> r == Ok::<(), GpuError>(()) && final(self)@
                == old(self)@.push(entry),
    {
        if self.ring.len() >= QUEUE_CAPACITY {
            Err(GpuError::QueueFull)
        } else {
            self.ring.push(entry);
            Ok(())
        }
    }

    /// Takes the oldest in-flight entry off the queue, once the device has
    /// finished with it.
    pub fn take_completed(&mut self) -> (r: Option<QueueEntry>)
        ensures
            final(self).spec_index() == old(self).spec_index(),
            old(self)@.len() == 0 ==> r == None::<QueueEntry> && final(self)@ == old(self)@,
            old(self)@.len() > 0 ==> r == Some(old(self)@[0]) && final(self)@ == old(
                self,
            )@.drop_first(),
    {
        if self.ring.len() == 0 {
            None
        } else {
            let e = self.ring.remove(0);
            assert(self.ring@ =~= old(self)@.drop_first());
            Some(e)
        }
    }
}

/// The driver state as the contracts see it.
#[verifier::ext_equal]
pub struct GpuModel {
    pub ready: bool,
    pub features: u64,
    /// In-flight entries of each queue, oldest first, indexed by queue number.
    pub queues: Seq<Seq<QueueEntry>>,
    /// Every job issued so far: the job with id `i` is `jobs[i - 1]`.
    /// Jobs are never dropped, so every issued id stays known.
    pub jobs: Seq<JobRecord>,
}

pub open spec fn outcome_state(failure: Option<u32>) -> JobState {
    match failure {
        Some(reason) => JobState::Failed(reason),
        None => JobState::Completed,
    }
}

impl GpuModel {
    /// Every in-flight entry names an issued job that belongs to its queue and
    /// is still `Submitted`; within a queue, ids increase from oldest to
    /// newest, so each id stands in one slot only.
    pub open spec fn wf(self) -> bool {
        &&& self.queues.len() == NUM_QUEUES
        &&& self.jobs.len() < usize::MAX
        &&& forall|q: int| 0 <= q < NUM_QUEUES ==> #[trigger] self.queues[q].len() <= QUEUE_CAPACITY
        &&& forall|q: int, k: int|
            0 <= q < NUM_QUEUES && 0 <= k < self.queues[q].len() ==> self.entry_ok(
                q,
                #[trigger] self.queues[q][k],
            )
        &&& forall|q: int, k: int, l: int|
            0 <= q < NUM_QUEUES && 0 <= k < l < self.queues[q].len() ==> (
            #[trigger] self.queues[q][k]).job_id < (#[trigger] self.queues[q][l]).job_id
    }

    pub open spec fn entry_ok(self, q: int, e: QueueEntry) -> bool {
        &&& 1 <= e.job_id <= self.jobs.len()
        &&& self.jobs[e.job_id - 1].queue == q
        &&& self.jobs[e.job_id - 1].state == JobState::Submitted
    }

    /// Whether `id` names a job issued on this device.
    pub open spec fn issued(self, id: usize) -> bool {
        1 <= id <= self.jobs.len()
    }

    pub open spec fn submit_result(self, cmd: GpuCmd, q: usize) -> Result<usize, GpuError> {
        if !self.ready {
            Err(GpuError::NotInitialized)
        } else if q >= NUM_QUEUES {
            Err(GpuError::InvalidQueue)
        } else if self.queues[q as int].len() >= QUEUE_CAPACITY || self.jobs.len() + 1
            >= usize::MAX {
            Err(GpuError::QueueFull)
        } else {
            Ok((self.jobs.len() + 1) as usize)
        }
    }

    pub open spec fn submit_state(self, cmd: GpuCmd, q: usize) -> GpuModel {
        match self.submit_result(cmd, q) {
            Ok(id) => GpuModel {
                queues: self.queues.update(
                    q as int,
                    self.queues[q as int].push(QueueEntry { job_id: id, code: cmd_code(cmd) }),
                ),
                jobs: self.jobs.push(JobRecord { queue: q, cmd, state: JobState::Submitted }),
                ..self
            },
            Err(_) => self,
        }
    }

    pub open spec fn job_status(self, id: usize) -> Result<JobState, GpuError> {
        if self.issued(id) {
            Ok(self.jobs[id - 1].state)
        } else {
            Err(GpuError::UnknownJob)
        }
    }

    /// The device reports that the oldest entry of queue `q` is done; `failure`
    /// carries the reason when it failed.
    pub open spec fn completion_result(self, q: usize) -> Result<usize, GpuError> {
        if q >= NUM_QUEUES {
            Err(GpuError::InvalidQueue)
        } else if self.queues[q as int].len() == 0 {
            Err(GpuError::UnknownJob)
        } else {
            Ok(self.queues[q as int][0].job_id)
        }
    }

    pub open spec fn completion_state(self, q: usize, failure: Option<u32>) -> GpuModel {
        match self.completion_result(q) {
            Ok(id) => GpuModel {
                queues: self.queues.update(q as int, self.queues[q as int].drop_first()),
                jobs: self.jobs.update(
                    id - 1,
                    JobRecord { state: outcome_state(failure), ..self.jobs[id - 1] },
                ),
                ..self
            },
            Err(_) => self,
        }
    }

    /// Readiness is reached once; later calls change nothing.
    pub open spec fn mark_ready_state(self, advertised: u64) -> GpuModel {
        if self.ready {
            self
        } else {
            GpuModel { ready: true, features: advertised & SUPPORTED_FEATURES, ..self }
        }
    }

    pub open spec fn render_result(self, len: nat, tag: u32) -> Result<usize, GpuError> {
        if len > MAX_BUFFER_SIZE {
            Err(GpuError::BufferTooLarge)
        } else if !self.ready {
            Err(GpuError::NotInitialized)
        } else {
            match cmd_of_tag(tag) {
                None => Err(GpuError::UnsupportedCommand),
                Some(cmd) => if !gate_allows(cmd) {
                    Err(GpuError::UnsupportedCommand)
                } else if needs_payload(cmd) && len == 0 {
                    Err(GpuError::UnsupportedCommand)
                } else {
                    self.submit_result(cmd, gate_queue(cmd))
                },
            }
        }
    }

    pub open spec fn render_state(self, len: nat, tag: u32) -> GpuModel {
        if len > MAX_BUFFER_SIZE || !self.ready {
            self
        } else {
            match cmd_of_tag(tag) {
                None => self,
                Some(cmd) => if !gate_allows(cmd) || (needs_payload(cmd) && len == 0) {
                    self
                } else {
                    self.submit_state(cmd, gate_queue(cmd))
                },
            }
        }
    }
}

/// The driver: three command queues (control, cursor, display), the
/// negotiated features, the readiness flag and the table of issued jobs.
/// Each queue is reached only through `&mut self`, so one submission at a
/// time holds a queue; callers sharing a driver put it behind a lock.
pub struct VirtGpuDriver {
    control: VirtQueue,
    cursor: VirtQueue,
    display: VirtQueue,
    features: VirtGpuFeatures,
    initialized: bool,
    jobs: Vec<JobRecord>,
}

impl View for VirtGpuDriver {
    type V = GpuModel;

    closed spec fn view(&self) -> GpuModel {
        GpuModel {
            ready: self.initialized,
            features: self.features@,
            queues: seq![self.control@, self.cursor@, self.display@],
            jobs: self.jobs@,
        }
    }
}

impl VirtGpuDriver {
    pub closed spec fn wf(&self) -> bool {
        &&& self@.wf()
        &&& self.control.spec_index() == CONTROL_QUEUE
        &&& self.cursor.spec_index() == CURSOR_QUEUE
        &&& self.display.spec_index() == DISPLAY_QUEUE
    }

    /// The driver's invariant includes that of its model.
    pub proof fn lemma_wf_model(&self)
        requires
            self.wf(),
        ensures
            self@.wf(),
    {
    }

    /// A driver with empty queues, no features and not yet ready.
    pub fn init() -> (r: Self)
        ensures
            r.wf(),
            r@ == (GpuModel {
                ready: false,
                features: 0,
                queues: seq![Seq::empty(), Seq::empty(), Seq::empty()],
                jobs: Seq::empty(),
            }),
    {
        let r = VirtGpuDriver {
            control: VirtQueue::new(CONTROL_QUEUE),
            cursor: VirtQueue::new(CURSOR_QUEUE),
            display: VirtQueue::new(DISPLAY_QUEUE),
            features: VirtGpuFeatures::empty(),
            initialized: false,
            jobs: Vec::new(),
        };
        assert(r@ =~= (GpuModel {
            ready: false,
            features: 0,
            queues: seq![Seq::empty(), Seq::empty(), Seq::empty()],
            jobs: Seq::empty(),
        }));
        r
    }

    /// Whether `device` is a paravirtualized GPU this driver handles.
    pub fn probe(device: &DeviceIdentity) -> (r: bool)
        ensures
            r == (device.vendor_id == VIRTIO_GPU_VENDOR_ID && device.device_id
                == VIRTIO_GPU_DEVICE_ID),
    {
        device.vendor_id == VIRTIO_GPU_VENDOR_ID && device.device_id == VIRTIO_GPU_DEVICE_ID
    }

    /// Ends negotiation: keeps the advertised features this driver supports
    /// and makes the device ready. A second call changes nothing.
    pub fn mark_ready(&mut self, advertised: VirtGpuFeatures)
        requires
            old(self).wf(),
        ensures
            final(self).wf(),
            final(self)@ == old(self)@.mark_ready_state(advertised@),
    {
        if !self.initialized {
            self.features = VirtGpuFeatures::from_bits_truncate(advertised.bits());
            self.initialized = true;
        }
        assert(self@ =~= old(self)@.mark_ready_state(advertised@));
    }

    pub fn is_ready(&self) -> (r: bool)
        ensures
            r == self@.ready,
    {
        self.initialized
    }

    pub fn features(&self) -> (r: VirtGpuFeatures)
        ensures
            r@ == self@.features,
    {
        self.features
    }

    /// Number of in-flight entries on queue `queue_idx`, or `None` for an
    /// index that names no queue.
    pub fn queue_len(&self, queue_idx: usize) -> (r: Option<usize>)
        ensures
            queue_idx < NUM_QUEUES ==> r == Some(self@.queues[queue_idx as int].len() as usize),
            queue_idx >= NUM_QUEUES ==> r == None::<usize>,
    {
        if queue_idx == CONTROL_QUEUE {
            Some(self.control.len())
        } else if queue_idx == CURSOR_QUEUE {
            Some(self.cursor.len())
        } else if queue_idx == DISPLAY_QUEUE {
            Some(self.display.len())
        } else {
            None
        }
    }

    /// Places `cmd` on queue `queue_idx` and issues it a fresh job id, one
    /// greater than the last id issued. Fails, changing nothing, when the
    /// device is not ready, the index names no queue, or the queue is full
    /// (`QueueFull` also covers the exhaustion of the id space).
    pub fn submit_cmd(&mut self, cmd: GpuCmd, queue_idx: usize) -> (r: Result<usize, GpuError>)
        requires
            old(self).wf(),
        ensures
            final(self).wf(),
            r == old(self)@.submit_result(cmd, queue_idx),
            final(self)@ == old(self)@.submit_state(cmd, queue_idx),
    {
        if !self.initialized {
            return Err(GpuError::NotInitialized);
        }
        if queue_idx >= NUM_QUEUES {
            return Err(GpuError::InvalidQueue);
        }
        if self.jobs.len() >= usize::MAX - 1 {
            return Err(GpuError::QueueFull);
        }
        let id: usize = self.jobs.len() + 1;
        let entry = QueueEntry { job_id: id, code: cmd.code() };
        let placed = if queue_idx == CONTROL_QUEUE {
            self.control.enqueue(entry)
        } else if queue_idx == CURSOR_QUEUE {
            self.cursor.enqueue(entry)
        } else {
            self.display.enqueue(entry)
        };
        match placed {
            Err(e) => Err(e),
            Ok(()) => {
                self.jobs.push(JobRecord { queue: queue_idx, cmd, state: JobState::Submitted });
                proof {
                    let m = old(self)@;
                    let n = self@;
                    assert(n.queues =~= m.submit_state(cmd, queue_idx).queues);
                    assert(n =~= m.submit_state(cmd, queue_idx));
                    assert forall|q: int, k: int|
                        0 <= q < NUM_QUEUES && 0 <= k < n.queues[q].len() implies 1 <= (
                        #[trigger] n.queues[q][k]).job_id <= n.jobs.len() by {
                        if q != queue_idx as int || k < m.queues[q].len() {
                            assert(n.queues[q][k] == m.queues[q][k]);
                        }
                    }
                }
                Ok(id)
            },
        }
    }

    /// The state of job `job_id`; `UnknownJob` when this driver never issued it.
    pub fn status(&self, job_id: usize) -> (r: Result<JobState, GpuError>)
        ensures
            r == self@.job_status(job_id),
    {
        if job_id >= 1 && job_id <= self.jobs.len() {
            Ok(self.jobs[job_id - 1].state)
        } else {
            Err(GpuError::UnknownJob)
        }
    }

    /// Records the device's completion of the oldest in-flight entry of queue
    /// `queue_idx`: its job becomes `Completed`, or `Failed` with the reason
    /// in `failure`. Returns the job's id.
    pub fn on_completion(&mut self, queue_idx: usize, failure: Option<u32>) -> (r: Result<
        usize,
        GpuError,
    >)
        requires
            old(self).wf(),
        ensures
            final(self).wf(),
            r == old(self)@.completion_result(queue_idx),
            final(self)@ == old(self)@.completion_state(queue_idx, failure),
    {
        if queue_idx >= NUM_QUEUES {
            return Err(GpuError::InvalidQueue);
        }
        proof {
            let m = self@;
            if m.queues[queue_idx as int].len() > 0 {
                assert(1 <= m.queues[queue_idx as int][0].job_id <= m.jobs.len());
            }
        }
        let taken = if queue_idx == CONTROL_QUEUE {
            self.control.take_completed()
        } else if queue_idx == CURSOR_QUEUE {
            self.cursor.take_completed()
        } else {
            self.display.take_completed()
        };
        match taken {
            None => {
                assert(self@ =~= old(self)@);
                Err(GpuError::UnknownJob)
            },
            Some(entry) => {
                let id = entry.job_id;
                let record = self.jobs[id - 1];
                let state = match failure {
                    Some(reason) => JobState::Failed(reason),
                    None => JobState::Completed,
                };
                self.jobs.set(id - 1, JobRecord { state, ..record });
                proof {
                    let m = old(self)@;
                    let n = self@;
                    assert(n.queues =~= m.completion_state(queue_idx, failure).queues);
                    assert(n =~= m.completion_state(queue_idx, failure));
                    assert forall|q: int, k: int|
                        0 <= q < NUM_QUEUES && 0 <= k < n.queues[q].len() implies 1 <= (
                        #[trigger] n.queues[q][k]).job_id <= n.jobs.len() by {
                        if q == queue_idx as int {
                            assert(n.queues[q][k] == m.queues[q][k + 1]);
                        } else {
                            assert(n.queues[q][k] == m.queues[q][k]);
                        }
                    }
                }
                Ok(id)
            },
        }
    }
}

/// The entry point for callers outside the trusted driver-management code:
/// buffers are bounded and commands checked before anything is submitted.
pub trait SafeGpu: Sized {
    /// The invariant `render_safe` relies on and preserves.
    spec fn gate_inv(&self) -> bool;

    /// What `render_safe` does: `self` before the call, `after` the state
    /// after it, `r` its result.
    spec fn gate_outcome(
        &self,
        after: Self,
        buffer: Seq<u8>,
        cmd: u32,
        r: Result<usize, GpuError>,
    ) -> bool;

    fn render_safe(&mut self, buffer: &[u8], cmd: u32) -> (r: Result<usize, GpuError>)
        requires
            old(self).gate_inv(),
        ensures
            final(self).gate_inv(),
            old(self).gate_outcome(*final(self), buffer@, cmd, r),
    ;
}

impl SafeGpu for VirtGpuDriver {
    open spec fn gate_inv(&self) -> bool {
        self.wf()
    }

    open spec fn gate_outcome(
        &self,
        after: Self,
        buffer: Seq<u8>,
        cmd: u32,
        r: Result<usize, GpuError>,
    ) -> bool {
        &&& r == self@.render_result(buffer.len(), cmd)
        &&& after@ == self@.render_state(buffer.len(), cmd)
    }

    /// Rejects a buffer over `MAX_BUFFER_SIZE` before anything else, then a
    /// device that is not ready, a tag that names no command or a command the
    /// gate does not accept, and an empty buffer for a command with payload;
    /// otherwise submits the command to the queue `gate_queue` picks for it.
    fn render_safe(&mut self, buffer: &[u8], cmd: u32) -> (r: Result<usize, GpuError>) {
        if buffer.len() > MAX_BUFFER_SIZE {
            return Err(GpuError::BufferTooLarge);
        }
        if !self.initialized {
            return Err(GpuError::NotInitialized);
        }
        let command = match GpuCmd::from_tag(cmd) {
            Some(c) => c,
            None => {
                return Err(GpuError::UnsupportedCommand);
            },
        };
        if !command.allowed_through_gate() {
            return Err(GpuError::UnsupportedCommand);
        }
        if command.carries_payload() && buffer.len() == 0 {
            return Err(GpuError::UnsupportedCommand);
        }
        self.submit_cmd(command, command.gate_queue())
    }
}

} // verus!
