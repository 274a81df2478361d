//! The resident session of the Qwen3.5 Q4 module: its resources, its requests
//! and what it makes of the replies.
//!
//! Opening a session is a fixed sequence of stages. After each the host says
//! what came of it; where one fails, or when the session is given up, what was
//! done so far is undone.

use vstd::prelude::*;
use vstd::string::StringExecFns;

use crate::bytes::{
    as_signed, as_word, law_words_are_read_back, le_u32, read_i32, read_u32, with_words, word,
    write_words,
};
use crate::hexagon::qwen35::export::Qwen35Q4WeightLayout;
use crate::hexagon::qwen35::{
    CONTROL_CACHE_LEN_OFFSET, CONTROL_FLAGS_OFFSET, CONTROL_GENERATED_CAPACITY_OFFSET,
    CONTROL_GENERATED_COUNT_OFFSET, CONTROL_LAYOUT_VERSION_OFFSET, CONTROL_MAGIC_OFFSET,
    CONTROL_POISONED_OFFSET, CONTROL_POSITION_OFFSET, MAX_DECODE_CONTEXT, MAX_PREFILL_TOKENS,
    OP_COMPUTE, OP_MMAP, OP_MMAP_HMX, OP_MMAP_RUNTIME, OP_MUNMAP, OP_MUNMAP_HMX,
    OP_MUNMAP_RUNTIME, OP_QWEN_DECODE_BIND, OP_QWEN_FULL_DECODE_STEP, OP_QWEN_FULL_PREFILL,
    OP_STOP, QWEN_REQUEST_BYTES, QWEN_RESPONSE_BYTES, QWEN_RUNTIME_BYTES,
    QWEN_RUNTIME_LAYOUT_VERSION, QWEN_RUNTIME_MAGIC,
};
use crate::text::{decimal_text, push_decimal, signed_decimal, signed_decimal_text};

verus! {

/// A buffer that is mapped into the DSP.
#[derive(Clone, Copy, PartialEq, Eq, Structural, Debug)]
pub enum Store {
    Base,
    Hmx,
    Runtime,
}

/// A buffer of the session.
#[derive(Clone, Copy, PartialEq, Eq, Structural, Debug)]
pub enum SessionBuffer {
    Base,
    Hmx,
    Runtime,
    Request,
    Response,
}

/// A token and the bits of its single-precision logit.
#[derive(Clone, Copy, PartialEq, Eq, Structural, Debug)]
pub struct Qwen35Token {
    pub id: u32,
    pub logit_bits: u32,
}

/// What a session holds and how far its generation has come.
#[derive(Clone, Copy, PartialEq, Eq, Structural, Debug)]
pub struct Qwen35Session {
    pub layout: Qwen35Q4WeightLayout,
    pub base_allocated: bool,
    pub hmx_allocated: bool,
    pub runtime_allocated: bool,
    pub request_allocated: bool,
    pub response_allocated: bool,
    pub base_host_mapped: bool,
    pub base_dsp_mapped: bool,
    pub hmx_host_mapped: bool,
    pub hmx_dsp_mapped: bool,
    pub runtime_host_mapped: bool,
    pub runtime_dsp_mapped: bool,
    pub bound: bool,
    pub position: usize,
    pub cache_len: usize,
    pub generated_count: usize,
}

impl Store {
    /// The buffer that is mapped.
    pub open spec fn buffer(self) -> SessionBuffer {
        match self {
            Store::Base => SessionBuffer::Base,
            Store::Hmx => SessionBuffer::Hmx,
            Store::Runtime => SessionBuffer::Runtime,
        }
    }

    /// The method that maps the buffer into the DSP.
    pub open spec fn map_method(self) -> u32 {
        match self {
            Store::Base => OP_MMAP,
            Store::Hmx => OP_MMAP_HMX,
            Store::Runtime => OP_MMAP_RUNTIME,
        }
    }

    /// The method that takes the buffer out of the DSP again.
    pub open spec fn unmap_method(self) -> u32 {
        match self {
            Store::Base => OP_MUNMAP,
            Store::Hmx => OP_MUNMAP_HMX,
            Store::Runtime => OP_MUNMAP_RUNTIME,
        }
    }
}

impl Qwen35Session {
    /// Whether a buffer is allocated.
    pub open spec fn allocated(self, buffer: SessionBuffer) -> bool {
        match buffer {
            SessionBuffer::Base => self.base_allocated,
            SessionBuffer::Hmx => self.hmx_allocated,
            SessionBuffer::Runtime => self.runtime_allocated,
            SessionBuffer::Request => self.request_allocated,
            SessionBuffer::Response => self.response_allocated,
        }
    }

    /// Whether a buffer is mapped on the host.
    pub open spec fn host_mapped(self, store: Store) -> bool {
        match store {
            Store::Base => self.base_host_mapped,
            Store::Hmx => self.hmx_host_mapped,
            Store::Runtime => self.runtime_host_mapped,
        }
    }

    /// Whether a buffer is mapped into the DSP.
    pub open spec fn dsp_mapped(self, store: Store) -> bool {
        match store {
            Store::Base => self.base_dsp_mapped,
            Store::Hmx => self.hmx_dsp_mapped,
            Store::Runtime => self.runtime_dsp_mapped,
        }
    }

    /// The size of a buffer.
    pub open spec fn buffer_bytes(self, buffer: SessionBuffer) -> usize {
        match buffer {
            SessionBuffer::Base => self.layout.base_bytes,
            SessionBuffer::Hmx => self.layout.hmx_bytes,
            SessionBuffer::Runtime => QWEN_RUNTIME_BYTES,
            SessionBuffer::Request => QWEN_REQUEST_BYTES,
            SessionBuffer::Response => QWEN_RESPONSE_BYTES,
        }
    }

    /// Only allocated buffers are mapped, on the host before the DSP; only a
    /// fully mapped session is bound. The generation is at the end of its cache,
    /// within the context, and has not more tokens than the cache.
    pub open spec fn wf(self) -> bool {
        &&& forall|store: Store| #[trigger] self.host_mapped(store) ==> self.allocated(store.buffer())
        &&& forall|store: Store| #[trigger] self.dsp_mapped(store) ==> self.host_mapped(store)
        &&& self.bound ==> self.request_allocated && self.response_allocated && forall|store: Store|
            #[trigger] self.dsp_mapped(store)
        &&& self.position == self.cache_len
        &&& self.generated_count <= self.cache_len <= MAX_DECODE_CONTEXT
    }
}

/// A stage of opening a session.
#[derive(Clone, Copy, PartialEq, Eq, Structural, Debug)]
pub enum SessionStage {
    /// The FastRPC session is opened.
    Connect,
    /// A buffer is allocated.
    Allocate(SessionBuffer),
    /// The base weights are read from the file.
    LoadBase,
    /// The sidecar is read from the file.
    LoadHmx,
    /// The runtime buffer is cleared and its control block written.
    InitializeRuntime,
    /// A buffer is mapped on the host.
    MapHost(Store),
    /// The number of a mapped buffer is looked up.
    FindNumber(Store),
    /// The buffer with this number is mapped into the DSP.
    MapDsp(Store, u32),
    /// The module is bound to the runtime buffer.
    Bind,
}

/// What is done in a stage.
#[derive(Clone, Copy, PartialEq, Eq, Structural, Debug)]
pub enum SessionAction {
    /// Load the FastRPC library and open the module.
    Connect,
    /// Allocate a buffer of this size.
    Allocate { buffer: SessionBuffer, bytes: usize },
    /// Fill a buffer from this position of the weights file.
    Load { buffer: SessionBuffer, offset: usize },
    /// Fill the runtime buffer as [`initialize_runtime`] does.
    InitializeRuntime,
    /// Map a buffer on the host.
    MapHost(Store),
    /// Look up the number of a mapped buffer.
    FindNumber(Store),
    /// Call a method with a buffer's number and size.
    MapDsp { method: u32, number: u32, bytes: u32 },
    /// Make the call that [`bind_request`] prepares.
    Bind,
}

/// What came of a stage.
pub enum SessionEvent {
    /// It is done.
    Done,
    /// The number of a mapped buffer.
    Number(i32),
    /// The reply to the bind request.
    Reply(Vec<u8>),
    /// It failed.
    Failed(String),
}

/// What came of a stage, as a value.
#[verifier::ext_equal]
pub enum SessionEventView {
    Done,
    Number(i32),
    Reply(Seq<u8>),
    Failed(Seq<char>),
}

impl View for SessionEvent {
    type V = SessionEventView;

    open spec fn view(&self) -> SessionEventView {
        match self {
            SessionEvent::Done => SessionEventView::Done,
            SessionEvent::Number(number) => SessionEventView::Number(*number),
            SessionEvent::Reply(bytes) => SessionEventView::Reply(bytes@),
            SessionEvent::Failed(error) => SessionEventView::Failed(error@),
        }
    }
}

/// What comes next.
pub enum SessionProgress {
    Next(SessionStage),
    Ready,
    Failed(String),
}

/// What comes next, as a value.
#[verifier::ext_equal]
pub enum SessionProgressView {
    Next(SessionStage),
    Ready,
    Failed(Seq<char>),
}

impl View for SessionProgress {
    type V = SessionProgressView;

    open spec fn view(&self) -> SessionProgressView {
        match self {
            SessionProgress::Next(stage) => SessionProgressView::Next(*stage),
            SessionProgress::Ready => SessionProgressView::Ready,
            SessionProgress::Failed(error) => SessionProgressView::Failed(error@),
        }
    }
}

impl SessionStage {
    /// Whether an event is what can come of the stage.
    pub open spec fn answered_by(self, event: SessionEventView) -> bool {
        match event {
            SessionEventView::Failed(_) => true,
            SessionEventView::Number(number) => self is FindNumber && number >= 0,
            SessionEventView::Reply(bytes) => self is Bind && bytes.len() >= 4,
            SessionEventView::Done => !(self is FindNumber) && !(self is Bind),
        }
    }

    /// What has been done when a session comes to the stage, and nothing more.
    pub open spec fn reached_by(self, session: Qwen35Session) -> bool {
        let allocated = match self {
            SessionStage::Connect | SessionStage::Allocate(SessionBuffer::Base) => 0int,
            SessionStage::Allocate(SessionBuffer::Hmx) => 1,
            SessionStage::Allocate(SessionBuffer::Runtime) => 2,
            SessionStage::Allocate(SessionBuffer::Request) => 3,
            SessionStage::Allocate(SessionBuffer::Response) => 4,
            _ => 5,
        };
        let mapped = match self {
            SessionStage::FindNumber(Store::Base) | SessionStage::MapDsp(Store::Base, _) => 1int,
            SessionStage::MapHost(Store::Hmx) => 2,
            SessionStage::FindNumber(Store::Hmx) | SessionStage::MapDsp(Store::Hmx, _) => 3,
            SessionStage::MapHost(Store::Runtime) => 4,
            SessionStage::FindNumber(Store::Runtime) | SessionStage::MapDsp(Store::Runtime, _) => 5,
            SessionStage::Bind => 6,
            _ => 0,
        };
        &&& session.base_allocated == (allocated > 0)
        &&& session.hmx_allocated == (allocated > 1)
        &&& session.runtime_allocated == (allocated > 2)
        &&& session.request_allocated == (allocated > 3)
        &&& session.response_allocated == (allocated > 4)
        &&& session.base_host_mapped == (mapped > 0)
        &&& session.base_dsp_mapped == (mapped > 1)
        &&& session.hmx_host_mapped == (mapped > 2)
        &&& session.hmx_dsp_mapped == (mapped > 3)
        &&& session.runtime_host_mapped == (mapped > 4)
        &&& session.runtime_dsp_mapped == (mapped > 5)
        &&& !session.bound
        &&& session.position == 0
        &&& session.cache_len == 0
        &&& session.generated_count == 0
    }
}

impl SessionStage {
    /// The place of the stage in the sequence.
    pub open spec fn place(self) -> int {
        match self {
            SessionStage::Connect => 0,
            SessionStage::Allocate(SessionBuffer::Base) => 1,
            SessionStage::Allocate(SessionBuffer::Hmx) => 2,
            SessionStage::Allocate(SessionBuffer::Runtime) => 3,
            SessionStage::Allocate(SessionBuffer::Request) => 4,
            SessionStage::Allocate(SessionBuffer::Response) => 5,
            SessionStage::LoadBase => 6,
            SessionStage::LoadHmx => 7,
            SessionStage::InitializeRuntime => 8,
            SessionStage::MapHost(Store::Base) => 9,
            SessionStage::FindNumber(Store::Base) => 10,
            SessionStage::MapDsp(Store::Base, _) => 11,
            SessionStage::MapHost(Store::Hmx) => 12,
            SessionStage::FindNumber(Store::Hmx) => 13,
            SessionStage::MapDsp(Store::Hmx, _) => 14,
            SessionStage::MapHost(Store::Runtime) => 15,
            SessionStage::FindNumber(Store::Runtime) => 16,
            SessionStage::MapDsp(Store::Runtime, _) => 17,
            SessionStage::Bind => 18,
        }
    }

    /// The stage after one that is done.
    pub open spec fn following(self) -> SessionStage {
        match self {
            SessionStage::Connect => SessionStage::Allocate(SessionBuffer::Base),
            SessionStage::Allocate(SessionBuffer::Base) => SessionStage::Allocate(
                SessionBuffer::Hmx,
            ),
            SessionStage::Allocate(SessionBuffer::Hmx) => SessionStage::Allocate(
                SessionBuffer::Runtime,
            ),
            SessionStage::Allocate(SessionBuffer::Runtime) => SessionStage::Allocate(
                SessionBuffer::Request,
            ),
            SessionStage::Allocate(SessionBuffer::Request) => SessionStage::Allocate(
                SessionBuffer::Response,
            ),
            SessionStage::Allocate(SessionBuffer::Response) => SessionStage::LoadBase,
            SessionStage::LoadBase => SessionStage::LoadHmx,
            SessionStage::LoadHmx => SessionStage::InitializeRuntime,
            SessionStage::InitializeRuntime => SessionStage::MapHost(Store::Base),
            SessionStage::MapHost(store) => SessionStage::FindNumber(store),
            SessionStage::MapDsp(Store::Base, _) => SessionStage::MapHost(Store::Hmx),
            SessionStage::MapDsp(Store::Hmx, _) => SessionStage::MapHost(Store::Runtime),
            SessionStage::MapDsp(Store::Runtime, _) => SessionStage::Bind,
            SessionStage::FindNumber(_) | SessionStage::Bind => self,
        }
    }

    /// The stage after one that is done.
    pub fn next(self) -> (r: SessionStage)
        ensures
            r == self.following(),
    {
        match self {
            SessionStage::Connect => SessionStage::Allocate(SessionBuffer::Base),
            SessionStage::Allocate(SessionBuffer::Base) => SessionStage::Allocate(
                SessionBuffer::Hmx,
            ),
            SessionStage::Allocate(SessionBuffer::Hmx) => SessionStage::Allocate(
                SessionBuffer::Runtime,
            ),
            SessionStage::Allocate(SessionBuffer::Runtime) => SessionStage::Allocate(
                SessionBuffer::Request,
            ),
            SessionStage::Allocate(SessionBuffer::Request) => SessionStage::Allocate(
                SessionBuffer::Response,
            ),
            SessionStage::Allocate(SessionBuffer::Response) => SessionStage::LoadBase,
            SessionStage::LoadBase => SessionStage::LoadHmx,
            SessionStage::LoadHmx => SessionStage::InitializeRuntime,
            SessionStage::InitializeRuntime => SessionStage::MapHost(Store::Base),
            SessionStage::MapHost(store) => SessionStage::FindNumber(store),
            SessionStage::MapDsp(Store::Base, _) => SessionStage::MapHost(Store::Hmx),
            SessionStage::MapDsp(Store::Hmx, _) => SessionStage::MapHost(Store::Runtime),
            SessionStage::MapDsp(Store::Runtime, _) => SessionStage::Bind,
            SessionStage::FindNumber(_) | SessionStage::Bind => self,
        }
    }
}

/// What is wrong with mapping a buffer of this size, if anything: the size is
/// handed over in 32 bits.
pub open spec fn mapping_error(store: Store, bytes: usize) -> Option<Seq<char>> {
    if bytes <= u32::MAX {
        None
    } else if store is Runtime {
        Some("Qwen runtime buffer exceeds the FastRPC u32 size ABI"@)
    } else {
        Some("Qwen resident mapping exceeds the FastRPC u32 size ABI"@)
    }
}

/// What a wrong acknowledgement is reported as.
pub open spec fn bind_error(ack: u32) -> Seq<char> {
    "Qwen runtime bind returned layout ack "@ + decimal_text(ack as nat)
}

impl Qwen35Session {
    /// The session once a stage is done.
    pub open spec fn marked(self, stage: SessionStage) -> Qwen35Session {
        match stage {
            SessionStage::Allocate(SessionBuffer::Base) => Qwen35Session {
                base_allocated: true,
                ..self
            },
            SessionStage::Allocate(SessionBuffer::Hmx) => Qwen35Session {
                hmx_allocated: true,
                ..self
            },
            SessionStage::Allocate(SessionBuffer::Runtime) => Qwen35Session {
                runtime_allocated: true,
                ..self
            },
            SessionStage::Allocate(SessionBuffer::Request) => Qwen35Session {
                request_allocated: true,
                ..self
            },
            SessionStage::Allocate(SessionBuffer::Response) => Qwen35Session {
                response_allocated: true,
                ..self
            },
            SessionStage::MapHost(Store::Base) => Qwen35Session { base_host_mapped: true, ..self },
            SessionStage::MapHost(Store::Hmx) => Qwen35Session { hmx_host_mapped: true, ..self },
            SessionStage::MapHost(Store::Runtime) => Qwen35Session {
                runtime_host_mapped: true,
                ..self
            },
            SessionStage::MapDsp(Store::Base, _) => Qwen35Session { base_dsp_mapped: true, ..self },
            SessionStage::MapDsp(Store::Hmx, _) => Qwen35Session { hmx_dsp_mapped: true, ..self },
            SessionStage::MapDsp(Store::Runtime, _) => Qwen35Session {
                runtime_dsp_mapped: true,
                ..self
            },
            SessionStage::Bind => Qwen35Session { bound: true, ..self },
            _ => self,
        }
    }

    /// Whether a stage is done with an event.
    pub open spec fn completes(event: SessionEventView) -> bool {
        match event {
            SessionEventView::Done => true,
            SessionEventView::Reply(bytes) => le_u32(bytes, 0) == QWEN_RUNTIME_LAYOUT_VERSION,
            _ => false,
        }
    }

    /// The session after an event.
    pub open spec fn after(self, stage: SessionStage, event: SessionEventView) -> Qwen35Session {
        if Self::completes(event) {
            self.marked(stage)
        } else {
            self
        }
    }

    /// What comes next after an event.
    pub open spec fn progress(
        self,
        stage: SessionStage,
        event: SessionEventView,
    ) -> SessionProgressView {
        match event {
            SessionEventView::Failed(error) => SessionProgressView::Failed(error),
            SessionEventView::Number(number) => match stage {
                SessionStage::FindNumber(store) => match mapping_error(
                    store,
                    self.buffer_bytes(store.buffer()),
                ) {
                    Some(error) => SessionProgressView::Failed(error),
                    None => SessionProgressView::Next(SessionStage::MapDsp(store, number as u32)),
                },
                _ => SessionProgressView::Next(stage),
            },
            SessionEventView::Reply(bytes) => if Self::completes(event) {
                SessionProgressView::Ready
            } else {
                SessionProgressView::Failed(bind_error(le_u32(bytes, 0)))
            },
            SessionEventView::Done => SessionProgressView::Next(stage.following()),
        }
    }

    /// What is done in a stage.
    pub open spec fn action(self, stage: SessionStage) -> SessionAction {
        match stage {
            SessionStage::Connect => SessionAction::Connect,
            SessionStage::Allocate(buffer) => SessionAction::Allocate {
                buffer,
                bytes: self.buffer_bytes(buffer),
            },
            SessionStage::LoadBase => SessionAction::Load {
                buffer: SessionBuffer::Base,
                offset: self.layout.data_start,
            },
            SessionStage::LoadHmx => SessionAction::Load {
                buffer: SessionBuffer::Hmx,
                offset: self.layout.sidecar_offset,
            },
            SessionStage::InitializeRuntime => SessionAction::InitializeRuntime,
            SessionStage::MapHost(store) => SessionAction::MapHost(store),
            SessionStage::FindNumber(store) => SessionAction::FindNumber(store),
            SessionStage::MapDsp(store, number) => SessionAction::MapDsp {
                method: store.map_method(),
                number,
                bytes: self.buffer_bytes(store.buffer()) as u32,
            },
            SessionStage::Bind => SessionAction::Bind,
        }
    }
}

impl Qwen35Session {
    /// A session with nothing done for what the validation of the export gave,
    /// and its first stage. For a refused export there is no session and no
    /// stage: nothing is loaded, allocated, mapped or sent.
    pub fn open(validated: Result<Qwen35Q4WeightLayout, String>) -> (r: Result<
        (Self, SessionStage),
        String,
    >)
        ensures
            match validated {
                Ok(layout) => {
                    &&& r matches Ok((session, stage))
                    &&& session.layout == layout
                    &&& session.wf()
                    &&& stage == SessionStage::Connect
                    &&& stage.reached_by(session)
                },
                Err(error) => r matches Err(refused) && refused@ == error@,
            },
    {
        let layout = match validated {
            Ok(layout) => layout,
            Err(error) => return Err(error),
        };
        let session = Qwen35Session {
            layout,
            base_allocated: false,
            hmx_allocated: false,
            runtime_allocated: false,
            request_allocated: false,
            response_allocated: false,
            base_host_mapped: false,
            base_dsp_mapped: false,
            hmx_host_mapped: false,
            hmx_dsp_mapped: false,
            runtime_host_mapped: false,
            runtime_dsp_mapped: false,
            bound: false,
            position: 0,
            cache_len: 0,
            generated_count: 0,
        };
        Ok((session, SessionStage::Connect))
    }

    fn bytes_of(&self, buffer: SessionBuffer) -> (r: usize)
        ensures
            r == self.buffer_bytes(buffer),
    {
        match buffer {
            SessionBuffer::Base => self.layout.base_bytes,
            SessionBuffer::Hmx => self.layout.hmx_bytes,
            SessionBuffer::Runtime => QWEN_RUNTIME_BYTES,
            SessionBuffer::Request => QWEN_REQUEST_BYTES,
            SessionBuffer::Response => QWEN_RESPONSE_BYTES,
        }
    }

    /// What is done in a stage.
    pub fn stage_action(&self, stage: SessionStage) -> (r: SessionAction)
        ensures
            r == self.action(stage),
    {
        match stage {
            SessionStage::Connect => SessionAction::Connect,
            SessionStage::Allocate(buffer) => SessionAction::Allocate {
                buffer,
                bytes: self.bytes_of(buffer),
            },
            SessionStage::LoadBase => SessionAction::Load {
                buffer: SessionBuffer::Base,
                offset: self.layout.data_start,
            },
            SessionStage::LoadHmx => SessionAction::Load {
                buffer: SessionBuffer::Hmx,
                offset: self.layout.sidecar_offset,
            },
            SessionStage::InitializeRuntime => SessionAction::InitializeRuntime,
            SessionStage::MapHost(store) => SessionAction::MapHost(store),
            SessionStage::FindNumber(store) => SessionAction::FindNumber(store),
            SessionStage::MapDsp(store, number) => {
                let (method, bytes) = match store {
                    Store::Base => (OP_MMAP, self.bytes_of(SessionBuffer::Base)),
                    Store::Hmx => (OP_MMAP_HMX, self.bytes_of(SessionBuffer::Hmx)),
                    Store::Runtime => (OP_MMAP_RUNTIME, self.bytes_of(SessionBuffer::Runtime)),
                };
                SessionAction::MapDsp { method, number, bytes: bytes as u32 }
            },
            SessionStage::Bind => SessionAction::Bind,
        }
    }

    fn map_weight_store(&self, store: Store, number: i32) -> (r: SessionProgress)
        requires
            number >= 0,
        ensures
            r@ == self.progress(SessionStage::FindNumber(store), SessionEventView::Number(number)),
    {
        let (bytes, error) = match store {
            Store::Base => (
                self.layout.base_bytes,
                "Qwen resident mapping exceeds the FastRPC u32 size ABI",
            ),
            Store::Hmx => (
                self.layout.hmx_bytes,
                "Qwen resident mapping exceeds the FastRPC u32 size ABI",
            ),
            Store::Runtime => (
                QWEN_RUNTIME_BYTES,
                "Qwen runtime buffer exceeds the FastRPC u32 size ABI",
            ),
        };
        if bytes as u64 > 0xffff_ffff {
            return SessionProgress::Failed(error.to_owned());
        }
        SessionProgress::Next(SessionStage::MapDsp(store, number as u32))
    }

    #[verifier::rlimit(30)]
    fn mark_allocated(&mut self, buffer: SessionBuffer)
        ensures
            *final(self) == old(self).marked(SessionStage::Allocate(buffer)),
    {
        match buffer {
            SessionBuffer::Base => self.base_allocated = true,
            SessionBuffer::Hmx => self.hmx_allocated = true,
            SessionBuffer::Runtime => self.runtime_allocated = true,
            SessionBuffer::Request => self.request_allocated = true,
            SessionBuffer::Response => self.response_allocated = true,
        }
    }

    fn mark_host_mapped(&mut self, store: Store)
        ensures
            *final(self) == old(self).marked(SessionStage::MapHost(store)),
    {
        match store {
            Store::Base => self.base_host_mapped = true,
            Store::Hmx => self.hmx_host_mapped = true,
            Store::Runtime => self.runtime_host_mapped = true,
        }
    }

    fn mark_dsp_mapped(&mut self, store: Store, number: u32)
        ensures
            *final(self) == old(self).marked(SessionStage::MapDsp(store, number)),
    {
        match store {
            Store::Base => self.base_dsp_mapped = true,
            Store::Hmx => self.hmx_dsp_mapped = true,
            Store::Runtime => self.runtime_dsp_mapped = true,
        }
    }

    fn mark(&mut self, stage: SessionStage)
        ensures
            *final(self) == old(self).marked(stage),
    {
        match stage {
            SessionStage::Allocate(buffer) => self.mark_allocated(buffer),
            SessionStage::MapHost(store) => self.mark_host_mapped(store),
            SessionStage::MapDsp(store, number) => self.mark_dsp_mapped(store, number),
            SessionStage::Bind => self.bound = true,
            SessionStage::Connect
            | SessionStage::LoadBase
            | SessionStage::LoadHmx
            | SessionStage::InitializeRuntime
            | SessionStage::FindNumber(_) => {},
        }
    }

    /// Takes in what came of a stage.
    pub fn advance(&mut self, stage: SessionStage, event: &SessionEvent) -> (r: SessionProgress)
        requires
            stage.answered_by(event@),
        ensures
            *final(self) == old(self).after(stage, event@),
            r@ == old(self).progress(stage, event@),
    {
        match event {
            SessionEvent::Failed(error) => SessionProgress::Failed(error.clone()),
            SessionEvent::Number(number) => match stage {
                SessionStage::FindNumber(store) => self.map_weight_store(store, *number),
                _ => SessionProgress::Next(stage),
            },
            SessionEvent::Reply(bytes) => {
                let ack = read_u32(bytes, 0);
                if ack != QWEN_RUNTIME_LAYOUT_VERSION {
                    let mut error = "Qwen runtime bind returned layout ack ".to_owned();
                    push_decimal(&mut error, ack as u64);
                    return SessionProgress::Failed(error);
                }
                self.mark(stage);
                SessionProgress::Ready
            },
            SessionEvent::Done => {
                self.mark(stage);
                SessionProgress::Next(stage.next())
            },
        }
    }
}

/// The words of the bind request.
pub open spec fn bind_words() -> Seq<u32> {
    seq![OP_QWEN_DECODE_BIND, QWEN_RUNTIME_LAYOUT_VERSION, QWEN_RUNTIME_BYTES as u32, 0]
}

/// A call of the module's compute method: the request's first bytes go out, and
/// the whole response comes back.
#[derive(Clone, Copy, PartialEq, Eq, Structural, Debug)]
pub struct ComputeCall {
    pub method: u32,
    /// The number of bytes of the request that are sent.
    pub sent: usize,
}

/// As many bytes, all zero.
pub open spec fn zeros(count: nat) -> Seq<u8> {
    Seq::new(count, |i: int| 0u8)
}

/// Sets all bytes to zero.
pub fn zero_buffer(buffer: &mut Vec<u8>)
    ensures
        final(buffer)@ == zeros(old(buffer)@.len()),
{
    let count = buffer.len();
    for i in 0..count
        invariant
            count == old(buffer)@.len(),
            buffer@.len() == count,
            forall|k: int| 0 <= k < i ==> #[trigger] buffer@[k] == 0,
    {
        buffer[i] = 0;
    }
}

/// Writes the bind request and clears the response. The whole request is sent.
pub fn bind_request(request: &mut Vec<u8>, response: &mut Vec<u8>) -> (r: ComputeCall)
    requires
        16 <= old(request).len(),
    ensures
        final(request)@ == with_words(old(request)@, bind_words()),
        final(response)@ == zeros(old(response)@.len()),
        r == (ComputeCall { method: OP_COMPUTE, sent: old(request)@.len() as usize }),
{
    zero_buffer(response);
    let words = vec![
        OP_QWEN_DECODE_BIND,
        QWEN_RUNTIME_LAYOUT_VERSION,
        QWEN_RUNTIME_BYTES as u32,
        0,
    ];
    proof {
        assert(words@ == bind_words());
    }
    let sent = request.len();
    write_words(request, &words);
    ComputeCall { method: OP_COMPUTE, sent }
}

/// Clears the response of the call that stops the module, and gives its method.
pub fn stop_request(response: &mut Vec<u8>) -> (method: u32)
    ensures
        final(response)@ == zeros(old(response)@.len()),
        method == OP_STOP,
{
    zero_buffer(response);
    OP_STOP
}

/// The words of the control block at the start of the runtime buffer.
pub open spec fn control_words() -> Seq<u32> {
    seq![
        QWEN_RUNTIME_MAGIC,
        QWEN_RUNTIME_LAYOUT_VERSION,
        0,
        0,
        0,
        0,
        0,
        MAX_DECODE_CONTEXT as u32,
    ]
}

/// Writes the control block.
pub fn initialize_runtime_control(buffer: &mut Vec<u8>)
    requires
        32 <= old(buffer).len(),
    ensures
        final(buffer)@ == with_words(old(buffer)@, control_words()),
{
    let words = vec![
        QWEN_RUNTIME_MAGIC,
        QWEN_RUNTIME_LAYOUT_VERSION,
        0,
        0,
        0,
        0,
        0,
        MAX_DECODE_CONTEXT as u32,
    ];
    proof {
        assert(words@ == control_words());
    }
    write_words(buffer, &words);
}

/// Fills the runtime buffer for a new session: all zero but for the control
/// block.
pub fn initialize_runtime(buffer: &mut Vec<u8>)
    requires
        32 <= old(buffer).len(),
    ensures
        final(buffer)@ == with_words(zeros(old(buffer)@.len()), control_words()),
{
    zero_buffer(buffer);
    initialize_runtime_control(buffer);
}

/// The fields of the control block hold the module's magic number, the layout
/// version and the capacity; the flags and the counters are zero.
pub proof fn law_control_block_has_its_fields(bytes: Seq<u8>)
    requires
        32 <= bytes.len(),
    ensures
        ({
            let written = with_words(bytes, control_words());
            &&& le_u32(written, CONTROL_MAGIC_OFFSET as int) == QWEN_RUNTIME_MAGIC
            &&& le_u32(written, CONTROL_LAYOUT_VERSION_OFFSET as int)
                == QWEN_RUNTIME_LAYOUT_VERSION
            &&& le_u32(written, CONTROL_FLAGS_OFFSET as int) == 0
            &&& le_u32(written, CONTROL_POISONED_OFFSET as int) == 0
            &&& le_u32(written, CONTROL_POSITION_OFFSET as int) == 0
            &&& le_u32(written, CONTROL_CACHE_LEN_OFFSET as int) == 0
            &&& le_u32(written, CONTROL_GENERATED_COUNT_OFFSET as int) == 0
            &&& le_u32(written, CONTROL_GENERATED_CAPACITY_OFFSET as int) == MAX_DECODE_CONTEXT
        }),
{
    let words = control_words();
    law_words_are_read_back(bytes, words, 0);
    law_words_are_read_back(bytes, words, 1);
    law_words_are_read_back(bytes, words, 2);
    law_words_are_read_back(bytes, words, 3);
    law_words_are_read_back(bytes, words, 4);
    law_words_are_read_back(bytes, words, 5);
    law_words_are_read_back(bytes, words, 6);
    law_words_are_read_back(bytes, words, 7);
}

/// The words of a prefill request.
pub open spec fn prefill_words(input_ids: Seq<i32>) -> Seq<u32> {
    seq![
        OP_QWEN_FULL_PREFILL,
        QWEN_RUNTIME_LAYOUT_VERSION,
        QWEN_RUNTIME_BYTES as u32,
        input_ids.len() as u32,
        0,
        u32::MAX,
        0,
        0,
    ] + input_ids.map_values(|id: i32| as_word(id))
}

/// The words of a decode request.
pub open spec fn decode_words(position: usize, generated_count: usize) -> Seq<u32> {
    seq![OP_QWEN_FULL_DECODE_STEP, position as u32, generated_count as u32, 0, u32::MAX, 0]
}

impl Qwen35Session {
    /// Why a prompt of this length cannot be sent in a request buffer of this
    /// size.
    pub open spec fn prefill_refusal(self, count: nat, request_bytes: nat) -> Option<Seq<char>> {
        if count < 2 || count > MAX_PREFILL_TOKENS {
            Some(
                "Qwen3.5 Q4 prefill length must be in [2, "@ + decimal_text(
                    MAX_PREFILL_TOKENS as nat,
                ) + "], got "@ + decimal_text(count),
            )
        } else if !self.bound {
            Some("Qwen runtime was not bound before prefill"@)
        } else if 32 + 4 * count > request_bytes {
            Some("Qwen prefill request exceeds resident request buffer"@)
        } else {
            None
        }
    }

    /// Writes a prefill request, clears the response and describes the call.
    pub fn prefill(
        &self,
        input_ids: &Vec<i32>,
        request: &mut Vec<u8>,
        response: &mut Vec<u8>,
    ) -> (r: Result<ComputeCall, String>)
        ensures
            match r {
                Ok(call) => {
                    &&& self.prefill_refusal(input_ids@.len(), old(request)@.len()) is None
                    &&& call.method == OP_COMPUTE
                    &&& call.sent == 32 + 4 * input_ids@.len()
                    &&& final(request)@ == with_words(old(request)@, prefill_words(input_ids@))
                    &&& final(response)@ == zeros(old(response)@.len())
                },
                Err(error) => {
                    &&& self.prefill_refusal(input_ids@.len(), old(request)@.len()) == Some(error@)
                    &&& *final(request) == *old(request)
                    &&& *final(response) == *old(response)
                },
            },
    {
        if input_ids.len() < 2 || input_ids.len() > MAX_PREFILL_TOKENS {
            let mut error = "Qwen3.5 Q4 prefill length must be in [2, ".to_owned();
            push_decimal(&mut error, MAX_PREFILL_TOKENS as u64);
            error.append("], got ");
            push_decimal(&mut error, input_ids.len() as u64);
            return Err(error);
        }
        if !self.bound {
            return Err("Qwen runtime was not bound before prefill".to_owned());
        }
        let request_bytes = 32 + input_ids.len() * 4;
        if request_bytes > request.len() {
            return Err("Qwen prefill request exceeds resident request buffer".to_owned());
        }
        let mut words = vec![
            OP_QWEN_FULL_PREFILL,
            QWEN_RUNTIME_LAYOUT_VERSION,
            QWEN_RUNTIME_BYTES as u32,
            input_ids.len() as u32,
            0,
            u32::MAX,
            0,
            0,
        ];
        let ghost head = words@;
        for i in 0..input_ids.len()
            invariant
                words@ == head + input_ids@.take(i as int).map_values(|id: i32| as_word(id)),
        {
            proof {
                assert(input_ids@.take(i + 1) == input_ids@.take(i as int).push(
                    input_ids@[i as int],
                ));
            }
            words.push(word(input_ids[i]));
        }
        proof {
            assert(input_ids@.take(input_ids@.len() as int) == input_ids@);
            assert(words@ == prefill_words(input_ids@));
        }
        write_words(request, &words);
        zero_buffer(response);
        Ok(ComputeCall { method: OP_COMPUTE, sent: request_bytes })
    }

    /// What is wrong with the reply to a prefill request for this many tokens.
    pub open spec fn prefill_fault(count: nat, response: Seq<u8>) -> Option<Seq<char>> {
        let status = as_signed(le_u32(response, 20));
        if status != 0 {
            Some("Qwen HTP prefill returned status "@ + signed_decimal_text(status as int))
        } else if le_u32(response, 8) != 0 || le_u32(response, 12) != count || le_u32(
            response,
            16,
        ) != count {
            Some("Qwen HTP prefill returned an inconsistent position"@)
        } else {
            None
        }
    }

    /// The session after a prefill of this many tokens.
    pub open spec fn prefilled(self, count: usize) -> Qwen35Session {
        Qwen35Session { position: count, cache_len: count, generated_count: 1, ..self }
    }

    /// Takes in the reply to a prefill request for this many tokens.
    pub fn prefill_reply(&mut self, count: usize, response: &Vec<u8>) -> (r: Result<
        Qwen35Token,
        String,
    >)
        requires
            old(self).wf(),
            2 <= count <= MAX_PREFILL_TOKENS,
            24 <= response@.len(),
        ensures
            final(self).wf(),
            match r {
                Ok(token) => {
                    &&& Self::prefill_fault(count as nat, response@) is None
                    &&& token == reply_token(response@)
                    &&& *final(self) == old(self).prefilled(count)
                },
                Err(error) => {
                    &&& Self::prefill_fault(count as nat, response@) == Some(error@)
                    &&& *final(self) == *old(self)
                },
            },
    {
        let status = read_i32(response, 20);
        if status != 0 {
            let mut error = "Qwen HTP prefill returned status ".to_owned();
            error.append(signed_decimal(status).as_str());
            return Err(error);
        }
        let token = Qwen35Token { id: read_u32(response, 0), logit_bits: read_u32(response, 4) };
        let expected = count as u32;
        if read_u32(response, 8) != 0 || read_u32(response, 12) != expected || read_u32(
            response,
            16,
        ) != expected {
            return Err("Qwen HTP prefill returned an inconsistent position".to_owned());
        }
        self.position = count;
        self.cache_len = count;
        self.generated_count = 1;
        proof {
            lemma_counters_keep_wf(*old(self), *self);
        }
        Ok(token)
    }

    /// Why no further token can be generated.
    pub open spec fn decode_refusal(self) -> Option<Seq<char>> {
        if self.cache_len == 0 {
            Some("Qwen decode requested before prefill"@)
        } else if self.cache_len >= MAX_DECODE_CONTEXT {
            Some("Qwen decode context reached "@ + decimal_text(MAX_DECODE_CONTEXT as nat))
        } else {
            None
        }
    }

    /// Writes a decode request, clears the response and describes the call.
    pub fn decode(&self, request: &mut Vec<u8>, response: &mut Vec<u8>) -> (r: Result<
        ComputeCall,
        String,
    >)
        requires
            24 <= old(request).len(),
        ensures
            match r {
                Ok(call) => {
                    &&& self.decode_refusal() is None
                    &&& call.method == OP_COMPUTE
                    &&& call.sent == 24
                    &&& final(request)@ == with_words(
                        old(request)@,
                        decode_words(self.position, self.generated_count),
                    )
                    &&& final(response)@ == zeros(old(response)@.len())
                },
                Err(error) => {
                    &&& self.decode_refusal() == Some(error@)
                    &&& *final(request) == *old(request)
                    &&& *final(response) == *old(response)
                },
            },
    {
        if self.cache_len == 0 {
            return Err("Qwen decode requested before prefill".to_owned());
        }
        if self.cache_len >= MAX_DECODE_CONTEXT {
            let mut error = "Qwen decode context reached ".to_owned();
            push_decimal(&mut error, MAX_DECODE_CONTEXT as u64);
            return Err(error);
        }
        let words = vec![
            OP_QWEN_FULL_DECODE_STEP,
            self.position as u32,
            self.generated_count as u32,
            0,
            u32::MAX,
            0,
        ];
        proof {
            assert(words@ == decode_words(self.position, self.generated_count));
        }
        write_words(request, &words);
        zero_buffer(response);
        Ok(ComputeCall { method: OP_COMPUTE, sent: 24 })
    }

    /// What is wrong with the reply to a decode request.
    pub open spec fn decode_fault(self, response: Seq<u8>) -> Option<Seq<char>> {
        let status = as_signed(le_u32(response, 16));
        let token_index = le_u32(response, 8);
        let completed_position = le_u32(response, 12);
        if status != 0 {
            Some("Qwen HTP decode returned status "@ + signed_decimal_text(status as int))
        } else if token_index != self.generated_count || completed_position != self.position {
            Some(
                "Qwen HTP decode position mismatch: token_index="@ + decimal_text(
                    token_index as nat,
                ) + ", expected="@ + decimal_text(self.generated_count as nat)
                    + ", completed_position="@ + decimal_text(completed_position as nat)
                    + ", expected_position="@ + decimal_text(self.position as nat),
            )
        } else {
            None
        }
    }

    /// The session after one more token.
    pub open spec fn decoded(self) -> Qwen35Session {
        Qwen35Session {
            position: (self.position + 1) as usize,
            cache_len: (self.cache_len + 1) as usize,
            generated_count: (self.generated_count + 1) as usize,
            ..self
        }
    }

    /// Takes in the reply to a decode request.
    pub fn decode_reply(&mut self, response: &Vec<u8>) -> (r: Result<Qwen35Token, String>)
        requires
            old(self).wf(),
            old(self).decode_refusal() is None,
            20 <= response@.len(),
        ensures
            final(self).wf(),
            match r {
                Ok(token) => {
                    &&& old(self).decode_fault(response@) is None
                    &&& token == reply_token(response@)
                    &&& *final(self) == old(self).decoded()
                },
                Err(error) => {
                    &&& old(self).decode_fault(response@) == Some(error@)
                    &&& *final(self) == *old(self)
                },
            },
    {
        let status = read_i32(response, 16);
        if status != 0 {
            let mut error = "Qwen HTP decode returned status ".to_owned();
            error.append(signed_decimal(status).as_str());
            return Err(error);
        }
        let token_index = read_u32(response, 8);
        let completed_position = read_u32(response, 12);
        if token_index as usize != self.generated_count || completed_position as usize
            != self.position {
            let mut error = "Qwen HTP decode position mismatch: token_index=".to_owned();
            push_decimal(&mut error, token_index as u64);
            error.append(", expected=");
            push_decimal(&mut error, self.generated_count as u64);
            error.append(", completed_position=");
            push_decimal(&mut error, completed_position as u64);
            error.append(", expected_position=");
            push_decimal(&mut error, self.position as u64);
            return Err(error);
        }
        let token = Qwen35Token { id: read_u32(response, 0), logit_bits: read_u32(response, 4) };
        self.position += 1;
        self.cache_len += 1;
        self.generated_count += 1;
        proof {
            lemma_counters_keep_wf(*old(self), *self);
        }
        Ok(token)
    }

    /// The session after `count` more tokens.
    pub open spec fn decoded_times(self, count: nat) -> Qwen35Session
        decreases count,
    {
        if count == 0 {
            self
        } else {
            self.decoded_times((count - 1) as nat).decoded()
        }
    }
}

/// The token at the start of a reply.
pub open spec fn reply_token(response: Seq<u8>) -> Qwen35Token {
    Qwen35Token { id: le_u32(response, 0), logit_bits: le_u32(response, 4) }
}

proof fn lemma_counters_keep_wf(before: Qwen35Session, after: Qwen35Session)
    requires
        before.wf(),
        after == (Qwen35Session {
            position: after.position,
            cache_len: after.cache_len,
            generated_count: after.generated_count,
            ..before
        }),
        after.position == after.cache_len,
        after.generated_count <= after.cache_len <= MAX_DECODE_CONTEXT,
    ensures
        after.wf(),
{
    assert forall|store: Store| #[trigger] after.host_mapped(store) implies after.allocated(
        store.buffer(),
    ) by {
        assert(before.host_mapped(store));
    }
    assert forall|store: Store| #[trigger] after.dsp_mapped(store) implies after.host_mapped(
        store,
    ) by {
        assert(before.dsp_mapped(store));
    }
    if after.bound {
        assert forall|store: Store| #[trigger] after.dsp_mapped(store) by {
            assert(before.dsp_mapped(store));
        }
    }
}

/// After a prefill of `prompt` tokens and `count` decode steps, the cache holds
/// the prompt and one entry for each step, and one token more than there were
/// steps has been generated.
pub proof fn law_generation_counts_up(session: Qwen35Session, prompt: usize, count: nat)
    requires
        2 <= prompt <= MAX_PREFILL_TOKENS,
        prompt + count <= MAX_DECODE_CONTEXT,
    ensures
        ({
            let end = session.prefilled(prompt).decoded_times(count);
            &&& end.position == prompt + count
            &&& end.cache_len == prompt + count
            &&& end.generated_count == 1 + count
            &&& end.decode_refusal() is None <==> prompt + count < MAX_DECODE_CONTEXT
        }),
    decreases count,
{
    if count > 0 {
        law_generation_counts_up(session, prompt, (count - 1) as nat);
    }
}

/// No token is generated before a prefill.
pub proof fn law_no_decode_before_prefill(session: Qwen35Session, stage: SessionStage)
    requires
        stage.reached_by(session),
    ensures
        session.decode_refusal() is Some,
        session.marked(SessionStage::Bind).decode_refusal() is Some,
{
}

/// A step of giving a session up.
#[derive(Clone, Copy, PartialEq, Eq, Structural, Debug)]
pub enum TeardownAction {
    /// Make the call that [`stop_request`] prepares: the module's workers can
    /// outlive the return of a call.
    Stop,
    /// Take a buffer out of the DSP, by this method.
    UnmapDsp { store: Store, method: u32 },
    /// Unmap a buffer on the host.
    UnmapHost(Store),
    /// Free a buffer.
    Free(SessionBuffer),
}

impl Qwen35Session {
    /// How a mapped buffer is unmapped.
    pub open spec fn unmapping(self, store: Store) -> Seq<TeardownAction> {
        let dsp = if self.allocated(store.buffer()) && self.dsp_mapped(store) {
            seq![TeardownAction::UnmapDsp { store, method: store.unmap_method() }]
        } else {
            seq![]
        };
        if self.allocated(store.buffer()) && self.host_mapped(store) {
            dsp.push(TeardownAction::UnmapHost(store))
        } else {
            dsp
        }
    }

    /// How a buffer is freed.
    pub open spec fn freeing(self, buffer: SessionBuffer) -> Seq<TeardownAction> {
        if self.allocated(buffer) {
            seq![TeardownAction::Free(buffer)]
        } else {
            seq![]
        }
    }

    /// How the module is stopped.
    pub open spec fn stopping(self) -> Seq<TeardownAction> {
        if self.bound && self.response_allocated {
            seq![TeardownAction::Stop]
        } else {
            seq![]
        }
    }

    /// How a session is given up: the module is stopped, all mappings are
    /// undone in the reverse of their order, and all buffers are freed.
    pub open spec fn teardown_plan(self) -> Seq<TeardownAction> {
        self.stopping() + self.unmapping(Store::Runtime) + self.unmapping(Store::Hmx)
            + self.unmapping(Store::Base) + self.freeing(SessionBuffer::Response) + self.freeing(
            SessionBuffer::Request,
        ) + self.freeing(SessionBuffer::Runtime) + self.freeing(SessionBuffer::Hmx)
            + self.freeing(SessionBuffer::Base)
    }

    fn unmap_resident(
        &self,
        store: Store,
        allocated: bool,
        dsp_mapped: bool,
        host_mapped: bool,
        actions: &mut Vec<TeardownAction>,
    )
        requires
            allocated == self.allocated(store.buffer()),
            dsp_mapped == self.dsp_mapped(store),
            host_mapped == self.host_mapped(store),
        ensures
            final(actions)@ == old(actions)@ + self.unmapping(store),
    {
        if !allocated {
            return;
        }
        if dsp_mapped {
            let method = match store {
                Store::Base => OP_MUNMAP,
                Store::Hmx => OP_MUNMAP_HMX,
                Store::Runtime => OP_MUNMAP_RUNTIME,
            };
            actions.push(TeardownAction::UnmapDsp { store, method });
        }
        if host_mapped {
            actions.push(TeardownAction::UnmapHost(store));
        }
    }

    fn free_buffer(
        &self,
        buffer: SessionBuffer,
        allocated: bool,
        actions: &mut Vec<TeardownAction>,
    )
        requires
            allocated == self.allocated(buffer),
        ensures
            final(actions)@ == old(actions)@ + self.freeing(buffer),
    {
        if allocated {
            actions.push(TeardownAction::Free(buffer));
        }
    }

    /// How a session is given up.
    pub fn teardown(&self) -> (r: Vec<TeardownAction>)
        ensures
            r@ == self.teardown_plan(),
    {
        let mut actions: Vec<TeardownAction> = Vec::new();
        if self.bound && self.response_allocated {
            actions.push(TeardownAction::Stop);
        }
        proof {
            assert(actions@ == self.stopping());
        }
        self.unmap_resident(
            Store::Runtime,
            self.runtime_allocated,
            self.runtime_dsp_mapped,
            self.runtime_host_mapped,
            &mut actions,
        );
        self.unmap_resident(
            Store::Hmx,
            self.hmx_allocated,
            self.hmx_dsp_mapped,
            self.hmx_host_mapped,
            &mut actions,
        );
        self.unmap_resident(
            Store::Base,
            self.base_allocated,
            self.base_dsp_mapped,
            self.base_host_mapped,
            &mut actions,
        );
        self.free_buffer(SessionBuffer::Response, self.response_allocated, &mut actions);
        self.free_buffer(SessionBuffer::Request, self.request_allocated, &mut actions);
        self.free_buffer(SessionBuffer::Runtime, self.runtime_allocated, &mut actions);
        self.free_buffer(SessionBuffer::Hmx, self.hmx_allocated, &mut actions);
        self.free_buffer(SessionBuffer::Base, self.base_allocated, &mut actions);
        actions
    }
}

/// Opening keeps a session in order: the stages come one after the other, each
/// once, and each is reached with exactly the earlier ones done; a stage that
/// fails changes nothing; and a session that is ready is bound with everything
/// allocated and mapped.
pub proof fn law_stages_follow_each_other(
    session: Qwen35Session,
    stage: SessionStage,
    event: SessionEventView,
)
    requires
        session.wf(),
        stage.reached_by(session),
        stage.answered_by(event),
    ensures
        session.after(stage, event).wf(),
        session.progress(stage, event) matches SessionProgressView::Next(next) ==> next.reached_by(
            session.after(stage, event),
        ) && next.place() == stage.place() + 1,
        session.progress(stage, event) is Ready ==> {
            let ready = session.after(stage, event);
            &&& stage == SessionStage::Bind
            &&& ready.bound
            &&& forall|buffer: SessionBuffer| #[trigger] ready.allocated(buffer)
            &&& forall|store: Store| #[trigger] ready.dsp_mapped(store)
        },
        session.progress(stage, event) is Failed ==> session.after(stage, event) == session,
{
}

/// Giving a session up undoes whatever was done: what is mapped into the DSP
/// is taken out of it, then unmapped on the host, then freed; exactly what is
/// allocated is freed, once; and a bound module is stopped before all that.
pub proof fn law_teardown_undoes_what_was_done(
    session: Qwen35Session,
    store: Store,
    buffer: SessionBuffer,
)
    requires
        session.wf(),
    ensures
        ({
            let plan = session.teardown_plan();
            let unmap_dsp = TeardownAction::UnmapDsp { store, method: store.unmap_method() };
            let unmap_host = TeardownAction::UnmapHost(store);
            let free = TeardownAction::Free(buffer);
            &&& plan.no_duplicates()
            &&& session.dsp_mapped(store) <==> plan.contains(unmap_dsp)
            &&& session.host_mapped(store) <==> plan.contains(unmap_host)
            &&& session.allocated(buffer) <==> plan.contains(free)
            &&& session.bound ==> plan[0] == TeardownAction::Stop
            &&& session.dsp_mapped(store) ==> plan.index_of(unmap_dsp) < plan.index_of(unmap_host)
            &&& session.host_mapped(store) && session.allocated(buffer) ==> plan.index_of(
                unmap_host,
            ) < plan.index_of(free)
        }),
{
    let plan = session.teardown_plan();
    assert(session.host_mapped(store) ==> session.allocated(store.buffer()));
    assert(session.dsp_mapped(store) ==> session.host_mapped(store));
    lemma_teardown_plan(session);
    let unmap_dsp = TeardownAction::UnmapDsp { store, method: store.unmap_method() };
    let unmap_host = TeardownAction::UnmapHost(store);
    let free = TeardownAction::Free(buffer);
    assert(plan.contains(unmap_dsp) <==> session.plans(unmap_dsp));
    assert(plan.contains(unmap_host) <==> session.plans(unmap_host));
    assert(plan.contains(free) <==> session.plans(free));
    assert(plan.no_duplicates()) by {
        assert forall|i: int, j: int| 0 <= i < j < plan.len() implies plan[i] != plan[j] by {
            assert(rank(plan[i]) < rank(plan[j]));
        }
    }
    if session.bound {
        assert(session.stopping()[0] == TeardownAction::Stop);
        assert(plan[0] == TeardownAction::Stop);
    }
    if session.dsp_mapped(store) {
        lemma_rank_orders(plan, unmap_dsp, unmap_host);
    }
    if session.host_mapped(store) && session.allocated(buffer) {
        lemma_rank_orders(plan, unmap_host, free);
    }
}

/// The place of an action in the order of giving a session up.
spec fn rank(action: TeardownAction) -> int {
    match action {
        TeardownAction::Stop => 0,
        TeardownAction::UnmapDsp { store: Store::Runtime, .. } => 1,
        TeardownAction::UnmapHost(Store::Runtime) => 2,
        TeardownAction::UnmapDsp { store: Store::Hmx, .. } => 3,
        TeardownAction::UnmapHost(Store::Hmx) => 4,
        TeardownAction::UnmapDsp { store: Store::Base, .. } => 5,
        TeardownAction::UnmapHost(Store::Base) => 6,
        TeardownAction::Free(SessionBuffer::Response) => 7,
        TeardownAction::Free(SessionBuffer::Request) => 8,
        TeardownAction::Free(SessionBuffer::Runtime) => 9,
        TeardownAction::Free(SessionBuffer::Hmx) => 10,
        TeardownAction::Free(SessionBuffer::Base) => 11,
    }
}

/// Whether the actions are in order and their places lie between two bounds.
spec fn ranked(actions: Seq<TeardownAction>, low: int, high: int) -> bool {
    &&& forall|i: int| 0 <= i < actions.len() ==> low <= rank(#[trigger] actions[i]) < high
    &&& forall|i: int, j: int|
        0 <= i < j < actions.len() ==> rank(#[trigger] actions[i]) < rank(#[trigger] actions[j])
}

impl Qwen35Session {
    /// Whether an action is part of giving the session up.
    spec fn plans(self, action: TeardownAction) -> bool {
        match action {
            TeardownAction::Stop => self.bound && self.response_allocated,
            TeardownAction::UnmapDsp { store, method } => method == store.unmap_method()
                && self.allocated(store.buffer()) && self.dsp_mapped(store),
            TeardownAction::UnmapHost(store) => self.allocated(store.buffer())
                && self.host_mapped(store),
            TeardownAction::Free(buffer) => self.allocated(buffer),
        }
    }

    /// Whether actions are those of the plan whose places lie between two
    /// bounds, in order.
    spec fn covers(self, actions: Seq<TeardownAction>, low: int, high: int) -> bool {
        &&& ranked(actions, low, high)
        &&& forall|action: TeardownAction| #[trigger]
            actions.contains(action) <==> self.plans(action) && low <= rank(action) < high
    }
}

proof fn lemma_covers_add(
    session: Qwen35Session,
    a: Seq<TeardownAction>,
    b: Seq<TeardownAction>,
    low: int,
    middle: int,
    high: int,
)
    requires
        low <= middle <= high,
        session.covers(a, low, middle),
        session.covers(b, middle, high),
    ensures
        session.covers(a + b, low, high),
{
    let both = a + b;
    assert forall|action: TeardownAction| #[trigger] both.contains(action) <==> session.plans(action)
        && low <= rank(action) < high by {
        assert(a.contains(action) <==> session.plans(action) && low <= rank(action) < middle);
        assert(b.contains(action) <==> session.plans(action) && middle <= rank(action) < high);
        if a.contains(action) {
            assert(both[a.index_of(action)] == action);
        }
        if b.contains(action) {
            assert(both[a.len() + b.index_of(action)] == action);
        }
        if both.contains(action) {
            let i = both.index_of(action);
            if i < a.len() {
                assert(a[i] == action);
            } else {
                assert(b[i - a.len()] == action);
            }
        }
    }
    assert(ranked(both, low, high));
}

proof fn lemma_unmapping(session: Qwen35Session, store: Store, low: int)
    requires
        low == (match store {
            Store::Runtime => 1int,
            Store::Hmx => 3,
            Store::Base => 5,
        }),
    ensures
        session.covers(session.unmapping(store), low, low + 2),
{
    let actions = session.unmapping(store);
    let dsp = TeardownAction::UnmapDsp { store, method: store.unmap_method() };
    let host = TeardownAction::UnmapHost(store);
    assert forall|action: TeardownAction| #[trigger] actions.contains(action) <==> session.plans(
        action,
    ) && low <= rank(action) < low + 2 by {
        if session.plans(action) && low <= rank(action) < low + 2 {
            assert(action == dsp || action == host);
            if action == dsp {
                assert(actions[0] == action);
            } else {
                assert(actions[actions.len() - 1] == action);
            }
        }
    }
}

proof fn lemma_freeing(session: Qwen35Session, buffer: SessionBuffer, low: int)
    requires
        low == rank(TeardownAction::Free(buffer)),
    ensures
        session.covers(session.freeing(buffer), low, low + 1),
{
    let actions = session.freeing(buffer);
    assert forall|action: TeardownAction| #[trigger] actions.contains(action) <==> session.plans(
        action,
    ) && low <= rank(action) < low + 1 by {
        if session.plans(action) && low <= rank(action) < low + 1 {
            assert(action == TeardownAction::Free(buffer));
            assert(actions[0] == action);
        }
    }
}

proof fn lemma_teardown_plan(session: Qwen35Session)
    ensures
        session.covers(session.teardown_plan(), 0, 12),
{
    let stop = session.stopping();
    assert(session.covers(stop, 0, 1)) by {
        assert forall|action: TeardownAction| #[trigger] stop.contains(action) <==> session.plans(
            action,
        ) && 0 <= rank(action) < 1 by {
            if session.plans(action) && 0 <= rank(action) < 1 {
                assert(stop[0] == action);
            }
        }
    }
    lemma_unmapping(session, Store::Runtime, 1);
    let a = stop + session.unmapping(Store::Runtime);
    lemma_covers_add(session, stop, session.unmapping(Store::Runtime), 0, 1, 3);
    lemma_unmapping(session, Store::Hmx, 3);
    let b = a + session.unmapping(Store::Hmx);
    lemma_covers_add(session, a, session.unmapping(Store::Hmx), 0, 3, 5);
    lemma_unmapping(session, Store::Base, 5);
    let c = b + session.unmapping(Store::Base);
    lemma_covers_add(session, b, session.unmapping(Store::Base), 0, 5, 7);
    lemma_freeing(session, SessionBuffer::Response, 7);
    let d = c + session.freeing(SessionBuffer::Response);
    lemma_covers_add(session, c, session.freeing(SessionBuffer::Response), 0, 7, 8);
    lemma_freeing(session, SessionBuffer::Request, 8);
    let e = d + session.freeing(SessionBuffer::Request);
    lemma_covers_add(session, d, session.freeing(SessionBuffer::Request), 0, 8, 9);
    lemma_freeing(session, SessionBuffer::Runtime, 9);
    let f = e + session.freeing(SessionBuffer::Runtime);
    lemma_covers_add(session, e, session.freeing(SessionBuffer::Runtime), 0, 9, 10);
    lemma_freeing(session, SessionBuffer::Hmx, 10);
    let g = f + session.freeing(SessionBuffer::Hmx);
    lemma_covers_add(session, f, session.freeing(SessionBuffer::Hmx), 0, 10, 11);
    lemma_freeing(session, SessionBuffer::Base, 11);
    lemma_covers_add(session, g, session.freeing(SessionBuffer::Base), 0, 11, 12);
}

proof fn lemma_rank_orders(plan: Seq<TeardownAction>, first: TeardownAction, second: TeardownAction)
    requires
        ranked(plan, 0, 12),
        plan.contains(first),
        plan.contains(second),
        rank(first) < rank(second),
    ensures
        plan.index_of(first) < plan.index_of(second),
{
    let i = plan.index_of(first);
    let j = plan.index_of(second);
    if j < i {
        assert(rank(plan[j]) < rank(plan[i]));
    }
}

} // verus!
