//! The FastRPC session: how it is opened, what a compute call passes and what
//! its failures are reported as.

use vstd::prelude::*;
use vstd::string::StringExecFns;

use crate::bytes::{as_word, word};
use crate::hexagon::config::HexagonConfig;
use crate::hexagon::kernel::BinaryOp;
use crate::program::{allocation_bytes, allocation_for};
use crate::text::{
    chars_of, decimal_text, hex_word, hex_word_text, push_decimal, signed_decimal,
    signed_decimal_text,
};

verus! {

pub const RPCMEM_HEAP_ID_SYSTEM: i32 = 25;

pub const RPCMEM_DEFAULT_FLAGS: u32 = 1;

pub const DSPRPC_CONTROL_UNSIGNED_MODULE: u32 = 2;

pub const COMPUTE_METHOD_ID: u32 = 2;

/// The word that describes a compute call: the method, three input buffers and
/// one output buffer.
pub const COMPUTE_SCALARS: u32 = 0x0203_0100;

/// How far a session has been opened.
#[derive(Clone, Copy, PartialEq, Eq, Structural, Debug)]
pub enum OpenStage {
    /// The FastRPC library is loaded and its memory is set up.
    Loading,
    /// An unsigned module is allowed.
    Configuring,
    /// The module is opened.
    Opening,
}

/// What came of a stage.
pub enum OpenEvent {
    /// The library was loaded, or the reason why not.
    Loaded(Option<String>),
    /// What the control call returned.
    Configured(i32),
    /// What the open call returned, and the handle.
    Opened { error: i32, handle: u64 },
}

/// What comes next.
pub enum OpenProgress {
    Next(OpenStage),
    Ready(u64),
    Failed(String),
}

/// What came of a stage, as a value.
pub enum OpenEventView {
    Loaded(Option<Seq<char>>),
    Configured(i32),
    Opened { error: i32, handle: u64 },
}

/// What comes next, as a value.
pub enum OpenProgressView {
    Next(OpenStage),
    Ready(u64),
    Failed(Seq<char>),
}

impl View for OpenEvent {
    type V = OpenEventView;

    open spec fn view(&self) -> OpenEventView {
        match self {
            OpenEvent::Loaded(Some(error)) => OpenEventView::Loaded(Some(error@)),
            OpenEvent::Loaded(None) => OpenEventView::Loaded(None),
            OpenEvent::Configured(error) => OpenEventView::Configured(*error),
            OpenEvent::Opened { error, handle } => OpenEventView::Opened {
                error: *error,
                handle: *handle,
            },
        }
    }
}

impl View for OpenProgress {
    type V = OpenProgressView;

    open spec fn view(&self) -> OpenProgressView {
        match self {
            OpenProgress::Next(stage) => OpenProgressView::Next(*stage),
            OpenProgress::Ready(handle) => OpenProgressView::Ready(*handle),
            OpenProgress::Failed(message) => OpenProgressView::Failed(message@),
        }
    }
}

impl OpenStage {
    /// Whether an event is what can come of the stage.
    pub open spec fn answered_by(self, event: OpenEventView) -> bool {
        match self {
            OpenStage::Loading => event is Loaded,
            OpenStage::Configuring => event is Configured,
            OpenStage::Opening => event is Opened,
        }
    }
}

/// The text of an error code.
pub open spec fn error_code_text(error: i32) -> Seq<char> {
    " failed: 0x"@ + hex_word_text(as_word(error))
}

fn push_error_code(message: &mut String, error: i32)
    ensures
        final(message)@ == old(message)@ + error_code_text(error),
{
    message.append(" failed: 0x");
    message.append(hex_word(word(error)).as_str());
    proof {
        assert(old(message)@ + " failed: 0x"@ + hex_word_text(as_word(error)) == old(message)@
            + error_code_text(error));
    }
}

/// What comes once the DSP is configured: the module is opened, unless its
/// address cannot be handed over.
pub open spec fn after_configuration(uri: Seq<char>) -> OpenProgressView {
    if uri.contains('\0') {
        OpenProgressView::Failed("Hexagon skel URI contains an interior NUL"@)
    } else {
        OpenProgressView::Next(OpenStage::Opening)
    }
}

/// What comes after a stage.
pub open spec fn open_progress(
    config: HexagonConfig,
    stage: OpenStage,
    event: OpenEventView,
) -> OpenProgressView {
    match (stage, event) {
        (OpenStage::Loading, OpenEventView::Loaded(Some(error))) => OpenProgressView::Failed(error),
        (OpenStage::Loading, _) => if config.allow_unsigned_module {
            OpenProgressView::Next(OpenStage::Configuring)
        } else {
            after_configuration(config.skel_uri@)
        },
        (OpenStage::Configuring, OpenEventView::Configured(error)) => if error != 0 {
            OpenProgressView::Failed(
                "remote_session_control(unsigned module, domain "@ + signed_decimal_text(
                    config.domain as int,
                ) + ")"@ + error_code_text(error),
            )
        } else {
            after_configuration(config.skel_uri@)
        },
        (OpenStage::Opening, OpenEventView::Opened { error, handle }) => if error != 0 {
            OpenProgressView::Failed(
                "remote_handle64_open("@ + config.skel_uri@ + ")"@ + error_code_text(error),
            )
        } else {
            OpenProgressView::Ready(handle)
        },
        _ => OpenProgressView::Next(stage),
    }
}

fn contains_nul(text: &str) -> (r: bool)
    ensures
        r == text@.contains('\0'),
{
    let chars = chars_of(text);
    for i in 0..chars.len()
        invariant
            chars@ == text@,
            forall|j: int| 0 <= j < i ==> chars@[j] != '\0',
    {
        if chars[i] == '\0' {
            return true;
        }
    }
    false
}

fn open_module(config: &HexagonConfig) -> (r: OpenProgress)
    ensures
        r@ == after_configuration(config.skel_uri@),
{
    if contains_nul(config.skel_uri.as_str()) {
        OpenProgress::Failed("Hexagon skel URI contains an interior NUL".to_owned())
    } else {
        OpenProgress::Next(OpenStage::Opening)
    }
}

/// Opens a session, one stage at a time.
pub fn open(config: &HexagonConfig, stage: OpenStage, event: &OpenEvent) -> (r: OpenProgress)
    requires
        stage.answered_by(event@),
    ensures
        r@ == open_progress(*config, stage, event@),
{
    match (stage, event) {
        (OpenStage::Loading, OpenEvent::Loaded(Some(error))) => OpenProgress::Failed(error.clone()),
        (OpenStage::Loading, _) => if config.allow_unsigned_module {
            OpenProgress::Next(OpenStage::Configuring)
        } else {
            open_module(config)
        },
        (OpenStage::Configuring, OpenEvent::Configured(error)) => {
            if *error != 0 {
                let mut message = "remote_session_control(unsigned module, domain ".to_owned();
                message.append(signed_decimal(config.domain).as_str());
                message.append(")");
                push_error_code(&mut message, *error);
                return OpenProgress::Failed(message);
            }
            open_module(config)
        },
        (OpenStage::Opening, OpenEvent::Opened { error, handle }) => {
            if *error != 0 {
                let mut message = "remote_handle64_open(".to_owned();
                message.append(config.skel_uri.as_str());
                message.append(")");
                push_error_code(&mut message, *error);
                return OpenProgress::Failed(message);
            }
            OpenProgress::Ready(*handle)
        },
        _ => OpenProgress::Next(stage),
    }
}

/// The size to ask the shared-memory allocator for, for a logical size.
pub fn allocation_request(logical_bytes: usize) -> (r: usize)
    ensures
        r == allocation_for(logical_bytes),
        r > 0,
{
    allocation_bytes(logical_bytes)
}

/// What a failed allocation is reported as.
pub fn allocation_failure(logical_bytes: usize) -> (r: String)
    ensures
        r@ == "rpcmem_alloc2 failed for "@ + decimal_text(logical_bytes as nat)
            + " logical bytes"@,
{
    let mut message = "rpcmem_alloc2 failed for ".to_owned();
    push_decimal(&mut message, logical_bytes as u64);
    message.append(" logical bytes");
    message
}

/// What a compute call passes besides the buffers.
pub struct ComputeRequest {
    /// The operation, the number of elements and the sizes of the buffers.
    pub primitive: [u32; 5],
    /// The description of the call.
    pub scalars: u32,
}

/// What is wrong with a compute call, if anything: FastRPC counts in 32 bits.
pub open spec fn compute_error(n: usize, a: usize, b: usize, out: usize) -> Option<Seq<char>> {
    if n > u32::MAX {
        Some("Hexagon dispatch exceeds u32 elements"@)
    } else if a > u32::MAX || b > u32::MAX {
        Some("Hexagon input buffer exceeds u32 bytes"@)
    } else if out > u32::MAX {
        Some("Hexagon output buffer exceeds u32 bytes"@)
    } else {
        None
    }
}

fn as_u32(value: usize, message: &str) -> (r: Result<u32, String>)
    ensures
        match r {
            Ok(small) => small == value,
            Err(text) => value > u32::MAX && text@ == message@,
        },
{
    if value as u64 > 0xffff_ffff {
        Err(message.to_owned())
    } else {
        Ok(value as u32)
    }
}

/// What a compute call passes for `n` elements and buffers of these sizes, with
/// `op` the number of the operation in the module's interface.
pub fn compute(op: u32, n: usize, a: usize, b: usize, out: usize) -> (r: Result<
    ComputeRequest,
    String,
>)
    ensures
        match r {
            Ok(request) => {
                &&& compute_error(n, a, b, out) is None
                &&& request.primitive@ == seq![op, n as u32, a as u32, b as u32, out as u32]
                &&& request.scalars == COMPUTE_SCALARS
            },
            Err(message) => compute_error(n, a, b, out) == Some(message@),
        },
{
    let n = as_u32(n, "Hexagon dispatch exceeds u32 elements")?;
    let a = as_u32(a, "Hexagon input buffer exceeds u32 bytes")?;
    let b = as_u32(b, "Hexagon input buffer exceeds u32 bytes")?;
    let out = as_u32(out, "Hexagon output buffer exceeds u32 bytes")?;
    let scalars = (COMPUTE_METHOD_ID << 24) | (3 << 16) | (1 << 8);
    proof {
        assert((2u32 << 24) | (3u32 << 16) | (1u32 << 8) == 0x0203_0100u32) by (bit_vector);
    }
    Ok(ComputeRequest { primitive: [op, n, a, b, out], scalars })
}

/// What a compute call that returned an error is reported as.
pub open spec fn compute_failure_text(op: BinaryOp, n: u32, error: i32) -> Seq<char> {
    "Hexagon compute op="@ + op.text() + " n="@ + decimal_text(n as nat) + error_code_text(error)
}

/// What comes of a compute call that returned `error`.
pub fn compute_result(op: BinaryOp, n: u32, error: i32) -> (r: Result<(), String>)
    ensures
        match r {
            Ok(_) => error == 0,
            Err(message) => error != 0 && message@ == compute_failure_text(op, n, error),
        },
{
    if error != 0 {
        let mut message = "Hexagon compute op=".to_owned();
        message.append(op.name());
        message.append(" n=");
        push_decimal(&mut message, n as u64);
        push_error_code(&mut message, error);
        return Err(message);
    }
    Ok(())
}

/// What closes a session.
#[derive(Clone, Copy, PartialEq, Eq, Structural, Debug)]
pub enum CloseAction {
    /// The module is closed.
    CloseHandle(u64),
    /// The shared memory is given up.
    DeinitMemory,
}

/// What closes a session with this handle.
pub fn close(handle: u64) -> (r: Vec<CloseAction>)
    ensures
        r@ == (if handle != 0 {
            seq![CloseAction::CloseHandle(handle), CloseAction::DeinitMemory]
        } else {
            seq![CloseAction::DeinitMemory]
        }),
{
    if handle != 0 {
        vec![CloseAction::CloseHandle(handle), CloseAction::DeinitMemory]
    } else {
        vec![CloseAction::DeinitMemory]
    }
}

/// A module is opened only at an address without a NUL, and only once an
/// unsigned module was allowed where the settings ask for that.
pub proof fn law_module_is_opened_as_configured(
    config: HexagonConfig,
    stage: OpenStage,
    event: OpenEventView,
)
    requires
        stage.answered_by(event),
        stage != OpenStage::Opening,
        open_progress(config, stage, event) == OpenProgressView::Next(OpenStage::Opening),
    ensures
        !config.skel_uri@.contains('\0'),
        config.allow_unsigned_module ==> event == OpenEventView::Configured(0),
{
}

/// The description of a compute call holds the method and the numbers of input
/// and output buffers.
pub proof fn law_compute_call_is_described()
    ensures
        COMPUTE_SCALARS >> 24 == COMPUTE_METHOD_ID,
        (COMPUTE_SCALARS >> 16) & 0xff == 3,
        (COMPUTE_SCALARS >> 8) & 0xff == 1,
        COMPUTE_SCALARS & 0xff == 0,
{
    assert(0x0203_0100u32 >> 24 == 2u32) by (bit_vector);
    assert((0x0203_0100u32 >> 16) & 0xff == 3u32) by (bit_vector);
    assert((0x0203_0100u32 >> 8) & 0xff == 1u32) by (bit_vector);
    assert(0x0203_0100u32 & 0xff == 0u32) by (bit_vector);
}

/// A compute call passes the operation, the number of elements and, in the order
/// in which the buffers are passed, the sizes of the two arguments and the result;
/// it is made exactly where all of these fit 32 bits.
pub proof fn law_compute_call_states_the_sizes(
    op: u32,
    n: usize,
    arguments: Seq<usize>,
    out: usize,
    r: Result<ComputeRequest, String>,
)
    requires
        arguments.len() == 2,
        call_ensures(compute, (op, n, arguments[0], arguments[1], out), r),
    ensures
        r is Ok <==> n <= u32::MAX && out <= u32::MAX && forall|i: int|
            0 <= i < 2 ==> #[trigger] arguments[i] <= u32::MAX,
        r matches Ok(request) ==> {
            &&& request.primitive@[0] == op
            &&& request.primitive@[1] == n
            &&& forall|i: int| 0 <= i < 2 ==> request.primitive@[2 + i] == #[trigger] arguments[i]
            &&& request.primitive@[4] == out
            &&& request.scalars >> 24 == COMPUTE_METHOD_ID
            &&& (request.scalars >> 16) & 0xff == arguments.len() + 1
            &&& (request.scalars >> 8) & 0xff == 1
        },
{
    law_compute_call_is_described();
    if compute_error(n, arguments[0], arguments[1], out) is None {
        assert forall|i: int| 0 <= i < 2 implies #[trigger] arguments[i] <= u32::MAX by {
            assert(i == 0 || i == 1);
        }
    } else {
        assert(arguments[0] > u32::MAX || arguments[1] > u32::MAX || n > u32::MAX || out
            > u32::MAX);
    }
}

/// What came of opening a session in which every stage that comes up is answered:
/// the library was loaded or not, the control call returned `control`, and the open
/// call returned `error` and `handle`.
pub open spec fn opened(
    config: HexagonConfig,
    loaded: Option<Seq<char>>,
    control: i32,
    error: i32,
    handle: u64,
    stage: OpenStage,
    steps: nat,
) -> OpenProgressView
    decreases steps,
{
    let event = match stage {
        OpenStage::Loading => OpenEventView::Loaded(loaded),
        OpenStage::Configuring => OpenEventView::Configured(control),
        OpenStage::Opening => OpenEventView::Opened { error, handle },
    };
    match open_progress(config, stage, event) {
        OpenProgressView::Next(next) => if steps > 0 {
            opened(config, loaded, control, error, handle, next, (steps - 1) as nat)
        } else {
            OpenProgressView::Next(next)
        },
        end => end,
    }
}

/// A session is ready exactly where the library was loaded, an unsigned module was
/// allowed if the settings ask for that, the module's address holds no NUL and the
/// module was opened; its handle is then the one that the open call gave. In all
/// other cases opening fails.
pub proof fn law_session_is_ready_once_all_went_well(
    config: HexagonConfig,
    loaded: Option<Seq<char>>,
    control: i32,
    error: i32,
    handle: u64,
)
    ensures
        ({
            let end = opened(config, loaded, control, error, handle, OpenStage::Loading, 2);
            &&& end is Ready <==> loaded is None && (config.allow_unsigned_module ==> control == 0)
                && !config.skel_uri@.contains('\0') && error == 0
            &&& end matches OpenProgressView::Ready(given) ==> given == handle
            &&& !(end is Ready) ==> end is Failed
        }),
{
    reveal_with_fuel(opened, 3);
}

/// What closing does is undo what opening did: an open module is closed once, and
/// the shared memory is given up last, once.
pub proof fn law_closing_undoes_opening(handle: u64, r: Vec<CloseAction>)
    requires
        call_ensures(close, (handle,), r),
    ensures
        r@.no_duplicates(),
        r@.last() == CloseAction::DeinitMemory,
        forall|other: u64| #[trigger]
            r@.contains(CloseAction::CloseHandle(other)) <==> other == handle && handle != 0,
{
    if handle != 0 {
        assert(r@[0] == CloseAction::CloseHandle(handle));
    }
}

/// An allocation has room for the bytes that are asked for, and is never empty.
pub proof fn law_allocations_have_room(logical_bytes: usize, r: usize)
    requires
        call_ensures(allocation_request, (logical_bytes,), r),
    ensures
        r >= logical_bytes,
        r >= 1,
        logical_bytes >= 1 ==> r == logical_bytes,
{
}

} // verus!
