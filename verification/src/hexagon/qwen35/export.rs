//! The QWH9/QHM4 resident weight export: its header, its tensor table and
//! its HMX sidecar.
//!
//! A file is checked before any large device allocation is made. The checks
//! need only four small reads, so validation is a machine that says which
//! read comes next and takes what was read.

use vstd::prelude::*;
use vstd::string::StringExecFns;

use crate::bytes::{
    align128, aligned128, le_u32, le_u64, lemma_bytes_of_word, read_header_u32, read_header_u64,
    u32_le,
};
use crate::hexagon::qwen35::{
    QHM4_BYTES, QHM4_TENSOR_COUNT, QHM4_VERSION, QWH9_BASE_BYTES, QWH9_DATA_START,
    QWH9_TENSOR_COUNT,
};
use crate::text::{
    contains_text, decimal, decimal_text, occurs_at, push_decimal, viewed,
};

verus! {

/// The bytes of one entry of the tensor table.
pub const ENTRY_BYTES: usize = 41;

/// The bytes of the QWH9 header and of the QHM4 header.
pub const HEADER_BYTES: usize = 20;

/// The exact resident-file layout validated before any large rpcmem
/// allocation is made.
#[derive(Debug, Clone, Copy, PartialEq, Eq, Structural)]
pub struct Qwen35Q4WeightLayout {
    pub file_bytes: u64,
    pub base_bytes: usize,
    pub data_start: usize,
    pub sidecar_offset: usize,
    pub hmx_bytes: usize,
}

/// The bytes with which a resident export begins: `QWH9`.
pub open spec fn qwh9_magic() -> Seq<u8> {
    seq![0x51u8, 0x57, 0x48, 0x39]
}

/// The bytes with which the HMX sidecar begins: `QHM4`.
pub open spec fn qhm4_magic() -> Seq<u8> {
    seq![0x51u8, 0x48, 0x4d, 0x34]
}

/// The bytes with which a raw GGUF file begins: `GGUF`.
pub open spec fn gguf_magic() -> Seq<u8> {
    seq![0x47u8, 0x47, 0x55, 0x46]
}

/// Four bytes as a list of decimal numbers.
pub open spec fn byte_list_text(b: Seq<u8>) -> Seq<char> {
    "["@ + decimal_text(b[0] as nat) + ", "@ + decimal_text(b[1] as nat) + ", "@ + decimal_text(
        b[2] as nat,
    ) + ", "@ + decimal_text(b[3] as nat) + "]"@
}

/// What a QWH9 header holds (version, tensor count, bytes of the base store),
/// or why it is refused.
pub open spec fn qwh9_header(header: Seq<u8>) -> Result<(u32, u32, u64), Seq<char>> {
    if header.len() < 20 {
        Err("QWH9 header is truncated"@)
    } else if header.subrange(0, 4) != qwh9_magic() {
        Err(
            "expected QWH9 resident export, found "@ + byte_list_text(header.subrange(0, 4))
                + "; raw GGUF is not an HTP weight file"@,
        )
    } else {
        Ok((le_u32(header, 4), le_u32(header, 8), le_u64(header, 12)))
    }
}

/// Whether the first four bytes are the given ones.
fn starts_with(bytes: &[u8], a: u8, b: u8, c: u8, d: u8) -> (r: bool)
    requires
        bytes@.len() >= 4,
    ensures
        r == (bytes@.subrange(0, 4) == seq![a, b, c, d]),
{
    let r = bytes[0] == a && bytes[1] == b && bytes[2] == c && bytes[3] == d;
    let ghost front = bytes@.subrange(0, 4);
    proof {
        if r {
            assert(front =~= seq![a, b, c, d]);
        } else {
            let want = seq![a, b, c, d];
            assert(front[0] != want[0] || front[1] != want[1] || front[2] != want[2] || front[3]
                != want[3]);
        }
    }
    r
}

/// Parse the fixed QWH9 header. Raw GGUF begins with `GGUF` and is rejected.
pub fn parse_qwh9_header(header: &[u8]) -> (res: Result<(u32, u32, u64), String>)
    ensures
        viewed(res) == qwh9_header(header@),
{
    if header.len() < 20 {
        return Err("QWH9 header is truncated".to_owned());
    }
    if !starts_with(header, 0x51, 0x57, 0x48, 0x39) {
        let mut list = "[".to_owned();
        push_decimal(&mut list, header[0] as u64);
        list.append(", ");
        push_decimal(&mut list, header[1] as u64);
        list.append(", ");
        push_decimal(&mut list, header[2] as u64);
        list.append(", ");
        push_decimal(&mut list, header[3] as u64);
        list.append("]");
        let mut error = "expected QWH9 resident export, found ".to_owned();
        error.append(list.as_str());
        error.append("; raw GGUF is not an HTP weight file");
        return Err(error);
    }
    let version = read_header_u32(header, 4)?;
    let tensor_count = read_header_u32(header, 8)?;
    let base_bytes = read_header_u64(header, 12)?;
    Ok((version, tensor_count, base_bytes))
}

/// A raw GGUF file is refused, and the refusal says so.
pub proof fn law_raw_gguf_is_rejected(header: Seq<u8>)
    requires
        header.len() >= 20,
        header.subrange(0, 4) == gguf_magic(),
    ensures
        qwh9_header(header) is Err,
        contains_text(qwh9_header(header)->Err_0, "raw GGUF"@),
{
    let front = header.subrange(0, 4);
    assert(gguf_magic()[0] != qwh9_magic()[0]);
    reveal_strlit("; raw GGUF is not an HTP weight file");
    reveal_strlit("raw GGUF");
    let head = "expected QWH9 resident export, found "@ + byte_list_text(front);
    let text = qwh9_header(header)->Err_0;
    let at = head.len() as int + 2;
    assert(text.subrange(at, at + 8) =~= "raw GGUF"@);
    assert(occurs_at(text, "raw GGUF"@, at));
}


/// Why the QWH9 header of the file at `path` is refused, if it is.
pub open spec fn header_verdict(path: Seq<char>, header: Seq<u8>) -> Result<(), Seq<char>> {
    match qwh9_header(header) {
        Err(error) => Err(error),
        Ok((version, tensor_count, base_bytes)) => if version != 1 || tensor_count
            != QWH9_TENSOR_COUNT || base_bytes != QWH9_BASE_BYTES {
            Err(
                "unsupported QWH9 header in "@ + path + ": version="@ + decimal_text(version as nat)
                    + ", tensors="@ + decimal_text(tensor_count as nat) + ", base_bytes="@
                    + decimal_text(base_bytes as nat),
            )
        } else {
            Ok(())
        },
    }
}

/// Checks the QWH9 header of the file at `path`.
fn check_header(path: &str, header: &[u8]) -> (res: Result<(), String>)
    ensures
        viewed(res) == header_verdict(path@, header@),
{
    let (version, tensor_count, base_bytes) = parse_qwh9_header(header)?;
    if version != 1 || tensor_count != QWH9_TENSOR_COUNT || base_bytes != QWH9_BASE_BYTES as u64 {
        let mut error = "unsupported QWH9 header in ".to_owned();
        error.append(path);
        error.append(": version=");
        push_decimal(&mut error, version as u64);
        error.append(", tensors=");
        push_decimal(&mut error, tensor_count as u64);
        error.append(", base_bytes=");
        push_decimal(&mut error, base_bytes);
        return Err(error);
    }
    Ok(())
}

/// The GGML types that a table may name: F32, Q4_0, Q4_1, Q8_0, Q5_K, Q6_K.
pub open spec fn supported_ggml_type(ggml_type: u32) -> bool {
    ggml_type == 0 || ggml_type == 2 || ggml_type == 3 || ggml_type == 8 || ggml_type == 13
        || ggml_type == 14
}

/// Whether entry `index` of a tensor table describes a tensor: one to four
/// dimensions, a supported type and a size that fits in a word.
pub open spec fn entry_describes_tensor(table: Seq<u8>, index: int) -> bool {
    let at = index * 41;
    &&& 1 <= table[at + 20] <= 4
    &&& supported_ggml_type(le_u32(table, at + 37))
    &&& le_u64(table, at + 12) <= u32::MAX
}

/// Whether the tensor of entry `index` lies in the base store.
pub open spec fn entry_in_base(table: Seq<u8>, index: int) -> bool {
    let at = index * 41;
    le_u64(table, at + 4) + le_u64(table, at + 12) <= QWH9_BASE_BYTES
}

/// Why a tensor table is refused from entry `index` on, if it is: the first
/// bad entry decides.
pub open spec fn table_verdict(table: Seq<u8>, index: int) -> Result<(), Seq<char>>
    decreases QWH9_TENSOR_COUNT - index,
{
    if index >= QWH9_TENSOR_COUNT {
        Ok(())
    } else if !entry_describes_tensor(table, index) {
        Err("invalid QWH9 tensor table entry "@ + decimal_text(index as nat))
    } else if !entry_in_base(table, index) {
        Err("QWH9 tensor table entry "@ + decimal_text(index as nat) + " exceeds base store"@)
    } else {
        table_verdict(table, index + 1)
    }
}

/// A table is accepted exactly when each entry describes a tensor that lies
/// in the base store.
pub proof fn law_table_accepted_iff_every_entry_good(table: Seq<u8>, index: int)
    requires
        0 <= index <= QWH9_TENSOR_COUNT,
    ensures
        table_verdict(table, index) is Ok <==> forall|i: int|
            index <= i < QWH9_TENSOR_COUNT ==> #[trigger] entry_describes_tensor(table, i)
                && entry_in_base(table, i),
    decreases QWH9_TENSOR_COUNT - index,
{
    if index < QWH9_TENSOR_COUNT {
        law_table_accepted_iff_every_entry_good(table, index + 1);
        assert(entry_describes_tensor(table, index) || !entry_describes_tensor(table, index));
    }
}

/// Checks the tensor table of an export.
fn check_table(table: &[u8]) -> (res: Result<(), String>)
    requires
        table@.len() == QWH9_TENSOR_COUNT * ENTRY_BYTES,
    ensures
        viewed(res) == table_verdict(table@, 0),
{
    let count: usize = QWH9_TENSOR_COUNT as usize;
    let mut index: usize = 0;
    while index < count
        invariant
            count == QWH9_TENSOR_COUNT,
            table@.len() == QWH9_TENSOR_COUNT * ENTRY_BYTES,
            index <= count,
            table_verdict(table@, 0) == table_verdict(table@, index as int),
        decreases count - index,
    {
        let at: usize = index * ENTRY_BYTES;
        let offset = read_header_u64(table, at + 4)?;
        let bytes = read_header_u64(table, at + 12)?;
        let ndim = table[at + 20];
        let ggml_type = read_header_u32(table, at + 37)?;
        // The table stores the GGML type IDs, not the compact
        // QWEN_DTYPE_WEIGHT_* IDs used by the generated DSP catalog.
        let supported = matches!(ggml_type, 0 | 2 | 3 | 8 | 13 | 14);
        if ndim == 0 || ndim > 4 || !supported || bytes > u32::MAX as u64 {
            let mut error = "invalid QWH9 tensor table entry ".to_owned();
            push_decimal(&mut error, index as u64);
            return Err(error);
        }
        let inside = match offset.checked_add(bytes) {
            Some(end) => end <= QWH9_BASE_BYTES as u64,
            None => false,
        };
        if !inside {
            let mut error = "QWH9 tensor table entry ".to_owned();
            push_decimal(&mut error, index as u64);
            error.append(" exceeds base store");
            return Err(error);
        }
        index += 1;
    }
    Ok(())
}

/// Where the QHM4 sidecar of a resident export begins.
pub open spec fn sidecar_start() -> int {
    QWH9_DATA_START + QWH9_BASE_BYTES
}

/// How long a resident export is.
pub open spec fn export_bytes() -> int {
    sidecar_start() + QHM4_BYTES
}

/// The layout of a resident export.
pub open spec fn export_layout() -> Qwen35Q4WeightLayout {
    Qwen35Q4WeightLayout {
        file_bytes: export_bytes() as u64,
        base_bytes: QWH9_BASE_BYTES,
        data_start: QWH9_DATA_START,
        sidecar_offset: sidecar_start() as usize,
        hmx_bytes: QHM4_BYTES,
    }
}

/// The base store begins right after the tensor table, rounded up to 128
/// bytes; the sidecar follows the base store, and the file ends with it.
pub proof fn law_layout_is_contiguous()
    ensures
        export_layout().data_start == aligned128(
            (HEADER_BYTES + QWH9_TENSOR_COUNT * ENTRY_BYTES) as nat,
        ),
        export_layout().sidecar_offset == export_layout().data_start + export_layout().base_bytes,
        export_layout().file_bytes == export_layout().sidecar_offset + export_layout().hmx_bytes,
{
}

/// The layout of an export with this sidecar header and file size, or why it
/// is refused.
pub open spec fn sidecar_verdict(sidecar: Seq<u8>, file_bytes: u64) -> Result<
    Qwen35Q4WeightLayout,
    Seq<char>,
> {
    let version = le_u32(sidecar, 4);
    let count = le_u32(sidecar, 8);
    let hmx_bytes = le_u64(sidecar, 12);
    if sidecar.subrange(0, 4) != qhm4_magic() {
        Err("QWH9 export is missing its QHM4 HMX sidecar"@)
    } else if version != QHM4_VERSION || count != QHM4_TENSOR_COUNT || hmx_bytes != QHM4_BYTES {
        Err(
            "unsupported QHM4 sidecar: version="@ + decimal_text(version as nat) + ", tensors="@
                + decimal_text(count as nat) + ", bytes="@ + decimal_text(hmx_bytes as nat),
        )
    } else if file_bytes != export_bytes() {
        Err(
            "QWH9/QHM4 file size mismatch: expected "@ + decimal_text(export_bytes() as nat)
                + ", got "@ + decimal_text(file_bytes as nat),
        )
    } else {
        Ok(export_layout())
    }
}

/// Checks the QHM4 sidecar header and the size of the file.
fn check_sidecar(sidecar: &[u8], file_bytes: u64) -> (res: Result<Qwen35Q4WeightLayout, String>)
    requires
        sidecar@.len() == HEADER_BYTES,
    ensures
        viewed(res) == sidecar_verdict(sidecar@, file_bytes),
{
    if !starts_with(sidecar, 0x51, 0x48, 0x4d, 0x34) {
        return Err("QWH9 export is missing its QHM4 HMX sidecar".to_owned());
    }
    let version = read_header_u32(sidecar, 4)?;
    let count = read_header_u32(sidecar, 8)?;
    let hmx_bytes = read_header_u64(sidecar, 12)?;
    if version != QHM4_VERSION || count != QHM4_TENSOR_COUNT || hmx_bytes != QHM4_BYTES as u64 {
        let mut error = "unsupported QHM4 sidecar: version=".to_owned();
        push_decimal(&mut error, version as u64);
        error.append(", tensors=");
        push_decimal(&mut error, count as u64);
        error.append(", bytes=");
        push_decimal(&mut error, hmx_bytes);
        return Err(error);
    }
    let data_start: usize = align128(HEADER_BYTES + QWH9_TENSOR_COUNT as usize * ENTRY_BYTES);
    let sidecar_offset: usize = data_start + QWH9_BASE_BYTES;
    let expected: u64 = (sidecar_offset + QHM4_BYTES) as u64;
    if file_bytes != expected {
        let mut error = "QWH9/QHM4 file size mismatch: expected ".to_owned();
        push_decimal(&mut error, expected);
        error.append(", got ");
        push_decimal(&mut error, file_bytes);
        return Err(error);
    }
    Ok(
        Qwen35Q4WeightLayout {
            file_bytes,
            base_bytes: QWH9_BASE_BYTES,
            data_start,
            sidecar_offset,
            hmx_bytes: QHM4_BYTES,
        },
    )
}

/// How far the validation of a file has come.
#[derive(Debug, Clone, Copy, PartialEq, Eq, Structural)]
pub enum ExportStage {
    /// The size of the file is asked for.
    Stat,
    /// The file is to be opened.
    Open { file_bytes: u64 },
    /// The QWH9 header is to be read.
    Header { file_bytes: u64 },
    /// The tensor table is to be read; it follows the header.
    Table { file_bytes: u64 },
    /// The reader is to move to the sidecar.
    Seek { file_bytes: u64 },
    /// The sidecar header is to be read.
    Sidecar { file_bytes: u64 },
}

/// The file access that a stage waits for.
#[derive(Debug, Clone, Copy, PartialEq, Eq, Structural)]
pub enum ExportAction {
    Stat,
    Open,
    Read { bytes: usize },
    Seek { offset: u64 },
}

/// What a file access gave.
#[derive(Debug)]
pub enum ExportEvent {
    Size(u64),
    Opened,
    Data(Vec<u8>),
    Sought,
    Failed(String),
}

/// What a file access gave, as plain values.
pub enum ExportEventView {
    Size(u64),
    Opened,
    Data(Seq<u8>),
    Sought,
    Failed(Seq<char>),
}

impl View for ExportEvent {
    type V = ExportEventView;

    open spec fn view(&self) -> ExportEventView {
        match self {
            ExportEvent::Size(bytes) => ExportEventView::Size(*bytes),
            ExportEvent::Opened => ExportEventView::Opened,
            ExportEvent::Data(data) => ExportEventView::Data(data@),
            ExportEvent::Sought => ExportEventView::Sought,
            ExportEvent::Failed(error) => ExportEventView::Failed(error@),
        }
    }
}

/// Whether validation goes on, or how it ended.
#[derive(Debug)]
pub enum ExportProgress {
    Continue(ExportStage),
    Finished(Result<Qwen35Q4WeightLayout, String>),
}

/// Whether validation goes on, or how it ended, as plain values.
pub enum ExportProgressView {
    Continue(ExportStage),
    Finished(Result<Qwen35Q4WeightLayout, Seq<char>>),
}

impl View for ExportProgress {
    type V = ExportProgressView;

    open spec fn view(&self) -> ExportProgressView {
        match self {
            ExportProgress::Continue(stage) => ExportProgressView::Continue(*stage),
            ExportProgress::Finished(res) => ExportProgressView::Finished(viewed(*res)),
        }
    }
}

impl ExportStage {
    /// The file access that this stage waits for.
    pub open spec fn awaits(self) -> ExportAction {
        match self {
            ExportStage::Stat => ExportAction::Stat,
            ExportStage::Open { .. } => ExportAction::Open,
            ExportStage::Header { .. } => ExportAction::Read { bytes: 20 },
            ExportStage::Table { .. } => ExportAction::Read { bytes: 13366 },
            ExportStage::Seek { .. } => ExportAction::Seek { offset: sidecar_start() as u64 },
            ExportStage::Sidecar { .. } => ExportAction::Read { bytes: 20 },
        }
    }

    /// Whether `event` answers what this stage waits for.
    pub open spec fn answered_by(self, event: ExportEventView) -> bool {
        match (self.awaits(), event) {
            (_, ExportEventView::Failed(_)) => true,
            (ExportAction::Stat, ExportEventView::Size(_)) => true,
            (ExportAction::Open, ExportEventView::Opened) => true,
            (ExportAction::Read { bytes }, ExportEventView::Data(data)) => data.len() == bytes,
            (ExportAction::Seek { .. }, ExportEventView::Sought) => true,
            _ => false,
        }
    }

    /// The file access that this stage waits for.
    pub fn action(self) -> (r: ExportAction)
        ensures
            r == self.awaits(),
    {
        let table_bytes: usize = QWH9_TENSOR_COUNT as usize * ENTRY_BYTES;
        match self {
            ExportStage::Stat => ExportAction::Stat,
            ExportStage::Open { .. } => ExportAction::Open,
            ExportStage::Header { .. } => ExportAction::Read { bytes: HEADER_BYTES },
            ExportStage::Table { .. } => ExportAction::Read { bytes: table_bytes },
            ExportStage::Seek { .. } => {
                let data_start: usize = align128(HEADER_BYTES + table_bytes);
                ExportAction::Seek { offset: (data_start + QWH9_BASE_BYTES) as u64 }
            },
            ExportStage::Sidecar { .. } => ExportAction::Read { bytes: HEADER_BYTES },
        }
    }
}

/// The text of a failed file access.
pub open spec fn access_error(path: Seq<char>, stage: ExportStage, error: Seq<char>) -> Seq<char> {
    match stage {
        ExportStage::Stat => "cannot stat Qwen3.5 Q4 weights "@ + path + ": "@ + error,
        ExportStage::Open { .. } => "cannot open Qwen3.5 Q4 weights "@ + path + ": "@ + error,
        ExportStage::Header { .. } => "cannot read QWH9 header from "@ + path + ": "@ + error,
        ExportStage::Table { .. } => "cannot read QWH9 tensor table: "@ + error,
        ExportStage::Seek { .. } => "cannot seek to QHM4 sidecar: "@ + error,
        ExportStage::Sidecar { .. } => "cannot read QHM4 sidecar header: "@ + error,
    }
}

fn access_error_text(path: &str, stage: ExportStage, error: &str) -> (r: String)
    ensures
        r@ == access_error(path@, stage, error@),
{
    let mut text = match stage {
        ExportStage::Stat => {
            let mut text = "cannot stat Qwen3.5 Q4 weights ".to_owned();
            text.append(path);
            text.append(": ");
            text
        },
        ExportStage::Open { .. } => {
            let mut text = "cannot open Qwen3.5 Q4 weights ".to_owned();
            text.append(path);
            text.append(": ");
            text
        },
        ExportStage::Header { .. } => {
            let mut text = "cannot read QWH9 header from ".to_owned();
            text.append(path);
            text.append(": ");
            text
        },
        ExportStage::Table { .. } => "cannot read QWH9 tensor table: ".to_owned(),
        ExportStage::Seek { .. } => "cannot seek to QHM4 sidecar: ".to_owned(),
        ExportStage::Sidecar { .. } => "cannot read QHM4 sidecar header: ".to_owned(),
    };
    text.append(error);
    text
}

/// Where an event takes the validation of the file at `path`.
pub open spec fn validation_step(
    path: Seq<char>,
    stage: ExportStage,
    event: ExportEventView,
) -> ExportProgressView {
    match (stage, event) {
        (_, ExportEventView::Failed(error)) => ExportProgressView::Finished(
            Err(access_error(path, stage, error)),
        ),
        (ExportStage::Stat, ExportEventView::Size(file_bytes)) => ExportProgressView::Continue(
            ExportStage::Open { file_bytes },
        ),
        (ExportStage::Open { file_bytes }, ExportEventView::Opened) =>
            ExportProgressView::Continue(ExportStage::Header { file_bytes }),
        (ExportStage::Header { file_bytes }, ExportEventView::Data(header)) =>
            match header_verdict(path, header) {
                Err(error) => ExportProgressView::Finished(Err(error)),
                Ok(()) => ExportProgressView::Continue(ExportStage::Table { file_bytes }),
            },
        (ExportStage::Table { file_bytes }, ExportEventView::Data(table)) =>
            match table_verdict(table, 0) {
                Err(error) => ExportProgressView::Finished(Err(error)),
                Ok(()) => ExportProgressView::Continue(ExportStage::Seek { file_bytes }),
            },
        (ExportStage::Seek { file_bytes }, ExportEventView::Sought) =>
            ExportProgressView::Continue(ExportStage::Sidecar { file_bytes }),
        (ExportStage::Sidecar { file_bytes }, ExportEventView::Data(sidecar)) =>
            ExportProgressView::Finished(sidecar_verdict(sidecar, file_bytes)),
        _ => ExportProgressView::Continue(stage),
    }
}

/// Takes the validation of the QWH9/QHM4 export at `path` one step further:
/// `event` is what the file access that the stage waits for gave.
pub fn validate_qwen35_q4_weights(path: &str, stage: ExportStage, event: &ExportEvent) -> (res:
    ExportProgress)
    requires
        stage.answered_by(event@),
    ensures
        res@ == validation_step(path@, stage, event@),
{
    match (stage, event) {
        (_, ExportEvent::Failed(error)) => ExportProgress::Finished(
            Err(access_error_text(path, stage, error.as_str())),
        ),
        (ExportStage::Stat, ExportEvent::Size(file_bytes)) => ExportProgress::Continue(
            ExportStage::Open { file_bytes: *file_bytes },
        ),
        (ExportStage::Open { file_bytes }, ExportEvent::Opened) => ExportProgress::Continue(
            ExportStage::Header { file_bytes },
        ),
        (ExportStage::Header { file_bytes }, ExportEvent::Data(header)) => match check_header(
            path,
            header.as_slice(),
        ) {
            Err(error) => ExportProgress::Finished(Err(error)),
            Ok(()) => ExportProgress::Continue(ExportStage::Table { file_bytes }),
        },
        (ExportStage::Table { file_bytes }, ExportEvent::Data(table)) => match check_table(
            table.as_slice(),
        ) {
            Err(error) => ExportProgress::Finished(Err(error)),
            Ok(()) => ExportProgress::Continue(ExportStage::Seek { file_bytes }),
        },
        (ExportStage::Seek { file_bytes }, ExportEvent::Sought) => ExportProgress::Continue(
            ExportStage::Sidecar { file_bytes },
        ),
        (ExportStage::Sidecar { file_bytes }, ExportEvent::Data(sidecar)) =>
            ExportProgress::Finished(check_sidecar(sidecar.as_slice(), file_bytes)),
        _ => ExportProgress::Continue(stage),
    }
}


impl ExportStage {
    /// The number of stages that come before this one.
    pub open spec fn rank(self) -> nat {
        match self {
            ExportStage::Stat => 0,
            ExportStage::Open { .. } => 1,
            ExportStage::Header { .. } => 2,
            ExportStage::Table { .. } => 3,
            ExportStage::Seek { .. } => 4,
            ExportStage::Sidecar { .. } => 5,
        }
    }
}

/// What a file with the given contents answers at a stage. A read past its
/// end fails with the text `error`.
pub open spec fn file_answer(file: Seq<u8>, stage: ExportStage, error: Seq<char>) ->
    ExportEventView {
    let start = match stage {
        ExportStage::Table { .. } => 20,
        ExportStage::Sidecar { .. } => sidecar_start(),
        _ => 0,
    };
    match stage.awaits() {
        ExportAction::Stat => ExportEventView::Size(file.len() as u64),
        ExportAction::Open => ExportEventView::Opened,
        ExportAction::Seek { .. } => ExportEventView::Sought,
        ExportAction::Read { bytes } => if start + bytes <= file.len() {
            ExportEventView::Data(file.subrange(start, start + bytes))
        } else {
            ExportEventView::Failed(error)
        },
    }
}

/// How the validation of a file with the given contents ends, from a stage
/// on.
pub open spec fn validation_outcome(
    path: Seq<char>,
    file: Seq<u8>,
    error: Seq<char>,
    stage: ExportStage,
) -> Result<Qwen35Q4WeightLayout, Seq<char>>
    decreases 6 - stage.rank(),
{
    match validation_step(path, stage, file_answer(file, stage, error)) {
        ExportProgressView::Finished(res) => res,
        ExportProgressView::Continue(next) => if next.rank() > stage.rank() {
            validation_outcome(path, file, error, next)
        } else {
            Err(error)
        },
    }
}

/// Whether the contents of a file are a complete resident export of the
/// selected checkpoint.
pub open spec fn valid_export(file: Seq<u8>) -> bool {
    let header = file.subrange(0, 20);
    let table = file.subrange(20, 13386);
    let sidecar = file.subrange(sidecar_start(), sidecar_start() + 20);
    &&& file.len() == export_bytes()
    &&& header.subrange(0, 4) == qwh9_magic()
    &&& le_u32(header, 4) == 1
    &&& le_u32(header, 8) == QWH9_TENSOR_COUNT
    &&& le_u64(header, 12) == QWH9_BASE_BYTES
    &&& forall|i: int|
        0 <= i < QWH9_TENSOR_COUNT ==> #[trigger] entry_describes_tensor(table, i)
            && entry_in_base(table, i)
    &&& sidecar.subrange(0, 4) == qhm4_magic()
    &&& le_u32(sidecar, 4) == QHM4_VERSION
    &&& le_u32(sidecar, 8) == QHM4_TENSOR_COUNT
    &&& le_u64(sidecar, 12) == QHM4_BYTES
}

/// Validation ends for every file. It accepts exactly the complete resident
/// exports, and then gives the layout of the export.
#[verifier::spinoff_prover]
pub proof fn law_exactly_complete_exports_are_accepted(
    path: Seq<char>,
    file: Seq<u8>,
    error: Seq<char>,
)
    requires
        file.len() <= u64::MAX,
    ensures
        validation_outcome(path, file, error, ExportStage::Stat) is Ok <==> valid_export(file),
        valid_export(file) ==> validation_outcome(path, file, error, ExportStage::Stat) == Ok::<
            Qwen35Q4WeightLayout,
            Seq<char>,
        >(export_layout()),
{
    let file_bytes = file.len() as u64;
    let open = ExportStage::Open { file_bytes };
    let header = ExportStage::Header { file_bytes };
    let table = ExportStage::Table { file_bytes };
    let seek = ExportStage::Seek { file_bytes };
    let sidecar = ExportStage::Sidecar { file_bytes };
    assert(validation_outcome(path, file, error, ExportStage::Stat) == validation_outcome(
        path,
        file,
        error,
        open,
    ));
    assert(validation_outcome(path, file, error, open) == validation_outcome(
        path,
        file,
        error,
        header,
    ));
    assert(validation_outcome(path, file, error, header) is Ok ==> validation_outcome(
        path,
        file,
        error,
        header,
    ) == validation_outcome(path, file, error, table));
    assert(validation_outcome(path, file, error, table) is Ok ==> validation_outcome(
        path,
        file,
        error,
        table,
    ) == validation_outcome(path, file, error, seek));
    assert(validation_outcome(path, file, error, seek) == validation_outcome(
        path,
        file,
        error,
        sidecar,
    ));
    law_table_accepted_iff_every_entry_good(file.subrange(20, 13386), 0);
}

/// Whatever the file answers, the stage that comes next is a later one, and
/// the answer of the file is one that the stage takes.
pub proof fn law_validation_advances(
    path: Seq<char>,
    file: Seq<u8>,
    error: Seq<char>,
    stage: ExportStage,
)
    ensures
        stage.answered_by(file_answer(file, stage, error)),
        validation_step(path, stage, file_answer(file, stage, error)) matches
            ExportProgressView::Continue(next) ==> next.rank() == stage.rank() + 1,
{
}

/// The GGML number of single-precision tensors.
pub const GGML_F32: u32 = 0;

/// The GGML number of Q4_0 tensors.
pub const GGML_Q4_0: u32 = 2;

/// The GGML number of Q4_1 tensors.
pub const GGML_Q4_1: u32 = 3;

/// The GGML number of Q8_0 tensors.
pub const GGML_Q8_0: u32 = 8;

/// The GGML number of Q5_K tensors.
pub const GGML_Q5_K: u32 = 13;

/// The GGML number of Q6_K tensors.
pub const GGML_Q6_K: u32 = 14;

/// A tensor that the exporter writes to the base store.
pub struct ExportedTensor {
    /// The four bytes that identify the tensor.
    pub id: Seq<u8>,
    pub offset: u64,
    pub bytes: u64,
    pub dimensions: u8,
    /// The sixteen bytes of its extents.
    pub extents: Seq<u8>,
    pub ggml_type: u32,
}

/// The eight bytes of a double word, the low byte first.
pub open spec fn u64_le(value: u64) -> Seq<u8> {
    u32_le((value % 0x1_0000_0000) as u32) + u32_le((value / 0x1_0000_0000) as u32)
}

impl ExportedTensor {
    /// The entry of the table for the tensor.
    pub open spec fn entry(self) -> Seq<u8> {
        self.id + u64_le(self.offset) + u64_le(self.bytes) + seq![self.dimensions] + self.extents
            + u32_le(self.ggml_type)
    }

    /// Whether the entry has its form.
    pub open spec fn formed(self) -> bool {
        self.id.len() == 4 && self.extents.len() == 16
    }

    /// Whether the resident module can use the tensor: it has one to four
    /// dimensions, one of the six element types of the export, and lies in the
    /// base store.
    pub open spec fn usable(self) -> bool {
        &&& 1 <= self.dimensions <= 4
        &&& set![GGML_F32, GGML_Q4_0, GGML_Q4_1, GGML_Q5_K, GGML_Q6_K, GGML_Q8_0].contains(
            self.ggml_type,
        )
        &&& self.bytes < 0x1_0000_0000
        &&& self.offset + self.bytes <= 560_014_848
    }
}

proof fn lemma_double_word(bytes: Seq<u8>, offset: int, value: u64)
    requires
        0 <= offset,
        offset + 8 <= bytes.len(),
        bytes.subrange(offset, offset + 8) == u64_le(value),
    ensures
        le_u64(bytes, offset) == value,
{
    let part = bytes.subrange(offset, offset + 8);
    let low = (value % 0x1_0000_0000) as u32;
    let high = (value / 0x1_0000_0000) as u32;
    assert forall|j: int| 0 <= j < 8 implies #[trigger] bytes[offset + j] == u64_le(value)[j] by {
        assert(part[j] == bytes[offset + j]);
    }
    assert(bytes[offset + 0] == u64_le(value)[0]);
    assert(bytes[offset + 1] == u64_le(value)[1]);
    assert(bytes[offset + 2] == u64_le(value)[2]);
    assert(bytes[offset + 3] == u64_le(value)[3]);
    assert(bytes[offset + 4] == u64_le(value)[4]);
    assert(bytes[offset + 5] == u64_le(value)[5]);
    assert(bytes[offset + 6] == u64_le(value)[6]);
    assert(bytes[offset + 7] == u64_le(value)[7]);
    lemma_bytes_of_word(bytes, offset, low);
    lemma_bytes_of_word(bytes, offset + 4, high);
}

proof fn lemma_single_word(bytes: Seq<u8>, offset: int, value: u32)
    requires
        0 <= offset,
        offset + 4 <= bytes.len(),
        bytes.subrange(offset, offset + 4) == u32_le(value),
    ensures
        le_u32(bytes, offset) == value,
{
    let part = bytes.subrange(offset, offset + 4);
    assert(part[0] == bytes[offset] && part[1] == bytes[offset + 1]);
    assert(part[2] == bytes[offset + 2] && part[3] == bytes[offset + 3]);
    lemma_bytes_of_word(bytes, offset, value);
}

/// An entry of a table is read as what the exporter wrote there, and it is good
/// exactly when the tensor is usable.
proof fn lemma_entry(table: Seq<u8>, index: int, tensor: ExportedTensor)
    requires
        0 <= index,
        index * 41 + 41 <= table.len(),
        tensor.formed(),
        table.subrange(index * 41, index * 41 + 41) == tensor.entry(),
    ensures
        entry_describes_tensor(table, index) && entry_in_base(table, index) <==> tensor.usable(),
        entry_in_base(table, index) <==> tensor.offset + tensor.bytes <= 560_014_848,
{
    let at = index * 41;
    let entry = tensor.entry();
    let part = table.subrange(at, at + 41);
    assert(u64_le(tensor.offset).len() == 8 && u64_le(tensor.bytes).len() == 8);
    assert(entry.len() == 41);
    assert(table.subrange(at + 4, at + 12) =~= part.subrange(4, 12));
    assert(entry.subrange(4, 12) =~= u64_le(tensor.offset));
    lemma_double_word(table, at + 4, tensor.offset);
    assert(table.subrange(at + 12, at + 20) =~= part.subrange(12, 20));
    assert(entry.subrange(12, 20) =~= u64_le(tensor.bytes));
    lemma_double_word(table, at + 12, tensor.bytes);
    assert(part[20] == table[at + 20]);
    assert(entry[20] == tensor.dimensions);
    assert(table.subrange(at + 37, at + 41) =~= part.subrange(37, 41));
    assert(entry.subrange(37, 41) =~= u32_le(tensor.ggml_type));
    lemma_single_word(table, at + 37, tensor.ggml_type);
}

/// A tensor table is accepted exactly when every tensor of it is usable, and
/// validation then goes on to the sidecar. Where one is not, the first such decides:
/// the refusal names it, and says whether it is no tensor or lies outside the base
/// store.
pub proof fn law_table_accepted_iff_tensors_are_usable(
    path: &str,
    file_bytes: u64,
    table: Vec<u8>,
    tensors: Seq<ExportedTensor>,
    first: int,
    r: ExportProgress,
)
    requires
        tensors.len() == 326,
        table@.len() == 326 * 41,
        forall|i: int|
            0 <= i < 326 ==> (#[trigger] tensors[i]).formed() && table@.subrange(
                i * 41,
                i * 41 + 41,
            ) == tensors[i].entry(),
        0 <= first < 326,
        call_ensures(
            validate_qwen35_q4_weights,
            (path, (ExportStage::Table { file_bytes }), &ExportEvent::Data(table)),
            r,
        ),
    ensures
        (forall|i: int| 0 <= i < 326 ==> (#[trigger] tensors[i]).usable()) <==> r
            == ExportProgress::Continue((ExportStage::Seek { file_bytes })),
        (forall|i: int| 0 <= i < first ==> (#[trigger] tensors[i]).usable())
            && !tensors[first].usable() ==> {
            &&& r matches ExportProgress::Finished(Err(message))
            &&& {
                ||| message@ == "invalid QWH9 tensor table entry "@ + decimal_text(first as nat)
                ||| message@ == "QWH9 tensor table entry "@ + decimal_text(first as nat)
                    + " exceeds base store"@ && tensors[first].offset + tensors[first].bytes
                    > 560_014_848
            }
        },
{
    lemma_table_verdict(table@, tensors, first);
    assert(ExportEvent::Data(table)@ == ExportEventView::Data(table@));
}

proof fn lemma_table_verdict(table: Seq<u8>, tensors: Seq<ExportedTensor>, first: int)
    requires
        tensors.len() == 326,
        table.len() == 326 * 41,
        forall|i: int|
            0 <= i < 326 ==> (#[trigger] tensors[i]).formed() && table.subrange(i * 41, i * 41 + 41)
                == tensors[i].entry(),
        0 <= first < 326,
    ensures
        table_verdict(table, 0) is Ok <==> forall|i: int|
            0 <= i < 326 ==> (#[trigger] tensors[i]).usable(),
        (forall|i: int| 0 <= i < first ==> (#[trigger] tensors[i]).usable())
            && !tensors[first].usable() ==> {
            ||| table_verdict(table, 0) == Err::<(), Seq<char>>(
                "invalid QWH9 tensor table entry "@ + decimal_text(first as nat),
            )
            ||| table_verdict(table, 0) == Err::<(), Seq<char>>(
                "QWH9 tensor table entry "@ + decimal_text(first as nat) + " exceeds base store"@,
            ) && tensors[first].offset + tensors[first].bytes > 560_014_848
        },
{
    law_table_accepted_iff_every_entry_good(table, 0);
    assert forall|i: int| 0 <= i < 326 implies (#[trigger] entry_describes_tensor(table, i)
        && entry_in_base(table, i) <==> tensors[i].usable()) by {
        assert(tensors[i].formed());
        lemma_entry(table, i, tensors[i]);
    }
    assert forall|i: int| 0 <= i < 326 && table_verdict(table, 0) is Ok implies (
    #[trigger] tensors[i]).usable() by {
        assert(entry_describes_tensor(table, i) && entry_in_base(table, i));
    }
    if (forall|i: int| 0 <= i < first ==> (#[trigger] tensors[i]).usable())
        && !tensors[first].usable() {
        assert forall|i: int| 0 <= i < first implies #[trigger] entry_describes_tensor(table, i)
            && entry_in_base(table, i) by {
            assert(tensors[i].usable());
        }
        lemma_first_bad_entry(table, 0, first);
        assert(tensors[first].formed());
        lemma_entry(table, first, tensors[first]);
    }
}

proof fn lemma_first_bad_entry(table: Seq<u8>, index: int, first: int)
    requires
        0 <= index <= first < QWH9_TENSOR_COUNT,
        forall|i: int|
            index <= i < first ==> #[trigger] entry_describes_tensor(table, i) && entry_in_base(
                table,
                i,
            ),
        !(entry_describes_tensor(table, first) && entry_in_base(table, first)),
    ensures
        table_verdict(table, index) == (if !entry_describes_tensor(table, first) {
            Err::<(), Seq<char>>("invalid QWH9 tensor table entry "@ + decimal_text(first as nat))
        } else {
            Err::<(), Seq<char>>(
                "QWH9 tensor table entry "@ + decimal_text(first as nat) + " exceeds base store"@,
            )
        }),
    decreases first - index,
{
    if index < first {
        assert(entry_describes_tensor(table, index));
        lemma_first_bad_entry(table, index + 1, first);
    }
}

/// Whether a file is what the exporter of the selected checkpoint writes for
/// these tensors: the header, the tensor table, the base store from byte 13440 on
/// and behind it the sidecar.
pub open spec fn is_export_of(file: Seq<u8>, tensors: Seq<ExportedTensor>) -> bool {
    &&& file.len() == 13_440 + 560_014_848 + 994_050_176
    &&& file.subrange(0, 20) == seq![0x51u8, 0x57, 0x48, 0x39] + u32_le(1) + u32_le(326) + u64_le(
        560_014_848,
    )
    &&& tensors.len() == 326
    &&& forall|i: int|
        0 <= i < 326 ==> (#[trigger] tensors[i]).formed() && file.subrange(
            20 + i * 41,
            20 + i * 41 + 41,
        ) == tensors[i].entry()
    &&& file.subrange(560_028_288, 560_028_308) == seq![0x51u8, 0x48, 0x4d, 0x34] + u32_le(8)
        + u32_le(150) + u64_le(994_050_176)
}

proof fn lemma_header_words(header: Seq<u8>, magic: Seq<u8>, a: u32, b: u32, c: u64)
    requires
        magic.len() == 4,
        header == magic + u32_le(a) + u32_le(b) + u64_le(c),
    ensures
        header.len() == 20,
        header.subrange(0, 4) == magic,
        le_u32(header, 4) == a,
        le_u32(header, 8) == b,
        le_u64(header, 12) == c,
{
    assert(u64_le(c).len() == 8);
    assert(header.subrange(0, 4) =~= magic);
    assert(header.subrange(4, 8) =~= u32_le(a));
    lemma_single_word(header, 4, a);
    assert(header.subrange(8, 12) =~= u32_le(b));
    lemma_single_word(header, 8, b);
    assert(header.subrange(12, 20) =~= u64_le(c));
    lemma_double_word(header, 12, c);
}

/// What the exporter writes is accepted exactly when every tensor is usable, and
/// then the layout says where the base store and the sidecar lie.
pub proof fn law_exports_of_usable_tensors_are_accepted(
    path: Seq<char>,
    file: Seq<u8>,
    error: Seq<char>,
    tensors: Seq<ExportedTensor>,
)
    requires
        is_export_of(file, tensors),
    ensures
        validation_outcome(path, file, error, ExportStage::Stat) is Ok <==> forall|i: int|
            0 <= i < 326 ==> (#[trigger] tensors[i]).usable(),
        validation_outcome(path, file, error, ExportStage::Stat) matches Ok(layout) ==> layout == (
        Qwen35Q4WeightLayout {
            file_bytes: 1_554_078_464,
            base_bytes: 560_014_848,
            data_start: 13_440,
            sidecar_offset: 560_028_288,
            hmx_bytes: 994_050_176,
        }),
{
    law_exactly_complete_exports_are_accepted(path, file, error);
    let header = file.subrange(0, 20);
    let table = file.subrange(20, 13386);
    let sidecar = file.subrange(560_028_288, 560_028_308);
    lemma_header_words(header, seq![0x51u8, 0x57, 0x48, 0x39], 1, 326, 560_014_848);
    lemma_header_words(sidecar, seq![0x51u8, 0x48, 0x4d, 0x34], 8, 150, 994_050_176);
    assert forall|i: int| 0 <= i < 326 implies (#[trigger] entry_describes_tensor(table, i)
        && entry_in_base(table, i) <==> tensors[i].usable()) by {
        assert(tensors[i].formed());
        assert(table.subrange(i * 41, i * 41 + 41) =~= file.subrange(20 + i * 41, 20 + i * 41 + 41));
        lemma_entry(table, i, tensors[i]);
    }
    assert forall|i: int| 0 <= i < 326 && valid_export(file) implies (
    #[trigger] tensors[i]).usable() by {
        assert(entry_describes_tensor(table, i) && entry_in_base(table, i));
    }
}

} // verus!
