use std::path::PathBuf;

use luminal_backends::data::HostData;
use luminal_backends::dtype::DType;
use luminal_backends::graph::{GraphEdge, GraphNode, LlirGraph};
use luminal_backends::hexagon::config::HexagonEnvironment;
use luminal_backends::hexagon::qwen35::config::{
    DEFAULT_QWEN_SKEL_URI, Qwen35Environment, Qwen35Q4Config,
};
use luminal_backends::hexagon::qwen35::export::{
    ExportAction, ExportEvent, ExportProgress, ExportStage, Qwen35Q4WeightLayout,
    parse_qwh9_header, validate_qwen35_q4_weights,
};
use luminal_backends::hexagon::qwen35::runtime::{
    Qwen35Runtime, QwenGraphError, QwenLoadError, check_limit, compile_graph, prompt_limit_text,
};
use luminal_backends::hexagon::qwen35::session::{
    ComputeCall, Qwen35Session, Qwen35Token, SessionAction, SessionBuffer, SessionEvent,
    SessionProgress, SessionStage, Store, TeardownAction, bind_request, initialize_runtime,
    initialize_runtime_control, stop_request,
};
use luminal_backends::hexagon::qwen35::step::{PromptError, Qwen35Q4Step, qwen35_q4_step};
use luminal_backends::hexagon::qwen35::{
    EXPORTED_WEIGHT_FILENAME, FULL_ATTENTION_LAYERS, MAX_DECODE_CONTEXT, NUM_LAYERS,
    NUM_LINEAR_ATTENTION_LAYERS, QHM4_BYTES, QWEN_RUNTIME_BYTES, QWH9_BASE_BYTES, QWH9_DATA_START,
};

#[test]
fn qwen35_architecture_matches_selected_checkpoint() {
    assert_eq!(NUM_LAYERS, 24);
    assert_eq!(FULL_ATTENTION_LAYERS, [3, 7, 11, 15, 19, 23]);
    assert_eq!(NUM_LINEAR_ATTENTION_LAYERS, 18);
    assert_eq!(QWEN_RUNTIME_BYTES, 211_195_648);
}

#[test]
fn raw_gguf_is_rejected_before_allocation() {
    let error = parse_qwh9_header(b"GGUF\0\0\0\0\0\0\0\0\0\0\0\0\0\0\0\0").unwrap_err();
    assert!(error.contains("raw GGUF"));
    assert_eq!(
        error,
        "expected QWH9 resident export, found [71, 71, 85, 70]; raw GGUF is not an HTP weight file"
    );
}

fn header(magic: &[u8], version: u32, count: u32, bytes: u64) -> Vec<u8> {
    let mut header = magic.to_vec();
    header.extend(version.to_le_bytes());
    header.extend(count.to_le_bytes());
    header.extend(bytes.to_le_bytes());
    header
}

fn table() -> Vec<u8> {
    let mut table = Vec::new();
    for index in 0..326u64 {
        let mut entry = vec![0u8; 41];
        entry[4..12].copy_from_slice(&(index * 128).to_le_bytes());
        entry[12..20].copy_from_slice(&128u64.to_le_bytes());
        entry[20] = 2;
        entry[37..41].copy_from_slice(&8u32.to_le_bytes());
        table.extend(entry);
    }
    table
}

struct Export {
    bytes: u64,
    header: Vec<u8>,
    table: Vec<u8>,
    sidecar: Vec<u8>,
}

impl Export {
    fn good() -> Self {
        Export {
            bytes: (QWH9_DATA_START + QWH9_BASE_BYTES + QHM4_BYTES) as u64,
            header: header(b"QWH9", 1, 326, QWH9_BASE_BYTES as u64),
            table: table(),
            sidecar: header(b"QHM4", 8, 150, QHM4_BYTES as u64),
        }
    }

    fn validate(&self) -> Result<Qwen35Q4WeightLayout, String> {
        let mut stage = ExportStage::Stat;
        let mut reads = 0;
        loop {
            let event = match stage.action() {
                ExportAction::Stat => ExportEvent::Size(self.bytes),
                ExportAction::Open => ExportEvent::Opened,
                ExportAction::Seek { offset } => {
                    assert_eq!(offset, (QWH9_DATA_START + QWH9_BASE_BYTES) as u64);
                    ExportEvent::Sought
                }
                ExportAction::Read { bytes } => {
                    let data = [&self.header, &self.table, &self.sidecar][reads].clone();
                    assert_eq!(data.len(), bytes);
                    reads += 1;
                    ExportEvent::Data(data)
                }
            };
            match validate_qwen35_q4_weights("w.bin", stage, &event) {
                ExportProgress::Continue(next) => stage = next,
                ExportProgress::Finished(result) => return result,
            }
        }
    }
}

#[test]
fn complete_export_is_accepted() {
    assert_eq!(
        Export::good().validate(),
        Ok(Qwen35Q4WeightLayout {
            file_bytes: 1_554_078_464,
            base_bytes: 560_014_848,
            data_start: 13_440,
            sidecar_offset: 560_028_288,
            hmx_bytes: 994_050_176,
        })
    );
}

#[test]
fn incomplete_exports_are_rejected() {
    let mut export = Export::good();
    export.header = header(b"QWH9", 2, 326, QWH9_BASE_BYTES as u64);
    assert_eq!(
        export.validate().unwrap_err(),
        "unsupported QWH9 header in w.bin: version=2, tensors=326, base_bytes=560014848"
    );

    let mut export = Export::good();
    export.table[41 + 20] = 5;
    assert_eq!(export.validate().unwrap_err(), "invalid QWH9 tensor table entry 1");

    let mut export = Export::good();
    export.table[37] = 1;
    assert_eq!(export.validate().unwrap_err(), "invalid QWH9 tensor table entry 0");

    let mut export = Export::good();
    export.table[2 * 41 + 4..2 * 41 + 12].copy_from_slice(&(QWH9_BASE_BYTES as u64).to_le_bytes());
    assert_eq!(
        export.validate().unwrap_err(),
        "QWH9 tensor table entry 2 exceeds base store"
    );

    let mut export = Export::good();
    export.sidecar = header(b"QHM3", 8, 150, QHM4_BYTES as u64);
    assert_eq!(
        export.validate().unwrap_err(),
        "QWH9 export is missing its QHM4 HMX sidecar"
    );

    let mut export = Export::good();
    export.sidecar = header(b"QHM4", 7, 150, QHM4_BYTES as u64);
    assert_eq!(
        export.validate().unwrap_err(),
        "unsupported QHM4 sidecar: version=7, tensors=150, bytes=994050176"
    );

    let mut export = Export::good();
    export.bytes = 12;
    assert_eq!(
        export.validate().unwrap_err(),
        "QWH9/QHM4 file size mismatch: expected 1554078464, got 12"
    );

    assert_eq!(parse_qwh9_header(b"QWH9").unwrap_err(), "QWH9 header is truncated");
}

#[test]
fn failed_reads_are_reported() {
    let event = ExportEvent::Failed("gone".to_string());
    match validate_qwen35_q4_weights("w.bin", ExportStage::Stat, &event) {
        ExportProgress::Finished(result) => assert_eq!(
            result.unwrap_err(),
            "cannot stat Qwen3.5 Q4 weights w.bin: gone"
        ),
        ExportProgress::Continue(_) => panic!("went on after a failure"),
    }
}

#[test]
fn settings_come_from_the_environment() {
    let environment = || Qwen35Environment {
        skel_uri: None,
        weights: None,
        rpc: HexagonEnvironment {
            rpc_library: Some(PathBuf::from("rpc.dll")),
            skel_uri: Some("file:///other".to_string()),
        },
    };
    let config = Qwen35Q4Config::from_environment(environment());
    assert_eq!(config.weights, PathBuf::from(EXPORTED_WEIGHT_FILENAME));
    assert_eq!(config.rpc.skel_uri, DEFAULT_QWEN_SKEL_URI);
    assert_eq!(config.rpc.rpc_library, Some(PathBuf::from("rpc.dll")));
    assert_eq!(config.rpc.domain, 3);
    assert!(config.rpc.allow_unsigned_module);
    assert_eq!(config.max_prefill_tokens, 256);

    let config = Qwen35Q4Config::from_weights(PathBuf::from("a.bin"), environment())
        .with_skel_uri("file:///mine".to_string())
        .with_rpc_library(PathBuf::from("mine.dll"))
        .with_max_prefill_tokens(16);
    assert_eq!(config.weights, PathBuf::from("a.bin"));
    assert_eq!(config.rpc.skel_uri, "file:///mine");
    assert_eq!(config.rpc.rpc_library, Some(PathBuf::from("mine.dll")));
    assert_eq!(config.max_prefill_tokens, 16);
    let config = config.with_weights(PathBuf::from("b.bin"));
    assert_eq!(config.weights, PathBuf::from("b.bin"));
}

fn layout() -> Qwen35Q4WeightLayout {
    Export::good().validate().unwrap()
}

fn words(bytes: &[u8]) -> Vec<u32> {
    bytes
        .chunks(4)
        .map(|chunk| u32::from_le_bytes([chunk[0], chunk[1], chunk[2], chunk[3]]))
        .collect()
}

fn reply(words: &[u32]) -> Vec<u8> {
    let mut bytes: Vec<u8> = words.iter().flat_map(|word| word.to_le_bytes()).collect();
    bytes.resize(256, 0);
    bytes
}

/// Opens a session, failing at the action with the given number.
fn open(failing: usize) -> (Qwen35Session, Vec<SessionAction>, Result<(), String>) {
    let (mut session, mut stage) = Qwen35Session::open(Ok(layout())).unwrap();
    let mut actions = Vec::new();
    loop {
        let action = session.stage_action(stage);
        let event = if actions.len() == failing {
            SessionEvent::Failed("no".to_string())
        } else {
            match action {
                SessionAction::FindNumber(_) => SessionEvent::Number(40 + actions.len() as i32),
                SessionAction::Bind => SessionEvent::Reply(reply(&[4])),
                _ => SessionEvent::Done,
            }
        };
        actions.push(action);
        match session.advance(stage, &event) {
            SessionProgress::Next(next) => stage = next,
            SessionProgress::Ready => return (session, actions, Ok(())),
            SessionProgress::Failed(error) => return (session, actions, Err(error)),
        }
    }
}

#[test]
fn session_is_opened_in_order() {
    let (session, actions, result) = open(usize::MAX);
    assert_eq!(result, Ok(()));
    assert!(session.bound);
    assert_eq!(
        actions,
        vec![
            SessionAction::Connect,
            SessionAction::Allocate { buffer: SessionBuffer::Base, bytes: 560_014_848 },
            SessionAction::Allocate { buffer: SessionBuffer::Hmx, bytes: 994_050_176 },
            SessionAction::Allocate { buffer: SessionBuffer::Runtime, bytes: 211_195_648 },
            SessionAction::Allocate { buffer: SessionBuffer::Request, bytes: 4096 },
            SessionAction::Allocate { buffer: SessionBuffer::Response, bytes: 256 },
            SessionAction::Load { buffer: SessionBuffer::Base, offset: 13_440 },
            SessionAction::Load { buffer: SessionBuffer::Hmx, offset: 560_028_288 },
            SessionAction::InitializeRuntime,
            SessionAction::MapHost(Store::Base),
            SessionAction::FindNumber(Store::Base),
            SessionAction::MapDsp { method: 5, number: 50, bytes: 560_014_848 },
            SessionAction::MapHost(Store::Hmx),
            SessionAction::FindNumber(Store::Hmx),
            SessionAction::MapDsp { method: 7, number: 53, bytes: 994_050_176 },
            SessionAction::MapHost(Store::Runtime),
            SessionAction::FindNumber(Store::Runtime),
            SessionAction::MapDsp { method: 11, number: 56, bytes: 211_195_648 },
            SessionAction::Bind,
        ]
    );
    assert_eq!(
        session.teardown(),
        vec![
            TeardownAction::Stop,
            TeardownAction::UnmapDsp { store: Store::Runtime, method: 12 },
            TeardownAction::UnmapHost(Store::Runtime),
            TeardownAction::UnmapDsp { store: Store::Hmx, method: 8 },
            TeardownAction::UnmapHost(Store::Hmx),
            TeardownAction::UnmapDsp { store: Store::Base, method: 6 },
            TeardownAction::UnmapHost(Store::Base),
            TeardownAction::Free(SessionBuffer::Response),
            TeardownAction::Free(SessionBuffer::Request),
            TeardownAction::Free(SessionBuffer::Runtime),
            TeardownAction::Free(SessionBuffer::Hmx),
            TeardownAction::Free(SessionBuffer::Base),
        ]
    );
}

#[test]
fn failed_session_undoes_what_was_done() {
    for failing in 0..2 {
        let (session, _, result) = open(failing);
        assert_eq!(result, Err("no".to_string()));
        assert_eq!(session.teardown(), vec![]);
    }

    let (session, _, _) = open(3);
    assert_eq!(
        session.teardown(),
        vec![
            TeardownAction::Free(SessionBuffer::Hmx),
            TeardownAction::Free(SessionBuffer::Base),
        ]
    );

    // The number of the base store is not found: it is mapped on the host only.
    let (session, _, _) = open(10);
    assert_eq!(session.teardown()[0], TeardownAction::UnmapHost(Store::Base));
    assert_eq!(session.teardown().len(), 6);
}

#[test]
fn refused_export_opens_nothing() {
    let mut export = Export::good();
    export.header = header(b"GGUF", 1, 326, QWH9_BASE_BYTES as u64);
    let refused = export.validate();
    let error = refused.clone().unwrap_err();
    assert!(error.contains("raw GGUF"));
    assert_eq!(Qwen35Session::open(refused), Err(error));
}

#[test]
fn wrong_bind_acknowledgement_is_refused() {
    let (mut session, _, _) = open(18);
    assert!(!session.bound);
    match session.advance(SessionStage::Bind, &SessionEvent::Reply(reply(&[3]))) {
        SessionProgress::Failed(error) => {
            assert_eq!(error, "Qwen runtime bind returned layout ack 3")
        }
        _ => panic!("bound"),
    }
    assert!(!session.bound);
}

#[test]
fn oversized_store_is_not_mapped() {
    let mut large = layout();
    large.base_bytes = 0x1_0000_0000;
    let (mut session, _) = Qwen35Session::open(Ok(large)).unwrap();
    match session.advance(SessionStage::FindNumber(Store::Base), &SessionEvent::Number(1)) {
        SessionProgress::Failed(error) => assert_eq!(
            error,
            "Qwen resident mapping exceeds the FastRPC u32 size ABI"
        ),
        _ => panic!("mapped"),
    }
}

#[test]
fn requests_have_their_words() {
    let mut request = vec![0xffu8; 4096];
    let mut response = vec![0xffu8; 256];
    assert_eq!(
        bind_request(&mut request, &mut response),
        ComputeCall { method: 2, sent: 4096 }
    );
    assert_eq!(response, vec![0u8; 256]);
    assert_eq!(words(&request[..20]), vec![284, 4, 211_195_648, 0, u32::MAX]);

    let mut control = vec![0xffu8; 36];
    initialize_runtime_control(&mut control);
    assert_eq!(
        words(&control),
        vec![0x5152_544d, 4, 0, 0, 0, 0, 0, 4096, u32::MAX]
    );

    let mut memory = vec![0xffu8; 36];
    initialize_runtime(&mut memory);
    assert_eq!(words(&memory), vec![0x5152_544d, 4, 0, 0, 0, 0, 0, 4096, 0]);

    let (session, _, _) = open(usize::MAX);
    response[5] = 1;
    let call = session.prefill(&vec![7, -1, 9], &mut request, &mut response).unwrap();
    assert_eq!(call, ComputeCall { method: 2, sent: 44 });
    assert_eq!(response, vec![0u8; 256]);
    assert_eq!(
        words(&request[..48]),
        vec![297, 4, 211_195_648, 3, 0, u32::MAX, 0, 0, 7, u32::MAX, 9, u32::MAX]
    );

    response[9] = 1;
    assert_eq!(stop_request(&mut response), 3);
    assert_eq!(response, vec![0u8; 256]);
}

#[test]
fn prompts_that_cannot_be_sent_are_refused() {
    let (session, _, _) = open(usize::MAX);
    let mut request = vec![0u8; 4096];
    let mut response = vec![7u8; 256];
    assert_eq!(
        session.prefill(&vec![1], &mut request, &mut response).unwrap_err(),
        "Qwen3.5 Q4 prefill length must be in [2, 256], got 1"
    );
    assert_eq!(
        session.prefill(&vec![1; 257], &mut request, &mut response).unwrap_err(),
        "Qwen3.5 Q4 prefill length must be in [2, 256], got 257"
    );
    assert_eq!(
        session.prefill(&vec![1; 2], &mut vec![0u8; 39], &mut response).unwrap_err(),
        "Qwen prefill request exceeds resident request buffer"
    );
    let (unbound, _, _) = open(18);
    assert_eq!(
        unbound.prefill(&vec![1; 2], &mut request, &mut response).unwrap_err(),
        "Qwen runtime was not bound before prefill"
    );
    assert_eq!(request, vec![0u8; 4096]);
    assert_eq!(response, vec![7u8; 256]);
}

#[test]
fn generation_counts_up() {
    let (mut session, _, _) = open(usize::MAX);
    let mut request = vec![0u8; 4096];
    let mut response = vec![7u8; 256];
    assert_eq!(
        session.decode(&mut request, &mut response).unwrap_err(),
        "Qwen decode requested before prefill"
    );
    let token = session.prefill_reply(3, &reply(&[11, 22, 0, 3, 3, 0])).unwrap();
    assert_eq!(token, Qwen35Token { id: 11, logit_bits: 22 });
    assert_eq!((session.position, session.cache_len, session.generated_count), (3, 3, 1));

    assert_eq!(session.decode(&mut request, &mut response), Ok(ComputeCall { method: 2, sent: 24 }));
    assert_eq!(words(&request[..24]), vec![285, 3, 1, 0, u32::MAX, 0]);
    assert_eq!(response, vec![0u8; 256]);
    let token = session.decode_reply(&reply(&[5, 6, 1, 3, 0])).unwrap();
    assert_eq!(token, Qwen35Token { id: 5, logit_bits: 6 });
    assert_eq!((session.position, session.cache_len, session.generated_count), (4, 4, 2));

    while session.cache_len < MAX_DECODE_CONTEXT {
        let good = reply(&[1, 1, session.generated_count as u32, session.position as u32, 0]);
        session.decode_reply(&good).unwrap();
    }
    assert_eq!(
        session.decode(&mut request, &mut response).unwrap_err(),
        "Qwen decode context reached 4096"
    );
}

#[test]
fn wrong_replies_are_refused() {
    let (mut session, _, _) = open(usize::MAX);
    assert_eq!(
        session.prefill_reply(2, &reply(&[0, 0, 0, 2, 2, -3i32 as u32])).unwrap_err(),
        "Qwen HTP prefill returned status -3"
    );
    assert_eq!(
        session.prefill_reply(2, &reply(&[0, 0, 0, 2, 3, 0])).unwrap_err(),
        "Qwen HTP prefill returned an inconsistent position"
    );
    assert_eq!(session.cache_len, 0);
    session.prefill_reply(2, &reply(&[0, 0, 0, 2, 2, 0])).unwrap();
    assert_eq!(
        session.decode_reply(&reply(&[0, 0, 1, 2, 9])).unwrap_err(),
        "Qwen HTP decode returned status 9"
    );
    assert_eq!(
        session.decode_reply(&reply(&[0, 0, 7, 8, 0])).unwrap_err(),
        "Qwen HTP decode position mismatch: token_index=7, expected=1, completed_position=8, expected_position=2"
    );
    assert_eq!(session.cache_len, 2);
}

fn edge(id: usize, source: usize, target: usize) -> GraphEdge {
    GraphEdge { id, source, target }
}

fn step_graph() -> LlirGraph<Qwen35Q4Step<usize>> {
    LlirGraph {
        nodes: vec![
            GraphNode::Output { hlir: 9 },
            GraphNode::Op(Qwen35Q4Step::new(3)),
            GraphNode::Input { hlir: 5, dtype: DType::Int },
        ],
        edges: vec![edge(0, 2, 1), edge(1, 1, 0)],
    }
}

#[test]
fn resident_graph_is_one_step() {
    let compiled = compile_graph(&step_graph()).ok().unwrap();
    assert_eq!(
        (compiled.prompt_hlir, compiled.output_hlir, compiled.prompt_len),
        (5, 9, 3)
    );

    let mut graph = step_graph();
    graph.edges[1].source = 2;
    assert_eq!(compile_graph(&graph).err(), Some(QwenGraphError::OutputIsNotTheStep));

    let mut graph = step_graph();
    graph.edges.remove(1);
    assert_eq!(compile_graph(&graph).err(), Some(QwenGraphError::OutputWithoutSource));

    let mut graph = step_graph();
    graph.edges.push(edge(2, 2, 1));
    assert_eq!(compile_graph(&graph).err(), Some(QwenGraphError::NotOneInput));

    let mut graph = step_graph();
    graph.nodes[2] = GraphNode::Unlowered;
    assert_eq!(compile_graph(&graph).err(), Some(QwenGraphError::Unrecognized(2)));

    let mut graph = step_graph();
    graph.nodes.push(GraphNode::Op(Qwen35Q4Step::new(3)));
    graph.edges.push(edge(2, 2, 3));
    assert_eq!(compile_graph(&graph).err(), Some(QwenGraphError::MoreThanOneStep));

    let mut graph = step_graph();
    graph.edges.push(edge(2, 1, 2));
    assert_eq!(compile_graph(&graph).err(), Some(QwenGraphError::Cycle));

    let mut graph = step_graph();
    graph.nodes[1] = GraphNode::Input { hlir: 1, dtype: DType::Int };
    assert_eq!(compile_graph(&graph).err(), Some(QwenGraphError::NoStep));

    let mut graph = step_graph();
    graph.nodes.push(GraphNode::Output { hlir: 1 });
    graph.edges = vec![edge(0, 2, 3), edge(1, 3, 1), edge(2, 1, 0)];
    assert_eq!(compile_graph(&graph).err(), Some(QwenGraphError::PromptIsNoInput));
}

#[test]
fn prompt_is_a_list_of_integers() {
    let node = qwen35_q4_step("prompt", DType::Int, &vec![8]).ok().unwrap();
    assert_eq!(node.step.prompt_len(), 8);
    assert_eq!(node.prompt, "prompt");
    assert_eq!((node.output_elements, node.output_dtype), (1, DType::Int));
    assert_eq!(
        qwen35_q4_step((), DType::F32, &vec![8]).err(),
        Some(PromptError::NotInt(DType::F32))
    );
    assert_eq!(
        qwen35_q4_step((), DType::Int, &vec![8, 1]).err(),
        Some(PromptError::NotOneDimensional(2))
    );
}

#[test]
fn runtime_runs_the_prompt_first() {
    let (session, _, _) = open(usize::MAX);
    assert_eq!(
        check_limit(1).unwrap_err(),
        "Qwen3.5 prefill limit must be in [2, 256], got 1"
    );
    let mut runtime: Qwen35Runtime<usize, HostData> =
        Qwen35Runtime::try_initialize(session, 4).ok().unwrap();
    let mut request = vec![0u8; 4096];
    let mut response = vec![7u8; 256];
    assert_eq!(
        runtime.execute(Some(3), &vec![1, 2, 3], &mut request, &mut response).unwrap_err(),
        "Qwen3.5 runtime has not been compiled"
    );
    assert_eq!(
        runtime.get_i32(9, &vec![0u8; 4]).unwrap_err(),
        "Qwen3.5 runtime has not been compiled"
    );
    assert_eq!(
        runtime.load_llir_buckets(&vec![], Some).err(),
        Some(QwenLoadError::NotOneBucket(0))
    );
    assert!(!runtime.set_data(5, HostData::Int(vec![1, 2, 3])));
    let freed = runtime.load_llir_buckets(&vec![step_graph()], Some).ok().unwrap();
    assert!(!freed.output);
    assert!(freed.prompts.is_empty());
    assert_eq!(runtime.refresh_prompt(), Some(5));
    assert_eq!(
        runtime.load_llir_buckets(&vec![step_graph()], |len| Some(len + 2)).err(),
        Some(QwenLoadError::PromptLimit(4))
    );
    assert_eq!(
        prompt_limit_text(4),
        "Qwen3.5 graph prompt length exceeds configured limit 4"
    );
    assert!(runtime.compiled.is_some());
    assert!(runtime.load_llir_buckets(&vec![step_graph()], |_| None).is_ok());
    let upload = runtime.upload_prompt(5, 12);
    assert!(upload.allocates && upload.writes && !upload.frees);
    assert!(runtime.set_data(5, HostData::Int(vec![1, 2, 3])));
    assert!(!runtime.upload_prompt(5, 12).allocates);

    assert_eq!(
        runtime.execute(None, &vec![1, 2, 3], &mut request, &mut response).unwrap_err(),
        "Qwen3.5 prompt length is not resolved"
    );
    assert_eq!(
        runtime.execute(Some(5), &vec![1, 2, 3], &mut request, &mut response).unwrap_err(),
        "Qwen3.5 prompt length must be in [2, 4], got 5"
    );
    assert_eq!(
        runtime.execute(Some(4), &vec![1, 2, 3], &mut request, &mut response).unwrap_err(),
        "Qwen3.5 prompt data/shape mismatch"
    );
    assert_eq!(runtime.get_token(), None);
    let mut output = vec![9u8, 1, 0, 0];
    assert_eq!(runtime.get_i32(9, &output), Ok(vec![265]));
    assert_eq!(
        runtime.execute_reply(3, &reply(&[5, 22, 0, 3, 3, 1]), &mut output).unwrap_err(),
        "Qwen HTP prefill returned status 1"
    );
    assert_eq!(output, vec![9, 1, 0, 0]);

    assert_eq!(
        runtime.execute(Some(3), &vec![1, 2, 3], &mut request, &mut response),
        Ok(ComputeCall { method: 2, sent: 44 })
    );
    assert_eq!(words(&request[..4]), vec![297]);
    runtime.execute_reply(3, &reply(&[u32::MAX, 22, 0, 3, 3, 0]), &mut output).unwrap();
    assert_eq!(runtime.get_i32(9, &output), Ok(vec![-1]));
    assert_eq!(runtime.get_i32(5, &output).unwrap_err(), "unknown Qwen3.5 output id");

    assert_eq!(
        runtime.execute(None, &vec![], &mut request, &mut response),
        Ok(ComputeCall { method: 2, sent: 24 })
    );
    assert_eq!(words(&request[..12]), vec![285, 3, 1]);
    runtime.execute_reply(0, &reply(&[77, 1, 1, 3, 0]), &mut output).unwrap();
    assert_eq!(runtime.get_i32(9, &output), Ok(vec![77]));
    assert_eq!(runtime.get_token(), Some(Qwen35Token { id: 77, logit_bits: 1 }));

    let freed = runtime.load_llir_buckets(&vec![step_graph()], Some).ok().unwrap();
    assert!(freed.output);
    assert_eq!(freed.prompts, vec![5]);
    assert_eq!(runtime.get_token(), None);
}

#[test]
fn unset_prompt_is_reported() {
    let (session, _, _) = open(usize::MAX);
    let mut runtime: Qwen35Runtime<usize, HostData> =
        Qwen35Runtime::try_initialize(session, 256).ok().unwrap();
    runtime.load_llir_buckets(&vec![step_graph()], Some).ok().unwrap();
    assert_eq!(
        runtime.execute(Some(3), &vec![1, 2, 3], &mut vec![0u8; 4096], &mut vec![0u8; 256]).unwrap_err(),
        "Qwen3.5 prompt input NodeIndex(5) was not set"
    );
}
