use std::path::PathBuf;

use luminal_backends::bytes::{align128, read_i32, read_u32, write_u32};
use luminal_backends::children::Child;
use luminal_backends::data::HostData;
use luminal_backends::dtype::DType;
use luminal_backends::frontend::FrontendNode;
use luminal_backends::graph::{GraphEdge, GraphNode, LlirGraph};
use luminal_backends::hexagon::config::{
    DEFAULT_SKEL_URI, HexagonConfig, HexagonEnvironment, RpcLibrary, library_name,
};
use luminal_backends::hexagon::dyn_backend::hexagon_factory;
use luminal_backends::hexagon::extract::{MatmulFieldError, extract_binary, extract_matmul_i8};
use luminal_backends::hexagon::kernel::{
    BinaryOp, HexagonBinary, HexagonDispatch, HexagonFault, HexagonKernelOp, HexagonMatmulI8,
    HexagonSize, MatmulVariant,
};
use luminal_backends::hexagon::rewrite::{
    HEXAGON_ADD, HEXAGON_MUL, f32_binary_rewrite, hexagon_rewrites, hexagon_sorts,
    matmul_i8_rewrites, matmul_i8_sort,
};
use luminal_backends::hexagon::rpc::{
    CloseAction, OpenEvent, OpenProgress, OpenStage, allocation_failure, allocation_request, close,
    compute, compute_result, open,
};
use luminal_backends::hexagon::runtime::{
    FreedBuffer, HexagonCopy, HexagonReadError, HexagonRuntime, reference_bytes,
};
use luminal_backends::program::{
    BucketLlir, BufferRef, CompileError, ExecuteError, LoadError, OutputError,
};
use luminal_backends::rules::{FieldKind, HlirOp, Rule, SortClass, SortDef, Term};

fn render(term: &Term) -> String {
    match term {
        Term::Var(name) => name.to_string(),
        Term::Int(value) => value.to_string(),
        Term::Num(value) => format!("(Num {value})"),
        Term::Unit => "(Unit)".to_string(),
        Term::Times(a, b) => format!("(Times {} {})", render(a), render(b)),
        Term::Nil => "(Nil)".to_string(),
        Term::Cons(a, b) => format!("(Cons {} {})", render(a), render(b)),
        Term::RowMajor(a) => format!("(RowMajor {})", render(a)),
        Term::DType(dtype) => format!("({dtype:?})"),
        Term::DTypeOf(a) => format!("(DTypeOf {})", render(a)),
        Term::InputNil => "(InputNil)".to_string(),
        Term::InputCons(a, b) => format!("(InputCons {} {})", render(a), render(b)),
        Term::Op { kind, inputs } => format!("(Op {} {})", render(kind), render(inputs)),
        Term::Primitive { op, fields } => format!("({op:?}{})", render(fields)),
        Term::Dialect { name, fields } => format!("({name}{})", render(fields)),
        Term::FieldNil => String::new(),
        Term::Field { value, rest, .. } => format!(" {}{}", render(value), render(rest)),
        Term::Matched(op) => format!("(Matched {op:?})"),
        Term::Matching(name) => format!("(Matching {name})"),
        Term::MatchedInputs => "(MatchedInputs)".to_string(),
        Term::FromMatched(name) => format!("(FromMatched {name})"),
    }
}

fn render_rule(rule: &Rule) -> String {
    match rule {
        Rule::Raw(text) => text.to_string(),
        Rule::Rewrite { left, right, dtype, facts, ruleset, name, .. } => {
            let facts: Vec<String> = facts
                .iter()
                .map(|(a, b)| format!("(= {} {})", render(a), render(b)))
                .collect();
            format!(
                "{} -> {} : {} if {} in {ruleset} as {name:?}",
                render(left),
                render(right),
                render(dtype),
                facts.concat()
            )
        }
    }
}

#[test]
fn i8_matmul_rewrites_keep_both_target_schedule_choices() {
    let rewrites = matmul_i8_rewrites();
    assert_eq!(rewrites.len(), 2);

    let rendered: Vec<_> = rewrites.iter().map(render_rule).collect();
    assert!(rendered.iter().all(|rewrite| {
        rewrite.contains("HexagonMatmulI8") && rewrite.contains("(I8)") && rewrite.contains("(Int)")
    }));
    assert!(
        rendered
            .iter()
            .any(|rewrite| rewrite.contains("HexagonMatmulI8") && rewrite.contains(" 0)"))
    );
    assert!(
        rendered
            .iter()
            .any(|rewrite| rewrite.contains("HexagonMatmulI8") && rewrite.contains(" 1)"))
    );
}

#[test]
fn i8_matmul_rule_has_row_major_strides() {
    let rendered = render_rule(&matmul_i8_rewrites()[1]);
    let row = "(Times (Unit) ?hexagon_i8_k)";
    assert!(rendered.contains(&format!("(Cons {row} (Cons (Num 0) (Cons (Unit) (Nil))))")));
    assert!(rendered.contains(&format!("(Cons (Num 0) (Cons {row} (Cons (Unit) (Nil))))")));
    assert!(rendered.contains(
        "(HexagonMatmulI8 ?hexagon_i8_m ?hexagon_i8_n ?hexagon_i8_k 1)"
    ));
    assert!(rendered.ends_with("in kernel_lower as Some(\"hexagon-i8-matmul-hvx\")"));
}

#[test]
fn f32_rule_lowers_single_precision_only() {
    assert_eq!(
        render_rule(&f32_binary_rewrite(HlirOp::Add, HEXAGON_ADD)),
        "(Matched Add) -> (Op (FromMatched HexagonAdd) (MatchedInputs)) : (F32) if (= (DTypeOf \
         (Matching inp_a)) (F32))(= (DTypeOf (Matching inp_b)) (F32)) in kernel_lower as None"
    );
    match matmul_i8_sort() {
        SortDef::Fields { class, name, fields } => {
            assert_eq!(class, SortClass::OpKind);
            assert_eq!(name, "HexagonMatmulI8");
            assert_eq!(fields[3], ("variant", FieldKind::Int));
        }
        _ => panic!("not a list of fields"),
    }
}

#[test]
fn dialect_has_the_rules_of_its_operations() {
    let rules: Vec<String> = hexagon_rewrites().iter().map(render_rule).collect();
    let mut expected = vec![
        render_rule(&f32_binary_rewrite(HlirOp::Add, HEXAGON_ADD)),
        render_rule(&f32_binary_rewrite(HlirOp::Mul, HEXAGON_MUL)),
    ];
    expected.extend(matmul_i8_rewrites().iter().map(render_rule));
    assert_eq!(rules, expected);
    assert_eq!(rules.len(), 4);
    let names: Vec<&str> = hexagon_sorts().iter().map(|sort| sort.name()).collect();
    assert_eq!(names, vec!["HexagonAdd", "HexagonMul", "HexagonMatmulI8"]);
}

#[test]
fn integer_input_bytes_match_storage_dtype() {
    assert_eq!(
        reference_bytes(&HostData::I8(vec![-128, -1, 0, 127]), DType::I8),
        Ok(vec![0x80, 0xff, 0x00, 0x7f])
    );

    let values = vec![1_i32, -2_i32];
    assert_eq!(
        reference_bytes(&HostData::Int(values.clone()), DType::Int),
        Ok(bytemuck::cast_slice::<i32, u8>(&values).to_vec())
    );
}

#[test]
fn only_stored_types_are_uploaded() {
    let bits = vec![1.5f32.to_bits(), (-2.0f32).to_bits()];
    assert_eq!(
        reference_bytes(&HostData::F32(bits), DType::F32),
        Ok(bytemuck::cast_slice::<f32, u8>(&[1.5, -2.0]).to_vec())
    );
    assert_eq!(
        reference_bytes(&HostData::Bool(vec![true]), DType::Bool),
        Err(DType::Bool)
    );
}

#[test]
fn words_are_little_endian() {
    let mut buffer = vec![0u8; 12];
    write_u32(&mut buffer, 4, 0x8000_0201);
    assert_eq!(buffer, vec![0, 0, 0, 0, 1, 2, 0, 0x80, 0, 0, 0, 0]);
    assert_eq!(read_u32(&buffer, 4), 0x8000_0201);
    assert_eq!(read_i32(&buffer, 4), 0x8000_0201u32 as i32);
    assert_eq!(align128(13_386), 13_440);
    assert_eq!(align128(128), 128);
}

#[test]
fn default_settings() {
    let config = HexagonConfig::from_environment(HexagonEnvironment {
        rpc_library: None,
        skel_uri: None,
    });
    assert_eq!(config.skel_uri, DEFAULT_SKEL_URI);
    assert_eq!(config.rpc_library, None);
    assert_eq!(config.domain, 3);
    assert!(config.allow_unsigned_module);
    let config = config
        .with_rpc_library(PathBuf::from("x.dll"))
        .with_skel_uri("file:///x".to_string());
    assert_eq!(config.rpc_library, Some(PathBuf::from("x.dll")));
    assert_eq!(config.skel_uri, "file:///x");
}

#[test]
fn library_is_named_by_the_settings_first() {
    let environment = |path: Option<&str>| HexagonEnvironment {
        rpc_library: path.map(PathBuf::from),
        skel_uri: None,
    };
    let mut settings = config("file:///x", true);
    assert!(matches!(
        library_name(&settings, &environment(None)),
        RpcLibrary::Loader("libcdsprpc.dll")
    ));
    assert!(matches!(
        library_name(&settings, &environment(Some("env.dll"))),
        RpcLibrary::Path(path) if *path == PathBuf::from("env.dll")
    ));
    settings.rpc_library = Some(PathBuf::from("mine.dll"));
    assert!(matches!(
        library_name(&settings, &environment(Some("env.dll"))),
        RpcLibrary::Path(path) if *path == PathBuf::from("mine.dll")
    ));
}

fn config(uri: &str, allow_unsigned_module: bool) -> HexagonConfig {
    HexagonConfig {
        rpc_library: None,
        skel_uri: uri.to_string(),
        domain: -3,
        allow_unsigned_module,
    }
}

fn failure(progress: OpenProgress) -> String {
    match progress {
        OpenProgress::Failed(error) => error,
        _ => panic!("did not fail"),
    }
}

#[test]
fn session_is_opened_in_stages() {
    let unsigned = config("file:///a", true);
    let signed = config("file:///a", false);
    let loaded = OpenEvent::Loaded(None);
    assert!(matches!(
        open(&unsigned, OpenStage::Loading, &loaded),
        OpenProgress::Next(OpenStage::Configuring)
    ));
    assert!(matches!(
        open(&signed, OpenStage::Loading, &loaded),
        OpenProgress::Next(OpenStage::Opening)
    ));
    assert!(matches!(
        open(&unsigned, OpenStage::Configuring, &OpenEvent::Configured(0)),
        OpenProgress::Next(OpenStage::Opening)
    ));
    assert!(matches!(
        open(&unsigned, OpenStage::Opening, &OpenEvent::Opened { error: 0, handle: 7 }),
        OpenProgress::Ready(7)
    ));
    assert_eq!(
        failure(open(&signed, OpenStage::Loading, &OpenEvent::Loaded(Some("none".to_string())))),
        "none"
    );
    assert_eq!(
        failure(open(&unsigned, OpenStage::Configuring, &OpenEvent::Configured(-1))),
        "remote_session_control(unsigned module, domain -3) failed: 0xffffffff"
    );
    assert_eq!(
        failure(open(&unsigned, OpenStage::Opening, &OpenEvent::Opened { error: 26, handle: 0 })),
        "remote_handle64_open(file:///a) failed: 0x0000001a"
    );
    assert_eq!(
        failure(open(&config("a\0b", false), OpenStage::Loading, &loaded)),
        "Hexagon skel URI contains an interior NUL"
    );
    assert_eq!(close(7), vec![CloseAction::CloseHandle(7), CloseAction::DeinitMemory]);
    assert_eq!(close(0), vec![CloseAction::DeinitMemory]);
}

#[test]
fn compute_call_counts_in_words() {
    let request = compute(1, 64, 256, 257, 258).ok().unwrap();
    assert_eq!(request.primitive, [1, 64, 256, 257, 258]);
    assert_eq!(request.scalars, (2 << 24) | (3 << 16) | (1 << 8));
    let large = 0x1_0000_0000;
    assert_eq!(
        compute(1, large, 0, 0, 0).err().unwrap(),
        "Hexagon dispatch exceeds u32 elements"
    );
    assert_eq!(
        compute(1, 0, 0, large, 0).err().unwrap(),
        "Hexagon input buffer exceeds u32 bytes"
    );
    assert_eq!(
        compute(1, 0, 0, 0, large).err().unwrap(),
        "Hexagon output buffer exceeds u32 bytes"
    );
    assert_eq!(compute_result(BinaryOp::AddF32, 4, 0), Ok(()));
    assert_eq!(
        compute_result(BinaryOp::MulF32, 4, 0x0800_0001).unwrap_err(),
        "Hexagon compute op=MulF32 n=4 failed: 0x08000001"
    );
    assert_eq!(allocation_request(0), 1);
    assert_eq!(allocation_request(9), 9);
    assert_eq!(allocation_failure(0), "rpcmem_alloc2 failed for 0 logical bytes");
}

#[test]
fn schedules_have_numbers() {
    assert_eq!(MatmulVariant::from_i64(0), Some(MatmulVariant::Scalar));
    assert_eq!(MatmulVariant::from_i64(1), Some(MatmulVariant::Hvx));
    assert_eq!(MatmulVariant::from_i64(2), None);
    assert_eq!(MatmulVariant::Hvx.to_i64(), 1);
}

#[test]
fn operations_are_built_from_their_fields() {
    let op = extract_matmul_i8(vec![Child::Expr(2), Child::Expr(3), Child::Expr(4), Child::Int(1)]);
    let op = op.ok().unwrap();
    assert_eq!((op.m, op.n, op.k, op.variant), (2, 3, 4, MatmulVariant::Hvx));
    assert_eq!(
        extract_matmul_i8(vec![Child::Expr(2), Child::Expr(3), Child::Expr(4), Child::Int(5)]).err(),
        Some(MatmulFieldError::Variant(5))
    );
    assert_eq!(
        extract_matmul_i8::<usize>(vec![Child::Expr(2)]).err(),
        Some(MatmulFieldError::Fields)
    );
    let lists = || vec![
        Child::List(vec![1]),
        Child::List(vec![2]),
        Child::List(vec![3]),
        Child::List(vec![4]),
    ];
    let op = extract_binary(BinaryOp::MulF32, lists()).unwrap();
    assert_eq!((op.shape, op.a_strides, op.b_strides, op.output_strides), (vec![1], vec![2], vec![3], vec![4]));
    let mut wrong = lists();
    wrong[2] = Child::Expr(3);
    assert!(extract_binary(BinaryOp::MulF32, wrong).is_none());
}

fn edge(id: usize, source: usize, target: usize) -> GraphEdge {
    GraphEdge { id, source, target }
}

fn add(b_stride: usize) -> HexagonKernelOp<usize> {
    HexagonKernelOp::Binary(HexagonBinary {
        function: BinaryOp::AddF32,
        shape: vec![4],
        a_strides: vec![1],
        b_strides: vec![b_stride],
        output_strides: vec![1],
    })
}

fn matmul() -> HexagonKernelOp<usize> {
    HexagonKernelOp::MatmulI8(HexagonMatmulI8 { m: 2, n: 3, k: 4, variant: MatmulVariant::Hvx })
}

/// `(a + b) + a`, with the second argument of the second sum first in the list
/// of edges.
fn sum_graph() -> LlirGraph<HexagonKernelOp<usize>> {
    LlirGraph {
        nodes: vec![
            GraphNode::Input { hlir: 10, dtype: DType::F32 },
            GraphNode::Input { hlir: 11, dtype: DType::F32 },
            GraphNode::Op(add(1)),
            GraphNode::Op(add(1)),
            GraphNode::Output { hlir: 20 },
        ],
        edges: vec![
            edge(3, 0, 3),
            edge(0, 0, 2),
            edge(1, 1, 2),
            edge(2, 2, 3),
            edge(4, 3, 4),
        ],
    }
}

fn bucket(graph: LlirGraph<HexagonKernelOp<usize>>) -> BucketLlir<HexagonKernelOp<usize>> {
    BucketLlir { indices: std::collections::HashMap::new(), graph }
}

fn loaded() -> HexagonRuntime<usize, HostData> {
    let mut runtime = HexagonRuntime::new();
    runtime.load_llir_buckets(vec![bucket(sum_graph())]).ok().unwrap();
    runtime
}

#[test]
fn graph_runs_in_order() {
    let mut runtime = loaded();
    assert!(matches!(runtime.result_sizes()[0], HexagonSize::ProductOrOne(shape) if *shape == vec![4]));
    assert_eq!(runtime.execute(&vec![4, 4]).err(), Some(ExecuteError::InputNotSet(10)));
    let upload = runtime.upload_input(10, 16);
    assert!(upload.allocates && upload.writes && !upload.frees);
    runtime.upload_input(11, 16);
    assert_eq!(runtime.execute(&vec![4, 4]).err(), Some(ExecuteError::MissingOutput(2)));
    let allocations = runtime.allocate_intermediates(&vec![4, 4]).unwrap();
    assert_eq!(allocations.len(), 2);
    assert_eq!(allocations[0].node, 2);
    assert_eq!(allocations[0].allocation, 16);
    assert!(!allocations[0].replaces);
    assert_eq!(runtime.allocate_intermediates(&vec![4, 4]).unwrap(), vec![]);

    let calls = runtime.execute(&vec![4, 4]).ok().unwrap();
    assert_eq!(calls.len(), 2);
    assert!(matches!(calls[0].dispatch, HexagonDispatch::F32(BinaryOp::AddF32)));
    assert_eq!((calls[0].a, calls[0].b), (BufferRef::Input(10), BufferRef::Input(11)));
    assert_eq!((calls[1].a, calls[1].b), (BufferRef::Intermediate(2), BufferRef::Input(10)));
    assert_eq!(calls[1].output, BufferRef::Intermediate(3));
    assert_eq!(calls[1].elements, 4);

    let again = runtime.allocate_intermediates(&vec![5, 4]).unwrap();
    assert_eq!(again.len(), 1);
    assert!(again[0].replaces);
    assert_eq!(again[0].allocation, 20);
}

#[test]
fn unsupported_graphs_are_refused() {
    let refused = |change: fn(&mut LlirGraph<HexagonKernelOp<usize>>)| {
        let mut graph = sum_graph();
        change(&mut graph);
        let mut runtime: HexagonRuntime<usize, HostData> = HexagonRuntime::new();
        match runtime.load_llir_buckets(vec![bucket(graph)]).err() {
            Some(LoadError::Compile(error)) => error,
            _ => panic!("compiled"),
        }
    };
    assert_eq!(
        refused(|graph| graph.nodes[2] = GraphNode::Op(add(0))),
        CompileError::Op(HexagonFault::Layout(2))
    );
    assert_eq!(
        refused(|graph| graph.edges.push(edge(9, 1, 3))),
        CompileError::Op(HexagonFault::Layout(3))
    );
    assert_eq!(
        refused(|graph| graph.nodes[1] = GraphNode::Input { hlir: 11, dtype: DType::Int }),
        CompileError::Op(HexagonFault::Types(2))
    );
    assert_eq!(
        refused(|graph| graph.nodes[3] = GraphNode::Op(matmul())),
        CompileError::Op(HexagonFault::Types(3))
    );
    assert_eq!(
        refused(|graph| graph.nodes[1] = GraphNode::Unlowered),
        CompileError::Unlowered(1)
    );
    assert_eq!(
        refused(|graph| graph.nodes[0] = GraphNode::Output { hlir: 1 }),
        CompileError::MissingDType(0)
    );
    assert_eq!(refused(|graph| graph.edges.push(edge(9, 4, 2))), CompileError::Cycle);
    let mut runtime: HexagonRuntime<usize, HostData> = HexagonRuntime::new();
    assert_eq!(runtime.load_llir_buckets(vec![]).err(), Some(LoadError::NoBuckets));
}

#[test]
fn i8_projection_gives_integers() {
    let graph = LlirGraph {
        nodes: vec![
            GraphNode::Input { hlir: 1, dtype: DType::I8 },
            GraphNode::Input { hlir: 2, dtype: DType::I8 },
            GraphNode::Op(matmul()),
            GraphNode::Output { hlir: 3 },
        ],
        edges: vec![edge(0, 0, 2), edge(1, 1, 2), edge(2, 2, 3)],
    };
    let mut runtime: HexagonRuntime<usize, HostData> = HexagonRuntime::new();
    runtime.load_llir_buckets(vec![bucket(graph)]).ok().unwrap();
    assert_eq!(runtime.set_data(1, HostData::I8(vec![0; 8])), Some(DType::I8));
    assert!(matches!(runtime.result_sizes()[0], HexagonSize::PairOrOne(2, 3)));
    runtime.upload_input(1, 8);
    runtime.upload_input(2, 12);
    runtime.allocate_intermediates(&vec![6]).unwrap();
    let calls = runtime.execute(&vec![6]).ok().unwrap();
    assert!(matches!(
        calls[0].dispatch,
        HexagonDispatch::MatmulI8 { m: 2, n: 3, k: 4, variant: MatmulVariant::Hvx }
    ));
    let readback = runtime.output_buffer(3).unwrap();
    assert_eq!((readback.source, readback.bytes, readback.dtype), (BufferRef::Intermediate(2), 24, DType::Int));
    let bytes: Vec<u8> = [1i32, -5].iter().flat_map(|value| value.to_ne_bytes()).collect();
    assert_eq!(runtime.get_i32(3, &bytes), Ok(vec![1, -5]));
    assert_eq!(
        runtime.get_f32(3, &bytes).err(),
        Some(HexagonReadError::WrongType(DType::Int))
    );
    assert_eq!(runtime.get_i32(3, &vec![0; 5]).err(), Some(HexagonReadError::Misaligned));
}

#[test]
fn single_precision_output_is_read_by_its_bits() {
    let mut runtime = loaded();
    runtime.allocate_intermediates(&vec![4, 4]).unwrap();
    let bytes: Vec<u8> = [1.5f32, -0.0].iter().flat_map(|value| value.to_ne_bytes()).collect();
    assert_eq!(
        runtime.get_f32(20, &bytes),
        Ok(vec![1.5f32.to_bits(), (-0.0f32).to_bits()])
    );
    assert_eq!(
        runtime.get_f32(21, &bytes).err(),
        Some(HexagonReadError::Output(OutputError::NoOutput(21)))
    );
}

#[test]
fn output_is_copied_to_an_input_of_the_same_size() {
    let mut runtime = loaded();
    assert_eq!(runtime.copy_output_to_input(21, 10), Err(OutputError::NoOutput(21)));
    assert_eq!(runtime.copy_output_to_input(20, 10), Err(OutputError::NotAllocated(3)));
    runtime.allocate_intermediates(&vec![4, 4]).unwrap();
    assert_eq!(runtime.copy_output_to_input(20, 10), Err(OutputError::InputNotSet(10)));
    runtime.upload_input(10, 12);
    assert_eq!(
        runtime.copy_output_to_input(20, 10),
        Err(OutputError::SizeChanged { source: 16, destination: 12 })
    );
    let upload = runtime.upload_input(10, 16);
    assert!(upload.allocates && upload.frees);
    assert_eq!(
        runtime.copy_output_to_input(20, 10),
        Ok(Some(HexagonCopy { source: BufferRef::Intermediate(3), bytes: 16 }))
    );
    runtime.upload_input(10, 0);
    runtime.allocate_intermediates(&vec![0, 0]).unwrap();
    assert_eq!(runtime.copy_output_to_input(20, 10), Ok(None));
    let empty: HexagonRuntime<usize, HostData> = HexagonRuntime::new();
    assert_eq!(empty.copy_output_to_input(20, 10), Err(OutputError::NotCompiled));
}

#[test]
fn loading_frees_all_buffers() {
    let mut runtime = loaded();
    runtime.set_data(10, HostData::F32(vec![0; 4]));
    runtime.set_data(99, HostData::F32(vec![0; 4]));
    runtime.upload_input(10, 16);
    runtime.allocate_intermediates(&vec![4, 4]).unwrap();
    let freed = runtime.load_llir_buckets(vec![bucket(sum_graph())]).ok().unwrap();
    assert_eq!(freed.len(), 3);
    assert!(freed.contains(&FreedBuffer::Input(10)));
    assert!(freed.contains(&FreedBuffer::Result { bucket: 0, node: 2 }));
    assert!(freed.contains(&FreedBuffer::Result { bucket: 0, node: 3 }));
    assert_eq!(runtime.refresh_inputs(), vec![(10, DType::F32)]);
    assert_eq!(runtime.clear_buffers(), vec![]);
}

#[test]
fn frontend_graph_takes_supported_inputs() {
    let input = |dtype, name: &str| FrontendNode::Input {
        label: "x".to_string(),
        dtype,
        dtype_name: name.to_string(),
    };
    assert_eq!(hexagon_factory(0, &vec![input(DType::F32, "F32"), FrontendNode::Other]), Ok(()));
    assert_eq!(
        hexagon_factory(0, &vec![input(DType::I8, "I8"), input(DType::I8, "I8")]),
        Ok(())
    );
    assert_eq!(
        hexagon_factory(0, &vec![input(DType::I8, "I8"), input(DType::Int, "Int")]).unwrap_err(),
        "Hexagon v73 backend only supports F32 inputs; `x` is Int"
    );
    assert_eq!(
        hexagon_factory(0, &vec![FrontendNode::ConstantF64]).unwrap_err(),
        "Hexagon backend does not support F64 scalar constants; use tensor F32 inputs"
    );
    assert_eq!(
        hexagon_factory(1, &vec![]).unwrap_err(),
        "Hexagon backend accepts host tensors only; external device pointers are unsupported"
    );
}
