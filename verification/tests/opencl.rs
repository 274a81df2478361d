use std::collections::HashMap;

use luminal_backends::buckets::DimFit;
use luminal_backends::children::Child;
use luminal_backends::data::HostData;
use luminal_backends::dtype::DType;
use luminal_backends::frontend::FrontendNode;
use luminal_backends::graph::{GraphEdge, GraphNode, LlirGraph};
use luminal_backends::opencl::compile::OpenClFault;
use luminal_backends::opencl::device::{
    DeviceAnswers, OpenClDeviceInfo, PlatformAnswers, available_devices, enumerate_devices,
};
use luminal_backends::opencl::dialect::{
    KernelError, binary_values, buffer_type, cast_value, numeric_read, numeric_write, source_header,
};
use luminal_backends::opencl::dyn_backend::opencl_factory;
use luminal_backends::opencl::dyn_dims::{DynDims, UnboundDim};
use luminal_backends::opencl::extract::{extract_gather, extract_matmul, extract_scatter};
use luminal_backends::opencl::kernel::{
    BinaryFunction, IndexExpr, KernelArg, OpenClBinary, OpenClCast, OpenClConstant, OpenClGather,
    OpenClIota, OpenClKernelOp, OpenClLessThan, OpenClMatmul, OpenClMaxReduce, OpenClScatter,
    OpenClSumReduce, OpenClUnary, SizeExpr, UnaryFunction,
};
use luminal_backends::opencl::rewrite::{gather_sort, opencl_rewrites, opencl_sorts};
use luminal_backends::opencl::runtime::{AllocateError, BoundArg, BufferCopy, OpenClRuntime};
use luminal_backends::opencl::transfer::{ReadError, decode, reference_bytes};
use luminal_backends::program::{
    BucketLlir, BufferRef, CompileError, ExecuteError, LoadError, OutputError,
};
use luminal_backends::rules::{FieldKind, HlirOp, Rule, SortDef, Term, operand_names};

type Op = OpenClKernelOp<&'static str>;

fn device(name: Option<&str>, vendor: Option<&str>, extensions: Option<&str>) -> DeviceAnswers {
    DeviceAnswers {
        name: name.map(str::to_string),
        vendor: vendor.map(str::to_string),
        extensions: extensions.map(str::to_string),
    }
}

fn platforms() -> Result<Vec<PlatformAnswers>, String> {
    Ok(vec![
        PlatformAnswers {
            name: Some("OpenCLOn12".to_string()),
            devices: vec![
                device(Some("Adreno X1-85"), Some("Microsoft"), Some("cl_khr_fp16x")),
                device(None, None, None),
            ],
        },
        PlatformAnswers { name: None, devices: vec![] },
        PlatformAnswers {
            name: None,
            devices: vec![
                device(Some("Other"), Some("QUALCOMM"), Some("a cl_khr_fp16 b")),
                device(Some("Adreno"), Some("Qualcomm"), Some("cl_khr_fp16")),
            ],
        },
    ])
}

#[test]
fn prefers_native_qualcomm_device() {
    let Ok(devices) = available_devices(platforms()) else {
        return;
    };
    if devices
        .iter()
        .any(|device| device.vendor.to_ascii_lowercase().contains("qualcomm"))
    {
        assert!(devices[0].vendor.to_ascii_lowercase().contains("qualcomm"));
    }
}

#[test]
fn devices_are_listed_by_preference() {
    let devices = available_devices(platforms()).unwrap();
    let info = |index, name: &str, vendor: &str, platform: &str, supports_fp16| OpenClDeviceInfo {
        index,
        name: name.to_string(),
        vendor: vendor.to_string(),
        platform: platform.to_string(),
        supports_fp16,
    };
    assert_eq!(
        devices,
        vec![
            info(0, "Adreno", "Qualcomm", "unknown OpenCL platform", true),
            info(1, "Other", "QUALCOMM", "unknown OpenCL platform", true),
            info(2, "Adreno X1-85", "Microsoft", "OpenCLOn12", false),
            info(3, "unknown OpenCL GPU", "unknown vendor", "OpenCLOn12", false),
        ]
    );
    let found: Vec<usize> = enumerate_devices(platforms())
        .ok()
        .unwrap()
        .iter()
        .map(|device| device.device)
        .collect();
    assert_eq!(found, vec![3, 2, 0, 1]);
    assert_eq!(
        available_devices(Err("no ICD".to_string())).unwrap_err(),
        "OpenCL platform query failed: no ICD"
    );
}

#[test]
fn equal_devices_keep_their_order() {
    let twins = vec![PlatformAnswers {
        name: None,
        devices: vec![
            device(Some("b"), Some("v"), None),
            device(Some("A"), Some("V"), Some("cl_khr_fp16")),
            device(Some("a"), Some("v"), None),
        ],
    }];
    let listed = enumerate_devices(Ok(twins)).ok().unwrap();
    let found: Vec<usize> = listed.iter().map(|device| device.device).collect();
    assert_eq!(found, vec![1, 2, 0]);
}

#[test]
fn notation_follows_the_types() {
    assert_eq!(buffer_type(DType::Bool), Ok("uchar"));
    assert_eq!(buffer_type(DType::I8), Err(KernelError::UnsupportedDType(DType::I8)));
    assert_eq!(numeric_read(DType::F32, "a", "i"), "a[i]");
    assert_eq!(numeric_read(DType::F16, "a", "i"), "convert_float(a[i])");
    assert_eq!(numeric_write(DType::F32, "v"), "v");
    assert_eq!(numeric_write(DType::F16, "v"), "convert_half(v)");
    assert_eq!(numeric_write(DType::Int, "v"), "convert_int_rtz(v)");
    assert_eq!(numeric_write(DType::Bool, "v"), "(uchar)((v) != 0)");
    assert_eq!(
        binary_values(DType::Int, DType::Int, DType::Bool, "i", "j"),
        ("a[i]".to_string(), "b[j]".to_string())
    );
    assert_eq!(
        binary_values(DType::F32, DType::F32, DType::Int, "i", "j"),
        ("a[i]".to_string(), "convert_float(b[j])".to_string())
    );
    assert_eq!(
        source_header(&vec![DType::F32, DType::F16]),
        "#pragma OPENCL EXTENSION cl_khr_fp16 : enable\n"
    );
    assert_eq!(source_header(&vec![DType::F32]), "");
    assert_eq!(cast_value(DType::F32, DType::Int), "convert_int_rtz(input[idx])");
    assert_eq!(cast_value(DType::Bool, DType::Int), "convert_int(input[idx])");
    assert_eq!(cast_value(DType::F16, DType::F16), "input[idx]");
    assert_eq!(cast_value(DType::F16, DType::Bool), "(uchar)(input[idx] != 0)");
    assert_eq!(cast_value(DType::F32, DType::F16), "convert_half(input[idx])");
    assert_eq!(cast_value(DType::Int, DType::F32), "convert_float(input[idx])");
}

fn texts(lowered: &[&str]) -> Vec<String> {
    lowered.iter().map(|text| text.to_string()).collect()
}

fn source(op: &Op, inputs: &[DType], output: DType, lowered: &[&str]) -> (String, Vec<&'static str>) {
    let source = op.compile(&inputs.to_vec(), output, &texts(lowered)).ok().unwrap();
    (source.text, source.names)
}

fn unary(function: UnaryFunction) -> Op {
    OpenClKernelOp::Unary(OpenClUnary {
        function,
        shape: vec!["s"],
        input_strides: vec!["i"],
        output_strides: vec!["o"],
    })
}

fn binary(function: BinaryFunction) -> Op {
    OpenClKernelOp::Binary(OpenClBinary {
        function,
        shape: vec!["s"],
        a_strides: vec!["a"],
        b_strides: vec!["b"],
        output_strides: vec!["o"],
    })
}

fn less_than() -> Op {
    OpenClKernelOp::LessThan(OpenClLessThan {
        shape: vec!["s"],
        a_strides: vec!["a"],
        b_strides: vec!["b"],
        output_strides: vec!["o"],
    })
}

fn sum() -> Op {
    OpenClKernelOp::SumReduce(OpenClSumReduce {
        out_shape: vec!["s"],
        iters: "n",
        input_strides: vec!["i"],
        iter_stride: "t",
        output_strides: vec!["o"],
    })
}

fn max() -> Op {
    OpenClKernelOp::MaxReduce(OpenClMaxReduce {
        out_shape: vec!["s"],
        iters: "n",
        input_strides: vec!["i"],
        iter_stride: "t",
        output_strides: vec!["o"],
    })
}

fn matmul() -> Op {
    OpenClKernelOp::Matmul(OpenClMatmul {
        out_shape: vec!["s"],
        mul_shape: vec!["m"],
        k: "k",
        lhs_strides: vec!["l"],
        rhs_strides: vec!["r"],
        sum_input_strides: vec!["i"],
        sum_iter_stride: "t",
        out_strides: vec!["o"],
    })
}

fn scatter() -> Op {
    OpenClKernelOp::Scatter(OpenClScatter {
        dest_shape: vec!["d"],
        dest_strides: vec!["ds"],
        index_shape: vec!["x"],
        index_strides: vec!["xs"],
        src_strides: vec!["ss"],
        out_strides: vec!["o"],
    })
}

fn gather() -> Op {
    OpenClKernelOp::Gather(OpenClGather {
        out_shape: vec!["s"],
        index_strides: vec!["x"],
        data_shape: vec!["d"],
        data_strides: vec!["ds"],
        out_strides: vec!["o"],
    })
}

fn cast(target_dtype: DType) -> Op {
    OpenClKernelOp::Cast(OpenClCast { size: "n", target_dtype })
}

#[test]
fn unary_program_is_written_out() {
    let (text, names) = source(&unary(UnaryFunction::Recip), &[DType::F16], DType::F16, &["IN", "OUT"]);
    assert_eq!(names, vec!["unary_kernel"]);
    assert_eq!(
        text,
        "#pragma OPENCL EXTENSION cl_khr_fp16 : enable

                    __kernel void unary_kernel(
                        __global const half *input,
                        __global half *output,
                        __global const int *dyn,
                        uint n_elements)
                    {
                        int idx = (int)get_global_id(0);
                        if ((uint)idx < n_elements) {
                            output[OUT] = convert_half(1.0f / (convert_float(input[IN])));
                        }
                    }
                    "
    );
    let call = |function| {
        source(&unary(function), &[DType::F32], DType::F32, &["IN", "OUT"]).0
    };
    assert!(call(UnaryFunction::Exp2).contains("= exp2(input[IN]);"));
    assert!(call(UnaryFunction::Log2).contains("= log2(input[IN]);"));
    assert!(call(UnaryFunction::Sin).contains("= sin(input[IN]);"));
    assert!(call(UnaryFunction::Sqrt).contains("= sqrt(input[IN]);"));
}

#[test]
fn binary_program_is_written_out() {
    let (text, names) =
        source(&binary(BinaryFunction::Add), &[DType::F32, DType::Int], DType::F32, &["A", "B", "OUT"]);
    assert_eq!(names, vec!["binary_kernel"]);
    assert_eq!(
        text,
        "
        __kernel void binary_kernel(
            __global const float *a,
            __global const int *b,
            __global float *output,
            __global const int *dyn,
            uint n_elements)
        {
            int idx = (int)get_global_id(0);
            if ((uint)idx < n_elements) {
                output[OUT] = (a[A]) + (convert_float(b[B]));
            }
        }
        "
    );
    let value = |function, dtype| source(&binary(function), &[dtype], dtype, &["A", "B", "OUT"]).0;
    assert!(value(BinaryFunction::Mul, DType::F32).contains("= (a[A]) * (b[B]);"));
    assert!(value(BinaryFunction::Mod, DType::F32).contains("= fmod((a[A]), (b[B]));"));
    assert!(value(BinaryFunction::Mod, DType::Int).contains("= convert_int_rtz((a[A]) % (b[B]));"));
}

#[test]
fn comparison_program_is_written_out() {
    let (text, names) = source(&less_than(), &[DType::Int], DType::Bool, &["A", "B", "OUT"]);
    assert_eq!(names, vec!["less_than_kernel"]);
    assert!(text.starts_with("\n            __kernel void less_than_kernel(\n"));
    assert!(text.contains("output[OUT] = (uchar)((a[A]) < (b[B]));"));
    assert!(text.contains("__global uchar *output,"));
}

#[test]
fn reduction_programs_are_written_out() {
    let (text, _) = source(&sum(), &[DType::F32], DType::F32, &["START", "OUT", "ITERS", "STEP"]);
    assert_eq!(
        text,
        "
            __kernel void sum_kernel(
                __global const float *input,
                __global float *output,
                __global const int *dyn,
                uint n_outputs)
            {
                int idx = (int)get_global_id(0);
                if ((uint)idx >= n_outputs) return;
                int input_start = START;
                int reduction_len = ITERS;
                float sum = 0.0f;
                for (int i = 0; i < reduction_len; ++i) {
                    sum += input[input_start + STEP];
                }
                output[OUT] = sum;
            }
            "
    );
    let (text, names) = source(&max(), &[DType::Int], DType::Int, &["START", "OUT", "ITERS", "STEP"]);
    assert_eq!(names, vec!["max_kernel"]);
    assert!(text.contains("int max_value = (-2147483647 - 1);"));
    assert!(text.contains("int value = input[input_start + STEP];"));
    assert!(text.contains("max_value = max(max_value, value);"));
    assert!(text.contains("output[OUT] = convert_int_rtz(max_value);"));
    let (text, _) = source(&max(), &[DType::F16], DType::F16, &["START", "OUT", "ITERS", "STEP"]);
    assert!(text.contains("float max_value = -INFINITY;"));
    assert!(text.contains("max_value = fmax(max_value, value);"));
}

#[test]
fn matmul_program_is_written_out() {
    let lowered = ["BASE", "STEP", "L", "R", "OUT", "K"];
    let (text, names) = source(&matmul(), &[DType::F32, DType::F32], DType::F32, &lowered);
    assert_eq!(names, vec!["matmul_kernel"]);
    assert_eq!(
        text,
        "
            __kernel void matmul_kernel(
                __global const float *lhs,
                __global const float *rhs,
                __global float *output,
                __global const int *dyn,
                uint n_outputs)
            {
                int idx = (int)get_global_id(0);
                if ((uint)idx >= n_outputs) return;
                int base_idx = BASE;
                int reduction_len = K;
                float sum = 0.0f;
                for (int i = 0; i < reduction_len; ++i) {
                    int mul_idx = base_idx + STEP;
                    sum += (lhs[L]) * (rhs[R]);
                }
                output[OUT] = sum;
            }
            "
    );
}

#[test]
fn remaining_programs_are_written_out() {
    let constant: Op = OpenClKernelOp::Constant(OpenClConstant { bits: 1.0f32.to_bits() });
    let (text, names) = source(&constant, &[], DType::F32, &[]);
    assert_eq!(names, vec!["constant_kernel"]);
    assert!(text.contains("if (get_global_id(0) == 0) output[0] = as_float(0x3f800000u);"));

    let iota: Op = OpenClKernelOp::Iota(OpenClIota { expression: "e", range: "n" });
    let (text, names) = source(&iota, &[], DType::Int, &["E"]);
    assert_eq!(names, vec!["iota_kernel"]);
    assert!(text.contains("if ((uint)idx < n_elements) output[idx] = (int)(E);"));

    let (text, names) = source(&gather(), &[DType::Int, DType::F16], DType::F16, &["OUT", "X", "D"]);
    assert_eq!(names, vec!["gather_kernel"]);
    assert!(text.starts_with("#pragma OPENCL EXTENSION cl_khr_fp16 : enable\n\n"));
    assert!(text.contains("int gathered_index = indexes[X];"));
    assert!(text.contains("output[OUT] = data[D];"));

    let (text, names) = source(
        &scatter(),
        &[DType::F32, DType::Int, DType::F32],
        DType::F32,
        &["D", "OUT", "X", "S"],
    );
    assert_eq!(names, vec!["scatter_copy_kernel", "scatter_write_kernel"]);
    assert!(text.contains("if ((uint)idx < n_elements) output[OUT] = dest[D];"));
    assert!(text.contains("int output_index = indexes[X];"));
    assert!(text.contains("output[output_index] = src[S];"));

    let (text, names) = source(&cast(DType::Bool), &[DType::F32], DType::Bool, &[]);
    assert_eq!(names, vec!["cast_kernel"]);
    assert!(text.contains("output[idx] = (uchar)(input[idx] != 0);"));
    for name in names {
        assert!(text.contains(&format!("__kernel void {name}(")));
    }
}

#[test]
fn unsupported_types_have_no_kernel() {
    let error = |op: Op, inputs: Vec<DType>, output, count: usize| {
        op.compile(&inputs, output, &vec![String::new(); count]).err()
    };
    assert_eq!(error(sum(), vec![DType::Bool], DType::Bool, 4), Some(KernelError::BoolSum));
    assert_eq!(error(max(), vec![DType::Bool], DType::Bool, 4), Some(KernelError::BoolMax));
    assert_eq!(
        error(binary(BinaryFunction::Add), vec![DType::F32, DType::I8], DType::F32, 3),
        Some(KernelError::UnsupportedDType(DType::I8))
    );
    assert_eq!(
        error(cast(DType::Other), vec![DType::F32], DType::Other, 0),
        Some(KernelError::UnsupportedDType(DType::Other))
    );
}

#[test]
fn index_expressions_are_listed_in_order() {
    let op = matmul();
    let listed: Vec<(bool, &str)> = op
        .index_exprs()
        .iter()
        .map(|expr| match expr {
            IndexExpr::Flat { variable, .. } => (true, *variable),
            IndexExpr::Plain { variable, .. } => (false, *variable),
        })
        .collect();
    assert_eq!(
        listed,
        vec![
            (true, "idx"),
            (false, "i"),
            (true, "mul_idx"),
            (true, "mul_idx"),
            (true, "idx"),
            (false, "idx"),
        ]
    );
    match &op.index_exprs()[2] {
        IndexExpr::Flat { shape, strides, .. } => {
            assert_eq!((*shape, *strides), (&vec!["m"], &vec!["l"]))
        }
        IndexExpr::Plain { .. } => panic!("not flattened"),
    }
    assert!(matches!(op.output_size(), SizeExpr::ProductOrOne(shape) if *shape == vec!["s"]));
}

#[test]
fn launches_pass_their_counts() {
    let launch = &unary(UnaryFunction::Sin).launches(&vec![6])[0];
    assert_eq!(launch.work_items, 6);
    assert_eq!(
        launch.args,
        vec![KernelArg::Input(0), KernelArg::Output, KernelArg::DynDims, KernelArg::Count(6)]
    );
    assert_eq!(unary(UnaryFunction::Sin).launches(&vec![0]).len(), 0);
    assert_eq!(unary(UnaryFunction::Sin).launches(&vec![1 << 32]).len(), 0);
    let launch = &matmul().launches(&vec![(1 << 32) + 5])[0];
    assert_eq!(launch.work_items, 5);
    assert_eq!(launch.args[1], KernelArg::Input(1));

    let op = scatter();
    assert_eq!(op.launch_counts().len(), 2);
    let both = op.launches(&vec![4, 2]);
    assert_eq!((both[0].kernel, both[1].kernel), (0, 1));
    assert_eq!(both[1].args[..2], [KernelArg::Input(1), KernelArg::Input(2)]);
    let write = op.launches(&vec![0, 2]);
    assert_eq!((write.len(), write[0].kernel), (1, 1));

    let constant: Op = OpenClKernelOp::Constant(OpenClConstant { bits: 0 });
    assert_eq!(constant.launches(&vec![])[0].args, vec![KernelArg::Output]);
    let iota: Op = OpenClKernelOp::Iota(OpenClIota { expression: "e", range: "n" });
    assert_eq!(iota.launches(&vec![3])[0].args.len(), 3);
}

#[test]
fn dimensions_keep_their_slots() {
    let mut dims = DynDims::new();
    assert_eq!(dims.buffer_len(), 1);
    assert_eq!(dims.values(&HashMap::new()), Ok(vec![0]));
    assert_eq!(dims.symbol_text(115), "dyn[0]");
    assert_eq!(dims.symbol_text(98), "dyn[1]");
    assert_eq!(dims.symbol_text(115), "dyn[0]");
    assert_eq!(dims.dyn_slot(98), 1);
    assert_eq!(dims.dyn_dims_order(), vec![115, 98]);
    assert_eq!(dims.buffer_len(), 2);
    let mut map = HashMap::from([(98, 7), (115, 0xffff_ffff)]);
    assert_eq!(dims.values(&map), Ok(vec![-1, 7]));
    map.remove(&98);
    assert_eq!(dims.values(&map), Err(UnboundDim { dim: 98, slot: 1 }));
    dims.clear_dyn_dims_order();
    assert_eq!(dims.dyn_dims_order(), vec![]);
}

fn edge(id: usize, source: usize, target: usize) -> GraphEdge {
    GraphEdge { id, source, target }
}

/// `cast_int(a + b)`, with `a + b` and `a` read back too.
fn graph() -> LlirGraph<Op> {
    LlirGraph {
        nodes: vec![
            GraphNode::Op(cast(DType::Int)),
            GraphNode::Input { hlir: 10, dtype: DType::F32 },
            GraphNode::Input { hlir: 11, dtype: DType::F32 },
            GraphNode::Op(binary(BinaryFunction::Add)),
            GraphNode::Output { hlir: 20 },
            GraphNode::Output { hlir: 21 },
            GraphNode::Output { hlir: 22 },
        ],
        edges: vec![
            edge(5, 2, 3),
            edge(4, 1, 3),
            edge(0, 3, 0),
            edge(1, 0, 4),
            edge(2, 3, 5),
            edge(3, 1, 6),
        ],
    }
}

fn runtime() -> OpenClRuntime<&'static str, HostData> {
    OpenClRuntime::try_initialize(platforms(), 2).ok().unwrap().0
}

fn bucket(graph: LlirGraph<Op>, index: usize) -> BucketLlir<Op> {
    BucketLlir { indices: HashMap::from([(115, index)]), graph }
}

fn loaded() -> OpenClRuntime<&'static str, HostData> {
    let mut runtime = runtime();
    runtime.load_llir(bucket(graph(), 0)).ok().unwrap();
    runtime
}

#[test]
fn runtime_is_created_for_a_device() {
    let (runtime, device) =
        OpenClRuntime::<&'static str, HostData>::try_initialize(platforms(), 0).ok().unwrap();
    assert_eq!(runtime.device_info().name, "Adreno");
    assert_eq!(device, 3);
    assert_eq!(
        OpenClRuntime::<&'static str, HostData>::try_initialize(platforms(), 4).err().unwrap(),
        "OpenCL device index 4 does not exist"
    );
}

#[test]
fn graph_runs_in_topological_order() {
    let mut runtime = loaded();
    assert_eq!(runtime.set_data(10, HostData::F32(vec![0; 4])), Some(DType::F32));
    assert_eq!(runtime.set_data(99, HostData::F32(vec![0; 4])), None);
    assert_eq!(runtime.refresh_inputs(), vec![(10, DType::F32)]);
    let upload = runtime.upload_input(10, 16);
    assert_eq!((upload.allocation, upload.write), (16, true));
    assert_eq!(runtime.upload_input(11, 0).allocation, 1);
    assert!(matches!(runtime.result_sizes()[0], SizeExpr::ProductOrOne(_)));
    assert!(matches!(runtime.result_sizes()[1], SizeExpr::Plain(&"n")));

    let counts = vec![vec![4], vec![4]];
    assert_eq!(runtime.execute(&counts).err(), Some(ExecuteError::MissingOutput(3)));
    let allocations = runtime.allocate_intermediates(&vec![4, 4]).unwrap();
    assert_eq!(allocations.len(), 2);
    assert_eq!((allocations[0].node, allocations[0].allocation), (3, 16));
    assert_eq!(runtime.allocate_intermediates(&vec![4, 4]).unwrap(), vec![]);
    assert_eq!(
        runtime.allocate_intermediates(&vec![usize::MAX, 4]),
        Err(AllocateError::SizeOverflow(3))
    );

    let plan = runtime.execute(&counts).ok().unwrap();
    assert_eq!(plan.len(), 2);
    assert_eq!(
        plan[0][0].args,
        vec![
            BoundArg::Buffer(BufferRef::Input(10)),
            BoundArg::Buffer(BufferRef::Input(11)),
            BoundArg::Buffer(BufferRef::Intermediate(3)),
            BoundArg::DynDims,
            BoundArg::Count(4),
        ]
    );
    assert_eq!(plan[1][0].args[0], BoundArg::Buffer(BufferRef::Intermediate(3)));
    assert_eq!(plan[1][0].args[1], BoundArg::Buffer(BufferRef::Intermediate(0)));
    assert_eq!(plan[1][0].work_items, 4);
}

#[test]
fn step_program_has_the_compiled_types() {
    let runtime = loaded();
    assert_eq!(runtime.step_exprs(0, 0).len(), 3);
    let lowered = texts(&["a", "b", "o"]);
    let program = runtime.step_program(0, 0, &lowered).ok().unwrap();
    let add = binary(BinaryFunction::Add);
    let expected = source(&add, &[DType::F32, DType::F32], DType::F32, &["a", "b", "o"]);
    assert_eq!((program.text, program.names), expected);

    assert_eq!(runtime.step_exprs(0, 1).len(), 0);
    let program = runtime.step_program(0, 1, &vec![]).ok().unwrap();
    let expected = source(&cast(DType::Int), &[DType::F32], DType::Int, &[]);
    assert_eq!((program.text, program.names), expected);
}

#[test]
fn unset_inputs_stop_a_graph() {
    let mut runtime = loaded();
    runtime.allocate_intermediates(&vec![4, 4]).unwrap();
    let counts = vec![vec![4], vec![4]];
    assert_eq!(runtime.execute(&counts).err(), Some(ExecuteError::InputNotSet(10)));
    let mut lonely = graph();
    lonely.edges.remove(0);
    let mut runtime = self::runtime();
    runtime.load_llir(bucket(lonely, 0)).ok().unwrap();
    runtime.upload_input(10, 16);
    runtime.allocate_intermediates(&vec![4, 4]).unwrap();
    assert_eq!(runtime.execute(&counts).err(), Some(ExecuteError::MissingArgument(3)));
    assert_eq!(self::runtime().execute(&vec![]).err(), Some(ExecuteError::NotCompiled));
}

#[test]
fn unsupported_graphs_have_no_program() {
    let refused = |change: fn(&mut LlirGraph<Op>)| {
        let mut changed = graph();
        change(&mut changed);
        match runtime().load_llir(bucket(changed, 0)) {
            Err(LoadError::Compile(error)) => error,
            _ => panic!("compiled"),
        }
    };
    assert_eq!(refused(|graph| graph.nodes[3] = GraphNode::Unlowered), CompileError::Unlowered(3));
    assert_eq!(
        refused(|graph| graph.nodes[1] = GraphNode::Input { hlir: 10, dtype: DType::F16 }),
        CompileError::Op(OpenClFault::NoHalfPrecision)
    );
    assert_eq!(
        refused(|graph| graph.nodes[1] = GraphNode::Input { hlir: 10, dtype: DType::I8 }),
        CompileError::Op(OpenClFault::Kernel(KernelError::UnsupportedDType(DType::I8)))
    );
    assert_eq!(
        refused(|graph| graph.nodes[2] = GraphNode::Output { hlir: 1 }),
        CompileError::MissingDType(2)
    );
    assert_eq!(refused(|graph| graph.edges.push(edge(9, 0, 3))), CompileError::Cycle);
    assert_eq!(refused(|graph| graph.edges.push(edge(9, 0, 0))), CompileError::Cycle);
    assert_eq!(runtime().load_llir_buckets(vec![]), Err(LoadError::NoBuckets));
}

#[test]
fn bucket_is_selected_by_its_ranges() {
    let mut runtime = runtime();
    assert!(runtime.select_bucket(&vec![]));
    runtime.load_llir_buckets(vec![bucket(graph(), 0), bucket(graph(), 1)]).ok().unwrap();
    let fit = |fits| vec![DimFit { dim: 115, fits }];
    assert!(runtime.select_bucket(&fit(vec![false, true])));
    assert_eq!(runtime.active_bucket, 1);
    assert!(runtime.select_bucket(&fit(vec![true, true])));
    assert_eq!(runtime.active_bucket, 0);
    assert!(runtime.select_bucket(&fit(vec![false])));
    assert_eq!(runtime.active_bucket, 1);
    assert!(!runtime.select_bucket(&fit(vec![false, false])));
    assert_eq!(runtime.active_bucket, 1);
    assert!(runtime.select_bucket(&vec![DimFit { dim: 7, fits: vec![true, false] }]));
    assert_eq!(runtime.active_bucket, 0);
}

#[test]
fn recurrent_state_is_copied_on_the_device() {
    let mut runtime = loaded();
    assert_eq!(runtime.copy_output_to_input(30, 10), Err(OutputError::NoOutput(30)));
    assert_eq!(runtime.copy_output_to_input(22, 10), Ok(None));
    assert_eq!(runtime.copy_output_to_input(21, 10), Err(OutputError::InputNotSet(10)));
    runtime.upload_input(11, 8);
    assert_eq!(runtime.copy_output_to_input(22, 11), Err(OutputError::InputNotSet(10)));
    assert_eq!(runtime.copy_output_to_input(21, 11), Err(OutputError::NotAllocated(3)));
    runtime.allocate_intermediates(&vec![4, 4]).unwrap();
    assert_eq!(
        runtime.copy_output_to_input(21, 11),
        Err(OutputError::SizeChanged { source: 16, destination: 8 })
    );
    runtime.upload_input(11, 16);
    assert_eq!(
        runtime.copy_output_to_input(21, 11),
        Ok(Some(BufferCopy { source: BufferRef::Intermediate(3), bytes: 16 }))
    );
    // An empty tensor has a buffer of one byte.
    runtime.upload_input(11, 1);
    runtime.upload_input(10, 0);
    assert_eq!(
        runtime.copy_output_to_input(22, 11),
        Ok(Some(BufferCopy { source: BufferRef::Input(10), bytes: 1 }))
    );
    assert_eq!(self::runtime().copy_output_to_input(1, 2), Err(OutputError::NotCompiled));
}

#[test]
fn outputs_are_read_in_their_types() {
    let mut runtime = loaded();
    runtime.upload_input(10, 16);
    runtime.allocate_intermediates(&vec![4, 2]).unwrap();
    let readback = runtime.read_output(20).unwrap();
    assert_eq!(
        (readback.source, readback.bytes, readback.dtype),
        (BufferRef::Intermediate(0), 8, DType::Int)
    );
    assert_eq!(runtime.read_output(22).unwrap().source, BufferRef::Input(10));
    let bytes: Vec<u8> = [3i32, -4].iter().flat_map(|value| value.to_ne_bytes()).collect();
    assert_eq!(runtime.get_i32(20, &bytes), Ok(vec![3, -4]));
    assert_eq!(runtime.get_f32(20, &bytes), Ok(HostData::Int(vec![3, -4])));
    assert_eq!(runtime.get_f16(20, &bytes), Err(ReadError::WrongType(DType::Int)));
    assert_eq!(runtime.get_bool(20, &bytes), Err(ReadError::WrongType(DType::Int)));
    assert_eq!(runtime.get_i32(20, &vec![1]), Err(ReadError::Misaligned));
    assert_eq!(
        runtime.get_i32(30, &bytes),
        Err(ReadError::Output(OutputError::NoOutput(30)))
    );
}

#[test]
fn uploads_are_read_back() {
    let half = half::f16::from_f32(1.5);
    for data in [
        HostData::F32(vec![1.5f32.to_bits(), 0x8000_0001]),
        HostData::F16(vec![half.to_bits(), 0x8001]),
        HostData::Int(vec![-1, 7]),
        HostData::Bool(vec![true, false]),
    ] {
        let dtype = match &data {
            HostData::F32(_) => DType::F32,
            HostData::F16(_) => DType::F16,
            HostData::Int(_) => DType::Int,
            _ => DType::Bool,
        };
        let bytes = reference_bytes(&data, dtype).unwrap();
        assert_eq!(decode(dtype, &bytes), Ok(data));
    }
    assert_eq!(
        reference_bytes(&HostData::F16(vec![half.to_bits()]), DType::F16),
        Ok(bytemuck::cast_slice::<half::f16, u8>(&[half]).to_vec())
    );
    assert_eq!(decode(DType::Bool, &vec![0, 9]), Ok(HostData::Bool(vec![false, true])));
    assert_eq!(decode(DType::F16, &vec![0]), Err(ReadError::Misaligned));
    assert_eq!(decode(DType::I8, &vec![0]), Err(ReadError::Unreadable(DType::I8)));
    assert_eq!(reference_bytes(&HostData::I8(vec![0]), DType::I8), Err(DType::I8));
}

#[test]
fn unbound_dimension_is_reported() {
    let mut runtime = loaded();
    assert_eq!(runtime.update_dyn_buffer(&HashMap::new()), Ok(vec![0]));
    runtime.dyn_dims.dyn_slot(115);
    assert_eq!(
        runtime.update_dyn_buffer(&HashMap::new()),
        Err(UnboundDim { dim: 115, slot: 0 })
    );
    assert_eq!(runtime.update_dyn_buffer(&HashMap::from([(115, 3)])), Ok(vec![3]));
    runtime.load_llir(bucket(graph(), 0)).ok().unwrap();
    assert_eq!(runtime.dyn_dims.dyn_dims_order(), vec![]);
}

#[test]
fn operations_have_their_fields() {
    let sorts = opencl_sorts();
    let names: Vec<&str> = sorts.iter().map(|sort| sort.name()).collect();
    assert_eq!(names.len(), 17);
    assert_eq!(names[..6], [
        "OpenClExp2", "OpenClLog2", "OpenClSin", "OpenClSqrt", "OpenClRecip", "OpenClAdd",
    ]);
    assert_eq!(names[6..11], [
        "OpenClMul", "OpenClMod", "OpenClLessThan", "OpenClSum", "OpenClMax",
    ]);
    assert_eq!(sorts[0].field_kinds(), vec![FieldKind::ExprList; 3]);
    assert_eq!(sorts[5].field_kinds(), vec![FieldKind::ExprList; 4]);
    assert_eq!(sorts[9].field_kinds()[3], FieldKind::Expr);
    assert_eq!(
        sorts[16].field_kinds(),
        vec![FieldKind::Operand, FieldKind::Expr, FieldKind::DType]
    );
    assert_eq!(operand_names(HlirOp::Recip), vec!["inp"]);
    assert_eq!(operand_names(HlirOp::MaxReduce), vec!["inp"]);
    assert_eq!(operand_names(HlirOp::LessThan), vec!["inp_a", "inp_b"]);
    assert_eq!(operand_names(HlirOp::Iota), Vec::<&str>::new());
    assert_eq!(operand_names(HlirOp::Gather), vec!["indexes", "data"]);
    assert_eq!(operand_names(HlirOp::Scatter), vec!["dest", "indexes", "src"]);
}

#[test]
fn dialect_has_a_rule_for_each_operation() {
    let rules = opencl_rewrites();
    assert_eq!(rules.len(), 18);
    match &rules[11] {
        Rule::Rewrite { name, ruleset, subsumes, .. } => {
            assert_eq!(*name, Some("opencl-fused-matmul"));
            assert_eq!(*ruleset, "matmul_backend");
            assert!(!subsumes);
        }
        Rule::Raw(_) => panic!("not a rewrite"),
    }
    match &rules[12] {
        Rule::Raw(text) => {
            assert!(text.starts_with("(rule\n                    ((= ?mul (Op (OpenClMul "));
            assert!(text.ends_with(
                ":name \"delete-opencl-broadcast-mul-sum-when-matmul-exists\")"
            ));
        }
        Rule::Rewrite { .. } => panic!("not raw"),
    }
    match &rules[8] {
        Rule::Rewrite { dtype, facts, subsumes, .. } => {
            assert!(matches!(dtype, Term::DType(DType::Bool)));
            assert!(facts.is_empty());
            assert!(subsumes);
        }
        Rule::Raw(_) => panic!("not a rewrite"),
    }
    match gather_sort() {
        SortDef::Fields { name, fields, .. } => {
            assert_eq!(name, "OpenClGather");
            assert_eq!(fields.len(), 7);
        }
        _ => panic!("not a list of fields"),
    }
}

#[test]
fn operations_are_built_from_children() {
    let list = |name: &'static str| Child::List(vec![name]);
    let (op, operands) = extract_matmul(vec![
        list("out"),
        list("mul"),
        Child::Expr("k"),
        Child::Operand(7),
        list("l"),
        Child::Operand(8),
        list("r"),
        list("si"),
        Child::Expr("st"),
        list("o"),
    ])
    .unwrap();
    assert_eq!(operands, vec![7, 8]);
    assert_eq!((op.k, op.sum_iter_stride), ("k", "st"));
    assert_eq!((op.lhs_strides, op.rhs_strides), (vec!["l"], vec!["r"]));
    assert_eq!((op.sum_input_strides, op.out_strides), (vec!["si"], vec!["o"]));

    let (op, operands) = extract_gather(vec![
        list("out"),
        Child::Operand(3),
        list("x"),
        Child::Operand(4),
        list("d"),
        list("ds"),
        list("o"),
    ])
    .unwrap();
    assert_eq!(operands, vec![3, 4]);
    assert_eq!((op.data_shape, op.data_strides), (vec!["d"], vec!["ds"]));
    assert!(extract_scatter(vec![list("only")]).is_none());
}

#[test]
fn frontend_graph_is_checked() {
    let input = |dtype, name: &str| FrontendNode::Input {
        label: "x".to_string(),
        dtype,
        dtype_name: name.to_string(),
    };
    let convert = |dtype, name: &str| FrontendNode::Cast { dtype, dtype_name: name.to_string() };
    assert_eq!(
        opencl_factory(0, &vec![input(DType::F16, "F16"), convert(DType::Int, "Int")], Some(2)),
        Ok(2)
    );
    assert_eq!(opencl_factory(0, &vec![], None), Ok(0));
    assert_eq!(
        opencl_factory(0, &vec![input(DType::Other, "Bf16")], None).unwrap_err(),
        "OpenCL backend does not support Bf16 input `x`; supported dtypes are F32, F16, Int, and Bool"
    );
    assert_eq!(
        opencl_factory(0, &vec![convert(DType::I8, "I8")], None).unwrap_err(),
        "OpenCL backend does not support casts to I8; supported dtypes are F32, F16, Int, and Bool"
    );
    assert_eq!(
        opencl_factory(0, &vec![FrontendNode::ConstantF64], None).unwrap_err(),
        "OpenCL backend does not support F64 scalar constants; use F32 constants instead"
    );
    assert_eq!(
        opencl_factory(3, &vec![], None).unwrap_err(),
        "OpenCL backend accepts host tensors only; CUDA device pointers were provided"
    );
}
