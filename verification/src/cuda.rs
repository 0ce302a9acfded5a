//! The CUDA execution provider's configuration surface: its capability
//! bitset, its enum-valued settings and their fixed literal encodings, the
//! typed option builder, and the platform table that gates registration.

use vstd::prelude::*;
use crate::encode::{
    bool_value, dec_rep, dec_rep_signed, i32_to_dec, lemma_bool_value_nul_free,
    lemma_dec_rep_nul_free, lemma_dec_rep_signed_nul_free, spec_bool_value, u32_to_dec,
    usize_to_dec,
};
use crate::options::{
    convertible, distinct_keys, nul_free, spec_set, ExecutionProviderOptions, FfiOptions,
    OptionPairs,
};

verus! {

/// Attention backend selection: independent capability flags packed into one
/// integer via bitwise OR. Only flags built from the named constructors can
/// occur, so no bit outside the enumerated set is ever set by the builder
/// itself.
#[derive(Debug, Clone, Copy, PartialEq, Eq, Hash, Structural)]
pub struct CUDAAttentionBackend(u32);

/// The combination of two flag values: the bitwise OR of their bits.
pub closed spec fn spec_or(a: CUDAAttentionBackend, b: CUDAAttentionBackend) -> CUDAAttentionBackend {
    CUDAAttentionBackend(a.0 | b.0)
}

impl CUDAAttentionBackend {
    /// The packed flag bits, as serialized for the native runtime.
    pub closed spec fn bits(self) -> u32 {
        self.0
    }

    /// No backend enabled.
    pub fn none() -> (r: Self)
        ensures
            r.bits() == 0u32,
    {
        CUDAAttentionBackend(0)
    }

    pub fn flash_attention() -> (r: Self)
        ensures
            r.bits() == 0x1u32,
    {
        CUDAAttentionBackend(0x1)
    }

    pub fn efficient_attention() -> (r: Self)
        ensures
            r.bits() == 0x2u32,
    {
        CUDAAttentionBackend(0x2)
    }

    pub fn trt_fused_attention() -> (r: Self)
        ensures
            r.bits() == 0x4u32,
    {
        CUDAAttentionBackend(0x4)
    }

    pub fn cudnn_flash_attention() -> (r: Self)
        ensures
            r.bits() == 0x8u32,
    {
        CUDAAttentionBackend(0x8)
    }

    pub fn math() -> (r: Self)
        ensures
            r.bits() == 0x10u32,
    {
        CUDAAttentionBackend(0x10)
    }

    pub fn trt_flash_attention() -> (r: Self)
        ensures
            r.bits() == 0x20u32,
    {
        CUDAAttentionBackend(0x20)
    }

    pub fn trt_cross_attention() -> (r: Self)
        ensures
            r.bits() == 0x40u32,
    {
        CUDAAttentionBackend(0x40)
    }

    pub fn trt_causal_attention() -> (r: Self)
        ensures
            r.bits() == 0x80u32,
    {
        CUDAAttentionBackend(0x80)
    }

    pub fn lean_attention() -> (r: Self)
        ensures
            r.bits() == 0x100u32,
    {
        CUDAAttentionBackend(0x100)
    }

    /// Every backend but lean attention enabled.
    pub fn all() -> (r: Self)
        ensures
            r.bits() == 0xFFu32,
    {
        let r = Self::flash_attention().bitor(Self::efficient_attention()).bitor(
            Self::trt_fused_attention(),
        ).bitor(Self::cudnn_flash_attention()).bitor(Self::math()).bitor(
            Self::trt_flash_attention(),
        ).bitor(Self::trt_cross_attention()).bitor(Self::trt_causal_attention());
        proof {
            assert((((((((0x1u32 | 0x2) | 0x4) | 0x8) | 0x10) | 0x20) | 0x40) | 0x80) == 0xFFu32)
                by (bit_vector);
        }
        r
    }

    /// Combines two flag sets: the result's bits are the bitwise OR of both
    /// operands' bits.
    pub fn bitor(self, rhs: Self) -> (r: Self)
        ensures
            r == spec_or(self, rhs),
            r.bits() == self.bits() | rhs.bits(),
    {
        let r = CUDAAttentionBackend(rhs.0 | self.0);
        proof {
            let a = self.0;
            let b = rhs.0;
            assert(b | a == a | b) by (bit_vector);
        }
        r
    }
}

impl Default for CUDAAttentionBackend {
    /// No backend enabled.
    fn default() -> (r: Self)
        ensures
            r.bits() == 0u32,
    {
        CUDAAttentionBackend(0)
    }
}

/// Combination is the bitwise OR of the operands' bits.
pub proof fn lemma_or_bits(a: CUDAAttentionBackend, b: CUDAAttentionBackend)
    ensures
        spec_or(a, b).bits() == a.bits() | b.bits(),
{
}

/// A value with no flag set is the identity of combination, on either side.
pub proof fn lemma_or_identity(a: CUDAAttentionBackend, z: CUDAAttentionBackend)
    requires
        z.bits() == 0,
    ensures
        spec_or(a, z) == a,
        spec_or(z, a) == a,
{
    let x = a.0;
    assert(x | 0 == x && 0 | x == x) by (bit_vector);
}

/// Flag combination is commutative: `A | B == B | A`.
pub proof fn lemma_or_commutative(a: CUDAAttentionBackend, b: CUDAAttentionBackend)
    ensures
        spec_or(a, b) == spec_or(b, a),
{
    let x = a.0;
    let y = b.0;
    assert(x | y == y | x) by (bit_vector);
}

/// Flag combination is idempotent: `(A | B) | B == A | B`.
pub proof fn lemma_or_idempotent(a: CUDAAttentionBackend, b: CUDAAttentionBackend)
    ensures
        spec_or(spec_or(a, b), b) == spec_or(a, b),
{
    let x = a.0;
    let y = b.0;
    assert((x | y) | y == x | y) by (bit_vector);
}

/// The strategy for extending the device's memory arena.
#[derive(Debug, Clone, Copy, PartialEq, Eq, Structural)]
pub enum ArenaExtendStrategy {
    /// Grow the arena to the next power of two.
    NextPowerOfTwo,
    /// Grow the arena by exactly the requested amount.
    SameAsRequested,
}

/// The fixed literal the native runtime recognizes for each arena strategy.
/// The mapping is total: every variant has a value.
pub open spec fn spec_arena_extend_strategy_value(s: ArenaExtendStrategy) -> Seq<char> {
    match s {
        ArenaExtendStrategy::NextPowerOfTwo => "kNextPowerOfTwo"@,
        ArenaExtendStrategy::SameAsRequested => "kSameAsRequested"@,
    }
}

/// Serializes an arena strategy as its fixed literal.
pub fn arena_extend_strategy_value(s: ArenaExtendStrategy) -> (r: &'static str)
    ensures
        r@ == spec_arena_extend_strategy_value(s),
{
    match s {
        ArenaExtendStrategy::NextPowerOfTwo => "kNextPowerOfTwo",
        ArenaExtendStrategy::SameAsRequested => "kSameAsRequested",
    }
}

/// The type of search done for cuDNN convolution algorithms.
#[derive(Debug, Clone, Copy, PartialEq, Eq, Structural)]
pub enum CuDNNConvAlgorithmSearch {
    /// Exhaustive benchmarking over all candidate algorithms; slow on the
    /// first execution of a graph, fastest afterwards. This is the native
    /// runtime's default search mode.
    Exhaustive,
    /// Lightweight heuristic-based search.
    Heuristic,
    /// No search: use the native runtime's fixed default algorithm.
    Default,
}

/// The fixed literal the native runtime recognizes for each search mode.
/// The mapping is total: every variant has a value.
pub open spec fn spec_conv_algorithm_search_value(s: CuDNNConvAlgorithmSearch) -> Seq<char> {
    match s {
        CuDNNConvAlgorithmSearch::Exhaustive => "EXHAUSTIVE"@,
        CuDNNConvAlgorithmSearch::Heuristic => "HEURISTIC"@,
        CuDNNConvAlgorithmSearch::Default => "DEFAULT"@,
    }
}

/// Serializes a search mode as its fixed literal.
pub fn conv_algorithm_search_value(s: CuDNNConvAlgorithmSearch) -> (r: &'static str)
    ensures
        r@ == spec_conv_algorithm_search_value(s),
{
    match s {
        CuDNNConvAlgorithmSearch::Exhaustive => "EXHAUSTIVE",
        CuDNNConvAlgorithmSearch::Heuristic => "HEURISTIC",
        CuDNNConvAlgorithmSearch::Default => "DEFAULT",
    }
}

impl Default for CuDNNConvAlgorithmSearch {
    /// The native runtime searches exhaustively unless told otherwise.
    fn default() -> (r: Self)
        ensures
            r == CuDNNConvAlgorithmSearch::Exhaustive,
    {
        CuDNNConvAlgorithmSearch::Exhaustive
    }
}

/// Every enum-valued setting maps to a non-empty literal, for every variant;
/// and since each serializer is pinned to a function of the variant alone,
/// encoding the same variant twice always yields the same string.
pub proof fn lemma_enum_values_nonempty()
    ensures
        forall|s: ArenaExtendStrategy| spec_arena_extend_strategy_value(s).len() > 0,
        forall|s: CuDNNConvAlgorithmSearch| spec_conv_algorithm_search_value(s).len() > 0,
{
    reveal_strlit("kNextPowerOfTwo");
    reveal_strlit("kSameAsRequested");
    reveal_strlit("EXHAUSTIVE");
    reveal_strlit("HEURISTIC");
    reveal_strlit("DEFAULT");
    assert forall|s: ArenaExtendStrategy| spec_arena_extend_strategy_value(s).len() > 0 by {
        if s is NextPowerOfTwo {
            assert(spec_arena_extend_strategy_value(s).len() == 15);
        } else {
            assert(spec_arena_extend_strategy_value(s).len() == 16);
        }
    }
    assert forall|s: CuDNNConvAlgorithmSearch| spec_conv_algorithm_search_value(s).len() > 0 by {
        if s is Exhaustive {
            assert(spec_conv_algorithm_search_value(s).len() == 10);
        } else if s is Heuristic {
            assert(spec_conv_algorithm_search_value(s).len() == 9);
        } else {
            assert(spec_conv_algorithm_search_value(s).len() == 7);
        }
    }
}

/// Every option key the builder writes, and every fixed enum literal, is free
/// of nul characters, so each entry the builder produces can cross the
/// boundary in null-terminated form.
pub proof fn lemma_option_text_nul_free()
    ensures
        nul_free("device_id"@),
        nul_free("gpu_mem_limit"@),
        nul_free("arena_extend_strategy"@),
        nul_free("cudnn_conv_algo_search"@),
        nul_free("do_copy_in_default_stream"@),
        nul_free("cudnn_conv_use_max_workspace"@),
        nul_free("cudnn_conv1d_pad_to_nc1d"@),
        nul_free("enable_cuda_graph"@),
        nul_free("enable_skip_layer_norm_strict_mode"@),
        nul_free("use_tf32"@),
        nul_free("prefer_nhwc"@),
        nul_free("user_compute_stream"@),
        nul_free("sdpa_kernel"@),
        nul_free("fuse_conv_bias"@),
        forall|s: ArenaExtendStrategy| nul_free(#[trigger] spec_arena_extend_strategy_value(s)),
        forall|s: CuDNNConvAlgorithmSearch| nul_free(
            #[trigger] spec_conv_algorithm_search_value(s),
        ),
{
    reveal_strlit("device_id");
    reveal_strlit("gpu_mem_limit");
    reveal_strlit("arena_extend_strategy");
    reveal_strlit("cudnn_conv_algo_search");
    reveal_strlit("do_copy_in_default_stream");
    reveal_strlit("cudnn_conv_use_max_workspace");
    reveal_strlit("cudnn_conv1d_pad_to_nc1d");
    reveal_strlit("enable_cuda_graph");
    reveal_strlit("enable_skip_layer_norm_strict_mode");
    reveal_strlit("use_tf32");
    reveal_strlit("prefer_nhwc");
    reveal_strlit("user_compute_stream");
    reveal_strlit("sdpa_kernel");
    reveal_strlit("fuse_conv_bias");
    reveal_strlit("kNextPowerOfTwo");
    reveal_strlit("kSameAsRequested");
    reveal_strlit("EXHAUSTIVE");
    reveal_strlit("HEURISTIC");
    reveal_strlit("DEFAULT");
    assert forall|s: ArenaExtendStrategy| nul_free(
        #[trigger] spec_arena_extend_strategy_value(s),
    ) by {
        if s is NextPowerOfTwo {
            assert(nul_free("kNextPowerOfTwo"@));
        } else {
            assert(nul_free("kSameAsRequested"@));
        }
    }
    assert forall|s: CuDNNConvAlgorithmSearch| nul_free(
        #[trigger] spec_conv_algorithm_search_value(s),
    ) by {
        if s is Exhaustive {
            assert(nul_free("EXHAUSTIVE"@));
        } else if s is Heuristic {
            assert(nul_free("HEURISTIC"@));
        } else {
            assert(nul_free("DEFAULT"@));
        }
    }
}

/// An operating system a build can target.
#[derive(Debug, Clone, Copy, PartialEq, Eq, Structural)]
pub enum TargetOs {
    Linux,
    Windows,
    MacOs,
    OtherOs,
}

/// A CPU architecture a build can target.
#[derive(Debug, Clone, Copy, PartialEq, Eq, Structural)]
pub enum TargetArch {
    X86_64,
    Aarch64,
    OtherArch,
}

/// The fixed table of (OS, architecture) pairs the CUDA backend supports.
/// This is data, not logic, and is exposed for testing.
pub open spec fn spec_supported_platforms() -> Seq<(TargetOs, TargetArch)> {
    seq![
        (TargetOs::Linux, TargetArch::X86_64),
        (TargetOs::Linux, TargetArch::Aarch64),
        (TargetOs::Windows, TargetArch::X86_64),
    ]
}

/// The supported (OS, architecture) pairs, as a list.
pub fn supported_platforms() -> (r: Vec<(TargetOs, TargetArch)>)
    ensures
        r@ == spec_supported_platforms(),
{
    let mut r: Vec<(TargetOs, TargetArch)> = Vec::new();
    r.push((TargetOs::Linux, TargetArch::X86_64));
    r.push((TargetOs::Linux, TargetArch::Aarch64));
    r.push((TargetOs::Windows, TargetArch::X86_64));
    proof {
        assert(r@ =~= spec_supported_platforms());
    }
    r
}

/// A typed builder for the CUDA execution provider's options. Every setting
/// is serialized into the generic key/value protocol; the native runtime
/// validates values at registration time.
#[derive(Debug, Clone)]
pub struct CUDAExecutionProvider {
    options: ExecutionProviderOptions,
}

impl View for CUDAExecutionProvider {
    type V = OptionPairs;

    closed spec fn view(&self) -> OptionPairs {
        self.options@
    }
}

impl Default for CUDAExecutionProvider {
    /// A provider with no option set.
    fn default() -> (r: Self)
        ensures
            r.wf(),
            r@ == Seq::<(Seq<char>, Seq<char>)>::empty(),
    {
        CUDAExecutionProvider { options: ExecutionProviderOptions::new() }
    }
}

impl CUDAExecutionProvider {
    /// Well-formed: the accumulated options hold each key at most once.
    pub closed spec fn wf(&self) -> bool {
        self.options.wf()
    }

    /// The provider's registration name.
    pub fn as_str(&self) -> (r: &'static str)
        ensures
            r@ == "CUDAExecutionProvider"@,
    {
        "CUDAExecutionProvider"
    }

    /// Whether the CUDA backend can run on the given target, looked up in the
    /// fixed platform table; no native call is made either way.
    pub fn supported_by_platform(&self, os: TargetOs, arch: TargetArch) -> (r: bool)
        ensures
            r == spec_supported_platforms().contains((os, arch)),
    {
        let r = (os == TargetOs::Linux && (arch == TargetArch::X86_64 || arch
            == TargetArch::Aarch64)) || (os == TargetOs::Windows && arch == TargetArch::X86_64);
        proof {
            let t = spec_supported_platforms();
            if r {
                if os == TargetOs::Linux && arch == TargetArch::X86_64 {
                    assert(t[0] == (os, arch));
                } else if os == TargetOs::Linux && arch == TargetArch::Aarch64 {
                    assert(t[1] == (os, arch));
                } else {
                    assert(t[2] == (os, arch));
                }
            } else {
                if t.contains((os, arch)) {
                    let i = choose|i: int| 0 <= i < t.len() && t[i] == (os, arch);
                    assert(i == 0 || i == 1 || i == 2);
                    assert(false);
                }
            }
        }
        r
    }

    /// The transient serialized form of the accumulated options: parallel
    /// key/value arrays of equal length, in insertion order, each key unique.
    pub fn to_ffi(&self) -> (r: FfiOptions<'_>)
        requires
            self.wf(),
        ensures
            r@ == self@,
            r.keys@.len() == self@.len(),
            r.values@.len() == self@.len(),
            distinct_keys(r@),
            convertible(r@),
    {
        self.options.to_ffi()
    }

    /// Selects the device the provider runs on.
    pub fn with_device_id(self, device_id: i32) -> (r: Self)
        requires
            self.wf(),
        ensures
            r.wf(),
            r@ == spec_set(self@, "device_id"@, dec_rep_signed(device_id as int)),
    {
        let CUDAExecutionProvider { mut options } = self;
        proof {
            lemma_option_text_nul_free();
            lemma_dec_rep_signed_nul_free(device_id as int);
        }
        options.set("device_id", i32_to_dec(device_id));
        CUDAExecutionProvider { options }
    }

    /// Caps the provider's device memory arena, in bytes. Total device memory
    /// usage may still be higher.
    pub fn with_memory_limit(self, limit: usize) -> (r: Self)
        requires
            self.wf(),
        ensures
            r.wf(),
            r@ == spec_set(self@, "gpu_mem_limit"@, dec_rep(limit as nat)),
    {
        let CUDAExecutionProvider { mut options } = self;
        proof {
            lemma_option_text_nul_free();
            lemma_dec_rep_nul_free(limit as nat);
        }
        options.set("gpu_mem_limit", usize_to_dec(limit));
        CUDAExecutionProvider { options }
    }

    /// Chooses how the device's memory arena grows.
    pub fn with_arena_extend_strategy(self, strategy: ArenaExtendStrategy) -> (r: Self)
        requires
            self.wf(),
        ensures
            r.wf(),
            r@ == spec_set(
                self@,
                "arena_extend_strategy"@,
                spec_arena_extend_strategy_value(strategy),
            ),
    {
        let CUDAExecutionProvider { mut options } = self;
        proof {
            lemma_option_text_nul_free();
        }
        options.set("arena_extend_strategy", arena_extend_strategy_value(strategy).to_owned());
        CUDAExecutionProvider { options }
    }

    /// Chooses the search mode for cuDNN convolution algorithms.
    pub fn with_conv_algorithm_search(self, search: CuDNNConvAlgorithmSearch) -> (r: Self)
        requires
            self.wf(),
        ensures
            r.wf(),
            r@ == spec_set(
                self@,
                "cudnn_conv_algo_search"@,
                spec_conv_algorithm_search_value(search),
            ),
    {
        let CUDAExecutionProvider { mut options } = self;
        proof {
            lemma_option_text_nul_free();
        }
        options.set("cudnn_conv_algo_search", conv_algorithm_search_value(search).to_owned());
        CUDAExecutionProvider { options }
    }

    /// Whether copies run on the default stream rather than separate streams.
    pub fn with_copy_in_default_stream(self, enable: bool) -> (r: Self)
        requires
            self.wf(),
        ensures
            r.wf(),
            r@ == spec_set(self@, "do_copy_in_default_stream"@, spec_bool_value(enable)),
    {
        let CUDAExecutionProvider { mut options } = self;
        proof {
            lemma_option_text_nul_free();
            lemma_bool_value_nul_free(enable);
        }
        options.set("do_copy_in_default_stream", bool_value(enable).to_owned());
        CUDAExecutionProvider { options }
    }

    /// Whether cuDNN may use as much workspace memory as it asks for while
    /// choosing a convolution algorithm, instead of a clamped budget.
    pub fn with_conv_max_workspace(self, enable: bool) -> (r: Self)
        requires
            self.wf(),
        ensures
            r.wf(),
            r@ == spec_set(self@, "cudnn_conv_use_max_workspace"@, spec_bool_value(enable)),
    {
        let CUDAExecutionProvider { mut options } = self;
        proof {
            lemma_option_text_nul_free();
            lemma_bool_value_nul_free(enable);
        }
        options.set("cudnn_conv_use_max_workspace", bool_value(enable).to_owned());
        CUDAExecutionProvider { options }
    }

    /// Whether 3-D convolution inputs are padded to `[N, C, 1, D]` rather
    /// than `[N, C, D, 1]`.
    pub fn with_conv1d_pad_to_nc1d(self, enable: bool) -> (r: Self)
        requires
            self.wf(),
        ensures
            r.wf(),
            r@ == spec_set(self@, "cudnn_conv1d_pad_to_nc1d"@, spec_bool_value(enable)),
    {
        let CUDAExecutionProvider { mut options } = self;
        proof {
            lemma_option_text_nul_free();
            lemma_bool_value_nul_free(enable);
        }
        options.set("cudnn_conv1d_pad_to_nc1d", bool_value(enable).to_owned());
        CUDAExecutionProvider { options }
    }

    /// Whether kernel launches are captured and replayed as a device graph.
    pub fn with_cuda_graph(self, enable: bool) -> (r: Self)
        requires
            self.wf(),
        ensures
            r.wf(),
            r@ == spec_set(self@, "enable_cuda_graph"@, spec_bool_value(enable)),
    {
        let CUDAExecutionProvider { mut options } = self;
        proof {
            lemma_option_text_nul_free();
            lemma_bool_value_nul_free(enable);
        }
        options.set("enable_cuda_graph", bool_value(enable).to_owned());
        CUDAExecutionProvider { options }
    }

    /// Whether the strict variant of the skip-layer-normalization kernel is
    /// used.
    pub fn with_skip_layer_norm_strict_mode(self, enable: bool) -> (r: Self)
        requires
            self.wf(),
        ensures
            r.wf(),
            r@ == spec_set(self@, "enable_skip_layer_norm_strict_mode"@, spec_bool_value(enable)),
    {
        let CUDAExecutionProvider { mut options } = self;
        proof {
            lemma_option_text_nul_free();
            lemma_bool_value_nul_free(enable);
        }
        options.set("enable_skip_layer_norm_strict_mode", bool_value(enable).to_owned());
        CUDAExecutionProvider { options }
    }

    /// Whether reduced-precision TF32 math may be used for 32-bit float
    /// matrix multiplications and convolutions.
    pub fn with_tf32(self, enable: bool) -> (r: Self)
        requires
            self.wf(),
        ensures
            r.wf(),
            r@ == spec_set(self@, "use_tf32"@, spec_bool_value(enable)),
    {
        let CUDAExecutionProvider { mut options } = self;
        proof {
            lemma_option_text_nul_free();
            lemma_bool_value_nul_free(enable);
        }
        options.set("use_tf32", bool_value(enable).to_owned());
        CUDAExecutionProvider { options }
    }

    /// Whether NHWC tensor layout is preferred.
    pub fn with_prefer_nhwc(self, enable: bool) -> (r: Self)
        requires
            self.wf(),
        ensures
            r.wf(),
            r@ == spec_set(self@, "prefer_nhwc"@, spec_bool_value(enable)),
    {
        let CUDAExecutionProvider { mut options } = self;
        proof {
            lemma_option_text_nul_free();
            lemma_bool_value_nul_free(enable);
        }
        options.set("prefer_nhwc", bool_value(enable).to_owned());
        CUDAExecutionProvider { options }
    }

    /// Hands the provider an externally owned compute stream, by address.
    /// The caller must guarantee the stream outlives every session created
    /// with this provider; the bridge cannot verify that obligation, only
    /// record the address.
    pub fn with_compute_stream(self, stream_addr: usize) -> (r: Self)
        requires
            self.wf(),
        ensures
            r.wf(),
            r@ == spec_set(self@, "user_compute_stream"@, dec_rep(stream_addr as nat)),
    {
        let CUDAExecutionProvider { mut options } = self;
        proof {
            lemma_option_text_nul_free();
            lemma_dec_rep_nul_free(stream_addr as nat);
        }
        options.set("user_compute_stream", usize_to_dec(stream_addr));
        CUDAExecutionProvider { options }
    }

    /// Selects which attention backends the provider may use.
    pub fn with_attention_backend(self, flags: CUDAAttentionBackend) -> (r: Self)
        requires
            self.wf(),
        ensures
            r.wf(),
            r@ == spec_set(self@, "sdpa_kernel"@, dec_rep(flags.bits() as nat)),
    {
        let CUDAExecutionProvider { mut options } = self;
        proof {
            lemma_option_text_nul_free();
            lemma_dec_rep_nul_free(flags.bits() as nat);
        }
        options.set("sdpa_kernel", u32_to_dec(flags.0));
        CUDAExecutionProvider { options }
    }

    /// Whether convolutions and their bias additions are fused.
    pub fn with_fuse_conv_bias(self, enable: bool) -> (r: Self)
        requires
            self.wf(),
        ensures
            r.wf(),
            r@ == spec_set(self@, "fuse_conv_bias"@, spec_bool_value(enable)),
    {
        let CUDAExecutionProvider { mut options } = self;
        proof {
            lemma_option_text_nul_free();
            lemma_bool_value_nul_free(enable);
        }
        options.set("fuse_conv_bias", bool_value(enable).to_owned());
        CUDAExecutionProvider { options }
    }
}

} // verus!
