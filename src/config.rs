//! Target and backend configuration: which shared flags the code generator
//! is built with, and which ISA flags a target's CPU features switch on.
use vstd::prelude::*;

verus! {

/// Opaque handle on the backend's shared settings builder.
#[verifier::external_type_specification]
#[verifier::external_body]
pub struct ExSettingsBuilder(cranelift_codegen::settings::Builder);

/// Opaque handle on the backend's frozen shared flags.
#[verifier::external_type_specification]
#[verifier::external_body]
pub struct ExFlags(cranelift_codegen::settings::Flags);

/// Opaque handle on the backend's per-ISA builder.
#[verifier::external_type_specification]
#[verifier::external_body]
pub struct ExIsaBuilder(cranelift_codegen::isa::Builder);

/// Opaque target triple.
#[verifier::external_type_specification]
#[verifier::external_body]
pub struct ExTriple(wasmer_compiler::Triple);

/// Possible optimization levels for the code generator.
#[derive(Clone, Copy, Debug, PartialEq, Eq, Structural)]
pub enum CraneliftOptLevel {
    /// No optimizations performed, minimizes compilation time.
    NoOpt,
    /// Generates the fastest possible code, but may take longer.
    Speed,
    /// Like `Speed`, but also reduces code size.
    SpeedAndSize,
}

/// CPU features a target may report.
#[derive(Clone, Copy, Debug, PartialEq, Eq, Structural)]
pub enum CpuFeature {
    SSE2,
    SSE3,
    SSSE3,
    SSE41,
    SSE42,
    POPCNT,
    AVX,
    BMI1,
    BMI2,
    AVX2,
    AVX512DQ,
    AVX512VL,
    AVX512F,
    LZCNT,
}

/// The architecture family of a target, as far as the backend's ISA lookup
/// tells them apart.
#[derive(Clone, Copy, Debug, PartialEq, Eq, Structural)]
pub enum Arch {
    X86_64,
    /// Little-endian 64-bit ARM.
    Aarch64,
    /// Any other 64-bit ARM flavour (big-endian, ILP32).
    Aarch64Other,
    Riscv,
    Arm,
    S390x,
    Other,
}

/// Relies on the `architecture` field of target_lexicon's `Triple`: which
/// family it belongs to.
#[verifier::external_body]
fn triple_arch(t: &wasmer_compiler::Triple) -> Arch {
    match t.architecture {
        target_lexicon::Architecture::X86_64 => Arch::X86_64,
        target_lexicon::Architecture::Aarch64(target_lexicon::Aarch64Architecture::Aarch64) => {
            Arch::Aarch64
        },
        target_lexicon::Architecture::Aarch64(_) => Arch::Aarch64Other,
        target_lexicon::Architecture::Riscv32(_) => Arch::Riscv,
        target_lexicon::Architecture::Riscv64(_) => Arch::Riscv,
        target_lexicon::Architecture::Arm(_) => Arch::Arm,
        target_lexicon::Architecture::S390x => Arch::S390x,
        _ => Arch::Other,
    }
}

/// A compilation target: its triple, the architecture family of that
/// triple, and its CPU features.
pub struct Target {
    triple: wasmer_compiler::Triple,
    arch: Arch,
    cpu_features: Vec<CpuFeature>,
}

impl Target {
    /// The architecture family of the target's triple.
    pub closed spec fn arch_spec(&self) -> Arch {
        self.arch
    }

    /// The set of CPU features of the target.
    pub closed spec fn features(&self) -> Set<CpuFeature> {
        self.cpu_features@.to_set()
    }

    /// A target for `triple`; its architecture is read off the triple.
    pub fn new(triple: wasmer_compiler::Triple, cpu_features: Vec<CpuFeature>) -> (r: Self)
        ensures
            r.features() == cpu_features@.to_set(),
    {
        let arch = triple_arch(&triple);
        Target { triple, arch, cpu_features }
    }

    /// The target's triple.
    pub fn triple(&self) -> &wasmer_compiler::Triple {
        &self.triple
    }

    /// The architecture family of the target's triple.
    pub fn arch(&self) -> (r: Arch)
        ensures
            r == self.arch_spec(),
    {
        self.arch
    }

    pub fn has_feature(&self, f: CpuFeature) -> (r: bool)
        ensures
            r == self.features().contains(f),
    {
        let mut i: usize = 0;
        while i < self.cpu_features.len()
            invariant
                i <= self.cpu_features@.len(),
                forall|j: int| 0 <= j < i ==> self.cpu_features@[j] != f,
            decreases self.cpu_features@.len() - i,
        {
            if self.cpu_features[i] == f {
                assert(self.cpu_features@.contains(f));
                return true;
            }
            i += 1;
        }
        proof {
            if self.cpu_features@.contains(f) {
                let j = choose|j: int| 0 <= j < self.cpu_features@.len() && self.cpu_features@[j] == f;
                assert(self.cpu_features@[j] != f);
            }
        }
        false
    }
}

/// One entry of the shared flag bundle.
#[derive(Clone, Copy, Debug, PartialEq, Eq, Structural)]
pub enum SharedSetting {
    /// Emit explicit checks for integer division traps.
    AvoidDivTraps,
    /// Position-independent code, on or off.
    IsPic(bool),
    EnableVerifier(bool),
    /// Safepoints, so that reference scanning is possible.
    EnableSafepoints,
    OptLevel(CraneliftOptLevel),
    EnableSimd,
    EnableNanCanonicalization(bool),
}

/// Text of a boolean flag value.
pub open spec fn bool_text(b: bool) -> Seq<char> {
    if b { "true"@ } else { "false"@ }
}

/// Text of an optimization level.
pub open spec fn opt_level_text(o: CraneliftOptLevel) -> Seq<char> {
    match o {
        CraneliftOptLevel::NoOpt => "none"@,
        CraneliftOptLevel::Speed => "speed"@,
        CraneliftOptLevel::SpeedAndSize => "speed_and_size"@,
    }
}

impl SharedSetting {
    pub open spec fn name_spec(self) -> Seq<char> {
        match self {
            SharedSetting::AvoidDivTraps => "avoid_div_traps"@,
            SharedSetting::IsPic(_) => "is_pic"@,
            SharedSetting::EnableVerifier(_) => "enable_verifier"@,
            SharedSetting::EnableSafepoints => "enable_safepoints"@,
            SharedSetting::OptLevel(_) => "opt_level"@,
            SharedSetting::EnableSimd => "enable_simd"@,
            SharedSetting::EnableNanCanonicalization(_) => "enable_nan_canonicalization"@,
        }
    }

    /// The value the setting is given; `None` for a flag that is only enabled.
    pub open spec fn value_spec(self) -> Option<Seq<char>> {
        match self {
            SharedSetting::AvoidDivTraps => None,
            SharedSetting::IsPic(b) => Some(bool_text(b)),
            SharedSetting::EnableVerifier(b) => Some(bool_text(b)),
            SharedSetting::EnableSafepoints => Some("true"@),
            SharedSetting::OptLevel(o) => Some(opt_level_text(o)),
            SharedSetting::EnableSimd => Some("true"@),
            SharedSetting::EnableNanCanonicalization(b) => Some(bool_text(b)),
        }
    }

    /// The backend name of the setting.
    pub fn name(&self) -> (r: &'static str)
        ensures
            r@ == self.name_spec(),
    {
        match self {
            SharedSetting::AvoidDivTraps => "avoid_div_traps",
            SharedSetting::IsPic(_) => "is_pic",
            SharedSetting::EnableVerifier(_) => "enable_verifier",
            SharedSetting::EnableSafepoints => "enable_safepoints",
            SharedSetting::OptLevel(_) => "opt_level",
            SharedSetting::EnableSimd => "enable_simd",
            SharedSetting::EnableNanCanonicalization(_) => "enable_nan_canonicalization",
        }
    }

    /// The backend value of the setting; `None` where the flag is only enabled.
    pub fn value(&self) -> (r: Option<&'static str>)
        ensures
            r.is_some() == self.value_spec().is_some(),
            r.is_some() ==> r.unwrap()@ == self.value_spec().unwrap(),
    {
        match self {
            SharedSetting::AvoidDivTraps => None,
            SharedSetting::IsPic(b) => Some(bool_str(*b)),
            SharedSetting::EnableVerifier(b) => Some(bool_str(*b)),
            SharedSetting::EnableSafepoints => Some("true"),
            SharedSetting::OptLevel(o) => Some(match o {
                CraneliftOptLevel::NoOpt => "none",
                CraneliftOptLevel::Speed => "speed",
                CraneliftOptLevel::SpeedAndSize => "speed_and_size",
            }),
            SharedSetting::EnableSimd => Some("true"),
            SharedSetting::EnableNanCanonicalization(b) => Some(bool_str(*b)),
        }
    }
}

fn bool_str(b: bool) -> (r: &'static str)
    ensures
        r@ == bool_text(b),
{
    if b { "true" } else { "false" }
}

/// Why a backend configuration could not be produced.
#[derive(Clone, Copy, Debug, PartialEq, Eq, Structural)]
pub enum ConfigError {
    /// The backend has no ISA for the triple.
    UnsupportedTriple,
    /// The backend supports the triple, but it was disabled in this build.
    SupportDisabled,
    /// x86-64 code generation assumes SSE2.
    MissingSse2,
    /// The backend refused a shared setting.
    InvalidSetting(SharedSetting),
    /// The backend refused the ISA flag of a CPU feature.
    InvalidIsaFlag(CpuFeature),
}

impl ConfigError {
    /// A human-readable message for the error.
    pub fn message(&self) -> (r: &'static str)
        ensures
            r@ == match *self {
                ConfigError::UnsupportedTriple => "construct Cranelift ISA for triple"@,
                ConfigError::SupportDisabled => "construct Cranelift ISA for triple"@,
                ConfigError::MissingSse2 => "x86 support requires SSE2"@,
                ConfigError::InvalidSetting(_) => "should be valid flag"@,
                ConfigError::InvalidIsaFlag(_) => "should be valid flag"@,
            },
    {
        match self {
            ConfigError::UnsupportedTriple => "construct Cranelift ISA for triple",
            ConfigError::SupportDisabled => "construct Cranelift ISA for triple",
            ConfigError::MissingSse2 => "x86 support requires SSE2",
            ConfigError::InvalidSetting(_) => "should be valid flag",
            ConfigError::InvalidIsaFlag(_) => "should be valid flag",
        }
    }
}

/// What a shared settings builder holds: each setting's name mapped to the
/// text of its current value.
pub uninterp spec fn shared_values(b: cranelift_codegen::settings::Builder) -> Map<
    Seq<char>,
    Seq<char>,
>;

/// Whether a settings builder was made from the backend's shared settings
/// table (as `settings::builder` makes it), rather than from another table.
pub uninterp spec fn is_shared_builder(b: cranelift_codegen::settings::Builder) -> bool;

/// What a frozen flag bundle holds: each setting's name mapped to the text
/// of its value.
pub uninterp spec fn flag_values(f: cranelift_codegen::settings::Flags) -> Map<
    Seq<char>,
    Seq<char>,
>;

/// What an ISA builder holds: each ISA setting's name mapped to the text of
/// its current value.
pub uninterp spec fn isa_values(b: cranelift_codegen::isa::Builder) -> Map<Seq<char>, Seq<char>>;

/// The architecture family an ISA builder was looked up for.
pub uninterp spec fn isa_arch(b: cranelift_codegen::isa::Builder) -> Arch;

/// The boolean settings of the shared template that this library sets.
pub open spec fn shared_bool_setting(name: Seq<char>) -> bool {
    name == "avoid_div_traps"@ || name == "is_pic"@ || name == "enable_verifier"@ || name
        == "enable_safepoints"@ || name == "enable_simd"@ || name == "enable_nan_canonicalization"@
}

/// A name and value that the shared template accepts.
pub open spec fn shared_accepts(name: Seq<char>, value: Seq<char>) -> bool {
    ||| shared_bool_setting(name) && (value == "true"@ || value == "false"@)
    ||| name == "opt_level"@ && (value == "none"@ || value == "speed"@ || value
        == "speed_and_size"@)
}

/// The ISA flags of the x86 template that this library enables.
pub open spec fn x86_flag(name: Seq<char>) -> bool {
    exists|f: CpuFeature| isa_flag_spec(f) == Some(name)
}

/// Relies on cranelift_codegen::settings::builder: a fresh builder made from
/// the shared settings table.
#[verifier::external_body]
fn new_shared_builder() -> (r: cranelift_codegen::settings::Builder)
    ensures
        is_shared_builder(r),
{
    cranelift_codegen::settings::builder()
}

/// Relies on Configurable::set of a builder made from the shared settings
/// table (settings::builder keeps that table): the table defines the boolean settings and `opt_level` with its three
/// values, and `set` stores an accepted value; true iff it was accepted.
#[verifier::external_body]
fn set_shared(b: &mut cranelift_codegen::settings::Builder, name: &str, value: &str) -> (r: bool)
    requires
        is_shared_builder(*old(b)),
    ensures
        is_shared_builder(*final(b)),
        shared_accepts(name@, value@) ==> r && shared_values(*final(b)) == shared_values(
            *old(b),
        ).insert(name@, value@),
{
    cranelift_codegen::settings::Configurable::set(b, name, value).is_ok()
}

/// Relies on Configurable::enable of a builder made from the shared settings
/// table: a boolean setting of the table is switched on; true iff it was accepted.
#[verifier::external_body]
fn enable_shared(b: &mut cranelift_codegen::settings::Builder, name: &str) -> (r: bool)
    requires
        is_shared_builder(*old(b)),
    ensures
        is_shared_builder(*final(b)),
        shared_bool_setting(name@) ==> r && shared_values(*final(b)) == shared_values(
            *old(b),
        ).insert(name@, "true"@),
{
    cranelift_codegen::settings::Configurable::enable(b, name).is_ok()
}

/// Relies on settings::Flags::new, which accepts only a builder made from the
/// shared settings table: freezes the builder's values into a flag bundle.
#[verifier::external_body]
fn freeze_flags(b: cranelift_codegen::settings::Builder) -> (r: cranelift_codegen::settings::Flags)
    requires
        is_shared_builder(b),
    ensures
        flag_values(r) == shared_values(b),
{
    cranelift_codegen::settings::Flags::new(b)
}

/// Why the backend has no ISA for an architecture family.
pub open spec fn lookup_error(a: Arch) -> ConfigError {
    match a {
        Arch::Arm | Arch::Riscv | Arch::S390x => ConfigError::SupportDisabled,
        _ => ConfigError::UnsupportedTriple,
    }
}

/// Relies on cranelift_codegen::isa::lookup, built with the `x86` and `arm64`
/// backends: x86-64 and little-endian aarch64 get a builder, the other ARM,
/// RISC-V and s390x families are disabled in this build, the rest are
/// unsupported. Other aarch64 flavours are left out: the aarch64 backend
/// asserts it is given plain aarch64.
#[verifier::external_body]
fn lookup_isa(target: &Target) -> (r: Result<cranelift_codegen::isa::Builder, ConfigError>)
    requires
        target.arch_spec() != Arch::Aarch64Other,
    ensures
        r is Ok <==> (target.arch_spec() == Arch::X86_64 || target.arch_spec() == Arch::Aarch64),
        r matches Ok(b) ==> isa_arch(b) == target.arch_spec(),
        r matches Err(e) ==> e == lookup_error(target.arch_spec()),
{
    match cranelift_codegen::isa::lookup(target.triple.clone()) {
        Ok(b) => Ok(b),
        Err(cranelift_codegen::isa::LookupError::SupportDisabled) => Err(
            ConfigError::SupportDisabled,
        ),
        Err(cranelift_codegen::isa::LookupError::Unsupported) => Err(ConfigError::UnsupportedTriple),
    }
}

/// Relies on Configurable::enable of the ISA builder: the x86 template
/// defines the `has_*` flags this library enables; true iff it was accepted.
#[verifier::external_body]
fn enable_isa(b: &mut cranelift_codegen::isa::Builder, name: &str) -> (r: bool)
    ensures
        isa_arch(*final(b)) == isa_arch(*old(b)),
        isa_arch(*old(b)) == Arch::X86_64 && x86_flag(name@) ==> r,
        x86_flag(name@) && r ==> isa_values(*final(b)) == isa_values(*old(b)).insert(
            name@,
            "true"@,
        ),
{
    cranelift_codegen::settings::Configurable::enable(b, name).is_ok()
}

/// The CPU features that have an ISA flag, in the order they are applied.
pub open spec fn flagged_features() -> Seq<CpuFeature> {
    seq![
        CpuFeature::SSE3,
        CpuFeature::SSSE3,
        CpuFeature::SSE41,
        CpuFeature::SSE42,
        CpuFeature::POPCNT,
        CpuFeature::AVX,
        CpuFeature::BMI1,
        CpuFeature::BMI2,
        CpuFeature::AVX2,
        CpuFeature::AVX512DQ,
        CpuFeature::AVX512VL,
        CpuFeature::LZCNT,
    ]
}

/// The backend ISA flag that a CPU feature switches on, if any.
pub open spec fn isa_flag_spec(f: CpuFeature) -> Option<Seq<char>> {
    match f {
        CpuFeature::SSE3 => Some("has_sse3"@),
        CpuFeature::SSSE3 => Some("has_ssse3"@),
        CpuFeature::SSE41 => Some("has_sse41"@),
        CpuFeature::SSE42 => Some("has_sse42"@),
        CpuFeature::POPCNT => Some("has_popcnt"@),
        CpuFeature::AVX => Some("has_avx"@),
        CpuFeature::BMI1 => Some("has_bmi1"@),
        CpuFeature::BMI2 => Some("has_bmi2"@),
        CpuFeature::AVX2 => Some("has_avx2"@),
        CpuFeature::AVX512DQ => Some("has_avx512dq"@),
        CpuFeature::AVX512VL => Some("has_avx512vl"@),
        CpuFeature::LZCNT => Some("has_lzcnt"@),
        _ => None,
    }
}

/// The backend ISA flag that a CPU feature switches on, if any.
pub fn isa_flag(f: CpuFeature) -> (r: Option<&'static str>)
    ensures
        r.is_some() == isa_flag_spec(f).is_some(),
        r.is_some() ==> r.unwrap()@ == isa_flag_spec(f).unwrap(),
{
    match f {
        CpuFeature::SSE3 => Some("has_sse3"),
        CpuFeature::SSSE3 => Some("has_ssse3"),
        CpuFeature::SSE41 => Some("has_sse41"),
        CpuFeature::SSE42 => Some("has_sse42"),
        CpuFeature::POPCNT => Some("has_popcnt"),
        CpuFeature::AVX => Some("has_avx"),
        CpuFeature::BMI1 => Some("has_bmi1"),
        CpuFeature::BMI2 => Some("has_bmi2"),
        CpuFeature::AVX2 => Some("has_avx2"),
        CpuFeature::AVX512DQ => Some("has_avx512dq"),
        CpuFeature::AVX512VL => Some("has_avx512vl"),
        CpuFeature::LZCNT => Some("has_lzcnt"),
        _ => None,
    }
}

/// The features among `flagged_features()[..n]` that `fs` holds, in that order.
pub open spec fn isa_features_upto(fs: Set<CpuFeature>, n: nat) -> Seq<CpuFeature>
    decreases n,
{
    if n == 0 {
        seq![]
    } else {
        let prev = isa_features_upto(fs, (n - 1) as nat);
        let f = flagged_features()[n - 1];
        if fs.contains(f) { prev.push(f) } else { prev }
    }
}

/// The CPU features of `fs` whose ISA flags are enabled, in the order applied.
pub open spec fn isa_features(fs: Set<CpuFeature>) -> Seq<CpuFeature> {
    isa_features_upto(fs, 12)
}

/// The shared settings of a configuration, in the order they are applied.
pub open spec fn shared_settings_spec(c: Cranelift) -> Seq<SharedSetting> {
    seq![
        SharedSetting::AvoidDivTraps,
        SharedSetting::IsPic(c.enable_pic),
        SharedSetting::EnableVerifier(c.enable_verifier),
        SharedSetting::EnableSafepoints,
        SharedSetting::OptLevel(c.opt_level),
        SharedSetting::EnableSimd,
        SharedSetting::EnableNanCanonicalization(c.enable_nan_canonicalization),
    ]
}

/// Every flagged feature that a target holds is among the features whose ISA
/// flag is enabled.
pub proof fn lemma_present_feature_is_flagged(fs: Set<CpuFeature>, f: CpuFeature)
    requires
        flagged_features().contains(f),
        fs.contains(f),
    ensures
        isa_features(fs).contains(f),
{
    let k = choose|k: int| 0 <= k < 12 && flagged_features()[k] == f;
    lemma_upto_contains(fs, 12, k);
}

proof fn lemma_upto_contains(fs: Set<CpuFeature>, n: nat, k: int)
    requires
        0 <= k < n <= 12,
        fs.contains(flagged_features()[k]),
    ensures
        isa_features_upto(fs, n).contains(flagged_features()[k]),
    decreases n,
{
    let f = flagged_features()[k];
    let prev = isa_features_upto(fs, (n - 1) as nat);
    if k == n - 1 {
        assert(isa_features_upto(fs, n) == prev.push(f));
        assert(isa_features_upto(fs, n)[prev.len() as int] == f);
    } else {
        lemma_upto_contains(fs, (n - 1) as nat, k);
        let i = choose|i: int| 0 <= i < prev.len() && prev[i] == f;
        let g = flagged_features()[n - 1];
        if fs.contains(g) {
            assert(isa_features_upto(fs, n)[i] == f);
        }
    }
}

/// Only features that the target holds, and that have an ISA flag, are flagged.
pub proof fn lemma_flagged_feature_is_present(fs: Set<CpuFeature>, f: CpuFeature)
    requires
        isa_features(fs).contains(f),
    ensures
        fs.contains(f),
        flagged_features().contains(f),
        isa_flag_spec(f).is_some(),
{
    lemma_upto_sound(fs, 12);
}

proof fn lemma_upto_sound(fs: Set<CpuFeature>, n: nat)
    requires
        n <= 12,
    ensures
        forall|i: int|
            0 <= i < isa_features_upto(fs, n).len() ==> {
                let f = #[trigger] isa_features_upto(fs, n)[i];
                fs.contains(f) && flagged_features().contains(f) && isa_flag_spec(f).is_some()
            },
    decreases n,
{
    if n > 0 {
        lemma_upto_sound(fs, (n - 1) as nat);
        let g = flagged_features()[n - 1];
        assert(flagged_features().contains(g));
    }
}

/// Whatever the configuration, the shared flags avoid division traps and
/// enable safepoints and SIMD; position-independent code is set exactly as
/// requested.
pub proof fn lemma_shared_settings_always_set(c: Cranelift)
    ensures
        shared_settings_spec(c).contains(SharedSetting::AvoidDivTraps),
        shared_settings_spec(c).contains(SharedSetting::EnableSafepoints),
        shared_settings_spec(c).contains(SharedSetting::EnableSimd),
        shared_settings_spec(c).contains(SharedSetting::EnableVerifier(c.enable_verifier)),
        shared_settings_spec(c).contains(
            SharedSetting::EnableNanCanonicalization(c.enable_nan_canonicalization),
        ),
        shared_settings_spec(c).contains(SharedSetting::OptLevel(c.opt_level)),
        shared_settings_spec(c).contains(SharedSetting::IsPic(c.enable_pic)),
{
    let s = shared_settings_spec(c);
    let k: int = 1;
    assert(s[0] == SharedSetting::AvoidDivTraps);
    assert(s[1] == SharedSetting::IsPic(c.enable_pic));
    assert(s[k + 1] == SharedSetting::EnableVerifier(c.enable_verifier));
    assert(s[k + 2] == SharedSetting::EnableSafepoints);
    assert(s[k + 3] == SharedSetting::OptLevel(c.opt_level));
    assert(s[k + 4] == SharedSetting::EnableSimd);
    assert(s[k + 5] == SharedSetting::EnableNanCanonicalization(c.enable_nan_canonicalization));
}

/// The text a setting stores: its value, or `true` for a flag that is only enabled.
pub open spec fn setting_text(s: SharedSetting) -> Seq<char> {
    match s.value_spec() {
        Some(v) => v,
        None => "true"@,
    }
}

/// Every setting of `plan` holds its text in `values`.
pub open spec fn holds_settings(values: Map<Seq<char>, Seq<char>>, plan: Seq<SharedSetting>) -> bool {
    forall|k: int|
        0 <= k < plan.len() ==> values.contains_key(#[trigger] plan[k].name_spec())
            && values[plan[k].name_spec()] == setting_text(plan[k])
}

/// Position of a setting's kind in the order the bundle applies them.
pub open spec fn setting_kind(s: SharedSetting) -> int {
    match s {
        SharedSetting::AvoidDivTraps => 0,
        SharedSetting::IsPic(_) => 1,
        SharedSetting::EnableVerifier(_) => 2,
        SharedSetting::EnableSafepoints => 3,
        SharedSetting::OptLevel(_) => 4,
        SharedSetting::EnableSimd => 5,
        SharedSetting::EnableNanCanonicalization(_) => 6,
    }
}

proof fn lemma_setting_accepted(s: SharedSetting)
    ensures
        s.value_spec() matches Some(v) ==> shared_accepts(s.name_spec(), v),
        s.value_spec() is None ==> shared_bool_setting(s.name_spec()),
{
}

proof fn lemma_setting_name_injective(a: SharedSetting, b: SharedSetting)
    requires
        setting_kind(a) != setting_kind(b),
    ensures
        a.name_spec() != b.name_spec(),
{
    reveal_strlit("avoid_div_traps");
    reveal_strlit("is_pic");
    reveal_strlit("enable_verifier");
    reveal_strlit("enable_safepoints");
    reveal_strlit("opt_level");
    reveal_strlit("enable_simd");
    reveal_strlit("enable_nan_canonicalization");
    if a.name_spec() == b.name_spec() {
        assert(a.name_spec().len() == b.name_spec().len());
        assert(a.name_spec()[0] == b.name_spec()[0]);
        assert(a.name_spec()[1] == b.name_spec()[1]);
        assert(a.name_spec()[7] == b.name_spec()[7]);
    }
}

proof fn lemma_setting_names_distinct(c: Cranelift)
    ensures
        forall|j: int, k: int|
            0 <= j < shared_settings_spec(c).len() && 0 <= k < shared_settings_spec(c).len() && j
                != k ==> (#[trigger] shared_settings_spec(c)[j]).name_spec() != (
            #[trigger] shared_settings_spec(c)[k]).name_spec(),
{
    let p = shared_settings_spec(c);
    assert forall|j: int, k: int| 0 <= j < p.len() && 0 <= k < p.len() && j != k implies (
    #[trigger] p[j]).name_spec() != (#[trigger] p[k]).name_spec() by {
        assert(setting_kind(p[j]) == j);
        assert(setting_kind(p[k]) == k);
        lemma_setting_name_injective(p[j], p[k]);
    }
}

/// The ISA flag of every feature of `fs` is switched on in `values`.
pub open spec fn flags_enabled(values: Map<Seq<char>, Seq<char>>, fs: Seq<CpuFeature>) -> bool {
    forall|k: int|
        0 <= k < fs.len() ==> values.contains_key(#[trigger] isa_flag_spec(fs[k]).unwrap())
            && values[isa_flag_spec(fs[k]).unwrap()] == "true"@
}

/// Configuration of the code generator, with a builder-like interface.
#[derive(Clone, Copy, Debug)]
pub struct Cranelift {
    pub enable_nan_canonicalization: bool,
    pub enable_verifier: bool,
    pub enable_pic: bool,
    pub opt_level: CraneliftOptLevel,
}

impl Default for Cranelift {
    fn default() -> (r: Self)
        ensures
            !r.enable_nan_canonicalization,
            !r.enable_verifier,
            !r.enable_pic,
            r.opt_level == CraneliftOptLevel::Speed,
    {
        Cranelift::new()
    }
}

/// A backend ISA builder with the target's flags applied, together with the
/// shared flags it is to be finished with.
pub struct IsaSetup {
    pub builder: cranelift_codegen::isa::Builder,
    pub flags: cranelift_codegen::settings::Flags,
}

impl Cranelift {
    /// The default configuration: no NaN canonicalization, no verifier, no
    /// PIC, optimized for speed.
    pub fn new() -> (r: Self)
        ensures
            !r.enable_nan_canonicalization,
            !r.enable_verifier,
            !r.enable_pic,
            r.opt_level == CraneliftOptLevel::Speed,
    {
        Cranelift {
            enable_nan_canonicalization: false,
            enable_verifier: false,
            opt_level: CraneliftOptLevel::Speed,
            enable_pic: false,
        }
    }

    /// Enable or disable NaN canonicalization.
    pub fn canonicalize_nans(&mut self, enable: bool) -> (r: &mut Self)
        ensures
            *r == (Cranelift { enable_nan_canonicalization: enable, ..*old(self) }),
            *final(self) == *final(r),
    {
        self.enable_nan_canonicalization = enable;
        self
    }

    /// Set the optimization level.
    pub fn opt_level(&mut self, opt_level: CraneliftOptLevel) -> (r: &mut Self)
        ensures
            *r == (Cranelift { opt_level: opt_level, ..*old(self) }),
            *final(self) == *final(r),
    {
        self.opt_level = opt_level;
        self
    }

    /// Request position-independent code.
    pub fn enable_pic(&mut self)
        ensures
            *final(self) == (Cranelift { enable_pic: true, ..*old(self) }),
    {
        self.enable_pic = true;
    }

    /// Turn the backend's IR verifier on.
    pub fn enable_verifier(&mut self)
        ensures
            *final(self) == (Cranelift { enable_verifier: true, ..*old(self) }),
    {
        self.enable_verifier = true;
    }

    /// The shared settings this configuration asks of the backend, in order.
    pub fn shared_settings(&self) -> (r: Vec<SharedSetting>)
        ensures
            r@ == shared_settings_spec(*self),
    {
        let mut v: Vec<SharedSetting> = Vec::new();
        v.push(SharedSetting::AvoidDivTraps);
        v.push(SharedSetting::IsPic(self.enable_pic));
        v.push(SharedSetting::EnableVerifier(self.enable_verifier));
        v.push(SharedSetting::EnableSafepoints);
        v.push(SharedSetting::OptLevel(self.opt_level));
        v.push(SharedSetting::EnableSimd);
        v.push(SharedSetting::EnableNanCanonicalization(self.enable_nan_canonicalization));
        assert(v@ =~= shared_settings_spec(*self));
        v
    }

    /// The shared flag bundle of this configuration: every setting of
    /// `shared_settings_spec` holds its value in it.
    pub fn flags(&self) -> (r: Result<cranelift_codegen::settings::Flags, ConfigError>)
        ensures
            r is Ok,
            r matches Ok(f) ==> holds_settings(flag_values(f), shared_settings_spec(*self)),
            r matches Ok(f) ==> flag_values(f).contains_key("is_pic"@) && flag_values(f)["is_pic"@]
                == bool_text(self.enable_pic),
    {
        let settings = self.shared_settings();
        let mut b = new_shared_builder();
        let mut i: usize = 0;
        proof {
            lemma_setting_names_distinct(*self);
        }
        while i < settings.len()
            invariant
                i <= settings@.len(),
                settings@ == shared_settings_spec(*self),
                forall|j: int, k: int|
                    0 <= j < settings@.len() && 0 <= k < settings@.len() && j != k ==> (
                    #[trigger] settings@[j]).name_spec() != (#[trigger] settings@[k]).name_spec(),
                holds_settings(shared_values(b), settings@.take(i as int)),
                is_shared_builder(b),
            decreases settings@.len() - i,
        {
            let s = settings[i];
            proof {
                lemma_setting_accepted(s);
            }
            let ghost before = shared_values(b);
            let ok = match s.value() {
                Some(v) => set_shared(&mut b, s.name(), v),
                None => enable_shared(&mut b, s.name()),
            };
            if !ok {
                return Err(ConfigError::InvalidSetting(s));
            }
            proof {
                assert(shared_values(b) == before.insert(s.name_spec(), setting_text(s)));
                let t = settings@.take(i as int + 1);
                assert forall|k: int| 0 <= k < t.len() implies shared_values(b).contains_key(
                    #[trigger] t[k].name_spec(),
                ) && shared_values(b)[t[k].name_spec()] == setting_text(t[k]) by {
                    if k < i {
                        assert(t[k] == settings@.take(i as int)[k]);
                        assert(t[k].name_spec() != s.name_spec());
                    }
                }
            }
            i += 1;
        }
        assert(settings@.take(settings@.len() as int) =~= settings@);
        assert(settings@[1] == SharedSetting::IsPic(self.enable_pic));
        Ok(freeze_flags(b))
    }

    /// The CPU features of `target` whose ISA flags are to be enabled, in order.
    pub fn isa_features(target: &Target) -> (r: Vec<CpuFeature>)
        ensures
            r@ == isa_features(target.features()),
    {
        let order: [CpuFeature; 12] = [
            CpuFeature::SSE3,
            CpuFeature::SSSE3,
            CpuFeature::SSE41,
            CpuFeature::SSE42,
            CpuFeature::POPCNT,
            CpuFeature::AVX,
            CpuFeature::BMI1,
            CpuFeature::BMI2,
            CpuFeature::AVX2,
            CpuFeature::AVX512DQ,
            CpuFeature::AVX512VL,
            CpuFeature::LZCNT,
        ];
        assert(order@ =~= flagged_features());
        let mut v: Vec<CpuFeature> = Vec::new();
        let mut i: usize = 0;
        while i < 12
            invariant
                i <= 12,
                order@ == flagged_features(),
                v@ == isa_features_upto(target.features(), i as nat),
            decreases 12 - i,
        {
            let f = order[i];
            if target.has_feature(f) {
                v.push(f);
            }
            i += 1;
        }
        v
    }

    /// The ISA builder for `target` with the ISA flag of each of its CPU
    /// features enabled, and the shared flags to finish it with.
    pub fn isa(&self, target: &Target) -> (r: Result<IsaSetup, ConfigError>)
        ensures
            (target.arch_spec() == Arch::X86_64 && !target.features().contains(CpuFeature::SSE2))
                <==> r == Err::<IsaSetup, ConfigError>(ConfigError::MissingSse2),
            r is Ok ==> (target.arch_spec() == Arch::X86_64 ==> target.features().contains(
                CpuFeature::SSE2,
            )),
            target.arch_spec() == Arch::X86_64 && target.features().contains(CpuFeature::SSE2)
                ==> r is Ok,
            target.arch_spec() == Arch::Aarch64 && isa_features(target.features()).len() == 0
                ==> r is Ok,
            (target.arch_spec() == Arch::Arm || target.arch_spec() == Arch::Riscv
                || target.arch_spec() == Arch::S390x) ==> r == Err::<IsaSetup, ConfigError>(
                ConfigError::SupportDisabled,
            ),
            (target.arch_spec() == Arch::Other || target.arch_spec() == Arch::Aarch64Other) ==> r
                == Err::<IsaSetup, ConfigError>(ConfigError::UnsupportedTriple),
            r matches Ok(s) ==> isa_arch(s.builder) == target.arch_spec() && flags_enabled(
                isa_values(s.builder),
                isa_features(target.features()),
            ) && holds_settings(flag_values(s.flags), shared_settings_spec(*self)),
            r matches Err(ConfigError::InvalidIsaFlag(f)) ==> isa_features(
                target.features(),
            ).contains(f),
            !(r matches Err(ConfigError::InvalidSetting(_))),
    {
        let arch = target.arch();
        if arch == Arch::X86_64 && !target.has_feature(CpuFeature::SSE2) {
            return Err(ConfigError::MissingSse2);
        }
        if arch == Arch::Aarch64Other {
            return Err(ConfigError::UnsupportedTriple);
        }
        let mut builder = match lookup_isa(target) {
            Ok(b) => b,
            Err(e) => {
                return Err(e);
            },
        };
        let features = Self::isa_features(target);
        let mut i: usize = 0;
        while i < features.len()
            invariant
                i <= features@.len(),
                features@ == isa_features(target.features()),
                !(target.arch_spec() == Arch::X86_64 && !target.features().contains(
                    CpuFeature::SSE2,
                )),
                isa_arch(builder) == target.arch_spec(),
                target.arch_spec() == Arch::X86_64 || target.arch_spec() == Arch::Aarch64,
                flags_enabled(isa_values(builder), features@.take(i as int)),
            decreases features@.len() - i,
        {
            let f = features[i];
            proof {
                assert(features@.contains(f));
                lemma_flagged_feature_is_present(target.features(), f);
            }
            match isa_flag(f) {
                Some(name) => {
                    let ghost before = isa_values(builder);
                    proof {
                        assert(x86_flag(name@));
                    }
                    if !enable_isa(&mut builder, name) {
                        return Err(ConfigError::InvalidIsaFlag(f));
                    }
                    proof {
                        let t = features@.take(i as int + 1);
                        assert forall|k: int| 0 <= k < t.len() implies isa_values(
                            builder,
                        ).contains_key(#[trigger] isa_flag_spec(t[k]).unwrap())
                            && isa_values(builder)[isa_flag_spec(t[k]).unwrap()] == "true"@ by {
                            if k < i {
                                assert(t[k] == features@.take(i as int)[k]);
                            }
                        }
                    }
                },
                None => {},
            }
            i += 1;
        }
        assert(features@.take(features@.len() as int) =~= features@);
        let flags = match self.flags() {
            Ok(flags) => flags,
            Err(e) => {
                return Err(e);
            },
        };
        Ok(IsaSetup { builder, flags })
    }
}

} // verus!
