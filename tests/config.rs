use std::str::FromStr;
use wasm_codegen::config::{
    isa_flag, Arch, ConfigError, CpuFeature, Cranelift, CraneliftOptLevel, SharedSetting, Target,
};
use wasmer_compiler::Triple;

fn target(triple: &str, cpu_features: Vec<CpuFeature>) -> Target {
    Target::new(Triple::from_str(triple).unwrap(), cpu_features)
}

fn all_features() -> Vec<CpuFeature> {
    vec![
        CpuFeature::SSE2,
        CpuFeature::SSE3,
        CpuFeature::SSSE3,
        CpuFeature::SSE41,
        CpuFeature::SSE42,
        CpuFeature::POPCNT,
        CpuFeature::AVX,
        CpuFeature::BMI1,
        CpuFeature::BMI2,
        CpuFeature::AVX2,
        CpuFeature::AVX512DQ,
        CpuFeature::AVX512VL,
        CpuFeature::AVX512F,
        CpuFeature::LZCNT,
    ]
}

#[test]
fn defaults_of_new() {
    let c = Cranelift::new();
    assert!(!c.enable_nan_canonicalization);
    assert!(!c.enable_verifier);
    assert!(!c.enable_pic);
    assert_eq!(c.opt_level, CraneliftOptLevel::Speed);
}

#[test]
fn builder_methods_set_fields() {
    let mut c = Cranelift::new();
    c.canonicalize_nans(true).opt_level(CraneliftOptLevel::SpeedAndSize);
    c.enable_pic();
    c.enable_verifier();
    assert!(c.enable_nan_canonicalization);
    assert!(c.enable_pic);
    assert!(c.enable_verifier);
    assert_eq!(c.opt_level, CraneliftOptLevel::SpeedAndSize);
}

#[test]
fn shared_settings_of_default_config() {
    let c = Cranelift::new();
    assert_eq!(
        c.shared_settings(),
        vec![
            SharedSetting::AvoidDivTraps,
            SharedSetting::IsPic(false),
            SharedSetting::EnableVerifier(false),
            SharedSetting::EnableSafepoints,
            SharedSetting::OptLevel(CraneliftOptLevel::Speed),
            SharedSetting::EnableSimd,
            SharedSetting::EnableNanCanonicalization(false),
        ]
    );
}

#[test]
fn shared_settings_with_pic() {
    let mut c = Cranelift::new();
    c.enable_pic();
    let s = c.shared_settings();
    assert_eq!(s[1], SharedSetting::IsPic(true));
    assert_eq!(s.len(), 7);
}

#[test]
fn setting_names_and_values() {
    assert_eq!(SharedSetting::AvoidDivTraps.name(), "avoid_div_traps");
    assert_eq!(SharedSetting::AvoidDivTraps.value(), None);
    assert_eq!(SharedSetting::IsPic(true).name(), "is_pic");
    assert_eq!(SharedSetting::IsPic(false).value(), Some("false"));
    assert_eq!(SharedSetting::EnableVerifier(true).value(), Some("true"));
    assert_eq!(SharedSetting::EnableVerifier(false).value(), Some("false"));
    assert_eq!(SharedSetting::OptLevel(CraneliftOptLevel::NoOpt).value(), Some("none"));
    assert_eq!(
        SharedSetting::OptLevel(CraneliftOptLevel::SpeedAndSize).value(),
        Some("speed_and_size")
    );
    assert_eq!(SharedSetting::EnableSimd.name(), "enable_simd");
    assert_eq!(
        SharedSetting::EnableNanCanonicalization(true).name(),
        "enable_nan_canonicalization"
    );
}

#[test]
fn flags_always_avoid_div_traps_and_enable_safepoints_and_simd() {
    let f = Cranelift::new().flags().unwrap();
    assert!(f.avoid_div_traps());
    assert!(f.enable_safepoints());
    assert!(f.enable_simd());
    assert!(!f.is_pic());
    assert!(!f.enable_verifier());
    assert!(!f.enable_nan_canonicalization());
    assert_eq!(f.opt_level(), cranelift_codegen::settings::OptLevel::Speed);
}

#[test]
fn flags_follow_configuration() {
    let mut c = Cranelift::new();
    c.canonicalize_nans(true).opt_level(CraneliftOptLevel::NoOpt);
    c.enable_pic();
    c.enable_verifier();
    let f = c.flags().unwrap();
    assert!(f.avoid_div_traps());
    assert!(f.enable_safepoints());
    assert!(f.enable_simd());
    assert!(f.is_pic());
    assert!(f.enable_verifier());
    assert!(f.enable_nan_canonicalization());
    assert_eq!(f.opt_level(), cranelift_codegen::settings::OptLevel::None);
}

#[test]
fn x86_without_sse2_is_refused() {
    let t = target("x86_64-unknown-linux-gnu", vec![CpuFeature::POPCNT]);
    match Cranelift::new().isa(&t) {
        Err(e) => {
            assert_eq!(e, ConfigError::MissingSse2);
            assert_eq!(e.message(), "x86 support requires SSE2");
        }
        Ok(_) => panic!("x86 without SSE2 must be refused"),
    }
}

#[test]
fn x86_with_sse2_is_accepted() {
    let t = target("x86_64-unknown-linux-gnu", vec![CpuFeature::SSE2, CpuFeature::SSE3, CpuFeature::POPCNT],
    );
    let setup = Cranelift::new().isa(&t).ok().unwrap();
    assert!(setup.flags.enable_simd());
    let isa = setup.builder.finish(setup.flags);
    assert_eq!(isa.pointer_bytes(), 8);
}

#[test]
fn other_arch_needs_no_sse2() {
    let t = target("aarch64-unknown-linux-gnu", vec![]);
    assert!(Cranelift::new().isa(&t).is_ok());
}

#[test]
fn every_present_feature_gets_its_flag() {
    let t = target("x86_64-unknown-linux-gnu", all_features());
    let fs = Cranelift::isa_features(&t);
    assert_eq!(
        fs,
        vec![
            CpuFeature::SSE3,
            CpuFeature::SSSE3,
            CpuFeature::SSE41,
            CpuFeature::SSE42,
            CpuFeature::POPCNT,
            CpuFeature::AVX,
            CpuFeature::BMI1,
            CpuFeature::BMI2,
            CpuFeature::AVX2,
            CpuFeature::AVX512DQ,
            CpuFeature::AVX512VL,
            CpuFeature::LZCNT,
        ]
    );
    assert!(Cranelift::new().isa(&t).is_ok());
}

#[test]
fn absent_features_get_no_flag() {
    let t = target("x86_64-unknown-linux-gnu", vec![CpuFeature::LZCNT, CpuFeature::SSE2, CpuFeature::AVX],
    );
    assert_eq!(Cranelift::isa_features(&t), vec![CpuFeature::AVX, CpuFeature::LZCNT]);
}

#[test]
fn isa_flag_names() {
    assert_eq!(isa_flag(CpuFeature::SSE41), Some("has_sse41"));
    assert_eq!(isa_flag(CpuFeature::AVX512VL), Some("has_avx512vl"));
    assert_eq!(isa_flag(CpuFeature::LZCNT), Some("has_lzcnt"));
    assert_eq!(isa_flag(CpuFeature::SSE2), None);
    assert_eq!(isa_flag(CpuFeature::AVX512F), None);
}

#[test]
fn has_feature_looks_through_the_list() {
    let t = target("x86_64-unknown-linux-gnu", vec![CpuFeature::SSE2, CpuFeature::AVX]);
    assert!(t.has_feature(CpuFeature::AVX));
    assert!(!t.has_feature(CpuFeature::AVX2));
}

#[test]
fn default_is_new() {
    let d = Cranelift::default();
    assert!(!d.enable_pic);
    assert!(!d.enable_verifier);
    assert!(!d.enable_nan_canonicalization);
    assert_eq!(d.opt_level, CraneliftOptLevel::Speed);
}

#[test]
fn architecture_is_read_off_the_triple() {
    assert_eq!(target("x86_64-unknown-linux-gnu", vec![]).arch(), Arch::X86_64);
    assert_eq!(target("aarch64-unknown-linux-gnu", vec![]).arch(), Arch::Aarch64);
    assert_eq!(target("aarch64_be-unknown-linux-gnu", vec![]).arch(), Arch::Aarch64Other);
    assert_eq!(target("riscv64gc-unknown-linux-gnu", vec![]).arch(), Arch::Riscv);
    assert_eq!(target("wasm32-unknown-unknown", vec![]).arch(), Arch::Other);
}

#[test]
fn unsupported_and_disabled_triples_are_refused() {
    let c = Cranelift::new();
    assert_eq!(
        c.isa(&target("aarch64_be-unknown-linux-gnu", vec![])).err(),
        Some(ConfigError::UnsupportedTriple)
    );
    assert_eq!(
        c.isa(&target("wasm32-unknown-unknown", vec![])).err(),
        Some(ConfigError::UnsupportedTriple)
    );
    assert_eq!(
        c.isa(&target("riscv64gc-unknown-linux-gnu", vec![])).err(),
        Some(ConfigError::SupportDisabled)
    );
    assert_eq!(
        c.isa(&target("s390x-unknown-linux-gnu", vec![])).err(),
        Some(ConfigError::SupportDisabled)
    );
}

#[test]
fn error_messages() {
    assert_eq!(ConfigError::UnsupportedTriple.message(), "construct Cranelift ISA for triple");
    assert_eq!(ConfigError::InvalidSetting(SharedSetting::EnableSimd).message(), "should be valid flag");
    assert_eq!(ConfigError::InvalidIsaFlag(CpuFeature::AVX).message(), "should be valid flag");
}

#[test]
fn isa_is_finished_with_the_configured_flags() {
    let mut c = Cranelift::new();
    c.enable_pic();
    let t = target("x86_64-unknown-linux-gnu", vec![CpuFeature::SSE2]);
    let setup = c.isa(&t).ok().unwrap();
    assert!(setup.flags.is_pic());
    assert!(setup.flags.avoid_div_traps());
    let isa = setup.builder.finish(setup.flags);
    assert!(isa.flags().is_pic());
    assert!(isa.flags().enable_safepoints());
}
