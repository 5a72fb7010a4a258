use vectordb::{
    contiguous_layout, dot_i8_sum, first_ragged_target, resolve_path, score_formula,
    squared_l2_i8_sum, Arch, ElementKind, Error, FeatureSet, ImplementedPaths, KernelPath,
    LayoutProblem, MetricType, ScoreFormula, MAX_I8_DIMENSION,
};

fn full_features() -> FeatureSet {
    FeatureSet {
        avx2: true,
        fma: true,
        f16c: true,
        avx512f: true,
        avx512bw: true,
        avx512vnni: true,
        neon: true,
    }
}

fn full_paths() -> ImplementedPaths {
    ImplementedPaths {
        scalar: true,
        avx2: true,
        avx512: true,
        neon: true,
    }
}

fn scalar_only() -> ImplementedPaths {
    ImplementedPaths {
        scalar: true,
        avx2: false,
        avx512: false,
        neon: false,
    }
}

// Owned results keep the resolver assertions direct and readable.
#[allow(clippy::needless_pass_by_value)]
fn assert_unsupported(result: vectordb::Result<KernelPath>) {
    assert!(matches!(result, Err(Error::Unsupported { .. })));
}

#[test]
fn full_features_auto_select_the_best_path_for_every_element() {
    let features = full_features();
    let implemented = full_paths();

    for element in [ElementKind::F32, ElementKind::F16, ElementKind::I8] {
        assert_eq!(
            resolve_path(Arch::X86_64, &features, &implemented, element, MetricType::InnerProduct, None).unwrap(),
            KernelPath::Avx512
        );
        assert_eq!(
            resolve_path(Arch::Aarch64, &features, &implemented, element, MetricType::InnerProduct, None).unwrap(),
            KernelPath::Neon
        );
    }
}

#[test]
fn avx2_without_fma_is_only_supported_for_i8() {
    let features = FeatureSet {
        avx2: true,
        f16c: true,
        ..FeatureSet::default()
    };
    let implemented = full_paths();

    for element in [ElementKind::F32, ElementKind::F16] {
        assert_unsupported(resolve_path(
            Arch::X86_64,
            &features,
            &implemented,
            element,
            MetricType::InnerProduct,
            Some(KernelPath::Avx2),
        ));
    }
    assert_eq!(
        resolve_path(
            Arch::X86_64,
            &features,
            &implemented,
            ElementKind::I8,
            MetricType::InnerProduct,
            Some(KernelPath::Avx2),
        )
        .unwrap(),
        KernelPath::Avx2
    );
}

#[test]
fn avx2_without_f16c_is_unsupported_for_f16() {
    let features = FeatureSet {
        avx2: true,
        fma: true,
        ..FeatureSet::default()
    };
    let implemented = full_paths();

    assert_eq!(
        resolve_path(
            Arch::X86_64,
            &features,
            &implemented,
            ElementKind::F32,
            MetricType::InnerProduct,
            Some(KernelPath::Avx2),
        )
        .unwrap(),
        KernelPath::Avx2
    );
    assert_unsupported(resolve_path(
        Arch::X86_64,
        &features,
        &implemented,
        ElementKind::F16,
        MetricType::InnerProduct,
        Some(KernelPath::Avx2),
    ));
    assert_eq!(
        resolve_path(
            Arch::X86_64,
            &features,
            &implemented,
            ElementKind::I8,
            MetricType::InnerProduct,
            Some(KernelPath::Avx2),
        )
        .unwrap(),
        KernelPath::Avx2
    );
}

#[test]
fn avx512_missing_element_features_falls_back_or_is_unsupported() {
    let without_f16c = FeatureSet {
        f16c: false,
        ..full_features()
    };
    let without_bw = FeatureSet {
        avx512bw: false,
        ..full_features()
    };
    let without_vnni = FeatureSet {
        avx512vnni: false,
        ..full_features()
    };
    let implemented = full_paths();

    assert_eq!(
        resolve_path(
            Arch::X86_64,
            &without_f16c,
            &implemented,
            ElementKind::F32,
            MetricType::InnerProduct,
            Some(KernelPath::Avx512),
        )
        .unwrap(),
        KernelPath::Avx512
    );
    assert_unsupported(resolve_path(
        Arch::X86_64,
        &without_f16c,
        &implemented,
        ElementKind::F16,
        MetricType::InnerProduct,
        Some(KernelPath::Avx512),
    ));
    for features in [&without_bw, &without_vnni] {
        assert_unsupported(resolve_path(
            Arch::X86_64,
            features,
            &implemented,
            ElementKind::I8,
            MetricType::InnerProduct,
            Some(KernelPath::Avx512),
        ));
    }
    assert_eq!(
        resolve_path(
            Arch::X86_64,
            &without_vnni,
            &implemented,
            ElementKind::I8,
            MetricType::InnerProduct,
            None,
        )
        .unwrap(),
        KernelPath::Avx2
    );
}

#[test]
fn empty_features_fall_back_to_scalar_for_every_element() {
    let features = FeatureSet::default();
    let implemented = full_paths();

    for arch in [Arch::X86_64, Arch::Aarch64] {
        for element in [ElementKind::F32, ElementKind::F16, ElementKind::I8] {
            assert_eq!(
                resolve_path(arch, &features, &implemented, element, MetricType::InnerProduct, None).unwrap(),
                KernelPath::Scalar
            );
        }
    }
}

#[test]
fn supported_but_unimplemented_paths_fall_back_or_are_unsupported() {
    let features = full_features();
    let implemented = scalar_only();

    for arch in [Arch::X86_64, Arch::Aarch64] {
        for element in [ElementKind::F32, ElementKind::F16, ElementKind::I8] {
            assert_eq!(
                resolve_path(arch, &features, &implemented, element, MetricType::InnerProduct, None).unwrap(),
                KernelPath::Scalar
            );
            for path in [KernelPath::Avx2, KernelPath::Avx512, KernelPath::Neon] {
                assert_unsupported(resolve_path(
                    arch,
                    &features,
                    &implemented,
                    element,
                    MetricType::InnerProduct,
                    Some(path),
                ));
            }
        }
    }
}

#[test]
fn foreign_architecture_requests_are_unsupported_for_every_element() {
    let features = full_features();
    let implemented = full_paths();

    for element in [ElementKind::F32, ElementKind::F16, ElementKind::I8] {
        assert_unsupported(resolve_path(
            Arch::X86_64,
            &features,
            &implemented,
            element,
            MetricType::InnerProduct,
            Some(KernelPath::Neon),
        ));
        for path in [KernelPath::Avx2, KernelPath::Avx512] {
            assert_unsupported(resolve_path(
                Arch::Aarch64,
                &features,
                &implemented,
                element,
                MetricType::InnerProduct,
                Some(path),
            ));
        }
    }
}

#[test]
fn neg_dot_i8_is_exact_at_extremes() {
    // 4 · (−128 · 127) = −65_024 → negated = 65_024
    assert_eq!(-(dot_i8_sum(&[i8::MIN; 4], &[i8::MAX; 4]) as f32), 65024.0);
}

#[test]
fn squared_l2_i8_widens_before_squaring() {
    // (−128 − 127)² = 65_025; must not wrap in i8/i16.
    assert_eq!(squared_l2_i8_sum(&[i8::MIN], &[i8::MAX]) as f32, 65025.0);
}

#[test]
fn neg_dot_i8_cancellation_yields_negative_zero() {
    assert_eq!(
        (-(dot_i8_sum(&[1, 1], &[1, -1]) as f32)).to_bits(),
        (-0.0f32).to_bits()
    );
}

#[test]
fn i8_sums_are_exact_at_the_max_dimension() {
    let ones = vec![1i8; MAX_I8_DIMENSION];
    assert_eq!(squared_l2_i8_sum(&ones, &ones), 0);
    let lows = vec![i8::MIN; MAX_I8_DIMENSION];
    let highs = vec![i8::MAX; MAX_I8_DIMENSION];
    assert_eq!(squared_l2_i8_sum(&lows, &highs), 32_768 * 65_025);
    assert_eq!(dot_i8_sum(&lows, &lows), 32_768 * 16_384);
    assert_eq!(dot_i8_sum(&lows, &highs), -32_768 * 16_256);
}

#[test]
fn i8_sums_of_empty_vectors_are_zero() {
    assert_eq!(squared_l2_i8_sum(&[], &[]), 0);
    assert_eq!(dot_i8_sum(&[], &[]), 0);
}

#[test]
fn i8_sums_match_hand_computed_values() {
    // (1-4)² + (2-6)² + (3-8)² = 50 and 1·4 + 2·6 + 3·8 = 40
    assert_eq!(squared_l2_i8_sum(&[1, 2, 3], &[4, 6, 8]), 50);
    assert_eq!(dot_i8_sum(&[1, 2, 3], &[4, 6, 8]), 40);
    assert_eq!(dot_i8_sum(&[1, -2, 3], &[-4, 5, 6]), 4);
}

#[test]
fn cosine_and_inner_product_share_the_negated_dot_formula() {
    assert_eq!(score_formula(MetricType::L2), ScoreFormula::SquaredL2);
    assert_eq!(score_formula(MetricType::InnerProduct), ScoreFormula::NegatedDot);
    assert_eq!(score_formula(MetricType::Cosine), ScoreFormula::NegatedDot);
}

#[test]
fn unsupported_paths_name_path_element_and_architecture() {
    let error = resolve_path(
        Arch::X86_64,
        &FeatureSet::default(),
        &ImplementedPaths::scalar_only(),
        ElementKind::F16,
        MetricType::InnerProduct,
        Some(KernelPath::Neon),
    )
    .unwrap_err();
    assert_eq!(error.message(), Some("Neon is unavailable for F16 on X86_64"));

    let none = ImplementedPaths {
        scalar: false,
        avx2: false,
        avx512: false,
        neon: false,
    };
    let error = resolve_path(
        Arch::Aarch64,
        &full_features(),
        &none,
        ElementKind::I8,
        MetricType::InnerProduct,
        None,
    )
    .unwrap_err();
    assert_eq!(
        error.message(),
        Some("no implemented score-kernel path is available")
    );
}

#[test]
fn scalar_only_tables_always_resolve_to_scalar() {
    for arch in [Arch::X86_64, Arch::Aarch64] {
        for element in [ElementKind::F32, ElementKind::F16, ElementKind::I8] {
            assert_eq!(
                resolve_path(
                    arch,
                    &full_features(),
                    &ImplementedPaths::scalar_only(),
                    element,
                    MetricType::InnerProduct,
                    None,
                )
                .unwrap(),
                KernelPath::Scalar
            );
            assert_eq!(
                resolve_path(
                    arch,
                    &full_features(),
                    &ImplementedPaths::scalar_only(),
                    element,
                    MetricType::InnerProduct,
                    Some(KernelPath::Scalar),
                )
                .unwrap(),
                KernelPath::Scalar
            );
        }
    }
}

#[test]
fn batch_targets_must_match_the_query_dimension() {
    assert_eq!(first_ragged_target(2, &[]), None);
    assert_eq!(first_ragged_target(2, &[2, 2, 2]), None);
    assert_eq!(first_ragged_target(2, &[2, 1, 3]), Some(1));
    assert_eq!(first_ragged_target(0, &[0, 0, 5]), Some(2));
}

#[test]
fn contiguous_layout_checks_empty_query_overflow_and_length_in_order() {
    assert_eq!(contiguous_layout(0, 0, 0), Err(LayoutProblem::EmptyQuery));
    assert_eq!(contiguous_layout(0, 7, usize::MAX), Err(LayoutProblem::EmptyQuery));
    assert_eq!(contiguous_layout(2, 0, usize::MAX), Err(LayoutProblem::LengthOverflow));
    assert_eq!(contiguous_layout(2, 5, 3), Err(LayoutProblem::LengthMismatch { expected: 6 }));
    assert_eq!(contiguous_layout(2, 6, 3), Ok(()));
    assert_eq!(contiguous_layout(3, 0, 0), Ok(()));
}

#[test]
fn i8_squared_l2_on_avx512_needs_bw_but_not_vnni() {
    let without_vnni = FeatureSet {
        avx512vnni: false,
        ..full_features()
    };
    let without_bw = FeatureSet {
        avx512bw: false,
        ..full_features()
    };
    let implemented = full_paths();

    assert_eq!(
        resolve_path(
            Arch::X86_64,
            &without_vnni,
            &implemented,
            ElementKind::I8,
            MetricType::L2,
            Some(KernelPath::Avx512),
        )
        .unwrap(),
        KernelPath::Avx512
    );
    assert_eq!(
        resolve_path(Arch::X86_64, &without_vnni, &implemented, ElementKind::I8, MetricType::L2, None)
            .unwrap(),
        KernelPath::Avx512
    );
    for metric in [MetricType::InnerProduct, MetricType::Cosine] {
        assert_unsupported(resolve_path(
            Arch::X86_64,
            &without_vnni,
            &implemented,
            ElementKind::I8,
            metric,
            Some(KernelPath::Avx512),
        ));
        assert_eq!(
            resolve_path(Arch::X86_64, &without_vnni, &implemented, ElementKind::I8, metric, None)
                .unwrap(),
            KernelPath::Avx2
        );
    }
    for metric in [MetricType::L2, MetricType::InnerProduct, MetricType::Cosine] {
        assert_unsupported(resolve_path(
            Arch::X86_64,
            &without_bw,
            &implemented,
            ElementKind::I8,
            metric,
            Some(KernelPath::Avx512),
        ));
    }
}
