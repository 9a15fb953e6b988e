use camera_blur::factor::{FACTOR_MAX_BITS, FACTOR_MIN_BITS};
use camera_blur::range::{clamp, force_odd, legalize_kernel_size};
use camera_blur::{
    BlurSetting, BoxBlurSettings, DualBlurSettings, Factor, GaussianBlurSettings,
    KawaseBlurSettings, SamplingCost,
};

fn gaussian(kernel_size: u32, factor: f32) -> GaussianBlurSettings {
    GaussianBlurSettings {
        kernel_size,
        sampling_distance_factor: Factor::from_bits(factor.to_bits()),
    }
}

fn kawase(distances: &[u32]) -> KawaseBlurSettings {
    KawaseBlurSettings { sampling_distances: distances.to_vec() }
}

#[test]
fn clamp_keeps_values_in_range_and_moves_the_others_to_the_bounds() {
    assert_eq!(clamp(0, 1, 5), 1);
    assert_eq!(clamp(1, 1, 5), 1);
    assert_eq!(clamp(3, 1, 5), 3);
    assert_eq!(clamp(5, 1, 5), 5);
    assert_eq!(clamp(6, 1, 5), 5);
    assert_eq!(clamp(u32::MAX, 0, 9), 9);
    assert_eq!(clamp(7, 7, 7), 7);
}

#[test]
fn force_odd_moves_even_values_up_by_one() {
    assert_eq!(force_odd(0), 1);
    assert_eq!(force_odd(1), 1);
    assert_eq!(force_odd(2), 3);
    assert_eq!(force_odd(400), 401);
    assert_eq!(force_odd(u32::MAX - 1), u32::MAX);
    assert_eq!(force_odd(u32::MAX), u32::MAX);
}

#[test]
fn legal_kernel_sizes_at_the_boundaries() {
    assert_eq!(legalize_kernel_size(0), 1);
    assert_eq!(legalize_kernel_size(1), 1);
    assert_eq!(legalize_kernel_size(2), 3);
    assert_eq!(legalize_kernel_size(3), 3);
    assert_eq!(legalize_kernel_size(30), 31);
    assert_eq!(legalize_kernel_size(400), 401);
    assert_eq!(legalize_kernel_size(401), 401);
    assert_eq!(legalize_kernel_size(402), 401);
    assert_eq!(legalize_kernel_size(500), 401);
    assert_eq!(legalize_kernel_size(u32::MAX), 401);
}

#[test]
fn box_settings_above_the_range_are_clamped() {
    let legal = BoxBlurSettings { kernel_size: 500, passes: 10 }.create_concrete();
    assert_eq!(legal, BoxBlurSettings { kernel_size: 401, passes: 5 });
}

#[test]
fn box_kernel_of_402_clamps_to_401_and_zero_passes_to_one() {
    let legal = BoxBlurSettings { kernel_size: 402, passes: 0 }.create_concrete();
    assert_eq!(legal, BoxBlurSettings { kernel_size: 401, passes: 1 });
}

#[test]
fn gaussian_kernel_of_zero_clamps_to_one_and_disables() {
    let raw = gaussian(0, 1.0);
    let legal = raw.create_concrete();
    assert_eq!(legal.kernel_size, 1);
    assert_eq!(legal.passes(), 0);
    assert!(GaussianBlurSettings::extract_component(&raw).is_none());
}

#[test]
fn kawase_distances_are_clamped_one_by_one() {
    let legal = kawase(&[0, 15, 3]).create_concrete();
    assert_eq!(legal.sampling_distances, vec![0, 9, 3]);
}

#[test]
fn kawase_legalization_keeps_length_and_order() {
    let legal = kawase(&[9, 10, 0, u32::MAX, 4, 4]).create_concrete();
    assert_eq!(legal.sampling_distances, vec![9, 9, 0, 9, 4, 4]);
    assert_eq!(kawase(&[]).create_concrete().sampling_distances, Vec::<u32>::new());
}

#[test]
fn dual_passes_are_clamped_to_eight() {
    assert_eq!(DualBlurSettings { downsampling_passes: 0 }.create_concrete().downsampling_passes, 0);
    assert_eq!(DualBlurSettings { downsampling_passes: 4 }.create_concrete().downsampling_passes, 4);
    assert_eq!(DualBlurSettings { downsampling_passes: 8 }.create_concrete().downsampling_passes, 8);
    assert_eq!(DualBlurSettings { downsampling_passes: 9 }.create_concrete().downsampling_passes, 8);
    assert_eq!(
        DualBlurSettings { downsampling_passes: u32::MAX }.create_concrete().downsampling_passes,
        8
    );
}

#[test]
fn gaussian_legalization_is_idempotent() {
    for kernel_size in [0u32, 1, 2, 3, 30, 31, 400, 401, 402, 1000, u32::MAX] {
        for factor in [-3.0f32, 0.0, 0.5, 1.0, 2.5, 100.0, 250.0, f32::INFINITY, f32::NAN] {
            let once = gaussian(kernel_size, factor).create_concrete();
            let twice = once.create_concrete();
            assert_eq!(once, twice);
        }
    }
}

#[test]
fn box_legalization_is_idempotent() {
    for kernel_size in [0u32, 1, 2, 3, 20, 21, 400, 401, 402, 1000, u32::MAX] {
        for passes in [0u32, 1, 2, 5, 6, u32::MAX] {
            let once = BoxBlurSettings { kernel_size, passes }.create_concrete();
            let twice = once.create_concrete();
            assert_eq!(once, twice);
        }
    }
}

#[test]
fn kawase_legalization_is_idempotent() {
    let once = kawase(&[0, 15, 3, 9, 10, u32::MAX]).create_concrete();
    let twice = once.create_concrete();
    assert_eq!(once, twice);
}

#[test]
fn dual_legalization_is_idempotent() {
    for downsampling_passes in [0u32, 1, 4, 8, 9, 100, u32::MAX] {
        let once = DualBlurSettings { downsampling_passes }.create_concrete();
        let twice = once.create_concrete();
        assert_eq!(once, twice);
    }
}

#[test]
fn legal_kernel_sizes_are_odd() {
    for kernel_size in 0u32..=410 {
        let gaussian_kernel = gaussian(kernel_size, 1.0).create_concrete().kernel_size;
        let box_kernel = BoxBlurSettings { kernel_size, passes: 2 }.create_concrete().kernel_size;
        assert_eq!(gaussian_kernel % 2, 1);
        assert_eq!(box_kernel % 2, 1);
        assert!(1 <= gaussian_kernel && gaussian_kernel <= 401);
        assert_eq!(gaussian_kernel, box_kernel);
    }
}

#[test]
fn gaussian_factor_is_clamped_with_the_kernel() {
    let legal = gaussian(31, 250.0).create_concrete();
    assert_eq!(legal.kernel_size, 31);
    assert_eq!(legal.sampling_distance_factor.to_bits(), FACTOR_MAX_BITS);
    let legal = gaussian(31, 0.25).create_concrete();
    assert_eq!(legal.sampling_distance_factor.to_bits(), FACTOR_MIN_BITS);
    let legal = gaussian(31, 2.5).create_concrete();
    assert_eq!(f32::from_bits(legal.sampling_distance_factor.to_bits()), 2.5);
}

#[test]
fn defaults_are_those_of_the_effects() {
    let gaussian_default = GaussianBlurSettings::default();
    assert_eq!(gaussian_default.kernel_size, 31);
    assert_eq!(f32::from_bits(gaussian_default.sampling_distance_factor.to_bits()), 1.0);
    assert_eq!(BoxBlurSettings::default(), BoxBlurSettings { kernel_size: 21, passes: 2 });
    assert_eq!(KawaseBlurSettings::default().sampling_distances, vec![0, 1, 2, 2, 3]);
    assert_eq!(DualBlurSettings::default().downsampling_passes, 4);
}

#[test]
fn defaults_are_legal() {
    assert_eq!(GaussianBlurSettings::default().create_concrete(), GaussianBlurSettings::default());
    assert_eq!(BoxBlurSettings::default().create_concrete(), BoxBlurSettings::default());
    assert_eq!(KawaseBlurSettings::default().create_concrete(), KawaseBlurSettings::default());
    assert_eq!(DualBlurSettings::default().create_concrete(), DualBlurSettings::default());
}

#[test]
fn no_blur_values_disable_every_effect() {
    let gaussian_off = GaussianBlurSettings::no_blur();
    assert_eq!(gaussian_off.kernel_size, 1);
    assert_eq!(f32::from_bits(gaussian_off.sampling_distance_factor.to_bits()), 1.0);
    assert!(GaussianBlurSettings::extract_component(&gaussian_off).is_none());

    let box_off = BoxBlurSettings::no_blur();
    assert_eq!(box_off, BoxBlurSettings { kernel_size: 1, passes: 1 });
    assert!(BoxBlurSettings::extract_component(&box_off).is_none());

    let kawase_off = KawaseBlurSettings::no_blur();
    assert!(kawase_off.sampling_distances.is_empty());
    assert!(KawaseBlurSettings::extract_component(&kawase_off).is_none());

    let dual_off = DualBlurSettings::no_blur();
    assert_eq!(dual_off.downsampling_passes, 0);
    assert!(DualBlurSettings::extract_component(&dual_off).is_none());
}

#[test]
fn no_blur_values_cost_nothing() {
    let free = SamplingCost { numerator: 0, denominator: 1 };
    assert_eq!(GaussianBlurSettings::no_blur().passes(), 0);
    assert_eq!(GaussianBlurSettings::no_blur().sampling_per_pixel(), free);
    assert_eq!(BoxBlurSettings::no_blur().passes(), 0);
    assert_eq!(BoxBlurSettings::no_blur().sampling_per_pixel(), free);
    assert_eq!(KawaseBlurSettings::no_blur().passes(), 0);
    assert_eq!(KawaseBlurSettings::no_blur().sampling_per_pixel(), free);
    assert_eq!(DualBlurSettings::no_blur().passes(), 0);
    assert_eq!(DualBlurSettings::no_blur().sampling_per_pixel(), free);
}

#[test]
fn gaussian_uniforms_carry_kernel_sigma_and_factor() {
    let uniforms = GaussianBlurSettings::extract_component(&gaussian(31, 2.0)).unwrap();
    assert_eq!(uniforms.kernel_size, 31);
    assert_eq!(uniforms.sigma_numerator, 30);
    assert_eq!(camera_blur::gaussian_blur::SIGMA_DENOMINATOR, 6);
    assert_eq!(f32::from_bits(uniforms.sampling_distance_factor.to_bits()), 2.0);
    let sigma = uniforms.sigma_numerator as f32 / camera_blur::gaussian_blur::SIGMA_DENOMINATOR as f32;
    assert_eq!(sigma, 5.0);
}

#[test]
fn gaussian_uniforms_are_made_from_the_legal_settings() {
    let uniforms = GaussianBlurSettings::extract_component(&gaussian(1000, 500.0)).unwrap();
    assert_eq!(uniforms.kernel_size, 401);
    assert_eq!(uniforms.sigma_numerator, 400);
    assert_eq!(f32::from_bits(uniforms.sampling_distance_factor.to_bits()), 100.0);
    let uniforms = GaussianBlurSettings::extract_component(&gaussian(2, 1.0)).unwrap();
    assert_eq!(uniforms.kernel_size, 3);
    assert_eq!(uniforms.sigma_numerator, 2);
}

#[test]
fn gaussian_gate_closes_exactly_for_kernel_one() {
    assert!(GaussianBlurSettings::extract_component(&gaussian(0, 7.0)).is_none());
    assert!(GaussianBlurSettings::extract_component(&gaussian(1, 7.0)).is_none());
    assert!(GaussianBlurSettings::extract_component(&gaussian(2, 7.0)).is_some());
    assert!(GaussianBlurSettings::extract_component(&gaussian(3, 7.0)).is_some());
    assert!(GaussianBlurSettings::extract_component(&gaussian(u32::MAX, 7.0)).is_some());
}

#[test]
fn box_uniforms_are_made_from_the_legal_settings() {
    let uniforms =
        BoxBlurSettings::extract_component(&BoxBlurSettings { kernel_size: 20, passes: 9 }).unwrap();
    assert_eq!(uniforms.kernel_size, 21);
    assert_eq!(uniforms.passes, 5);
    let uniforms =
        BoxBlurSettings::extract_component(&BoxBlurSettings { kernel_size: 21, passes: 0 }).unwrap();
    assert_eq!(uniforms.kernel_size, 21);
    assert_eq!(uniforms.passes, 1);
}

#[test]
fn box_gate_closes_exactly_for_kernel_one() {
    for passes in [0u32, 1, 5, 100] {
        assert!(BoxBlurSettings::extract_component(&BoxBlurSettings { kernel_size: 0, passes })
            .is_none());
        assert!(BoxBlurSettings::extract_component(&BoxBlurSettings { kernel_size: 1, passes })
            .is_none());
        assert!(BoxBlurSettings::extract_component(&BoxBlurSettings { kernel_size: 2, passes })
            .is_some());
    }
}

#[test]
fn kawase_gate_closes_exactly_for_the_empty_list() {
    assert!(KawaseBlurSettings::extract_component(&kawase(&[])).is_none());
    let concrete = KawaseBlurSettings::extract_component(&kawase(&[0])).unwrap();
    assert_eq!(concrete.sampling_distances, vec![0]);
    let concrete = KawaseBlurSettings::extract_component(&kawase(&[12, 1])).unwrap();
    assert_eq!(concrete.sampling_distances, vec![9, 1]);
}

#[test]
fn dual_gate_closes_exactly_for_zero_passes() {
    assert!(DualBlurSettings::extract_component(&DualBlurSettings { downsampling_passes: 0 })
        .is_none());
    let concrete =
        DualBlurSettings::extract_component(&DualBlurSettings { downsampling_passes: 1 }).unwrap();
    assert_eq!(concrete.downsampling_passes, 1);
    let concrete =
        DualBlurSettings::extract_component(&DualBlurSettings { downsampling_passes: 20 }).unwrap();
    assert_eq!(concrete.downsampling_passes, 8);
}

#[test]
fn pass_counts_of_enabled_settings() {
    assert_eq!(gaussian(3, 1.0).passes(), 2);
    assert_eq!(gaussian(401, 1.0).passes(), 2);
    assert_eq!(BoxBlurSettings { kernel_size: 21, passes: 1 }.passes(), 2);
    assert_eq!(BoxBlurSettings { kernel_size: 21, passes: 5 }.passes(), 10);
    assert_eq!(kawase(&[0, 1, 2, 2, 3]).passes(), 5);
    assert_eq!(DualBlurSettings { downsampling_passes: 4 }.passes(), 8);
    assert_eq!(DualBlurSettings { downsampling_passes: 8 }.passes(), 16);
}

#[test]
fn sampling_cost_of_the_separable_kernels() {
    assert_eq!(gaussian(31, 1.0).sampling_per_pixel(), SamplingCost { numerator: 62, denominator: 1 });
    assert_eq!(
        BoxBlurSettings { kernel_size: 21, passes: 2 }.sampling_per_pixel(),
        SamplingCost { numerator: 84, denominator: 1 }
    );
    assert_eq!(
        BoxBlurSettings { kernel_size: 401, passes: 5 }.sampling_per_pixel(),
        SamplingCost { numerator: 4010, denominator: 1 }
    );
    assert_eq!(
        BoxBlurSettings { kernel_size: 1_000_001, passes: 1_000_000 }.sampling_per_pixel(),
        SamplingCost { numerator: 2_000_002_000_000, denominator: 1 }
    );
    assert_eq!(
        gaussian(u32::MAX, 1.0).sampling_per_pixel(),
        SamplingCost { numerator: 8_589_934_590, denominator: 1 }
    );
}

#[test]
fn sampling_cost_of_the_kawase_blur_is_four_per_pass() {
    assert_eq!(
        kawase(&[0, 1, 2, 2, 3]).sampling_per_pixel(),
        SamplingCost { numerator: 20, denominator: 1 }
    );
}

#[test]
fn sampling_cost_of_the_dual_blur_is_a_geometric_sum() {
    let one = DualBlurSettings { downsampling_passes: 1 }.sampling_per_pixel();
    assert_eq!(one, SamplingCost { numerator: 37, denominator: 4 });
    let two = DualBlurSettings { downsampling_passes: 2 }.sampling_per_pixel();
    assert_eq!(two, SamplingCost { numerator: 185, denominator: 16 });
    let four = DualBlurSettings { downsampling_passes: 4 }.sampling_per_pixel();
    assert_eq!(four, SamplingCost { numerator: 3145, denominator: 256 });
    assert_eq!(four.numerator as f32 / four.denominator as f32, 12.28515625);
    let eight = DualBlurSettings { downsampling_passes: 8 }.sampling_per_pixel();
    assert_eq!(eight, SamplingCost { numerator: 808_265, denominator: 65_536 });
}

#[test]
fn sampling_cost_of_the_dual_blur_matches_the_sum_of_its_terms() {
    for passes in 0u32..=8 {
        let cost = DualBlurSettings { downsampling_passes: passes }.sampling_per_pixel();
        let summed = (0..passes).fold(0.0f32, |samplings, pass| {
            samplings + (5.0 / 4.0 + 8.0) / 4.0f32.powi(pass as i32)
        });
        assert_eq!(cost.numerator as f32 / cost.denominator as f32, summed);
        assert_eq!(3 * cost.numerator + 37, 37 * cost.denominator);
    }
}

#[test]
fn kawase_clone_keeps_the_distances() {
    let settings = kawase(&[3, 1, 4]);
    let copy = settings.clone();
    assert_eq!(copy, settings);
}
