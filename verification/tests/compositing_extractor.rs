use scene_core::compositing::{
    ColorSpace, ComponentTransferFuncType, Filter, FilterOp, FilterPrimitive,
    FilterPrimitiveInput, InvariantViolation, ItemRange, MixBlendMode, StackingContext,
    StackingContextHelpers, TempFilterData,
};
use scene_core::properties::{PropertyBinding, PropertyBindingKey};
use scene_core::units::ColorF;

fn context(mode: MixBlendMode) -> StackingContext {
    StackingContext { mix_blend_mode: mode }
}

fn temp_filter_data(
    func_types: Vec<ComponentTransferFuncType>,
    r_values: Vec<u32>,
) -> TempFilterData {
    TempFilterData {
        func_types: ItemRange { items: func_types },
        r_values: ItemRange { items: r_values },
        g_values: ItemRange { items: vec![0.5f32.to_bits()] },
        b_values: ItemRange { items: Vec::new() },
        a_values: ItemRange { items: vec![0.0f32.to_bits(), 1.0f32.to_bits()] },
    }
}

#[test]
fn normal_blend_mode_yields_no_compositing_effect() {
    assert_eq!(context(MixBlendMode::Normal).mix_blend_mode_for_compositing(), None);
}

#[test]
fn other_blend_modes_pass_through_unchanged() {
    for mode in [
        MixBlendMode::Multiply,
        MixBlendMode::Screen,
        MixBlendMode::Overlay,
        MixBlendMode::Darken,
        MixBlendMode::Lighten,
        MixBlendMode::ColorDodge,
        MixBlendMode::ColorBurn,
        MixBlendMode::HardLight,
        MixBlendMode::SoftLight,
        MixBlendMode::Difference,
        MixBlendMode::Exclusion,
        MixBlendMode::Hue,
        MixBlendMode::Saturation,
        MixBlendMode::Color,
        MixBlendMode::Luminosity,
    ] {
        assert_eq!(context(mode).mix_blend_mode_for_compositing(), Some(mode));
    }
}

#[test]
fn filter_ops_convert_one_to_one_in_order() {
    let color = ColorF {
        r: 0.0f32.to_bits(),
        g: 1.0f32.to_bits(),
        b: 0.0f32.to_bits(),
        a: 1.0f32.to_bits(),
    };
    let opacity_binding =
        PropertyBinding::Binding(PropertyBindingKey { id: 12 }, 1.0f32.to_bits());
    let input = ItemRange {
        items: vec![
            FilterOp::Blur(4.0f32.to_bits()),
            FilterOp::Identity,
            FilterOp::Opacity(opacity_binding, 0.5f32.to_bits()),
            FilterOp::Flood(color),
            FilterOp::ComponentTransfer,
        ],
    };
    let filters = context(MixBlendMode::Normal).filter_ops_for_compositing(input);
    assert_eq!(
        filters,
        vec![
            Filter::Blur(4.0f32.to_bits()),
            Filter::Identity,
            Filter::Opacity(opacity_binding, 0.5f32.to_bits()),
            Filter::Flood(color),
            Filter::ComponentTransfer,
        ]
    );
}

#[test]
fn empty_filter_range_yields_no_filters() {
    let input = ItemRange { items: Vec::new() };
    let filters = context(MixBlendMode::Normal).filter_ops_for_compositing(input);
    assert!(filters.is_empty());
}

#[test]
fn filter_data_with_four_channels_decodes_exactly() {
    let data = temp_filter_data(
        vec![
            ComponentTransferFuncType::Identity,
            ComponentTransferFuncType::Table,
            ComponentTransferFuncType::Linear,
            ComponentTransferFuncType::Gamma,
        ],
        vec![0.25f32.to_bits(), 0.75f32.to_bits()],
    );
    let result = context(MixBlendMode::Normal).filter_datas_for_compositing(&[data]);
    let datas = result.expect("well-formed record decodes");
    assert_eq!(datas.len(), 1);
    let decoded = &datas[0];
    assert_eq!(decoded.func_r_type, ComponentTransferFuncType::Identity);
    assert_eq!(decoded.func_g_type, ComponentTransferFuncType::Table);
    assert_eq!(decoded.func_b_type, ComponentTransferFuncType::Linear);
    assert_eq!(decoded.func_a_type, ComponentTransferFuncType::Gamma);
    assert_eq!(decoded.r_values, vec![0.25f32.to_bits(), 0.75f32.to_bits()]);
    assert_eq!(decoded.g_values, vec![0.5f32.to_bits()]);
    assert_eq!(decoded.b_values, Vec::<u32>::new());
    assert_eq!(decoded.a_values, vec![0.0f32.to_bits(), 1.0f32.to_bits()]);
}

#[test]
fn filter_data_with_fewer_channels_is_a_fatal_invariant_violation() {
    let data = temp_filter_data(
        vec![ComponentTransferFuncType::Identity, ComponentTransferFuncType::Table],
        Vec::new(),
    );
    let result = context(MixBlendMode::Normal).filter_datas_for_compositing(&[data]);
    assert_eq!(result.unwrap_err(), InvariantViolation::FilterDataArity);
}

#[test]
fn filter_data_with_extra_channels_is_a_fatal_invariant_violation() {
    let data = temp_filter_data(vec![ComponentTransferFuncType::Identity; 5], Vec::new());
    let result = context(MixBlendMode::Normal).filter_datas_for_compositing(&[data]);
    assert_eq!(result.unwrap_err(), InvariantViolation::FilterDataArity);
}

#[test]
fn one_bad_record_fails_the_whole_batch() {
    let good = temp_filter_data(vec![ComponentTransferFuncType::Identity; 4], Vec::new());
    let bad = temp_filter_data(vec![ComponentTransferFuncType::Identity; 3], Vec::new());
    let result = context(MixBlendMode::Normal).filter_datas_for_compositing(&[good, bad]);
    assert_eq!(result.unwrap_err(), InvariantViolation::FilterDataArity);
}

#[test]
fn no_filter_data_records_decode_to_an_empty_batch() {
    let result = context(MixBlendMode::Normal).filter_datas_for_compositing(&[]);
    assert_eq!(result.expect("empty batch is well formed").len(), 0);
}

#[test]
fn filter_primitives_pass_through_in_order() {
    let primitives = vec![
        FilterPrimitive { input: FilterPrimitiveInput::Original, color_space: ColorSpace::Srgb },
        FilterPrimitive {
            input: FilterPrimitiveInput::Previous,
            color_space: ColorSpace::LinearRgb,
        },
        FilterPrimitive {
            input: FilterPrimitiveInput::OutputOf(0),
            color_space: ColorSpace::Srgb,
        },
    ];
    let input = ItemRange { items: primitives.clone() };
    let out = context(MixBlendMode::Normal).filter_primitives_for_compositing(input);
    assert_eq!(out, primitives);
}
