//! The stateless extractor of stacking-context compositing attributes.
//!
//! During scene flattening each stacking context's compositing attributes —
//! mix-blend mode, filter list, filter data and filter primitives — arrive in
//! their decoded wire form and are converted here into the engine's internal
//! filter representation. Every conversion is a pure, total transform over
//! its input range, with one exception: a filter-data record that does not
//! supply exactly four component-transfer channels denotes a corrupt upstream
//! encoder and raises a fatal invariant violation rather than a partial
//! result.

use vstd::prelude::*;
use crate::units::{ColorF, FloatBits};

verus! {

/// A CSS mix-blend mode, as carried by a stacking context.
#[derive(Clone, Copy, Debug, PartialEq, Eq, Structural)]
pub enum MixBlendMode {
    Normal,
    Multiply,
    Screen,
    Overlay,
    Darken,
    Lighten,
    ColorDodge,
    ColorBurn,
    HardLight,
    SoftLight,
    Difference,
    Exclusion,
    Hue,
    Saturation,
    Color,
    Luminosity,
}

/// A component-transfer function kind for one color channel of a filter-data
/// record.
#[derive(Clone, Copy, Debug, PartialEq, Eq, Structural)]
pub enum ComponentTransferFuncType {
    Identity,
    Table,
    Discrete,
    Linear,
    Gamma,
}

/// A filter operation in its wire form, as decoded from the display list.
/// Scalar amounts are bit patterns of their 32-bit float values; the store
/// never computes with them.
#[derive(Clone, Copy, Debug, PartialEq, Eq, Structural)]
pub enum FilterOp {
    Identity,
    Blur(FloatBits),
    Brightness(FloatBits),
    Contrast(FloatBits),
    Grayscale(FloatBits),
    HueRotate(FloatBits),
    Invert(FloatBits),
    Opacity(crate::properties::PropertyBinding<FloatBits>, FloatBits),
    Saturate(FloatBits),
    Sepia(FloatBits),
    ComponentTransfer,
    Flood(ColorF),
}

/// A filter operation in the engine's internal representation, one variant
/// for each wire variant.
#[derive(Clone, Copy, Debug, PartialEq, Eq, Structural)]
pub enum Filter {
    Identity,
    Blur(FloatBits),
    Brightness(FloatBits),
    Contrast(FloatBits),
    Grayscale(FloatBits),
    HueRotate(FloatBits),
    Invert(FloatBits),
    Opacity(crate::properties::PropertyBinding<FloatBits>, FloatBits),
    Saturate(FloatBits),
    Sepia(FloatBits),
    ComponentTransfer,
    Flood(ColorF),
}

/// Which earlier output one SVG filter primitive reads.
#[derive(Clone, Copy, Debug, PartialEq, Eq, Structural)]
pub enum FilterPrimitiveInput {
    /// The original, unfiltered graphic of the stacking context.
    Original,
    /// The output of the previous primitive in the graph.
    Previous,
    /// The output of the primitive at the given index.
    OutputOf(u32),
}

/// The color space one SVG filter primitive operates in.
#[derive(Clone, Copy, Debug, PartialEq, Eq, Structural)]
pub enum ColorSpace {
    Srgb,
    LinearRgb,
}

/// One node of an SVG filter graph. Primitives pass through the extractor
/// one to one, so only the fields the engine reads downstream are modeled.
#[derive(Clone, Copy, Debug, PartialEq, Eq, Structural)]
pub struct FilterPrimitive {
    pub input: FilterPrimitiveInput,
    pub color_space: ColorSpace,
}

/// A lazily-iterated item range of the display list, as handed over by the
/// upstream decoder; modeled as the sequence of items its iteration yields.
pub struct ItemRange<T> {
    pub items: Vec<T>,
}

impl<T> View for ItemRange<T> {
    type V = Seq<T>;

    open spec fn view(&self) -> Seq<T> {
        self.items@
    }
}

/// One filter-data record in its wire form: the component-transfer function
/// kinds (one per color channel, red, green, blue, alpha, in that fixed
/// order) still packed in a single range, plus the per-channel value tables.
pub struct TempFilterData {
    pub func_types: ItemRange<ComponentTransferFuncType>,
    pub r_values: ItemRange<FloatBits>,
    pub g_values: ItemRange<FloatBits>,
    pub b_values: ItemRange<FloatBits>,
    pub a_values: ItemRange<FloatBits>,
}

/// One filter-data record in the engine's internal representation: each
/// channel's function kind next to its ordered value table.
#[derive(Debug)]
pub struct FilterData {
    pub func_r_type: ComponentTransferFuncType,
    pub r_values: Vec<FloatBits>,
    pub func_g_type: ComponentTransferFuncType,
    pub g_values: Vec<FloatBits>,
    pub func_b_type: ComponentTransferFuncType,
    pub b_values: Vec<FloatBits>,
    pub func_a_type: ComponentTransferFuncType,
    pub a_values: Vec<FloatBits>,
}

/// A fatal internal-consistency failure: the upstream encoder broke its
/// contract, which is not a recoverable runtime condition. Distinguished
/// from ordinary errors so that callers treat it as corruption, not as bad
/// user input.
#[derive(Clone, Copy, Debug, PartialEq, Eq, Structural)]
pub enum InvariantViolation {
    /// A filter-data record did not supply exactly four component-transfer
    /// channels.
    FilterDataArity,
}

/// The compositing attributes of one stacking context, as decoded from the
/// display list. The only attribute the extractor itself reads is the
/// mix-blend mode; the filter ranges arrive separately.
pub struct StackingContext {
    pub mix_blend_mode: MixBlendMode,
}

/// The internal filter operation that one wire filter operation denotes: the
/// conversion is one to one.
pub open spec fn spec_filter_of_op(op: FilterOp) -> Filter {
    match op {
        FilterOp::Identity => Filter::Identity,
        FilterOp::Blur(amount) => Filter::Blur(amount),
        FilterOp::Brightness(amount) => Filter::Brightness(amount),
        FilterOp::Contrast(amount) => Filter::Contrast(amount),
        FilterOp::Grayscale(amount) => Filter::Grayscale(amount),
        FilterOp::HueRotate(amount) => Filter::HueRotate(amount),
        FilterOp::Invert(amount) => Filter::Invert(amount),
        FilterOp::Opacity(binding, fallback) => Filter::Opacity(binding, fallback),
        FilterOp::Saturate(amount) => Filter::Saturate(amount),
        FilterOp::Sepia(amount) => Filter::Sepia(amount),
        FilterOp::ComponentTransfer => Filter::ComponentTransfer,
        FilterOp::Flood(color) => Filter::Flood(color),
    }
}

/// Whether a wire filter-data record is well formed: exactly one
/// component-transfer function kind per color channel.
pub open spec fn spec_filter_data_well_formed(data: TempFilterData) -> bool {
    data.func_types@.len() == 4
}

/// Whether an internal filter-data record is the faithful conversion of a
/// well-formed wire record: the four function kinds unpacked in their fixed
/// red, green, blue, alpha order, each channel's value table kept in order.
pub open spec fn spec_filter_data_converted(data: TempFilterData, converted: FilterData) -> bool {
    &&& converted.func_r_type == data.func_types@[0]
    &&& converted.func_g_type == data.func_types@[1]
    &&& converted.func_b_type == data.func_types@[2]
    &&& converted.func_a_type == data.func_types@[3]
    &&& converted.r_values@ == data.r_values@
    &&& converted.g_values@ == data.g_values@
    &&& converted.b_values@ == data.b_values@
    &&& converted.a_values@ == data.a_values@
}

/// The per-stacking-context resolution of compositing attributes, consumed
/// during scene flattening.
pub trait StackingContextHelpers {
    /// The mix-blend mode this context was declared with.
    spec fn blend_mode(&self) -> MixBlendMode;

    /// The blend effect to composite with: the "normal" sentinel means the
    /// absence of a mix-blend effect and yields none; every other mode is
    /// passed through unchanged.
    fn mix_blend_mode_for_compositing(&self) -> (mode: Option<MixBlendMode>)
        ensures
            mode == (if self.blend_mode() == MixBlendMode::Normal {
                None
            } else {
                Some(self.blend_mode())
            }),
    ;

    /// Decode a source range of wire filter operations into an owned ordered
    /// sequence of internal filter operations, preserving order.
    fn filter_ops_for_compositing(&self, input_filters: ItemRange<FilterOp>) -> (filters: Vec<
        Filter,
    >)
        ensures
            filters@.len() == input_filters@.len(),
            forall|i: int|
                0 <= i < input_filters@.len() ==> #[trigger] filters@[i] == spec_filter_of_op(
                    input_filters@[i],
                ),
    ;

    /// Decode wire filter-data records into the internal representation, one
    /// to one and in order. A record that does not supply exactly four
    /// component-transfer channels is a fatal invariant violation: the call
    /// reports it and converts nothing, rather than returning a silent
    /// partial result.
    fn filter_datas_for_compositing(&self, input_filter_datas: &[TempFilterData]) -> (result:
        Result<Vec<FilterData>, InvariantViolation>)
        ensures
            match result {
                Ok(filter_datas) => {
                    &&& forall|i: int|
                        0 <= i < input_filter_datas@.len()
                            ==> #[trigger] spec_filter_data_well_formed(input_filter_datas@[i])
                    &&& filter_datas@.len() == input_filter_datas@.len()
                    &&& forall|i: int|
                        0 <= i < input_filter_datas@.len()
                            ==> #[trigger] spec_filter_data_converted(
                            input_filter_datas@[i],
                            filter_datas@[i],
                        )
                },
                Err(violation) => {
                    &&& violation == InvariantViolation::FilterDataArity
                    &&& exists|i: int|
                        0 <= i < input_filter_datas@.len()
                            && !#[trigger] spec_filter_data_well_formed(input_filter_datas@[i])
                },
            },
    ;

    /// Decode a source range of filter primitives into an owned ordered
    /// sequence, preserving order, one element for one element.
    fn filter_primitives_for_compositing(
        &self,
        input_filter_primitives: ItemRange<FilterPrimitive>,
    ) -> (primitives: Vec<FilterPrimitive>)
        ensures
            primitives@ == input_filter_primitives@,
    ;
}

impl StackingContextHelpers for StackingContext {
    open spec fn blend_mode(&self) -> MixBlendMode {
        self.mix_blend_mode
    }

    fn mix_blend_mode_for_compositing(&self) -> (mode: Option<MixBlendMode>) {
        match self.mix_blend_mode {
            MixBlendMode::Normal => None,
            _ => Some(self.mix_blend_mode),
        }
    }

    fn filter_ops_for_compositing(&self, input_filters: ItemRange<FilterOp>) -> (filters: Vec<
        Filter,
    >) {
        let mut filters: Vec<Filter> = Vec::new();
        let mut i: usize = 0;
        while i < input_filters.items.len()
            invariant
                i <= input_filters@.len(),
                filters@.len() == i,
                forall|j: int|
                    0 <= j < i ==> #[trigger] filters@[j] == spec_filter_of_op(input_filters@[j]),
            decreases input_filters@.len() - i,
        {
            filters.push(filter_of_op(input_filters.items[i]));
            i += 1;
        }
        filters
    }

    fn filter_datas_for_compositing(&self, input_filter_datas: &[TempFilterData]) -> (result:
        Result<Vec<FilterData>, InvariantViolation>) {
        let mut filter_datas: Vec<FilterData> = Vec::new();
        let mut i: usize = 0;
        while i < input_filter_datas.len()
            invariant
                i <= input_filter_datas@.len(),
                filter_datas@.len() == i,
                forall|j: int|
                    0 <= j < i ==> #[trigger] spec_filter_data_well_formed(input_filter_datas@[j]),
                forall|j: int|
                    0 <= j < i ==> #[trigger] spec_filter_data_converted(
                        input_filter_datas@[j],
                        filter_datas@[j],
                    ),
            decreases input_filter_datas@.len() - i,
        {
            let temp_filter_data = &input_filter_datas[i];
            if temp_filter_data.func_types.items.len() != 4 {
                proof {
                    assert(!spec_filter_data_well_formed(input_filter_datas@[i as int]));
                }
                return Err(InvariantViolation::FilterDataArity);
            }
            filter_datas.push(
                FilterData {
                    func_r_type: temp_filter_data.func_types.items[0],
                    r_values: copy_values(&temp_filter_data.r_values.items),
                    func_g_type: temp_filter_data.func_types.items[1],
                    g_values: copy_values(&temp_filter_data.g_values.items),
                    func_b_type: temp_filter_data.func_types.items[2],
                    b_values: copy_values(&temp_filter_data.b_values.items),
                    func_a_type: temp_filter_data.func_types.items[3],
                    a_values: copy_values(&temp_filter_data.a_values.items),
                },
            );
            i += 1;
        }
        Ok(filter_datas)
    }

    fn filter_primitives_for_compositing(
        &self,
        input_filter_primitives: ItemRange<FilterPrimitive>,
    ) -> (primitives: Vec<FilterPrimitive>) {
        let mut primitives: Vec<FilterPrimitive> = Vec::new();
        let mut i: usize = 0;
        while i < input_filter_primitives.items.len()
            invariant
                i <= input_filter_primitives@.len(),
                primitives@ == input_filter_primitives@.take(i as int),
            decreases input_filter_primitives@.len() - i,
        {
            primitives.push(input_filter_primitives.items[i]);
            proof {
                assert(input_filter_primitives@.take(i + 1) =~= input_filter_primitives@.take(
                    i as int,
                ).push(input_filter_primitives@[i as int]));
            }
            i += 1;
        }
        proof {
            assert(input_filter_primitives@.take(input_filter_primitives@.len() as int)
                =~= input_filter_primitives@);
        }
        primitives
    }
}

/// Convert one wire filter operation to its internal form.
fn filter_of_op(op: FilterOp) -> (filter: Filter)
    ensures
        filter == spec_filter_of_op(op),
{
    match op {
        FilterOp::Identity => Filter::Identity,
        FilterOp::Blur(amount) => Filter::Blur(amount),
        FilterOp::Brightness(amount) => Filter::Brightness(amount),
        FilterOp::Contrast(amount) => Filter::Contrast(amount),
        FilterOp::Grayscale(amount) => Filter::Grayscale(amount),
        FilterOp::HueRotate(amount) => Filter::HueRotate(amount),
        FilterOp::Invert(amount) => Filter::Invert(amount),
        FilterOp::Opacity(binding, fallback) => Filter::Opacity(binding, fallback),
        FilterOp::Saturate(amount) => Filter::Saturate(amount),
        FilterOp::Sepia(amount) => Filter::Sepia(amount),
        FilterOp::ComponentTransfer => Filter::ComponentTransfer,
        FilterOp::Flood(color) => Filter::Flood(color),
    }
}

/// Copy one channel's value table out of its wire range.
fn copy_values(src: &Vec<FloatBits>) -> (r: Vec<FloatBits>)
    ensures
        r@ == src@,
{
    let mut r: Vec<FloatBits> = Vec::new();
    let mut i: usize = 0;
    while i < src.len()
        invariant
            i <= src.len(),
            r@ == src@.take(i as int),
        decreases src.len() - i,
    {
        r.push(src[i]);
        proof {
            assert(src@.take(i + 1) =~= src@.take(i as int).push(src@[i as int]));
        }
        i += 1;
    }
    proof {
        assert(src@.take(src@.len() as int) =~= src@);
    }
    r
}

} // verus!
