//! Where each feature group sits in the input of the first layer.

use vstd::prelude::*;

verus! {

/// A contiguous range of input dimensions: `dims` dimensions starting at
/// `offset`.
#[derive(Clone, Copy, Debug, PartialEq, Eq, Structural)]
pub struct FeatureLayout {
    pub offset: usize,
    pub dims: usize,
}

impl FeatureLayout {
    /// The first input dimension after the range.
    pub open spec fn end(&self) -> int {
        self.offset + self.dims
    }
}

/// The number of sine features of the time coordinate, and of its cosine
/// features.
pub const T_DIMS: usize = 13;

/// The number of sine features of the row coordinate, and of its cosine
/// features.
pub const Y_DIMS: usize = 7;

/// The number of sine features of the column coordinate, and of its cosine
/// features.
pub const X_DIMS: usize = 8;

/// The number of positional input dimensions.
pub const POINT_DIMS: usize = 56;

/// The width of the first time embedding.
pub const EM0_DIMS: usize = 20;

/// The width of the second time embedding.
pub const EM1_DIMS: usize = 44;

/// The number of input dimensions of the first layer.
pub const INPUT_DIMS: usize = 120;

/// The number of entries along the time axis that the time coordinate is
/// scaled to before it indexes an embedding.
pub const EMBEDDINGS: usize = 820;

/// The feature groups of the first layer's input, in the order in which they
/// are laid out.
#[derive(Clone, Copy, Debug, PartialEq, Eq, Structural)]
pub enum FeatureGroup {
    TSin,
    TCos,
    YSin,
    YCos,
    XSin,
    XCos,
    Em0,
    Em1,
}

impl FeatureGroup {
    /// The input dimensions that the group occupies.
    pub open spec fn spec_layout(self) -> FeatureLayout {
        match self {
            FeatureGroup::TSin => FeatureLayout { offset: 0, dims: 13 },
            FeatureGroup::TCos => FeatureLayout { offset: 13, dims: 13 },
            FeatureGroup::YSin => FeatureLayout { offset: 26, dims: 7 },
            FeatureGroup::YCos => FeatureLayout { offset: 33, dims: 7 },
            FeatureGroup::XSin => FeatureLayout { offset: 40, dims: 8 },
            FeatureGroup::XCos => FeatureLayout { offset: 48, dims: 8 },
            FeatureGroup::Em0 => FeatureLayout { offset: 56, dims: 20 },
            FeatureGroup::Em1 => FeatureLayout { offset: 76, dims: 44 },
        }
    }

    /// The input dimensions that the group occupies.
    #[verifier::when_used_as_spec(spec_layout)]
    pub fn layout(self) -> (range: FeatureLayout)
        ensures
            range == self.spec_layout(),
    {
        match self {
            FeatureGroup::TSin => FeatureLayout { offset: 0, dims: T_DIMS },
            FeatureGroup::TCos => FeatureLayout { offset: T_DIMS, dims: T_DIMS },
            FeatureGroup::YSin => FeatureLayout { offset: 2 * T_DIMS, dims: Y_DIMS },
            FeatureGroup::YCos => FeatureLayout { offset: 2 * T_DIMS + Y_DIMS, dims: Y_DIMS },
            FeatureGroup::XSin => FeatureLayout { offset: 2 * T_DIMS + 2 * Y_DIMS, dims: X_DIMS },
            FeatureGroup::XCos => FeatureLayout {
                offset: 2 * T_DIMS + 2 * Y_DIMS + X_DIMS,
                dims: X_DIMS,
            },
            FeatureGroup::Em0 => FeatureLayout { offset: POINT_DIMS, dims: EM0_DIMS },
            FeatureGroup::Em1 => FeatureLayout { offset: POINT_DIMS + EM0_DIMS, dims: EM1_DIMS },
        }
    }
}

/// The six positional ranges follow one another from dimension zero and
/// together cover `POINT_DIMS` dimensions; the two embeddings follow and
/// complete the `INPUT_DIMS` dimensions of the first layer.
pub proof fn lemma_layout_is_contiguous()
    ensures
        FeatureGroup::TSin.layout().offset == 0,
        FeatureGroup::TCos.layout().offset == FeatureGroup::TSin.layout().end(),
        FeatureGroup::YSin.layout().offset == FeatureGroup::TCos.layout().end(),
        FeatureGroup::YCos.layout().offset == FeatureGroup::YSin.layout().end(),
        FeatureGroup::XSin.layout().offset == FeatureGroup::YCos.layout().end(),
        FeatureGroup::XCos.layout().offset == FeatureGroup::XSin.layout().end(),
        FeatureGroup::XCos.layout().end() == POINT_DIMS,
        FeatureGroup::TSin.layout().dims + FeatureGroup::TCos.layout().dims
            + FeatureGroup::YSin.layout().dims + FeatureGroup::YCos.layout().dims
            + FeatureGroup::XSin.layout().dims + FeatureGroup::XCos.layout().dims == POINT_DIMS,
        FeatureGroup::Em0.layout().offset == POINT_DIMS,
        FeatureGroup::Em1.layout().offset == FeatureGroup::Em0.layout().end(),
        FeatureGroup::Em1.layout().end() == INPUT_DIMS,
{
}

/// The number of positional input dimensions.
pub fn point_dims() -> (dims: u64)
    ensures
        dims == POINT_DIMS,
{
    56
}

/// The number of entries along the time axis.
pub fn embeddings() -> (entries: u64)
    ensures
        entries == EMBEDDINGS,
{
    820
}

/// The two rows of an embedding of `rows` rows between which a time
/// coordinate falls, given the integer part `scaled` of the coordinate
/// multiplied by `rows`: the row at `scaled` and the one after it, each held
/// to the last row.
pub open spec fn embedding_rows(scaled: int, rows: int) -> (int, int) {
    let first = if scaled < rows - 1 {
        scaled
    } else {
        rows - 1
    };
    let second = if first + 1 < rows - 1 {
        first + 1
    } else {
        rows - 1
    };
    (first, second)
}

/// The indices of the two embedding rows to blend for a time coordinate
/// whose product with `rows` has the integer part `scaled`.
pub fn embedding_indices(scaled: usize, rows: usize) -> (indices: (usize, usize))
    requires
        rows > 0,
    ensures
        (indices.0 as int, indices.1 as int) == embedding_rows(scaled as int, rows as int),
        indices.0 < rows,
        indices.1 < rows,
{
    let last: usize = rows - 1;
    let first: usize = if scaled < last {
        scaled
    } else {
        last
    };
    let second: usize = if first < last {
        first + 1
    } else {
        last
    };
    (first, second)
}

} // verus!
