//! Configuration data of the density functions that holds no density values.
use vstd::prelude::*;

verus! {

/// Mapper type for weird-scaled noise (cave generation): maps density values to scale
/// multipliers for varying cave sizes.
#[derive(Clone, Copy, Debug, PartialEq, Eq, Structural)]
pub enum WeirdScaledMapper {
    /// Cave mapper: scale varies from 0.5 to 3.0.
    Caves,
    /// Tunnel mapper: scale varies from 0.75 to 2.0.
    Tunnels,
}

/// Configuration data for weird-scaled noise.
#[derive(Clone, Copy, Debug)]
pub struct WeirdScaledData {
    /// Noise identifier.
    pub noise_id: &'static str,
    /// Mapper type (caves or tunnels).
    pub mapper: WeirdScaledMapper,
}

/// Binary operation types for combining two density values.
#[derive(Clone, Copy, Debug, PartialEq, Eq, Structural)]
pub enum BinaryOperation {
    /// Addition: `a + b`.
    Add,
    /// Multiplication: `a * b`.
    Mul,
    /// Minimum: `min(a, b)`.
    Min,
    /// Maximum: `max(a, b)`.
    Max,
}

/// Configuration data for binary operations.
#[derive(Clone, Copy, Debug, PartialEq, Eq, Structural)]
pub struct BinaryData {
    /// The operation type.
    pub operation: BinaryOperation,
}

/// Linear operation types for single-input transformations.
#[derive(Clone, Copy, Debug, PartialEq, Eq, Structural)]
pub enum LinearOperation {
    /// Addition: `input + argument`.
    Add,
    /// Multiplication: `input * argument`.
    Mul,
}

/// Unary operation types for single-value transformations.
#[derive(Clone, Copy, Debug, PartialEq, Eq, Structural)]
pub enum UnaryOperation {
    /// Absolute value: `|x|`.
    Abs,
    /// Square: `x²`.
    Square,
    /// Cube: `x³`.
    Cube,
    /// Half negative: `x < 0 ? x * 0.5 : x`.
    HalfNegative,
    /// Quarter negative: `x < 0 ? x * 0.25 : x`.
    QuarterNegative,
    /// Squeeze: `clamp(x, -1, 1) / 2 - clamp(x, -1, 1)³ / 24`.
    Squeeze,
}

/// Configuration data for unary operations.
#[derive(Clone, Copy, Debug, PartialEq, Eq, Structural)]
pub struct UnaryData {
    /// The operation type.
    pub operation: UnaryOperation,
}

/// Wrapper types for caching and interpolation.
#[derive(Clone, Copy, Debug, PartialEq, Eq, Structural)]
pub enum WrapperType {
    /// Trilinear interpolation between cell corners.
    Interpolated,
    /// 2D flat cache at biome resolution.
    CacheFlat,
    /// Column-based (X, Z) cache.
    Cache2D,
    /// Single-sample cache within a pass.
    CacheOnce,
    /// Per-cell density cache.
    CellCache,
}

} // verus!
