//! Integer core of a neural video decoder: a small quantized multilayer
//! perceptron whose first layer is evaluated incrementally along the raster
//! scan order.

pub mod quant;
pub mod layers;
pub mod layout;
pub mod decoder;
pub mod laws;
pub mod raster;
pub mod sampler;
