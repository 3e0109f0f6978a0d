pub use crate::Shrine;
pub use crate::extensions::append::{MinijinjaAppendExt, append};
pub use crate::extensions::generate::{MinijinjaGenerateExt, generate};
