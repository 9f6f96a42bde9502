pub mod codec;
pub mod collections;
pub mod document;
pub mod draft;
pub mod error;
pub mod ids;
pub mod ini;
pub mod records;
pub mod split;
pub mod text;
pub mod textio;
pub mod values;

pub use codec::{Color, WifParse};
pub use collections::{IdSet, Table};
pub use document::{WarpOrWeft, Wif};
pub use draft::liftplan_from_threading_and_treadle;
pub use error::WifError;
pub use ids::{Shaft, Treadle, Warp, Weft};
pub use records::{ColorPalette, Text, WarpS, WarpSymbolPalette, Weaving, WeftS, WifHeader};
pub use textio::parse;
pub use values::{BaseColor, Date, Measure, Symbol};
