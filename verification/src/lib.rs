//! Values of a template engine, paths into them, and chains of filters over them.
//!
//! Every value is described by a mathematical model ([`value::ValueModel`]); the
//! contracts of the executable functions are stated over those models.

pub mod cow;
pub mod date;
pub mod datetime;
pub mod error;
pub mod filter_chain;
pub mod find;
pub mod order;
pub mod renderable;
pub mod runtime;
pub mod scalar;
pub mod shared;
pub mod text;
pub mod url;
pub mod value;
pub mod view;

pub use cow::{ValueCow, ValueCowCmp};
pub use date::{Date, DatePlan};
pub use datetime::{CivilDate, DateTime};
pub use error::{Error, ErrorModel, Trace, TraceModel};
pub use filter_chain::{annotate, Filter, FilterChain};
pub use find::{augmented_get, find, try_find, Path, PathIter};
pub use order::{views_order, Order};
pub use renderable::{
    BlockReflection, Renderable, RenderableReflection, TagReflection, Template, Text,
};
pub use runtime::{Bindings, Expression, Runtime, Scope};
pub use scalar::{Scalar, ScalarModel, State};
pub use url::{UrlDecode, UrlEncode};
pub use shared::{Held, SharedValueView};
pub use value::{Object, Value, ValueModel};
pub use view::{views_equal, ValueView};
