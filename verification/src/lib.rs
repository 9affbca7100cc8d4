//! Conversion of sequences of fixed-width signed integers, where a negative
//! value stands for "missing", into columnar arrays with an explicit
//! validity bitmap.

pub mod adapter;
pub mod builders;
pub mod columnar;
pub mod laws;
pub mod native;

pub use adapter::num2opt;
pub use adapter::val2opt;
pub use builders::CAPACITY_DEFAULT;
pub use builders::nat2arr16i;
pub use builders::nat2arr32i;
pub use builders::nat2arr64i;
pub use builders::nat2arr8i;
pub use builders::natural2array;
pub use builders::natural2array_default;
pub use builders::natural2builder;
pub use builders::opt2arr16i;
pub use builders::opt2arr32i;
pub use builders::opt2arr64i;
pub use builders::opt2arr8i;
pub use builders::opt2builder;
pub use builders::opts2array;
pub use builders::opts2array_default;
pub use columnar::ArrayI16;
pub use columnar::ArrayI32;
pub use columnar::ArrayI64;
pub use columnar::ArrayI8;
pub use columnar::BuilderI16;
pub use columnar::BuilderI32;
pub use columnar::BuilderI64;
pub use columnar::BuilderI8;
pub use columnar::Columnar;
pub use native::Native;
pub use native::is_negative;
pub use native::negative2none;
pub use native::negative2none_spec;
pub use native::opt_negative2none;
