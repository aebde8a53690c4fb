pub mod either;
pub mod layer;
pub mod make;
pub mod map_err;
pub mod map_target;
pub mod optional;
pub mod phantom_data;
pub mod shared;
pub mod stack_per_request;
pub mod watch;
pub mod when;

pub use self::either::Either;
pub use self::layer::{Layer, Stack};
