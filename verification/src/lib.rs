//! The core of a code playground: it decides how submitted source is
//! compiled, run or formatted inside a disposable environment, under
//! resource limits, and what is reported back.

pub mod capture;
pub mod decimal;
pub mod error;
pub mod isolation;
pub mod job;
pub mod laws;
pub mod lifecycle;
pub mod limits;
pub mod model;
pub mod monitor;
pub mod pipeline;
pub mod pool;
pub mod readings;
pub mod reply;
pub mod text;
pub mod toolchain;
pub mod wire;
