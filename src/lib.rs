//! Locates the Go test file that declares a named test function and plans
//! the `go test` invocation scoped to that single test.

pub mod locator;
pub mod naming;
pub mod pattern;
pub mod session;
