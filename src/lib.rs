//! Start-up logic of a desktop shell that fetches a Node.js runtime, launches
//! a bundled development server and waits for its port to open before the
//! window is shown.
pub mod greeting;
pub mod readiness;
pub mod launch;
