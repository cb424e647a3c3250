//! Verified core of the Freebuff Proxy desktop shell: the decisions and the
//! text that the tray shell computes around its local proxy server.

pub mod text;
pub mod password;
pub mod port;
pub mod tail;
pub mod json;
pub mod http;
pub mod autofill;
pub mod launch;
pub mod shell;
