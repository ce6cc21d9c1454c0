//! Serial console output to a log file.

use vstd::prelude::*;

use crate::error::{KasouError, KasouErrorView};
use crate::text::{push_str, string_of};

verus! {

/// Configuration for a serial console that logs to a file.
#[derive(Debug, Clone)]
pub struct SerialConfig {
    /// Path to the file where console output will be written.
    pub log_path: String,
}

/// How the console's log file is to be attached.
#[derive(Debug, Clone)]
pub struct SerialPortPlan {
    pub log_path: String,
    /// Whether output is appended to the file, keeping earlier logs.
    pub append: bool,
}

/// The attachment for a serial console: its log file, opened for appending.
pub fn plan_serial_port(config: &SerialConfig) -> (r: SerialPortPlan)
    ensures
        r.log_path == config.log_path,
        r.append,
{
    SerialPortPlan { log_path: config.log_path.clone(), append: true }
}

/// The error reported when the framework cannot attach the log file at
/// `path`, with its description `detail`.
pub fn serial_attachment_error(path: &str, detail: &str) -> (r: KasouError)
    ensures
        r@ == KasouErrorView::Framework(
            "failed to create serial port attachment for "@ + path@ + ": "@ + detail@,
        ),
{
    let mut buf: Vec<char> = Vec::new();
    push_str(&mut buf, "failed to create serial port attachment for ");
    push_str(&mut buf, path);
    push_str(&mut buf, ": ");
    push_str(&mut buf, detail);
    let s = string_of(&buf);
    assert(s@ =~= "failed to create serial port attachment for "@ + path@ + ": "@ + detail@);
    KasouError::Framework(s)
}

} // verus!
