//! What the program decides from its command line when it starts.

use crate::text::str_eq;
use vstd::prelude::*;

verus! {

/// The argument with which the program restarts itself as administrator.
pub open spec fn admin_restart_flag() -> Seq<char> {
    "--admin-restart"@
}

/// The argument with which the program is started at logon.
pub open spec fn autostart_flag() -> Seq<char> {
    "--autostart"@
}

/// Whether the program was restarted as administrator: the first argument
/// after the program's name says so.
pub fn is_admin_restart(args: &Vec<String>) -> (r: bool)
    ensures
        r == (args@.len() > 1 && args@[1]@ == admin_restart_flag()),
{
    args.len() > 1 && str_eq(args[1].as_str(), "--admin-restart")
}

/// Whether the program was started at logon: some argument says so.
pub fn is_autostart(args: &Vec<String>) -> (r: bool)
    ensures
        r == exists|i: int| 0 <= i < args@.len() && (#[trigger] args@[i])@ == autostart_flag(),
{
    let mut i: usize = 0;
    while i < args.len()
        invariant
            i <= args@.len(),
            forall|k: int| 0 <= k < i ==> (#[trigger] args@[k])@ != autostart_flag(),
        decreases args@.len() - i,
    {
        if str_eq(args[i].as_str(), "--autostart") {
            return true;
        }
        i += 1;
    }
    false
}

/// Whether the window is shown at startup: always, unless the program was
/// started at logon and the user wants it to start hidden.
pub fn should_show_window(is_autostart: bool, auto_minimize: bool) -> (r: bool)
    ensures
        r == (!is_autostart || !auto_minimize),
{
    !is_autostart || !auto_minimize
}

/// The title of the window for a version of the program.
pub fn window_title(version: &str) -> (r: String)
    ensures
        r@ == "AMDFreqGuard Version:"@ + version@,
{
    let mut title = "AMDFreqGuard Version:".to_owned();
    title = vstd::string::StringExecFns::concat(title, version);
    title
}

/// The folder of the task scheduler in which the logon task lives.
pub const AUTOSTART_FOLDER: &'static str = "JellowSoftware";

/// The name of the logon task.
pub const AUTOSTART_TASK_NAME: &'static str = "AMDFreqGuardAutoStart";

/// Seconds by which the logon task is delayed.
pub const AUTOSTART_DELAY_SECONDS: u64 = 10;

/// The account under which the logon task runs: the device's name, a
/// backslash, the user's name.
pub fn autostart_user_id(device_name: &str, user_name: &str) -> (r: String)
    ensures
        r@ == device_name@ + "\\"@ + user_name@,
{
    let id = device_name.to_owned();
    let id = vstd::string::StringExecFns::concat(id, "\\");
    vstd::string::StringExecFns::concat(id, user_name)
}

/// Whether the system let a program start: it answers with a number above 32
/// when it did.
pub fn shell_launch_succeeded(code: isize) -> (r: bool)
    ensures
        r == (code > 32),
{
    code > 32
}

} // verus!
