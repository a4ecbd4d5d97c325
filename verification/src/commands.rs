//! Small requests from the windows: the proxy, and whose window is in front.

use vstd::prelude::*;
use vstd::string::StringExecFns;

verus! {

/// Environment variable: the proxy for HTTP.
pub const HTTP_PROXY: &'static str = "http_proxy";

/// Environment variable: the proxy for HTTPS.
pub const HTTPS_PROXY: &'static str = "https_proxy";

/// Environment variable: the proxy for everything else.
pub const ALL_PROXY: &'static str = "all_proxy";

/// Environment variable: the hosts that are reached without a proxy.
pub const NO_PROXY: &'static str = "no_proxy";

/// An environment variable and the value to give it.
#[derive(Debug)]
pub struct Assignment {
    pub name: &'static str,
    pub value: String,
}

/// The variables to set so that `proxy` is used but for the hosts `no_proxy`.
pub fn set_proxy(proxy: &str, no_proxy: &str) -> (r: Vec<Assignment>)
    ensures
        r@.len() == 4,
        r@[0].name@ == HTTP_PROXY@ && r@[0].value@ == proxy@,
        r@[1].name@ == HTTPS_PROXY@ && r@[1].value@ == proxy@,
        r@[2].name@ == ALL_PROXY@ && r@[2].value@ == proxy@,
        r@[3].name@ == NO_PROXY@ && r@[3].value@ == no_proxy@,
{
    let mut variables: Vec<Assignment> = Vec::new();
    variables.push(Assignment { name: HTTP_PROXY, value: String::from_str(proxy) });
    variables.push(Assignment { name: HTTPS_PROXY, value: String::from_str(proxy) });
    variables.push(Assignment { name: ALL_PROXY, value: String::from_str(proxy) });
    variables.push(Assignment { name: NO_PROXY, value: String::from_str(no_proxy) });
    variables
}

/// The variables to remove so that no proxy is used.
pub fn unset_proxy() -> (r: Vec<&'static str>)
    ensures
        r@.len() == 4,
        r@[0]@ == HTTP_PROXY@,
        r@[1]@ == HTTPS_PROXY@,
        r@[2]@ == ALL_PROXY@,
        r@[3]@ == NO_PROXY@,
{
    let mut names: Vec<&'static str> = Vec::new();
    names.push(HTTP_PROXY);
    names.push(HTTPS_PROXY);
    names.push(ALL_PROXY);
    names.push(NO_PROXY);
    names
}

/// Whether the window in front, which belongs to the process `window_pid`,
/// is one of the program's own, the program being the process `own_pid`.
/// Where no window could be made out, that is an error.
pub fn active_window_is_self(own_pid: u32, window_pid: Option<u64>) -> (r: Result<bool, ()>)
    ensures
        r == match window_pid {
            Some(pid) => Ok::<bool, ()>(own_pid as int == pid as int),
            None => Err::<bool, ()>(()),
        },
{
    match window_pid {
        Some(pid) => Ok(own_pid as u64 == pid),
        None => Err(()),
    }
}

} // verus!
