//! Reports about the container daemon.
use vstd::prelude::*;
use crate::text::{chars_of, string_of};

verus! {

broadcast use vstd::string::group_string_axioms;

/// Whether the container daemon can be used.
#[derive(Debug)]
pub struct DockerStatus {
    pub available: bool,
    pub running: bool,
    pub error: Option<String>,
}

/// Version and counts reported by the container daemon.
#[derive(Debug)]
pub struct DockerInfo {
    pub version: String,
    pub api_version: String,
    pub os: String,
    pub arch: String,
    pub containers_running: u64,
    pub containers_total: u64,
    pub images: u64,
}

fn prefixed(prefix: &str, e: &String) -> (r: String)
    ensures
        r@ == prefix@ + e@,
{
    let mut v = chars_of(prefix);
    crate::text::append_chars(&mut v, &chars_of(e.as_str()));
    string_of(&v)
}

/// The daemon's status from the outcome of connecting and, once connected, of a ping.
pub fn docker_status(connected: Result<(), String>, ping: Option<Result<(), String>>) -> (r: DockerStatus)
    ensures
        r.available == connected is Ok,
        r.running == (connected is Ok && ping.is_some() && ping.unwrap() is Ok),
        connected is Err ==> r.error.is_some() && r.error.unwrap()@ == "Docker not available: "@ + connected->Err_0@,
        connected is Ok && ping.is_some() && ping.unwrap() is Err ==> r.error.is_some()
            && r.error.unwrap()@ == "Docker not responding: "@ + ping.unwrap()->Err_0@,
        r.running ==> r.error.is_none(),
{
    match connected {
        Err(e) => DockerStatus {
            available: false,
            running: false,
            error: Some(prefixed("Docker not available: ", &e)),
        },
        Ok(()) => match ping {
            Some(Ok(())) => DockerStatus { available: true, running: true, error: None },
            Some(Err(e)) => DockerStatus {
                available: true,
                running: false,
                error: Some(prefixed("Docker not responding: ", &e)),
            },
            None => DockerStatus { available: true, running: false, error: None },
        },
    }
}

/// A count the daemon reported, zero when it reported none.
pub open spec fn count_of(n: Option<i64>) -> u64 {
    match n {
        Some(x) => if x >= 0 { x as u64 } else { 0 },
        None => 0,
    }
}

fn count(n: Option<i64>) -> (r: u64)
    ensures
        r == count_of(n),
{
    match n {
        Some(x) => if x >= 0 { x as u64 } else { 0 },
        None => 0,
    }
}

fn text_or_empty(s: Option<String>) -> (r: String)
    ensures
        r@ == match s { Some(t) => t@, None => Seq::<char>::empty() },
{
    match s {
        Some(t) => t,
        None => String::new(),
    }
}

/// The daemon's report, with missing texts empty and missing counts zero.
pub fn docker_info(
    version: Option<String>,
    api_version: Option<String>,
    os: Option<String>,
    arch: Option<String>,
    containers_running: Option<i64>,
    containers_total: Option<i64>,
    images: Option<i64>,
) -> (r: DockerInfo)
    ensures
        r.version@ == match version { Some(t) => t@, None => Seq::<char>::empty() },
        r.api_version@ == match api_version { Some(t) => t@, None => Seq::<char>::empty() },
        r.os@ == match os { Some(t) => t@, None => Seq::<char>::empty() },
        r.arch@ == match arch { Some(t) => t@, None => Seq::<char>::empty() },
        r.containers_running == count_of(containers_running),
        r.containers_total == count_of(containers_total),
        r.images == count_of(images),
{
    DockerInfo {
        version: text_or_empty(version),
        api_version: text_or_empty(api_version),
        os: text_or_empty(os),
        arch: text_or_empty(arch),
        containers_running: count(containers_running),
        containers_total: count(containers_total),
        images: count(images),
    }
}

} // verus!
