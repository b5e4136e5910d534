//! The record model of a processed crash and of a search, mirroring the remote
//! schema: every field beyond the identifier may be absent.
use vstd::prelude::*;
use crate::json::JsonValue;
use std::collections::HashMap;

verus! {

/// One stack frame; every field but the frame number may be missing where
/// symbolication was partial.
#[derive(Debug, PartialEq, Eq)]
pub struct StackFrame {
    pub frame: u32,
    pub function: Option<String>,
    pub file: Option<String>,
    pub line: Option<u32>,
    pub module: Option<String>,
    pub offset: Option<String>,
}

/// A copy of an optional text that is equal to it.
pub fn copy_text(t: &Option<String>) -> (r: Option<String>)
    ensures
        r == *t,
{
    match t {
        Some(s) => Some(s.clone()),
        None => None,
    }
}

impl Clone for StackFrame {
    fn clone(&self) -> (r: Self)
        ensures
            r == *self,
    {
        StackFrame {
            frame: self.frame,
            function: copy_text(&self.function),
            file: copy_text(&self.file),
            line: self.line,
            module: copy_text(&self.module),
            offset: copy_text(&self.offset),
        }
    }
}

/// The crash-info block: the kind of crash, the faulting address and the
/// index of the crashing thread.
#[derive(Debug)]
pub struct CrashInfo {
    pub crash_type: Option<String>,
    pub address: Option<String>,
    pub crashing_thread: Option<usize>,
}

/// One thread of the crashed process: its frames, innermost first.
#[derive(Debug)]
pub struct Thread {
    pub thread: Option<usize>,
    pub thread_name: Option<String>,
    pub frames: Vec<StackFrame>,
}

/// A processed crash as the remote service returns it. `json_dump` is the
/// extended payload, which may repeat the crashing-thread index, the thread
/// list and the crash-info block where the top level omits them.
#[derive(Debug)]
pub struct ProcessedCrash {
    pub uuid: String,
    pub signature: Option<String>,
    pub product: Option<String>,
    pub version: Option<String>,
    pub os_name: Option<String>,
    pub os_version: Option<String>,
    pub crash_info: Option<CrashInfo>,
    pub moz_crash_reason: Option<String>,
    pub abort_message: Option<String>,
    pub android_model: Option<String>,
    pub android_version: Option<String>,
    pub crashing_thread: Option<usize>,
    pub threads: Option<Vec<Thread>>,
    pub json_dump: Option<JsonValue>,
}

/// The answer to a search: the total count, one page of hits and, for each
/// facet asked for, its buckets in order.
#[derive(Debug)]
pub struct SearchResponse {
    pub total: u64,
    pub hits: Vec<CrashHit>,
    pub facets: HashMap<String, Vec<FacetBucket>>,
}

/// One crash found by a search.
#[derive(Debug)]
pub struct CrashHit {
    pub uuid: String,
    pub date: String,
    pub signature: String,
    pub product: String,
    pub version: String,
    pub os_name: Option<String>,
}

/// One term of a facet and how many crashes carry it.
#[derive(Debug)]
pub struct FacetBucket {
    pub term: String,
    pub count: u64,
}

/// The parameters of a search, handed to the transport as they are.
#[derive(Debug)]
pub struct SearchParams {
    pub signature: Option<String>,
    pub product: String,
    pub version: Option<String>,
    pub platform: Option<String>,
    pub days: u32,
    pub limit: usize,
    pub facets: Vec<String>,
    pub sort: String,
}

} // verus!
