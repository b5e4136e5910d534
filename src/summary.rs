//! Summarization of a processed crash: fallback resolution of the crashing
//! thread, the thread list and the crash-info block, frame truncation, and
//! per-thread aggregation.
use vstd::prelude::*;
use vstd::string::*;
use crate::json::{
    crash_info_of, decode_crash_info, decode_threads, field_of, thread_models, threads_of,
    JsonValue, ThreadModel,
};
use crate::models::{copy_text, CrashInfo, ProcessedCrash, StackFrame, Thread};

verus! {

/// One thread of a summary with its frames truncated.
#[derive(Debug)]
pub struct ThreadSummary {
    pub thread_index: usize,
    pub thread_name: Option<String>,
    pub frames: Vec<StackFrame>,
    pub is_crashing: bool,
}

/// A display-ready projection of a processed crash, with every fallback
/// resolved and every frame list truncated.
#[derive(Debug)]
pub struct CrashSummary {
    pub crash_id: String,
    pub signature: String,
    pub reason: Option<String>,
    pub address: Option<String>,
    pub moz_crash_reason: Option<String>,
    pub abort_message: Option<String>,
    pub product: String,
    pub version: String,
    pub platform: String,
    pub android_version: Option<String>,
    pub android_model: Option<String>,
    pub crashing_thread_name: Option<String>,
    pub frames: Vec<StackFrame>,
    pub all_threads: Vec<ThreadSummary>,
}

/// The first of two sources that holds a value.
pub open spec fn first_present<T>(a: Option<T>, b: Option<T>) -> Option<T> {
    if a is Some {
        a
    } else {
        b
    }
}

/// The crashing-thread index that the top-level crash-info block gives.
pub open spec fn crash_info_crashing_thread(c: ProcessedCrash) -> Option<usize> {
    match c.crash_info {
        Some(ci) => ci.crashing_thread,
        None => None,
    }
}

/// The crashing-thread index that the extended payload gives: its field
/// `crashing_thread`, when that is a non-negative integer.
pub open spec fn extended_crashing_thread(c: ProcessedCrash) -> Option<usize> {
    match c.json_dump {
        Some(jd) => match field_of(jd, "crashing_thread"@) {
            Some(JsonValue::Unsigned(n)) => Some(n as usize),
            _ => None,
        },
        None => None,
    }
}

/// The crashing-thread index: the top-level field, else the crash-info
/// block's, else the extended payload's.
pub open spec fn resolved_crashing_thread(c: ProcessedCrash) -> Option<usize> {
    first_present(
        c.crashing_thread,
        first_present(crash_info_crashing_thread(c), extended_crashing_thread(c)),
    )
}

/// The thread list that the extended payload gives, when its field `threads`
/// decodes as one.
pub open spec fn extended_threads(c: ProcessedCrash) -> Option<Seq<ThreadModel>> {
    match c.json_dump {
        Some(jd) => match field_of(jd, "threads"@) {
            Some(v) => threads_of(v),
            None => None,
        },
        None => None,
    }
}

/// The thread list: the top-level one, else the extended payload's.
pub open spec fn resolved_threads(c: ProcessedCrash) -> Option<Seq<ThreadModel>> {
    match c.threads {
        Some(ts) => Some(thread_models(ts@)),
        None => extended_threads(c),
    }
}

/// The crash-info block that the extended payload gives, when its field
/// `crash_info` decodes as one.
pub open spec fn extended_crash_info(c: ProcessedCrash) -> Option<CrashInfo> {
    match c.json_dump {
        Some(jd) => match field_of(jd, "crash_info"@) {
            Some(v) => crash_info_of(v),
            None => None,
        },
        None => None,
    }
}

/// The crash-info block: the top-level one, else the extended payload's.
pub open spec fn resolved_crash_info(c: ProcessedCrash) -> Option<CrashInfo> {
    first_present(c.crash_info, extended_crash_info(c))
}

/// The thread that crashed: the one at the resolved index of the resolved
/// thread list, when both exist and the index is in range.
pub open spec fn crashing_thread_of(c: ProcessedCrash) -> Option<ThreadModel> {
    match (resolved_threads(c), resolved_crashing_thread(c)) {
        (Some(ts), Some(i)) => if i < ts.len() {
            Some(ts[i as int])
        } else {
            None
        },
        _ => None,
    }
}

/// The first `depth` frames, in their order.
pub open spec fn truncated(frames: Seq<StackFrame>, depth: usize) -> Seq<StackFrame> {
    if frames.len() <= depth {
        frames
    } else {
        frames.take(depth as int)
    }
}

/// A text, or the sentinel `Unknown` when it is absent.
pub open spec fn or_unknown(t: Option<String>) -> Seq<char> {
    match t {
        Some(s) => s@,
        None => "Unknown"@,
    }
}

/// The platform: the OS name (or `Unknown`), then a space and the OS version
/// when there is one.
pub open spec fn platform_of(os_name: Option<String>, os_version: Option<String>) -> Seq<char> {
    or_unknown(os_name) + match os_version {
        Some(v) => " "@ + v@,
        None => Seq::<char>::empty(),
    }
}

/// Whether `s` summarizes the thread `t` found at `index`, given the
/// resolved crashing-thread index.
pub open spec fn summarizes_thread(
    s: ThreadSummary,
    t: ThreadModel,
    index: int,
    depth: usize,
    crashing: Option<usize>,
) -> bool {
    &&& s.thread_index == index
    &&& s.thread_name == t.1
    &&& s.frames@ == truncated(t.2, depth)
    &&& s.is_crashing == (crashing == Some(index as usize))
}

/// Whether `s` is the summary of `c` with `depth` frames per thread and, when
/// `all_threads` holds, every thread listed.
pub open spec fn is_summary_of(s: CrashSummary, c: ProcessedCrash, depth: usize, all_threads: bool) -> bool {
    &&& s.crash_id == c.uuid
    &&& s.signature@ == or_unknown(c.signature)
    &&& s.reason == match resolved_crash_info(c) {
        Some(ci) => ci.crash_type,
        None => None,
    }
    &&& s.address == match resolved_crash_info(c) {
        Some(ci) => ci.address,
        None => None,
    }
    &&& s.moz_crash_reason == c.moz_crash_reason
    &&& s.abort_message == c.abort_message
    &&& s.product@ == or_unknown(c.product)
    &&& s.version@ == or_unknown(c.version)
    &&& s.platform@ == platform_of(c.os_name, c.os_version)
    &&& s.android_version == c.android_version
    &&& s.android_model == c.android_model
    &&& match crashing_thread_of(c) {
        Some(t) => s.crashing_thread_name == t.1 && s.frames@ == truncated(t.2, depth),
        None => s.crashing_thread_name is None && s.frames@.len() == 0,
    }
    &&& match resolved_threads(c) {
        Some(ts) if all_threads => s.all_threads@.len() == ts.len() && forall|i: int|
            0 <= i < ts.len() ==> summarizes_thread(
                #[trigger] s.all_threads@[i],
                ts[i],
                i,
                depth,
                resolved_crashing_thread(c),
            ),
        _ => s.all_threads@.len() == 0,
    }
}

/// Copies the first `depth` frames of `frames`, in order.
pub fn take_frames(frames: &Vec<StackFrame>, depth: usize) -> (r: Vec<StackFrame>)
    ensures
        r@ == truncated(frames@, depth),
        r@.len() == if depth < frames@.len() {
            depth as int
        } else {
            frames@.len() as int
        },
{
    let n = if depth < frames.len() {
        depth
    } else {
        frames.len()
    };
    let mut out: Vec<StackFrame> = Vec::new();
    let mut i: usize = 0;
    while i < n
        invariant
            n <= frames@.len(),
            i <= n,
            out@ == frames@.take(i as int),
        decreases n - i,
    {
        out.push(frames[i].clone());
        assert(out@ =~= frames@.take(i + 1));
        i = i + 1;
    }
    assert(frames@.take(n as int) =~= truncated(frames@, depth));
    out
}

/// The name, truncated frames and per-thread summaries taken from `threads`.
fn summarize_threads(
    threads: &Vec<Thread>,
    crashing: Option<usize>,
    depth: usize,
    all_threads: bool,
) -> (r: (Option<String>, Vec<StackFrame>, Vec<ThreadSummary>))
    ensures
        ({
            let ts = thread_models(threads@);
            &&& match crashing {
                Some(i) if i < ts.len() => r.0 == ts[i as int].1 && r.1@ == truncated(
                    ts[i as int].2,
                    depth,
                ),
                _ => r.0 is None && r.1@.len() == 0,
            }
            &&& if all_threads {
                r.2@.len() == ts.len() && forall|i: int|
                    0 <= i < ts.len() ==> summarizes_thread(
                        #[trigger] r.2@[i],
                        ts[i],
                        i,
                        depth,
                        crashing,
                    )
            } else {
                r.2@.len() == 0
            }
        }),
{
    let ghost ts = thread_models(threads@);
    let mut summaries: Vec<ThreadSummary> = Vec::new();
    if all_threads {
        let mut i: usize = 0;
        while i < threads.len()
            invariant
                ts == thread_models(threads@),
                i <= threads@.len(),
                summaries@.len() == i,
                forall|k: int|
                    0 <= k < i ==> summarizes_thread(
                        #[trigger] summaries@[k],
                        ts[k],
                        k,
                        depth,
                        crashing,
                    ),
            decreases threads@.len() - i,
        {
            let thread = &threads[i];
            let is_crashing = match crashing {
                Some(c) => c == i,
                None => false,
            };
            summaries.push(
                ThreadSummary {
                    thread_index: i,
                    thread_name: copy_text(&thread.thread_name),
                    frames: take_frames(&thread.frames, depth),
                    is_crashing,
                },
            );
            i = i + 1;
        }
    }
    match crashing {
        Some(idx) => if idx < threads.len() {
            let thread = &threads[idx];
            (copy_text(&thread.thread_name), take_frames(&thread.frames, depth), summaries)
        } else {
            (None, Vec::new(), summaries)
        },
        None => (None, Vec::new(), summaries),
    }
}

fn crash_info_text(ci: &CrashInfo) -> (r: (Option<String>, Option<String>))
    ensures
        r.0 == ci.crash_type,
        r.1 == ci.address,
{
    (copy_text(&ci.crash_type), copy_text(&ci.address))
}

fn text_or_unknown(t: &Option<String>) -> (r: String)
    ensures
        r@ == or_unknown(*t),
{
    match t {
        Some(s) => s.clone(),
        None => "Unknown".to_owned(),
    }
}

impl ProcessedCrash {
    /// The crashing-thread index: the top-level field, else the crash-info
    /// block's, else the extended payload's; the first present one wins, in
    /// range or not.
    pub fn resolve_crashing_thread(&self) -> (r: Option<usize>)
        ensures
            r == resolved_crashing_thread(*self),
    {
        if let Some(i) = self.crashing_thread {
            return Some(i);
        }
        if let Some(ci) = &self.crash_info {
            if let Some(i) = ci.crashing_thread {
                return Some(i);
            }
        }
        match &self.json_dump {
            Some(jd) => match jd.get("crashing_thread") {
                Some(JsonValue::Unsigned(n)) => Some(*n as usize),
                _ => None,
            },
            None => None,
        }
    }

    /// Summarizes this crash, keeping at most `depth` frames of each thread
    /// and listing every thread when `all_threads` holds. Never fails: missing
    /// data becomes absent fields, empty lists or the `Unknown` sentinel.
    pub fn to_summary(&self, depth: usize, all_threads: bool) -> (r: CrashSummary)
        ensures
            is_summary_of(r, *self, depth, all_threads),
    {
        let crashing = self.resolve_crashing_thread();
        let (thread_name, frames, thread_summaries) = match &self.threads {
            Some(ts) => summarize_threads(ts, crashing, depth, all_threads),
            None => {
                let decoded: Option<Vec<Thread>> = match &self.json_dump {
                    Some(jd) => match jd.get("threads") {
                        Some(v) => decode_threads(v),
                        None => None,
                    },
                    None => None,
                };
                match &decoded {
                    Some(ts) => summarize_threads(ts, crashing, depth, all_threads),
                    None => (None, Vec::new(), Vec::new()),
                }
            },
        };
        let (reason, address) = match &self.crash_info {
            Some(ci) => crash_info_text(ci),
            None => {
                let decoded: Option<CrashInfo> = match &self.json_dump {
                    Some(jd) => match jd.get("crash_info") {
                        Some(v) => decode_crash_info(v),
                        None => None,
                    },
                    None => None,
                };
                match &decoded {
                    Some(ci) => crash_info_text(ci),
                    None => (None, None),
                }
            },
        };
        let mut platform = text_or_unknown(&self.os_name);
        if let Some(v) = &self.os_version {
            platform.append(" ");
            platform.append(v.as_str());
        }
        let r = CrashSummary {
            crash_id: self.uuid.clone(),
            signature: text_or_unknown(&self.signature),
            reason,
            address,
            moz_crash_reason: copy_text(&self.moz_crash_reason),
            abort_message: copy_text(&self.abort_message),
            product: text_or_unknown(&self.product),
            version: text_or_unknown(&self.version),
            platform,
            android_version: copy_text(&self.android_version),
            android_model: copy_text(&self.android_model),
            crashing_thread_name: thread_name,
            frames,
            all_threads: thread_summaries,
        };
        assert(r.platform@ == platform_of(self.os_name, self.os_version));
        assert(r.reason == match resolved_crash_info(*self) { Some(ci) => ci.crash_type, None => None });
        assert(r.address == match resolved_crash_info(*self) { Some(ci) => ci.address, None => None });
        assert(match crashing_thread_of(*self) {
            Some(t) => r.crashing_thread_name == t.1 && r.frames@ == truncated(t.2, depth),
            None => r.crashing_thread_name is None && r.frames@.len() == 0,
        });
        r
    }
}

impl Clone for ThreadSummary {
    fn clone(&self) -> (r: Self)
        ensures
            r.thread_index == self.thread_index,
            r.thread_name == self.thread_name,
            r.frames@ == self.frames@,
            r.is_crashing == self.is_crashing,
    {
        ThreadSummary {
            thread_index: self.thread_index,
            thread_name: copy_text(&self.thread_name),
            frames: take_frames(&self.frames, self.frames.len()),
            is_crashing: self.is_crashing,
        }
    }
}

/// Whether two thread summaries hold the same values.
pub open spec fn same_thread_summary(a: ThreadSummary, b: ThreadSummary) -> bool {
    &&& a.thread_index == b.thread_index
    &&& a.thread_name == b.thread_name
    &&& a.frames@ == b.frames@
    &&& a.is_crashing == b.is_crashing
}

/// Whether two summaries hold the same values, field by field and thread by
/// thread.
pub open spec fn same_summary(a: CrashSummary, b: CrashSummary) -> bool {
    &&& a.crash_id == b.crash_id
    &&& a.signature@ == b.signature@
    &&& a.reason == b.reason
    &&& a.address == b.address
    &&& a.moz_crash_reason == b.moz_crash_reason
    &&& a.abort_message == b.abort_message
    &&& a.product@ == b.product@
    &&& a.version@ == b.version@
    &&& a.platform@ == b.platform@
    &&& a.android_version == b.android_version
    &&& a.android_model == b.android_model
    &&& a.crashing_thread_name == b.crashing_thread_name
    &&& a.frames@ == b.frames@
    &&& a.all_threads@.len() == b.all_threads@.len()
    &&& forall|i: int|
        0 <= i < a.all_threads@.len() ==> same_thread_summary(
            #[trigger] a.all_threads@[i],
            b.all_threads@[i],
        )
}

/// A record that gives no crashing-thread index at the top level, has no
/// crash-info block and no extended payload summarizes with no crashing-thread
/// name, no frames and no per-thread entries. The per-thread list is the one
/// exception: asked for on a record whose top-level thread list is not empty,
/// it lists those threads.
pub proof fn lemma_nothing_to_resolve(
    c: ProcessedCrash,
    depth: usize,
    all_threads: bool,
    s: CrashSummary,
)
    requires
        is_summary_of(s, c, depth, all_threads),
        c.crashing_thread is None,
        c.crash_info is None,
        c.json_dump is None,
        !(all_threads && c.threads is Some && c.threads->0@.len() > 0),
    ensures
        s.crashing_thread_name is None,
        s.frames@.len() == 0,
        s.all_threads@.len() == 0,
{
}

/// A crashing-thread index given at the top level is the one resolved,
/// whatever the crash-info block or the extended payload say.
pub proof fn lemma_top_level_index_wins(c: ProcessedCrash, i: usize)
    requires
        c.crashing_thread == Some(i),
    ensures
        resolved_crashing_thread(c) == Some(i),
        crashing_thread_of(c) == match resolved_threads(c) {
            Some(ts) => if i < ts.len() {
                Some(ts[i as int])
            } else {
                None
            },
            None => None,
        },
{
}

/// Truncating `n` frames to a depth `d` keeps `min(d, n)` of them, the first
/// ones, in their order.
pub proof fn lemma_truncated_frames(frames: Seq<StackFrame>, d: usize)
    ensures
        truncated(frames, d).len() == if d < frames.len() {
            d as int
        } else {
            frames.len() as int
        },
        forall|k: int|
            0 <= k < truncated(frames, d).len() ==> #[trigger] truncated(frames, d)[k]
                == frames[k],
{
}

/// Without the all-threads flag the per-thread list is empty, even where a
/// crashing thread was resolved.
pub proof fn lemma_no_thread_list_unless_asked(c: ProcessedCrash, depth: usize, s: CrashSummary)
    requires
        is_summary_of(s, c, depth, false),
    ensures
        s.all_threads@.len() == 0,
{
}

/// Summarizing one record twice with the same depth and flag gives summaries
/// that hold the same values.
pub proof fn lemma_summary_deterministic(
    c: ProcessedCrash,
    depth: usize,
    all_threads: bool,
    a: CrashSummary,
    b: CrashSummary,
)
    requires
        is_summary_of(a, c, depth, all_threads),
        is_summary_of(b, c, depth, all_threads),
    ensures
        same_summary(a, b),
{
    if crashing_thread_of(c) is None {
        assert(a.frames@ =~= b.frames@);
    }
    assert forall|i: int| 0 <= i < a.all_threads@.len() implies same_thread_summary(
        #[trigger] a.all_threads@[i],
        b.all_threads@[i],
    ) by {
        let ts = resolved_threads(c)->0;
        assert(summarizes_thread(a.all_threads@[i], ts[i], i, depth, resolved_crashing_thread(c)));
        assert(summarizes_thread(b.all_threads@[i], ts[i], i, depth, resolved_crashing_thread(c)));
    }
}

} // verus!
