//! The extended payload of a crash record as a semi-structured value, and its
//! fallible decoding into the typed shapes of the record model. Decoding
//! follows the rules the remote schema is written in: a structure is read from
//! an object by field name (unknown fields ignored, absent optional fields
//! empty) or from an array holding every field in order; any value of the
//! wrong shape makes the whole decoding fail.
use vstd::prelude::*;
use crate::crash_id::{has_prefix, starts_with};
use crate::models::{CrashInfo, StackFrame, Thread};

verus! {

/// A semi-structured value. Numbers are kept as far as decoding reads them:
/// a non-negative integer, or some other number.
#[derive(Debug)]
pub enum JsonValue {
    Null,
    Bool(bool),
    Unsigned(u64),
    OtherNumber,
    Str(String),
    Array(Vec<JsonValue>),
    Object(Vec<(String, JsonValue)>),
}

/// The value stored under `key` among `entries`, the first one if several are.
pub open spec fn member(entries: Seq<(String, JsonValue)>, key: Seq<char>) -> Option<JsonValue>
    decreases entries.len(),
{
    if entries.len() == 0 {
        None
    } else if entries[0].0@ == key {
        Some(entries[0].1)
    } else {
        member(entries.drop_first(), key)
    }
}

/// The field `key` of `v`: nothing unless `v` is an object that holds it.
pub open spec fn field_of(v: JsonValue, key: Seq<char>) -> Option<JsonValue> {
    match v {
        JsonValue::Object(entries) => member(entries@, key),
        _ => None,
    }
}

/// The value that `r` refers to, if any.
pub open spec fn value_of(r: Option<&JsonValue>) -> Option<JsonValue> {
    match r {
        Some(x) => Some(*x),
        None => None,
    }
}

/// The field of a structure with `count` fields that is named `key` and stands
/// at `pos`: outer `None` when `v` cannot hold such a structure at all, inner
/// `None` when it holds no value for the field.
pub open spec fn struct_field(v: JsonValue, key: Seq<char>, pos: int, count: int) -> Option<
    Option<JsonValue>,
> {
    match v {
        JsonValue::Object(entries) => Some(member(entries@, key)),
        JsonValue::Array(items) => if items@.len() == count {
            Some(Some(items@[pos]))
        } else {
            None
        },
        _ => None,
    }
}

/// An optional text field: absent or null is empty, a string is kept.
pub open spec fn text_field(f: Option<JsonValue>) -> Option<Option<String>> {
    match f {
        None => Some(None),
        Some(JsonValue::Null) => Some(None),
        Some(JsonValue::Str(s)) => Some(Some(s)),
        _ => None,
    }
}

/// An optional `u32` field: absent or null is empty, an integer in range kept.
pub open spec fn u32_field(f: Option<JsonValue>) -> Option<Option<u32>> {
    match f {
        None => Some(None),
        Some(JsonValue::Null) => Some(None),
        Some(JsonValue::Unsigned(n)) => if n <= u32::MAX {
            Some(Some(n as u32))
        } else {
            None
        },
        _ => None,
    }
}

/// An optional `usize` field: absent or null is empty, an integer in range kept.
pub open spec fn usize_field(f: Option<JsonValue>) -> Option<Option<usize>> {
    match f {
        None => Some(None),
        Some(JsonValue::Null) => Some(None),
        Some(JsonValue::Unsigned(n)) => if n <= usize::MAX {
            Some(Some(n as usize))
        } else {
            None
        },
        _ => None,
    }
}

/// A `u32` field that is zero when absent.
pub open spec fn u32_or_zero(f: Option<JsonValue>) -> Option<u32> {
    match f {
        None => Some(0),
        Some(JsonValue::Unsigned(n)) => if n <= u32::MAX {
            Some(n as u32)
        } else {
            None
        },
        _ => None,
    }
}

/// A stack frame decoded from `v`.
pub open spec fn frame_of(v: JsonValue) -> Option<StackFrame> {
    let frame = struct_field(v, "frame"@, 0, 6);
    let function = struct_field(v, "function"@, 1, 6);
    let file = struct_field(v, "file"@, 2, 6);
    let line = struct_field(v, "line"@, 3, 6);
    let module = struct_field(v, "module"@, 4, 6);
    let offset = struct_field(v, "offset"@, 5, 6);
    if frame is Some && u32_or_zero(frame->0) is Some && text_field(function->0) is Some
        && text_field(file->0) is Some && u32_field(line->0) is Some && text_field(
        module->0,
    ) is Some && text_field(offset->0) is Some {
        Some(
            StackFrame {
                frame: u32_or_zero(frame->0)->0,
                function: text_field(function->0)->0,
                file: text_field(file->0)->0,
                line: u32_field(line->0)->0,
                module: text_field(module->0)->0,
                offset: text_field(offset->0)->0,
            },
        )
    } else {
        None
    }
}

/// A list of stack frames decoded from the items of an array.
pub open spec fn frames_of(items: Seq<JsonValue>) -> Option<Seq<StackFrame>> {
    if forall|i: int| 0 <= i < items.len() ==> (#[trigger] frame_of(items[i])) is Some {
        Some(items.map_values(|x: JsonValue| frame_of(x)->0))
    } else {
        None
    }
}

/// A required list of stack frames: present, and an array of frames.
pub open spec fn frame_list_field(f: Option<JsonValue>) -> Option<Seq<StackFrame>> {
    match f {
        Some(JsonValue::Array(items)) => frames_of(items@),
        _ => None,
    }
}

/// A thread decoded from `v`, with its frames in the order given.
pub open spec fn thread_of(v: JsonValue) -> Option<(Option<usize>, Option<String>, Seq<StackFrame>)> {
    let thread = struct_field(v, "thread"@, 0, 3);
    let name = struct_field(v, "thread_name"@, 1, 3);
    let frames = struct_field(v, "frames"@, 2, 3);
    if thread is Some && usize_field(thread->0) is Some && text_field(name->0) is Some
        && frame_list_field(frames->0) is Some {
        Some((usize_field(thread->0)->0, text_field(name->0)->0, frame_list_field(frames->0)->0))
    } else {
        None
    }
}

/// What a thread holds: its number, its name and its frames.
pub type ThreadModel = (Option<usize>, Option<String>, Seq<StackFrame>);

/// The model of a thread of the record.
pub open spec fn thread_model(t: Thread) -> ThreadModel {
    (t.thread, t.thread_name, t.frames@)
}

/// The models of a list of threads.
pub open spec fn thread_models(ts: Seq<Thread>) -> Seq<ThreadModel> {
    ts.map_values(|t: Thread| thread_model(t))
}

/// A list of threads decoded from `v`: an array whose items are all threads.
pub open spec fn threads_of(v: JsonValue) -> Option<Seq<ThreadModel>> {
    match v {
        JsonValue::Array(items) => if forall|i: int|
            0 <= i < items@.len() ==> (#[trigger] thread_of(items@[i])) is Some {
            Some(items@.map_values(|x: JsonValue| thread_of(x)->0))
        } else {
            None
        },
        _ => None,
    }
}

/// A crash-info block decoded from `v`.
pub open spec fn crash_info_of(v: JsonValue) -> Option<CrashInfo> {
    let crash_type = struct_field(v, "type"@, 0, 3);
    let address = struct_field(v, "address"@, 1, 3);
    let crashing = struct_field(v, "crashing_thread"@, 2, 3);
    if crash_type is Some && text_field(crash_type->0) is Some && text_field(address->0) is Some
        && usize_field(crashing->0) is Some {
        Some(
            CrashInfo {
                crash_type: text_field(crash_type->0)->0,
                address: text_field(address->0)->0,
                crashing_thread: usize_field(crashing->0)->0,
            },
        )
    } else {
        None
    }
}

fn same_text(a: &str, b: &str) -> (r: bool)
    ensures
        r == (a@ == b@),
{
    if a.unicode_len() != b.unicode_len() {
        return false;
    }
    let r = has_prefix(a, b);
    assert(a@.subrange(0, b@.len() as int) =~= a@);
    r
}

impl JsonValue {
    /// The field `key` of this value, if it is an object that holds one.
    pub fn get<'a>(&'a self, key: &str) -> (r: Option<&'a JsonValue>)
        ensures
            value_of(r) == field_of(*self, key@),
    {
        match self {
            JsonValue::Object(entries) => {
                assert(field_of(*self, key@) == member(entries@, key@));
                let mut i: usize = 0;
                assert(entries@.subrange(0, entries@.len() as int) =~= entries@);
                while i < entries.len()
                    invariant
                        field_of(*self, key@) == member(entries@, key@),
                        i <= entries@.len(),
                        member(entries@, key@) == member(entries@.subrange(i as int, entries@.len() as int), key@),
                    decreases entries@.len() - i,
                {
                    let ghost rest = entries@.subrange(i as int, entries@.len() as int);
                    assert(rest.drop_first() =~= entries@.subrange(i + 1, entries@.len() as int));
                    assert(rest[0] == entries@[i as int]);
                    if same_text(entries[i].0.as_str(), key) {
                        let found = &entries[i];
                        assert(member(rest, key@) == Some(found.1));
                        return Some(&found.1);
                    }
                    i = i + 1;
                }
                None
            },
            _ => None,
        }
    }
}

fn struct_field_at<'a>(v: &'a JsonValue, key: &str, pos: usize, count: usize) -> (r: Option<
    Option<&'a JsonValue>,
>)
    requires
        pos < count,
    ensures
        r is Some <==> struct_field(*v, key@, pos as int, count as int) is Some,
        r is Some ==> value_of(r->0) == struct_field(*v, key@, pos as int, count as int)->0,
{
    match v {
        JsonValue::Object(_) => Some(v.get(key)),
        JsonValue::Array(items) => if items.len() == count {
            Some(Some(&items[pos]))
        } else {
            None
        },
        _ => None,
    }
}

fn decode_text(f: Option<&JsonValue>) -> (r: Option<Option<String>>)
    ensures
        r == text_field(value_of(f)),
{
    match f {
        None => Some(None),
        Some(JsonValue::Null) => Some(None),
        Some(JsonValue::Str(s)) => Some(Some(s.clone())),
        _ => None,
    }
}

fn decode_u32(f: Option<&JsonValue>) -> (r: Option<Option<u32>>)
    ensures
        r == u32_field(value_of(f)),
{
    match f {
        None => Some(None),
        Some(JsonValue::Null) => Some(None),
        Some(JsonValue::Unsigned(n)) => if *n <= u32::MAX as u64 {
            Some(Some(*n as u32))
        } else {
            None
        },
        _ => None,
    }
}

fn decode_usize(f: Option<&JsonValue>) -> (r: Option<Option<usize>>)
    ensures
        r == usize_field(value_of(f)),
{
    match f {
        None => Some(None),
        Some(JsonValue::Null) => Some(None),
        Some(JsonValue::Unsigned(n)) => if *n as u128 <= usize::MAX as u128 {
            Some(Some(*n as usize))
        } else {
            None
        },
        _ => None,
    }
}

fn decode_u32_or_zero(f: Option<&JsonValue>) -> (r: Option<u32>)
    ensures
        r == u32_or_zero(value_of(f)),
{
    match f {
        None => Some(0),
        Some(JsonValue::Unsigned(n)) => if *n <= u32::MAX as u64 {
            Some(*n as u32)
        } else {
            None
        },
        _ => None,
    }
}

/// Decodes a stack frame; `None` when `v` does not have the shape of one.
pub fn decode_frame(v: &JsonValue) -> (r: Option<StackFrame>)
    ensures
        r == frame_of(*v),
{
    let frame = match struct_field_at(v, "frame", 0, 6) {
        Some(f) => f,
        None => return None,
    };
    let function = match struct_field_at(v, "function", 1, 6) {
        Some(f) => f,
        None => return None,
    };
    let file = match struct_field_at(v, "file", 2, 6) {
        Some(f) => f,
        None => return None,
    };
    let line = match struct_field_at(v, "line", 3, 6) {
        Some(f) => f,
        None => return None,
    };
    let module = match struct_field_at(v, "module", 4, 6) {
        Some(f) => f,
        None => return None,
    };
    let offset = match struct_field_at(v, "offset", 5, 6) {
        Some(f) => f,
        None => return None,
    };
    let frame = match decode_u32_or_zero(frame) {
        Some(x) => x,
        None => return None,
    };
    let function = match decode_text(function) {
        Some(x) => x,
        None => return None,
    };
    let file = match decode_text(file) {
        Some(x) => x,
        None => return None,
    };
    let line = match decode_u32(line) {
        Some(x) => x,
        None => return None,
    };
    let module = match decode_text(module) {
        Some(x) => x,
        None => return None,
    };
    let offset = match decode_text(offset) {
        Some(x) => x,
        None => return None,
    };
    Some(StackFrame { frame, function, file, line, module, offset })
}

/// Decodes the items of an array as stack frames; `None` when one of them
/// does not have the shape of one.
pub fn decode_frames(items: &Vec<JsonValue>) -> (r: Option<Vec<StackFrame>>)
    ensures
        match r {
            Some(fs) => frames_of(items@) == Some(fs@),
            None => frames_of(items@) is None,
        },
{
    let mut out: Vec<StackFrame> = Vec::new();
    let mut i: usize = 0;
    while i < items.len()
        invariant
            i <= items@.len(),
            forall|k: int| 0 <= k < i ==> (#[trigger] frame_of(items@[k])) is Some,
            out@ == items@.subrange(0, i as int).map_values(|x: JsonValue| frame_of(x)->0),
        decreases items@.len() - i,
    {
        match decode_frame(&items[i]) {
            Some(f) => {
                out.push(f);
            },
            None => {
                assert(frame_of(items@[i as int]) is None);
                return None;
            },
        }
        assert(items@.subrange(0, i + 1).map_values(|x: JsonValue| frame_of(x)->0) =~= out@);
        i = i + 1;
    }
    assert(items@.subrange(0, i as int) =~= items@);
    Some(out)
}

fn decode_frame_list(f: Option<&JsonValue>) -> (r: Option<Vec<StackFrame>>)
    ensures
        match r {
            Some(fs) => frame_list_field(value_of(f)) == Some(fs@),
            None => frame_list_field(value_of(f)) is None,
        },
{
    match f {
        Some(JsonValue::Array(items)) => decode_frames(items),
        _ => None,
    }
}

/// Decodes a thread; `None` when `v` does not have the shape of one.
pub fn decode_thread(v: &JsonValue) -> (r: Option<Thread>)
    ensures
        match r {
            Some(t) => thread_of(*v) == Some(thread_model(t)),
            None => thread_of(*v) is None,
        },
{
    let thread = match struct_field_at(v, "thread", 0, 3) {
        Some(f) => f,
        None => return None,
    };
    let name = match struct_field_at(v, "thread_name", 1, 3) {
        Some(f) => f,
        None => return None,
    };
    let frames = match struct_field_at(v, "frames", 2, 3) {
        Some(f) => f,
        None => return None,
    };
    let thread = match decode_usize(thread) {
        Some(x) => x,
        None => return None,
    };
    let thread_name = match decode_text(name) {
        Some(x) => x,
        None => return None,
    };
    let frames = match decode_frame_list(frames) {
        Some(x) => x,
        None => return None,
    };
    Some(Thread { thread, thread_name, frames })
}

/// Decodes a list of threads; `None` when `v` is not an array of threads.
pub fn decode_threads(v: &JsonValue) -> (r: Option<Vec<Thread>>)
    ensures
        match r {
            Some(ts) => threads_of(*v) == Some(thread_models(ts@)),
            None => threads_of(*v) is None,
        },
{
    let items = match v {
        JsonValue::Array(items) => items,
        _ => return None,
    };
    let mut out: Vec<Thread> = Vec::new();
    let mut i: usize = 0;
    while i < items.len()
        invariant
            *v == JsonValue::Array(*items),
            i <= items@.len(),
            forall|k: int| 0 <= k < i ==> (#[trigger] thread_of(items@[k])) is Some,
            out@.len() == i,
            forall|k: int|
                0 <= k < i ==> thread_model(#[trigger] out@[k]) == thread_of(items@[k])->0,
        decreases items@.len() - i,
    {
        match decode_thread(&items[i]) {
            Some(t) => {
                out.push(t);
            },
            None => {
                assert(thread_of(items@[i as int]) is None);
                return None;
            },
        }
        i = i + 1;
    }
    assert(thread_models(out@) =~= items@.map_values(|x: JsonValue| thread_of(x)->0));
    Some(out)
}

/// Decodes a crash-info block; `None` when `v` does not have the shape of one.
pub fn decode_crash_info(v: &JsonValue) -> (r: Option<CrashInfo>)
    ensures
        r == crash_info_of(*v),
{
    let crash_type = match struct_field_at(v, "type", 0, 3) {
        Some(f) => f,
        None => return None,
    };
    let address = match struct_field_at(v, "address", 1, 3) {
        Some(f) => f,
        None => return None,
    };
    let crashing = match struct_field_at(v, "crashing_thread", 2, 3) {
        Some(f) => f,
        None => return None,
    };
    let crash_type = match decode_text(crash_type) {
        Some(x) => x,
        None => return None,
    };
    let address = match decode_text(address) {
        Some(x) => x,
        None => return None,
    };
    let crashing_thread = match decode_usize(crashing) {
        Some(x) => x,
        None => return None,
    };
    Some(CrashInfo { crash_type, address, crashing_thread })
}

} // verus!
