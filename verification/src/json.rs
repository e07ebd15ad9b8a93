//! The inbound half of the wire protocol: reading incoming messages out of
//! parsed JSON values and routing them.
//!
//! A JSON value is opaque to the proofs here — only the trusted accessors
//! below look inside one, and what each accessor extracts is given a name
//! (the member under a key, a string's characters, a number, an array's
//! elements). Everything above the accessors is stated exactly over those
//! names: what classifies as a response or a notification, when a line, an
//! op or a whole update parses and what typed values come out, where each
//! method routes, and what happens to the pending-request table.

use vstd::prelude::*;
use crate::edit_view::EditViewCommands;
use crate::linecache::{Line, Op, Update};
use crate::protocol::str_eq;
use crate::rpc::{Core, PendingRequest};

verus! {

/// serde_json's JSON value type, declared so values of it can be held in
/// fields and passed through.
#[verifier::external_type_specification]
#[verifier::external_body]
pub struct ExValue(serde_json::Value);

/// The member a JSON value holds under a key: `Some` exactly when the
/// value is an object with that key.
pub uninterp spec fn json_member(v: serde_json::Value, key: Seq<char>) -> Option<serde_json::Value>;

/// The characters a JSON value holds: `Some` exactly when it is a string.
pub uninterp spec fn json_string_content(v: serde_json::Value) -> Option<Seq<char>>;

/// The number a JSON value holds: `Some` exactly when it is an integer
/// that an unsigned 64-bit number can hold.
pub uninterp spec fn json_u64_content(v: serde_json::Value) -> Option<u64>;

/// The elements a JSON value holds: `Some` exactly when it is an array.
pub uninterp spec fn json_elements(v: serde_json::Value) -> Option<Seq<serde_json::Value>>;

/// Relies on serde_json::Value::get with a string index: the member under
/// the key, when the value is an object that has one.
#[verifier::external_body]
fn json_get(v: &serde_json::Value, key: &str) -> (r: Option<serde_json::Value>)
    ensures
        r == json_member(*v, key@),
{
    v.get(key).cloned()
}

/// Relies on serde_json::Value::as_str: the content, when the value is a
/// string.
#[verifier::external_body]
fn json_as_string(v: &serde_json::Value) -> (r: Option<String>)
    ensures
        match r {
            Some(s) => json_string_content(*v) == Some(s@),
            None => json_string_content(*v) is None,
        },
{
    v.as_str().map(|s| s.to_owned())
}

/// Relies on serde_json::Value::as_u64: the number, when the value is an
/// integer that an unsigned 64-bit number can hold.
#[verifier::external_body]
fn json_as_u64(v: &serde_json::Value) -> (r: Option<u64>)
    ensures
        r == json_u64_content(*v),
{
    v.as_u64()
}

/// Relies on serde_json::Value::as_array: the elements, when the value is
/// an array.
#[verifier::external_body]
fn json_as_array(v: &serde_json::Value) -> (r: Option<Vec<serde_json::Value>>)
    ensures
        match r {
            Some(a) => json_elements(*v) == Some(a@),
            None => json_elements(*v) is None,
        },
{
    v.as_array().cloned()
}

/// A u64 read from the wire, narrowed to a line count the cache can hold.
fn fit_usize(n: u64) -> (r: Option<usize>)
    ensures
        r matches Some(m) ==> m == n,
        r is None <==> n > usize::MAX as u64,
{
    if n > usize::MAX as u64 {
        None
    } else {
        Some(n as usize)
    }
}

/// The string content of a member, when both the member and the content
/// exist.
pub open spec fn member_string(v: serde_json::Value, key: Seq<char>) -> Option<Seq<char>> {
    match json_member(v, key) {
        Some(m) => json_string_content(m),
        None => None,
    }
}

/// Every cursor element is an offset a usize can hold.
pub open spec fn cursor_elements_ok(es: Seq<serde_json::Value>) -> bool {
    forall|i: int|
        0 <= i < es.len() ==> ((#[trigger] json_u64_content(es[i])) matches Some(o) && o
            <= usize::MAX)
}

/// A line record parses: its `text` member is a string, and its `cursor`
/// member, when it is an array, holds offsets a usize can hold.
pub open spec fn line_parse_ok(v: serde_json::Value) -> bool {
    &&& member_string(v, ("text")@) is Some
    &&& match json_member(v, ("cursor")@) {
        Some(cv) => match json_elements(cv) {
            Some(es) => cursor_elements_ok(es),
            None => true,
        },
        None => true,
    }
}

/// The line `l` is what the record `v` describes: the text equals the
/// `text` member's string, and the caret offsets equal the `cursor`
/// elements in order — none, when there is no cursor array.
pub open spec fn line_matches(v: serde_json::Value, l: Line) -> bool {
    &&& member_string(v, ("text")@) == Some(l.text_spec())
    &&& match json_member(v, ("cursor")@) {
        Some(cv) => match json_elements(cv) {
            Some(es) => l.cursor_spec().len() == es.len() && forall|i: int|
                0 <= i < es.len() ==> json_u64_content(#[trigger] es[i]) == Some(
                    l.cursor_spec()[i] as u64,
                ),
            None => l.cursor_spec() == Seq::<usize>::empty(),
        },
        None => l.cursor_spec() == Seq::<usize>::empty(),
    }
}

impl Line {
    /// Read one line record of an `update` notification: its `text` and its
    /// optional `cursor` offsets. `None` on a record without a text string
    /// or with a malformed cursor list; a missing or non-array `cursor`
    /// member simply means no carets.
    pub fn from_json(v: &serde_json::Value) -> (r: Option<Line>)
        ensures
            r is Some <==> line_parse_ok(*v),
            r matches Some(l) ==> line_matches(*v, l),
    {
        let text = match json_get(v, "text") {
            Some(tv) => match json_as_string(&tv) {
                Some(t) => t,
                None => {
                    return None;
                },
            },
            None => {
                return None;
            },
        };
        let mut cursor: Vec<usize> = Vec::new();
        if let Some(cv) = json_get(v, "cursor") {
            if let Some(arr) = json_as_array(&cv) {
                let ghost es = arr@;
                let mut i: usize = 0;
                let n = arr.len();
                while i < n
                    invariant
                        i <= n,
                        n == arr.len(),
                        arr@ == es,
                        member_string(*v, ("text")@) == Some(text@),
                        json_member(*v, ("cursor")@) matches Some(cval) && json_elements(cval)
                            == Some(es),
                        cursor@.len() == i,
                        forall|j: int|
                            0 <= j < i ==> json_u64_content(#[trigger] es[j]) == Some(
                                cursor@[j] as u64,
                            ),
                    decreases n - i,
                {
                    let off = match json_as_u64(&arr[i]) {
                        Some(o) => o,
                        None => {
                            proof {
                                assert(!cursor_elements_ok(es));
                            }
                            return None;
                        },
                    };
                    let off = match fit_usize(off) {
                        Some(o) => o,
                        None => {
                            proof {
                                assert(!cursor_elements_ok(es));
                            }
                            return None;
                        },
                    };
                    cursor.push(off);
                    i = i + 1;
                }
            }
        }
        Some(Line::new(text, cursor))
    }
}

/// The op name of an op element.
pub open spec fn op_name_of(v: serde_json::Value) -> Option<Seq<char>> {
    member_string(v, ("op")@)
}

/// The op names this front end recognizes.
pub open spec fn recognized_op(name: Seq<char>) -> bool {
    ||| name == ("ins")@
    ||| name == ("copy")@
    ||| name == ("skip")@
    ||| name == ("invalid")@
}

/// An op element that contributes nothing: it carries no readable op name,
/// or one that is not recognized.
pub open spec fn op_skipped(v: serde_json::Value) -> bool {
    match op_name_of(v) {
        Some(name) => !recognized_op(name),
        None => true,
    }
}

/// The `n` count of an op element.
pub open spec fn op_count_of(v: serde_json::Value) -> Option<u64> {
    match json_member(v, ("n")@) {
        Some(nv) => json_u64_content(nv),
        None => None,
    }
}

/// A counted op's payload is well-formed: a count a usize can hold.
pub open spec fn count_ok(v: serde_json::Value) -> bool {
    op_count_of(v) matches Some(n) && n <= usize::MAX
}

/// The `lines` elements of an insert op.
pub open spec fn op_lines_of(v: serde_json::Value) -> Option<Seq<serde_json::Value>> {
    match json_member(v, ("lines")@) {
        Some(lv) => json_elements(lv),
        None => None,
    }
}

/// Every line record of an insert op parses.
pub open spec fn lines_parse_ok(es: Seq<serde_json::Value>) -> bool {
    forall|i: int| 0 <= i < es.len() ==> line_parse_ok(#[trigger] es[i])
}

/// One op element is acceptable: skipped, or recognized with a well-formed
/// payload.
pub open spec fn op_parse_ok(v: serde_json::Value) -> bool {
    match op_name_of(v) {
        Some(name) => if name == ("ins")@ {
            op_lines_of(v) matches Some(es) && lines_parse_ok(es)
        } else if recognized_op(name) {
            count_ok(v)
        } else {
            true
        },
        None => true,
    }
}

/// The lines `ls` are what the records `es` describe, element by element.
pub open spec fn lines_match(es: Seq<serde_json::Value>, ls: Seq<Line>) -> bool {
    ls.len() == es.len() && forall|i: int|
        0 <= i < es.len() ==> line_matches(#[trigger] es[i], ls[i])
}

/// The typed op `op` is what the element `v` describes.
pub open spec fn op_matches(v: serde_json::Value, op: Op) -> bool {
    match op_name_of(v) {
        Some(name) => if name == ("ins")@ {
            op matches Op::Insert(lines) && (op_lines_of(v) matches Some(es) && lines_match(
                es,
                lines@,
            ))
        } else if name == ("copy")@ {
            op matches Op::Copy(n) && op_count_of(v) == Some(n as u64)
        } else if name == ("skip")@ {
            op matches Op::Skip(n) && op_count_of(v) == Some(n as u64)
        } else if name == ("invalid")@ {
            op matches Op::Invalidate(n) && op_count_of(v) == Some(n as u64)
        } else {
            false
        },
        None => false,
    }
}

/// The typed op list `ops` is what the elements `es` produce, in order: a
/// skipped element contributes nothing and consumes nothing, every other
/// element exactly its op.
pub open spec fn ops_match(es: Seq<serde_json::Value>, ops: Seq<Op>) -> bool
    decreases es.len(),
{
    if es.len() == 0 {
        ops.len() == 0
    } else if op_skipped(es.last()) {
        ops_match(es.drop_last(), ops)
    } else {
        ops.len() > 0 && op_matches(es.last(), ops.last()) && ops_match(
            es.drop_last(),
            ops.drop_last(),
        )
    }
}

/// Every op element of the update is acceptable.
pub open spec fn ops_parse_ok(es: Seq<serde_json::Value>) -> bool {
    forall|i: int| 0 <= i < es.len() ==> op_parse_ok(#[trigger] es[i])
}

/// The op elements of an update object.
pub open spec fn update_ops_of(v: serde_json::Value) -> Option<Seq<serde_json::Value>> {
    match json_member(v, ("ops")@) {
        Some(ov) => json_elements(ov),
        None => None,
    }
}

/// An update object parses: it has an `ops` array and every element of it
/// is acceptable.
pub open spec fn update_parse_ok(v: serde_json::Value) -> bool {
    update_ops_of(v) matches Some(es) && ops_parse_ok(es)
}

/// The typed update `u` is what the object `v` describes.
pub open spec fn update_matches(v: serde_json::Value, u: Update) -> bool {
    update_ops_of(v) matches Some(es) && ops_match(es, u.ops@)
}

/// Read the `n` count of a copy, skip or invalidate op; `None` when it is
/// missing, not a number, or out of range.
fn op_count(v: &serde_json::Value) -> (r: Option<usize>)
    ensures
        r is Some <==> count_ok(*v),
        r matches Some(c) ==> op_count_of(*v) == Some(c as u64),
{
    match json_get(v, "n") {
        Some(nv) => match json_as_u64(&nv) {
            Some(n) => fit_usize(n),
            None => None,
        },
        None => None,
    }
}

impl Update {
    /// Read the op list of an `update` notification: each element carries
    /// an `op` name and either a count `n` or a `lines` array. An element
    /// without a recognizable op name is skipped, so a newer core can add
    /// op kinds without breaking this front end; a recognized op whose
    /// payload is malformed rejects the whole update, so no partial
    /// application is ever observable.
    pub fn from_json(v: &serde_json::Value) -> (r: Option<Update>)
        ensures
            r is Some <==> update_parse_ok(*v),
            r matches Some(u) ==> update_matches(*v, u),
    {
        let ops_val = match json_get(v, "ops") {
            Some(o) => o,
            None => {
                return None;
            },
        };
        let arr = match json_as_array(&ops_val) {
            Some(a) => a,
            None => {
                return None;
            },
        };
        let ghost es = arr@;
        proof {
            assert(update_ops_of(*v) == Some(es));
        }
        let mut ops: Vec<Op> = Vec::new();
        let mut i: usize = 0;
        let n = arr.len();
        proof {
            assert(es.take(0) =~= Seq::<serde_json::Value>::empty());
        }
        while i < n
            invariant
                i <= n,
                n == arr.len(),
                arr@ == es,
                update_ops_of(*v) == Some(es),
                forall|j: int| 0 <= j < i ==> op_parse_ok(#[trigger] es[j]),
                ops_match(es.take(i as int), ops@),
            decreases n - i,
        {
            let ghost ops_before = ops@;
            proof {
                assert(es.take(i + 1).drop_last() =~= es.take(i as int));
                assert(es.take(i + 1).last() == es[i as int]);
            }
            let op_v = &arr[i];
            let name = match json_get(op_v, "op") {
                Some(nv) => json_as_string(&nv),
                None => None,
            };
            if let Some(name) = name {
                let name = name.as_str();
                if str_eq(name, "ins") {
                    let lines_val = match json_get(op_v, "lines") {
                        Some(l) => l,
                        None => {
                            return None;
                        },
                    };
                    let lines_arr = match json_as_array(&lines_val) {
                        Some(l) => l,
                        None => {
                            return None;
                        },
                    };
                    let ghost les = lines_arr@;
                    proof {
                        assert(op_lines_of(es[i as int]) == Some(les));
                    }
                    let mut lines: Vec<Line> = Vec::new();
                    let mut k: usize = 0;
                    let n_lines = lines_arr.len();
                    while k < n_lines
                        invariant
                            k <= n_lines,
                            n_lines == lines_arr.len(),
                            lines_arr@ == les,
                            i < es.len(),
                            update_ops_of(*v) == Some(es),
                            op_name_of(es[i as int]) == Some(("ins")@),
                            op_lines_of(es[i as int]) == Some(les),
                            lines@.len() == k,
                            forall|j: int|
                                0 <= j < k ==> line_parse_ok(#[trigger] les[j]) && line_matches(
                                    les[j],
                                    lines@[j],
                                ),
                        decreases n_lines - k,
                    {
                        match Line::from_json(&lines_arr[k]) {
                            Some(line) => lines.push(line),
                            None => {
                                proof {
                                    assert(!lines_parse_ok(les));
                                    assert(!op_parse_ok(es[i as int]));
                                }
                                return None;
                            },
                        }
                        k = k + 1;
                    }
                    proof {
                        assert(lines_match(les, lines@));
                    }
                    ops.push(Op::Insert(lines));
                    proof {
                        assert(ops@.drop_last() =~= ops_before);
                        assert(op_matches(es[i as int], ops@.last()));
                    }
                } else if str_eq(name, "copy") {
                    match op_count(op_v) {
                        Some(count) => {
                            ops.push(Op::Copy(count));
                            proof {
                                assert(ops@.drop_last() =~= ops_before);
                                assert(op_matches(es[i as int], ops@.last()));
                            }
                        },
                        None => {
                            return None;
                        },
                    }
                } else if str_eq(name, "skip") {
                    match op_count(op_v) {
                        Some(count) => {
                            ops.push(Op::Skip(count));
                            proof {
                                assert(ops@.drop_last() =~= ops_before);
                                assert(op_matches(es[i as int], ops@.last()));
                            }
                        },
                        None => {
                            return None;
                        },
                    }
                } else if str_eq(name, "invalid") {
                    match op_count(op_v) {
                        Some(count) => {
                            ops.push(Op::Invalidate(count));
                            proof {
                                assert(ops@.drop_last() =~= ops_before);
                                assert(op_matches(es[i as int], ops@.last()));
                            }
                        },
                        None => {
                            return None;
                        },
                    }
                } else {
                    proof {
                        assert(op_skipped(es[i as int]));
                    }
                }
            } else {
                proof {
                    assert(op_skipped(es[i as int]));
                }
            }
            proof {
                assert(op_parse_ok(es[i as int]));
                assert(ops_match(es.take(i + 1), ops@));
            }
            i = i + 1;
        }
        proof {
            assert(es.take(n as int) =~= es);
        }
        Some(Update { ops })
    }
}

/// An incoming message, classified: a response carries a correlation id and
/// a result; a notification carries a method and params; anything else is a
/// protocol violation to be logged and dropped.
pub enum MessageFromCore {
    Response { id: u64, result: serde_json::Value },
    Notification { method: String, params: serde_json::Value },
    Malformed,
}

/// The id and result payload of a message that is a well-formed response:
/// an `id` member holding a u64, beside a `result` member.
pub open spec fn response_parts(v: serde_json::Value) -> Option<(u64, serde_json::Value)> {
    match json_member(v, ("id")@) {
        Some(id_val) => match (json_u64_content(id_val), json_member(v, ("result")@)) {
            (Some(id), Some(result)) => Some((id, result)),
            _ => None,
        },
        None => None,
    }
}

/// The method and params of a message that is a well-formed notification:
/// no `id` member, a string `method` member, and a `params` member.
pub open spec fn notification_parts(v: serde_json::Value) -> Option<(Seq<char>, serde_json::Value)> {
    if json_member(v, ("id")@) is Some {
        None
    } else {
        match json_member(v, ("method")@) {
            Some(method_val) => match (json_string_content(method_val), json_member(v, ("params")@)) {
                (Some(method), Some(params)) => Some((method, params)),
                _ => None,
            },
            None => None,
        }
    }
}

/// Classify one incoming message: `{"id":…,"result":…}` is a response,
/// `{"method":…,"params":…}` a notification, anything else — including a
/// message that carries an `id` without both a number and a result — is
/// malformed.
pub fn classify_message(v: &serde_json::Value) -> (r: MessageFromCore)
    ensures
        match r {
            MessageFromCore::Response { id, result } => response_parts(*v) == Some((id, result)),
            MessageFromCore::Notification { method, params } => notification_parts(*v) == Some(
                (method@, params),
            ),
            MessageFromCore::Malformed => response_parts(*v) is None && notification_parts(*v)
                is None,
        },
{
    if let Some(id_val) = json_get(v, "id") {
        if let Some(id) = json_as_u64(&id_val) {
            if let Some(result) = json_get(v, "result") {
                return MessageFromCore::Response { id, result };
            }
        }
        return MessageFromCore::Malformed;
    }
    if let Some(method_val) = json_get(v, "method") {
        if let Some(method) = json_as_string(&method_val) {
            if let Some(params) = json_get(v, "params") {
                return MessageFromCore::Notification { method, params };
            }
        }
    }
    MessageFromCore::Malformed
}

/// The view id a `new_view` response carries: its result is the id string.
pub fn view_id_from_result(v: &serde_json::Value) -> (r: Option<String>)
    ensures
        match r {
            Some(id) => json_string_content(*v) == Some(id@),
            None => json_string_content(*v) is None,
        },
{
    json_as_string(v)
}

/// Where one notification goes.
pub enum NotificationRoute {
    /// Forward this command to the focused view.
    Command(EditViewCommands),
    /// A notification the front end receives and deliberately does nothing
    /// with yet.
    Ignored,
    /// An unrecognized method: log and drop.
    Unknown,
    /// A recognized method whose params lack the promised shape: log and
    /// drop.
    Malformed,
}

/// The notifications the front end recognizes but currently treats as
/// no-ops.
pub open spec fn ignored_method(m: Seq<char>) -> bool {
    ||| m == ("available_themes")@
    ||| m == ("available_plugins")@
    ||| m == ("available_languages")@
    ||| m == ("config_changed")@
    ||| m == ("language_changed")@
}

/// The update object an `update` notification's params carry.
pub open spec fn update_payload(params: serde_json::Value) -> Option<serde_json::Value> {
    json_member(params, ("update")@)
}

/// The target line a `scroll_to` notification's params carry.
pub open spec fn scroll_line(params: serde_json::Value) -> Option<u64> {
    match json_member(params, ("line")@) {
        Some(line_val) => json_u64_content(line_val),
        None => None,
    }
}

/// What `update` params must route to: the apply-update command carrying
/// exactly the parsed op list when the payload parses, malformed otherwise.
pub open spec fn update_route_ok(params: serde_json::Value, r: NotificationRoute) -> bool {
    match r {
        NotificationRoute::Command(c) => c matches EditViewCommands::ApplyUpdate(u) && (
        update_payload(params) matches Some(uv) && update_parse_ok(uv) && update_matches(uv, u)),
        NotificationRoute::Malformed => match update_payload(params) {
            Some(uv) => !update_parse_ok(uv),
            None => true,
        },
        _ => false,
    }
}

/// What `scroll_to` params must route to: the scroll command carrying
/// exactly the line number when there is one a usize can hold, malformed
/// otherwise.
pub open spec fn scroll_route_ok(params: serde_json::Value, r: NotificationRoute) -> bool {
    match r {
        NotificationRoute::Command(c) => c matches EditViewCommands::ScrollTo(line)
            && scroll_line(params) == Some(line as u64),
        NotificationRoute::Malformed => match scroll_line(params) {
            Some(line) => line > usize::MAX as u64,
            None => true,
        },
        _ => false,
    }
}

/// Route one notification by its method: `update` becomes an apply-update
/// command carrying the parsed ops, `scroll_to` a scroll command carrying
/// the line, the known placeholder methods are ignored, and everything
/// else is unknown; a recognized method with malformed params routes as
/// malformed instead.
pub fn route_notification(method: &str, params: &serde_json::Value) -> (r: NotificationRoute)
    ensures
        method@ == ("update")@ ==> update_route_ok(*params, r),
        method@ == ("scroll_to")@ ==> scroll_route_ok(*params, r),
        ignored_method(method@) ==> r is Ignored,
        !(method@ == ("update")@ || method@ == ("scroll_to")@ || ignored_method(method@))
            ==> r is Unknown,
{
    proof {
        reveal_strlit("update");
        reveal_strlit("scroll_to");
        reveal_strlit("available_themes");
        reveal_strlit("available_plugins");
        reveal_strlit("available_languages");
        reveal_strlit("config_changed");
        reveal_strlit("language_changed");
        assert(("update")@.len() == 6);
        assert(("scroll_to")@.len() == 9);
        assert(("available_themes")@.len() == 16);
        assert(("available_plugins")@.len() == 17);
        assert(("available_languages")@.len() == 19);
        assert(("config_changed")@.len() == 14);
        assert(("language_changed")@.len() == 16);
    }
    if str_eq(method, "update") {
        match json_get(params, "update") {
            Some(update_val) => match Update::from_json(&update_val) {
                Some(update) => NotificationRoute::Command(EditViewCommands::ApplyUpdate(update)),
                None => NotificationRoute::Malformed,
            },
            None => NotificationRoute::Malformed,
        }
    } else if str_eq(method, "scroll_to") {
        match json_get(params, "line") {
            Some(line_val) => match json_as_u64(&line_val) {
                Some(line) => match fit_usize(line) {
                    Some(line) => NotificationRoute::Command(EditViewCommands::ScrollTo(line)),
                    None => NotificationRoute::Malformed,
                },
                None => NotificationRoute::Malformed,
            },
            None => NotificationRoute::Malformed,
        }
    } else if str_eq(method, "available_themes") || str_eq(method, "available_plugins") || str_eq(
        method,
        "available_languages",
    ) || str_eq(method, "config_changed") || str_eq(method, "language_changed") {
        NotificationRoute::Ignored
    } else {
        NotificationRoute::Unknown
    }
}

/// What the message loop should do with one incoming message.
pub enum Dispatch {
    /// A response matched an in-flight request: perform its completion with
    /// this result payload.
    Resolved { id: u64, completion: PendingRequest, result: serde_json::Value },
    /// A routed notification for the focused view.
    ViewCommand(EditViewCommands),
    /// Nothing to do: a stale or duplicate response, or a placeholder
    /// notification.
    Ignored,
    /// An unrecognized notification method: log and drop.
    Unknown,
    /// A message or params without the promised shape: log and drop.
    Malformed,
}

/// Dispatch one incoming message: a response pops its pending completion
/// (exactly once — a second response with the same id finds nothing and is
/// ignored); a notification is routed by method. Nothing here sends, and
/// only a resolved response touches the pending table.
pub fn dispatch_message(core: &mut Core, v: &serde_json::Value) -> (d: Dispatch)
    ensures
        final(core).sent() == old(core).sent(),
        final(core).next_id_spec() == old(core).next_id_spec(),
        d matches Dispatch::Resolved { id, completion, result } ==> old(core)
            .pending_spec().contains_key(id) && completion == old(core).pending_spec()[id]
            && final(core).pending_spec() == old(core).pending_spec().remove(id),
        !(d is Resolved) ==> final(core).pending_spec() == old(core).pending_spec(),
        match response_parts(*v) {
            Some((id, res)) => match d {
                Dispatch::Resolved { id: rid, completion: _, result } => rid == id && result
                    == res,
                Dispatch::Ignored => !old(core).pending_spec().contains_key(id),
                _ => false,
            },
            None => match notification_parts(*v) {
                Some((m, p)) => {
                    &&& (m == ("update")@ ==> match d {
                        Dispatch::ViewCommand(c) => update_route_ok(
                            p,
                            NotificationRoute::Command(c),
                        ),
                        Dispatch::Malformed => update_route_ok(p, NotificationRoute::Malformed),
                        _ => false,
                    })
                    &&& (m == ("scroll_to")@ ==> match d {
                        Dispatch::ViewCommand(c) => scroll_route_ok(
                            p,
                            NotificationRoute::Command(c),
                        ),
                        Dispatch::Malformed => scroll_route_ok(p, NotificationRoute::Malformed),
                        _ => false,
                    })
                    &&& (ignored_method(m) ==> d is Ignored)
                    &&& (!(m == ("update")@ || m == ("scroll_to")@ || ignored_method(m)) ==> d
                        is Unknown)
                },
                None => d is Malformed,
            },
        },
{
    match classify_message(v) {
        MessageFromCore::Response { id, result } => {
            match core.take_pending(id) {
                Some(completion) => Dispatch::Resolved { id, completion, result },
                None => Dispatch::Ignored,
            }
        },
        MessageFromCore::Notification { method, params } => {
            match route_notification(method.as_str(), &params) {
                NotificationRoute::Command(c) => Dispatch::ViewCommand(c),
                NotificationRoute::Ignored => Dispatch::Ignored,
                NotificationRoute::Unknown => Dispatch::Unknown,
                NotificationRoute::Malformed => Dispatch::Malformed,
            }
        },
        MessageFromCore::Malformed => Dispatch::Malformed,
    }
}

} // verus!
