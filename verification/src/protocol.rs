//! The control channel embedded in the worker's stdout stream.
//!
//! The worker has a single stdout descriptor carrying both free-text log
//! lines and blocking confirm requests. A line starting with the sentinel
//! `[confirm-request] ` carries a JSON object with required fields `id`,
//! `path` and `size` and an optional `from`; every other line — including a
//! sentinel line whose payload fails to decode — is an ordinary log line.

use vstd::prelude::*;

use crate::bytes::trim_spec;
use crate::bytes::trim_bytes;
use crate::json::spec_skip_ws;
use crate::json::skip_ws;
use crate::json::spec_parse_number;
use crate::json::parse_number;
use crate::json::spec_parse_string;
use crate::json::parse_string;

verus! {

/// A caller's decision on a pending confirm request, correlated by id.
#[derive(Debug, Clone, Copy, PartialEq, Eq, Structural)]
pub struct ConfirmDecision {
    pub id: u64,
    pub accept: bool,
}

/// The mathematical value of a decoded confirm request.
pub struct ConfirmModel {
    pub id: u64,
    pub from: Seq<u8>,
    pub path: Seq<u8>,
    pub size: u64,
}

/// A decoded confirm request: the decision the worker is blocked on.
/// `from` defaults to `unknown` when the payload does not name a sender.
#[derive(Debug, Clone, PartialEq, Eq)]
pub struct ConfirmRequest {
    pub id: u64,
    pub from: Vec<u8>,
    pub path: Vec<u8>,
    pub size: u64,
}

impl View for ConfirmRequest {
    type V = ConfirmModel;

    open spec fn view(&self) -> ConfirmModel {
        ConfirmModel { id: self.id, from: self.from@, path: self.path@, size: self.size }
    }
}

/// The bytes of the key `id`.
pub open spec fn id_key() -> Seq<u8> {
    seq![105u8, 100u8]
}

/// The bytes of the key `from`.
pub open spec fn from_key() -> Seq<u8> {
    seq![102u8, 114u8, 111u8, 109u8]
}

/// The bytes of the key `path`.
pub open spec fn path_key() -> Seq<u8> {
    seq![112u8, 97u8, 116u8, 104u8]
}

/// The bytes of the key `size`.
pub open spec fn size_key() -> Seq<u8> {
    seq![115u8, 105u8, 122u8, 101u8]
}

/// The bytes of `unknown`, the default sender name.
pub open spec fn unknown_name() -> Seq<u8> {
    seq![117u8, 110u8, 107u8, 110u8, 111u8, 119u8, 110u8]
}

/// The sentinel `[confirm-request] ` that opens a control line.
pub open spec fn confirm_prefix() -> Seq<u8> {
    seq![
        91u8,
        99u8,
        111u8,
        110u8,
        102u8,
        105u8,
        114u8,
        109u8,
        45u8,
        114u8,
        101u8,
        113u8,
        117u8,
        101u8,
        115u8,
        116u8,
        93u8,
        32u8,
    ]
}

/// Decodes the members of the confirm object from `i` (at a key) onward.
/// Each known key may appear once, with `id` and `size` as unsigned
/// integers and `from` and `path` as strings; an unknown or repeated key,
/// or a value of the wrong type, refuses the payload. The explicit bounds
/// on the parse position keep the recursion well-founded.
pub open spec fn spec_confirm_members(
    s: Seq<u8>,
    i: int,
    id: Option<u64>,
    from: Option<Seq<u8>>,
    path: Option<Seq<u8>>,
    size: Option<u64>,
) -> Option<(Option<u64>, Option<Seq<u8>>, Option<Seq<u8>>, Option<u64>, int)>
    decreases s.len() - i, 1int when 0 <= i <= s.len()
{
    match spec_parse_string(s, i) {
        None => None,
        Some((key, j)) => {
            let c = spec_skip_ws(s, j);
            if !(c < s.len() && s[c] == 58) {
                None
            } else {
                let v = spec_skip_ws(s, c + 1);
                if key == id_key() {
                    if id.is_some() {
                        None
                    } else {
                        match spec_parse_number(s, v) {
                            None => None,
                            Some((n, w)) => if i < w <= s.len() {
                                spec_confirm_rest(s, w, Some(n), from, path, size)
                            } else {
                                None
                            },
                        }
                    }
                } else if key == size_key() {
                    if size.is_some() {
                        None
                    } else {
                        match spec_parse_number(s, v) {
                            None => None,
                            Some((n, w)) => if i < w <= s.len() {
                                spec_confirm_rest(s, w, id, from, path, Some(n))
                            } else {
                                None
                            },
                        }
                    }
                } else if key == from_key() {
                    if from.is_some() {
                        None
                    } else {
                        match spec_parse_string(s, v) {
                            None => None,
                            Some((t, w)) => if i < w <= s.len() {
                                spec_confirm_rest(s, w, id, Some(t), path, size)
                            } else {
                                None
                            },
                        }
                    }
                } else if key == path_key() {
                    if path.is_some() {
                        None
                    } else {
                        match spec_parse_string(s, v) {
                            None => None,
                            Some((t, w)) => if i < w <= s.len() {
                                spec_confirm_rest(s, w, id, from, Some(t), size)
                            } else {
                                None
                            },
                        }
                    }
                } else {
                    None
                }
            }
        },
    }
}

/// After a member's value: a `}` closes the object, a `,` continues with the
/// next key.
pub open spec fn spec_confirm_rest(
    s: Seq<u8>,
    w: int,
    id: Option<u64>,
    from: Option<Seq<u8>>,
    path: Option<Seq<u8>>,
    size: Option<u64>,
) -> Option<(Option<u64>, Option<Seq<u8>>, Option<Seq<u8>>, Option<u64>, int)>
    decreases s.len() - w, 0int when 0 <= w <= s.len()
{
    let a = spec_skip_ws(s, w);
    if a < s.len() && s[a] == 125 {
        Some((id, from, path, size, a + 1))
    } else if a < s.len() && s[a] == 44 {
        let b = spec_skip_ws(s, a + 1);
        if w < b <= s.len() {
            spec_confirm_members(s, b, id, from, path, size)
        } else {
            None
        }
    } else {
        None
    }
}

/// Decodes the confirm payload that starts at `start` in `s`: one JSON
/// object, surrounded only by whitespace, with `id`, `path` and `size`
/// present and `from` defaulted to `unknown` when absent.
pub open spec fn spec_confirm_payload(s: Seq<u8>, start: int) -> Option<ConfirmModel> {
    let i = spec_skip_ws(s, start);
    if !(i < s.len() && s[i] == 123) {
        None
    } else {
        let j = spec_skip_ws(s, i + 1);
        match spec_confirm_members(s, j, None, None, None, None) {
            None => None,
            Some((id, from, path, size, end)) => {
                if spec_skip_ws(s, end) == s.len() {
                    match (id, path, size) {
                        (Some(id), Some(path), Some(size)) => Some(
                            ConfirmModel {
                                id,
                                from: if from is Some {
                                    from->0
                                } else {
                                    unknown_name()
                                },
                                path,
                                size,
                            },
                        ),
                        _ => None,
                    }
                } else {
                    None
                }
            },
        }
    }
}

/// A confirm-request line: the sentinel prefix followed by a payload that
/// decodes.
pub open spec fn spec_parse_confirm_request(line: Seq<u8>) -> Option<ConfirmModel> {
    if line.len() >= 18 && line.subrange(0, 18) == confirm_prefix() {
        spec_confirm_payload(line, 18)
    } else {
        None
    }
}

/// Which confirm-object key a decoded key string is:
/// 0 `id`, 1 `from`, 2 `path`, 3 `size`, 4 anything else.
fn match_confirm_key(k: &[u8]) -> (r: u8)
    ensures
        (r == 0) == (k@ == id_key()),
        (r == 1) == (k@ == from_key()),
        (r == 2) == (k@ == path_key()),
        (r == 3) == (k@ == size_key()),
        r <= 4,
{
    if k.len() == 2 && k[0] == 105 && k[1] == 100 {
        assert(k@ =~= id_key());
        0
    } else if k.len() == 4 && k[0] == 102 && k[1] == 114 && k[2] == 111 && k[3] == 109 {
        assert(k@ =~= from_key());
        1
    } else if k.len() == 4 && k[0] == 112 && k[1] == 97 && k[2] == 116 && k[3] == 104 {
        assert(k@ =~= path_key());
        2
    } else if k.len() == 4 && k[0] == 115 && k[1] == 105 && k[2] == 122 && k[3] == 101 {
        assert(k@ =~= size_key());
        3
    } else {
        4
    }
}

/// Exec mirror of `spec_confirm_members`.
fn confirm_members(
    s: &[u8],
    i: usize,
    id: Option<u64>,
    from: Option<Vec<u8>>,
    path: Option<Vec<u8>>,
    size: Option<u64>,
) -> (r: Option<(Option<u64>, Option<Vec<u8>>, Option<Vec<u8>>, Option<u64>, usize)>)
    requires
        i <= s@.len(),
    ensures
        r.is_none() ==> spec_confirm_members(
            s@,
            i as int,
            id,
            option_view(from),
            option_view(path),
            size,
        ).is_none(),
        r matches Some(p) ==> spec_confirm_members(
            s@,
            i as int,
            id,
            option_view(from),
            option_view(path),
            size,
        ) == Some((p.0, option_view(p.1), option_view(p.2), p.3, p.4 as int)) && p.4 <= s@.len(),
    decreases s@.len() - i, 1int,
{
    match parse_string(s, i) {
        None => None,
        Some((key, j)) => {
            let c = skip_ws(s, j);
            if !(c < s.len() && s[c] == 58) {
                None
            } else {
                let v = skip_ws(s, c + 1);
                let kind = match_confirm_key(key.as_slice());
                if kind == 0 {
                    if id.is_some() {
                        None
                    } else {
                        match parse_number(s, v) {
                            None => None,
                            Some((n, w)) => {
                                if i < w {
                                    confirm_rest(s, w, Some(n), from, path, size)
                                } else {
                                    None
                                }
                            },
                        }
                    }
                } else if kind == 3 {
                    if size.is_some() {
                        None
                    } else {
                        match parse_number(s, v) {
                            None => None,
                            Some((n, w)) => {
                                if i < w {
                                    confirm_rest(s, w, id, from, path, Some(n))
                                } else {
                                    None
                                }
                            },
                        }
                    }
                } else if kind == 1 {
                    if from.is_some() {
                        None
                    } else {
                        match parse_string(s, v) {
                            None => None,
                            Some((t, w)) => {
                                if i < w {
                                    confirm_rest(s, w, id, Some(t), path, size)
                                } else {
                                    None
                                }
                            },
                        }
                    }
                } else if kind == 2 {
                    if path.is_some() {
                        None
                    } else {
                        match parse_string(s, v) {
                            None => None,
                            Some((t, w)) => {
                                if i < w {
                                    confirm_rest(s, w, id, from, Some(t), size)
                                } else {
                                    None
                                }
                            },
                        }
                    }
                } else {
                    None
                }
            }
        },
    }
}

/// Exec mirror of `spec_confirm_rest`.
fn confirm_rest(
    s: &[u8],
    w: usize,
    id: Option<u64>,
    from: Option<Vec<u8>>,
    path: Option<Vec<u8>>,
    size: Option<u64>,
) -> (r: Option<(Option<u64>, Option<Vec<u8>>, Option<Vec<u8>>, Option<u64>, usize)>)
    requires
        w <= s@.len(),
    ensures
        r.is_none() ==> spec_confirm_rest(
            s@,
            w as int,
            id,
            option_view(from),
            option_view(path),
            size,
        ).is_none(),
        r matches Some(p) ==> spec_confirm_rest(
            s@,
            w as int,
            id,
            option_view(from),
            option_view(path),
            size,
        ) == Some((p.0, option_view(p.1), option_view(p.2), p.3, p.4 as int)) && p.4 <= s@.len(),
    decreases s@.len() - w, 0int,
{
    let a = skip_ws(s, w);
    if a < s.len() && s[a] == 125 {
        Some((id, from, path, size, a + 1))
    } else if a < s.len() && s[a] == 44 {
        let b = skip_ws(s, a + 1);
        if w < b {
            confirm_members(s, b, id, from, path, size)
        } else {
            None
        }
    } else {
        None
    }
}

/// The view of an optional byte string.
pub open spec fn option_view(o: Option<Vec<u8>>) -> Option<Seq<u8>> {
    match o {
        Some(v) => Some(v@),
        None => None,
    }
}

/// Decodes the confirm payload starting at `start` in `line`.
fn confirm_payload(line: &[u8], start: usize) -> (r: Option<ConfirmRequest>)
    requires
        start <= line@.len(),
    ensures
        r.is_none() ==> spec_confirm_payload(line@, start as int).is_none(),
        r matches Some(c) ==> spec_confirm_payload(line@, start as int) == Some(c@),
{
    let i = skip_ws(line, start);
    if !(i < line.len() && line[i] == 123) {
        return None;
    }
    let j = skip_ws(line, i + 1);
    match confirm_members(line, j, None, None, None, None) {
        None => None,
        Some((id, from, path, size, end)) => {
            if skip_ws(line, end) != line.len() {
                return None;
            }
            match (id, path, size) {
                (Some(id), Some(path), Some(size)) => {
                    let from_bytes = match from {
                        Some(f) => f,
                        None => {
                            let mut u: Vec<u8> = Vec::new();
                            u.push(117);
                            u.push(110);
                            u.push(107);
                            u.push(110);
                            u.push(111);
                            u.push(119);
                            u.push(110);
                            assert(u@ =~= unknown_name());
                            u
                        },
                    };
                    Some(ConfirmRequest { id, from: from_bytes, path, size })
                },
                _ => None,
            }
        },
    }
}

/// Decodes one already-trimmed stdout line as a confirm request: the
/// sentinel prefix followed by a payload that decodes. Returns `None` — and
/// the caller degrades the line to a log line — otherwise.
pub fn parse_confirm_request(line: &[u8]) -> (r: Option<ConfirmRequest>)
    ensures
        r.is_none() ==> spec_parse_confirm_request(line@).is_none(),
        r matches Some(c) ==> spec_parse_confirm_request(line@) == Some(c@),
{
    if has_confirm_prefix(line) {
        confirm_payload(line, 18)
    } else {
        None
    }
}

/// True when `line` starts with the sentinel `[confirm-request] `.
fn has_confirm_prefix(line: &[u8]) -> (r: bool)
    ensures
        r == (line@.len() >= 18 && line@.subrange(0, 18) == confirm_prefix()),
{
    if line.len() < 18 {
        return false;
    }
    let r = line[0] == 91 && line[1] == 99 && line[2] == 111 && line[3] == 110 && line[4] == 102
        && line[5] == 105 && line[6] == 114 && line[7] == 109 && line[8] == 45 && line[9] == 114
        && line[10] == 101 && line[11] == 113 && line[12] == 117 && line[13] == 101 && line[14]
        == 115 && line[15] == 116 && line[16] == 93 && line[17] == 32;
    proof {
        if r {
            assert(line@.subrange(0, 18) =~= confirm_prefix());
        } else {
            assert(line@.subrange(0, 18) != confirm_prefix()) by {
                if line@.subrange(0, 18) == confirm_prefix() {
                    assert(forall|k: int| 0 <= k < 18 ==> line@[k] == confirm_prefix()[k]) by {
                        assert(forall|k: int|
                            0 <= k < 18 ==> line@.subrange(0, 18)[k] == line@[k]);
                    }
                }
            }
        }
    }
    r
}

/// Which stream of the worker a line came from.
#[derive(Debug, Clone, Copy, PartialEq, Eq, Structural)]
pub enum StreamKind {
    Stdout,
    Stderr,
}

/// An ordinary log line, reported once and not retained.
#[derive(Debug, Clone, PartialEq, Eq)]
pub struct LogLine {
    pub stream: StreamKind,
    pub text: Vec<u8>,
}

/// The mathematical value of a routed line.
pub enum EventModel {
    Confirm(ConfirmModel),
    Log(StreamKind, Seq<u8>),
}

/// What the bridge reports to the consumer for one assembled line.
#[derive(Debug, Clone, PartialEq, Eq)]
pub enum ListenEvent {
    Confirm(ConfirmRequest),
    Log(LogLine),
}

impl View for ListenEvent {
    type V = EventModel;

    open spec fn view(&self) -> EventModel {
        match self {
            ListenEvent::Confirm(c) => EventModel::Confirm(c@),
            ListenEvent::Log(l) => EventModel::Log(l.stream, l.text@),
        }
    }
}

/// Where a line goes: dropped when blank, decoded as a confirm request when
/// it is a stdout control line, and reported as a log line otherwise.
/// Stderr lines are never interpreted as control messages.
pub open spec fn spec_route(stream: StreamKind, raw: Seq<u8>) -> Option<EventModel> {
    let t = trim_spec(raw);
    if t.len() == 0 {
        None
    } else if stream == StreamKind::Stdout && spec_parse_confirm_request(t).is_some() {
        Some(EventModel::Confirm(spec_parse_confirm_request(t)->0))
    } else {
        Some(EventModel::Log(stream, t))
    }
}

/// Routes one raw assembled line from the given stream.
pub fn route_listen_line(stream: StreamKind, raw: &[u8]) -> (r: Option<ListenEvent>)
    ensures
        r.is_none() ==> spec_route(stream, raw@).is_none(),
        r matches Some(ev) ==> spec_route(stream, raw@) == Some(ev@),
{
    let t = trim_bytes(raw);
    if t.len() == 0 {
        return None;
    }
    match stream {
        StreamKind::Stdout => {
            match parse_confirm_request(t.as_slice()) {
                Some(req) => Some(ListenEvent::Confirm(req)),
                None => Some(ListenEvent::Log(LogLine { stream, text: t })),
            }
        },
        StreamKind::Stderr => Some(ListenEvent::Log(LogLine { stream, text: t })),
    }
}

} // verus!
