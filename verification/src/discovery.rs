//! Discovery results and self-origin filtering.
//!
//! A discovery invocation prints a JSON array of devices. The bridge decodes
//! it, then removes entries that describe the local machine itself, matching
//! each device's host and auxiliary addresses — after collapsing
//! IPv4-mapped-IPv6 forms — against the known local addresses by exact
//! string equality.

use vstd::prelude::*;

use crate::bytes::trim_spec;
use crate::bytes::trim_bytes;
use crate::bytes::bytes_eq;
use crate::bytes::append_bytes;
use crate::command::CommandResult;
use crate::command::discover_word;
use crate::command::render_error_spec;
use crate::command::render_cli_error;
use crate::errors::BridgeError;
use crate::json::spec_skip_ws;
use crate::json::skip_ws;
use crate::json::spec_parse_number;
use crate::json::parse_number;
use crate::json::spec_parse_string;
use crate::json::parse_string;
use crate::protocol::option_view;

verus! {

/// The mathematical value of a discovered device.
pub struct DeviceModel {
    pub name: Seq<u8>,
    pub host: Seq<u8>,
    pub port: u16,
    pub addresses: Seq<Seq<u8>>,
}

/// One device reported by a discovery invocation; never mutated after parse.
#[derive(Debug, Clone, PartialEq, Eq)]
pub struct DiscoverDevice {
    pub name: Vec<u8>,
    pub host: Vec<u8>,
    pub port: u16,
    pub addresses: Vec<Vec<u8>>,
}

/// The views of a list of byte strings.
pub open spec fn byte_seqs(v: Seq<Vec<u8>>) -> Seq<Seq<u8>> {
    v.map_values(|a: Vec<u8>| a@)
}

impl View for DiscoverDevice {
    type V = DeviceModel;

    open spec fn view(&self) -> DeviceModel {
        DeviceModel {
            name: self.name@,
            host: self.host@,
            port: self.port,
            addresses: byte_seqs(self.addresses@),
        }
    }
}

/// The views of a list of devices.
pub open spec fn device_views(v: Seq<DiscoverDevice>) -> Seq<DeviceModel> {
    v.map_values(|d: DiscoverDevice| d@)
}

/// The view of an optional list of byte strings.
pub open spec fn option_list_view(o: Option<Vec<Vec<u8>>>) -> Option<Seq<Seq<u8>>> {
    match o {
        Some(v) => Some(byte_seqs(v@)),
        None => None,
    }
}

/// The bytes of the key `name`.
pub open spec fn name_key() -> Seq<u8> {
    seq![110u8, 97u8, 109u8, 101u8]
}

/// The bytes of the key `host`.
pub open spec fn host_key() -> Seq<u8> {
    seq![104u8, 111u8, 115u8, 116u8]
}

/// The bytes of the key `port`.
pub open spec fn port_key() -> Seq<u8> {
    seq![112u8, 111u8, 114u8, 116u8]
}

/// The bytes of the key `addresses`.
pub open spec fn addresses_key() -> Seq<u8> {
    seq![97u8, 100u8, 100u8, 114u8, 101u8, 115u8, 115u8, 101u8, 115u8]
}

/// Decodes a JSON array of strings starting at `i`.
pub open spec fn spec_parse_str_array(s: Seq<u8>, i: int) -> Option<(Seq<Seq<u8>>, int)> {
    if !(0 <= i < s.len() && s[i] == 91) {
        None
    } else {
        let j = spec_skip_ws(s, i + 1);
        if j < s.len() && s[j] == 93 {
            Some((Seq::<Seq<u8>>::empty(), j + 1))
        } else if i < j <= s.len() {
            spec_str_elems(s, j, Seq::<Seq<u8>>::empty())
        } else {
            None
        }
    }
}

/// Decodes the string elements of an array from `i` (at an element) onward.
pub open spec fn spec_str_elems(s: Seq<u8>, i: int, acc: Seq<Seq<u8>>) -> Option<
    (Seq<Seq<u8>>, int),
>
    decreases s.len() - i when 0 <= i <= s.len()
{
    match spec_parse_string(s, i) {
        None => None,
        Some((t, w)) => {
            if !(i < w <= s.len()) {
                None
            } else {
                let a = spec_skip_ws(s, w);
                if a < s.len() && s[a] == 93 {
                    Some((acc.push(t), a + 1))
                } else if a < s.len() && s[a] == 44 {
                    let b = spec_skip_ws(s, a + 1);
                    if i < b <= s.len() {
                        spec_str_elems(s, b, acc.push(t))
                    } else {
                        None
                    }
                } else {
                    None
                }
            }
        },
    }
}

/// Exec mirror of `spec_parse_str_array`.
fn parse_str_array(s: &[u8], i: usize) -> (r: Option<(Vec<Vec<u8>>, usize)>)
    requires
        i <= s@.len(),
    ensures
        r.is_none() ==> spec_parse_str_array(s@, i as int).is_none(),
        r matches Some(p) ==> spec_parse_str_array(s@, i as int) == Some(
            (byte_seqs(p.0@), p.1 as int),
        ) && p.1 <= s@.len(),
{
    if !(i < s.len() && s[i] == 91) {
        return None;
    }
    let j = skip_ws(s, i + 1);
    if j < s.len() && s[j] == 93 {
        let empty: Vec<Vec<u8>> = Vec::new();
        assert(byte_seqs(empty@) =~= Seq::<Seq<u8>>::empty());
        Some((empty, j + 1))
    } else {
        let empty: Vec<Vec<u8>> = Vec::new();
        assert(byte_seqs(empty@) =~= Seq::<Seq<u8>>::empty());
        str_elems(s, j, empty)
    }
}

/// Exec mirror of `spec_str_elems`.
fn str_elems(s: &[u8], i: usize, acc: Vec<Vec<u8>>) -> (r: Option<(Vec<Vec<u8>>, usize)>)
    requires
        i <= s@.len(),
    ensures
        r.is_none() ==> spec_str_elems(s@, i as int, byte_seqs(acc@)).is_none(),
        r matches Some(p) ==> spec_str_elems(s@, i as int, byte_seqs(acc@)) == Some(
            (byte_seqs(p.0@), p.1 as int),
        ) && p.1 <= s@.len(),
    decreases s@.len() - i,
{
    match parse_string(s, i) {
        None => None,
        Some((t, w)) => {
            let ghost acc0 = byte_seqs(acc@);
            let ghost tv = t@;
            let a = skip_ws(s, w);
            if a < s.len() && s[a] == 93 {
                let mut acc = acc;
                acc.push(t);
                assert(byte_seqs(acc@) =~= acc0.push(tv));
                Some((acc, a + 1))
            } else if a < s.len() && s[a] == 44 {
                let b = skip_ws(s, a + 1);
                if i < b {
                    let mut acc = acc;
                    acc.push(t);
                    assert(byte_seqs(acc@) =~= acc0.push(tv));
                    str_elems(s, b, acc)
                } else {
                    None
                }
            } else {
                None
            }
        },
    }
}

/// Decodes the members of a device object from `i` (at a key) onward:
/// `name` and `host` are strings, `port` an integer in 0-65535, and
/// `addresses` an array of strings; an unknown or repeated key, or a value
/// of the wrong type, refuses the document. The explicit bounds on the
/// parse position keep the recursion well-founded.
pub open spec fn spec_device_members(
    s: Seq<u8>,
    i: int,
    name: Option<Seq<u8>>,
    host: Option<Seq<u8>>,
    port: Option<u16>,
    addrs: Option<Seq<Seq<u8>>>,
) -> Option<(Option<Seq<u8>>, Option<Seq<u8>>, Option<u16>, Option<Seq<Seq<u8>>>, int)>
    decreases s.len() - i, 1int when 0 <= i <= s.len()
{
    match spec_parse_string(s, i) {
        None => None,
        Some((key, j)) => {
            let c = spec_skip_ws(s, j);
            if !(c < s.len() && s[c] == 58) {
                None
            } else {
                let v = spec_skip_ws(s, c + 1);
                if key == name_key() {
                    if name.is_some() {
                        None
                    } else {
                        match spec_parse_string(s, v) {
                            None => None,
                            Some((t, w)) => if i < w <= s.len() {
                                spec_device_rest(s, w, Some(t), host, port, addrs)
                            } else {
                                None
                            },
                        }
                    }
                } else if key == host_key() {
                    if host.is_some() {
                        None
                    } else {
                        match spec_parse_string(s, v) {
                            None => None,
                            Some((t, w)) => if i < w <= s.len() {
                                spec_device_rest(s, w, name, Some(t), port, addrs)
                            } else {
                                None
                            },
                        }
                    }
                } else if key == port_key() {
                    if port.is_some() {
                        None
                    } else {
                        match spec_parse_number(s, v) {
                            None => None,
                            Some((n, w)) => if n <= 65535 && i < w <= s.len() {
                                spec_device_rest(s, w, name, host, Some(n as u16), addrs)
                            } else {
                                None
                            },
                        }
                    }
                } else if key == addresses_key() {
                    if addrs.is_some() {
                        None
                    } else {
                        match spec_parse_str_array(s, v) {
                            None => None,
                            Some((a, w)) => if i < w <= s.len() {
                                spec_device_rest(s, w, name, host, port, Some(a))
                            } else {
                                None
                            },
                        }
                    }
                } else {
                    None
                }
            }
        },
    }
}

/// After a device member's value: a `}` closes the object, a `,` continues.
pub open spec fn spec_device_rest(
    s: Seq<u8>,
    w: int,
    name: Option<Seq<u8>>,
    host: Option<Seq<u8>>,
    port: Option<u16>,
    addrs: Option<Seq<Seq<u8>>>,
) -> Option<(Option<Seq<u8>>, Option<Seq<u8>>, Option<u16>, Option<Seq<Seq<u8>>>, int)>
    decreases s.len() - w, 0int when 0 <= w <= s.len()
{
    let a = spec_skip_ws(s, w);
    if a < s.len() && s[a] == 125 {
        Some((name, host, port, addrs, a + 1))
    } else if a < s.len() && s[a] == 44 {
        let b = spec_skip_ws(s, a + 1);
        if w < b <= s.len() {
            spec_device_members(s, b, name, host, port, addrs)
        } else {
            None
        }
    } else {
        None
    }
}

/// Decodes one device object starting at its `{`; all four fields are
/// required.
pub open spec fn spec_parse_device(s: Seq<u8>, i: int) -> Option<(DeviceModel, int)> {
    if !(0 <= i < s.len() && s[i] == 123) {
        None
    } else {
        let j = spec_skip_ws(s, i + 1);
        match spec_device_members(s, j, None, None, None, None) {
            None => None,
            Some((name, host, port, addrs, end)) => match (name, host, port, addrs) {
                (Some(n), Some(h), Some(p), Some(a)) => Some(
                    (DeviceModel { name: n, host: h, port: p, addresses: a }, end),
                ),
                _ => None,
            },
        }
    }
}

/// Decodes the complete discovery document: one JSON array of device
/// objects surrounded only by whitespace.
pub open spec fn spec_parse_devices(s: Seq<u8>) -> Option<Seq<DeviceModel>> {
    let i = spec_skip_ws(s, 0);
    if !(i < s.len() && s[i] == 91) {
        None
    } else {
        let j = spec_skip_ws(s, i + 1);
        if j < s.len() && s[j] == 93 {
            if spec_skip_ws(s, j + 1) == s.len() {
                Some(Seq::<DeviceModel>::empty())
            } else {
                None
            }
        } else {
            match spec_device_elems(s, j, Seq::<DeviceModel>::empty()) {
                None => None,
                Some((ds, end)) => if spec_skip_ws(s, end) == s.len() {
                    Some(ds)
                } else {
                    None
                },
            }
        }
    }
}

/// Decodes the device elements of the array from `i` (at an object) onward.
pub open spec fn spec_device_elems(s: Seq<u8>, i: int, acc: Seq<DeviceModel>) -> Option<
    (Seq<DeviceModel>, int),
>
    decreases s.len() - i when 0 <= i <= s.len()
{
    match spec_parse_device(s, i) {
        None => None,
        Some((d, w)) => {
            if !(i < w <= s.len()) {
                None
            } else {
                let a = spec_skip_ws(s, w);
                if a < s.len() && s[a] == 93 {
                    Some((acc.push(d), a + 1))
                } else if a < s.len() && s[a] == 44 {
                    let b = spec_skip_ws(s, a + 1);
                    if i < b <= s.len() {
                        spec_device_elems(s, b, acc.push(d))
                    } else {
                        None
                    }
                } else {
                    None
                }
            }
        },
    }
}

/// Which device-object key a decoded key string is:
/// 0 `name`, 1 `host`, 2 `port`, 3 `addresses`, 4 anything else.
fn match_device_key(k: &[u8]) -> (r: u8)
    ensures
        (r == 0) == (k@ == name_key()),
        (r == 1) == (k@ == host_key()),
        (r == 2) == (k@ == port_key()),
        (r == 3) == (k@ == addresses_key()),
        r <= 4,
{
    if k.len() == 4 && k[0] == 110 && k[1] == 97 && k[2] == 109 && k[3] == 101 {
        assert(k@ =~= name_key());
        0
    } else if k.len() == 4 && k[0] == 104 && k[1] == 111 && k[2] == 115 && k[3] == 116 {
        assert(k@ =~= host_key());
        1
    } else if k.len() == 4 && k[0] == 112 && k[1] == 111 && k[2] == 114 && k[3] == 116 {
        assert(k@ =~= port_key());
        2
    } else if k.len() == 9 && k[0] == 97 && k[1] == 100 && k[2] == 100 && k[3] == 114 && k[4]
        == 101 && k[5] == 115 && k[6] == 115 && k[7] == 101 && k[8] == 115 {
        assert(k@ =~= addresses_key());
        3
    } else {
        4
    }
}

/// Exec mirror of `spec_device_members`.
fn device_members(
    s: &[u8],
    i: usize,
    name: Option<Vec<u8>>,
    host: Option<Vec<u8>>,
    port: Option<u16>,
    addrs: Option<Vec<Vec<u8>>>,
) -> (r: Option<(Option<Vec<u8>>, Option<Vec<u8>>, Option<u16>, Option<Vec<Vec<u8>>>, usize)>)
    requires
        i <= s@.len(),
    ensures
        r.is_none() ==> spec_device_members(
            s@,
            i as int,
            option_view(name),
            option_view(host),
            port,
            option_list_view(addrs),
        ).is_none(),
        r matches Some(p) ==> spec_device_members(
            s@,
            i as int,
            option_view(name),
            option_view(host),
            port,
            option_list_view(addrs),
        ) == Some((option_view(p.0), option_view(p.1), p.2, option_list_view(p.3), p.4 as int))
            && p.4 <= s@.len(),
    decreases s@.len() - i, 1int,
{
    match parse_string(s, i) {
        None => None,
        Some((key, j)) => {
            let c = skip_ws(s, j);
            if !(c < s.len() && s[c] == 58) {
                None
            } else {
                let v = skip_ws(s, c + 1);
                let kind = match_device_key(key.as_slice());
                if kind == 0 {
                    if name.is_some() {
                        None
                    } else {
                        match parse_string(s, v) {
                            None => None,
                            Some((t, w)) => {
                                if i < w {
                                    device_rest(s, w, Some(t), host, port, addrs)
                                } else {
                                    None
                                }
                            },
                        }
                    }
                } else if kind == 1 {
                    if host.is_some() {
                        None
                    } else {
                        match parse_string(s, v) {
                            None => None,
                            Some((t, w)) => {
                                if i < w {
                                    device_rest(s, w, name, Some(t), port, addrs)
                                } else {
                                    None
                                }
                            },
                        }
                    }
                } else if kind == 2 {
                    if port.is_some() {
                        None
                    } else {
                        match parse_number(s, v) {
                            None => None,
                            Some((n, w)) => {
                                if n <= 65535 && i < w {
                                    device_rest(s, w, name, host, Some(n as u16), addrs)
                                } else {
                                    None
                                }
                            },
                        }
                    }
                } else if kind == 3 {
                    if addrs.is_some() {
                        None
                    } else {
                        match parse_str_array(s, v) {
                            None => None,
                            Some((a, w)) => {
                                if i < w {
                                    device_rest(s, w, name, host, port, Some(a))
                                } else {
                                    None
                                }
                            },
                        }
                    }
                } else {
                    None
                }
            }
        },
    }
}

/// Exec mirror of `spec_device_rest`.
fn device_rest(
    s: &[u8],
    w: usize,
    name: Option<Vec<u8>>,
    host: Option<Vec<u8>>,
    port: Option<u16>,
    addrs: Option<Vec<Vec<u8>>>,
) -> (r: Option<(Option<Vec<u8>>, Option<Vec<u8>>, Option<u16>, Option<Vec<Vec<u8>>>, usize)>)
    requires
        w <= s@.len(),
    ensures
        r.is_none() ==> spec_device_rest(
            s@,
            w as int,
            option_view(name),
            option_view(host),
            port,
            option_list_view(addrs),
        ).is_none(),
        r matches Some(p) ==> spec_device_rest(
            s@,
            w as int,
            option_view(name),
            option_view(host),
            port,
            option_list_view(addrs),
        ) == Some((option_view(p.0), option_view(p.1), p.2, option_list_view(p.3), p.4 as int))
            && p.4 <= s@.len(),
    decreases s@.len() - w, 0int,
{
    let a = skip_ws(s, w);
    if a < s.len() && s[a] == 125 {
        Some((name, host, port, addrs, a + 1))
    } else if a < s.len() && s[a] == 44 {
        let b = skip_ws(s, a + 1);
        if w < b {
            device_members(s, b, name, host, port, addrs)
        } else {
            None
        }
    } else {
        None
    }
}

/// Exec mirror of `spec_parse_device`.
fn parse_device(s: &[u8], i: usize) -> (r: Option<(DiscoverDevice, usize)>)
    requires
        i <= s@.len(),
    ensures
        r.is_none() ==> spec_parse_device(s@, i as int).is_none(),
        r matches Some(p) ==> spec_parse_device(s@, i as int) == Some((p.0@, p.1 as int)) && p.1
            <= s@.len(),
{
    if !(i < s.len() && s[i] == 123) {
        return None;
    }
    let j = skip_ws(s, i + 1);
    match device_members(s, j, None, None, None, None) {
        None => None,
        Some((name, host, port, addrs, end)) => match (name, host, port, addrs) {
            (Some(n), Some(h), Some(p), Some(a)) => Some(
                (DiscoverDevice { name: n, host: h, port: p, addresses: a }, end),
            ),
            _ => None,
        },
    }
}

/// Exec mirror of `spec_device_elems`.
fn device_elems(s: &[u8], i: usize, acc: Vec<DiscoverDevice>) -> (r: Option<
    (Vec<DiscoverDevice>, usize),
>)
    requires
        i <= s@.len(),
    ensures
        r.is_none() ==> spec_device_elems(s@, i as int, device_views(acc@)).is_none(),
        r matches Some(p) ==> spec_device_elems(s@, i as int, device_views(acc@)) == Some(
            (device_views(p.0@), p.1 as int),
        ) && p.1 <= s@.len(),
    decreases s@.len() - i,
{
    match parse_device(s, i) {
        None => None,
        Some((d, w)) => {
            if !(i < w) {
                return None;
            }
            let ghost acc0 = device_views(acc@);
            let ghost dv = d@;
            let a = skip_ws(s, w);
            if a < s.len() && s[a] == 93 {
                let mut acc = acc;
                acc.push(d);
                assert(device_views(acc@) =~= acc0.push(dv));
                Some((acc, a + 1))
            } else if a < s.len() && s[a] == 44 {
                let b = skip_ws(s, a + 1);
                if i < b {
                    let mut acc = acc;
                    acc.push(d);
                    assert(device_views(acc@) =~= acc0.push(dv));
                    device_elems(s, b, acc)
                } else {
                    None
                }
            } else {
                None
            }
        },
    }
}

/// Exec mirror of `spec_parse_devices`.
pub fn parse_devices(s: &[u8]) -> (r: Option<Vec<DiscoverDevice>>)
    ensures
        r.is_none() ==> spec_parse_devices(s@).is_none(),
        r matches Some(v) ==> spec_parse_devices(s@) == Some(device_views(v@)),
{
    let i = skip_ws(s, 0);
    if !(i < s.len() && s[i] == 91) {
        return None;
    }
    let j = skip_ws(s, i + 1);
    if j < s.len() && s[j] == 93 {
        if skip_ws(s, j + 1) == s.len() {
            let empty: Vec<DiscoverDevice> = Vec::new();
            assert(device_views(empty@) =~= Seq::<DeviceModel>::empty());
            Some(empty)
        } else {
            None
        }
    } else {
        let empty: Vec<DiscoverDevice> = Vec::new();
        assert(device_views(empty@) =~= Seq::<DeviceModel>::empty());
        match device_elems(s, j, empty) {
            None => None,
            Some((ds, end)) => {
                if skip_ws(s, end) == s.len() {
                    Some(ds)
                } else {
                    None
                }
            },
        }
    }
}

/// The bytes of the IPv4-mapped-IPv6 prefix `::ffff:`.
pub open spec fn mapped_prefix() -> Seq<u8> {
    seq![58u8, 58u8, 102u8, 102u8, 102u8, 102u8, 58u8]
}

/// The canonical form of a textual address: trimmed, with an
/// IPv4-mapped-IPv6 prefix `::ffff:` collapsed away.
pub open spec fn canonical_spec(raw: Seq<u8>) -> Seq<u8> {
    let t = trim_spec(raw);
    if t.len() >= 7 && t.subrange(0, 7) == mapped_prefix() {
        t.skip(7)
    } else {
        t
    }
}

/// Canonicalizes one textual address.
pub fn canonical_discovery_address(raw: &[u8]) -> (r: Vec<u8>)
    ensures
        r@ == canonical_spec(raw@),
{
    let t = trim_bytes(raw);
    let mapped = t.len() >= 7 && t[0] == 58 && t[1] == 58 && t[2] == 102 && t[3] == 102 && t[4]
        == 102 && t[5] == 102 && t[6] == 58;
    proof {
        if mapped {
            assert(t@.subrange(0, 7) =~= mapped_prefix());
        } else if t@.len() >= 7 {
            assert(t@.subrange(0, 7) != mapped_prefix()) by {
                if t@.subrange(0, 7) == mapped_prefix() {
                    assert(forall|k: int| 0 <= k < 7 ==> t@.subrange(0, 7)[k] == t@[k]);
                }
            }
        }
    }
    if mapped {
        let mut out: Vec<u8> = Vec::new();
        let mut k: usize = 7;
        while k < t.len()
            invariant
                7 <= k <= t@.len(),
                out@ == t@.subrange(7, k as int),
            decreases t@.len() - k,
        {
            out.push(t[k]);
            assert(out@ == t@.subrange(7, k + 1 as int));
            k = k + 1;
        }
        assert(out@ =~= t@.skip(7));
        out
    } else {
        t
    }
}

/// The known textual identities of the local machine, matched by exact
/// equality against discovery entries.
#[derive(Debug, Clone, PartialEq, Eq)]
pub struct LocalAddressSet {
    pub addrs: Vec<Vec<u8>>,
}

impl View for LocalAddressSet {
    type V = Seq<Seq<u8>>;

    open spec fn view(&self) -> Seq<Seq<u8>> {
        byte_seqs(self.addrs@)
    }
}

impl LocalAddressSet {
    /// True when `a` is one of the known local identities.
    pub fn contains_addr(&self, a: &[u8]) -> (r: bool)
        ensures
            r == self@.contains(a@),
    {
        let mut k: usize = 0;
        while k < self.addrs.len()
            invariant
                k <= self.addrs@.len(),
                forall|m: int| 0 <= m < k ==> self@[m] != a@,
            decreases self.addrs@.len() - k,
        {
            if bytes_eq(self.addrs[k].as_slice(), a) {
                assert(self@[k as int] == a@);
                return true;
            }
            k = k + 1;
        }
        assert(!self@.contains(a@));
        false
    }
}

/// The bytes of `127.0.0.1`.
pub open spec fn loopback_v4() -> Seq<u8> {
    seq![49u8, 50u8, 55u8, 46u8, 48u8, 46u8, 48u8, 46u8, 49u8]
}

/// The bytes of `::1`.
pub open spec fn loopback_v6() -> Seq<u8> {
    seq![58u8, 58u8, 49u8]
}

/// The bytes of `localhost`.
pub open spec fn localhost_name() -> Seq<u8> {
    seq![108u8, 111u8, 99u8, 97u8, 108u8, 104u8, 111u8, 115u8, 116u8]
}

/// The local identities derived from a list of interface addresses: the
/// loopback literals, then each interface address together with its
/// canonical form.
pub open spec fn local_set_entries(ifaces: Seq<Seq<u8>>) -> Seq<Seq<u8>>
    decreases ifaces.len(),
{
    if ifaces.len() == 0 {
        seq![loopback_v4(), loopback_v6(), localhost_name()]
    } else {
        local_set_entries(ifaces.drop_last()).push(ifaces.last()).push(
            canonical_spec(ifaces.last()),
        )
    }
}

/// Builds the local identity set from the given interface addresses.
pub fn build_local_address_set(ifaces: &Vec<Vec<u8>>) -> (r: LocalAddressSet)
    ensures
        r@ == local_set_entries(byte_seqs(ifaces@)),
{
    let mut addrs: Vec<Vec<u8>> = Vec::new();
    let mut v4: Vec<u8> = Vec::new();
    v4.push(49);
    v4.push(50);
    v4.push(55);
    v4.push(46);
    v4.push(48);
    v4.push(46);
    v4.push(48);
    v4.push(46);
    v4.push(49);
    assert(v4@ =~= loopback_v4());
    addrs.push(v4);
    let mut v6: Vec<u8> = Vec::new();
    v6.push(58);
    v6.push(58);
    v6.push(49);
    assert(v6@ =~= loopback_v6());
    addrs.push(v6);
    let mut name: Vec<u8> = Vec::new();
    name.push(108);
    name.push(111);
    name.push(99);
    name.push(97);
    name.push(108);
    name.push(104);
    name.push(111);
    name.push(115);
    name.push(116);
    assert(name@ =~= localhost_name());
    addrs.push(name);
    assert(byte_seqs(addrs@) =~= local_set_entries(Seq::<Seq<u8>>::empty()));
    let mut k: usize = 0;
    while k < ifaces.len()
        invariant
            k <= ifaces@.len(),
            byte_seqs(addrs@) == local_set_entries(byte_seqs(ifaces@).subrange(0, k as int)),
        decreases ifaces@.len() - k,
    {
        let ghost before = byte_seqs(addrs@);
        let ghost prefix = byte_seqs(ifaces@).subrange(0, k as int);
        let ghost next = byte_seqs(ifaces@).subrange(0, k + 1 as int);
        let addr = ifaces[k].clone();
        let canon = canonical_discovery_address(ifaces[k].as_slice());
        addrs.push(addr);
        addrs.push(canon);
        proof {
            assert(next.drop_last() =~= prefix);
            assert(next.last() == byte_seqs(ifaces@)[k as int]);
            assert(byte_seqs(addrs@) =~= before.push(ifaces@[k as int]@).push(
                canonical_spec(ifaces@[k as int]@),
            ));
        }
        k = k + 1;
    }
    assert(byte_seqs(ifaces@).subrange(0, ifaces@.len() as int) =~= byte_seqs(ifaces@));
    LocalAddressSet { addrs }
}

/// Relies on `if_addrs::get_if_addrs`: enumerates the addresses of the
/// machine's network interfaces, each rendered in its standard textual form.
/// The result depends on the machine, so nothing is promised of it; every
/// caller handles any list of addresses.
#[verifier::external_body]
fn local_interface_addresses() -> (r: Vec<Vec<u8>>) {
    let mut out: Vec<Vec<u8>> = Vec::new();
    if let Ok(ifaces) = if_addrs::get_if_addrs() {
        for iface in ifaces {
            out.push(iface.ip().to_string().into_bytes());
        }
    }
    out
}

/// The local identity set of this machine, recomputed on each call: the
/// loopback literals plus every current interface address and its canonical
/// form.
pub fn local_address_set() -> (r: LocalAddressSet)
    ensures
        exists|ifaces: Seq<Seq<u8>>| r@ == local_set_entries(ifaces),
{
    let ifaces = local_interface_addresses();
    let r = build_local_address_set(&ifaces);
    proof {
        let w = byte_seqs(ifaces@);
        assert(r@ == local_set_entries(w));
    }
    r
}

/// True when a discovered device describes the local machine: its host, or
/// any of its auxiliary addresses, matches a known local identity directly
/// or after canonicalization.
pub open spec fn is_local_spec(d: DeviceModel, set: Seq<Seq<u8>>) -> bool {
    set.contains(d.host) || set.contains(canonical_spec(d.host)) || exists|k: int|
        0 <= k < d.addresses.len() && (set.contains(d.addresses[k]) || set.contains(
            canonical_spec(d.addresses[k]),
        ))
}

/// Decides whether a discovered device is the local machine itself.
pub fn is_local_discovered_device(device: &DiscoverDevice, local_addresses: &LocalAddressSet) -> (r:
    bool)
    ensures
        r == is_local_spec(device@, local_addresses@),
{
    if local_addresses.contains_addr(device.host.as_slice()) {
        return true;
    }
    let canon_host = canonical_discovery_address(device.host.as_slice());
    if local_addresses.contains_addr(canon_host.as_slice()) {
        return true;
    }
    let mut k: usize = 0;
    while k < device.addresses.len()
        invariant
            k <= device.addresses@.len(),
            forall|m: int|
                0 <= m < k ==> !local_addresses@.contains(device@.addresses[m])
                    && !local_addresses@.contains(canonical_spec(device@.addresses[m])),
        decreases device.addresses@.len() - k,
    {
        if local_addresses.contains_addr(device.addresses[k].as_slice()) {
            assert(local_addresses@.contains(device@.addresses[k as int]));
            return true;
        }
        let canon = canonical_discovery_address(device.addresses[k].as_slice());
        if local_addresses.contains_addr(canon.as_slice()) {
            assert(local_addresses@.contains(canonical_spec(device@.addresses[k as int])));
            return true;
        }
        k = k + 1;
    }
    false
}

/// The devices of `ds` that are not the local machine, in order.
pub open spec fn filter_remote_spec(ds: Seq<DeviceModel>, set: Seq<Seq<u8>>) -> Seq<DeviceModel>
    decreases ds.len(),
{
    if ds.len() == 0 {
        Seq::<DeviceModel>::empty()
    } else if is_local_spec(ds.last(), set) {
        filter_remote_spec(ds.drop_last(), set)
    } else {
        filter_remote_spec(ds.drop_last(), set).push(ds.last())
    }
}

/// Removes the devices that describe the local machine itself.
pub fn filter_discovered_devices(devices: Vec<DiscoverDevice>, local_addresses: &LocalAddressSet)
    -> (r: Vec<DiscoverDevice>)
    ensures
        device_views(r@) == filter_remote_spec(device_views(devices@), local_addresses@),
    decreases devices@.len(),
{
    let ghost orig = device_views(devices@);
    let mut devices = devices;
    match devices.pop() {
        None => {
            assert(orig =~= Seq::<DeviceModel>::empty());
            devices
        },
        Some(d) => {
            proof {
                assert(orig.drop_last() =~= device_views(devices@));
                assert(orig.last() == d@);
            }
            let mut rest = filter_discovered_devices(devices, local_addresses);
            let ghost kept = device_views(rest@);
            if !is_local_discovered_device(&d, local_addresses) {
                rest.push(d);
                assert(device_views(rest@) =~= kept.push(orig.last()));
            }
            rest
        },
    }
}

/// The loopback identities are members of every built local set.
pub proof fn lemma_local_set_contains_loopback(ifaces: Seq<Seq<u8>>)
    ensures
        local_set_entries(ifaces).contains(loopback_v4()),
        local_set_entries(ifaces).contains(loopback_v6()),
        local_set_entries(ifaces).contains(localhost_name()),
    decreases ifaces.len(),
{
    if ifaces.len() == 0 {
        assert(local_set_entries(ifaces)[0] == loopback_v4());
        assert(local_set_entries(ifaces)[1] == loopback_v6());
        assert(local_set_entries(ifaces)[2] == localhost_name());
    } else {
        lemma_local_set_contains_loopback(ifaces.drop_last());
        lemma_push_keeps_members(local_set_entries(ifaces.drop_last()), ifaces.last());
        lemma_push_keeps_members(
            local_set_entries(ifaces.drop_last()).push(ifaces.last()),
            canonical_spec(ifaces.last()),
        );
    }
}

/// Pushing onto a sequence keeps every member.
pub proof fn lemma_push_keeps_members(s: Seq<Seq<u8>>, x: Seq<u8>)
    ensures
        forall|y: Seq<u8>| s.contains(y) ==> #[trigger] s.push(x).contains(y),
{
    assert forall|y: Seq<u8>| s.contains(y) implies #[trigger] s.push(x).contains(y) by {
        let i = choose|i: int| 0 <= i < s.len() && s[i] == y;
        assert(s.push(x)[i] == y);
    }
}

/// Every interface address, and its canonical form, is a member of the
/// local set built from the interface list.
pub proof fn lemma_local_set_contains_interfaces(ifaces: Seq<Seq<u8>>, k: int)
    requires
        0 <= k < ifaces.len(),
    ensures
        local_set_entries(ifaces).contains(ifaces[k]),
        local_set_entries(ifaces).contains(canonical_spec(ifaces[k])),
    decreases ifaces.len(),
{
    let shorter = ifaces.drop_last();
    let base = local_set_entries(shorter);
    if k == ifaces.len() - 1 {
        assert(base.push(ifaces.last())[base.len() as int] == ifaces[k]);
        lemma_push_keeps_members(base.push(ifaces.last()), canonical_spec(ifaces.last()));
        assert(base.push(ifaces.last()).push(canonical_spec(ifaces.last()))[base.len() as int
            + 1] == canonical_spec(ifaces[k]));
    } else {
        lemma_local_set_contains_interfaces(shorter, k);
        assert(shorter[k] == ifaces[k]);
        lemma_push_keeps_members(base, ifaces.last());
        lemma_push_keeps_members(base.push(ifaces.last()), canonical_spec(ifaces.last()));
    }
}

/// A device that reports a loopback identity as its host is always
/// recognized as the local machine, whatever interfaces were enumerated.
pub proof fn lemma_loopback_host_is_local(d: DeviceModel, ifaces: Seq<Seq<u8>>)
    requires
        d.host == loopback_v4() || d.host == loopback_v6() || d.host == localhost_name(),
    ensures
        is_local_spec(d, local_set_entries(ifaces)),
{
    lemma_local_set_contains_loopback(ifaces);
}

/// A device whose host canonicalizes to a known interface address — for one,
/// an IPv4-mapped-IPv6 spelling of it — is always recognized as the local
/// machine.
pub proof fn lemma_canonical_host_is_local(d: DeviceModel, ifaces: Seq<Seq<u8>>, k: int)
    requires
        0 <= k < ifaces.len(),
        canonical_spec(d.host) == ifaces[k],
    ensures
        is_local_spec(d, local_set_entries(ifaces)),
{
    lemma_local_set_contains_interfaces(ifaces, k);
}

/// Interprets a completed discovery invocation: a non-zero exit becomes the
/// rendered `NonZeroExit` failure; blank output means no devices; otherwise
/// the output must decode as a device array, which is then filtered for
/// self-origin.
pub fn process_discovery_output(output: &CommandResult, local_addresses: &LocalAddressSet) -> (r:
    Result<Vec<DiscoverDevice>, BridgeError>)
    ensures
        !output.success ==> (r matches Err(BridgeError::NonZeroExit(m)) && m@ == render_error_spec(
            discover_word(),
            output@,
        )),
        output.success && trim_spec(output.stdout@).len() == 0 ==> (r matches Ok(v)
            && v@.len() == 0),
        output.success && trim_spec(output.stdout@).len() > 0 && spec_parse_devices(
            output.stdout@,
        ) is None ==> r == Err::<Vec<DiscoverDevice>, BridgeError>(BridgeError::DecodeFailed),
        (output.success && trim_spec(output.stdout@).len() > 0 && spec_parse_devices(
            output.stdout@,
        ) is Some) ==> (r matches Ok(v) && device_views(v@) == filter_remote_spec(
            spec_parse_devices(output.stdout@)->0,
            local_addresses@,
        )),
{
    if !output.success {
        let mut w: Vec<u8> = Vec::new();
        w.push(100);
        w.push(105);
        w.push(115);
        w.push(99);
        w.push(111);
        w.push(118);
        w.push(101);
        w.push(114);
        assert(w@ =~= discover_word());
        let message = render_cli_error(w.as_slice(), output);
        return Err(BridgeError::NonZeroExit(message));
    }
    let trimmed = trim_bytes(output.stdout.as_slice());
    if trimmed.len() == 0 {
        return Ok(Vec::new());
    }
    match parse_devices(output.stdout.as_slice()) {
        None => Err(BridgeError::DecodeFailed),
        Some(devices) => Ok(filter_discovered_devices(devices, local_addresses)),
    }
}

} // verus!
