//! Reads the server name that a TLS client asks for from the first bytes it
//! sends, without taking them off the connection.

use vstd::prelude::*;
use vstd::slice::*;
use vstd::utf8::*;

verus! {

/// The number that two bytes at `at` spell, the high byte first.
pub open spec fn be16(bytes: Seq<u8>, at: int) -> int {
    bytes[at] as int * 256 + bytes[at + 1] as int
}

/// Bytes before the session id of a client's hello: the record's header of
/// five, the handshake's header of four, the version and the random.
pub const SESSION_AT: usize = 43;

/// The record type of a handshake.
pub const HANDSHAKE: u8 = 22;

/// The handshake type of a client's hello.
pub const CLIENT_HELLO: u8 = 1;

/// Where the extensions of a client's hello start and end, if `bytes` start
/// with a handshake record that holds a client's hello whose session id,
/// cipher suites, compression methods and extensions all lie within them.
pub open spec fn extensions(bytes: Seq<u8>) -> Option<(int, int)> {
    if bytes.len() <= SESSION_AT || bytes[0] != HANDSHAKE || bytes[5] != CLIENT_HELLO {
        None
    } else {
        let suites = SESSION_AT + 1 + bytes[SESSION_AT as int];
        if suites + 2 > bytes.len() {
            None
        } else {
            let methods = suites + 2 + be16(bytes, suites);
            if methods + 1 > bytes.len() {
                None
            } else {
                let list = methods + 1 + bytes[methods];
                if list + 2 > bytes.len() {
                    None
                } else {
                    let start = list + 2;
                    let end = start + be16(bytes, list);
                    if end > bytes.len() {
                        None
                    } else {
                        Some((start, end))
                    }
                }
            }
        }
    }
}

/// The host name in the data of a server-name extension that takes `len`
/// bytes from `start`: the first entry of its list, if that is a host name
/// that lies within the data.
pub open spec fn host_name(bytes: Seq<u8>, start: int, len: int) -> Option<Seq<u8>> {
    if len < 5 || bytes[start + 2] != 0 || 5 + be16(bytes, start + 3) > len {
        None
    } else {
        Some(bytes.subrange(start + 5, start + 5 + be16(bytes, start + 3)))
    }
}

/// The host name of the first server-name extension among the extensions
/// from `at` to `end`. An extension that does not lie within them ends the
/// search.
pub open spec fn find_name(bytes: Seq<u8>, at: int, end: int) -> Option<Seq<u8>>
    decreases end - at,
{
    if at < 0 || at + 4 > end {
        None
    } else {
        let len = be16(bytes, at + 2);
        if at + 4 + len > end {
            None
        } else if be16(bytes, at) == 0 {
            host_name(bytes, at + 4, len)
        } else {
            find_name(bytes, at + 4 + len, end)
        }
    }
}

/// The server name that the client asks for in `bytes`, if they hold a whole
/// client's hello with such a name.
pub open spec fn server_name(bytes: Seq<u8>) -> Option<Seq<u8>> {
    match extensions(bytes) {
        Some((start, end)) => find_name(bytes, start, end),
        None => None,
    }
}

fn read16(bytes: &[u8], at: usize) -> (n: usize)
    requires
        at + 2 <= bytes@.len(),
    ensures
        n == be16(bytes@, at as int),
        n <= 65535,
{
    bytes[at] as usize * 256 + bytes[at + 1] as usize
}

fn extensions_of(bytes: &[u8]) -> (range: Option<(usize, usize)>)
    ensures
        match range {
            Some((start, end)) => extensions(bytes@) == Some((start as int, end as int)) && start
                <= end <= bytes@.len(),
            None => extensions(bytes@) is None,
        },
{
    let total = bytes.len();
    if total <= SESSION_AT || bytes[0] != HANDSHAKE || bytes[5] != CLIENT_HELLO {
        return None;
    }
    let suites = SESSION_AT + 1 + bytes[SESSION_AT] as usize;
    if suites > total || total - suites < 2 {
        return None;
    }
    let suites_len = read16(bytes, suites);
    if suites_len > total - suites - 2 {
        return None;
    }
    let methods = suites + 2 + suites_len;
    if methods >= total {
        return None;
    }
    let methods_len = bytes[methods] as usize;
    if methods_len > total - methods - 1 {
        return None;
    }
    let list = methods + 1 + methods_len;
    if total - list < 2 {
        return None;
    }
    let len = read16(bytes, list);
    if len > total - list - 2 {
        return None;
    }
    Some((list + 2, list + 2 + len))
}

/// Reads the server name that a client asks for from the first bytes it
/// sent: the host name of the first server-name extension of its hello.
/// There is none where the bytes are no client's hello, where the hello is
/// not whole, and where it names no server.
pub fn sniff(bytes: &[u8]) -> (name: Option<Vec<u8>>)
    ensures
        match name {
            Some(n) => server_name(bytes@) == Some(n@),
            None => server_name(bytes@) is None,
        },
{
    let (start, end) = match extensions_of(bytes) {
        Some(range) => range,
        None => {
            return None;
        },
    };
    let mut at = start;
    while end - at >= 4
        invariant
            start <= at <= end <= bytes@.len(),
            server_name(bytes@) == find_name(bytes@, start as int, end as int),
            find_name(bytes@, start as int, end as int) == find_name(
                bytes@,
                at as int,
                end as int,
            ),
        decreases end - at,
    {
        let kind = read16(bytes, at);
        let len = read16(bytes, at + 2);
        if len > end - at - 4 {
            return None;
        }
        if kind == 0 {
            let data = at + 4;
            if len < 5 || bytes[data + 2] != 0 {
                return None;
            }
            let name_len = read16(bytes, data + 3);
            if 5 + name_len > len {
                return None;
            }
            let name = slice_to_vec(slice_subrange(bytes, data + 5, data + 5 + name_len));
            return Some(name);
        }
        at = at + 4 + len;
    }
    None
}

/// `std::string::FromUtf8Error`, of which nothing is known.
#[verifier::external_type_specification]
#[verifier::external_body]
pub struct ExFromUtf8Error(std::string::FromUtf8Error);

/// `String::from_utf8`: the text that the bytes spell, or an error where they
/// are not UTF-8.
#[verifier::external_body]
fn from_utf8(bytes: Vec<u8>) -> (text: Result<String, std::string::FromUtf8Error>)
    ensures
        match text {
            Ok(t) => valid_utf8(bytes@) && t@ == decode_utf8(bytes@),
            Err(_) => !valid_utf8(bytes@),
        },
{
    String::from_utf8(bytes)
}

/// The server name as text, where the client's first bytes hold one and it
/// is UTF-8.
pub fn sniff_host(bytes: &[u8]) -> (host: Option<String>)
    ensures
        match host {
            Some(h) => server_name(bytes@) matches Some(n) && valid_utf8(n) && h@ == decode_utf8(
                n,
            ),
            None => server_name(bytes@) matches Some(n) ==> !valid_utf8(n),
        },
{
    match sniff(bytes) {
        Some(name) => match from_utf8(name) {
            Ok(host) => Some(host),
            Err(_) => None,
        },
        None => None,
    }
}

} // verus!
