//! Networking: address parsing, timeout conversion and read-status
//! interpretation for Unix-domain sockets, TCP and UDP.
use vstd::prelude::*;
use crate::duration::{Duration, duration_to_ms, saturate_u64};
use crate::error::{SysError, api_error, host_error_str};
use crate::strings::{find_char, index_of, lemma_index_of, lemma_rindex_of, rfind_char, rindex_of, sub_chars, contains, contains_chars};
use crate::text::{chars_of, decimal, digit_char, push_str, string_from_chars};

verus! {

/// Direction argument for a stream shutdown.
#[derive(Debug, Clone, Copy, PartialEq, Eq)]
pub enum Shutdown {
    /// Half-close the read side.
    Read,
    /// Half-close the write side.
    Write,
    /// Close both directions.
    Both,
}

/// Status of a framed read on a stream.
#[derive(Debug, Clone, PartialEq, Eq)]
pub enum ReadStatus {
    /// Data frame received.
    Data(Vec<u8>),
    /// Stream closed by peer.
    Closed,
    /// No data available right now.
    Pending,
}

/// Error returned by a blocking receive when the stream is closed.
#[derive(Debug, Clone, Copy, PartialEq, Eq)]
pub struct RecvError;

/// Error returned by a non-blocking receive.
#[derive(Debug, Clone, Copy, PartialEq, Eq)]
pub enum TryRecvError {
    /// No message available yet; try again later.
    Empty,
    /// The peer has disconnected and no more messages will arrive.
    Closed,
}

/// Error returned by a send when the stream is closed.
#[derive(Debug, Clone, Copy, PartialEq, Eq)]
pub struct SendError;

/// A UDP datagram received from a peer.
#[derive(Debug, Clone, PartialEq, Eq)]
pub struct UdpDatagram {
    /// Payload bytes received.
    pub data: Vec<u8>,
    /// Peer host (numeric IP).
    pub peer_host: String,
    /// Peer UDP port.
    pub peer_port: u16,
}

impl RecvError {
    /// The error's text.
    pub fn message(&self) -> (m: String)
        ensures
            m@ == "stream closed"@,
    {
        String::from_str("stream closed")
    }
}

impl SendError {
    /// The error's text.
    pub fn message(&self) -> (m: String)
        ensures
            m@ == "stream closed"@,
    {
        String::from_str("stream closed")
    }
}

impl TryRecvError {
    /// The error's text.
    pub fn message(&self) -> (m: String)
        ensures
            m@ == (match *self {
                TryRecvError::Empty => "no message available"@,
                TryRecvError::Closed => "stream closed"@,
            }),
    {
        match self {
            TryRecvError::Empty => String::from_str("no message available"),
            TryRecvError::Closed => String::from_str("stream closed"),
        }
    }
}

/// The outcome of a non-blocking frame receive, given what the host's
/// framed read returned: data is delivered, a closed stream or a failed
/// read reads as closed, a pending stream as empty.
pub fn try_recv(read: Result<ReadStatus, SysError>) -> (r: Result<Vec<u8>, TryRecvError>)
    ensures
        match read {
            Ok(ReadStatus::Data(bytes)) => r == Ok::<Vec<u8>, TryRecvError>(bytes),
            Ok(ReadStatus::Pending) => r == Err::<Vec<u8>, TryRecvError>(TryRecvError::Empty),
            _ => r == Err::<Vec<u8>, TryRecvError>(TryRecvError::Closed),
        },
{
    match read {
        Ok(ReadStatus::Data(bytes)) => Ok(bytes),
        Ok(ReadStatus::Closed) => Err(TryRecvError::Closed),
        Ok(ReadStatus::Pending) => Err(TryRecvError::Empty),
        Err(_) => Err(TryRecvError::Closed),
    }
}

/// Validate and convert a socket timeout to milliseconds for the host.
///
/// `None` clears the timeout; a zero duration is rejected (it would be
/// ambiguous with "no timeout"); other durations are whole milliseconds,
/// saturating at `u64::MAX`.
pub fn to_host_timeout(timeout: Option<Duration>) -> (r: Result<Option<u64>, SysError>)
    ensures
        match timeout {
            None => r == Ok::<Option<u64>, SysError>(None),
            Some(d) => if d.total_nanos() == 0 {
                r matches Err(SysError::HostError(m)) && m@ == "timeout must be non-zero (use None to clear)"@
            } else {
                r == Ok::<Option<u64>, SysError>(Some(saturate_u64(d.total_millis())))
            },
        },
{
    match timeout {
        Some(d) => {
            if d.is_zero() {
                Err(host_error_str("timeout must be non-zero (use None to clear)"))
            } else {
                Ok(Some(duration_to_ms(d)))
            }
        },
        None => Ok(None),
    }
}

/// Why a decimal integer failed to parse, as `core::num::IntErrorKind`.
#[derive(Debug, Clone, Copy, PartialEq, Eq)]
pub enum IntErrorKind {
    Empty,
    InvalidDigit,
    PosOverflow,
}

pub open spec fn is_digit(c: char) -> bool {
    '0' <= c <= '9'
}

pub open spec fn digit_value(c: char) -> int {
    (c as int) - ('0' as int)
}

/// Left-to-right scan of decimal digits onto `acc`, as `u16::from_str`
/// does it: the first non-digit, or the first step past `u16::MAX`, ends
/// the scan with an error.
pub open spec fn scan_u16(digits: Seq<char>, acc: int) -> Result<u16, IntErrorKind>
    decreases digits.len(),
{
    if digits.len() == 0 {
        Ok(acc as u16)
    } else if !is_digit(digits[0]) {
        Err(IntErrorKind::InvalidDigit)
    } else if acc * 10 + digit_value(digits[0]) > u16::MAX {
        Err(IntErrorKind::PosOverflow)
    } else {
        scan_u16(digits.drop_first(), acc * 10 + digit_value(digits[0]))
    }
}

/// `u16::from_str` on `s`: an optional `+` sign, then decimal digits.
pub open spec fn parse_u16_spec(s: Seq<char>) -> Result<u16, IntErrorKind> {
    if s.len() == 0 {
        Err(IntErrorKind::Empty)
    } else if s.len() == 1 && (s[0] == '+' || s[0] == '-') {
        Err(IntErrorKind::InvalidDigit)
    } else if s[0] == '+' {
        scan_u16(s.drop_first(), 0)
    } else {
        scan_u16(s, 0)
    }
}

/// The text `ParseIntError` displays for `kind`.
pub open spec fn int_error_text(kind: IntErrorKind) -> Seq<char> {
    match kind {
        IntErrorKind::Empty => "cannot parse integer from empty string"@,
        IntErrorKind::InvalidDigit => "invalid digit found in string"@,
        IntErrorKind::PosOverflow => "number too large to fit in target type"@,
    }
}

proof fn lemma_scan_u16_step(digits: Seq<char>, i: int, acc: int)
    requires
        0 <= i < digits.len(),
        is_digit(digits[i]),
        acc * 10 + digit_value(digits[i]) <= u16::MAX,
    ensures
        scan_u16(digits.skip(i), acc) == scan_u16(digits.skip(i + 1), acc * 10 + digit_value(digits[i])),
{
    assert(digits.skip(i).drop_first() =~= digits.skip(i + 1));
}

/// Parse a decimal port number as `u16::from_str` does.
pub fn parse_u16(s: &Vec<char>) -> (r: Result<u16, IntErrorKind>)
    ensures
        r == parse_u16_spec(s@),
{
    if s.len() == 0 {
        return Err(IntErrorKind::Empty);
    }
    if s.len() == 1 && (s[0] == '+' || s[0] == '-') {
        return Err(IntErrorKind::InvalidDigit);
    }
    let start: usize = if s[0] == '+' { 1 } else { 0 };
    proof {
        if start == 1 {
            assert(s@.skip(1) =~= s@.drop_first());
        } else {
            assert(s@.skip(0) =~= s@);
        }
    }
    let mut acc: u32 = 0;
    let mut i: usize = start;
    while i < s.len()
        invariant
            start <= i <= s.len(),
            acc <= u16::MAX,
            parse_u16_spec(s@) == scan_u16(s@.skip(i as int), acc as int),
        decreases s.len() - i,
    {
        let c = s[i];
        if !('0' <= c && c <= '9') {
            proof {
                assert(s@.skip(i as int)[0] == c);
            }
            return Err(IntErrorKind::InvalidDigit);
        }
        let d = (c as u32) - ('0' as u32);
        if acc * 10 + d > 65535 {
            proof {
                assert(s@.skip(i as int)[0] == c);
            }
            return Err(IntErrorKind::PosOverflow);
        }
        proof {
            lemma_scan_u16_step(s@, i as int, acc as int);
        }
        acc = acc * 10 + d;
        i = i + 1;
    }
    assert(s@.skip(i as int).len() == 0);
    Ok(acc as u16)
}

pub open spec fn port_error_message(kind: IntErrorKind) -> Seq<char> {
    "invalid port: "@ + int_error_text(kind)
}

fn int_error_message(kind: IntErrorKind) -> (v: Vec<char>)
    ensures
        v@ == port_error_message(kind),
{
    let mut v = Vec::new();
    push_str(&mut v, "invalid port: ");
    match kind {
        IntErrorKind::Empty => push_str(&mut v, "cannot parse integer from empty string"),
        IntErrorKind::InvalidDigit => push_str(&mut v, "invalid digit found in string"),
        IntErrorKind::PosOverflow => push_str(&mut v, "number too large to fit in target type"),
    }
    v
}

/// Parse a port string; an invalid port is an error naming the cause.
pub fn parse_port(port: &Vec<char>) -> (r: Result<u16, SysError>)
    ensures
        match parse_u16_spec(port@) {
            Ok(p) => r == Ok::<u16, SysError>(p),
            Err(k) => r matches Err(SysError::ApiError(m)) && m@ == port_error_message(k),
        },
{
    match parse_u16(port) {
        Ok(p) => Ok(p),
        Err(k) => Err(api_error(&int_error_message(k))),
    }
}

pub open spec fn missing_bracket_message() -> Seq<char> {
    "missing closing `]` in IPv6 address"@
}

pub open spec fn missing_port_after_bracket_message() -> Seq<char> {
    "IPv6 address must be followed by `:port`"@
}

pub open spec fn missing_colon_message() -> Seq<char> {
    "address must be \"host:port\""@
}

/// How `"host:port"` splits: an IPv6 literal in `[v6]:port` form loses its
/// brackets and splits at the closing bracket; any other address splits at
/// its last colon. `Err` carries the refusal message.
pub open spec fn host_port_spec(a: Seq<char>) -> Result<(Seq<char>, u16), Seq<char>> {
    if a.len() > 0 && a[0] == '[' {
        let rest = a.drop_first();
        let k = index_of(rest, ']');
        if k < 0 {
            Err(missing_bracket_message())
        } else {
            let after = rest.skip(k + 1);
            if after.len() == 0 || after[0] != ':' {
                Err(missing_port_after_bracket_message())
            } else {
                match parse_u16_spec(after.drop_first()) {
                    Ok(p) => Ok((rest.take(k), p)),
                    Err(e) => Err(port_error_message(e)),
                }
            }
        }
    } else {
        let k = rindex_of(a, ':');
        if k < 0 {
            Err(missing_colon_message())
        } else {
            match parse_u16_spec(a.skip(k + 1)) {
                Ok(p) => Ok((a.take(k), p)),
                Err(e) => Err(port_error_message(e)),
            }
        }
    }
}

/// Parse `"host:port"`. Strips IPv6 square brackets (`[::1]:443` gives
/// `("::1", 443)`) because the host takes a raw hostname or IP.
pub fn parse_host_port(addr: &str) -> (r: Result<(String, u16), SysError>)
    ensures
        match host_port_spec(addr@) {
            Ok((h, p)) => r is Ok && r->Ok_0.0@ == h && r->Ok_0.1 == p,
            Err(m) => r matches Err(SysError::ApiError(e)) && e@ == m,
        },
{
    let a = chars_of(addr);
    if a.len() > 0 && a[0] == '[' {
        let rest = sub_chars(&a, 1, a.len());
        assert(rest@ =~= a@.drop_first());
        match find_char(&rest, ']') {
            None => {
                let mut m = Vec::new();
                push_str(&mut m, "missing closing `]` in IPv6 address");
                Err(api_error(&m))
            },
            Some(k) => {
                let after = sub_chars(&rest, k + 1, rest.len());
                assert(after@ =~= rest@.skip(k + 1));
                if after.len() == 0 || after[0] != ':' {
                    let mut m = Vec::new();
                    push_str(&mut m, "IPv6 address must be followed by `:port`");
                    Err(api_error(&m))
                } else {
                    let port_chars = sub_chars(&after, 1, after.len());
                    assert(port_chars@ =~= after@.drop_first());
                    let port = parse_port(&port_chars)?;
                    let host = sub_chars(&rest, 0, k);
                    assert(host@ =~= rest@.take(k as int));
                    Ok((string_from_chars(host.as_slice()), port))
                }
            },
        }
    } else {
        match rfind_char(&a, ':') {
            None => {
                let mut m = Vec::new();
                push_str(&mut m, "address must be \"host:port\"");
                Err(api_error(&m))
            },
            Some(k) => {
                let port_chars = sub_chars(&a, k + 1, a.len());
                assert(port_chars@ =~= a@.skip(k + 1));
                let port = parse_port(&port_chars)?;
                let host = sub_chars(&a, 0, k);
                assert(host@ =~= a@.take(k as int));
                Ok((string_from_chars(host.as_slice()), port))
            },
        }
    }
}

/// Whether a host networking failure (by its text) means "would block":
/// a timeout fired and the caller may retry, as opposed to a real EOF or
/// transport error.
pub fn is_would_block(message: &str) -> (b: bool)
    ensures
        b == (contains(message@, "WouldBlock"@) || contains(message@, "would block"@)),
{
    let m = chars_of(message);
    let p1 = chars_of("WouldBlock");
    let p2 = chars_of("would block");
    contains_chars(&m, &p1) || contains_chars(&m, &p2)
}

/// The kind of an I/O error raised by a socket operation.
#[derive(Debug, Clone, Copy, PartialEq, Eq)]
pub enum IoErrorKind {
    /// The operation would block (a timeout fired); retrying may succeed.
    WouldBlock,
    /// Any other failure.
    Other,
}

/// An I/O error raised by a socket operation.
#[derive(Debug, Clone)]
pub struct IoError {
    pub kind: IoErrorKind,
    pub message: String,
}

/// The I/O error for a failed host networking call, from the failure's
/// text: "would block" when the text says so, any other kind otherwise;
/// the text is kept as the message.
pub fn io_error_from_net_op(message: &str) -> (e: IoError)
    ensures
        e.message@ == message@,
        (e.kind == IoErrorKind::WouldBlock) == (contains(message@, "WouldBlock"@) || contains(
            message@,
            "would block"@,
        )),
{
    let kind = if is_would_block(message) {
        IoErrorKind::WouldBlock
    } else {
        IoErrorKind::Other
    };
    IoError { kind, message: String::from_str(message) }
}

proof fn lemma_digit_char(d: int)
    requires
        0 <= d < 10,
    ensures
        is_digit(digit_char(d)),
        digit_value(digit_char(d)) == d,
        digit_char(d) != ':',
        digit_char(d) != ']',
{
}

proof fn lemma_scan_push(s: Seq<char>, c: char, acc: int, v: int)
    requires
        0 <= acc <= u16::MAX,
        scan_u16(s, acc) == Ok::<u16, IntErrorKind>(v as u16),
        0 <= v <= u16::MAX,
        is_digit(c),
        v * 10 + digit_value(c) <= u16::MAX,
    ensures
        scan_u16(s.push(c), acc) == Ok::<u16, IntErrorKind>((v * 10 + digit_value(c)) as u16),
    decreases s.len(),
{
    if s.len() == 0 {
        assert(acc == v);
        assert(s.push(c).drop_first() =~= Seq::<char>::empty());
        assert(s.push(c)[0] == c);
        reveal_with_fuel(scan_u16, 2);
    } else {
        assert(s.push(c).drop_first() =~= s.drop_first().push(c));
        assert(s.push(c)[0] == s[0]);
        lemma_scan_push(s.drop_first(), c, acc * 10 + digit_value(s[0]), v);
    }
}

proof fn lemma_scan_decimal(n: nat)
    requires
        n <= u16::MAX,
    ensures
        scan_u16(decimal(n), 0) == Ok::<u16, IntErrorKind>(n as u16),
        forall|i: int| 0 <= i < decimal(n).len() ==> is_digit(#[trigger] decimal(n)[i]),
        decimal(n).len() > 0,
    decreases n,
{
    if n < 10 {
        lemma_digit_char(n as int);
        assert(decimal(n) == seq![digit_char(n as int)]);
        assert(decimal(n).drop_first() =~= Seq::<char>::empty());
        reveal_with_fuel(scan_u16, 2);
    } else {
        lemma_scan_decimal(n / 10);
        lemma_digit_char((n % 10) as int);
        lemma_scan_push(decimal(n / 10), digit_char((n % 10) as int), 0, (n / 10) as int);
        assert((n / 10) * 10 + n % 10 == n);
    }
}

/// The decimal text of a port reads back as that port.
pub proof fn law_port_text_parses(p: u16)
    ensures
        parse_u16_spec(decimal(p as nat)) == Ok::<u16, IntErrorKind>(p),
{
    lemma_scan_decimal(p as nat);
    lemma_digit_char(0);
}

/// Writing a host and a port as `host:port` and parsing the text gives
/// back the host and the port, for any host that does not begin with `[`
/// (it may hold colons itself: the split is at the last one).
pub proof fn law_host_port_roundtrip(host: Seq<char>, port: u16)
    requires
        host.len() == 0 || host[0] != '[',
    ensures
        host_port_spec(host + ":"@ + decimal(port as nat)) == Ok::<(Seq<char>, u16), Seq<char>>((host, port)),
{
    reveal_strlit(":");
    let d = decimal(port as nat);
    let a = host + ":"@ + d;
    law_port_text_parses(port);
    lemma_scan_decimal(port as nat);
    let k = host.len() as int;
    assert(a[k] == ':');
    assert forall|j: int| k < j < a.len() implies a[j] != ':' by {
        assert(a[j] == d[j - k - 1]);
    }
    lemma_rindex_of(a, ':', k);
    assert(a.skip(k + 1) =~= d);
    assert(a.take(k) =~= host);
    if host.len() == 0 {
        assert(a[0] == ':');
    } else {
        assert(a[0] == host[0]);
    }
}

/// Writing an IPv6 host and a port as `[host]:port` and parsing the text
/// gives back the host without its brackets, and the port, for any host
/// that holds no `]`.
pub proof fn law_bracketed_host_port_roundtrip(host: Seq<char>, port: u16)
    requires
        forall|i: int| 0 <= i < host.len() ==> host[i] != ']',
    ensures
        host_port_spec("["@ + host + "]:"@ + decimal(port as nat)) == Ok::<(Seq<char>, u16), Seq<char>>((host, port)),
{
    reveal_strlit("[");
    reveal_strlit("]:");
    let d = decimal(port as nat);
    let a = "["@ + host + "]:"@ + d;
    law_port_text_parses(port);
    let rest = a.drop_first();
    assert(rest =~= host + "]:"@ + d);
    let k = host.len() as int;
    assert forall|j: int| 0 <= j < k implies rest[j] != ']' by {
        assert(rest[j] == host[j]);
    }
    assert(rest[k] == ']');
    lemma_index_of(rest, ']', k);
    let after = rest.skip(k + 1);
    assert(after =~= ":"@ + d) by {
        reveal_strlit(":");
    }
    assert(after[0] == ':');
    assert(after.drop_first() =~= d);
    assert(rest.take(k) =~= host);
}

} // verus!
