//! Asking an HTTP proxy for a tunnel.
//!
//! The client sends a `CONNECT` request for the host and port of the
//! destination and takes any 2xx status for the proxy's consent.

use vstd::prelude::*;
use vstd::string::StringSliceAdditionalSpecFns;

verus! {

/// The decimal digits of `n`.
pub open spec fn decimal(n: nat) -> Seq<u8>
    decreases n,
{
    if n < 10 {
        seq![(48 + n) as u8]
    } else {
        decimal(n / 10).push((48 + n % 10) as u8)
    }
}

/// Host and port as a request for a tunnel names them: the host, a colon
/// and the port in decimal.
pub open spec fn authority(host: Seq<u8>, port: u16) -> Seq<u8> {
    host + seq![58u8] + decimal(port as nat)
}

/// One header line: the name, a colon and a blank, the value, and the end
/// of the line.
pub open spec fn header_line(name: Seq<u8>, value: Seq<u8>) -> Seq<u8> {
    name + seq![58u8, 32u8] + value + seq![13u8, 10u8]
}

/// The header lines for a list of names and values, in its order.
pub open spec fn header_lines(headers: Seq<(String, Vec<u8>)>) -> Seq<u8>
    decreases headers.len(),
{
    if headers.len() == 0 {
        Seq::empty()
    } else {
        header_lines(headers.drop_last()) + header_line(
            vstd::utf8::encode_utf8(headers.last().0@),
            headers.last().1@,
        )
    }
}

/// The request for a tunnel to `host` and `port`: the request line, the
/// `Host` header, the `Proxy-Authorization` header where there are
/// credentials, the other headers, and an empty line.
pub open spec fn connect_request(
    host: Seq<u8>,
    port: u16,
    auth: Option<Seq<u8>>,
    headers: Seq<(String, Vec<u8>)>,
) -> Seq<u8> {
    "CONNECT ".spec_bytes() + authority(host, port) + " HTTP/1.1\r\n".spec_bytes() + header_line(
        "Host".spec_bytes(),
        authority(host, port),
    ) + match auth {
        Some(a) => header_line("Proxy-Authorization".spec_bytes(), a),
        None => Seq::empty(),
    } + header_lines(headers) + seq![13u8, 10u8]
}

/// Adds the decimal digits of `n` to `out`.
fn push_decimal(out: &mut Vec<u8>, n: u16)
    ensures
        final(out)@ == old(out)@ + decimal(n as nat),
    decreases n,
{
    if n < 10 {
        out.push(48 + n as u8);
        proof {
            assert(out@ =~= old(out)@ + decimal(n as nat));
        }
    } else {
        push_decimal(out, n / 10);
        out.push(48 + (n % 10) as u8);
        proof {
            assert(out@ =~= old(out)@ + decimal(n as nat));
        }
    }
}

/// Adds host and port to `out`.
fn push_authority(out: &mut Vec<u8>, host: &str, port: u16)
    ensures
        final(out)@ == old(out)@ + authority(host.spec_bytes(), port),
{
    out.extend_from_slice(host.as_bytes());
    out.push(58);
    push_decimal(out, port);
    proof {
        assert(out@ =~= old(out)@ + authority(host.spec_bytes(), port));
    }
}

/// Adds one header line to `out`.
fn push_header_line(out: &mut Vec<u8>, name: &[u8], value: &[u8])
    ensures
        final(out)@ == old(out)@ + header_line(name@, value@),
{
    out.extend_from_slice(name);
    out.push(58);
    out.push(32);
    out.extend_from_slice(value);
    out.push(13);
    out.push(10);
    proof {
        assert(out@ =~= old(out)@ + header_line(name@, value@));
    }
}

/// Writes the request for a tunnel to `host` and `port`.
pub fn tunnel_request(host: &str, port: u16, auth: Option<&[u8]>, headers: &Vec<(String, Vec<u8>)>)
    -> (out: Vec<u8>)
    ensures
        out@ == connect_request(
            host.spec_bytes(),
            port,
            match auth {
                Some(a) => Some(a@),
                None => None,
            },
            headers@,
        ),
{
    let mut out: Vec<u8> = Vec::new();
    out.extend_from_slice("CONNECT ".as_bytes());
    push_authority(&mut out, host, port);
    out.extend_from_slice(" HTTP/1.1\r\n".as_bytes());
    out.extend_from_slice("Host".as_bytes());
    out.push(58);
    out.push(32);
    push_authority(&mut out, host, port);
    out.push(13);
    out.push(10);
    match auth {
        Some(a) => {
            push_header_line(&mut out, "Proxy-Authorization".as_bytes(), a);
        },
        None => {},
    }
    let ghost head = out@;
    proof {
        assert(head =~= "CONNECT ".spec_bytes() + authority(host.spec_bytes(), port)
            + " HTTP/1.1\r\n".spec_bytes() + header_line(
            "Host".spec_bytes(),
            authority(host.spec_bytes(), port),
        ) + match auth {
            Some(a) => header_line("Proxy-Authorization".spec_bytes(), a@),
            None => Seq::empty(),
        });
    }
    let mut i: usize = 0;
    while i < headers.len()
        invariant
            i <= headers.len(),
            out@ == head + header_lines(headers@.take(i as int)),
        decreases headers.len() - i,
    {
        let ghost before = out@;
        push_header_line(&mut out, headers[i].0.as_str().as_bytes(), headers[i].1.as_slice());
        proof {
            let upto = headers@.take(i + 1);
            assert(upto.drop_last() =~= headers@.take(i as int));
            assert(upto.last() == headers@[i as int]);
            assert(out@ =~= head + header_lines(upto));
        }
        i += 1;
    }
    out.push(13);
    out.push(10);
    proof {
        assert(headers@.take(headers@.len() as int) =~= headers@);
        assert(out@ =~= head + header_lines(headers@) + seq![13u8, 10u8]);
    }
    out
}

/// Whether `b` is a decimal digit.
pub open spec fn is_digit(b: u8) -> bool {
    48 <= b <= 57
}

/// Whether the head of a response says that the tunnel stands: it begins
/// with `HTTP/`, a version of two digits with a dot between, a blank and a
/// status from 200 to 299.
pub open spec fn consents(head: Seq<u8>) -> bool {
    &&& head.len() >= 12
    &&& head[0] == 72 && head[1] == 84 && head[2] == 84 && head[3] == 80 && head[4] == 47
    &&& is_digit(head[5]) && head[6] == 46 && is_digit(head[7])
    &&& head[8] == 32
    &&& head[9] == 50 && is_digit(head[10]) && is_digit(head[11])
}

/// Whether `b` is a decimal digit.
fn digit(b: u8) -> (d: bool)
    ensures
        d == is_digit(b),
{
    48 <= b && b <= 57
}

/// Whether the head of a response says that the tunnel stands.
pub fn tunnel_established(head: &[u8]) -> (ok: bool)
    ensures
        ok == consents(head@),
{
    if head.len() < 12 {
        return false;
    }
    head[0] == 72 && head[1] == 84 && head[2] == 84 && head[3] == 80 && head[4] == 47 && digit(
        head[5],
    ) && head[6] == 46 && digit(head[7]) && head[8] == 32 && head[9] == 50 && digit(head[10])
        && digit(head[11])
}

} // verus!
