//! The PORT command: the client names the address and port the server
//! connects to for the data transfer.
//!
//! The argument is six comma-separated decimal octets `h1,h2,h3,h4,p1,p2`:
//! the IPv4 address and the port encoded as `p1 * 256 + p2`.

use vstd::prelude::*;

use crate::command::FTPCommand;
use crate::errors::FtpError;
use crate::session::SessionState;
use crate::status_codes::StatusCode;
use crate::text::{parse_u8, spec_is_numeral, spec_numeral_val, str_eq};
use crate::types::Ipv4Addr;

verus! {

/// The length of the comma-free prefix of `s`.
pub open spec fn field_len(s: Seq<char>) -> nat
    decreases s.len(),
{
    if s.len() == 0 || s[0] == ',' {
        0
    } else {
        1 + field_len(s.drop_first())
    }
}

/// The comma-free prefix never exceeds the sequence.
pub proof fn lemma_field_len_bounds(s: Seq<char>)
    ensures
        field_len(s) <= s.len(),
    decreases s.len(),
{
    if s.len() > 0 && s[0] != ',' {
        lemma_field_len_bounds(s.drop_first());
    }
}

/// The comma-free prefix ends exactly at the first comma (or at the end).
pub proof fn lemma_field_len_value(s: Seq<char>, k: int)
    requires
        0 <= k <= s.len(),
        forall|m: int| 0 <= m < k ==> s[m] != ',',
        k == s.len() || s[k] == ',',
    ensures
        field_len(s) == k,
    decreases k,
{
    if k > 0 {
        lemma_field_len_value(s.drop_first(), k - 1);
    }
}

#[via_fn]
proof fn spec_fields_decreases(s: Seq<char>) {
    lemma_field_len_bounds(s);
}

/// The comma-separated fields of `s`, in order, empty fields included: the
/// exact splitting `str::split(',')` performs.
pub open spec fn spec_fields(s: Seq<char>) -> Seq<Seq<char>>
    decreases s.len(),
        via spec_fields_decreases
{
    let n = field_len(s) as int;
    if n == s.len() {
        seq![s]
    } else {
        seq![s.take(n)] + spec_fields(s.skip(n + 1))
    }
}

/// Whether `s` is a valid PORT argument: six fields, each a decimal numeral
/// that fits in an octet.
pub open spec fn spec_port_arg_ok(s: Seq<char>) -> bool {
    &&& spec_fields(s).len() == 6
    &&& forall|i: int|
        0 <= i < 6 ==> spec_is_numeral(#[trigger] spec_fields(s)[i]) && spec_numeral_val(
            spec_fields(s)[i],
        ) <= 255
}

/// The IPv4 address a valid PORT argument names.
pub open spec fn spec_port_ip(s: Seq<char>) -> Ipv4Addr {
    Ipv4Addr {
        o1: spec_numeral_val(spec_fields(s)[0]) as u8,
        o2: spec_numeral_val(spec_fields(s)[1]) as u8,
        o3: spec_numeral_val(spec_fields(s)[2]) as u8,
        o4: spec_numeral_val(spec_fields(s)[3]) as u8,
    }
}

/// The port a valid PORT argument encodes.
pub open spec fn spec_port_num(s: Seq<char>) -> u16 {
    (spec_numeral_val(spec_fields(s)[4]) * 256 + spec_numeral_val(spec_fields(s)[5])) as u16
}

/// A maximal comma-free run `s[i..j]` followed by a comma is the next field
/// of `s.skip(i)`.
proof fn lemma_fields_step(s: Seq<char>, i: int, j: int)
    requires
        0 <= i <= j <= s.len(),
        forall|m: int| i <= m < j ==> s[m] != ',',
        j == s.len() || s[j] == ',',
    ensures
        j < s.len() ==> spec_fields(s.skip(i)) == seq![s.subrange(i, j)] + spec_fields(
            s.skip(j + 1),
        ),
        j == s.len() ==> spec_fields(s.skip(i)) == seq![s.subrange(i, j)],
{
    let t = s.skip(i);
    assert(forall|m: int| 0 <= m < j - i ==> t[m] == s[i + m] && t[m] != ',');
    if j < s.len() {
        assert(t[j - i] == s[j]);
    }
    lemma_field_len_value(t, j - i);
    assert(t.take(j - i) =~= s.subrange(i, j));
    if j < s.len() {
        assert(t.skip(j - i + 1) =~= s.skip(j + 1));
    } else {
        assert(t.take(j - i) =~= t);
    }
}

/// Splits a string on commas, fields in order, empty fields included.
pub fn split_fields(input: &str) -> (r: Vec<String>)
    ensures
        crate::parser::views(r@) == spec_fields(input@),
{
    let n = input.unicode_len();
    let mut out: Vec<String> = Vec::new();
    let mut i: usize = 0;
    let mut done = false;
    proof {
        assert(input@.skip(0) =~= input@);
    }
    while !done
        invariant
            n == input@.len(),
            i <= n,
            !done ==> spec_fields(input@) == crate::parser::views(out@) + spec_fields(
                input@.skip(i as int),
            ),
            done ==> crate::parser::views(out@) == spec_fields(input@),
        decreases n - i + (if done { 0int } else { 1int }),
    {
        let start = i;
        let mut j = i;
        while j < n
            invariant
                n == input@.len(),
                start <= j <= n,
                forall|m: int| start <= m < j ==> input@[m] != ',',
            ensures
                start <= j <= n,
                forall|m: int| start <= m < j ==> input@[m] != ',',
                j == n || input@[j as int] == ',',
            decreases n - j,
        {
            if input.get_char(j) == ',' {
                break;
            }
            j = j + 1;
        }
        let field = input.substring_char(start, j).to_owned();
        proof {
            lemma_fields_step(input@, start as int, j as int);
            assert(crate::parser::views(out@.push(field)) =~= crate::parser::views(out@) + seq![
                field@,
            ]);
        }
        if j < n {
            proof {
                assert(crate::parser::views(out@) + (seq![field@] + spec_fields(
                    input@.skip(j + 1),
                )) =~= (crate::parser::views(out@) + seq![field@]) + spec_fields(
                    input@.skip(j + 1),
                ));
            }
            out.push(field);
            i = j + 1;
        } else {
            proof {
                assert(crate::parser::views(out@) + seq![field@] =~= crate::parser::views(
                    out@.push(field),
                ));
            }
            out.push(field);
            done = true;
        }
    }
    out
}

/// PORT with the parsed target address and port.
#[derive(Debug, Clone, PartialEq)]
pub struct Port {
    pub ip: Ipv4Addr,
    pub port: u16,
}

impl crate::command::FTPCommand for Port {
    open spec fn spec_keyword() -> Seq<char> {
        "PORT"@
    }

    fn keyword() -> (r: &'static str) {
        "PORT"
    }

    fn is_keyword(command: &str) -> (r: bool) {
        str_eq(command, "PORT")
    }
}

impl Port {
    /// Builds the command from a parsed line: one argument holding the six
    /// comma-separated octets.
    pub fn try_from(command: &str, args: Vec<String>) -> (r: Result<Self, FtpError>)
        ensures
            command@ == Self::spec_keyword() && args@.len() == 1 && spec_port_arg_ok(args@[0]@)
                ==> (r matches Ok(c) && c.ip == spec_port_ip(args@[0]@) && c.port == spec_port_num(
                args@[0]@,
            )),
            command@ == Self::spec_keyword() && args@.len() == 1 && !spec_port_arg_ok(args@[0]@)
                ==> r == Err::<Port, FtpError>(FtpError::InvalidArgument),
            command@ == Self::spec_keyword() && args@.len() != 1 ==> r == Err::<Port, FtpError>(
                FtpError::InvalidArgumentCount,
            ),
            command@ != Self::spec_keyword() ==> r == Err::<Port, FtpError>(
                FtpError::UnknownCommand,
            ),
    {
        if !str_eq(command, "PORT") {
            return Err(FtpError::UnknownCommand);
        }
        if args.len() != 1 {
            return Err(FtpError::InvalidArgumentCount);
        }
        let fields = split_fields(args[0].as_str());
        if fields.len() != 6 {
            return Err(FtpError::InvalidArgument);
        }
        let ghost fv = fields@;
        let mut fields = fields;
        let f1 = fields.remove(0);
        let f2 = fields.remove(0);
        let f3 = fields.remove(0);
        let f4 = fields.remove(0);
        let f5 = fields.remove(0);
        let f6 = fields.remove(0);
        proof {
            assert(f1 == fv[0]);
            assert(f2 == fv.remove(0)[0] && fv.remove(0)[0] == fv[1]);
            assert(f3 == fv.remove(0).remove(0)[0] && fv.remove(0).remove(0)[0] == fv[2]);
            assert(f4 == fv.remove(0).remove(0).remove(0)[0] && fv.remove(0).remove(0).remove(
                0,
            )[0] == fv[3]);
            assert(f5 == fv.remove(0).remove(0).remove(0).remove(0)[0] && fv.remove(0).remove(
                0,
            ).remove(0).remove(0)[0] == fv[4]);
            assert(f6 == fv.remove(0).remove(0).remove(0).remove(0).remove(0)[0] && fv.remove(
                0,
            ).remove(0).remove(0).remove(0).remove(0)[0] == fv[5]);
            assert(crate::parser::views(fv)[0] == fv[0]@);
            assert(crate::parser::views(fv)[1] == fv[1]@);
            assert(crate::parser::views(fv)[2] == fv[2]@);
            assert(crate::parser::views(fv)[3] == fv[3]@);
            assert(crate::parser::views(fv)[4] == fv[4]@);
            assert(crate::parser::views(fv)[5] == fv[5]@);
            assert(f1@ == spec_fields(args@[0]@)[0]);
            assert(f2@ == spec_fields(args@[0]@)[1]);
            assert(f3@ == spec_fields(args@[0]@)[2]);
            assert(f4@ == spec_fields(args@[0]@)[3]);
            assert(f5@ == spec_fields(args@[0]@)[4]);
            assert(f6@ == spec_fields(args@[0]@)[5]);
        }
        let o1 = match parse_u8(f1.as_str()) {
            Some(v) => v,
            None => { return Err(FtpError::InvalidArgument) },
        };
        let o2 = match parse_u8(f2.as_str()) {
            Some(v) => v,
            None => { return Err(FtpError::InvalidArgument) },
        };
        let o3 = match parse_u8(f3.as_str()) {
            Some(v) => v,
            None => { return Err(FtpError::InvalidArgument) },
        };
        let o4 = match parse_u8(f4.as_str()) {
            Some(v) => v,
            None => { return Err(FtpError::InvalidArgument) },
        };
        let p1 = match parse_u8(f5.as_str()) {
            Some(v) => v,
            None => { return Err(FtpError::InvalidArgument) },
        };
        let p2 = match parse_u8(f6.as_str()) {
            Some(v) => v,
            None => { return Err(FtpError::InvalidArgument) },
        };
        let port: u16 = (p1 as u16) * 256 + (p2 as u16);
        Ok(Port { ip: Ipv4Addr { o1, o2, o3, o4 }, port })
    }

    /// Installs the data connection the caller opened towards the client's
    /// announced address, and acknowledges with 200.
    pub fn execute(&self, session: &mut SessionState) -> (r: StatusCode)
        ensures
            final(session)@.data == crate::session::DataChannel::Ready,
            final(session)@.cwd == old(session)@.cwd,
            final(session)@.system == old(session)@.system,
            r == StatusCode::Okay,
    {
        session.attach_data_connection();
        StatusCode::Okay
    }
}

} // verus!
