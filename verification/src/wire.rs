//! The wire format of the player's control channel: one outgoing command is
//! one line of JSON, `{"request_id":<uint>,"command":["<arg>",...]}`.  The
//! encoder below produces the UTF-8 bytes of that line (without the
//! terminating newline) and is specified exactly, down to the escaping of
//! each byte of each argument.

use vstd::prelude::*;
use vstd::string::StrSliceExecFns;
use vstd::string::StringSliceAdditionalSpecFns;

verus! {

/// The decimal digits of `n`, most significant first, as ASCII bytes.
pub open spec fn dec_bytes(n: nat) -> Seq<u8>
    decreases n,
{
    if n < 10 {
        seq![(48 + n) as u8]
    } else {
        dec_bytes(n / 10).push((48 + n % 10) as u8)
    }
}

/// The ASCII byte of one hexadecimal digit (lower case), for `n < 16`.
pub open spec fn hex_digit(n: u8) -> u8 {
    if n < 10 {
        (48 + n) as u8
    } else {
        (87 + n) as u8
    }
}

/// JSON escaping of one byte of UTF-8 text: quotes and backslashes are
/// escaped, control bytes become `\n`, `\r`, `\t` or `\u00XX`, and every
/// other byte (continuation bytes of multi-byte characters included) stands
/// for itself.
pub open spec fn esc_byte(b: u8) -> Seq<u8> {
    if b == 0x22 {
        seq![0x5cu8, 0x22u8]
    } else if b == 0x5c {
        seq![0x5cu8, 0x5cu8]
    } else if b == 0x0a {
        seq![0x5cu8, 0x6eu8]
    } else if b == 0x0d {
        seq![0x5cu8, 0x72u8]
    } else if b == 0x09 {
        seq![0x5cu8, 0x74u8]
    } else if b < 0x20 {
        seq![0x5cu8, 0x75u8, 0x30u8, 0x30u8, hex_digit(b / 16), hex_digit(b % 16)]
    } else {
        seq![b]
    }
}

/// JSON escaping of a whole byte string.
pub open spec fn escape_bytes(s: Seq<u8>) -> Seq<u8>
    decreases s.len(),
{
    if s.len() == 0 {
        Seq::empty()
    } else {
        escape_bytes(s.drop_last()) + esc_byte(s.last())
    }
}

/// One argument as a JSON string: its UTF-8 bytes, escaped, in quotes.
pub open spec fn quoted(a: Seq<char>) -> Seq<u8> {
    seq![0x22u8] + escape_bytes(vstd::utf8::encode_utf8(a)) + seq![0x22u8]
}

/// The comma-separated body of the JSON array holding the arguments.
pub open spec fn args_body(args: Seq<Seq<char>>) -> Seq<u8>
    decreases args.len(),
{
    if args.len() == 0 {
        Seq::empty()
    } else if args.len() == 1 {
        quoted(args[0])
    } else {
        args_body(args.drop_last()) + seq![0x2cu8] + quoted(args.last())
    }
}

/// The views of a sequence of argument strings.
pub open spec fn views_of(args: Seq<String>) -> Seq<Seq<char>> {
    Seq::new(args.len(), |i: int| args[i]@)
}

/// One complete outgoing command line (without the terminating newline).
pub open spec fn spec_command_line(id: u64, args: Seq<Seq<char>>) -> Seq<u8> {
    "{\"request_id\":".spec_bytes() + dec_bytes(id as nat) + ",\"command\":[".spec_bytes()
        + args_body(args) + "]}".spec_bytes()
}

/// Append the decimal digits of `n` to `out`.
pub(crate) fn push_dec(out: &mut Vec<u8>, n: u64)
    ensures
        final(out)@ == old(out)@ + dec_bytes(n as nat),
    decreases n,
{
    if n < 10 {
        out.push((48 + n) as u8);
        assert(out@ =~= old(out)@ + dec_bytes(n as nat));
    } else {
        push_dec(out, n / 10);
        out.push((48 + n % 10) as u8);
        assert(out@ =~= old(out)@ + dec_bytes(n as nat));
    }
}

/// Append the JSON escaping of `bytes` to `out`.
fn push_escaped(out: &mut Vec<u8>, bytes: &[u8])
    ensures
        final(out)@ == old(out)@ + escape_bytes(bytes@),
{
    let ghost orig = out@;
    let n = bytes.len();
    let mut i: usize = 0;
    while i < n
        invariant
            n == bytes@.len(),
            i <= n,
            out@ == orig + escape_bytes(bytes@.take(i as int)),
        decreases n - i,
    {
        let b = bytes[i];
        if b == 0x22 || b == 0x5c {
            out.push(0x5c);
            out.push(b);
        } else if b == 0x0a {
            out.push(0x5c);
            out.push(0x6e);
        } else if b == 0x0d {
            out.push(0x5c);
            out.push(0x72);
        } else if b == 0x09 {
            out.push(0x5c);
            out.push(0x74);
        } else if b < 0x20 {
            out.push(0x5c);
            out.push(0x75);
            out.push(0x30);
            out.push(0x30);
            out.push(if b / 16 < 10 { 48 + b / 16 } else { 87 + b / 16 });
            out.push(if b % 16 < 10 { 48 + b % 16 } else { 87 + b % 16 });
        } else {
            out.push(b);
        }
        proof {
            let t = bytes@.take(i + 1);
            assert(t.drop_last() =~= bytes@.take(i as int));
            assert(t.last() == bytes@[i as int]);
            assert(out@ =~= orig + escape_bytes(bytes@.take(i + 1)));
        }
        i = i + 1;
    }
    proof {
        assert(bytes@.take(n as int) =~= bytes@);
    }
}

/// Encode one command as a line of JSON:
/// `{"request_id":<id>,"command":["<arg>",...]}`, with each argument's UTF-8
/// text escaped as JSON demands.
pub fn encode_command(id: u64, args: &Vec<String>) -> (r: Vec<u8>)
    ensures
        r@ == spec_command_line(id, views_of(args@)),
{
    let mut out: Vec<u8> = Vec::new();
    let mut head = "{\"request_id\":".as_bytes_vec();
    out.append(&mut head);
    push_dec(&mut out, id);
    let mut mid = ",\"command\":[".as_bytes_vec();
    out.append(&mut mid);
    let ghost before_args = out@;
    let n = args.len();
    let mut i: usize = 0;
    while i < n
        invariant
            n == args@.len(),
            i <= n,
            out@ == before_args + args_body(views_of(args@).take(i as int)),
        decreases n - i,
    {
        if i > 0 {
            out.push(0x2c);
        }
        out.push(0x22);
        push_escaped(&mut out, args[i].as_str().as_bytes());
        out.push(0x22);
        proof {
            let vs = views_of(args@);
            let t = vs.take(i + 1);
            assert(t.last() == args@[i as int]@);
            assert(t.drop_last() =~= vs.take(i as int));
            assert(out@ =~= before_args + args_body(vs.take(i + 1)));
        }
        i = i + 1;
    }
    let mut tail = "]}".as_bytes_vec();
    out.append(&mut tail);
    proof {
        assert(views_of(args@).take(n as int) =~= views_of(args@));
        assert(out@ =~= spec_command_line(id, views_of(args@)));
    }
    out
}

} // verus!
