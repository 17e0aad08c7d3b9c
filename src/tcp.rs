//! TCP headers and the options that follow them.

use vstd::prelude::*;
use crate::wire::{
    be16, be32, consumes, incomplete, read_be16, read_be32, read_u8, rest_after, ParseError,
};

verus! {

// TCP Header Format
//
//    0                   1                   2                   3
//    0 1 2 3 4 5 6 7 8 9 0 1 2 3 4 5 6 7 8 9 0 1 2 3 4 5 6 7 8 9 0 1
//   +-+-+-+-+-+-+-+-+-+-+-+-+-+-+-+-+-+-+-+-+-+-+-+-+-+-+-+-+-+-+-+-+
//   |          Source Port          |       Destination Port        |
//   +-+-+-+-+-+-+-+-+-+-+-+-+-+-+-+-+-+-+-+-+-+-+-+-+-+-+-+-+-+-+-+-+
//   |                        Sequence Number                        |
//   +-+-+-+-+-+-+-+-+-+-+-+-+-+-+-+-+-+-+-+-+-+-+-+-+-+-+-+-+-+-+-+-+
//   |                    Acknowledgment Number                      |
//   +-+-+-+-+-+-+-+-+-+-+-+-+-+-+-+-+-+-+-+-+-+-+-+-+-+-+-+-+-+-+-+-+
//   |  Data |           |U|A|P|R|S|F|                               |
//   | Offset| Reserved  |R|C|S|S|Y|I|            Window             |
//   |       |           |G|K|H|T|N|N|                               |
//   +-+-+-+-+-+-+-+-+-+-+-+-+-+-+-+-+-+-+-+-+-+-+-+-+-+-+-+-+-+-+-+-+
//   |           Checksum            |         Urgent Pointer        |
//   +-+-+-+-+-+-+-+-+-+-+-+-+-+-+-+-+-+-+-+-+-+-+-+-+-+-+-+-+-+-+-+-+
//   |                    Options                    |    Padding    |
//   +-+-+-+-+-+-+-+-+-+-+-+-+-+-+-+-+-+-+-+-+-+-+-+-+-+-+-+-+-+-+-+-+

/// Length in bytes of a TCP header without options.
pub const TCP_HEADER_LEN: usize = 20;

/// Option kinds.
pub const END_OF_OPTIONS: u8 = 0;
pub const NO_OP: u8 = 1;
pub const MSS: u8 = 2;
pub const WINDOW_SCALE: u8 = 3;
pub const SACK_PERMITTED: u8 = 4;

#[derive(Clone, Copy, Debug, PartialEq, Eq)]
pub enum TcpOption {
    EndOfOptions,
    NoOperation,
    MaximumSegmentSize(MaximumSegmentSize),
    WindowScale(WindowScale),
    SackPermitted,
}

#[derive(Clone, Copy, Debug, PartialEq, Eq)]
pub struct MaximumSegmentSize {
    pub mss: u16,
}

#[derive(Clone, Copy, Debug, PartialEq, Eq)]
pub struct WindowScale {
    pub scaling: u8,
}

#[derive(Clone, Debug, PartialEq, Eq)]
pub struct TcpHeader {
    pub source_port: u16,
    pub dest_port: u16,
    pub sequence_no: u32,
    pub ack_no: u32,
    /// Header length in 32-bit words, as found on the wire.
    pub data_offset: u8,
    pub reserved: u8,
    pub flag_urg: bool,
    pub flag_ack: bool,
    pub flag_psh: bool,
    pub flag_rst: bool,
    pub flag_syn: bool,
    pub flag_fin: bool,
    pub window: u16,
    /// The checksum as found on the wire; it is not checked.
    pub checksum: u16,
    pub urgent_pointer: u16,
    /// The decoded options, where the header has option bytes.
    pub options: Option<Vec<TcpOption>>,
}

/// The number of bytes that an option of kind `kind` takes: the kind byte,
/// then for a known kind other than the two one-byte ones, a length byte
/// (which is not used) and the value.
pub open spec fn option_len(kind: u8) -> nat {
    if kind == MSS {
        4
    } else if kind == WINDOW_SCALE {
        3
    } else if kind == SACK_PERMITTED {
        2
    } else {
        1
    }
}

/// The option at the start of `s` and the number of bytes it takes.
pub open spec fn option_at(s: Seq<u8>) -> Result<(TcpOption, nat), ParseError> {
    if s.len() == 0 {
        Err(ParseError::Incomplete(1))
    } else if s[0] > SACK_PERMITTED {
        Err(ParseError::Malformed)
    } else if s.len() < option_len(s[0]) {
        Err(ParseError::Incomplete((option_len(s[0]) - s.len()) as usize))
    } else {
        let option = if s[0] == END_OF_OPTIONS {
            TcpOption::EndOfOptions
        } else if s[0] == NO_OP {
            TcpOption::NoOperation
        } else if s[0] == MSS {
            TcpOption::MaximumSegmentSize(MaximumSegmentSize { mss: be16(s, 2) })
        } else if s[0] == WINDOW_SCALE {
            TcpOption::WindowScale(WindowScale { scaling: s[2] })
        } else {
            TcpOption::SackPermitted
        };
        Ok((option, option_len(s[0])))
    }
}

/// The options that the option bytes `s` hold, one after another, up to and
/// including an end-of-options, or up to the end of `s` where there is none.
/// An option of unknown kind, or one cut off by the end of `s`, makes the
/// whole chain malformed: `s` is all the option bytes there are, so more
/// input cannot mend it.
pub open spec fn options_of(s: Seq<u8>) -> Result<Seq<TcpOption>, ParseError>
    decreases s.len(),
{
    if s.len() == 0 {
        Ok(Seq::empty())
    } else {
        match option_at(s) {
            Err(_) => Err(ParseError::Malformed),
            Ok((option, n)) => if option is EndOfOptions {
                Ok(seq![option])
            } else {
                prepend(seq![option], options_of(s.skip(n as int)))
            },
        }
    }
}

/// `r` with `first` put before the options it holds.
pub open spec fn prepend(first: Seq<TcpOption>, r: Result<Seq<TcpOption>, ParseError>) -> Result<
    Seq<TcpOption>,
    ParseError,
> {
    match r {
        Ok(rest) => Ok(first + rest),
        Err(e) => Err(e),
    }
}

/// The 16-bit word of data offset, reserved bits and flags.
pub open spec fn control_word(s: Seq<u8>) -> int {
    be16(s, 12) as int
}

/// Whether the bit of weight `weight` in the control word is set.
pub open spec fn flag_set(s: Seq<u8>, weight: int) -> bool {
    (control_word(s) / weight) % 2 == 1
}

/// The number of option bytes in the TCP header at the start of `s`, as far
/// as `s` shows it: `(data_offset - 5) * 4` when the data offset is above 5.
pub open spec fn tcp_options_len(s: Seq<u8>) -> nat {
    if s.len() >= TCP_HEADER_LEN && control_word(s) / 4096 > 5 {
        ((control_word(s) / 4096 - 5) * 4) as nat
    } else {
        0
    }
}

/// The length of the TCP header at the start of `s`, options included.
pub open spec fn tcp_header_len(s: Seq<u8>) -> nat {
    TCP_HEADER_LEN as nat + tcp_options_len(s)
}

/// The view of a header's options.
pub open spec fn options_view(o: Option<Vec<TcpOption>>) -> Option<Seq<TcpOption>> {
    match o {
        Some(v) => Some(v@),
        None => None,
    }
}

/// `h` holds the fixed fields of the TCP header at the start of `s`.
pub open spec fn tcp_fixed_fields_of(h: TcpHeader, s: Seq<u8>) -> bool {
    &&& h.source_port == be16(s, 0)
    &&& h.dest_port == be16(s, 2)
    &&& h.sequence_no == be32(s, 4)
    &&& h.ack_no == be32(s, 8)
    &&& h.data_offset == control_word(s) / 4096
    &&& h.reserved == (control_word(s) / 64) % 64
    &&& h.flag_urg == flag_set(s, 32)
    &&& h.flag_ack == flag_set(s, 16)
    &&& h.flag_psh == flag_set(s, 8)
    &&& h.flag_rst == flag_set(s, 4)
    &&& h.flag_syn == flag_set(s, 2)
    &&& h.flag_fin == flag_set(s, 1)
    &&& h.window == be16(s, 14)
    &&& h.checksum == be16(s, 16)
    &&& h.urgent_pointer == be16(s, 18)
}

/// The option bytes of the TCP header at the start of `s`.
pub open spec fn tcp_option_span(s: Seq<u8>) -> Seq<u8> {
    s.subrange(TCP_HEADER_LEN as int, tcp_header_len(s) as int)
}

/// The TCP header at the start of `s` is all there, and its option bytes do
/// not decode.
pub open spec fn tcp_options_malformed(s: Seq<u8>) -> bool {
    &&& tcp_options_len(s) > 0
    &&& tcp_header_len(s) <= s.len()
    &&& options_of(tcp_option_span(s)) is Err
}

/// `h` holds the TCP header at the start of `s`: its fixed fields, and the
/// options of its option bytes where it has some.
pub open spec fn tcp_header_of(h: TcpHeader, s: Seq<u8>) -> bool {
    &&& tcp_fixed_fields_of(h, s)
    &&& options_view(h.options) == if tcp_options_len(s) > 0 {
        match options_of(tcp_option_span(s)) {
            Ok(options) => Some(options),
            Err(_) => None,
        }
    } else {
        None
    }
}

/// The data offset, the reserved bits and the flag bits of `w`: 4, 6 and 6
/// bits from the high end.
fn dataof_res_flags(w: u16) -> (r: (u8, u8, u8))
    ensures
        r.0 == w / 4096,
        r.1 == (w / 64) % 64,
        r.2 == w % 64,
{
    assert(w >> 12 == w / 4096 && (w >> 6) & 0x3f == (w / 64) % 64 && w & 0x3f == w % 64)
        by (bit_vector);
    ((w >> 12) as u8, ((w >> 6) & 0x3f) as u8, (w & 0x3f) as u8)
}

/// Decodes the 20 fixed bytes of the TCP header at the start of `input`;
/// no options are read.
fn tcp_parse(input: &[u8]) -> (r: Result<(&[u8], TcpHeader), ParseError>)
    ensures
        consumes(r, input@, TCP_HEADER_LEN as nat),
        r matches Ok((_, h)) ==> tcp_fixed_fields_of(h, input@) && h.options is None,
{
    if input.len() < TCP_HEADER_LEN {
        return Err(incomplete(TCP_HEADER_LEN, input.len()));
    }
    let w = read_be16(input, 12);
    let (data_offset, reserved, flags) = dataof_res_flags(w);
    assert(flags == w % 64 ==> {
        &&& (flags & 0b10_0000 == 0b10_0000) == ((w / 32) % 2 == 1)
        &&& (flags & 0b01_0000 == 0b01_0000) == ((w / 16) % 2 == 1)
        &&& (flags & 0b00_1000 == 0b00_1000) == ((w / 8) % 2 == 1)
        &&& (flags & 0b00_0100 == 0b00_0100) == ((w / 4) % 2 == 1)
        &&& (flags & 0b00_0010 == 0b00_0010) == ((w / 2) % 2 == 1)
        &&& (flags & 0b00_0001 == 0b00_0001) == (w % 2 == 1)
    }) by (bit_vector);
    let header = TcpHeader {
        source_port: read_be16(input, 0),
        dest_port: read_be16(input, 2),
        sequence_no: read_be32(input, 4),
        ack_no: read_be32(input, 8),
        data_offset,
        reserved,
        flag_urg: flags & 0b10_0000 == 0b10_0000,
        flag_ack: flags & 0b01_0000 == 0b01_0000,
        flag_psh: flags & 0b00_1000 == 0b00_1000,
        flag_rst: flags & 0b00_0100 == 0b00_0100,
        flag_syn: flags & 0b00_0010 == 0b00_0010,
        flag_fin: flags & 0b00_0001 == 0b00_0001,
        window: read_be16(input, 14),
        checksum: read_be16(input, 16),
        urgent_pointer: read_be16(input, 18),
        options: None,
    };
    Ok((rest_after(input, TCP_HEADER_LEN), header))
}

/// Decodes the option at the start of `input`.
pub fn tcp_parse_option(input: &[u8]) -> (r: Result<(&[u8], TcpOption), ParseError>)
    ensures
        match r {
            Ok((rest, option)) => option_at(input@) matches Ok((o, n)) && option == o && rest@
                == input@.skip(n as int),
            Err(e) => option_at(input@) == Err::<(TcpOption, nat), ParseError>(e),
        },
{
    if input.len() == 0 {
        return Err(ParseError::Incomplete(1));
    }
    let kind = read_u8(input, 0);
    if kind > SACK_PERMITTED {
        return Err(ParseError::Malformed);
    }
    let len: usize = if kind == MSS {
        4
    } else if kind == WINDOW_SCALE {
        3
    } else if kind == SACK_PERMITTED {
        2
    } else {
        1
    };
    if input.len() < len {
        return Err(incomplete(len, input.len()));
    }
    let option = if kind == END_OF_OPTIONS {
        TcpOption::EndOfOptions
    } else if kind == NO_OP {
        TcpOption::NoOperation
    } else if kind == MSS {
        TcpOption::MaximumSegmentSize(MaximumSegmentSize { mss: read_be16(input, 2) })
    } else if kind == WINDOW_SCALE {
        TcpOption::WindowScale(WindowScale { scaling: read_u8(input, 2) })
    } else {
        TcpOption::SackPermitted
    };
    Ok((rest_after(input, len), option))
}

/// Decodes the chain of options that fills `span`.
///
/// The loop never reads past the end of `span`: it stops after an
/// end-of-options, on an error, or when `span` is used up, which counts as
/// success with the options read so far.
pub fn tcp_parse_options(span: &[u8]) -> (r: Result<Vec<TcpOption>, ParseError>)
    ensures
        match r {
            Ok(options) => options_of(span@) == Ok::<Seq<TcpOption>, ParseError>(options@),
            Err(e) => options_of(span@) == Err::<Seq<TcpOption>, ParseError>(e),
        },
{
    let mut left = span;
    let mut options: Vec<TcpOption> = Vec::new();
    while left.len() > 0
        invariant
            options_of(span@) == prepend(options@, options_of(left@)),
        decreases left@.len(),
    {
        match tcp_parse_option(left) {
            Ok((rest, option)) => {
                proof {
                    let tail = options_of(rest@);
                    assert(prepend(options@, prepend(seq![option], tail)) == prepend(
                        options@.push(option),
                        tail,
                    )) by {
                        if let Ok(t) = tail {
                            assert(options@ + (seq![option] + t) =~= options@.push(option) + t);
                        }
                    }
                    assert(options@.push(option) =~= options@ + seq![option]);
                }
                left = rest;
                options.push(option);
                if let TcpOption::EndOfOptions = option {
                    return Ok(options);
                }
            },
            Err(_) => return Err(ParseError::Malformed),
        }
    }
    assert(options@ + Seq::<TcpOption>::empty() =~= options@);
    Ok(options)
}

/// Decodes the TCP header at the start of `input`, options included.
///
/// With a data offset above 5, the `(data_offset - 5) * 4` option bytes must
/// be present, and are consumed. An option of unknown kind before the
/// end-of-options, or an option cut off by the end of the option bytes, makes
/// the header malformed.
pub fn parse_tcp_header(input: &[u8]) -> (r: Result<(&[u8], TcpHeader), ParseError>)
    ensures
        match r {
            Ok((rest, h)) => {
                &&& tcp_header_len(input@) <= input@.len()
                &&& !tcp_options_malformed(input@)
                &&& rest@ == input@.skip(tcp_header_len(input@) as int)
                &&& tcp_header_of(h, input@)
            },
            Err(e) => if input@.len() < tcp_header_len(input@) {
                e == ParseError::Incomplete((tcp_header_len(input@) - input@.len()) as usize)
            } else {
                tcp_options_malformed(input@) && e == ParseError::Malformed
            },
        },
{
    let (left, mut header) = match tcp_parse(input) {
        Ok(decoded) => decoded,
        Err(e) => return Err(e),
    };
    if header.data_offset <= 5 {
        return Ok((left, header));
    }
    let options_length = ((header.data_offset - 5) * 4) as usize;
    if left.len() < options_length {
        return Err(incomplete(TCP_HEADER_LEN + options_length, input.len()));
    }
    assert(left@.subrange(0, options_length as int) =~= input@.subrange(
        TCP_HEADER_LEN as int,
        tcp_header_len(input@) as int,
    ));
    let span = &left[0..options_length];
    match tcp_parse_options(span) {
        Ok(options) => header.options = Some(options),
        Err(_) => return Err(ParseError::Malformed),
    }
    assert(left@.skip(options_length as int) =~= input@.skip(tcp_header_len(input@) as int));
    Ok((rest_after(left, options_length), header))
}

/// Decoding the same bytes twice gives the same header: the same fixed
/// fields and the same options.
pub proof fn tcp_header_is_determined(a: TcpHeader, b: TcpHeader, s: Seq<u8>)
    requires
        tcp_header_of(a, s),
        tcp_header_of(b, s),
    ensures
        a == (TcpHeader { options: a.options, ..b }),
        options_view(a.options) == options_view(b.options),
{
}

/// Cutting a whole TCP header short, anywhere before the end of its options,
/// leaves a header length that the bytes left do not reach: the decoder asks
/// for more, and for no more than the whole header had.
pub proof fn truncated_tcp_header_is_short(s: Seq<u8>, k: nat)
    requires
        tcp_header_len(s) <= s.len(),
        k < tcp_header_len(s),
    ensures
        k < tcp_header_len(s.take(k as int)) <= tcp_header_len(s),
{
    if k >= TCP_HEADER_LEN {
        assert(control_word(s.take(k as int)) == control_word(s));
    }
}

} // verus!
