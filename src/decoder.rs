//! Decoding a header from bytes, and the decoder that does it once.
use vstd::prelude::*;
use vstd::slice::{slice_subrange, slice_to_vec};
use crate::bytes::{read_u16_big_endian, read_u32_big_endian};
use crate::header::{
    extra_at, first_zero, parse_header, terminated_at, FormatProblem, GzipError,
    GzipHeader, HeaderView, Section, FCOMMENT, FEXTRA, FHCRC, FNAME, FTEXT, ID1, ID2,
    PREAMBLE_LEN,
};

verus! {

/// Reads the extra field that starts at `at`: its two length bytes, then as
/// many bytes as they announce.
fn take_extra(input: &[u8], at: usize) -> (r: Result<(u16, Vec<u8>, usize), GzipError>)
    requires
        at <= input@.len(),
    ensures
        match extra_at(input@, at as int) {
            Ok((n, bytes, end)) => r is Ok && r->Ok_0.0 == n && r->Ok_0.1@ == bytes
                && r->Ok_0.2 == end,
            Err(e) => r == Err::<(u16, Vec<u8>, usize), GzipError>(e),
        },
        r is Ok ==> r->Ok_0.2 <= input@.len(),
{
    if input.len() - at < 2 {
        return Err(GzipError::IoError(Section::ExtraLength));
    }
    let n = read_u16_big_endian(slice_subrange(input, at, at + 2));
    let start = at + 2;
    if input.len() - start < n as usize {
        return Err(GzipError::IoError(Section::ExtraData));
    }
    let end = start + n as usize;
    let bytes = slice_to_vec(slice_subrange(input, start, end));
    Ok((n, bytes, end))
}

/// Reads the zero-terminated field that starts at `at`, terminator included;
/// fails with `missing` when the input ends first.
fn take_terminated(input: &[u8], at: usize, missing: FormatProblem) -> (r: Result<
    (Vec<u8>, usize),
    GzipError,
>)
    requires
        at <= input@.len(),
    ensures
        match terminated_at(input@, at as int, missing) {
            Ok((bytes, end)) => r is Ok && r->Ok_0.0@ == bytes && r->Ok_0.1 == end,
            Err(e) => r == Err::<(Vec<u8>, usize), GzipError>(e),
        },
        r is Ok ==> r->Ok_0.1 <= input@.len(),
{
    let mut i: usize = at;
    while i < input.len() && input[i] != 0
        invariant
            at <= i <= input@.len(),
            first_zero(input@, at as int) == first_zero(input@, i as int),
        decreases input@.len() - i,
    {
        i = i + 1;
    }
    if i == input.len() {
        return Err(GzipError::FormatError(missing));
    }
    let bytes = slice_to_vec(slice_subrange(input, at, i + 1));
    Ok((bytes, i + 1))
}

/// What a decoding result says, with the header in its view.
pub open spec fn result_view(r: Result<(GzipHeader, usize), GzipError>) -> Result<
    (HeaderView, int),
    GzipError,
> {
    match r {
        Ok((h, n)) => Ok((h@, n as int)),
        Err(e) => Err(e),
    }
}

/// Decodes the gzip header at the start of `input`, returning the header and
/// the number of bytes it takes.
pub fn decode_header(input: &[u8]) -> (r: Result<(GzipHeader, usize), GzipError>)
    ensures
        result_view(r) == parse_header(input@),
{
    if input.len() < PREAMBLE_LEN {
        return Err(GzipError::IoError(Section::Preamble));
    }
    let id1 = input[0];
    let id2 = input[1];
    if id1 != ID1 || id2 != ID2 {
        return Err(GzipError::FormatError(FormatProblem::BadMagic { id1, id2 }));
    }
    let cm = input[2];
    let flg = input[3];
    let mtime = read_u32_big_endian(slice_subrange(input, 4, 8));
    let xfl = input[8];
    let os = input[9];
    let ftext = flg & FTEXT != 0;
    let fhcrc = flg & FHCRC != 0;
    let fextra = flg & FEXTRA != 0;
    let fname = flg & FNAME != 0;
    let fcomment = flg & FCOMMENT != 0;
    assert((flg & 1 != 0) == ((flg / 1) % 2 == 1)) by (bit_vector);
    assert((flg & 2 != 0) == ((flg / 2) % 2 == 1)) by (bit_vector);
    assert((flg & 4 != 0) == ((flg / 4) % 2 == 1)) by (bit_vector);
    assert((flg & 8 != 0) == ((flg / 8) % 2 == 1)) by (bit_vector);
    assert((flg & 16 != 0) == ((flg / 16) % 2 == 1)) by (bit_vector);

    let (xlen, xextra, after_extra) = if fextra {
        match take_extra(input, PREAMBLE_LEN) {
            Ok(t) => t,
            Err(e) => return Err(e),
        }
    } else {
        (0u16, Vec::new(), PREAMBLE_LEN)
    };
    let (xname, after_name) = if fname {
        match take_terminated(input, after_extra, FormatProblem::UnterminatedName) {
            Ok(t) => t,
            Err(e) => return Err(e),
        }
    } else {
        (Vec::new(), after_extra)
    };
    let (xcomment, after_comment) = if fcomment {
        match take_terminated(input, after_name, FormatProblem::UnterminatedComment) {
            Ok(t) => t,
            Err(e) => return Err(e),
        }
    } else {
        (Vec::new(), after_name)
    };
    if input.len() - after_comment < 2 {
        return Err(GzipError::IoError(Section::Checksum));
    }
    let xhcrc = read_u16_big_endian(slice_subrange(input, after_comment, after_comment + 2));
    let header = GzipHeader {
        cm,
        ftext,
        fhcrc,
        fextra,
        fname,
        fcomment,
        mtime,
        xfl,
        os,
        xlen,
        xextra,
        xname,
        xcomment,
        xhcrc,
    };
    Ok((header, after_comment + 2))
}

/// Where a decoder stands: before or after its header was consumed.
#[derive(Debug, Clone, Copy, PartialEq, Eq, Structural)]
pub enum GzipStreamState {
    New,
    HeaderRead,
}

/// A decoder over the bytes of a gzip stream, which consumes the header at
/// their start exactly once.
pub struct GzipStream {
    state: GzipStreamState,
    input: Vec<u8>,
    consumed: usize,
}

/// The mathematical content of a [`GzipStream`].
pub struct StreamView {
    /// Whether the header has been consumed.
    pub header_read: bool,
    /// The whole byte source.
    pub input: Seq<u8>,
    /// How many bytes of `input` have been consumed.
    pub consumed: int,
}

impl View for GzipStream {
    type V = StreamView;

    closed spec fn view(&self) -> StreamView {
        StreamView {
            header_read: self.state == GzipStreamState::HeaderRead,
            input: self.input@,
            consumed: self.consumed as int,
        }
    }
}

/// One decode request on a decoder in state `v`: what it returns, with the
/// header in its view, and the state that follows.
///
/// A decoder whose header was consumed refuses with a logic error and stays
/// as it is. Otherwise a successful decode consumes the header's bytes, and a
/// failed one leaves the decoder unchanged.
pub open spec fn read_step(v: StreamView) -> (Result<HeaderView, GzipError>, StreamView) {
    if v.header_read {
        (Err(GzipError::LogicError), v)
    } else {
        match parse_header(v.input) {
            Ok((h, n)) => (Ok(h), StreamView { header_read: true, consumed: n, ..v }),
            Err(e) => (Err(e), v),
        }
    }
}

/// The header returned by a decode request, in its view.
pub open spec fn header_result_view(r: Result<GzipHeader, GzipError>) -> Result<
    HeaderView,
    GzipError,
> {
    match r {
        Ok(h) => Ok(h@),
        Err(e) => Err(e),
    }
}

impl GzipStream {
    /// A decoder over `input` that has consumed nothing.
    pub fn new(input: Vec<u8>) -> (r: GzipStream)
        ensures
            r@ == (StreamView { header_read: false, input: input@, consumed: 0 }),
    {
        GzipStream { state: GzipStreamState::New, input, consumed: 0 }
    }

    /// Decodes the header at the start of the input. This succeeds at most
    /// once per decoder.
    pub fn read_header(&mut self) -> (r: Result<GzipHeader, GzipError>)
        ensures
            header_result_view(r) == read_step(old(self)@).0,
            final(self)@ == read_step(old(self)@).1,
    {
        if self.state != GzipStreamState::New {
            return Err(GzipError::LogicError);
        }
        match decode_header(self.input.as_slice()) {
            Ok((header, n)) => {
                self.state = GzipStreamState::HeaderRead;
                self.consumed = n;
                Ok(header)
            },
            Err(e) => Err(e),
        }
    }

    /// How many bytes of the input the decoder has consumed; the bytes after
    /// them are the compressed payload.
    pub fn consumed(&self) -> (r: usize)
        ensures
            r == self@.consumed,
    {
        self.consumed
    }
}

} // verus!
