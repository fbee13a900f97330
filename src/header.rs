//! The decoded header record, the errors of decoding, and what decoding a
//! byte sequence means.
use vstd::prelude::*;
use crate::bytes::{le16, le32};

verus! {

/// First magic byte of a gzip member.
pub const ID1: u8 = 0x1f;

/// Second magic byte of a gzip member.
pub const ID2: u8 = 0x8b;

/// Length of the fixed preamble.
pub const PREAMBLE_LEN: usize = 10;

/// Flag bit: the payload is probably text.
pub const FTEXT: u8 = 1;

/// Flag bit: a header checksum is announced.
pub const FHCRC: u8 = 2;

/// Flag bit: an extra field follows the preamble.
pub const FEXTRA: u8 = 4;

/// Flag bit: a zero-terminated file name follows.
pub const FNAME: u8 = 8;

/// Flag bit: a zero-terminated comment follows.
pub const FCOMMENT: u8 = 16;

/// The part of the header that ran short of input.
#[derive(Debug, Clone, Copy, PartialEq, Eq, Structural)]
pub enum Section {
    Preamble,
    ExtraLength,
    ExtraData,
    Checksum,
}

/// A way in which the bytes are not a gzip header.
#[derive(Debug, Clone, Copy, PartialEq, Eq, Structural)]
pub enum FormatProblem {
    /// The first two bytes are not the magic pair; they are kept here.
    BadMagic { id1: u8, id2: u8 },
    /// No zero byte ends the file name before the end of input.
    UnterminatedName,
    /// No zero byte ends the comment before the end of input.
    UnterminatedComment,
}

/// Why decoding failed.
#[derive(Debug, Clone, Copy, PartialEq, Eq, Structural)]
pub enum GzipError {
    /// The header of this decoder has already been consumed.
    LogicError,
    /// The bytes do not have the shape of a gzip header.
    FormatError(FormatProblem),
    /// The input ended before the named section was complete.
    IoError(Section),
}

/// A decoded gzip header.
///
/// `xname` and `xcomment` keep the zero byte that ends them. `xextra` and
/// `xlen` are empty and zero when the extra field is absent; `xname` and
/// `xcomment` are empty when their field is absent.
#[derive(Debug)]
pub struct GzipHeader {
    pub cm: u8,
    pub ftext: bool,
    pub fhcrc: bool,
    pub fextra: bool,
    pub fname: bool,
    pub fcomment: bool,
    pub mtime: u32,
    pub xfl: u8,
    pub os: u8,
    pub xlen: u16,
    pub xextra: Vec<u8>,
    pub xname: Vec<u8>,
    pub xcomment: Vec<u8>,
    pub xhcrc: u16,
}

/// The mathematical content of a [`GzipHeader`].
pub struct HeaderView {
    pub cm: u8,
    pub ftext: bool,
    pub fhcrc: bool,
    pub fextra: bool,
    pub fname: bool,
    pub fcomment: bool,
    pub mtime: u32,
    pub xfl: u8,
    pub os: u8,
    pub xlen: u16,
    pub xextra: Seq<u8>,
    pub xname: Seq<u8>,
    pub xcomment: Seq<u8>,
    pub xhcrc: u16,
}

impl View for GzipHeader {
    type V = HeaderView;

    open spec fn view(&self) -> HeaderView {
        HeaderView {
            cm: self.cm,
            ftext: self.ftext,
            fhcrc: self.fhcrc,
            fextra: self.fextra,
            fname: self.fname,
            fcomment: self.fcomment,
            mtime: self.mtime,
            xfl: self.xfl,
            os: self.os,
            xlen: self.xlen,
            xextra: self.xextra@,
            xname: self.xname@,
            xcomment: self.xcomment@,
            xhcrc: self.xhcrc,
        }
    }
}

/// Whether the bit that the one-bit `mask` selects is set in the flag byte
/// `flg`.
pub open spec fn flag_set(flg: u8, mask: u8) -> bool {
    (flg / mask) % 2 == 1
}

/// The index of the first zero byte of `s` at or after `from`, if any.
pub open spec fn first_zero(s: Seq<u8>, from: int) -> Option<int>
    decreases s.len() - from,
{
    if from < 0 || from >= s.len() {
        None
    } else if s[from] == 0 {
        Some(from)
    } else {
        first_zero(s, from + 1)
    }
}

/// The extra field that starts at `at`: its announced length, its bytes, and
/// the index after it.
pub open spec fn extra_at(s: Seq<u8>, at: int) -> Result<(u16, Seq<u8>, int), GzipError> {
    if s.len() < at + 2 {
        Err(GzipError::IoError(Section::ExtraLength))
    } else {
        let n = le16(s[at], s[at + 1]);
        if s.len() < at + 2 + n {
            Err(GzipError::IoError(Section::ExtraData))
        } else {
            Ok((n as u16, s.subrange(at + 2, at + 2 + n), at + 2 + n))
        }
    }
}

/// The zero-terminated field that starts at `at`, terminator included, and
/// the index after it; `missing` when no zero byte follows.
pub open spec fn terminated_at(s: Seq<u8>, at: int, missing: FormatProblem) -> Result<
    (Seq<u8>, int),
    GzipError,
> {
    match first_zero(s, at) {
        Some(z) => Ok((s.subrange(at, z + 1), z + 1)),
        None => Err(GzipError::FormatError(missing)),
    }
}

/// The extra field at `at` when `present`, else an empty one.
pub open spec fn optional_extra(s: Seq<u8>, at: int, present: bool) -> Result<
    (u16, Seq<u8>, int),
    GzipError,
> {
    if present {
        extra_at(s, at)
    } else {
        Ok((0, Seq::empty(), at))
    }
}

/// The zero-terminated field at `at` when `present`, else an empty one.
pub open spec fn optional_terminated(
    s: Seq<u8>,
    at: int,
    present: bool,
    missing: FormatProblem,
) -> Result<(Seq<u8>, int), GzipError> {
    if present {
        terminated_at(s, at, missing)
    } else {
        Ok((Seq::empty(), at))
    }
}

/// What decoding the header at the start of `s` gives: the header and the
/// number of bytes it takes, or the error.
///
/// The preamble comes first, then the extra field, the name and the comment,
/// each only when its flag is set, and last the two checksum bytes, which are
/// read whatever the checksum flag says.
pub open spec fn parse_header(s: Seq<u8>) -> Result<(HeaderView, int), GzipError> {
    if s.len() < PREAMBLE_LEN {
        Err(GzipError::IoError(Section::Preamble))
    } else if s[0] != ID1 || s[1] != ID2 {
        Err(GzipError::FormatError(FormatProblem::BadMagic { id1: s[0], id2: s[1] }))
    } else {
        let flg = s[3];
        match optional_extra(s, PREAMBLE_LEN as int, flag_set(flg, FEXTRA)) {
            Err(e) => Err(e),
            Ok((xlen, xextra, q1)) => match optional_terminated(
                s,
                q1,
                flag_set(flg, FNAME),
                FormatProblem::UnterminatedName,
            ) {
                Err(e) => Err(e),
                Ok((xname, q2)) => match optional_terminated(
                    s,
                    q2,
                    flag_set(flg, FCOMMENT),
                    FormatProblem::UnterminatedComment,
                ) {
                    Err(e) => Err(e),
                    Ok((xcomment, q3)) => if s.len() < q3 + 2 {
                        Err(GzipError::IoError(Section::Checksum))
                    } else {
                        Ok(
                            (
                                HeaderView {
                                    cm: s[2],
                                    ftext: flag_set(flg, FTEXT),
                                    fhcrc: flag_set(flg, FHCRC),
                                    fextra: flag_set(flg, FEXTRA),
                                    fname: flag_set(flg, FNAME),
                                    fcomment: flag_set(flg, FCOMMENT),
                                    mtime: le32(s[4], s[5], s[6], s[7]) as u32,
                                    xfl: s[8],
                                    os: s[9],
                                    xlen,
                                    xextra,
                                    xname,
                                    xcomment,
                                    xhcrc: le16(s[q3], s[q3 + 1]) as u16,
                                },
                                q3 + 2,
                            ),
                        )
                    },
                },
            },
        }
    }
}

} // verus!
