//! Properties of decoding that hold for every input.
use vstd::prelude::*;
use crate::bytes::{le16, le32};
use crate::decoder::{read_step, StreamView};
use crate::header::{
    first_zero, flag_set, optional_extra, optional_terminated, parse_header, FormatProblem,
    GzipError, HeaderView, Section, FCOMMENT, FEXTRA, FHCRC, FNAME, FTEXT, ID1, ID2,
};

verus! {

/// The first zero at or after `from` is the first index there that holds a
/// zero.
pub proof fn lemma_first_zero(s: Seq<u8>, from: int)
    requires
        0 <= from,
    ensures
        match first_zero(s, from) {
            Some(z) => from <= z < s.len() && s[z] == 0 && forall|i: int|
                from <= i < z ==> s[i] != 0,
            None => forall|i: int| from <= i < s.len() ==> s[i] != 0,
        },
    decreases s.len() - from,
{
    if from < s.len() && s[from] != 0 {
        lemma_first_zero(s, from + 1);
    }
}

/// A header with none of the five flags set decodes from its first twelve
/// bytes: every flag reads false, the optional fields are empty, and the
/// compression method, modification time, extra flags, OS and checksum are
/// the values that those bytes hold.
pub proof fn lemma_minimal_header(s: Seq<u8>)
    requires
        s.len() >= 12,
        s[0] == ID1,
        s[1] == ID2,
        s[3] % 32 == 0,
    ensures
        parse_header(s) is Ok,
        ({
            let (h, n) = parse_header(s)->Ok_0;
            &&& n == 12
            &&& !h.ftext && !h.fhcrc && !h.fextra && !h.fname && !h.fcomment
            &&& h.cm == s[2]
            &&& h.mtime == le32(s[4], s[5], s[6], s[7])
            &&& h.xfl == s[8]
            &&& h.os == s[9]
            &&& h.xhcrc == le16(s[10], s[11])
            &&& h.xlen == 0
            &&& h.xextra.len() == 0 && h.xname.len() == 0 && h.xcomment.len() == 0
        }),
{
    let flg = s[3];
    assert(flg % 32 == 0 ==> (flg / 1) % 2 == 0 && (flg / 2) % 2 == 0 && (flg / 4) % 2 == 0
        && (flg / 8) % 2 == 0 && (flg / 16) % 2 == 0) by (bit_vector);
    assert(!flag_set(flg, FTEXT) && !flag_set(flg, FHCRC) && !flag_set(flg, FEXTRA)
        && !flag_set(flg, FNAME) && !flag_set(flg, FCOMMENT));
}

/// Once a decode has succeeded, the next one on the same decoder fails with
/// a logic error and consumes nothing more.
pub proof fn lemma_decode_once(v: StreamView)
    requires
        read_step(v).0 is Ok,
    ensures
        read_step(read_step(v).1).0 == Err::<HeaderView, GzipError>(
            GzipError::LogicError,
        ),
        read_step(read_step(v).1).1 == read_step(v).1,
        read_step(v).1.header_read,
        read_step(v).1.input == v.input,
{
}

/// Input whose first two bytes are not the magic pair, and long enough for
/// the preamble, is refused with a format error that holds those two bytes.
pub proof fn lemma_bad_magic(s: Seq<u8>)
    requires
        s.len() >= 10,
        s[0] != ID1 || s[1] != ID2,
    ensures
        parse_header(s) == Err::<(HeaderView, int), GzipError>(
            GzipError::FormatError(FormatProblem::BadMagic { id1: s[0], id2: s[1] }),
        ),
{
}

/// An extra field that announces more bytes than the input holds is a
/// truncation, not a format error.
pub proof fn lemma_extra_truncated(s: Seq<u8>)
    requires
        s.len() >= 12,
        s[0] == ID1,
        s[1] == ID2,
        flag_set(s[3], FEXTRA),
        s.len() < 12 + le16(s[10], s[11]),
    ensures
        parse_header(s) == Err::<(HeaderView, int), GzipError>(
            GzipError::IoError(Section::ExtraData),
        ),
{
}

/// A name field with no zero byte before the end of input is a format error.
pub proof fn lemma_name_unterminated(s: Seq<u8>)
    requires
        s.len() >= 10,
        s[0] == ID1,
        s[1] == ID2,
        flag_set(s[3], FNAME),
        !flag_set(s[3], FEXTRA),
        forall|i: int| 10 <= i < s.len() ==> s[i] != 0,
    ensures
        parse_header(s) == Err::<(HeaderView, int), GzipError>(
            GzipError::FormatError(FormatProblem::UnterminatedName),
        ),
{
    lemma_first_zero(s, 10);
}

/// Whether `t` ends with a zero byte and holds no other.
pub open spec fn zero_terminated(t: Seq<u8>) -> bool {
    &&& t.len() >= 1
    &&& t.last() == 0
    &&& forall|i: int| 0 <= i < t.len() - 1 ==> t[i] != 0
}

/// A decoded header is the bytes that it took, in wire order: the preamble,
/// the extra field's length and bytes, the name through its terminator, the
/// comment through its terminator, and last the two checksum bytes. Each
/// optional part is empty when its flag is clear.
pub proof fn lemma_wire_order(s: Seq<u8>)
    requires
        parse_header(s) is Ok,
    ensures
        ({
            let (h, n) = parse_header(s)->Ok_0;
            let xlen_bytes = if h.fextra {
                s.subrange(10, 12)
            } else {
                Seq::empty()
            };
            &&& 12 <= n <= s.len()
            &&& s.subrange(0, n) == s.subrange(0, 10) + xlen_bytes + h.xextra + h.xname
                + h.xcomment + s.subrange(n - 2, n)
            &&& h.fextra ==> h.xlen == le16(s[10], s[11]) && h.xextra.len() == h.xlen
            &&& h.fname ==> zero_terminated(h.xname)
            &&& h.fcomment ==> zero_terminated(h.xcomment)
            &&& h.xhcrc == le16(s[n - 2], s[n - 1])
        }),
{
    let flg = s[3];
    let (xlen, xextra, q1) = optional_extra(s, 10, flag_set(flg, FEXTRA))->Ok_0;
    let (xname, q2) = optional_terminated(
        s,
        q1,
        flag_set(flg, FNAME),
        FormatProblem::UnterminatedName,
    )->Ok_0;
    let (xcomment, q3) = optional_terminated(
        s,
        q2,
        flag_set(flg, FCOMMENT),
        FormatProblem::UnterminatedComment,
    )->Ok_0;
    let (h, n) = parse_header(s)->Ok_0;
    assert(10 <= q1);
    if flag_set(flg, FNAME) {
        lemma_first_zero(s, q1);
    }
    assert(q1 <= q2);
    if flag_set(flg, FCOMMENT) {
        lemma_first_zero(s, q2);
    }
    assert(q2 <= q3);
    assert(n == q3 + 2);
    let xlen_bytes = if h.fextra {
        s.subrange(10, 12)
    } else {
        Seq::<u8>::empty()
    };
    assert(s.subrange(0, 10) + xlen_bytes + xextra =~= s.subrange(0, q1));
    assert(s.subrange(0, q1) + xname =~= s.subrange(0, q2));
    assert(s.subrange(0, q2) + xcomment =~= s.subrange(0, q3));
    assert(s.subrange(0, q3) + s.subrange(n - 2, n) =~= s.subrange(0, n));
    if h.fname {
        assert(zero_terminated(h.xname));
    }
    if h.fcomment {
        assert(zero_terminated(h.xcomment));
    }
}

} // verus!
