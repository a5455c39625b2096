//! The decisions behind the native stream bridge: how the arguments that
//! the player passes are checked and converted, and how results are
//! reported back to it.
use vstd::prelude::*;
use vstd::string::StringExecFns;
use crate::error::DataSourceError;
use crate::media_source::DataSource;
use crate::playback_error_code;
use crate::text::{decimal, push_decimal, push_signed_decimal, signed_decimal};

verus! {

/// The message of the error for an argument value that does not convert:
/// "illegal NAME: VALUE".
pub open spec fn illegal_value_message(name: Seq<char>, value: Seq<char>) -> Seq<char> {
    "illegal "@ + name + ": "@ + value
}

/// The message of the error for a buffer range whose end overflows.
pub open spec fn range_too_large_message() -> Seq<char> {
    "buffer range is too large"@
}

/// The message of the error for a buffer range that exceeds the buffer.
pub open spec fn range_out_of_bounds_message() -> Seq<char> {
    "buffer range is out of bounds"@
}

/// The `IO_UNSPECIFIED` error whose source is the message `msg`.
pub open spec fn unspecified_error(msg: Seq<char>) -> (i32, Seq<Seq<char>>) {
    (playback_error_code::IO_UNSPECIFIED, seq![msg])
}

fn illegal_value_prefix(value_name: &str) -> (s: String)
    ensures
        s@ == "illegal "@ + value_name@ + ": "@,
{
    proof {
        reveal_strlit("illegal ");
        reveal_strlit(": ");
    }
    let mut s = String::from_str("illegal ");
    s.append(value_name);
    s.append(": ");
    s
}

/// Converts a `jlong` argument to `u64`; a negative value is refused with
/// "illegal NAME: VALUE".
pub fn try_into_u64(value: i64, value_name: &str) -> (r: Result<u64, DataSourceError>)
    ensures
        match r {
            Ok(v) => value >= 0 && v == value,
            Err(e) => value < 0 && e@ == unspecified_error(
                illegal_value_message(value_name@, signed_decimal(value as int)),
            ),
        },
{
    if value >= 0 {
        Ok(value as u64)
    } else {
        let mut msg = illegal_value_prefix(value_name);
        push_signed_decimal(&mut msg, value);
        Err(DataSourceError::io_unspecified_message(msg))
    }
}

/// Converts a `jint` argument to `usize`; a negative value is refused with
/// "illegal NAME: VALUE".
pub fn try_into_usize(value: i32, value_name: &str) -> (r: Result<usize, DataSourceError>)
    ensures
        match r {
            Ok(v) => value >= 0 && v == value,
            Err(e) => value < 0 && e@ == unspecified_error(
                illegal_value_message(value_name@, signed_decimal(value as int)),
            ),
        },
{
    if value >= 0 {
        Ok(value as usize)
    } else {
        let mut msg = illegal_value_prefix(value_name);
        push_signed_decimal(&mut msg, value as i64);
        Err(DataSourceError::io_unspecified_message(msg))
    }
}

/// Converts a count to a `jint`; a value above `i32::MAX` is refused with
/// "illegal NAME: VALUE".
pub fn try_into_jint(value: usize, value_name: &str) -> (r: Result<i32, DataSourceError>)
    ensures
        match r {
            Ok(v) => value <= i32::MAX && v == value,
            Err(e) => value > i32::MAX && e@ == unspecified_error(
                illegal_value_message(value_name@, decimal(value as nat)),
            ),
        },
{
    if value <= 2147483647usize {
        Ok(value as i32)
    } else {
        let mut msg = illegal_value_prefix(value_name);
        push_decimal(&mut msg, value as u64);
        Err(DataSourceError::io_unspecified_message(msg))
    }
}

/// The length reported to the player for a stream of length `len`: the
/// length when it is known and fits in a `jlong`, and `-1` otherwise.
pub open spec fn reported_len_value(len: Option<u64>) -> int {
    match len {
        Some(l) => if l <= i64::MAX {
            l as int
        } else {
            -1int
        },
        None => -1int,
    }
}

/// The length reported to the player: the stream's length when it is known
/// and fits in a `jlong`, and `-1` otherwise.
pub fn reported_len(len: Option<u64>) -> (r: i64)
    ensures
        r == reported_len_value(len),
        len matches Some(l) ==> (l <= i64::MAX ==> r == l),
        len matches Some(l) ==> (l > i64::MAX ==> r == -1),
        len is None ==> r == -1,
{
    match len {
        Some(l) => if l <= 9223372036854775807u64 {
            l as i64
        } else {
            -1
        },
        None => -1,
    }
}

/// The arguments of a read request, converted: the offset into the content,
/// the number of bytes wanted, and where in the buffer they go.
#[derive(Debug)]
pub struct ReadArgs {
    pub offset: u64,
    pub len: usize,
    pub buf_offset: usize,
}

/// Converts the arguments of a read request, checking `offset`, then `len`,
/// then `buf_offset`; the first negative one is refused.
pub fn convert_read_args(offset: i64, len: i32, buf_offset: i32) -> (r: Result<
    ReadArgs,
    DataSourceError,
>)
    ensures
        match r {
            Ok(a) => offset >= 0 && len >= 0 && buf_offset >= 0 && a.offset == offset && a.len
                == len && a.buf_offset == buf_offset,
            Err(e) => if offset < 0 {
                e@ == unspecified_error(
                    illegal_value_message("offset"@, signed_decimal(offset as int)),
                )
            } else if len < 0 {
                e@ == unspecified_error(illegal_value_message("len"@, signed_decimal(len as int)))
            } else {
                buf_offset < 0 && e@ == unspecified_error(
                    illegal_value_message("buf_offset"@, signed_decimal(buf_offset as int)),
                )
            },
        },
{
    let offset = match try_into_u64(offset, "offset") {
        Ok(v) => v,
        Err(e) => return Err(e),
    };
    let len = match try_into_usize(len, "len") {
        Ok(v) => v,
        Err(e) => return Err(e),
    };
    let buf_offset = match try_into_usize(buf_offset, "buf_offset") {
        Ok(v) => v,
        Err(e) => return Err(e),
    };
    Ok(ReadArgs { offset, len, buf_offset })
}

/// The part of a buffer of `buf_len` bytes that a read request fills:
/// `buf_offset .. buf_offset + len`, refused when its end overflows or lies
/// beyond the buffer.
pub fn buffer_range(buf_offset: usize, len: usize, buf_len: usize) -> (r: Result<
    (usize, usize),
    DataSourceError,
>)
    ensures
        match r {
            Ok((start, end)) => start == buf_offset && end == buf_offset + len && end <= buf_len,
            Err(e) => if buf_offset + len > usize::MAX {
                e@ == unspecified_error(range_too_large_message())
            } else {
                buf_offset + len > buf_len && e@ == unspecified_error(range_out_of_bounds_message())
            },
        },
{
    let end = match buf_offset.checked_add(len) {
        Some(end) => end,
        None => {
            proof {
                reveal_strlit("buffer range is too large");
            }
            return Err(
                DataSourceError::io_unspecified_message(
                    String::from_str("buffer range is too large"),
                ),
            );
        },
    };
    if buf_len < end {
        proof {
            reveal_strlit("buffer range is out of bounds");
        }
        return Err(
            DataSourceError::io_unspecified_message(
                String::from_str("buffer range is out of bounds"),
            ),
        );
    }
    Ok((buf_offset, end))
}


/// `r` is the answer to a length request for which the stream's `len`
/// returned `lr`: the length as `reported_len` gives it, or the error as is.
pub open spec fn len_answered(lr: Result<Option<u64>, DataSourceError>, r: Result<i64, DataSourceError>) -> bool {
    match lr {
        Ok(l) => r matches Ok(v) && v == reported_len_value(l),
        Err(e) => r == Err::<i64, DataSourceError>(e),
    }
}

/// The answer to a length request, given what the stream's `len` returned:
/// the length as `reported_len` gives it, or the stream's error as is.
pub fn len_response(len: Result<Option<u64>, DataSourceError>) -> (r: Result<i64, DataSourceError>)
    ensures
        len_answered(len, r),
        len matches Ok(Some(l)) ==> (l <= i64::MAX ==> r == Ok::<i64, DataSourceError>(l as i64)),
        len matches Ok(Some(l)) ==> (l > i64::MAX ==> r == Ok::<i64, DataSourceError>(-1i64)),
        len matches Ok(None) ==> r == Ok::<i64, DataSourceError>(-1i64),
        len matches Err(e) ==> r == Err::<i64, DataSourceError>(e),
{
    match len {
        Ok(l) => Ok(reported_len(l)),
        Err(e) => Err(e),
    }
}

/// Serves a length request of the player: asks the stream for its length,
/// and answers as `len_response` does for what came back.
pub fn serve_len<D: DataSource>(reader: &mut D) -> (r: Result<i64, DataSourceError>)
    ensures
        exists|lr: Result<Option<u64>, DataSourceError>|
            {
                &&& #[trigger] old(reader).len_outcome(lr)
                &&& len_answered(lr, r)
                &&& (lr matches Ok(Some(l)) ==> (l <= i64::MAX ==> r == Ok::<i64, DataSourceError>(
                    l as i64,
                )))
                &&& (lr matches Err(e) ==> r == Err::<i64, DataSourceError>(e))
            },
{
    let lr = reader.len();
    let r = len_response(lr);
    assert(old(reader).len_outcome(lr) && len_answered(lr, r) && (lr matches Ok(Some(l)) ==> (l
        <= i64::MAX ==> r == Ok::<i64, DataSourceError>(l as i64))) && (lr matches Err(e) ==> r
        == Err::<i64, DataSourceError>(e)));
    r
}

/// `r` is the answer to a read request for which the reader returned `rr`:
/// the reader's error as is, or its count as a `jint` (a count above
/// `i32::MAX` is refused with "illegal nread: COUNT").
pub open spec fn read_answered(rr: Result<usize, DataSourceError>, r: Result<i32, DataSourceError>) -> bool {
    match rr {
        Err(e) => r == Err::<i32, DataSourceError>(e),
        Ok(n) => if n <= i32::MAX {
            r == Ok::<i32, DataSourceError>(n as i32)
        } else {
            r matches Err(e) && e@ == unspecified_error(
                illegal_value_message("nread"@, decimal(n as nat)),
            )
        },
    }
}

/// The buffer range `buf_offset .. buf_offset + len` is refused for a buffer
/// of `buf_len` bytes.
pub open spec fn range_refused(buf_offset: usize, len: usize, buf_len: nat) -> bool {
    buf_offset + len > usize::MAX || buf_offset + len > buf_len
}

/// Serves a read request of the player whose arguments were converted by
/// `convert_read_args`: checks the buffer range, answers `0` to an empty
/// request without reading, and otherwise has the reader read at `offset`
/// into `buf[buf_offset .. buf_offset + len]` and answers as
/// `read_answered` says.
pub fn serve_read<D: DataSource>(
    reader: &mut D,
    offset: u64,
    len: usize,
    buf_offset: usize,
    buf: &mut [u8],
) -> (r: Result<i32, DataSourceError>)
    ensures
        buf_offset + len > usize::MAX ==> (r matches Err(e) && e@ == unspecified_error(
            range_too_large_message(),
        )),
        buf_offset + len <= usize::MAX && buf_offset + len > old(buf)@.len() ==> (r matches Err(e)
            && e@ == unspecified_error(range_out_of_bounds_message())),
        range_refused(buf_offset, len, old(buf)@.len()) ==> final(buf)@ == old(buf)@,
        range_refused(buf_offset, len, old(buf)@.len()) || len == 0 ==> *final(reader) == *old(
            reader,
        ),
        buf_offset + len <= old(buf)@.len() && len == 0 ==> r == Ok::<i32, DataSourceError>(0)
            && final(buf)@ == old(buf)@,
        buf_offset + len <= old(buf)@.len() && len > 0 ==> exists|
            rr: Result<usize, DataSourceError>,
            after: Seq<u8>,
        |
            {
                &&& old(reader).read_outcome(
                    offset,
                    old(buf)@.subrange(buf_offset as int, buf_offset + len),
                    after,
                    rr,
                )
                &&& after.len() == len
                &&& final(buf)@ == old(buf)@.subrange(0, buf_offset as int) + after + old(
                    buf,
                )@.subrange(buf_offset + len, old(buf)@.len() as int)
                &&& read_answered(rr, r)
                &&& (rr matches Ok(n) ==> (n <= i32::MAX ==> r == Ok::<i32, DataSourceError>(
                    n as i32,
                )))
                &&& (rr matches Err(e) ==> r == Err::<i32, DataSourceError>(e))
            },
        r matches Ok(n) ==> 0 <= n <= len,
        final(buf)@.len() == old(buf)@.len(),
        forall|i: int|
            0 <= i < old(buf)@.len() && !(buf_offset <= i < buf_offset + len) ==> final(buf)@[i]
                == old(buf)@[i],
{
    let (start, end) = match buffer_range(buf_offset, len, buf.len()) {
        Ok(range) => range,
        Err(e) => return Err(e),
    };
    if len == 0 {
        return Ok(0);
    }
    let ghost before = buf@;
    let (head, rest) = buf.split_at_mut(start);
    let (target, tail) = rest.split_at_mut(end - start);
    let ghost target_before = target@;
    let rr = reader.read(offset, target);
    let ghost after = target@;
    proof {
        assert(target_before =~= before.subrange(buf_offset as int, buf_offset + len));
        assert(old(reader).read_outcome(offset, target_before, after, rr));
        assert(final(buf)@ =~= before.subrange(0, buf_offset as int) + after + before.subrange(
            buf_offset + len,
            before.len() as int,
        ));
    }
    let r = match rr {
        Ok(n) => try_into_jint(n, "nread"),
        Err(e) => Err(e),
    };
    proof {
        assert(read_answered(rr, r));
        let fb = final(buf)@;
        assert(old(reader).read_outcome(
            offset,
            old(buf)@.subrange(buf_offset as int, buf_offset + len),
            after,
            rr,
        ) && after.len() == len && fb == old(buf)@.subrange(0, buf_offset as int) + after + old(
            buf,
        )@.subrange(buf_offset + len, old(buf)@.len() as int) && read_answered(rr, r));
    }
    r
}

/// The bytes with the bit patterns of the given `jbyte`s.
pub open spec fn jbytes_to_bytes(s: Seq<i8>) -> Seq<u8> {
    s.map_values(|b: i8| b as u8)
}

/// The `jbyte`s with the bit patterns of the given bytes.
pub open spec fn bytes_to_jbytes(s: Seq<u8>) -> Seq<i8> {
    s.map_values(|b: u8| b as i8)
}

/// Views the elements of a Java byte array (`jbyte`s) as bytes, through
/// `bytemuck::cast_slice_mut`.
///
/// Trusted: `cast_slice_mut` reinterprets the slice in place, so each byte is
/// the bit pattern of the `i8` at the same index, and writes through the
/// returned slice are what the array holds afterwards. `i8` and `u8` have the
/// same size and alignment, so the cast never fails (it panics only on a size
/// or alignment mismatch).
#[verifier::external_body]
fn jbytes_as_bytes_mut(buf: &mut [i8]) -> (bytes: &mut [u8])
    ensures
        bytes@ == jbytes_to_bytes(old(buf)@),
        final(buf)@ == bytes_to_jbytes(final(bytes)@),
{
    bytemuck::cast_slice_mut(buf)
}

proof fn lemma_byte_round_trip(b: i8)
    by (bit_vector)
    ensures
        (b as u8) as i8 == b,
{
}

/// Serves a read request of the player into a Java byte array: as
/// `serve_read`, on the array's elements viewed as bytes.
pub fn serve_read_jbytes<D: DataSource>(
    reader: &mut D,
    offset: u64,
    len: usize,
    buf_offset: usize,
    buf: &mut [i8],
) -> (r: Result<i32, DataSourceError>)
    ensures
        buf_offset + len > usize::MAX ==> (r matches Err(e) && e@ == unspecified_error(
            range_too_large_message(),
        )),
        buf_offset + len <= usize::MAX && buf_offset + len > old(buf)@.len() ==> (r matches Err(e)
            && e@ == unspecified_error(range_out_of_bounds_message())),
        range_refused(buf_offset, len, old(buf)@.len()) ==> final(buf)@ == old(buf)@,
        range_refused(buf_offset, len, old(buf)@.len()) || len == 0 ==> *final(reader) == *old(
            reader,
        ),
        buf_offset + len <= old(buf)@.len() && len == 0 ==> r == Ok::<i32, DataSourceError>(0)
            && final(buf)@ == old(buf)@,
        buf_offset + len <= old(buf)@.len() && len > 0 ==> exists|
            rr: Result<usize, DataSourceError>,
            after: Seq<u8>,
        |
            {
                &&& #[trigger] old(reader).read_outcome(
                    offset,
                    jbytes_to_bytes(old(buf)@.subrange(buf_offset as int, buf_offset + len)),
                    after,
                    rr,
                )
                &&& after.len() == len
                &&& final(buf)@ == old(buf)@.subrange(0, buf_offset as int) + bytes_to_jbytes(
                    after,
                ) + old(buf)@.subrange(buf_offset + len, old(buf)@.len() as int)
                &&& read_answered(rr, r)
                &&& (rr matches Ok(n) ==> (n <= i32::MAX ==> r == Ok::<i32, DataSourceError>(
                    n as i32,
                )))
                &&& (rr matches Err(e) ==> r == Err::<i32, DataSourceError>(e))
            },
        r matches Ok(n) ==> 0 <= n <= len,
        final(buf)@.len() == old(buf)@.len(),
        forall|i: int|
            0 <= i < old(buf)@.len() && !(buf_offset <= i < buf_offset + len) ==> final(buf)@[i]
                == old(buf)@[i],
{
    let bytes = jbytes_as_bytes_mut(buf);
    let ghost before = bytes@;
    let r = serve_read(reader, offset, len, buf_offset, bytes);
    proof {
        let ob = old(buf)@;
        let fb = final(buf)@;
        assert forall|i: int| 0 <= i < ob.len() && !(buf_offset <= i < buf_offset + len) implies fb[i]
            == ob[i] by {
            lemma_byte_round_trip(ob[i]);
        }
        if range_refused(buf_offset, len, ob.len()) || len == 0 {
            assert forall|i: int| 0 <= i < ob.len() implies fb[i] == ob[i] by {
                lemma_byte_round_trip(ob[i]);
            }
            assert(fb =~= ob);
        }
        if buf_offset + len <= ob.len() && len > 0 {
            let (rr, after) = choose|rr: Result<usize, DataSourceError>, after: Seq<u8>|
                {
                    &&& old(reader).read_outcome(
                        offset,
                        before.subrange(buf_offset as int, buf_offset + len),
                        after,
                        rr,
                    )
                    &&& after.len() == len
                    &&& final(bytes)@ == before.subrange(0, buf_offset as int) + after
                        + before.subrange(buf_offset + len, before.len() as int)
                    &&& read_answered(rr, r)
                };
            assert(before.subrange(buf_offset as int, buf_offset + len) =~= jbytes_to_bytes(
                ob.subrange(buf_offset as int, buf_offset + len),
            ));
            let expected = ob.subrange(0, buf_offset as int) + bytes_to_jbytes(after)
                + ob.subrange(buf_offset + len, ob.len() as int);
            assert forall|i: int| 0 <= i < ob.len() implies fb[i] == expected[i] by {
                lemma_byte_round_trip(ob[i]);
            }
            assert(fb =~= expected);
        }
    }
    r
}

} // verus!
