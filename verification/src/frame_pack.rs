//! Video frames with the padding at the ends of their rows taken out.
use vstd::prelude::*;
use vstd::slice::{slice_subrange, slice_to_vec};

verus! {

/// The first `n` rows of a frame, each of `len` bytes, where a row starts every
/// `stride` bytes. Rows that reach beyond the data are left out.
pub open spec fn rows(data: Seq<u8>, stride: nat, len: nat, n: nat) -> Seq<u8>
    decreases n,
{
    if n == 0 {
        Seq::empty()
    } else {
        let start = (n - 1) * stride;
        let front = rows(data, stride, len, (n - 1) as nat);
        if start + len <= data.len() {
            front + data.subrange(start, start + len)
        } else {
            front
        }
    }
}

/// A frame of tightly packed rows. Data of unknown layout, and data whose rows
/// would overlap, is left as it is.
pub open spec fn packed(
    data: Seq<u8>,
    width: nat,
    height: nat,
    bpp: nat,
    line_stride: Option<usize>,
) -> Seq<u8> {
    let len = width * bpp;
    match line_stride {
        None => data,
        Some(stride) => if stride == len {
            if len * height < data.len() {
                data.take((len * height) as int)
            } else {
                data
            }
        } else if stride < len {
            data
        } else {
            rows(data, stride as nat, len, height)
        },
    }
}

proof fn no_more_rows(data: Seq<u8>, stride: nat, len: nat, k: nat, n: nat)
    requires
        k <= n,
        k < n ==> k * stride + len > data.len(),
    ensures
        rows(data, stride, len, n) == rows(data, stride, len, k),
    decreases n - k,
{
    if k < n {
        assert((n - 1) * stride >= k * stride) by (nonlinear_arith)
            requires
                n - 1 >= k,
                stride >= 0,
        ;
        no_more_rows(data, stride, len, k, (n - 1) as nat);
    }
}

/// A frame of tightly packed rows of `width` pixels with `bpp` bytes each.
/// `line_stride` is how many bytes a row takes in `data`; `None` if that is not
/// known. Where the data ends early, so does the frame, after its last full row.
pub fn pack_frame(
    data: &[u8],
    width: usize,
    height: usize,
    bpp: usize,
    line_stride: Option<usize>,
) -> (r: Vec<u8>)
    requires
        width * bpp <= usize::MAX,
        width * bpp * height <= usize::MAX,
    ensures
        r@ == packed(data@, width as nat, height as nat, bpp as nat, line_stride),
{
    let len: usize = width * bpp;
    let total: usize = len * height;
    let stride: usize = match line_stride {
        Some(n) => n,
        None => return slice_to_vec(data),
    };
    if stride == len {
        if total < data.len() {
            let part: &[u8] = slice_subrange(data, 0, total);
            assert(part@ == data@.take(total as int));
            return slice_to_vec(part);
        }
        return slice_to_vec(data);
    }
    if stride < len {
        return slice_to_vec(data);
    }
    let mut out: Vec<u8> = Vec::new();
    let mut row: usize = 0;
    let ghost s = stride as nat;
    let ghost l = len as nat;
    while row < height
        invariant_except_break
            out@ == rows(data@, s, l, row as nat),
        invariant
            row <= height,
            s == stride,
            l == len,
        ensures
            out@ == rows(data@, s, l, height as nat),
        decreases height - row,
    {
        assert(row * stride <= 0xFFFF_FFFF_FFFF_FFFF * 0xFFFF_FFFF_FFFF_FFFF) by (nonlinear_arith)
            requires
                row <= 0xFFFF_FFFF_FFFF_FFFF,
                stride <= 0xFFFF_FFFF_FFFF_FFFF,
        ;
        let start: u128 = (row as u128) * (stride as u128);
        if start + (len as u128) > data.len() as u128 {
            proof {
                no_more_rows(data@, s, l, row as nat, height as nat);
            }
            break;
        }
        let a: usize = start as usize;
        let part: &[u8] = slice_subrange(data, a, a + len);
        out.extend_from_slice(part);
        row += 1;
        assert(out@ =~= rows(data@, s, l, row as nat));
    }
    out
}

proof fn rows_hold(data: Seq<u8>, stride: nat, len: nat, n: nat)
    requires
        len <= stride,
        n > 0 ==> (n - 1) * stride + len <= data.len(),
    ensures
        rows(data, stride, len, n).len() == n * len,
        forall|y: int, x: int|
            0 <= y < n && 0 <= x < len ==> rows(data, stride, len, n)[#[trigger] (y * len + x)]
                == data[#[trigger] (y * stride + x)],
    decreases n,
{
    if n > 0 {
        let m = (n - 1) as nat;
        assert(m > 0 ==> (m - 1) * stride + len <= data.len()) by (nonlinear_arith)
            requires
                m * stride + len <= data.len(),
        ;
        rows_hold(data, stride, len, m);
        let whole = rows(data, stride, len, n);
        let front = rows(data, stride, len, m);
        assert(n * len == m * len + len) by (nonlinear_arith)
            requires
                n == m + 1,
        ;
        assert forall|y: int, x: int| 0 <= y < n && 0 <= x < len implies whole[#[trigger] (y * len
            + x)] == data[#[trigger] (y * stride + x)] by {
            if y < m {
                assert(y * len + x < m * len) by (nonlinear_arith)
                    requires
                        0 <= y,
                        y + 1 <= m,
                        x < len,
                ;
                assert(0 <= y * len) by (nonlinear_arith)
                    requires
                        0 <= y,
                        0 <= len,
                ;
                assert(whole[y * len + x] == front[y * len + x]);
            } else {
                assert(y == m);
                assert(m * stride >= 0) by (nonlinear_arith)
                    requires
                        m >= 0,
                        stride >= 0,
                ;
                assert(whole[m * len + x] == data.subrange((m * stride) as int, (m * stride + len) as int)[x]);
            }
        }
    } else {
        assert(n * len == 0) by (nonlinear_arith)
            requires
                n == 0,
        ;
    }
}

/// A frame whose rows all lie in the data keeps every byte of every row, and
/// nothing else.
pub proof fn packed_keeps_pixels(data: Seq<u8>, width: nat, height: nat, bpp: nat, stride: usize)
    requires
        width * bpp <= stride,
        height > 0 ==> (height - 1) * stride + width * bpp <= data.len(),
    ensures
        packed(data, width, height, bpp, Some(stride)).len() == height * (width * bpp),
        forall|y: int, x: int|
            0 <= y < height && 0 <= x < width * bpp ==> packed(
                data,
                width,
                height,
                bpp,
                Some(stride),
            )[#[trigger] (y * (width * bpp) + x)] == data[#[trigger] (y * stride + x)],
{
    let len = width * bpp;
    assert(len * height == height * len) by (nonlinear_arith);
    if stride == len {
        assert(height > 0 ==> (height - 1) * len + len == height * len) by (nonlinear_arith);
        assert(height == 0 ==> height * len == 0) by (nonlinear_arith);
        assert forall|y: int, x: int| 0 <= y < height && 0 <= x < len implies packed(
            data,
            width,
            height,
            bpp,
            Some(stride),
        )[#[trigger] (y * len + x)] == data[#[trigger] (y * stride + x)] by {
            assert(0 <= y * len + x < height * len) by (nonlinear_arith)
                requires
                    0 <= y,
                    y + 1 <= height,
                    0 <= x < len,
            ;
        }
    } else {
        rows_hold(data, stride as nat, len, height);
    }
}

} // verus!
