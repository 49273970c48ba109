//! Raw icon pixmaps as StatusNotifierItem peers send them: width, height
//! and ARGB32 bytes in network order.

use vstd::prelude::*;

verus! {

/// The spec-level form of a pixmap: width, height and its bytes.
pub type PixmapView = (i32, i32, Seq<u8>);

pub open spec fn pixmap_view(p: (i32, i32, Vec<u8>)) -> PixmapView {
    (p.0, p.1, p.2@)
}

pub open spec fn opt_pixmap_view(p: Option<(i32, i32, Vec<u8>)>) -> Option<PixmapView> {
    match p {
        Some(x) => Some(pixmap_view(x)),
        None => None,
    }
}

/// The first pixmap of a list, if there is one.
pub open spec fn first_pixmap(ps: Seq<(i32, i32, Vec<u8>)>) -> Option<PixmapView> {
    if ps.len() > 0 {
        Some(pixmap_view(ps[0]))
    } else {
        None
    }
}

pub fn copy_bytes(v: &Vec<u8>) -> (r: Vec<u8>)
    ensures
        r@ == v@,
{
    let mut r: Vec<u8> = Vec::with_capacity(v.len());
    let mut i: usize = 0;
    while i < v.len()
        invariant
            i <= v@.len(),
            r@ == v@.subrange(0, i as int),
        decreases v@.len() - i,
    {
        r.push(v[i]);
        i = i + 1;
    }
    assert(r@ =~= v@);
    r
}

pub fn copy_pixmap(p: &(i32, i32, Vec<u8>)) -> (r: (i32, i32, Vec<u8>))
    ensures
        pixmap_view(r) == pixmap_view(*p),
{
    (p.0, p.1, copy_bytes(&p.2))
}

/// A copy of the first pixmap of a list.
pub fn first_of(ps: &Vec<(i32, i32, Vec<u8>)>) -> (r: Option<(i32, i32, Vec<u8>)>)
    ensures
        opt_pixmap_view(r) == first_pixmap(ps@),
{
    if ps.len() > 0 {
        Some(copy_pixmap(&ps[0]))
    } else {
        None
    }
}

/// Whether `width` x `height` ARGB32 pixels fit in `len` bytes, with both
/// sides positive.
pub open spec fn pixmap_fits(width: int, height: int, len: int) -> bool {
    width > 0 && height > 0 && 4 * width * height <= len
}

/// `data` reordered from ARGB to RGBA, four bytes at a time; a trailing
/// partial group is dropped.
pub open spec fn argb_as_rgba(data: Seq<u8>) -> Seq<u8> {
    Seq::new(
        (4 * (data.len() / 4)) as nat,
        |k: int|
            if k % 4 == 3 {
                data[k - 3]
            } else {
                data[k + 1]
            },
    )
}

/// Converts peer pixmap bytes (ARGB32) to the RGBA layout that image
/// buffers take. `None` when the sides are not positive or the bytes are
/// fewer than the sides call for.
pub fn argb_to_rgba(width: i32, height: i32, data: &Vec<u8>) -> (r: Option<Vec<u8>>)
    ensures
        r is Some <==> pixmap_fits(width as int, height as int, data@.len() as int),
        r matches Some(out) ==> out@ == argb_as_rgba(data@),
{
    if width <= 0 || height <= 0 {
        return None;
    }
    let w = width as u64;
    let h = height as u64;
    assert(w * h <= 0x7fff_ffff * 0x7fff_ffffu64) by (nonlinear_arith)
        requires
            w <= 0x7fff_ffff,
            h <= 0x7fff_ffff,
    ;
    let needed: u64 = 4 * (w * h);
    assert(needed as int == 4 * (width as int) * (height as int)) by (nonlinear_arith)
        requires
            w == width,
            h == height,
            needed == 4 * (w * h),
    ;
    if (data.len() as u64) < needed {
        return None;
    }
    let len = data.len();
    let n = len / 4;
    let mut out: Vec<u8> = Vec::with_capacity(4 * n);
    let mut q: usize = 0;
    while q < n
        invariant
            len == data@.len(),
            n == len / 4,
            q <= n,
            out@.len() == 4 * q,
            forall|k: int| 0 <= k < 4 * q ==> out@[k] == argb_as_rgba(data@)[k],
        decreases n - q,
    {
        assert(4 * q + 3 < data@.len());
        let a = data[4 * q];
        let red = data[4 * q + 1];
        let g = data[4 * q + 2];
        let b = data[4 * q + 3];
        out.push(red);
        out.push(g);
        out.push(b);
        out.push(a);
        q = q + 1;
    }
    assert(out@ =~= argb_as_rgba(data@));
    Some(out)
}

} // verus!
