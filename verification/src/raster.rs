//! The framebuffer model shared by the renderers: a row of RGBA pixels
//! painted pixel by pixel.
use vstd::prelude::*;

verus! {

/// `fb` with pixel `x` (`0 <= x < w`) of the row starting at byte `base` set
/// to the four bytes of `f(x)` wherever `f(x)` is `Some`; every other byte
/// unchanged.
pub open spec fn paint_span(fb: Seq<u8>, base: int, w: int, f: spec_fn(int) -> Option<Seq<u8>>) -> Seq<u8> {
    Seq::new(fb.len(), |i: int|
        if base <= i < base + 4 * w {
            match f((i - base) / 4) {
                Some(c) => c[(i - base) % 4],
                None => fb[i],
            }
        } else {
            fb[i]
        })
}

/// `f` on the pixels left of `n`, nothing from `n` on.
pub open spec fn upto(f: spec_fn(int) -> Option<Seq<u8>>, n: int) -> spec_fn(int) -> Option<Seq<u8>> {
    |x: int| if x < n { f(x) } else { None }
}

/// `f` where it paints, `g` elsewhere.
pub open spec fn over(f: spec_fn(int) -> Option<Seq<u8>>, g: spec_fn(int) -> Option<Seq<u8>>) -> spec_fn(int) -> Option<Seq<u8>> {
    |x: int| if f(x) is Some { f(x) } else { g(x) }
}

/// Painting one more pixel is four byte updates (or none for `None`).
pub proof fn lemma_span_next(fb: Seq<u8>, base: int, w: int, f: spec_fn(int) -> Option<Seq<u8>>, x: int)
    requires
        0 <= x < w, 0 <= base, base + 4 * w <= fb.len(),
        f(x) is Some ==> f(x).unwrap().len() == 4,
    ensures
        paint_span(fb, base, w, upto(f, x + 1)) == (match f(x) {
            Some(c) => paint_span(fb, base, w, upto(f, x)).update(base + x * 4, c[0])
                .update(base + x * 4 + 1, c[1]).update(base + x * 4 + 2, c[2])
                .update(base + x * 4 + 3, c[3]),
            None => paint_span(fb, base, w, upto(f, x)),
        }),
{
    let a = paint_span(fb, base, w, upto(f, x + 1));
    let p = paint_span(fb, base, w, upto(f, x));
    let b = base + x * 4;
    match f(x) {
        Some(c) => {
            let q = p.update(b, c[0]).update(b + 1, c[1]).update(b + 2, c[2]).update(b + 3, c[3]);
            assert forall|i: int| 0 <= i < fb.len() implies a[i] == q[i] by {
                if base <= i < base + 4 * w {
                    let y = (i - base) / 4;
                    if b <= i < b + 4 {
                        assert(y == x);
                    } else {
                        assert(y != x);
                    }
                }
            }
            assert(a =~= q);
        },
        None => {
            assert forall|i: int| 0 <= i < fb.len() implies a[i] == p[i] by {
                if base <= i < base + 4 * w {
                    let y = (i - base) / 4;
                    if y == x {
                        assert(f(y) is None);
                    }
                }
            }
            assert(a =~= p);
        },
    }
}

/// Nothing painted left of `n` means nothing changed.
pub proof fn lemma_span_from(fb: Seq<u8>, base: int, w: int, f: spec_fn(int) -> Option<Seq<u8>>, n: int)
    requires forall|x: int| 0 <= x < n ==> #[trigger] f(x) is None,
    ensures paint_span(fb, base, w, upto(f, n)) == fb,
{
    let a = paint_span(fb, base, w, upto(f, n));
    assert forall|i: int| 0 <= i < fb.len() implies a[i] == fb[i] by {
        if base <= i < base + 4 * w {
            let y = (i - base) / 4;
            assert(0 <= y);
            if y < n { assert(f(y) is None); }
        }
    }
    assert(a =~= fb);
}

/// A pixel that `f` leaves alone can be passed over.
pub proof fn lemma_span_skip(fb: Seq<u8>, base: int, w: int, f: spec_fn(int) -> Option<Seq<u8>>, n: int)
    requires f(n) is None,
    ensures paint_span(fb, base, w, upto(f, n + 1)) == paint_span(fb, base, w, upto(f, n)),
{
    let a = paint_span(fb, base, w, upto(f, n + 1));
    let b = paint_span(fb, base, w, upto(f, n));
    assert forall|i: int| 0 <= i < fb.len() implies a[i] == b[i] by {
        if base <= i < base + 4 * w {
            let y = (i - base) / 4;
            if y == n { assert(f(y) is None); }
        }
    }
    assert(a =~= b);
}

/// Nothing painted from `n` on (within the row): painting up to `n` is
/// painting all of `f`.
pub proof fn lemma_span_rest(fb: Seq<u8>, base: int, w: int, f: spec_fn(int) -> Option<Seq<u8>>, n: int)
    requires forall|x: int| n <= x < w ==> #[trigger] f(x) is None,
    ensures paint_span(fb, base, w, upto(f, n)) == paint_span(fb, base, w, f),
{
    let a = paint_span(fb, base, w, upto(f, n));
    let b = paint_span(fb, base, w, f);
    assert forall|i: int| 0 <= i < fb.len() implies a[i] == b[i] by {
        if base <= i < base + 4 * w {
            let y = (i - base) / 4;
            assert(y < w);
            if y >= n { assert(f(y) is None); }
        }
    }
    assert(a =~= b);
}

/// Painting with two pixel functions that agree gives the same row.
pub proof fn lemma_span_congr(fb: Seq<u8>, base: int, w: int, f: spec_fn(int) -> Option<Seq<u8>>, g: spec_fn(int) -> Option<Seq<u8>>)
    requires forall|x: int| #[trigger] f(x) == g(x),
    ensures paint_span(fb, base, w, f) == paint_span(fb, base, w, g),
{
    let a = paint_span(fb, base, w, f);
    let b = paint_span(fb, base, w, g);
    assert forall|i: int| 0 <= i < fb.len() implies a[i] == b[i] by {
        let y = (i - base) / 4;
        assert(f(y) == g(y));
    }
    assert(a =~= b);
}

/// Painting `g` and then `f` over it paints `f` over `g`.
pub proof fn lemma_span_compose(fb: Seq<u8>, base: int, w: int, g: spec_fn(int) -> Option<Seq<u8>>, f: spec_fn(int) -> Option<Seq<u8>>)
    ensures paint_span(paint_span(fb, base, w, g), base, w, f) == paint_span(fb, base, w, over(f, g)),
{
    let a = paint_span(paint_span(fb, base, w, g), base, w, f);
    let b = paint_span(fb, base, w, over(f, g));
    assert forall|i: int| 0 <= i < fb.len() implies a[i] == b[i] by {
        let y = (i - base) / 4;
        if f(y) is Some {} else {}
    }
    assert(a =~= b);
}

/// Painting with `h`, which agrees with `g` except at one more pixel `x0`,
/// is painting with `g` plus that pixel's four bytes.
pub proof fn lemma_span_extend(fb: Seq<u8>, base: int, w: int, g: spec_fn(int) -> Option<Seq<u8>>,
    h: spec_fn(int) -> Option<Seq<u8>>, x0: int)
    requires
        0 <= x0 < w, 0 <= base, base + 4 * w <= fb.len(),
        forall|x: int| x != x0 ==> #[trigger] g(x) == h(x),
        g(x0) is None,
        h(x0) is Some ==> h(x0).unwrap().len() == 4,
    ensures
        paint_span(fb, base, w, h) == (match h(x0) {
            Some(c) => paint_span(fb, base, w, g).update(base + x0 * 4, c[0])
                .update(base + x0 * 4 + 1, c[1]).update(base + x0 * 4 + 2, c[2])
                .update(base + x0 * 4 + 3, c[3]),
            None => paint_span(fb, base, w, g),
        }),
{
    let a = paint_span(fb, base, w, h);
    let p = paint_span(fb, base, w, g);
    let b = base + x0 * 4;
    match h(x0) {
        Some(c) => {
            let q = p.update(b, c[0]).update(b + 1, c[1]).update(b + 2, c[2]).update(b + 3, c[3]);
            assert forall|i: int| 0 <= i < fb.len() implies a[i] == q[i] by {
                if base <= i < base + 4 * w {
                    let y = (i - base) / 4;
                    if b <= i < b + 4 {
                        assert(y == x0);
                    } else {
                        assert(y != x0);
                        assert(g(y) == h(y));
                    }
                }
            }
            assert(a =~= q);
        },
        None => {
            assert forall|i: int| 0 <= i < fb.len() implies a[i] == p[i] by {
                let y = (i - base) / 4;
                if y != x0 { assert(g(y) == h(y)); }
            }
            assert(a =~= p);
        },
    }
}

} // verus!
