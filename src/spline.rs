use vstd::prelude::*;
use vstd::arithmetic::div_mod::lemma_fundamental_div_mod_converse;
use vstd::arithmetic::mul::lemma_mul_inequality;

verus! {

/// Why a Catmull-Rom tessellation request was refused.
#[derive(Clone, Copy, Debug, PartialEq, Eq, Structural)]
pub enum SplineError {
    /// The x and y coordinate sequences differ in length.
    LengthMismatch,
    /// Too few points to form the curve: one for an open curve, two for a
    /// closed one.
    TooFewPoints,
}

/// The fewest points a curve can be drawn through.
pub open spec fn min_points(closed: bool) -> nat {
    if closed {
        2
    } else {
        1
    }
}

/// The number of spans between consecutive points: a closed curve has one
/// more, running from the last point back to the first.
pub open spec fn span_count(n: nat, closed: bool) -> int {
    if closed {
        n as int
    } else {
        n - 1
    }
}

/// The point sequence with one phantom point on each side (two after a closed
/// curve): an open curve repeats its end points, a closed curve wraps around.
pub open spec fn padded<T>(p: Seq<T>, closed: bool) -> Seq<T> {
    if closed {
        seq![p.last()] + p + seq![p[0], p[1]]
    } else {
        seq![p[0]] + p + seq![p.last()]
    }
}

/// Output position `k` holds sample `k % (segments + 1)` of span
/// `k / (segments + 1)`: the value that `eval` gives for that step from the
/// span's two end points and their outer neighbours.
pub open spec fn is_sample<T, F: Fn(T, T, T, T, usize) -> T>(
    eval: F,
    pad: Seq<T>,
    segments: nat,
    k: int,
    v: T,
) -> bool {
    let i = k / (segments + 1) as int;
    let j = k % (segments + 1) as int;
    eval.ensures((pad[i], pad[i + 1], pad[i + 2], pad[i + 3], j as usize), v)
}

/// `out` is the tessellation of the coordinate sequence `pts`: one block of
/// `segments + 1` samples for each span, in span order.
pub open spec fn is_tessellation<T, F: Fn(T, T, T, T, usize) -> T>(
    eval: F,
    pts: Seq<T>,
    segments: nat,
    closed: bool,
    out: Seq<T>,
) -> bool {
    &&& out.len() == span_count(pts.len(), closed) * (segments + 1)
    &&& forall|k: int|
        0 <= k < out.len() ==> #[trigger] is_sample(eval, padded(pts, closed), segments, k, out[k])
}

/// An evaluator that starts each span on its first end point and finishes it
/// on its second, as the Hermite basis does at `t = 0` and `t = 1`.
pub open spec fn interpolates<T, F: Fn(T, T, T, T, usize) -> T>(eval: F, segments: nat) -> bool {
    &&& forall|a: T, b: T, c: T, d: T, r: T|
        #[trigger] eval.ensures((a, b, c, d, 0usize), r) ==> r == b
    &&& forall|a: T, b: T, c: T, d: T, r: T|
        #[trigger] eval.ensures((a, b, c, d, segments as usize), r) ==> r == c
}

/// Builds the padded sequence: the input with its phantom neighbours.
pub fn pad_points<T: Copy>(p: &Vec<T>, closed: bool) -> (r: Vec<T>)
    requires
        p.len() >= min_points(closed),
        p.len() + 3 <= usize::MAX,
    ensures
        r@ == padded(p@, closed),
{
    let n = p.len();
    let mut r: Vec<T> = Vec::new();
    if closed {
        r.push(p[n - 1]);
    } else {
        r.push(p[0]);
    }
    let mut i: usize = 0;
    while i < n
        invariant
            n == p.len(),
            i <= n,
            r@ == seq![(if closed { p@.last() } else { p@[0] })] + p@.subrange(0, i as int),
        decreases n - i,
    {
        r.push(p[i]);
        i += 1;
        assert(p@.subrange(0, i as int) == p@.subrange(0, i - 1) + seq![p@[i - 1]]);
    }
    assert(p@.subrange(0, n as int) == p@);
    if closed {
        r.push(p[0]);
        r.push(p[1]);
    } else {
        r.push(p[n - 1]);
    }
    r
}

/// Tessellates one coordinate axis. `eval(prev, start, end, next, j)` gives
/// the value at step `j` of `segments` along the span from `start` to `end`,
/// where `prev` and `next` are the points on either side of the span.
pub fn tessellate_axis<T: Copy, F: Fn(T, T, T, T, usize) -> T>(
    pts: &Vec<T>,
    segments: usize,
    closed: bool,
    eval: &F,
) -> (r: Result<Vec<T>, SplineError>)
    requires
        forall|a: T, b: T, c: T, d: T, j: usize| eval.requires((a, b, c, d, j)),
        pts.len() + 3 <= usize::MAX,
        (pts.len() + 1) * (segments + 1) <= usize::MAX,
    ensures
        pts.len() < min_points(closed) <==> r is Err,
        r matches Err(e) ==> e == SplineError::TooFewPoints,
        r matches Ok(out) ==> is_tessellation(*eval, pts@, segments as nat, closed, out@),
{
    let n = pts.len();
    if n < 1 || (closed && n < 2) {
        return Err(SplineError::TooFewPoints);
    }
    proof {
        assert((n as int + 1) * (segments as int + 1) >= n as int + 1) by (nonlinear_arith)
            requires
                segments >= 0,
        ;
        assert((n as int + 1) * (segments as int + 1) >= segments as int + 1) by (nonlinear_arith)
            requires
                n >= 0,
        ;
    }
    let pad = pad_points(pts, closed);
    let spans: usize = if closed {
        n
    } else {
        n - 1
    };
    let width: usize = segments + 1;
    let ghost s = segments as nat;
    let mut out: Vec<T> = Vec::new();
    let mut i: usize = 0;
    while i < spans
        invariant
            pad@ == padded(pts@, closed),
            pad.len() == spans + 3,
            spans as int == span_count(n as nat, closed),
            n == pts.len(),
            width == s + 1,
            segments == s,
            spans <= n,
            (n + 1) * width <= usize::MAX,
            i <= spans,
            out.len() == i * width,
            forall|a: T, b: T, c: T, d: T, j: usize| eval.requires((a, b, c, d, j)),
            forall|k: int| 0 <= k < out.len() ==> #[trigger] is_sample(*eval, pad@, s, k, out@[k]),
        decreases spans - i,
    {
        let p0 = pad[i];
        let p1 = pad[i + 1];
        let p2 = pad[i + 2];
        let p3 = pad[i + 3];
        let mut j: usize = 0;
        while j <= segments
            invariant
                pad@ == padded(pts@, closed),
                pad.len() == spans + 3,
                i < spans,
                spans <= n,
                width == s + 1,
                segments == s,
                (n + 1) * width <= usize::MAX,
                j <= width,
                out.len() == i * width + j,
                p0 == pad@[i as int],
                p1 == pad@[i + 1],
                p2 == pad@[i + 2],
                p3 == pad@[i + 3],
                forall|a: T, b: T, c: T, d: T, j: usize| eval.requires((a, b, c, d, j)),
                forall|k: int| 0 <= k < out.len() ==> #[trigger] is_sample(*eval, pad@, s, k, out@[k]),
            decreases width - j,
        {
            proof {
                lemma_mul_inequality(i as int + 1, n as int + 1, width as int);
                assert((i as int + 1) * width == i * width + width) by (nonlinear_arith);
            }
            let v = eval(p0, p1, p2, p3, j);
            let ghost k = out.len() as int;
            let ghost before = out@;
            out.push(v);
            proof {
                lemma_fundamental_div_mod_converse(k, width as int, i as int, j as int);
                assert(is_sample(*eval, pad@, s, k, out@[k]));
                assert forall|m: int| 0 <= m < out.len() implies #[trigger] is_sample(
                    *eval,
                    pad@,
                    s,
                    m,
                    out@[m],
                ) by {
                    if m < k {
                        assert(out@[m] == before[m]);
                    }
                }
            }
            j += 1;
        }
        proof {
            assert((i as int + 1) * width == i * width + width) by (nonlinear_arith);
        }
        i += 1;
    }
    Ok(out)
}

/// Tessellates a curve given as parallel x and y coordinate sequences, each
/// axis with the same evaluator.
pub fn tessellate<T: Copy, F: Fn(T, T, T, T, usize) -> T>(
    xs: &Vec<T>,
    ys: &Vec<T>,
    segments: usize,
    closed: bool,
    eval: &F,
) -> (r: Result<(Vec<T>, Vec<T>), SplineError>)
    requires
        forall|a: T, b: T, c: T, d: T, j: usize| eval.requires((a, b, c, d, j)),
        xs.len() + 3 <= usize::MAX,
        (xs.len() + 1) * (segments + 1) <= usize::MAX,
    ensures
        xs.len() != ys.len() ==> r == Err::<(Vec<T>, Vec<T>), SplineError>(
            SplineError::LengthMismatch,
        ),
        xs.len() == ys.len() && xs.len() < min_points(closed) ==> r == Err::<
            (Vec<T>, Vec<T>),
            SplineError,
        >(SplineError::TooFewPoints),
        xs.len() == ys.len() && xs.len() >= min_points(closed) ==> r is Ok,
        r matches Ok((tx, ty)) ==> {
            &&& is_tessellation(*eval, xs@, segments as nat, closed, tx@)
            &&& is_tessellation(*eval, ys@, segments as nat, closed, ty@)
        },
{
    if xs.len() != ys.len() {
        return Err(SplineError::LengthMismatch);
    }
    let tx = match tessellate_axis(xs, segments, closed, eval) {
        Ok(v) => v,
        Err(e) => {
            return Err(e);
        },
    };
    let ty = match tessellate_axis(ys, segments, closed, eval) {
        Ok(v) => v,
        Err(e) => {
            return Err(e);
        },
    };
    Ok((tx, ty))
}

/// With an evaluator that starts each span on its first end point and ends it
/// on its second, a tessellation with at least one span starts on the first
/// input point and ends on the last one (back on the first one when the curve
/// is closed), and holds `segments + 1` samples per span: `(n - 1) * (segments
/// + 1)` in all for an open curve through `n` points.
pub proof fn lemma_tessellation_ends<T, F: Fn(T, T, T, T, usize) -> T>(
    eval: F,
    pts: Seq<T>,
    segments: nat,
    closed: bool,
    out: Seq<T>,
)
    requires
        is_tessellation(eval, pts, segments, closed, out),
        interpolates(eval, segments),
        pts.len() >= min_points(closed),
        span_count(pts.len(), closed) >= 1,
    ensures
        out.len() == span_count(pts.len(), closed) * (segments + 1),
        !closed ==> out.len() == (pts.len() - 1) * (segments + 1),
        out[0] == pts[0],
        out.last() == (if closed {
            pts[0]
        } else {
            pts.last()
        }),
{
    let spans = span_count(pts.len(), closed);
    let w = segments + 1;
    let pad = padded(pts, closed);
    assert(spans * w >= w) by (nonlinear_arith)
        requires
            spans >= 1,
            w >= 1,
    ;
    lemma_fundamental_div_mod_converse(0, w as int, 0, 0);
    assert(is_sample(eval, pad, segments, 0, out[0]));
    let k = out.len() - 1;
    assert(k == (spans - 1) * w + segments) by (nonlinear_arith)
        requires
            k == spans * w - 1,
            w == segments + 1,
    ;
    lemma_fundamental_div_mod_converse(k, w as int, spans - 1, segments as int);
    assert(is_sample(eval, pad, segments, k, out[k]));
}

} // verus!
