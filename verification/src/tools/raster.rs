//! Integer Bresenham stepping shared by the straight-line tools.
//!
//! The marcher keeps an error accumulator and unit steps `sx, sy` in
//! `{-1, 1}`; each iteration visits one cell and advances toward the target
//! along one or both axes. Two tie policies exist: the strict one steps only
//! when the doubled error passes the threshold, the inclusive one also steps
//! on equality.

use vstd::prelude::*;

use crate::geometry::abs_int;

verus! {

/// Coordinates the rasterizers accept: small enough that every intermediate
/// product and error term of the marcher fits a 32-bit machine integer.
pub open spec fn coord_ok(v: int) -> bool {
    -0x2000 <= v <= 0x2000
}

/// The unit step from `a` toward `b` (toward negative when equal).
pub open spec fn step_of(a: int, b: int) -> int {
    if a < b {
        1
    } else {
        -1
    }
}

/// The cells visited by the Bresenham march from `(x, y)` to `(x2, y2)`,
/// with error accumulator `err`, absolute extents `dx, dy`, unit steps
/// `sx, sy`, and the given tie policy. `fuel` bounds the recursion; the
/// public entry supplies enough for the whole march.
pub open spec fn bres_rec(
    x: int,
    y: int,
    x2: int,
    y2: int,
    sx: int,
    sy: int,
    dx: int,
    dy: int,
    err: int,
    incl: bool,
    fuel: nat,
) -> Seq<(int, int)>
    decreases fuel,
{
    if (x == x2 && y == y2) || fuel == 0 {
        seq![(x, y)]
    } else {
        let e2 = 2 * err;
        let xfire = if incl {
            e2 >= -dy
        } else {
            e2 > -dy
        };
        let yfire = if incl {
            e2 <= dx
        } else {
            e2 < dx
        };
        let nerr = err - (if xfire {
            dy
        } else {
            0
        }) + (if yfire {
            dx
        } else {
            0
        });
        let nx = if xfire {
            x + sx
        } else {
            x
        };
        let ny = if yfire {
            y + sy
        } else {
            y
        };
        seq![(x, y)] + bres_rec(nx, ny, x2, y2, sx, sy, dx, dy, nerr, incl, (fuel - 1) as nat)
    }
}

/// The cells visited by a Bresenham line from `(x1, y1)` to `(x2, y2)` under
/// the given tie policy. The first cell is the start, the last the end.
pub open spec fn bres_points(x1: int, y1: int, x2: int, y2: int, incl: bool) -> Seq<(int, int)> {
    let dx = abs_int(x2 - x1);
    let dy = abs_int(y2 - y1);
    bres_rec(
        x1,
        y1,
        x2,
        y2,
        step_of(x1, x2),
        step_of(y1, y2),
        dx,
        dy,
        dx - dy,
        incl,
        (dx + dy) as nat,
    )
}

/// March the Bresenham line from `(x1, y1)` to `(x2, y2)` and collect the
/// visited cells in order.
#[verifier::loop_isolation(true)]
pub(crate) fn bres_march(x1: i32, y1: i32, x2: i32, y2: i32, incl: bool) -> (r: Vec<(i32, i32)>)
    requires
        coord_ok(x1 as int),
        coord_ok(y1 as int),
        coord_ok(x2 as int),
        coord_ok(y2 as int),
    ensures
        r@.len() == bres_points(x1 as int, y1 as int, x2 as int, y2 as int, incl).len(),
        forall|i: int|
            0 <= i < r@.len() ==> (r@[i].0 as int, r@[i].1 as int) == bres_points(
                x1 as int,
                y1 as int,
                x2 as int,
                y2 as int,
                incl,
            )[i],
        r@.len() >= 1,
        (r@[0].0 as int, r@[0].1 as int) == (x1 as int, y1 as int),
        (r@[r@.len() - 1].0 as int, r@[r@.len() - 1].1 as int) == (x2 as int, y2 as int),
        forall|i: int|
            0 <= i < r@.len() ==> coord_ok((#[trigger] r@[i]).0 as int) && coord_ok(
                r@[i].1 as int,
            ),
{
    let ghost s = bres_points(x1 as int, y1 as int, x2 as int, y2 as int, incl);

    let dx: i32 = if x1 < x2 { x2 - x1 } else { x1 - x2 };
    let dy: i32 = if y1 < y2 { y2 - y1 } else { y1 - y2 };
    let sx: i32 = if x1 < x2 { 1 } else { -1 };
    let sy: i32 = if y1 < y2 { 1 } else { -1 };

    let mut err: i32 = dx - dy;
    let mut x = x1;
    let mut y = y1;
    let mut r: Vec<(i32, i32)> = Vec::new();

    let ghost mut cx: int = 0;
    let ghost mut cy: int = 0;

    proof {
        assert(x2 == x1 + sx * dx && y2 == y1 + sy * dy);
        assert(s == pairs_of(r@) + bres_rec(
            x as int,
            y as int,
            x2 as int,
            y2 as int,
            sx as int,
            sy as int,
            dx as int,
            dy as int,
            err as int,
            incl,
            (dx + dy) as nat,
        )) by {
            assert(pairs_of(r@) + bres_rec(
                x as int,
                y as int,
                x2 as int,
                y2 as int,
                sx as int,
                sy as int,
                dx as int,
                dy as int,
                err as int,
                incl,
                (dx + dy) as nat,
            ) =~= bres_rec(
                x as int,
                y as int,
                x2 as int,
                y2 as int,
                sx as int,
                sy as int,
                dx as int,
                dy as int,
                err as int,
                incl,
                (dx + dy) as nat,
            ));
        }
        assert(err == dx * (1 + cy) - dy * (1 + cx)) by (nonlinear_arith)
            requires
                cx == 0,
                cy == 0,
                err == dx - dy,
        ;
    }

    loop
        invariant_except_break
            coord_ok(x1 as int),
            coord_ok(y1 as int),
            coord_ok(x2 as int),
            coord_ok(y2 as int),
            dx == if x1 < x2 { x2 - x1 } else { x1 - x2 },
            dy == if y1 < y2 { y2 - y1 } else { y1 - y2 },
            s == bres_points(x1 as int, y1 as int, x2 as int, y2 as int, incl),
            0 <= cx <= dx,
            0 <= cy <= dy,
            x == x1 + sx * cx,
            y == y1 + sy * cy,
            x2 == x1 + sx * dx,
            y2 == y1 + sy * dy,
            sx == 1 || sx == -1,
            sy == 1 || sy == -1,
            -0x2000 <= x <= 0x2000,
            -0x2000 <= y <= 0x2000,
            err == dx * (1 + cy) - dy * (1 + cx),
            r@.len() <= cx + cy,
            s == pairs_of(r@) + bres_rec(
                x as int,
                y as int,
                x2 as int,
                y2 as int,
                sx as int,
                sy as int,
                dx as int,
                dy as int,
                err as int,
                incl,
                (dx + dy - r@.len()) as nat,
            ),
            forall|i: int| 0 <= i < r@.len() ==> (r@[i].0 as int, r@[i].1 as int) == s[i],
            forall|i: int|
                0 <= i < r@.len() ==> coord_ok((#[trigger] r@[i]).0 as int) && coord_ok(
                    r@[i].1 as int,
                ),
            r@.len() == 0 ==> x == x1 && y == y1,
            r@.len() > 0 ==> (r@[0].0 as int, r@[0].1 as int) == (x1 as int, y1 as int),
        ensures
            r@.len() == s.len(),
            forall|i: int| 0 <= i < r@.len() ==> (r@[i].0 as int, r@[i].1 as int) == s[i],
            r@.len() >= 1,
            (r@[0].0 as int, r@[0].1 as int) == (x1 as int, y1 as int),
            x == x2 && y == y2,
            (r@[r@.len() - 1].0 as int, r@[r@.len() - 1].1 as int) == (x2 as int, y2 as int),
            forall|i: int|
                0 <= i < r@.len() ==> coord_ok((#[trigger] r@[i]).0 as int) && coord_ok(
                    r@[i].1 as int,
                ),
        decreases (dx - cx) + (dy - cy),
    {
        let ghost k = r@.len() as int;
        proof {
            assert(k <= cx + cy <= dx + dy);
        }
        r.push((x, y));
        proof {
            assert(pairs_of(r@) =~= pairs_of(r@.drop_last()) + seq![(x as int, y as int)]);
        }

        if x == x2 && y == y2 {
            proof {
                assert(bres_rec(
                    x as int,
                    y as int,
                    x2 as int,
                    y2 as int,
                    sx as int,
                    sy as int,
                    dx as int,
                    dy as int,
                    err as int,
                    incl,
                    (dx + dy - k) as nat,
                ) == seq![(x as int, y as int)]);
                assert(s =~= pairs_of(r@));
            }
            break;
        }

        proof {
            // Not yet at the target: at least one axis still has distance left,
            // so the spec recursion has fuel and unfolds by exactly one cell.
            assert(cx < dx || cy < dy);
            assert(dx + dy - k > 0);
            // The error term stays well within the 32-bit range.
            assert(-0x2000_0000 <= err <= 0x2000_0000) by (nonlinear_arith)
                requires
                    err == dx * (1 + cy) - dy * (1 + cx),
                    0 <= cx <= dx <= 0x4000,
                    0 <= cy <= dy <= 0x4000,
            ;
        }

        let e2: i32 = 2 * err;
        let xfire = if incl { e2 >= -dy } else { e2 > -dy };
        let yfire = if incl { e2 <= dx } else { e2 < dx };

        let ghost oerr = err as int;
        let ghost ocx = cx;
        let ghost ocy = cy;

        proof {
            // A firing axis has distance left: were an axis already at the
            // target, the error term could not pass that axis's threshold.
            if ocx == dx {
                assert(!xfire) by (nonlinear_arith)
                    requires
                        ocx == dx,
                        ocy < dy,
                        oerr == dx * (1 + ocy) - dy * (1 + ocx),
                        e2 == 2 * oerr,
                        xfire == (if incl { (e2 as int) >= -(dy as int) } else { (e2 as int) > -(dy as int) }),
                        0 <= dx,
                        0 <= ocy,
                ;
            }
            if ocy == dy {
                assert(!yfire) by (nonlinear_arith)
                    requires
                        ocy == dy,
                        ocx < dx,
                        oerr == dx * (1 + ocy) - dy * (1 + ocx),
                        e2 == 2 * oerr,
                        yfire == (if incl { (e2 as int) <= (dx as int) } else { (e2 as int) < (dx as int) }),
                        0 <= dy,
                        0 <= ocx,
                ;
            }
            assert(xfire || yfire) by (nonlinear_arith)
                requires
                    oerr == dx * (1 + ocy) - dy * (1 + ocx),
                    e2 == 2 * oerr,
                    xfire == (if incl { (e2 as int) >= -(dy as int) } else { (e2 as int) > -(dy as int) }),
                    yfire == (if incl { (e2 as int) <= (dx as int) } else { (e2 as int) < (dx as int) }),
                    0 <= ocx <= dx,
                    0 <= ocy <= dy,
                    ocx < dx || ocy < dy,
                    dx <= 0x4000,
                    dy <= 0x4000,
            ;
        }

        if xfire {
            x = x + sx;
            err = err - dy;
            proof {
                cx = ocx + 1;
            }
        }
        if yfire {
            y = y + sy;
            err = err + dx;
            proof {
                cy = ocy + 1;
            }
        }
        proof {
            assert(err == dx * (1 + cy) - dy * (1 + cx)) by (nonlinear_arith)
                requires
                    oerr == dx * (1 + ocy) - dy * (1 + ocx),
                    err == oerr - (if xfire { dy as int } else { 0int }) + (if yfire { dx as int } else { 0int }),
                    cx == if xfire { ocx + 1 } else { ocx },
                    cy == if yfire { ocy + 1 } else { ocy },
            ;
            assert(x == x1 + sx * cx && y == y1 + sy * cy) by (nonlinear_arith)
                requires
                    x == (if xfire { x1 + sx * ocx + sx } else { x1 + sx * ocx }),
                    y == (if yfire { y1 + sy * ocy + sy } else { y1 + sy * ocy }),
                    cx == if xfire { ocx + 1 } else { ocx },
                    cy == if yfire { ocy + 1 } else { ocy },
            ;
            assert(-0x2000 <= x <= 0x2000 && -0x2000 <= y <= 0x2000) by (nonlinear_arith)
                requires
                    x == x1 + sx * cx,
                    y == y1 + sy * cy,
                    x2 == x1 + sx * dx,
                    y2 == y1 + sy * dy,
                    0 <= cx <= dx,
                    0 <= cy <= dy,
                    sx == 1 || sx == -1,
                    sy == 1 || sy == -1,
                    coord_ok(x1 as int),
                    coord_ok(y1 as int),
                    coord_ok(x2 as int),
                    coord_ok(y2 as int),
            ;
        }
    }

    r
}

/// The coordinate pairs of a vector of machine-integer cells, as spec values.
pub open spec fn pairs_of(v: Seq<(i32, i32)>) -> Seq<(int, int)> {
    Seq::new(v.len(), |i: int| (v[i].0 as int, v[i].1 as int))
}

/// A march whose every step is the same fixed unit move: this is the shape
/// the Bresenham march takes on horizontal, vertical and perfect-diagonal
/// lines.
pub open spec fn uniform_points(x1: int, y1: int, ux: int, uy: int, n: int) -> Seq<(int, int)> {
    Seq::new((n + 1) as nat, |t: int| (x1 + ux * t, y1 + uy * t))
}

/// On a horizontal, vertical or perfect-diagonal line the Bresenham march
/// takes one fixed unit step per cell.
proof fn lemma_bres_rec_uniform(
    x: int,
    y: int,
    x2: int,
    y2: int,
    sx: int,
    sy: int,
    dx: int,
    dy: int,
    incl: bool,
    rem: int,
    fuel: nat,
)
    requires
        sx == 1 || sx == -1,
        sy == 1 || sy == -1,
        dx == 0 || dy == 0 || dx == dy,
        0 <= rem,
        fuel >= rem,
        dx >= 0,
        dy >= 0,
        dx == 0 ==> x == x2 && y2 == y + sy * rem && rem <= dy,
        dy == 0 && dx != 0 ==> y == y2 && x2 == x + sx * rem && rem <= dx,
        dx == dy && dx != 0 ==> x2 == x + sx * rem && y2 == y + sy * rem && rem <= dx,
    ensures
        bres_rec(
            x,
            y,
            x2,
            y2,
            sx,
            sy,
            dx,
            dy,
            if dx == 0 {
                -dy
            } else if dy == 0 {
                dx
            } else {
                0
            },
            incl,
            fuel,
        ) == uniform_points(
            x,
            y,
            if dx == 0 {
                0int
            } else {
                sx
            },
            if dy == 0 {
                0int
            } else {
                sy
            },
            rem,
        ),
    decreases rem,
{
    let err: int = if dx == 0 {
        -dy
    } else if dy == 0 {
        dx
    } else {
        0
    };
    let ux: int = if dx == 0 {
        0int
    } else {
        sx
    };
    let uy: int = if dy == 0 {
        0int
    } else {
        sy
    };
    if rem == 0 {
        assert(x == x2 && y == y2);
        assert(bres_rec(x, y, x2, y2, sx, sy, dx, dy, err, incl, fuel) =~= uniform_points(
            x,
            y,
            ux,
            uy,
            0,
        ));
    } else {
        assert(!(x == x2 && y == y2)) by (nonlinear_arith)
            requires
                sx == 1 || sx == -1,
                sy == 1 || sy == -1,
                rem > 0,
                dx == 0 || dy == 0 || dx == dy,
                dx >= 0,
                dy >= 0,
                dx == 0 ==> x == x2 && y2 == y + sy * rem,
                dy == 0 && dx != 0 ==> y == y2 && x2 == x + sx * rem,
                dx == dy && dx != 0 ==> x2 == x + sx * rem && y2 == y + sy * rem,
        ;
        let e2 = 2 * err;
        let xfire = if incl {
            e2 >= -dy
        } else {
            e2 > -dy
        };
        let yfire = if incl {
            e2 <= dx
        } else {
            e2 < dx
        };
        if dx == 0 {
            assert(!xfire && yfire);
            assert(err - 0 + 0 == err);
        } else if dy == 0 {
            assert(xfire && !yfire);
        } else {
            assert(xfire && yfire);
        }
        let nx = x + ux;
        let ny = y + uy;
        lemma_bres_rec_uniform(nx, ny, x2, y2, sx, sy, dx, dy, incl, rem - 1, (fuel - 1) as nat);
        assert(bres_rec(x, y, x2, y2, sx, sy, dx, dy, err, incl, fuel) == seq![(x, y)] + bres_rec(
            nx,
            ny,
            x2,
            y2,
            sx,
            sy,
            dx,
            dy,
            err,
            incl,
            (fuel - 1) as nat,
        ));
        assert(seq![(x, y)] + uniform_points(nx, ny, ux, uy, rem - 1) =~= uniform_points(
            x,
            y,
            ux,
            uy,
            rem,
        )) by {
            assert forall|t: int| 0 <= t < rem + 1 implies #[trigger] (seq![(x, y)]
                + uniform_points(nx, ny, ux, uy, rem - 1))[t] == (x + ux * t, y + uy * t) by {
                if t > 0 {
                    assert(nx + ux * (t - 1) == x + ux * t) by (nonlinear_arith)
                        requires
                            nx == x + ux,
                    ;
                    assert(ny + uy * (t - 1) == y + uy * t) by (nonlinear_arith)
                        requires
                            ny == y + uy,
                    ;
                }
            }
        }
    }
}

/// Symmetry of the straight-line march on its exactly symmetric inputs:
/// along a horizontal, a vertical or a perfect 45-degree diagonal line, the
/// march from one endpoint to the other visits exactly the cells of the
/// reverse march, in reverse order — so in particular the same set of cells.
/// On other slopes the two directions may differ at tie-breaks: the march
/// from `(0, 0)` to `(2, 1)` visits `(1, 0)` where the reverse march visits
/// `(1, 1)`.
pub proof fn lemma_line_symmetry(x1: int, y1: int, x2: int, y2: int, incl: bool)
    requires
        x1 == x2 || y1 == y2 || abs_int(x2 - x1) == abs_int(y2 - y1),
    ensures
        bres_points(x2, y2, x1, y1, incl) == bres_points(x1, y1, x2, y2, incl).reverse(),
        forall|p: (int, int)|
            bres_points(x1, y1, x2, y2, incl).contains(p) <==> bres_points(
                x2,
                y2,
                x1,
                y1,
                incl,
            ).contains(p),
{
    let dx = abs_int(x2 - x1);
    let dy = abs_int(y2 - y1);
    let n = if dx < dy { dy } else { dx };
    let ux: int = if dx == 0 {
        0int
    } else if x1 < x2 {
        1int
    } else {
        -1int
    };
    let uy: int = if dy == 0 {
        0int
    } else if y1 < y2 {
        1int
    } else {
        -1int
    };
    assert(x2 == x1 + (if dx == 0 { 0int } else { step_of(x1, x2) }) * n && y2 == y1 + (if dy == 0 {
        0int
    } else {
        step_of(y1, y2)
    }) * n) by (nonlinear_arith)
        requires
            dx == abs_int(x2 - x1),
            dy == abs_int(y2 - y1),
            n == if dx < dy { dy } else { dx },
            x1 == x2 || y1 == y2 || dx == dy,
    ;
    assert(x1 == x2 + (if dx == 0 { 0int } else { step_of(x2, x1) }) * n && y1 == y2 + (if dy == 0 {
        0int
    } else {
        step_of(y2, y1)
    }) * n) by (nonlinear_arith)
        requires
            dx == abs_int(x2 - x1),
            dy == abs_int(y2 - y1),
            n == if dx < dy { dy } else { dx },
            x1 == x2 || y1 == y2 || dx == dy,
    ;
    lemma_bres_rec_uniform(
        x1,
        y1,
        x2,
        y2,
        step_of(x1, x2),
        step_of(y1, y2),
        dx,
        dy,
        incl,
        n,
        (dx + dy) as nat,
    );
    lemma_bres_rec_uniform(
        x2,
        y2,
        x1,
        y1,
        step_of(x2, x1),
        step_of(y2, y1),
        dx,
        dy,
        incl,
        n,
        (dx + dy) as nat,
    );
    let fwd = bres_points(x1, y1, x2, y2, incl);
    let bwd = bres_points(x2, y2, x1, y1, incl);
    assert(fwd == uniform_points(x1, y1, ux, uy, n)) by (nonlinear_arith)
        requires
            fwd == uniform_points(
                x1,
                y1,
                if dx == 0 {
                    0int
                } else {
                    step_of(x1, x2)
                },
                if dy == 0 {
                    0int
                } else {
                    step_of(y1, y2)
                },
                n,
            ),
            ux == if dx == 0 {
                0int
            } else {
                step_of(x1, x2)
            },
            uy == if dy == 0 {
                0int
            } else {
                step_of(y1, y2)
            },
    ;
    assert(bwd =~= fwd.reverse()) by {
        assert forall|t: int| 0 <= t < n + 1 implies bwd[t] == fwd[n - t] by {
            assert(x2 - ux * t == x1 + ux * (n - t) && y2 - uy * t == y1 + uy * (n - t))
                by (nonlinear_arith)
                requires
                    x2 == x1 + ux * n,
                    y2 == y1 + uy * n,
            ;
            assert(bwd[t] == (x2 + (if dx == 0 {
                0int
            } else {
                step_of(x2, x1)
            }) * t, y2 + (if dy == 0 {
                0int
            } else {
                step_of(y2, y1)
            }) * t));
            assert((if dx == 0 {
                0int
            } else {
                step_of(x2, x1)
            }) == -ux && (if dy == 0 {
                0int
            } else {
                step_of(y2, y1)
            }) == -uy);
            assert(x2 + (-ux) * t == x2 - ux * t && y2 + (-uy) * t == y2 - uy * t)
                by (nonlinear_arith)
                requires
                    true,
            ;
        }
    }
    assert forall|p: (int, int)| fwd.contains(p) implies bwd.contains(p) by {
        let i = choose|i: int| 0 <= i < fwd.len() && fwd[i] == p;
        assert(bwd[fwd.len() - 1 - i] == p);
    }
    assert forall|p: (int, int)| bwd.contains(p) implies fwd.contains(p) by {
        let i = choose|i: int| 0 <= i < bwd.len() && bwd[i] == p;
        assert(fwd[bwd.len() - 1 - i] == p);
    }
}

} // verus!
