//! Integer normal quantization.
//!
//! The shape-filling primitives derive each voxel's surface normal from
//! an integer direction vector (the offset of the voxel from the chunk
//! center).  A unit-vector component `n` in `[-1, 1]` is stored as the
//! byte `(n*255 + 255) / 2`, rounded down.  To keep the whole pipeline
//! in exact integer arithmetic, the direction is normalized against a
//! fixed-point length `s = isqrt(65536 * |d|^2)`, i.e. the true length
//! scaled by 256 and rounded down, giving the byte
//! `255 * (s + 256*d) / (2*s)` per axis.  A zero direction has no
//! defined normal and quantizes to the zero vector's byte, 127.

use vstd::prelude::*;

verus! {

use vstd::arithmetic::div_mod::{lemma_div_is_ordered, lemma_div_multiples_vanish};

use crate::index::UVec3;

/// Largest `r` with `r * r <= n`.
pub open spec fn spec_isqrt(n: nat) -> nat
    decreases n,
{
    if n == 0 {
        0
    } else {
        let r = spec_isqrt((n - 1) as nat);
        if (r + 1) * (r + 1) <= n {
            r + 1
        } else {
            r
        }
    }
}

/// The defining property of the integer square root.
pub proof fn lemma_isqrt_property(n: nat)
    ensures
        spec_isqrt(n) * spec_isqrt(n) <= n,
        n < (spec_isqrt(n) + 1) * (spec_isqrt(n) + 1),
    decreases n,
{
    let s = spec_isqrt(n);
    if n == 0 {
        assert(s == 0);
        assert(n < (s + 1) * (s + 1)) by (nonlinear_arith)
            requires
                n == 0,
                s == 0,
        ;
    } else {
        lemma_isqrt_property((n - 1) as nat);
        let r = spec_isqrt((n - 1) as nat);
        if (r + 1) * (r + 1) <= n {
            assert(s == r + 1);
            assert(n < (s + 1) * (s + 1)) by (nonlinear_arith)
                requires
                    n - 1 < (r + 1) * (r + 1),
                    s == r + 1,
            ;
        } else {
            assert(s == r);
            assert(s * s <= n);
            assert(n < (s + 1) * (s + 1));
        }
    }
}

/// The defining property pins the value down: anything that satisfies
/// it is the integer square root.
pub proof fn lemma_isqrt_unique(n: nat, r: nat)
    requires
        r * r <= n,
        n < (r + 1) * (r + 1),
    ensures
        r == spec_isqrt(n),
{
    lemma_isqrt_property(n);
    let s = spec_isqrt(n);
    assert(r == s) by (nonlinear_arith)
        requires
            r * r <= n,
            n < (r + 1) * (r + 1),
            s * s <= n,
            n < (s + 1) * (s + 1),
    ;
}

/// Integer square root, rounded down.
pub fn isqrt(n: u64) -> (r: u64)
    requires
        n < 0x1_0000_0000_0000,
    ensures
        r == spec_isqrt(n as nat),
        r * r <= n < (r + 1) * (r + 1),
{
    let mut r: u64 = 0;
    loop
        invariant
            n < 0x1_0000_0000_0000,
            r * r <= n,
            r < 0x100_0000,
            r <= n,
        ensures
            r * r <= n < (r + 1) * (r + 1),
        decreases n - r,
    {
        proof {
            assert((r + 1) * (r + 1) < 0x1_0000_0000_0000_0000) by (nonlinear_arith)
                requires
                    r < 0x100_0000,
            ;
        }
        let sq = (r + 1) * (r + 1);
        if sq > n {
            break;
        }
        proof {
            assert(r + 1 < 0x100_0000 && r + 1 <= n) by (nonlinear_arith)
                requires
                    (r + 1) * (r + 1) <= n,
                    n < 0x1_0000_0000_0000,
            ;
        }
        r = r + 1;
    }
    proof {
        lemma_isqrt_unique(n as nat, r as nat);
    }
    r
}

/// The fixed-point (scaled by 256, rounded down) length of an integer
/// direction vector.
pub open spec fn spec_scaled_len(dx: int, dy: int, dz: int) -> int {
    spec_isqrt((0x1_0000 * (dx * dx + dy * dy + dz * dz)) as nat) as int
}

/// The quantized byte of one axis of a direction vector whose
/// fixed-point length is `s`: `255 * (s + 256*d) / (2*s)`, the integer
/// form of `(d/len * 255 + 255) / 2`.
pub open spec fn spec_quantize_axis(d: int, s: int) -> u32
    recommends
        s > 0,
        256 * d + s >= 0,
{
    ((255 * (s + 256 * d)) / (2 * s)) as u32
}

/// The quantized normal of an integer direction vector; the zero
/// vector, which has no direction, quantizes to the zero normal's byte
/// on every axis.
pub open spec fn spec_quantize_dir(dx: int, dy: int, dz: int) -> UVec3 {
    let s = spec_scaled_len(dx, dy, dz);
    if s <= 0 {
        UVec3 { x: 127, y: 127, z: 127 }
    } else {
        UVec3 {
            x: spec_quantize_axis(dx, s),
            y: spec_quantize_axis(dy, s),
            z: spec_quantize_axis(dz, s),
        }
    }
}

/// The scaled length dominates each scaled axis: `256 * |d| <= s`.
pub proof fn lemma_scaled_len_dominates(d: int, dx: int, dy: int, dz: int)
    requires
        d == dx || d == dy || d == dz,
    ensures
        256 * d <= spec_scaled_len(dx, dy, dz),
        -256 * d <= spec_scaled_len(dx, dy, dz),
{
    let n2 = dx * dx + dy * dy + dz * dz;
    assert(d * d <= n2) by (nonlinear_arith)
        requires
            n2 == dx * dx + dy * dy + dz * dz,
            d == dx || d == dy || d == dz,
    ;
    lemma_isqrt_property((0x1_0000 * n2) as nat);
    let s = spec_scaled_len(dx, dy, dz);
    assert(256 * d <= s && -256 * d <= s) by (nonlinear_arith)
        requires
            d * d <= n2,
            s >= 0,
            0x1_0000 * n2 < (s + 1) * (s + 1),
    ;
}

/// Every quantized axis fits in a byte.
pub proof fn lemma_quantize_axis_in_range(d: int, s: int)
    requires
        s > 0,
        256 * d <= s,
        -256 * d <= s,
    ensures
        0 <= 255 * (s + 256 * d) / (2 * s) <= 255,
{
    assert(0 <= 255 * (s + 256 * d) && 255 * (s + 256 * d) <= 255 * (2 * s)) by (nonlinear_arith)
        requires
            s > 0,
            256 * d <= s,
            -256 * d <= s,
    ;
    lemma_div_is_ordered(255 * (s + 256 * d), 255 * (2 * s), 2 * s);
    lemma_div_multiples_vanish(255, 2 * s);
    assert(0 <= 255 * (s + 256 * d) / (2 * s)) by (nonlinear_arith)
        requires
            s > 0,
            0 <= 255 * (s + 256 * d),
    ;
}

/// Quantizes an integer direction vector to one normal byte per axis.
pub fn quantize_dir(dx: i64, dy: i64, dz: i64) -> (q: UVec3)
    requires
        -256 <= dx <= 256,
        -256 <= dy <= 256,
        -256 <= dz <= 256,
    ensures
        q == spec_quantize_dir(dx as int, dy as int, dz as int),
        q.x < 256 && q.y < 256 && q.z < 256,
{
    proof {
        assert(0 <= dx * dx <= 0x1_0000 && 0 <= dy * dy <= 0x1_0000 && 0 <= dz * dz <= 0x1_0000)
            by (nonlinear_arith)
            requires
                -256 <= dx <= 256,
                -256 <= dy <= 256,
                -256 <= dz <= 256,
        ;
    }
    let n2: i64 = dx * dx + dy * dy + dz * dz;
    let s64: u64 = isqrt((0x1_0000 * n2) as u64);
    proof {
        assert(s64 * s64 <= 0x1_0000 * 3 * 0x1_0000 ==> s64 <= 0x300_0000) by (nonlinear_arith);
    }
    let s: i64 = s64 as i64;
    if s == 0 {
        UVec3 { x: 127, y: 127, z: 127 }
    } else {
        proof {
            lemma_scaled_len_dominates(dx as int, dx as int, dy as int, dz as int);
            lemma_scaled_len_dominates(dy as int, dx as int, dy as int, dz as int);
            lemma_scaled_len_dominates(dz as int, dx as int, dy as int, dz as int);
            lemma_quantize_axis_in_range(dx as int, s as int);
            lemma_quantize_axis_in_range(dy as int, s as int);
            lemma_quantize_axis_in_range(dz as int, s as int);
        }
        let qx: u64 = (255 * (s + 256 * dx)) as u64 / (2 * s) as u64;
        let qy: u64 = (255 * (s + 256 * dy)) as u64 / (2 * s) as u64;
        let qz: u64 = (255 * (s + 256 * dz)) as u64 / (2 * s) as u64;
        UVec3 { x: qx as u32, y: qy as u32, z: qz as u32 }
    }
}

} // verus!
