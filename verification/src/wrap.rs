//! Address distances as 64-bit two's-complement arithmetic computes them: addresses are read
//! as `i64` and subtracted modulo 2^64.

use vstd::prelude::*;

verus! {

/// 2^64, the modulus of 64-bit arithmetic.
pub open spec fn modulus_64() -> int {
    0x1_0000_0000_0000_0000
}

/// What a 64-bit two's-complement computation gives for the exact result `x`: `x` brought into
/// the range of `i64` modulo 2^64.
pub open spec fn wrap_i64(x: int) -> int {
    let m = x % modulus_64();
    if m > i64::MAX {
        m - modulus_64()
    } else {
        m
    }
}

/// `x` modulo 2^N for N-bit addresses: where wrapping address arithmetic lands.
pub open spec fn wrap_usize(x: int) -> int {
    x % (usize::MAX + 1)
}

/// A wrapped value lies in the range of `i64` and differs from the exact one by a multiple of
/// 2^64: adding either to `a` lands on the same residue.
pub proof fn lemma_wrap_i64(a: int, x: int)
    ensures
        i64::MIN <= wrap_i64(x) <= i64::MAX,
        (a + wrap_i64(x)) % modulus_64() == (a + x) % modulus_64(),
{
    let m = modulus_64();
    vstd::arithmetic::div_mod::lemma_fundamental_div_mod(x, m);
    vstd::arithmetic::div_mod::lemma_mod_bound(x, m);
    let c: int = if x % m > i64::MAX {
        1
    } else {
        0
    };
    assert(a + wrap_i64(x) == m * (-(x / m) - c) + (a + x));
    vstd::arithmetic::div_mod::lemma_mod_multiples_vanish(-(x / m) - c, a + x, m);
}

/// The 64-bit two's-complement value of the exact result `d`.
pub fn wrap_to_i64(d: i128) -> (r: i64)
    requires
        -0x2_0000_0000_0000_0000 < d < 0x2_0000_0000_0000_0000,
    ensures
        r == wrap_i64(d as int),
{
    let m: i128 = if d >= 0x1_0000_0000_0000_0000 {
        d - 0x1_0000_0000_0000_0000
    } else if d < 0 {
        if d >= -0x1_0000_0000_0000_0000 {
            d + 0x1_0000_0000_0000_0000
        } else {
            d + 0x2_0000_0000_0000_0000
        }
    } else {
        d
    };
    assert(m as int == (d as int) % modulus_64()) by {
        let q: int = if d >= 0x1_0000_0000_0000_0000 {
            1
        } else if d < 0 {
            if d >= -0x1_0000_0000_0000_0000 {
                -1
            } else {
                -2
            }
        } else {
            0
        };
        vstd::arithmetic::div_mod::lemma_fundamental_div_mod_converse(
            d as int,
            modulus_64(),
            q,
            m as int,
        );
    }
    if m > i64::MAX as i128 {
        (m - 0x1_0000_0000_0000_0000) as i64
    } else {
        m as i64
    }
}

/// The address that wrapping address arithmetic gives for the exact result `t`, which lies
/// within one address space of the valid addresses.
pub fn wrap_to_usize(t: i128) -> (r: usize)
    requires
        -(usize::MAX as int) <= t <= 2 * (usize::MAX as int),
    ensures
        r == wrap_usize(t as int),
{
    let size: i128 = usize::MAX as i128 + 1;
    let m: i128 = if t < 0 {
        t + size
    } else if t >= size {
        t - size
    } else {
        t
    };
    assert(m as int == (t as int) % (usize::MAX + 1)) by {
        let q: int = if t < 0 {
            -1
        } else if t >= size {
            1
        } else {
            0
        };
        vstd::arithmetic::div_mod::lemma_fundamental_div_mod_converse(
            t as int,
            usize::MAX + 1,
            q,
            m as int,
        );
    }
    m as usize
}

/// The number of addresses: 2^N for N-bit addresses.
pub open spec fn address_space() -> int {
    usize::MAX + 1
}

/// What address arithmetic of the pointer width gives for the exact signed distance `x`: `x`
/// brought into the range of `isize` modulo 2^N, for N-bit addresses.
pub open spec fn wrap_isize(x: int) -> int {
    let m = x % address_space();
    if m > isize::MAX {
        m - address_space()
    } else {
        m
    }
}

/// A wrapped distance lies in the range of `isize` and differs from the exact one by a multiple
/// of the number of addresses: adding either to `a` lands on the same address.
pub proof fn lemma_wrap_isize(a: int, x: int)
    ensures
        isize::MIN <= wrap_isize(x) <= isize::MAX,
        (a + wrap_isize(x)) % address_space() == (a + x) % address_space(),
{
    let m = address_space();
    assert(m == 0x1_0000_0000 || m == 0x1_0000_0000_0000_0000);
    assert(isize::MAX == m / 2 - 1 && isize::MIN == -(m / 2));
    vstd::arithmetic::div_mod::lemma_fundamental_div_mod(x, m);
    vstd::arithmetic::div_mod::lemma_mod_bound(x, m);
    let c: int = if x % m > isize::MAX {
        1
    } else {
        0
    };
    assert(a + wrap_isize(x) == m * (-(x / m) - c) + (a + x)) by (nonlinear_arith)
        requires
            wrap_isize(x) == x % m - c * m,
            x == m * (x / m) + x % m,
    ;
    vstd::arithmetic::div_mod::lemma_mod_multiples_vanish(-(x / m) - c, a + x, m);
}

/// The pointer-width signed value of the exact result `d` of address arithmetic.
pub fn wrap_to_isize(d: i128) -> (r: i64)
    requires
        -2 * address_space() < d < 2 * address_space(),
    ensures
        r == wrap_isize(d as int),
{
    if usize::BITS == 64 {
        let r = wrap_to_i64(d);
        assert(wrap_isize(d as int) == wrap_i64(d as int));
        r
    } else {
        let size: i128 = 0x1_0000_0000;
        let m: i128 = if d < -size {
            d + 2 * size
        } else if d < 0 {
            d + size
        } else if d >= size {
            d - size
        } else {
            d
        };
        assert(m as int == (d as int) % address_space()) by {
            let q: int = if d < -size {
                -2
            } else if d < 0 {
                -1
            } else if d >= size {
                1
            } else {
                0
            };
            vstd::arithmetic::div_mod::lemma_fundamental_div_mod_converse(
                d as int,
                address_space(),
                q,
                m as int,
            );
        }
        if m > 0x7FFF_FFFF {
            (m - size) as i64
        } else {
            m as i64
        }
    }
}

} // verus!