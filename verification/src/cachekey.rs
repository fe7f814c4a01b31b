//! Stable cache keys for downloaded template content.
//!
//! Repeated runs for the same (domain, owner, repo, ref) must land on the
//! same working directory and archive file, so the key is an explicit
//! FNV-1a-style fold over the characters of a seed string — a deterministic
//! function of the string alone, identical across processes and machines.
use vstd::prelude::*;

verus! {

pub const FNV_OFFSET: u64 = 0xcbf29ce484222325;

pub const FNV_PRIME: u64 = 0x100000001b3;

/// One fold step: mix one character into the running hash.
pub open spec fn fold_step(h: u64, c: char) -> u64 {
    vstd::wrapping::u64_specs::wrapping_mul(h ^ ((c as u32) as u64), FNV_PRIME)
}

/// The hash after folding every character of `s` into `h`, left to right.
pub open spec fn fold_from(h: u64, s: Seq<char>) -> u64
    decreases s.len(),
{
    if s.len() == 0 {
        h
    } else {
        fold_from(fold_step(h, s[0]), s.subrange(1, s.len() as int))
    }
}

/// The stable hash of a character sequence.
pub open spec fn stable_hash(s: Seq<char>) -> u64 {
    fold_from(FNV_OFFSET, s)
}

/// The stable hash of `t`'s characters: equal strings always hash equal,
/// in this process or any other.
pub fn hash(t: &str) -> (r: u64)
    ensures
        r == stable_hash(t@),
{
    let n = t.unicode_len();
    let mut h: u64 = FNV_OFFSET;
    let mut i: usize = 0;
    proof {
        assert(t@.subrange(0, n as int) =~= t@);
    }
    while i < n
        invariant
            0 <= i <= n,
            n == t@.len(),
            stable_hash(t@) == fold_from(h, t@.subrange(i as int, n as int)),
        decreases n - i,
    {
        let c = t.get_char(i);
        proof {
            assert(t@.subrange(i as int, n as int)[0] == c);
            assert(t@.subrange(i as int, n as int).subrange(1, n - i) =~= t@.subrange(
                i + 1,
                n as int,
            ));
        }
        h = (h ^ ((c as u32) as u64)).wrapping_mul(FNV_PRIME);
        i += 1;
    }
    proof {
        assert(t@.subrange(n as int, n as int) =~= Seq::<char>::empty());
    }
    h
}

/// The hexadecimal digit character for `d`.
pub open spec fn hex_char(d: u64) -> char {
    if d == 0 {
        '0'
    } else if d == 1 {
        '1'
    } else if d == 2 {
        '2'
    } else if d == 3 {
        '3'
    } else if d == 4 {
        '4'
    } else if d == 5 {
        '5'
    } else if d == 6 {
        '6'
    } else if d == 7 {
        '7'
    } else if d == 8 {
        '8'
    } else if d == 9 {
        '9'
    } else if d == 10 {
        'a'
    } else if d == 11 {
        'b'
    } else if d == 12 {
        'c'
    } else if d == 13 {
        'd'
    } else if d == 14 {
        'e'
    } else {
        'f'
    }
}

/// The `i`-th nibble of `n`, most significant first.
pub open spec fn nibble(n: u64, i: int) -> u64 {
    (n >> (((60 - 4 * i)) as u64)) & 0xf
}

/// The sixteen-digit lower-case hexadecimal rendering of `n`.
pub open spec fn hex_rep(n: u64) -> Seq<char> {
    Seq::new(16, |i: int| hex_char(nibble(n, i)))
}

fn digit_str(d: u64) -> (r: &'static str)
    requires
        d < 16,
    ensures
        r@ =~= seq![hex_char(d)],
{
    if d == 0 {
        proof {
            reveal_strlit("0");
        }
        "0"
    } else if d == 1 {
        proof {
            reveal_strlit("1");
        }
        "1"
    } else if d == 2 {
        proof {
            reveal_strlit("2");
        }
        "2"
    } else if d == 3 {
        proof {
            reveal_strlit("3");
        }
        "3"
    } else if d == 4 {
        proof {
            reveal_strlit("4");
        }
        "4"
    } else if d == 5 {
        proof {
            reveal_strlit("5");
        }
        "5"
    } else if d == 6 {
        proof {
            reveal_strlit("6");
        }
        "6"
    } else if d == 7 {
        proof {
            reveal_strlit("7");
        }
        "7"
    } else if d == 8 {
        proof {
            reveal_strlit("8");
        }
        "8"
    } else if d == 9 {
        proof {
            reveal_strlit("9");
        }
        "9"
    } else if d == 10 {
        proof {
            reveal_strlit("a");
        }
        "a"
    } else if d == 11 {
        proof {
            reveal_strlit("b");
        }
        "b"
    } else if d == 12 {
        proof {
            reveal_strlit("c");
        }
        "c"
    } else if d == 13 {
        proof {
            reveal_strlit("d");
        }
        "d"
    } else if d == 14 {
        proof {
            reveal_strlit("e");
        }
        "e"
    } else {
        proof {
            reveal_strlit("f");
        }
        "f"
    }
}

/// The sixteen-digit hexadecimal rendering of `n`, for building directory
/// and archive names from a cache key.
pub fn hex_str(n: u64) -> (s: String)
    ensures
        s@ == hex_rep(n),
{
    let mut s = String::new();
    let mut i: usize = 0;
    while i < 16
        invariant
            0 <= i <= 16,
            s@ =~= hex_rep(n).subrange(0, i as int),
        decreases 16 - i,
    {
        let sh: u64 = 60 - 4 * (i as u64);
        let d: u64 = (n >> sh) & 0xf;
        proof {
            assert((n >> sh) & 0xf < 16) by (bit_vector);
            assert(d == nibble(n, i as int));
        }
        s.append(digit_str(d));
        proof {
            assert(s@ =~= hex_rep(n).subrange(0, i + 1));
        }
        i += 1;
    }
    proof {
        assert(hex_rep(n).subrange(0, 16) =~= hex_rep(n));
    }
    s
}

} // verus!
