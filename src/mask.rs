use vstd::prelude::*;
use vstd::string::*;

verus! {

/// The display form of a sensitive string: short strings are fully redacted,
/// longer ones keep one or two characters at each end around four asterisks.
pub open spec fn mask_of(s: Seq<char>) -> Seq<char> {
    let n = s.len();
    if n < 4 {
        Seq::new(n, |i: int| '*')
    } else {
        let keep_front: int = if n >= 10 { 2 } else { 1 };
        let keep_back: int = if n > 5 { 2 } else { 1 };
        s.subrange(0, keep_front) + seq!['*', '*', '*', '*'] + s.subrange(n - keep_back, n as int)
    }
}

/// Masks a string, counting characters rather than bytes.
pub fn mask_string(string: &str) -> (r: String)
    ensures
        r@ == mask_of(string@),
{
    let n = string.unicode_len();
    proof {
        reveal_strlit("*");
        reveal_strlit("****");
    }
    if n < 4 {
        let mut out = String::new();
        let mut i: usize = 0;
        while i < n
            invariant
                i <= n,
                n == string@.len(),
                out@ == Seq::new(i as nat, |k: int| '*'),
            decreases n - i,
        {
            proof {
                reveal_strlit("*");
            }
            out.append("*");
            i = i + 1;
            assert(out@ =~= Seq::new(i as nat, |k: int| '*'));
        }
        return out;
    }
    let keep_front: usize = if n >= 10 { 2 } else { 1 };
    let keep_back: usize = if n > 5 { 2 } else { 1 };
    let front = String::from_str(string.substring_char(0, keep_front));
    let out = front.concat("****").concat(string.substring_char(n - keep_back, n));
    assert(out@ =~= mask_of(string@));
    out
}

} // verus!
