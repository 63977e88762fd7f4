//! Thousands separators for a number already written out in digits.
use vstd::prelude::*;

verus! {

/// `s` with a `,` before each of its last `groups` blocks of three
/// characters.
pub open spec fn grouped(s: Seq<char>, groups: nat) -> Seq<char>
    decreases groups,
{
    if groups == 0 || s.len() < 3 {
        s
    } else {
        grouped(s.subrange(0, s.len() - 3), (groups - 1) as nat) + seq![','] + s.subrange(
            s.len() - 3,
            s.len() as int,
        )
    }
}

/// `text` with a `,` put before each of its last `groups` blocks of three
/// characters, counting from the right.
pub fn group_digits(text: &String, groups: usize) -> (r: String)
    requires
        3 * groups <= text@.len(),
    ensures
        r@ == grouped(text@, groups as nat),
{
    let s = text.as_str();
    let n = s.unicode_len();
    let head = n - 3 * groups;
    let mut out = String::new();
    out.append(s.substring_char(0, head));
    proof {
        assert(text@.subrange(0, head as int) =~= s@.subrange(0, head as int));
    }
    let mut k: usize = 0;
    while k < groups
        invariant
            n == s@.len(),
            s@ == text@,
            head == n - 3 * groups,
            k <= groups,
            out@ == grouped(s@.subrange(0, head + 3 * k), k as nat),
        decreases groups - k,
    {
        let m = head + 3 * k;
        proof {
            reveal_strlit(",");
            let longer = s@.subrange(0, m + 3);
            assert(longer.subrange(0, m as int) =~= s@.subrange(0, m as int));
            assert(longer.subrange(m as int, m + 3) =~= s@.subrange(m as int, m + 3));
            assert(",".view() =~= seq![',']);
        }
        out.append(",");
        out.append(s.substring_char(m, m + 3));
        k += 1;
    }
    assert(s@.subrange(0, n as int) =~= s@);
    out
}

} // verus!
