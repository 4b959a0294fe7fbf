//! Character-level string helpers the engine needs: equality of two string
//! slices over their character sequences, and joining a list of strings.

use vstd::prelude::*;
use vstd::string::StrSliceExecFns;
use vstd::string::StringExecFns;

verus! {

/// Whether two string slices hold the same characters.
pub fn str_eq(a: &str, b: &str) -> (r: bool)
    ensures
        r == (a@ == b@),
{
    let a_len: usize = a.unicode_len();
    let b_len: usize = b.unicode_len();
    if a_len != b_len {
        return false;
    }
    let mut i: usize = 0;
    while i < a_len
        invariant
            i <= a_len,
            a_len == a@.len(),
            a_len == b@.len(),
            forall|j: int| 0 <= j < i ==> a@[j] == b@[j],
        decreases a_len - i,
    {
        if a.get_char(i) != b.get_char(i) {
            return false;
        }
        i = i + 1;
    }
    proof {
        assert(a@ =~= b@);
    }
    true
}

/// The characters of the first `n` of `items` joined with `sep` between them.
pub open spec fn spec_join_upto(items: Seq<Seq<char>>, sep: Seq<char>, n: int) -> Seq<char>
    decreases n,
{
    if n <= 0 || items.len() == 0 {
        Seq::empty()
    } else if n == 1 {
        items[0]
    } else {
        spec_join_upto(items, sep, n - 1) + sep + items[n - 1]
    }
}

/// The characters of `items` joined with `sep` between them.
pub open spec fn spec_join(items: Seq<Seq<char>>, sep: Seq<char>) -> Seq<char> {
    spec_join_upto(items, sep, items.len() as int)
}

/// Join a list of strings with a separator between neighbours.
pub fn join(items: &[String], sep: &str) -> (r: String)
    ensures
        r@ == spec_join(items@.map_values(|s: String| s@), sep@),
{
    let ghost views = items@.map_values(|s: String| s@);
    let mut out: String = String::new();
    let count: usize = items.len();
    let mut i: usize = 0;
    while i < count
        invariant
            count == items@.len(),
            i <= count,
            views == items@.map_values(|s: String| s@),
            out@ == spec_join_upto(views, sep@, i as int),
        decreases count - i,
    {
        if i > 0 {
            out.append(sep);
        }
        out.append(items[i].as_str());
        i = i + 1;
    }
    out
}

} // verus!
