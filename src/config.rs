//! Configuration values the core reads, and how the delivery switch is read.
use vstd::prelude::*;
use vstd::string::*;

verus! {

/// Whether the configured delivery switch turns delivery on: only the exact
/// text `true` does.
pub fn is_sending_enabled(flag: &str) -> (r: bool)
    ensures
        r == (flag@ == "true"@),
{
    proof { reveal_strlit("true"); }
    let n = flag.unicode_len();
    if n != 4 {
        return false;
    }
    let r = flag.get_char(0) == 't' && flag.get_char(1) == 'r' && flag.get_char(2) == 'u' && flag.get_char(3) == 'e';
    if r {
        assert(flag@ =~= "true"@);
    }
    r
}

} // verus!
