//! Diagnostic lists: each validation pass appends fixed codes for the flags it rejects.
use vstd::prelude::*;

verus! {

/// `[code]` when `flag` holds, nothing otherwise.
#[verifier::opaque]
pub open spec fn flag_diag(flag: bool, code: &'static str) -> Seq<&'static str> {
    if flag {
        seq![code]
    } else {
        Seq::empty()
    }
}

/// Appends `code` when `flag` holds.
pub fn push_if(diagnostics: &mut Vec<&'static str>, flag: bool, code: &'static str)
    ensures
        final(diagnostics)@ == old(diagnostics)@ + flag_diag(flag, code),
{
    proof { reveal(flag_diag); }
    if flag {
        diagnostics.push(code);
    }
    proof {
        if !flag {
            assert(old(diagnostics)@ + flag_diag(flag, code) == old(diagnostics)@);
        }
    }
}

/// A flag contributes one code when set and none otherwise.
pub broadcast proof fn lemma_flag_diag(flag: bool, code: &'static str)
    ensures
        #[trigger] flag_diag(flag, code) == (if flag { seq![code] } else { Seq::<&'static str>::empty() }),
{
    reveal(flag_diag);
}

} // verus!
