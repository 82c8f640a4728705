//! The security descriptors of the server's kernel objects, as SDDL text.
use vstd::prelude::*;

verus! {

/// The SDDL of the single-instance mutex, the step-down event and the build marker for the user
/// with SID `sid`: full access for that user and for SYSTEM, nobody else, medium integrity (so
/// that an ordinary successor can still signal what an elevated server created).
pub open spec fn object_sddl_for(sid: Seq<char>) -> Seq<char> {
    "D:(A;;GA;;;"@ + sid + ")(A;;GA;;;SY)S:(ML;;NW;;;ME)"@
}

/// The SDDL for objects only the current user (and SYSTEM) may open, given the user's SID. Without
/// a SID there is none, and the caller uses the default descriptor, which also admits only the
/// user: an empty SDDL would describe an object without a DACL, open to everyone.
pub fn object_sddl(sid: Option<&str>) -> (r: Option<String>)
    ensures
        match sid {
            Some(s) => r matches Some(t) && t@ == object_sddl_for(s@),
            None => r is None,
        },
{
    match sid {
        Some(s) => {
            let mut t = String::from_str("D:(A;;GA;;;");
            t.append(s);
            t.append(")(A;;GA;;;SY)S:(ML;;NW;;;ME)");
            Some(t)
        },
        None => None,
    }
}

/// An SDDL is never empty: there is none at all, or it starts with the DACL.
pub proof fn lemma_object_sddl_never_empty(sid: Seq<char>)
    ensures
        object_sddl_for(sid).len() > 0,
        object_sddl_for(sid).take(2) == "D:"@,
{
    reveal_strlit("D:(A;;GA;;;");
    reveal_strlit("D:");
    assert(object_sddl_for(sid).take(2) =~= "D:"@);
}

} // verus!
