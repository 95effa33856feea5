//! The one dynamic rule of the native menu: activating the
//! "Check for Updates" item emits exactly one `check-for-updates`
//! event with no payload; every other item emits nothing.  The shell
//! that owns the menu asks this rule which event to forward.

use vstd::prelude::*;
use crate::text::str_eq;

verus! {

/// The event emitted for a menu item, by item identifier.
pub open spec fn spec_menu_event(id: Seq<char>) -> Option<Seq<char>> {
    if id == "check_updates"@ {
        Option::Some("check-for-updates"@)
    } else {
        Option::None
    }
}

/// Decides which UI event a menu activation triggers: the
/// `check_updates` item triggers `check-for-updates`, nothing else
/// triggers anything.
pub fn menu_event_for(id: &str) -> (r: Option<&'static str>)
    ensures
        r matches Option::Some(e) ==> e@ == "check-for-updates"@,
        (r is Some) == (id@ == "check_updates"@),
        opt_strref_view(r) == spec_menu_event(id@),
{
    if str_eq(id, "check_updates") {
        Option::Some("check-for-updates")
    } else {
        Option::None
    }
}

/// Mathematical view of an optional borrowed string.
pub open spec fn opt_strref_view(o: Option<&str>) -> Option<Seq<char>> {
    match o {
        Option::Some(s) => Option::Some(s@),
        Option::None => Option::None,
    }
}

} // verus!
