//! The icons of the user interface, by name.

use vstd::prelude::*;
use vstd::string::*;
use crate::text::chars_of;

verus! {

/// The asset that draws the icon called `name`: the path of its SVG file; no
/// path for a name that no icon has.
pub open spec fn icon_asset(name: Seq<char>) -> Seq<char> {
    if name == "plus"@ {
        "assets/plus-thin.svg"@
    } else if name == "minus"@ {
        "assets/minus-thin.svg"@
    } else if name == "windmill"@ {
        "assets/windmill-thin.svg"@
    } else if name == "gear"@ {
        "assets/gear-six-thin.svg"@
    } else if name == "brush"@ {
        "assets/paint-brush-thin.svg"@
    } else if name == "shapes"@ {
        "assets/shapes-thin.svg"@
    } else if name == "arrow-left"@ {
        "assets/arrow-left-thin.svg"@
    } else {
        Seq::<char>::empty()
    }
}

/// Whether two texts hold the same characters.
fn same_text(a: &str, b: &str) -> (same: bool)
    ensures
        same == (a@ == b@),
{
    let left = chars_of(a);
    let right = chars_of(b);
    if left.len() != right.len() {
        return false;
    }
    let mut i: usize = 0;
    while i < left.len()
        invariant
            i <= left.len(),
            left.len() == right.len(),
            left@ == a@,
            right@ == b@,
            forall|j: int| 0 <= j < i ==> left@[j] == right@[j],
        decreases left.len() - i,
    {
        if left[i] != right[i] {
            return false;
        }
        i += 1;
    }
    assert(left@ =~= right@);
    true
}

/// The asset that draws the icon called `name`, as `icon_asset` says: the path
/// of the icon's SVG file, or the empty text for a name that no icon has.
pub fn create_icon(name: &str) -> (icon: String)
    ensures
        icon@ == icon_asset(name@),
{
    let path: &str = if same_text(name, "plus") {
        "assets/plus-thin.svg"
    } else if same_text(name, "minus") {
        "assets/minus-thin.svg"
    } else if same_text(name, "windmill") {
        "assets/windmill-thin.svg"
    } else if same_text(name, "gear") {
        "assets/gear-six-thin.svg"
    } else if same_text(name, "brush") {
        "assets/paint-brush-thin.svg"
    } else if same_text(name, "shapes") {
        "assets/shapes-thin.svg"
    } else if same_text(name, "arrow-left") {
        "assets/arrow-left-thin.svg"
    } else {
        proof {
            reveal_strlit("");
        }
        assert(""@ =~= Seq::<char>::empty());
        ""
    };
    path.to_owned()
}

} // verus!
