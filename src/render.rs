use vstd::prelude::*;
use vstd::string::StringExecFns;

verus! {

/// The text of a vector whose components are already rendered: the three
/// components in order, separated by a comma and a space, in parentheses.
pub open spec fn triple_text(x: Seq<char>, y: Seq<char>, z: Seq<char>) -> Seq<char> {
    seq!['('] + x + seq![',', ' '] + y + seq![',', ' '] + z + seq![')']
}

/// Lays out three rendered components as `(x, y, z)`.
pub fn render_components(x: &str, y: &str, z: &str) -> (r: String)
    ensures
        r@ == triple_text(x@, y@, z@),
{
    let mut r = String::from_str("(");
    r.append(x);
    r.append(", ");
    r.append(y);
    r.append(", ");
    r.append(z);
    r.append(")");
    proof {
        reveal_strlit("(");
        reveal_strlit(", ");
        reveal_strlit(")");
    }
    assert(r@ =~= triple_text(x@, y@, z@));
    r
}

} // verus!
