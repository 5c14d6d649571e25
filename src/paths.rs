use vstd::prelude::*;

verus! {

/// Tilde expansion on Unix: a leading `~` that stands alone or before `/` is
/// replaced by the home directory, when there is one; any other path is kept.
pub open spec fn tilde_expanded(path: Seq<char>, home: Option<Seq<char>>) -> Seq<char> {
    if path.len() > 0 && path[0] == '~' && (path.len() == 1 || path[1] == '/') && home.is_some() {
        home.unwrap() + path.drop_first()
    } else {
        path
    }
}

/// The text of an optional string slice.
pub open spec fn opt_str_view(o: Option<&str>) -> Option<Seq<char>> {
    match o {
        Some(s) => Some(s@),
        None => None,
    }
}

/// Relies on shellexpand::tilde_with_context: with the home directory handed
/// in, a `~` alone or followed by `/` becomes that directory, and any other
/// input comes back unchanged (`~user` forms are not expanded).
#[verifier::external_body]
pub(crate) fn expand_tilde(path: &str, home: Option<&str>) -> (r: String)
    ensures
        r@ == tilde_expanded(path@, opt_str_view(home)),
{
    shellexpand::tilde_with_context(path, || home).into_owned()
}

} // verus!
