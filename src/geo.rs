use vstd::prelude::*;

verus! {

/// The country code used when an address cannot be resolved.
pub open spec fn unknown_country() -> Seq<char> {
    seq!['Z', 'Z']
}

/// The country reported for the outcome of a lookup.
pub open spec fn country_of(found: Option<Seq<char>>) -> Seq<char> {
    match found {
        Some(c) => c,
        None => unknown_country(),
    }
}

/// The view of an optional string.
pub open spec fn opt_view(s: Option<String>) -> Option<Seq<char>> {
    match s {
        Some(t) => Some(t@),
        None => None,
    }
}

/// The country code to report: the one found, else `ZZ`. Never fails.
pub fn country_code(found: Option<String>) -> (r: String)
    ensures
        r@ == country_of(opt_view(found)),
{
    match found {
        Some(c) => c,
        None => {
            proof {
                reveal_strlit("ZZ");
            }
            let r = String::from_str("ZZ");
            assert(r@ =~= unknown_country());
            r
        },
    }
}

} // verus!
