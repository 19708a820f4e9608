use vstd::prelude::*;

verus! {

/// The prefix that the generated symbol names lose.
pub open spec fn symbol_prefix() -> Seq<char> {
    "mbedtls_"@
}

/// The name under which a symbol is emitted, when it differs from its C name:
/// the name without its leading `mbedtls_`, once.
pub open spec fn stripped_name(name: Seq<char>) -> Option<Seq<char>> {
    let p = symbol_prefix();
    if p.len() <= name.len() && name.take(p.len() as int) == p {
        Some(name.skip(p.len() as int))
    } else {
        None
    }
}

/// Renames a C symbol for the bindings: `Some` of the name without its
/// leading `mbedtls_`, or `None` where the name does not start with it and
/// stays as it is.
pub fn strip_symbol_prefix(name: &str) -> (r: Option<String>)
    ensures
        r is Some <==> stripped_name(name@) is Some,
        r matches Some(s) ==> stripped_name(name@) == Some(s@),
{
    let prefix = "mbedtls_";
    proof {
        reveal_strlit("mbedtls_");
    }
    assert(prefix@ == symbol_prefix());
    let plen = prefix.unicode_len();
    let nlen = name.unicode_len();
    if nlen < plen {
        return None;
    }
    let mut i: usize = 0;
    while i < plen
        invariant
            prefix@ == symbol_prefix(),
            plen == prefix@.len(),
            plen <= nlen == name@.len(),
            i <= plen,
            name@.take(i as int) =~= prefix@.take(i as int),
        decreases plen - i,
    {
        let c = name.get_char(i);
        let d = prefix.get_char(i);
        if c != d {
            assert(name@.take(plen as int)[i as int] != symbol_prefix()[i as int]);
            return None;
        }
        assert(name@.take(i + 1) =~= prefix@.take(i + 1));
        i += 1;
    }
    assert(prefix@.take(plen as int) =~= prefix@);
    Some(String::from_str(name.substring_char(plen, nlen)))
}

/// The prefix comes off once, and only as a leading prefix: a name made of
/// the prefix followed by any text is emitted as exactly that text, even where
/// that text starts with the prefix again.
pub proof fn lemma_strip_once(rest: Seq<char>)
    ensures
        stripped_name(symbol_prefix() + rest) == Some(rest),
{
    let n = symbol_prefix() + rest;
    assert(n.take(symbol_prefix().len() as int) =~= symbol_prefix());
    assert(n.skip(symbol_prefix().len() as int) =~= rest);
}

/// A name that does not start with the prefix keeps its C name, wherever else
/// the prefix may occur in it.
pub proof fn lemma_no_leading_prefix_kept(name: Seq<char>)
    requires
        !(symbol_prefix().len() <= name.len() && name.take(symbol_prefix().len() as int)
            == symbol_prefix()),
    ensures
        stripped_name(name) is None,
{
}

} // verus!
