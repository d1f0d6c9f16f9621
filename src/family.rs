//! Address-family classification of prefix text.

use vstd::prelude::*;

verus! {

/// Whether the prefix text holds a colon anywhere.
pub open spec fn has_colon(prefix: Seq<char>) -> bool {
    exists|i: int| 0 <= i < prefix.len() && prefix[i] == ':'
}

/// Name of the IPv6 prefix set.
pub open spec fn v6_table() -> Seq<char> {
    seq!['r', 'i', 's', '-', 'i', 'p', 'v', '6']
}

/// Name of the IPv4 prefix set.
pub open spec fn v4_table() -> Seq<char> {
    seq!['r', 'i', 's', '-', 'i', 'p', 'v', '4']
}

/// The set that a prefix belongs to: a colon marks IPv6, anything else is IPv4.
pub open spec fn table_for(prefix: Seq<char>) -> Seq<char> {
    if has_colon(prefix) {
        v6_table()
    } else {
        v4_table()
    }
}

/// Whether the prefix is an IPv6 one; the text is not validated.
pub fn is_v6(network: &str) -> (r: bool)
    ensures
        r == has_colon(network@),
{
    let n = network.unicode_len();
    let mut i: usize = 0;
    while i < n
        invariant
            n == network@.len(),
            i <= n,
            forall|j: int| 0 <= j < i ==> network@[j] != ':',
        decreases n - i,
    {
        if network.get_char(i) == ':' {
            return true;
        }
        i = i + 1;
    }
    false
}

/// The name of the prefix set that the prefix is filed under.
pub fn ipset_table(prefix: &str) -> (r: &'static str)
    ensures
        r@ == table_for(prefix@),
{
    if is_v6(prefix) {
        let t = "ris-ipv6";
        proof {
            reveal_strlit("ris-ipv6");
            assert(t@ =~= v6_table());
        }
        t
    } else {
        let t = "ris-ipv4";
        proof {
            reveal_strlit("ris-ipv4");
            assert(t@ =~= v4_table());
        }
        t
    }
}

} // verus!
