//! Construction of the single request URL from city, API key and unit
//! system, and the proof that the URL determines those inputs.

use vstd::prelude::*;
use vstd::string::StringExecFns;
use crate::units::Units;
use crate::units::spec_token;

verus! {

/// The exact URL requested for a city, key and unit system.
pub open spec fn spec_url(city: Seq<char>, key: Seq<char>, u: Units) -> Seq<char> {
    "https://api.openweathermap.org/data/2.5/weather?q="@ + city + "&appid="@ + key + "&units="@
        + spec_token(u)
}

/// Build the request URL: the weather endpoint with query parameters `q`
/// (city), `appid` (key) and `units` (token), in that order.
pub fn build_url(city: &str, key: &str, units: &Units) -> (r: String)
    ensures
        r@ == spec_url(city@, key@, *units),
{
    let mut s = "https://api.openweathermap.org/data/2.5/weather?q=".to_owned();
    s.append(city);
    s.append("&appid=");
    s.append(key);
    s.append("&units=");
    let token = units.to_string();
    s.append(token.as_str());
    proof {
        assert(s@ =~= spec_url(city@, key@, *units));
    }
    s
}

/// A string free of the query-parameter separator.
pub open spec fn amp_free(s: Seq<char>) -> bool {
    forall|i: int| 0 <= i < s.len() ==> s[i] != '&'
}

/// Two equal concatenations whose left parts are free of '&' and whose
/// right parts start with '&' agree part by part.
proof fn lemma_amp_cancel(a: Seq<char>, x: Seq<char>, b: Seq<char>, y: Seq<char>)
    requires
        amp_free(a),
        amp_free(b),
        x.len() > 0,
        y.len() > 0,
        x[0] == '&',
        y[0] == '&',
        a + x == b + y,
    ensures
        a == b,
        x == y,
{
    if a.len() < b.len() {
        assert((a + x)[a.len() as int] == '&');
        assert((b + y)[a.len() as int] == b[a.len() as int]);
        assert(false);
    }
    if b.len() < a.len() {
        assert((b + y)[b.len() as int] == '&');
        assert((a + x)[b.len() as int] == a[b.len() as int]);
        assert(false);
    }
    assert((a + x).len() == a.len() + x.len());
    assert((b + y).len() == b.len() + y.len());
    assert(x.len() == y.len());
    assert forall|i: int| 0 <= i < a.len() implies a[i] == b[i] by {
        assert((a + x)[i] == a[i]);
        assert((b + y)[i] == b[i]);
    }
    assert(a =~= b);
    assert forall|i: int| 0 <= i < x.len() implies x[i] == y[i] by {
        assert((a + x)[a.len() + i] == x[i]);
        assert((b + y)[b.len() + i] == y[i]);
    }
    assert(x =~= y);
}

/// Equal concatenations with the same left part have the same right part.
proof fn lemma_prefix_cancel(p: Seq<char>, x: Seq<char>, y: Seq<char>)
    requires
        p + x == p + y,
    ensures
        x == y,
{
    assert((p + x).len() == p.len() + x.len());
    assert((p + y).len() == p.len() + y.len());
    assert(x.len() == y.len());
    assert forall|i: int| 0 <= i < x.len() implies x[i] == y[i] by {
        assert((p + x)[p.len() + i] == x[i]);
        assert((p + y)[p.len() + i] == y[i]);
    }
    assert(x =~= y);
}

/// The built URL is injective in its inputs, for city names and keys that
/// are free of the separator '&'.
pub proof fn lemma_build_url_injective(
    c1: Seq<char>,
    k1: Seq<char>,
    u1: Units,
    c2: Seq<char>,
    k2: Seq<char>,
    u2: Units,
)
    requires
        amp_free(c1),
        amp_free(k1),
        amp_free(c2),
        amp_free(k2),
        spec_url(c1, k1, u1) == spec_url(c2, k2, u2),
    ensures
        c1 == c2,
        k1 == k2,
        u1 == u2,
{
    reveal_strlit("&appid=");
    reveal_strlit("&units=");
    reveal_strlit("metric");
    reveal_strlit("imperial");
    let base = "https://api.openweathermap.org/data/2.5/weather?q="@;
    let amp_key = "&appid="@;
    let amp_units = "&units="@;
    let tail1 = amp_key + (k1 + (amp_units + spec_token(u1)));
    let tail2 = amp_key + (k2 + (amp_units + spec_token(u2)));
    assert(spec_url(c1, k1, u1) =~= base + (c1 + tail1));
    assert(spec_url(c2, k2, u2) =~= base + (c2 + tail2));
    lemma_prefix_cancel(base, c1 + tail1, c2 + tail2);
    assert(tail1[0] == '&');
    assert(tail2[0] == '&');
    lemma_amp_cancel(c1, tail1, c2, tail2);
    lemma_prefix_cancel(amp_key, k1 + (amp_units + spec_token(u1)), k2 + (amp_units + spec_token(u2)));
    assert((amp_units + spec_token(u1))[0] == '&');
    assert((amp_units + spec_token(u2))[0] == '&');
    lemma_amp_cancel(k1, amp_units + spec_token(u1), k2, amp_units + spec_token(u2));
    lemma_prefix_cancel(amp_units, spec_token(u1), spec_token(u2));
    assert(u1 == u2) by {
        if u1 != u2 {
            assert(spec_token(u1).len() != spec_token(u2).len());
        }
    }
}

} // verus!
