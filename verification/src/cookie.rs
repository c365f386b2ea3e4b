use vstd::prelude::*;

verus! {

/// One browser cookie as read from the local store, reduced to the fields the
/// header builder reads. `expires` is seconds since the Unix epoch, absent
/// for session cookies.
pub struct CookieRecord {
    pub domain: String,
    pub name: String,
    pub value: String,
    pub expires: Option<u64>,
}

/// A record is usable only if it has an expiry strictly after `now_secs`;
/// records without an expiry are never usable.
pub open spec fn cookie_usable(c: CookieRecord, now_secs: u64) -> bool {
    match c.expires {
        Option::Some(e) => e > now_secs,
        Option::None => false,
    }
}

/// Whether a cookie may still be sent at `now_secs` (seconds since the Unix
/// epoch): its expiry exists and lies strictly in the future.
pub fn is_valid_cookie(c: &CookieRecord, now_secs: u64) -> (r: bool)
    ensures
        r == cookie_usable(*c, now_secs),
{
    match c.expires {
        Option::None => false,
        Option::Some(e) => e > now_secs,
    }
}

/// One cookie serialized for the `Cookie` header: `name=value`.
pub open spec fn spec_cookie_pair(c: CookieRecord) -> Seq<char> {
    c.name@ + "="@ + c.value@
}

/// A sequence of cookies serialized for the `Cookie` header: the pairs
/// joined by `; `, empty when there is no cookie.
pub open spec fn spec_cookie_header(cs: Seq<CookieRecord>) -> Seq<char>
    decreases cs.len(),
{
    if cs.len() == 0 {
        Seq::empty()
    } else if cs.len() == 1 {
        spec_cookie_pair(cs[0])
    } else {
        spec_cookie_header(cs.drop_last()) + "; "@ + spec_cookie_pair(cs.last())
    }
}

/// The usability test at `now_secs`, as a predicate on records.
pub open spec fn usable_pred(now_secs: u64) -> spec_fn(CookieRecord) -> bool {
    |c: CookieRecord| cookie_usable(c, now_secs)
}

/// The cookies of `cs` that are still usable at `now_secs`, in order.
pub open spec fn usable_cookies(cs: Seq<CookieRecord>, now_secs: u64) -> Seq<CookieRecord> {
    cs.filter(usable_pred(now_secs))
}

/// A record whose expiry is absent or not in the future never survives the
/// usability filter, so it is never part of the serialized cookie header.
pub proof fn lemma_expired_never_included(cs: Seq<CookieRecord>, now_secs: u64)
    ensures
        forall|c: CookieRecord|
            !cookie_usable(c, now_secs) ==> !usable_cookies(cs, now_secs).contains(c),
{
    assert forall|c: CookieRecord|
        !cookie_usable(c, now_secs) implies !usable_cookies(cs, now_secs).contains(c) by {
        let pred = usable_pred(now_secs);
        if usable_cookies(cs, now_secs).contains(c) {
            let f = cs.filter(pred);
            let j = choose|j: int| 0 <= j < f.len() && f[j] == c;
            cs.lemma_filter_pred(pred, j);
        }
    }
}

/// Serializes the cookies still usable at `now_secs` into a single `Cookie`
/// header value: `name=value` pairs joined by `; `. Expired or expiry-less
/// records are never included.
pub fn cookie_header(cookies: &Vec<CookieRecord>, now_secs: u64) -> (r: String)
    ensures
        r@ == spec_cookie_header(usable_cookies(cookies@, now_secs)),
{
    let mut out = String::new();
    let mut kept: usize = 0;
    let mut i: usize = 0;
    while i < cookies.len()
        invariant
            i <= cookies@.len(),
            kept == usable_cookies(cookies@.subrange(0, i as int), now_secs).len(),
            out@ == spec_cookie_header(usable_cookies(cookies@.subrange(0, i as int), now_secs)),
        decreases cookies@.len() - i,
    {
        let ghost prefix = cookies@.subrange(0, i as int);
        let ghost kept_seq = usable_cookies(prefix, now_secs);
        proof {
            assert(cookies@.subrange(0, i as int + 1) =~= prefix.push(cookies@[i as int]));
            prefix.lemma_filter_push(cookies@[i as int], usable_pred(now_secs));
            assert(kept_seq.push(cookies@[i as int]).drop_last() =~= kept_seq);
        }
        if is_valid_cookie(&cookies[i], now_secs) {
            if kept > 0 {
                out.append("; ");
            }
            out.append(cookies[i].name.as_str());
            out.append("=");
            out.append(cookies[i].value.as_str());
            kept = kept + 1;
            proof {
                let extended = usable_cookies(cookies@.subrange(0, i as int + 1), now_secs);
                assert(extended =~= kept_seq.push(cookies@[i as int]));
                if kept_seq.len() == 0 {
                    assert(out@ =~= spec_cookie_header(extended));
                } else {
                    assert(extended.drop_last() =~= kept_seq);
                    assert(out@ =~= spec_cookie_header(extended));
                }
            }
        } else {
            proof {
                let extended = usable_cookies(cookies@.subrange(0, i as int + 1), now_secs);
                assert(extended =~= kept_seq);
            }
        }
        i = i + 1;
    }
    proof {
        assert(cookies@.subrange(0, cookies@.len() as int) =~= cookies@);
    }
    out
}

/// The labels of a host name, split on `.`; splitting the empty string
/// yields one empty label, as splitting on a separator does.
pub open spec fn split_labels(h: Seq<char>) -> Seq<Seq<char>>
    decreases h.len(),
{
    if h.len() == 0 {
        seq![Seq::<char>::empty()]
    } else {
        let rest = split_labels(h.drop_last());
        if h.last() == '.' {
            rest.push(Seq::<char>::empty())
        } else {
            rest.update(rest.len() - 1, rest.last().push(h.last()))
        }
    }
}

/// The two-label parent domain of a host: the last two `.`-separated labels
/// joined by `.`; a host with a single label keeps it, prefixed by `.`.
pub open spec fn spec_parent_domain(h: Seq<char>) -> Seq<char> {
    let labels = split_labels(h);
    if labels.len() == 1 {
        "."@ + labels[0]
    } else {
        labels[labels.len() - 2] + "."@ + labels[labels.len() - 1]
    }
}

/// Computes the two-label parent domain of a host (`a.b.example.com` gives
/// `example.com`), under which the browser store is queried beside the host
/// itself.
pub fn parent_domain(host: &str) -> (r: String)
    ensures
        r@ == spec_parent_domain(host@),
{
    let n: usize = host.unicode_len();
    let mut labels: Vec<String> = Vec::new();
    labels.push(String::new());
    proof {
        assert(labels@.map_values(|s: String| s@) =~~= split_labels(host@.subrange(0, 0)));
    }
    let mut i: usize = 0;
    while i < n
        invariant
            i <= n,
            n == host@.len(),
            labels@.len() >= 1,
            labels@.map_values(|s: String| s@) == split_labels(host@.subrange(0, i as int)),
        decreases n - i,
    {
        proof {
            assert(host@.subrange(0, i as int + 1).drop_last() =~= host@.subrange(0, i as int));
            assert(host@.subrange(0, i as int + 1).last() == host@[i as int]);
        }
        let c = host.get_char(i);
        if c == '.' {
            labels.push(String::new());
            proof {
                assert(labels@.map_values(|s: String| s@) =~~= split_labels(
                    host@.subrange(0, i as int + 1),
                ));
            }
        } else {
            let piece = host.substring_char(i, i + 1);
            proof {
                assert(piece@ =~= seq![host@[i as int]]);
            }
            let mut last = labels.pop().unwrap();
            last.append(piece);
            labels.push(last);
            proof {
                assert(labels@.map_values(|s: String| s@) =~~= split_labels(
                    host@.subrange(0, i as int + 1),
                ));
            }
        }
        i = i + 1;
    }
    proof {
        assert(host@.subrange(0, n as int) =~= host@);
    }
    let m: usize = labels.len();
    if m == 1 {
        let mut out = String::from_str(".");
        out.append(labels[0].as_str());
        out
    } else {
        let mut out = labels[m - 2].clone();
        out.append(".");
        out.append(labels[m - 1].as_str());
        out
    }
}

} // verus!
