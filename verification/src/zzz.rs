use vstd::prelude::*;
use crate::decimal::spec_decimal;
use crate::decimal::u128_to_decimal;
use crate::hoyo::Name;

verus! {

/// The ZZZ endpoints: only a templated gift redemption URL carrying a
/// client-side millisecond timestamp; the game has no daily-info or
/// check-in endpoint.
pub struct ZzzApi;

impl Name for ZzzApi {
    open spec fn spec_name(&self) -> Seq<char> {
        "zzz"@
    }

    fn name(&self) -> (r: &str) {
        "zzz"
    }
}

impl ZzzApi {
    /// The gift redemption URL for one account, one redemption code and the
    /// current time in milliseconds since the Unix epoch.
    pub fn gift_url(uid: &str, cdkey: &str, now_millis: u128) -> (r: String)
        ensures
            r@ == "https://public-operation-nap.hoyoverse.com/common/apicdkey/api/webExchangeCdkey?t="@
                + spec_decimal(now_millis as nat) + "&lang=en&game_biz=nap_global&uid="@ + uid@
                + "&region=prod_gf_jp&cdkey="@ + cdkey@,
    {
        let mut s = String::from_str(
            "https://public-operation-nap.hoyoverse.com/common/apicdkey/api/webExchangeCdkey?t=",
        );
        s.append(u128_to_decimal(now_millis).as_str());
        s.append("&lang=en&game_biz=nap_global&uid=");
        s.append(uid);
        s.append("&region=prod_gf_jp&cdkey=");
        s.append(cdkey);
        s
    }
}

} // verus!
