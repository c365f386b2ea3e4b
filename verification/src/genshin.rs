use vstd::prelude::*;
use crate::hoyo::Name;

verus! {

/// The Genshin endpoints: a fixed check-in URL and a templated gift
/// redemption URL. The adapter that executes the requests holds one of
/// these beside its HTTP client.
pub struct GenshinApi;

impl Name for GenshinApi {
    open spec fn spec_name(&self) -> Seq<char> {
        "genshin"@
    }

    fn name(&self) -> (r: &str) {
        "genshin"
    }
}

impl GenshinApi {
    /// The gift redemption URL for one account and one redemption code.
    pub fn gift_url(uid: &str, cdkey: &str) -> (r: String)
        ensures
            r@ == "https://sg-hk4e-api.hoyoverse.com/common/apicdkey/api/webExchangeCdkey?uid="@
                + uid@ + "&region=os_asia&lang=zh-tw&cdkey="@ + cdkey@
                + "&game_biz=hk4e_global&sLangKey=en-us"@,
    {
        let mut s = String::from_str(
            "https://sg-hk4e-api.hoyoverse.com/common/apicdkey/api/webExchangeCdkey?uid=",
        );
        s.append(uid);
        s.append("&region=os_asia&lang=zh-tw&cdkey=");
        s.append(cdkey);
        s.append("&game_biz=hk4e_global&sLangKey=en-us");
        s
    }

    /// The fixed daily check-in URL.
    pub fn check_in_url() -> (r: &'static str)
        ensures
            r@ == "https://sg-hk4e-api.hoyolab.com/event/sol/sign?act_id=e202102251931481"@,
    {
        "https://sg-hk4e-api.hoyolab.com/event/sol/sign?act_id=e202102251931481"
    }
}

} // verus!
