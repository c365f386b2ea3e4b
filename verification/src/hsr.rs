use vstd::prelude::*;
use crate::decimal::spec_decimal;
use crate::decimal::u128_to_decimal;
use crate::hoyo::DailyInfoData;
use crate::hoyo::Name;

verus! {

/// The daily-info payload returned by the sign-status endpoint.
pub struct HsrDailyInfoData {
    pub total_sign_day: i32,
    pub today: String,
    pub is_sign: bool,
    pub is_sub: bool,
    pub region: String,
    pub sign_cnt_missed: i32,
    pub short_sign_day: i32,
    pub send_first: bool,
}

impl DailyInfoData for HsrDailyInfoData {
    open spec fn spec_is_sign(&self) -> bool {
        self.is_sign
    }

    fn is_sign(&self) -> (r: bool) {
        self.is_sign
    }
}

/// The HSR endpoints: a daily-info URL, a fixed check-in URL and a templated
/// gift redemption URL carrying a client-side millisecond timestamp.
pub struct HsrApi;

impl Name for HsrApi {
    open spec fn spec_name(&self) -> Seq<char> {
        "hsr"@
    }

    fn name(&self) -> (r: &str) {
        "hsr"
    }
}

impl HsrApi {
    /// The fixed daily-info (sign status) URL.
    pub fn info_url() -> (r: &'static str)
        ensures
            r@ == "https://sg-public-api.hoyolab.com/event/luna/os/info?act_id=e202303301540311"@,
    {
        "https://sg-public-api.hoyolab.com/event/luna/os/info?act_id=e202303301540311"
    }

    /// The gift redemption URL for one account, one redemption code and the
    /// current time in milliseconds since the Unix epoch.
    pub fn gift_url(uid: &str, cdkey: &str, now_millis: u128) -> (r: String)
        ensures
            r@ == "https://sg-hkrpg-api.hoyoverse.com/common/apicdkey/api/webExchangeCdkey?t="@
                + spec_decimal(now_millis as nat) + "&lang=ja&game_biz=hkrpg_global&uid="@ + uid@
                + "&region=prod_official_asia&cdkey="@ + cdkey@,
    {
        let mut s = String::from_str(
            "https://sg-hkrpg-api.hoyoverse.com/common/apicdkey/api/webExchangeCdkey?t=",
        );
        s.append(u128_to_decimal(now_millis).as_str());
        s.append("&lang=ja&game_biz=hkrpg_global&uid=");
        s.append(uid);
        s.append("&region=prod_official_asia&cdkey=");
        s.append(cdkey);
        s
    }

    /// The fixed daily check-in URL.
    pub fn check_in_url() -> (r: &'static str)
        ensures
            r@ == "https://sg-public-api.hoyolab.com/event/luna/os/sign?act_id=e202303301540311"@,
    {
        "https://sg-public-api.hoyolab.com/event/luna/os/sign?act_id=e202303301540311"
    }
}

} // verus!
