use vstd::prelude::*;
use crate::config::GameConfig;
use crate::hoyo::DailyInfoData;
use crate::hoyo::SendError;

verus! {

/// Fixed pause between two redemption submissions, in seconds.
pub const GIFT_DELAY_SECS: u64 = 5;

/// Vendor retcode meaning the account has already checked in today.
pub const RETCODE_ALREADY_SIGNED: i32 = -2003;

/// Second vendor retcode meaning the account has already checked in today.
pub const RETCODE_ALREADY_SIGNED_ALT: i32 = -5003;

/// Whether a check-in failure retcode is the benign "already checked in".
pub open spec fn is_benign_retcode(code: i32) -> bool {
    code == RETCODE_ALREADY_SIGNED || code == RETCODE_ALREADY_SIGNED_ALT
}

/// How one check-in attempt is reported.
#[derive(Debug, PartialEq, Eq, Structural)]
pub enum CheckInOutcome {
    Success,
    AlreadySigned,
    Failed,
}

/// Classifies a check-in attempt: success on any `Ok`, "already checked in"
/// on an `Api` error with a benign retcode, and a generic failure on every
/// other error, transport timeouts included.
pub fn check_in_outcome<T>(result: &Result<Option<T>, SendError>) -> (r: CheckInOutcome)
    ensures
        match result {
            Ok(_) => r == CheckInOutcome::Success,
            Err(SendError::Api { error }) => if is_benign_retcode(error.retcode) {
                r == CheckInOutcome::AlreadySigned
            } else {
                r == CheckInOutcome::Failed
            },
            Err(_) => r == CheckInOutcome::Failed,
        },
{
    match result {
        Ok(_) => CheckInOutcome::Success,
        Err(SendError::Api { error }) => {
            if error.retcode == RETCODE_ALREADY_SIGNED || error.retcode
                == RETCODE_ALREADY_SIGNED_ALT {
                CheckInOutcome::AlreadySigned
            } else {
                CheckInOutcome::Failed
            }
        },
        Err(_) => CheckInOutcome::Failed,
    }
}

/// The sign-in flag to report after a daily-info query: the payload's flag
/// when the query produced one, and nothing (silent skip) on any failure or
/// on an empty payload.
pub fn daily_sign_status<T: DailyInfoData>(result: &Result<Option<T>, SendError>) -> (r: Option<
    bool,
>)
    ensures
        match result {
            Ok(Some(d)) => r == Some(d.spec_is_sign()),
            _ => r is None,
        },
{
    match result {
        Ok(Some(d)) => Some(d.is_sign()),
        _ => None,
    }
}

/// What the query part of a redemption-code string parses to: `Some` of the
/// decoded key/value pairs when the string is a valid absolute URL, `None`
/// otherwise. Named; only the trusted parser speaks of its value.
pub uninterp spec fn query_pairs_of(s: Seq<char>) -> Option<Seq<(Seq<char>, Seq<char>)>>;

/// The views of a vector of key/value string pairs.
pub open spec fn pairs_view(ps: Seq<(String, String)>) -> Seq<(Seq<char>, Seq<char>)> {
    ps.map_values(|p: (String, String)| (p.0@, p.1@))
}

/// The value of the first `code` query parameter, if any.
pub open spec fn find_code(pairs: Seq<(Seq<char>, Seq<char>)>) -> Option<Seq<char>>
    decreases pairs.len(),
{
    if pairs.len() == 0 {
        Option::None
    } else if pairs[0].0 == "code"@ {
        Option::Some(pairs[0].1)
    } else {
        find_code(pairs.drop_first())
    }
}

/// The code to submit given parsed query pairs: the first `code` parameter's
/// value, or the literal input when there is none.
pub open spec fn spec_pick_code(pairs: Seq<(Seq<char>, Seq<char>)>, literal: Seq<char>) -> Seq<
    char,
> {
    match find_code(pairs) {
        Option::Some(c) => c,
        Option::None => literal,
    }
}

/// The code a redemption-code string submits: the first `code` query
/// parameter when the string is a valid URL carrying one, and the literal
/// string unchanged in every other case.
pub open spec fn spec_extract_code(s: Seq<char>) -> Seq<char> {
    match query_pairs_of(s) {
        Option::Some(pairs) => spec_pick_code(pairs, s),
        Option::None => s,
    }
}

/// Relies on `url::Url::parse` and `url::Url::query_pairs`: `Some` exactly
/// when the string parses as a URL, and then the query's key/value pairs,
/// percent-decoded, in order.
#[verifier::external_body]
fn parse_query_pairs(s: &str) -> (r: Option<Vec<(String, String)>>)
    ensures
        match r {
            Option::Some(v) => query_pairs_of(s@) == Option::Some(pairs_view(v@)),
            Option::None => query_pairs_of(s@) is None,
        },
{
    match url::Url::parse(s) {
        Ok(u) => Some(u.query_pairs().map(|(k, v)| (k.into_owned(), v.into_owned())).collect()),
        Err(_) => None,
    }
}

/// Picks the code to submit from already-parsed query pairs: the value of
/// the first pair whose key is `code`, or the literal input when no pair
/// has that key.
pub fn pick_code(pairs: &Vec<(String, String)>, literal: &str) -> (r: String)
    ensures
        r@ == spec_pick_code(pairs_view(pairs@), literal@),
{
    let key = String::from_str("code");
    proof {
        assert(pairs_view(pairs@).skip(0) =~= pairs_view(pairs@));
    }
    let mut i: usize = 0;
    while i < pairs.len()
        invariant
            i <= pairs@.len(),
            key@ == "code"@,
            find_code(pairs_view(pairs@)) == find_code(pairs_view(pairs@).skip(i as int)),
        decreases pairs@.len() - i,
    {
        proof {
            let pv = pairs_view(pairs@);
            assert(pv.skip(i as int)[0] == pv[i as int]);
            assert(pv.skip(i as int).drop_first() =~= pv.skip(i as int + 1));
        }
        if pairs[i].0 == key {
            return pairs[i].1.clone();
        }
        i = i + 1;
    }
    proof {
        assert(pairs_view(pairs@).skip(pairs@.len() as int).len() == 0);
    }
    literal.to_owned()
}

/// Extracts the code a redemption-code string submits: for a valid URL the
/// first `code` query parameter's value, and for anything else, a malformed
/// URL included, the literal string unchanged.
pub fn extract_code(cdkey: &str) -> (r: String)
    ensures
        r@ == spec_extract_code(cdkey@),
{
    match parse_query_pairs(cdkey) {
        Option::Some(pairs) => pick_code(&pairs, cdkey),
        Option::None => cdkey.to_owned(),
    }
}

/// The redemption plan of one game section: nothing when the game is
/// disabled (no network call is owed), else the codes to submit in order,
/// each with its `code` query parameter already extracted.
pub fn gift_codes(config: &GameConfig) -> (r: Option<Vec<String>>)
    ensures
        match r {
            Option::None => !config.enable,
            Option::Some(v) => config.enable && match config.cdkeys {
                Option::Some(keys) => v@.len() == keys@.len() && forall|j: int|
                    0 <= j < v@.len() ==> #[trigger] v@[j]@ == spec_extract_code(keys@[j]@),
                Option::None => v@.len() == 0,
            },
        },
{
    if !config.enable {
        return Option::None;
    }
    let mut out: Vec<String> = Vec::new();
    match &config.cdkeys {
        Option::None => Option::Some(out),
        Option::Some(keys) => {
            let mut i: usize = 0;
            while i < keys.len()
                invariant
                    i <= keys@.len(),
                    out@.len() == i,
                    forall|j: int|
                        0 <= j < i ==> #[trigger] out@[j]@ == spec_extract_code(keys@[j]@),
                decreases keys@.len() - i,
            {
                let code = extract_code(keys[i].as_str());
                out.push(code);
                i = i + 1;
            }
            Option::Some(out)
        },
    }
}

} // verus!
