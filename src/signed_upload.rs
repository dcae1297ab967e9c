//! The signed-upload protocol: token exchange, signed object upload, and a
//! bounded status poll. The requests themselves are made by the caller; this
//! module decides what goes into them and what each reply means.

use vstd::prelude::*;
use crate::project::{clone_opt, opt_view};
use crate::publish::{PublishConfig, PublishResult};
use crate::text::{trimmed, trim, decimal};

verus! {

/// The status code of a reply that reports success.
pub const SUCCESS_CODE: i64 = 0;

/// The status code of a status reply while the service is still processing.
pub const PROCESSING_CODE: i64 = 1247;

/// The number of "still processing" replies after which the poll gives up.
pub const MAX_POLL_RETRIES: u32 = 60;

/// The signing parameter that travels as a request header; all others travel
/// in the query string.
pub const SECURITY_TOKEN_PARAM: &'static str = "x-cos-security-token";

/// The reply of the token exchange.
pub struct TokenReply {
    pub code: Option<i64>,
    pub message: Option<String>,
    pub endpoint: Option<String>,
    pub key: Option<String>,
    /// The signing parameters, each with its value where that is text.
    pub params: Option<Vec<(String, Option<String>)>>,
}

/// What a successful token exchange grants: where to upload, the object key,
/// and the signing parameters.
pub struct UploadTicket {
    pub endpoint: String,
    pub key: String,
    pub params: Vec<(String, String)>,
}

/// The reply of a status query.
pub struct StatusReply {
    pub code: Option<i64>,
    pub message: Option<String>,
    pub build_shortcut_url: Option<String>,
    pub build_qr_code_url: Option<String>,
    pub build_key: Option<String>,
}

/// Name and value pairs, as text.
pub open spec fn pairs_view(v: Seq<(String, String)>) -> Seq<(Seq<char>, Seq<char>)> {
    v.map_values(|p: (String, String)| (p.0@, p.1@))
}

/// The fields of the token-exchange form.
pub open spec fn token_fields(
    api_key: Seq<char>,
    description: Option<Seq<char>>,
    password: Option<Seq<char>>,
) -> Seq<(Seq<char>, Seq<char>)> {
    let base = seq![("_api_key"@, api_key), ("buildType"@, "android"@)];
    let with_description = match description {
        Some(d) => if trimmed(d).len() > 0 {
            base.push(("buildUpdateDescription"@, trimmed(d)))
        } else {
            base
        },
        None => base,
    };
    match password {
        Some(p) => with_description.push(("buildInstallType"@, "2"@)).push(("buildPassword"@, p)),
        None => with_description,
    }
}

fn pair(name: &str, value: &str) -> (r: (String, String))
    ensures
        r.0@ == name@,
        r.1@ == value@,
{
    (String::from_str(name), String::from_str(value))
}

/// The fields of the token-exchange form for `config`, or the error when it
/// has no API key.
pub fn token_form(config: &PublishConfig) -> (r: Result<Vec<(String, String)>, String>)
    ensures
        match r {
            Ok(f) => config.api_key is Some && pairs_view(f@) == token_fields(
                config.api_key->Some_0@,
                opt_view(config.update_description),
                opt_view(config.password),
            ),
            Err(e) => config.api_key is None && e@ == "蒲公英 API Key 未配置"@,
        },
{
    let key = match &config.api_key {
        Some(k) => k,
        None => return Err(String::from_str("蒲公英 API Key 未配置")),
    };
    let mut f: Vec<(String, String)> = Vec::new();
    f.push(pair("_api_key", key.as_str()));
    f.push(pair("buildType", "android"));
    match &config.update_description {
        Some(d) => {
            let t = trim(d.as_str());
            if crate::text::chars_of(t).len() > 0 {
                f.push(pair("buildUpdateDescription", t));
            }
        },
        None => {},
    }
    match &config.password {
        Some(p) => {
            f.push(pair("buildInstallType", "2"));
            f.push(pair("buildPassword", p.as_str()));
        },
        None => {},
    }
    assert(pairs_view(f@) =~= token_fields(
        key@,
        opt_view(config.update_description),
        opt_view(config.password),
    ));
    Ok(f)
}

/// The signing parameters whose value is text.
pub open spec fn text_params(s: Seq<(String, Option<String>)>) -> Seq<(Seq<char>, Seq<char>)>
    decreases s.len(),
{
    if s.len() == 0 {
        seq![]
    } else {
        let before = text_params(s.drop_last());
        match s.last().1 {
            Some(v) => before.push((s.last().0@, v@)),
            None => before,
        }
    }
}

/// The service's message, or a stand-in where the reply carries none.
pub open spec fn message_or_unknown(m: Option<Seq<char>>) -> Seq<char> {
    match m {
        Some(s) => s,
        None => "未知错误"@,
    }
}

/// What a token-exchange reply means: a ticket, or the error to report.
pub open spec fn token_outcome(reply: TokenReply) -> Result<(Seq<char>, Seq<char>, Seq<(Seq<char>, Seq<char>)>), Seq<char>> {
    if reply.code != Some(SUCCESS_CODE) {
        Err("获取上传凭证失败: "@ + message_or_unknown(opt_view(reply.message)))
    } else if reply.endpoint is None {
        Err("无法获取上传端点"@)
    } else if reply.key is None {
        Err("无法获取上传密钥"@)
    } else if reply.params is None {
        Err("无法获取上传参数"@)
    } else {
        Ok((reply.endpoint->Some_0@, reply.key->Some_0@, text_params(reply.params->Some_0@)))
    }
}

/// Interprets the reply of the token exchange.
pub fn interpret_token_reply(reply: TokenReply) -> (r: Result<UploadTicket, String>)
    ensures
        match (r, token_outcome(reply)) {
            (Ok(t), Ok((endpoint, key, params))) => t.endpoint@ == endpoint && t.key@ == key
                && pairs_view(t.params@) == params,
            (Err(e), Err(m)) => e@ == m,
            _ => false,
        },
{
    let ghost whole = reply;
    if reply.code != Some(SUCCESS_CODE) {
        let mut e = String::from_str("获取上传凭证失败: ");
        match &reply.message {
            Some(m) => e.append(m.as_str()),
            None => e.append("未知错误"),
        }
        return Err(e);
    }
    let endpoint = match reply.endpoint {
        Some(x) => x,
        None => return Err(String::from_str("无法获取上传端点")),
    };
    let key = match reply.key {
        Some(x) => x,
        None => return Err(String::from_str("无法获取上传密钥")),
    };
    let raw = match reply.params {
        Some(x) => x,
        None => return Err(String::from_str("无法获取上传参数")),
    };
    let mut params: Vec<(String, String)> = Vec::new();
    let mut i: usize = 0;
    while i < raw.len()
        invariant
            i <= raw.len(),
            pairs_view(params@) == text_params(raw@.subrange(0, i as int)),
        decreases raw.len() - i,
    {
        assert(raw@.subrange(0, i + 1).drop_last() =~= raw@.subrange(0, i as int));
        match &raw[i].1 {
            Some(v) => {
                params.push((raw[i].0.clone(), v.clone()));
            },
            None => {},
        }
        assert(pairs_view(params@) =~= text_params(raw@.subrange(0, i + 1)));
        i = i + 1;
    }
    assert(raw@.subrange(0, i as int) =~= raw@);
    Ok(UploadTicket { endpoint, key, params })
}

/// The signing parameters that go into the query string: all but the
/// security token, in their order.
pub open spec fn query_params(s: Seq<(Seq<char>, Seq<char>)>) -> Seq<(Seq<char>, Seq<char>)>
    decreases s.len(),
{
    if s.len() == 0 {
        seq![]
    } else if s.last().0 == SECURITY_TOKEN_PARAM@ {
        query_params(s.drop_last())
    } else {
        query_params(s.drop_last()).push(s.last())
    }
}

/// The security token that goes into the request header: the last value
/// given for it.
pub open spec fn header_token(s: Seq<(Seq<char>, Seq<char>)>) -> Option<Seq<char>>
    decreases s.len(),
{
    if s.len() == 0 {
        None
    } else if s.last().0 == SECURITY_TOKEN_PARAM@ {
        Some(s.last().1)
    } else {
        header_token(s.drop_last())
    }
}

/// Splits the signing parameters into those of the query string and the
/// security token of the header.
pub fn split_signing_params(params: &Vec<(String, String)>) -> (r: (Vec<(String, String)>, Option<String>))
    ensures
        pairs_view(r.0@) == query_params(pairs_view(params@)),
        opt_view(r.1) == header_token(pairs_view(params@)),
{
    let token_name = String::from_str(SECURITY_TOKEN_PARAM);
    let mut query: Vec<(String, String)> = Vec::new();
    let mut token: Option<String> = None;
    let mut i: usize = 0;
    while i < params.len()
        invariant
            i <= params.len(),
            token_name@ == SECURITY_TOKEN_PARAM@,
            pairs_view(query@) == query_params(pairs_view(params@.subrange(0, i as int))),
            opt_view(token) == header_token(pairs_view(params@.subrange(0, i as int))),
        decreases params.len() - i,
    {
        let ghost next = pairs_view(params@.subrange(0, i + 1));
        assert(next.drop_last() =~= pairs_view(params@.subrange(0, i as int)));
        assert(next.last() == (params@[i as int].0@, params@[i as int].1@));
        if params[i].0 == token_name {
            token = Some(params[i].1.clone());
        } else {
            query.push((params[i].0.clone(), params[i].1.clone()));
        }
        assert(pairs_view(query@) =~= query_params(next));
        i = i + 1;
    }
    assert(params@.subrange(0, i as int) =~= params@);
    (query, token)
}

/// The security token never travels in the query string, every other
/// signing parameter does, and the header carries a value that was given for
/// the security token.
pub proof fn signing_split_is_asymmetric(params: Seq<(Seq<char>, Seq<char>)>)
    ensures
        forall|i: int| 0 <= i < query_params(params).len() ==> #[trigger] query_params(params)[i].0 != SECURITY_TOKEN_PARAM@,
        forall|i: int| 0 <= i < params.len() && #[trigger] params[i].0 != SECURITY_TOKEN_PARAM@
            ==> query_params(params).contains(params[i]),
        header_token(params) is Some ==> exists|i: int|
            0 <= i < params.len() && #[trigger] params[i] == (SECURITY_TOKEN_PARAM@, header_token(params)->Some_0),
    decreases params.len(),
{
    if params.len() > 0 {
        let before = params.drop_last();
        signing_split_is_asymmetric(before);
        assert forall|i: int| 0 <= i < params.len() && #[trigger] params[i].0 != SECURITY_TOKEN_PARAM@
            implies query_params(params).contains(params[i]) by {
            if i < params.len() - 1 {
                assert(before[i] == params[i]);
                let j = choose|j: int| 0 <= j < query_params(before).len() && query_params(before)[j] == before[i];
                assert(query_params(params)[j] == params[i]);
            } else {
                assert(query_params(params).last() == params[i]);
            }
        }
        if header_token(params) is Some && params.last().0 != SECURITY_TOKEN_PARAM@ {
            let i = choose|i: int|
                0 <= i < before.len() && #[trigger] before[i] == (SECURITY_TOKEN_PARAM@, header_token(before)->Some_0);
            assert(params[i] == before[i]);
        }
        if header_token(params) is Some && params.last().0 == SECURITY_TOKEN_PARAM@ {
            assert(params[params.len() - 1] == (SECURITY_TOKEN_PARAM@, header_token(params)->Some_0));
        }
    }
}

/// The upload endpoint with `query` appended to its query string, as the
/// URL parser serialises it; `None` where `endpoint` is no absolute URL.
pub uninterp spec fn url_with_query(endpoint: Seq<char>, query: Seq<(Seq<char>, Seq<char>)>) -> Option<Seq<char>>;

/// Relies on `reqwest::Url::parse_with_params`: parses the endpoint and
/// appends the pairs, form-encoded, to its query string.
#[verifier::external_body]
fn parse_with_query(endpoint: &str, query: &Vec<(String, String)>) -> (r: Result<String, String>)
    ensures
        r is Ok <==> url_with_query(endpoint@, pairs_view(query@)) is Some,
        r is Ok ==> r->Ok_0@ == url_with_query(endpoint@, pairs_view(query@))->Some_0,
{
    reqwest::Url::parse_with_params(endpoint, query.iter()).map(|u| u.to_string()).map_err(|e| e.to_string())
}

/// The URL of the signed upload: the endpoint with the query parameters of
/// the signature, or the error where the endpoint is no URL.
pub fn signed_upload_url(endpoint: &String, query: &Vec<(String, String)>) -> (r: Result<String, String>)
    ensures
        r is Ok <==> url_with_query(endpoint@, pairs_view(query@)) is Some,
        r is Ok ==> r->Ok_0@ == url_with_query(endpoint@, pairs_view(query@))->Some_0,
        r is Err ==> exists|e: Seq<char>| r->Err_0@ == "解析COS端点URL失败: "@ + e,
{
    match parse_with_query(endpoint.as_str(), query) {
        Ok(u) => Ok(u),
        Err(e) => {
            let mut m = String::from_str("解析COS端点URL失败: ");
            m.append(e.as_str());
            Err(m)
        },
    }
}

/// What the status of the object upload means: success for a 2xx status,
/// else the error, with the status as the HTTP layer prints it.
pub fn upload_status_outcome(status: u16, status_text: &String) -> (r: Result<(), String>)
    ensures
        200 <= status <= 299 ==> r is Ok,
        !(200 <= status <= 299) ==> r is Err && r->Err_0@ == "上传文件失败，HTTP状态码: "@ + status_text@,
{
    if 200 <= status && status <= 299 {
        Ok(())
    } else {
        let mut m = String::from_str("上传文件失败，HTTP状态码: ");
        m.append(status_text.as_str());
        Err(m)
    }
}

/// What the poll does after a status reply with `code`, when `retries`
/// "still processing" replies came before it.
pub enum PollKind {
    Success,
    Failure,
    Timeout,
    Wait { retries: nat, seconds: nat },
}

/// The seconds to wait after the `retries`-th "still processing" reply: 3, 4
/// and 5 in turn.
pub open spec fn wait_seconds(retries: nat) -> nat {
    3 + retries % 3
}

/// The poll's decision on a reply with `code`.
pub open spec fn poll_kind(retries: nat, code: Option<i64>) -> PollKind {
    if code == Some(SUCCESS_CODE) {
        PollKind::Success
    } else if code == Some(PROCESSING_CODE) {
        if retries + 1 >= MAX_POLL_RETRIES {
            PollKind::Timeout
        } else {
            PollKind::Wait { retries: retries + 1, seconds: wait_seconds(retries + 1) }
        }
    } else {
        PollKind::Failure
    }
}

/// The result of a finished upload, from the status reply that reported success.
pub open spec fn is_upload_success(p: PublishResult, reply: StatusReply) -> bool {
    &&& p.success
    &&& p.message@ == "上传成功"@
    &&& opt_view(p.download_url) == match reply.build_shortcut_url {
        Some(s) => Some("https://www.pgyer.com/"@ + s@),
        None => None,
    }
    &&& opt_view(p.qr_code_url) == opt_view(reply.build_qr_code_url)
    &&& opt_view(p.build_key) == opt_view(reply.build_key)
    &&& opt_view(p.build_shortcut_url) == opt_view(reply.build_shortcut_url)
}

/// The error when the poll gives up.
pub open spec fn timeout_message() -> Seq<char> {
    "检查上传状态超时: 已重试 "@ + decimal(MAX_POLL_RETRIES as nat) + " 次，应用仍在处理中"@
}

/// The next step of the status poll.
pub enum PollStep {
    /// The upload is finished, with this result.
    Done(PublishResult),
    /// The poll ends in this error.
    Failed(String),
    /// Wait this long, then query again; `retries` replies said "still processing".
    Wait { retries: u32, seconds: u64 },
}

/// Decides the next step of the status poll from a reply, when `retries`
/// "still processing" replies came before it.
pub fn next_poll_step(retries: u32, reply: &StatusReply) -> (r: PollStep)
    requires
        retries < MAX_POLL_RETRIES,
    ensures
        match poll_kind(retries as nat, reply.code) {
            PollKind::Success => r is Done && is_upload_success(r->Done_0, *reply),
            PollKind::Failure => r is Failed && r->Failed_0@ == "检查上传状态失败: "@ + message_or_unknown(
                opt_view(reply.message),
            ),
            PollKind::Timeout => r is Failed && r->Failed_0@ == timeout_message(),
            PollKind::Wait { retries: n, seconds: s } => r matches PollStep::Wait { retries: n2, seconds: s2 }
                && n2 == n && s2 == s,
        },
{
    if reply.code == Some(SUCCESS_CODE) {
        let download_url = match &reply.build_shortcut_url {
            Some(s) => {
                let mut u = String::from_str("https://www.pgyer.com/");
                u.append(s.as_str());
                Some(u)
            },
            None => None,
        };
        return PollStep::Done(PublishResult {
            success: true,
            message: String::from_str("上传成功"),
            download_url,
            qr_code_url: clone_opt(&reply.build_qr_code_url),
            build_key: clone_opt(&reply.build_key),
            build_shortcut_url: clone_opt(&reply.build_shortcut_url),
        });
    }
    if reply.code == Some(PROCESSING_CODE) {
        let n = retries + 1;
        if n >= MAX_POLL_RETRIES {
            let mut m = String::from_str("检查上传状态超时: 已重试 ");
            m.append(crate::text::decimal_text(MAX_POLL_RETRIES as u64).as_str());
            m.append(" 次，应用仍在处理中");
            return PollStep::Failed(m);
        }
        return PollStep::Wait { retries: n, seconds: 3 + (n % 3) as u64 };
    }
    let mut m = String::from_str("检查上传状态失败: ");
    match &reply.message {
        Some(x) => m.append(x.as_str()),
        None => m.append("未知错误"),
    }
    PollStep::Failed(m)
}

/// How a run of the status poll over a sequence of replies ends.
pub enum PollEnd {
    Succeeded,
    Failed,
    TimedOut,
    /// The replies ran out while the service was still processing.
    Unfinished,
}

/// The run of the status poll over the codes of successive replies, starting
/// after `retries` "still processing" replies: how it ends and the waits it makes.
pub open spec fn poll_run(retries: nat, codes: Seq<Option<i64>>) -> (PollEnd, Seq<nat>)
    decreases codes.len(),
{
    if codes.len() == 0 {
        (PollEnd::Unfinished, seq![])
    } else {
        match poll_kind(retries, codes[0]) {
            PollKind::Success => (PollEnd::Succeeded, seq![]),
            PollKind::Failure => (PollEnd::Failed, seq![]),
            PollKind::Timeout => (PollEnd::TimedOut, seq![]),
            PollKind::Wait { retries: n, seconds: w } => {
                let rest = poll_run(n, codes.drop_first());
                (rest.0, seq![w] + rest.1)
            },
        }
    }
}

proof fn lemma_succeeds_after(retries: nat, n: nat, codes: Seq<Option<i64>>)
    requires
        retries + n < MAX_POLL_RETRIES,
        n < codes.len(),
        forall|i: int| 0 <= i < n ==> codes[i] == Some(PROCESSING_CODE),
        codes[n as int] == Some(SUCCESS_CODE),
    ensures
        poll_run(retries, codes).0 == PollEnd::Succeeded,
        poll_run(retries, codes).1.len() == n,
        forall|i: int| 0 <= i < n ==> poll_run(retries, codes).1[i] == wait_seconds((retries + i + 1) as nat),
    decreases n,
{
    if n > 0 {
        let rest = codes.drop_first();
        lemma_succeeds_after(retries + 1, (n - 1) as nat, rest);
        assert forall|i: int| 0 <= i < n implies poll_run(retries, codes).1[i] == wait_seconds((retries + i + 1) as nat) by {
            if i > 0 {
                assert(poll_run(retries, codes).1[i] == poll_run(retries + 1, rest).1[i - 1]);
            }
        }
    }
}

/// A poll that gets `n` "still processing" replies, `n` under the cap, and
/// then success, succeeds after exactly `n` retries, with a wait of 3, 4 or 5
/// seconds in turn before each.
pub proof fn poll_succeeds_after_retries(n: nat, codes: Seq<Option<i64>>)
    requires
        n < MAX_POLL_RETRIES,
        n < codes.len(),
        forall|i: int| 0 <= i < n ==> codes[i] == Some(PROCESSING_CODE),
        codes[n as int] == Some(SUCCESS_CODE),
    ensures
        poll_run(0, codes).0 == PollEnd::Succeeded,
        poll_run(0, codes).1.len() == n,
        forall|i: int| 0 <= i < n ==> poll_run(0, codes).1[i] == wait_seconds((i + 1) as nat),
{
    lemma_succeeds_after(0, n, codes);
}

proof fn lemma_times_out(retries: nat, codes: Seq<Option<i64>>)
    requires
        retries < MAX_POLL_RETRIES,
        codes.len() >= MAX_POLL_RETRIES - retries,
        forall|i: int| 0 <= i < MAX_POLL_RETRIES - retries ==> codes[i] == Some(PROCESSING_CODE),
    ensures
        poll_run(retries, codes).0 == PollEnd::TimedOut,
        poll_run(retries, codes).1.len() == MAX_POLL_RETRIES - retries - 1,
    decreases MAX_POLL_RETRIES - retries,
{
    if retries + 1 < MAX_POLL_RETRIES {
        lemma_times_out(retries + 1, codes.drop_first());
    }
}

/// A poll that only ever hears "still processing" gives up with a timeout at
/// the cap, after waiting between each two of its queries.
pub proof fn poll_times_out_at_cap(codes: Seq<Option<i64>>)
    requires
        codes.len() >= MAX_POLL_RETRIES,
        forall|i: int| 0 <= i < MAX_POLL_RETRIES ==> codes[i] == Some(PROCESSING_CODE),
    ensures
        poll_run(0, codes).0 == PollEnd::TimedOut,
        poll_run(0, codes).1.len() == MAX_POLL_RETRIES - 1,
{
    lemma_times_out(0, codes);
}

proof fn lemma_bounded(retries: nat, codes: Seq<Option<i64>>)
    requires
        retries < MAX_POLL_RETRIES,
        codes.len() >= MAX_POLL_RETRIES - retries,
    ensures
        poll_run(retries, codes).0 != PollEnd::Unfinished,
    decreases MAX_POLL_RETRIES - retries,
{
    if retries + 1 < MAX_POLL_RETRIES {
        lemma_bounded(retries + 1, codes.drop_first());
    }
}

/// Whatever the replies, the poll has ended once it has made as many queries
/// as the cap: it never waits indefinitely.
pub proof fn poll_is_bounded(codes: Seq<Option<i64>>)
    requires
        codes.len() >= MAX_POLL_RETRIES,
    ensures
        poll_run(0, codes).0 != PollEnd::Unfinished,
{
    lemma_bounded(0, codes);
}

} // verus!
