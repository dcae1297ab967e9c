//! Publishing an artifact: the request's checks, the choice of upload strategy
//! by the profile's platform tag, and the folding of every failure into a
//! failed [`PublishResult`].

use vstd::prelude::*;

verus! {

/// The publish profile that one publish call reads.
pub struct PublishConfig {
    pub platform: String,
    pub api_key: Option<String>,
    pub api_token: Option<String>,
    pub password: Option<String>,
    pub update_description: Option<String>,
    pub go_fir_cli_path: Option<String>,
}

/// The outcome of a publish call, successful or not.
pub struct PublishResult {
    pub success: bool,
    pub message: String,
    pub download_url: Option<String>,
    pub qr_code_url: Option<String>,
    pub build_key: Option<String>,
    pub build_shortcut_url: Option<String>,
}

/// The two upload strategies.
#[derive(PartialEq, Eq, Structural)]
pub enum Strategy {
    /// Token exchange, signed object upload and status poll over HTTP.
    SignedUpload,
    /// An external command-line tool does the upload.
    DelegatedCli,
}

/// `s` ends with `suffix`.
pub open spec fn ends_with(s: Seq<char>, suffix: Seq<char>) -> bool {
    suffix.len() <= s.len() && s.subrange(s.len() - suffix.len(), s.len() as int) == suffix
}

/// Whether `s` ends with `suffix`.
pub fn has_suffix(s: &str, suffix: &str) -> (r: bool)
    ensures
        r == ends_with(s@, suffix@),
{
    let v = crate::text::chars_of(s);
    let x = crate::text::chars_of(suffix);
    if x.len() > v.len() {
        return false;
    }
    let off = v.len() - x.len();
    let mut k: usize = 0;
    while k < x.len()
        invariant
            v@ == s@,
            x@ == suffix@,
            off + x.len() == v.len(),
            k <= x.len(),
            forall|m: int| 0 <= m < k ==> v@[off + m] == x@[m],
        decreases x.len() - k,
    {
        if v[off + k] != x[k] {
            assert(s@.subrange(off as int, s@.len() as int)[k as int] != suffix@[k as int]);
            return false;
        }
        k = k + 1;
    }
    assert(s@.subrange(off as int, s@.len() as int) =~= suffix@);
    true
}

/// The strategy a publish request is owed, or the reason it is refused: the
/// file must exist, be a package (`.apk`) or a bundle (`.aab`), and the
/// platform must be `pgyer` or `fir`.
pub open spec fn strategy_for(file_path: Seq<char>, exists: bool, platform: Seq<char>) -> Result<Strategy, Seq<char>> {
    if !exists {
        Err("文件不存在: "@ + file_path)
    } else if !ends_with(file_path, ".apk"@) && !ends_with(file_path, ".aab"@) {
        Err("不支持的文件类型，仅支持 .apk 或 .aab 文件"@)
    } else if platform == "pgyer"@ {
        Ok(Strategy::SignedUpload)
    } else if platform == "fir"@ {
        Ok(Strategy::DelegatedCli)
    } else {
        Err("不支持的发布平台: "@ + platform)
    }
}

/// The view of a `Result` whose error is text.
pub open spec fn result_view<T>(r: Result<T, String>) -> Result<T, Seq<char>> {
    match r {
        Ok(t) => Ok(t),
        Err(e) => Err(e@),
    }
}

/// The view of a `Result` of text.
pub open spec fn text_result(r: Result<String, String>) -> Result<Seq<char>, Seq<char>> {
    match r {
        Ok(t) => Ok(t@),
        Err(e) => Err(e@),
    }
}

/// Checks a publish request and chooses its strategy.
pub fn select_strategy(file_path: &String, exists: bool, platform: &String) -> (r: Result<Strategy, String>)
    ensures
        result_view(r) == strategy_for(file_path@, exists, platform@),
{
    if !exists {
        let mut e = String::from_str("文件不存在: ");
        e.append(file_path.as_str());
        return Err(e);
    }
    if !has_suffix(file_path.as_str(), ".apk") && !has_suffix(file_path.as_str(), ".aab") {
        return Err(String::from_str("不支持的文件类型，仅支持 .apk 或 .aab 文件"));
    }
    let pgyer = String::from_str("pgyer");
    let fir = String::from_str("fir");
    if *platform == pgyer {
        Ok(Strategy::SignedUpload)
    } else if *platform == fir {
        Ok(Strategy::DelegatedCli)
    } else {
        let mut e = String::from_str("不支持的发布平台: ");
        e.append(platform.as_str());
        Err(e)
    }
}

/// A failed result carrying `message` and no link.
pub open spec fn is_failure(r: PublishResult, message: Seq<char>) -> bool {
    &&& !r.success
    &&& r.message@ == message
    &&& r.download_url is None
    &&& r.qr_code_url is None
    &&& r.build_key is None
    &&& r.build_shortcut_url is None
}

/// A failed result carrying `message`.
pub fn failed_result(message: String) -> (r: PublishResult)
    ensures
        is_failure(r, message@),
{
    PublishResult {
        success: false,
        message,
        download_url: None,
        qr_code_url: None,
        build_key: None,
        build_shortcut_url: None,
    }
}

/// Folds the outcome of an upload into one result: a result is kept as it
/// is, an error becomes a failed result carrying its message.
pub fn fold_outcome(outcome: Result<PublishResult, String>) -> (r: PublishResult)
    ensures
        match outcome {
            Ok(p) => r == p,
            Err(e) => is_failure(r, e@),
        },
{
    match outcome {
        Ok(p) => p,
        Err(e) => failed_result(e),
    }
}

} // verus!
