use apk_release::cli_upload::{
    chmod_failure_message, cli_args, cli_token, configured_candidate, download_page_url, interpret_cli_output,
    lacks_exec_bits, locate_cli, spawn_failure_message, which_candidate, CLI_GUIDANCE,
};
use apk_release::json::{status_reply_from_json, token_reply_from_json};
use apk_release::publish::{fold_outcome, select_strategy, PublishConfig, PublishResult, Strategy};
use apk_release::signed_upload::{
    interpret_token_reply, next_poll_step, signed_upload_url, split_signing_params, token_form,
    upload_status_outcome, PollStep, StatusReply, TokenReply, MAX_POLL_RETRIES, PROCESSING_CODE,
};

fn s(x: &str) -> String {
    x.to_string()
}

fn config(platform: &str) -> PublishConfig {
    PublishConfig {
        platform: s(platform),
        api_key: Some(s("key")),
        api_token: Some(s("tok")),
        password: None,
        update_description: None,
        go_fir_cli_path: None,
    }
}

fn status(code: Option<i64>) -> StatusReply {
    StatusReply { code, message: None, build_shortcut_url: None, build_qr_code_url: None, build_key: None }
}

#[test]
fn token_exchange_failure_folds_into_failed_result() {
    let v: serde_json::Value = serde_json::from_str(r#"{"code":1,"message":"bad key"}"#).unwrap();
    let reply = token_reply_from_json(&v);
    assert_eq!(reply.code, Some(1));
    let outcome = interpret_token_reply(reply);
    let r: PublishResult = fold_outcome(outcome.map(|_| unreachable!()));
    assert!(!r.success);
    assert_eq!(r.message, "获取上传凭证失败: bad key");
    assert!(r.download_url.is_none() && r.qr_code_url.is_none());
    assert!(r.build_key.is_none() && r.build_shortcut_url.is_none());
}

#[test]
fn token_exchange_success_gives_ticket() {
    let v: serde_json::Value = serde_json::from_str(
        r#"{"code":0,"message":"","data":{"endpoint":"https://cos.example/up","key":"obj1",
            "params":{"signature":"s","key":"k","x-cos-security-token":"t","n":5}}}"#,
    )
    .unwrap();
    let ticket = interpret_token_reply(token_reply_from_json(&v)).ok().unwrap();
    assert_eq!(ticket.endpoint, "https://cos.example/up");
    assert_eq!(ticket.key, "obj1");
    let mut params = ticket.params.clone();
    params.sort();
    assert_eq!(
        params,
        vec![(s("key"), s("k")), (s("signature"), s("s")), (s("x-cos-security-token"), s("t"))]
    );
}

#[test]
fn token_reply_missing_parts() {
    let base = || TokenReply { code: Some(0), message: None, endpoint: Some(s("e")), key: Some(s("k")), params: Some(vec![]) };
    let mut r = base();
    r.code = Some(3);
    assert_eq!(interpret_token_reply(r).err().unwrap(), "获取上传凭证失败: 未知错误");
    let mut r = base();
    r.code = None;
    assert!(interpret_token_reply(r).is_err());
    let mut r = base();
    r.endpoint = None;
    assert_eq!(interpret_token_reply(r).err().unwrap(), "无法获取上传端点");
    let mut r = base();
    r.key = None;
    assert_eq!(interpret_token_reply(r).err().unwrap(), "无法获取上传密钥");
    let mut r = base();
    r.params = None;
    assert_eq!(interpret_token_reply(r).err().unwrap(), "无法获取上传参数");
    let mut r = base();
    r.params = Some(vec![(s("a"), Some(s("1"))), (s("b"), None)]);
    assert_eq!(interpret_token_reply(r).ok().unwrap().params, vec![(s("a"), s("1"))]);
}

#[test]
fn signing_token_goes_to_header_rest_to_query() {
    let params = vec![(s("signature"), s("s")), (s("key"), s("k")), (s("x-cos-security-token"), s("t"))];
    let (query, token) = split_signing_params(&params);
    assert_eq!(query, vec![(s("signature"), s("s")), (s("key"), s("k"))]);
    assert_eq!(token, Some(s("t")));
    let url = signed_upload_url(&s("https://cos.example/up"), &query).unwrap();
    assert_eq!(url, "https://cos.example/up?signature=s&key=k");
    assert!(!url.contains("x-cos-security-token"));
}

#[test]
fn signed_url_encodes_and_rejects() {
    let url = signed_upload_url(&s("https://cos.example/up"), &vec![(s("q"), s("a b&c"))]).unwrap();
    assert_eq!(url, "https://cos.example/up?q=a+b%26c");
    let err = signed_upload_url(&s("not a url"), &vec![]).err().unwrap();
    assert!(err.starts_with("解析COS端点URL失败: "));
}

#[test]
fn token_form_fields() {
    let mut c = config("pgyer");
    c.update_description = Some(s("  notes \n"));
    c.password = Some(s("pw"));
    let f = token_form(&c).unwrap();
    assert_eq!(
        f,
        vec![
            (s("_api_key"), s("key")),
            (s("buildType"), s("android")),
            (s("buildUpdateDescription"), s("notes")),
            (s("buildInstallType"), s("2")),
            (s("buildPassword"), s("pw")),
        ]
    );
    c.update_description = Some(s("   "));
    c.password = None;
    assert_eq!(token_form(&c).unwrap().len(), 2);
    c.api_key = None;
    assert_eq!(token_form(&c).err().unwrap(), "蒲公英 API Key 未配置");
}

#[test]
fn upload_status_codes() {
    assert!(upload_status_outcome(200, &s("200 OK")).is_ok());
    assert!(upload_status_outcome(204, &s("204 No Content")).is_ok());
    assert_eq!(upload_status_outcome(403, &s("403 Forbidden")).err().unwrap(), "上传文件失败，HTTP状态码: 403 Forbidden");
    assert!(upload_status_outcome(300, &s("300")).is_err());
}

fn run_poll(replies: &[StatusReply]) -> (Result<PublishResult, String>, Vec<u64>, usize) {
    let mut retries: u32 = 0;
    let mut waits = Vec::new();
    let mut calls = 0;
    loop {
        let reply = &replies[calls.min(replies.len() - 1)];
        calls += 1;
        match next_poll_step(retries, reply) {
            PollStep::Done(r) => return (Ok(r), waits, calls),
            PollStep::Failed(e) => return (Err(e), waits, calls),
            PollStep::Wait { retries: n, seconds } => {
                retries = n;
                waits.push(seconds);
            }
        }
    }
}

#[test]
fn poll_succeeds_after_n_retries() {
    let mut replies: Vec<StatusReply> = (0..5).map(|_| status(Some(PROCESSING_CODE))).collect();
    replies.push(StatusReply {
        code: Some(0),
        message: None,
        build_shortcut_url: Some(s("abcd")),
        build_qr_code_url: Some(s("https://qr")),
        build_key: Some(s("bk")),
    });
    let (r, waits, calls) = run_poll(&replies);
    let r = r.unwrap();
    assert_eq!(calls, 6);
    assert_eq!(waits, vec![4, 5, 3, 4, 5]);
    assert!(r.success);
    assert_eq!(r.message, "上传成功");
    assert_eq!(r.download_url, Some(s("https://www.pgyer.com/abcd")));
    assert_eq!(r.build_shortcut_url, Some(s("abcd")));
    assert_eq!(r.qr_code_url, Some(s("https://qr")));
    assert_eq!(r.build_key, Some(s("bk")));
}

#[test]
fn poll_times_out_at_cap() {
    let (r, waits, calls) = run_poll(&[status(Some(PROCESSING_CODE))]);
    assert_eq!(calls, MAX_POLL_RETRIES as usize);
    assert_eq!(waits.len(), MAX_POLL_RETRIES as usize - 1);
    assert_eq!(r.err().unwrap(), "检查上传状态超时: 已重试 60 次，应用仍在处理中");
}

#[test]
fn poll_fails_on_other_codes() {
    let mut reply = status(Some(1216));
    reply.message = Some(s("bad build"));
    assert_eq!(run_poll(&[reply]).0.err().unwrap(), "检查上传状态失败: bad build");
    assert_eq!(run_poll(&[status(None)]).0.err().unwrap(), "检查上传状态失败: 未知错误");
}

#[test]
fn status_reply_from_envelope() {
    let v: serde_json::Value = serde_json::from_str(
        r#"{"code":0,"data":{"buildShortcutUrl":"x1","buildQRCodeURL":"q","buildKey":"k"}}"#,
    )
    .unwrap();
    let r = status_reply_from_json(&v);
    assert_eq!(r.code, Some(0));
    assert_eq!(r.message, None);
    assert_eq!(r.build_shortcut_url, Some(s("x1")));
    assert_eq!(r.build_qr_code_url, Some(s("q")));
    assert_eq!(r.build_key, Some(s("k")));
}

#[test]
fn strategy_selection() {
    assert!(select_strategy(&s("/a.apk"), true, &s("pgyer")).unwrap() == Strategy::SignedUpload);
    assert!(select_strategy(&s("/a.aab"), true, &s("fir")).unwrap() == Strategy::DelegatedCli);
    assert_eq!(select_strategy(&s("/a.apk"), false, &s("fir")).err().unwrap(), "文件不存在: /a.apk");
    assert_eq!(
        select_strategy(&s("/a.zip"), true, &s("fir")).err().unwrap(),
        "不支持的文件类型，仅支持 .apk 或 .aab 文件"
    );
    assert_eq!(select_strategy(&s("/a.apk"), true, &s("other")).err().unwrap(), "不支持的发布平台: other");
}

#[test]
fn cli_exit_zero_without_marker_is_success_without_links() {
    let r = interpret_cli_output(true, 0, &s("uploading...\ndone\n"), &s("")).ok().unwrap();
    assert!(r.success);
    assert_eq!(r.message, "fir.im 上传成功");
    assert!(r.download_url.is_none() && r.qr_code_url.is_none());
    assert!(r.build_key.is_none() && r.build_shortcut_url.is_none());
}

#[test]
fn cli_output_with_marker_gives_page() {
    let out = s("a\n下载页面:   \nx 下载页面: https://d.example/abc \r\n下载页面: https://later\n");
    assert_eq!(download_page_url(&out), Some(s("https://d.example/abc")));
    let r = interpret_cli_output(true, 0, &out, &s("")).ok().unwrap();
    assert_eq!(r.download_url, Some(s("https://d.example/abc")));
    assert_eq!(r.build_shortcut_url, Some(s("https://d.example/abc")));
    assert_eq!(download_page_url(&s("")), None);
}

#[test]
fn cli_failure_carries_outputs() {
    let e = interpret_cli_output(false, -1, &s("out"), &s("err")).err().unwrap();
    assert_eq!(e, "go-fir-cli 上传失败（退出码: -1）\n标准输出: out\n错误输出: err");
    let e = interpret_cli_output(false, 2, &s(""), &s("")).err().unwrap();
    assert!(e.starts_with("go-fir-cli 上传失败（退出码: 2）"));
}

#[test]
fn cli_discovery() {
    assert_eq!(which_candidate(true, &s(" /usr/bin/go-fir-cli\n")), Some(s("/usr/bin/go-fir-cli")));
    assert_eq!(which_candidate(false, &s("/x")), None);
    assert_eq!(which_candidate(true, &s("")), None);
    assert_eq!(configured_candidate(&Some(s("  /opt/cli "))), Some(s("/opt/cli")));
    assert_eq!(configured_candidate(&Some(s("  "))), None);
    assert_eq!(locate_cli(true, &s("/usr/bin/c"), true, &None, false).unwrap(), "/usr/bin/c");
    assert_eq!(locate_cli(false, &s(""), false, &Some(s(" /opt/c ")), true).unwrap(), "/opt/c");
    let e = locate_cli(false, &s("no"), false, &None, false).err().unwrap();
    assert_eq!(
        e,
        format!("{CLI_GUIDANCE}查找详情：\n  1. which 未找到 go-fir-cli: no\n  2. 配置中没有设置 go-fir-cli 路径\n")
    );
    let e = locate_cli(true, &s("/gone"), false, &Some(s("/missing")), false).err().unwrap();
    assert!(e.ends_with("  1. which 找到路径但文件不存在: /gone\n  2. 配置的路径不存在: /missing\n"));
    let e = locate_cli(false, &s(""), false, &Some(s(" ")), false).err().unwrap();
    assert!(e.ends_with("  2. 配置的路径为空字符串\n"));
}

#[test]
fn cli_permissions_and_arguments() {
    assert!(lacks_exec_bits(0o644));
    assert!(!lacks_exec_bits(0o755));
    assert!(lacks_exec_bits(0o100644));
    assert!(!lacks_exec_bits(0o100755));
    assert!(!lacks_exec_bits(0o601));
    assert_eq!(
        chmod_failure_message(&s("/c"), &s("EPERM")),
        "go-fir-cli 文件没有执行权限，且无法自动修复\n\n文件路径: /c\n错误: EPERM\n\n请手动执行以下命令添加执行权限：\nchmod +x /c\n"
    );
    assert_eq!(
        cli_args(&s("T"), &s("/a.apk"), &Some(s(" log "))),
        vec![s("-t"), s("T"), s("upload"), s("-f"), s("/a.apk"), s("-c"), s("log")]
    );
    assert_eq!(cli_args(&s("T"), &s("/a.apk"), &Some(s(" "))).len(), 5);
    assert_eq!(cli_token(&None).err().unwrap(), "fir.im API Token 未配置");
    assert_eq!(cli_token(&Some(s("t"))).unwrap(), "t");
    let m = spawn_failure_message(&s("Permission denied (os error 13)"), &s("/c"));
    assert!(m.contains("这可能是权限问题"));
    assert!(m.ends_with("文件路径: /c\n请确保 go-fir-cli 已正确安装并在 PATH 中，且有执行权限"));
    let m = spawn_failure_message(&s("No such file"), &s("/c"));
    assert_eq!(
        m,
        "执行 go-fir-cli 失败: No such file\n\n文件路径: /c\n请确保 go-fir-cli 已正确安装并在 PATH 中，且有执行权限"
    );
}
