use hdfs_mirror::conf::{ArgConfig, GeneralConfig, HdfsConfig, Next, DEFAULT_CONF};
use hdfs_mirror::error::{Cause, ErrorKind};
use hdfs_mirror::hdfs::mirror::Action;
use hdfs_mirror::hdfs::Hdfs;
use hdfs_mirror::krb5::{Auth, Krb5};
use hdfs_mirror::util::process::{extract_output_stdout_str, missing_stdout_error, Output};
use std::path::PathBuf;

fn out(code: Option<i32>, stdout: &[u8], stderr: &[u8]) -> Output {
    Output { code, stdout: stdout.to_vec(), stderr: stderr.to_vec() }
}

fn strings(v: &[&str]) -> Vec<String> {
    v.iter().map(|s| s.to_string()).collect()
}

#[test]
fn successful_output_gives_its_text() {
    assert_eq!(extract_output_stdout_str(out(Some(0), b"hello\n", b"noise")).unwrap(), "hello\n");
    assert_eq!(extract_output_stdout_str(out(Some(0), b"", b"")).unwrap(), "");
    let text = extract_output_stdout_str(out(Some(0), "gr\u{fc}\u{df}e \u{4e2d}".as_bytes(), b""));
    assert_eq!(text.unwrap(), "gr\u{fc}\u{df}e \u{4e2d}");
}

#[test]
fn successful_output_must_be_utf8() {
    let e = extract_output_stdout_str(out(Some(0), &[0x66, 0xff, 0x6f], b"")).unwrap_err();
    assert_eq!(e.kind(), ErrorKind::StdoutUtf8Conversion);
    assert_eq!(e.cause(), &Cause::Absent);
    // a truncated sequence and an overlong encoding are no UTF-8 either
    assert!(extract_output_stdout_str(out(Some(0), &[0xe4, 0xb8], b"")).is_err());
    assert!(extract_output_stdout_str(out(Some(0), &[0xc0, 0x80], b"")).is_err());
}

#[test]
fn failed_process_gives_code_and_error_output() {
    let e = extract_output_stdout_str(out(Some(2), b"partial", b"ls: no such file\n")).unwrap_err();
    assert_eq!(e.kind(), ErrorKind::ChildOutput);
    match e.cause() {
        Cause::CodeMsg(c) => {
            assert_eq!(c.code, Some(2));
            assert_eq!(c.msg, "ls: no such file\n");
        }
        other => panic!("{:?}", other),
    }
    let e = extract_output_stdout_str(out(None, b"", b"killed")).unwrap_err();
    match e.cause() {
        Cause::CodeMsg(c) => assert_eq!(c.code, None),
        other => panic!("{:?}", other),
    }
    let e = extract_output_stdout_str(out(Some(-1), b"", b"")).unwrap_err();
    assert_eq!(e.kind(), ErrorKind::ChildOutput);
}

#[test]
fn failed_process_with_unreadable_error_output() {
    let e = extract_output_stdout_str(out(Some(1), b"fine", &[0x80])).unwrap_err();
    assert_eq!(e.kind(), ErrorKind::StderrUtf8Conversion);
}

#[test]
fn success_is_exit_code_zero() {
    assert!(out(Some(0), b"", b"").success());
    assert!(!out(Some(1), b"", b"").success());
    assert!(!out(None, b"", b"").success());
}

#[test]
fn missing_stdout_has_three_causes() {
    let e = missing_stdout_error(None);
    assert_eq!(e.kind(), ErrorKind::StderrEmpty);
    let e = missing_stdout_error(Some(Err("broken pipe".to_string())));
    assert_eq!(e.kind(), ErrorKind::StderrRead);
    match e.cause() {
        Cause::Msg(m) => assert_eq!(m.msg, "broken pipe"),
        other => panic!("{:?}", other),
    }
    let e = missing_stdout_error(Some(Ok("echo: failed".to_string())));
    assert_eq!(e.kind(), ErrorKind::StderrValidMsg);
    match e.cause() {
        Cause::Msg(m) => assert_eq!(m.msg, "echo: failed"),
        other => panic!("{:?}", other),
    }
}

#[test]
fn hdfs_commands() {
    let hdfs = Hdfs::with_path(PathBuf::from("/usr/bin/hdfs"));
    assert_eq!(hdfs.path(), &PathBuf::from("/usr/bin/hdfs"));
    let run = hdfs.df("/");
    assert_eq!(run.program, &PathBuf::from("/usr/bin/hdfs"));
    assert_eq!(run.args, strings(&["dfs", "-df", "/"]));
    assert_eq!(run.stdin, None);
    assert_eq!(hdfs.ls("/data").args, strings(&["dfs", "-ls", "/data"]));
    assert_eq!(
        hdfs.copy_to_local("/data/f", "/dst/data/f").args,
        strings(&["dfs", "-copyToLocal", "/data/f", "/dst/data/f"])
    );
}

#[test]
fn hdfs_command_of_an_action() {
    let hdfs = Hdfs::with_path(PathBuf::from("hdfs"));
    let run = hdfs.command(&Action::List { path: "/a".to_string() }).unwrap();
    assert_eq!(run.args, strings(&["dfs", "-ls", "/a"]));
    let run = hdfs
        .command(&Action::Copy { from: "/a/f".to_string(), to: "out/a/f".to_string() })
        .unwrap();
    assert_eq!(run.args, strings(&["dfs", "-copyToLocal", "/a/f", "out/a/f"]));
    assert!(hdfs.command(&Action::CreateDirs { path: "x".to_string() }).is_none());
    assert!(hdfs.command(&Action::CheckExists { path: "x".to_string() }).is_none());
    assert!(hdfs.command(&Action::Finish).is_none());
    assert!(hdfs.command(&Action::Abort).is_none());
}

#[test]
fn usage_from_a_run() {
    let report = b"Filesystem Size Used Available Use%\nhdfs://nn:8020 100 10 32 10%\n";
    let r = Hdfs::usage(Ok(out(Some(0), report, b""))).unwrap();
    assert_eq!(r.filesystem_id(), "hdfs://nn:8020");
    assert_eq!(r.capacity_bytes(), 42);
    let e = Hdfs::usage(Err("No such file or directory".to_string())).unwrap_err();
    assert_eq!(e.kind(), ErrorKind::HdfsDfCmd);
    match e.cause() {
        Cause::Msg(m) => assert_eq!(m.msg, "No such file or directory"),
        other => panic!("{:?}", other),
    }
    let e = Hdfs::usage(Ok(out(Some(255), report, b"df: denied"))).unwrap_err();
    assert_eq!(e.kind(), ErrorKind::ChildOutput);
    let e = Hdfs::usage(Ok(out(Some(0), b"garbage", b""))).unwrap_err();
    assert_eq!(e.kind(), ErrorKind::RegexInitialHdfsDfCap);
}

#[test]
fn kinit_with_password_feeds_it_to_stdin() {
    let krb5 = Krb5::with_path(PathBuf::from("/usr/bin/kinit"));
    assert_eq!(krb5.path(), &PathBuf::from("/usr/bin/kinit"));
    let run = krb5.kinit("alice@REALM", &Auth::Password("s3cret".to_string()));
    assert_eq!(run.program, &PathBuf::from("/usr/bin/kinit"));
    assert_eq!(run.args, strings(&["alice@REALM"]));
    assert_eq!(run.stdin, Some("s3cret".to_string()));
    assert!(!run.args.iter().any(|a| a.contains("s3cret")));
}

#[test]
fn kinit_with_keytab_names_it_in_the_arguments() {
    let krb5 = Krb5::with_path(PathBuf::from("kinit"));
    let run = krb5.kinit("alice@REALM", &Auth::Keytab("/etc/alice.keytab".to_string()));
    assert_eq!(run.args, strings(&["-k", "-t", "/etc/alice.keytab", "alice@REALM"]));
    assert_eq!(run.stdin, None);
}

#[test]
fn ticket_from_a_run() {
    let pw = Auth::Password("x".to_string());
    let kt = Auth::Keytab("k".to_string());
    assert_eq!(Krb5::ticket(&pw, Ok(out(Some(0), b"ok", b""))).unwrap(), "ok");
    assert_eq!(Krb5::ticket(&pw, Err("gone".to_string())).unwrap_err().kind(), ErrorKind::KinitPw);
    assert_eq!(
        Krb5::ticket(&kt, Err("gone".to_string())).unwrap_err().kind(),
        ErrorKind::KinitKeytab
    );
    let e = Krb5::ticket(&kt, Ok(out(Some(1), b"", b"kinit: bad key"))).unwrap_err();
    assert_eq!(e.kind(), ErrorKind::ChildOutput);
    match e.cause() {
        Cause::CodeMsg(c) => assert_eq!((c.code, c.msg.as_str()), (Some(1), "kinit: bad key")),
        other => panic!("{:?}", other),
    }
}

#[test]
fn configuration_defaults_and_cycles() {
    assert_eq!(ArgConfig::default().conf(), "config/rs-hdfs-report.toml");
    assert_eq!(DEFAULT_CONF, "config/rs-hdfs-report.toml");
    assert_eq!(ArgConfig { conf: "x.toml".to_string() }.conf(), "x.toml");
    let once = GeneralConfig { lock_file: "l".to_string(), repeat_delay: None };
    assert_eq!(once.after_cycle(false), Next::Exit(0));
    assert_eq!(once.after_cycle(true), Next::Exit(1));
    let again = GeneralConfig { lock_file: "l".to_string(), repeat_delay: Some(30) };
    assert_eq!(again.after_cycle(false), Next::Sleep(30));
    assert_eq!(again.after_cycle(true), Next::Sleep(30));
}

#[test]
fn configured_walk_starts_with_the_remote_root() {
    let conf = HdfsConfig {
        path: "/data".to_string(),
        copy_to: "/dst".to_string(),
        matches: strings(&[r"\.csv$"]),
    };
    let (walker, action) = conf.walker().unwrap();
    assert_eq!(action, Action::List { path: "/data".to_string() });
    assert_eq!(walker.awaited(), Action::List { path: "/data".to_string() });
    let bad = HdfsConfig {
        path: "/data".to_string(),
        copy_to: "/dst".to_string(),
        matches: strings(&["ok", "(", "["]),
    };
    let e = bad.walker().unwrap_err();
    assert_eq!(e.kind(), ErrorKind::HdfsRegexMatch);
    match e.cause() {
        Cause::Regex(r) => assert_eq!(r.target, "("),
        other => panic!("{:?}", other),
    }
}
