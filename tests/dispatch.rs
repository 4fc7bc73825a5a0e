use dnst::commands::ldns::LDNS_HELP;
use dnst::commands::nsec3hash::Nsec3Hash;
use dnst::commands::{Command, RawArg};
use dnst::error::{Context, Error};
use dnst::{ldns_compatibility_for, try_ldns_compatibility};

fn raw(args: &[&str]) -> Vec<RawArg> {
    args.iter().map(|a| RawArg::Text(a.to_string())).collect()
}

fn not_text(lossy: &str, shown: &str) -> RawArg {
    RawArg::NotUnicode { lossy: lossy.to_string(), shown: shown.to_string() }
}

fn legacy(args: &[&str]) -> Result<Nsec3Hash, Error> {
    Nsec3Hash::parse_ldns(&raw(args))
}

fn legacy_error(args: &[&str]) -> String {
    match legacy(args) {
        Ok(_) => panic!("expected an error"),
        Err(e) => e.message().to_string(),
    }
}

#[test]
fn ldns_parse() {
    assert!(try_ldns_compatibility(raw(&["ldns-nsec3-hash"])).is_err());
    assert!(try_ldns_compatibility(raw(&["ldns-nsec3-hash", "-a"])).is_err());
}

#[test]
fn legacy_without_arguments_misses_the_name() {
    let err = try_ldns_compatibility(raw(&["/usr/bin/ldns-nsec3-hash"])).err().unwrap();
    assert_eq!(
        err.message(),
        format!("Error: Missing domain name argument\n\n{LDNS_HELP}")
    );
    assert_eq!(err.exit_code(), 1);
}

#[test]
fn legacy_option_without_value() {
    let err = try_ldns_compatibility(raw(&["ldns-nsec3-hash", "-a"])).err().unwrap();
    assert_eq!(
        err.message(),
        format!("Error: missing argument for option '-a'\n\n{LDNS_HELP}")
    );
    assert_ne!(err.exit_code(), 0);
}

#[test]
fn other_names_fall_through() {
    assert!(matches!(try_ldns_compatibility(raw(&["dnst", "nsec3-hash"])), Ok(None)));
    assert!(matches!(ldns_compatibility_for("dnst", &raw(&[])), Ok(None)));
    assert_eq!(
        try_ldns_compatibility(Vec::new()).err().unwrap().message(),
        "Missing binary name"
    );
    assert_eq!(
        try_ldns_compatibility(vec![not_text("/bin/\u{FFFD}", "\"/bin/\\xFF\"")])
            .err()
            .unwrap()
            .message(),
        "Binary file name is not valid unicode"
    );
    assert_eq!(
        try_ldns_compatibility(raw(&["/"])).err().unwrap().message(),
        "Missing binary file name"
    );
}

#[test]
fn legacy_full_invocation_runs() {
    let args = try_ldns_compatibility(raw(&[
        "ldns-nsec3-hash", "-t", "12", "-s", "aabbccdd", "-a", "1", "example",
    ]))
    .unwrap()
    .unwrap();
    assert!(matches!(args.command, Command::Nsec3Hash(_)));
    assert_eq!(args.execute().unwrap(), "0p9mhaveqvm6t7vbl5lop2u3t2rp3tom.\n");
}

#[test]
fn legacy_defaults_are_one_iteration_without_salt() {
    let h = legacy(&["example.test"]).unwrap();
    assert_eq!(h.iterations, 1);
    assert!(h.salt.is_empty());
    assert_eq!(h.algorithm.code, 1);
    assert_eq!(h.execute().unwrap(), "o09614ibh1cq1rcc86289olr22ea0fso.\n");
}

#[test]
fn legacy_second_name_is_ignored() {
    let one = legacy(&["a.example"]).unwrap();
    let two = legacy(&["a.example", "b.example"]).unwrap();
    assert_eq!(one.name.wire, two.name.wire);
    let bad_second = legacy(&["a.example", "a..b"]).unwrap();
    assert_eq!(one.name.wire, bad_second.name.wire);
}

#[test]
fn legacy_long_options_fail() {
    assert_eq!(
        legacy_error(&["-a", "1", "--salt", "x.example"]),
        "Long options are not supported, but `--salt` given"
    );
    assert_eq!(
        legacy_error(&["x.example", "--help=yes"]),
        "Long options are not supported, but `--help` given"
    );
    assert!(legacy(&["-a", "--salt"]).is_err());
}

#[test]
fn legacy_double_dash_ends_options() {
    let h = legacy(&["-t", "0", "--", "x.example"]).unwrap();
    assert_eq!(h.iterations, 0);
}

#[test]
fn legacy_short_option_errors() {
    assert_eq!(legacy_error(&["-x", "1", "a.example"]), "Invalid short option: -x");
    assert_eq!(
        legacy_error(&["-t", "abc", "a.example"]),
        "Invalid value \"abc\" for iterations (-t): invalid digit found in string"
    );
    assert_eq!(
        legacy_error(&["-t", "70000", "a.example"]),
        "Invalid value \"70000\" for iterations (-t): number too large to fit in target type"
    );
    assert_eq!(
        legacy_error(&["-a", "7", "a.example"]),
        "Invalid value \"7\" for algorithm (-a): unknown algorithm number"
    );
    assert!(legacy_error(&["-s", "xyz", "a.example"]).starts_with("Invalid value \"xyz\" for salt (-s): "));
    assert!(legacy_error(&["a..b"]).starts_with("Invalid value \"a..b\" for domain name: "));
}

#[test]
fn legacy_attached_values() {
    let h = legacy(&["-t0", "-s=aabb", "-aSHA-1", "a.example"]).unwrap();
    assert_eq!(h.iterations, 0);
    assert_eq!(h.salt, vec![0xaa, 0xbb]);
    assert_eq!(h.algorithm.code, 1);
}

#[test]
fn legacy_value_that_is_not_text() {
    let args = vec![
        RawArg::Text("-s".to_string()),
        not_text("\u{FFFD}", "\"\\xFF\""),
        RawArg::Text("a.example".to_string()),
    ];
    match Nsec3Hash::parse_ldns(&args) {
        Ok(_) => panic!("expected an error"),
        Err(e) => assert_eq!(
            e.message(),
            "Invalid value for salt (-s): \"\\xFF\" is not valid unicode"
        ),
    }
}

#[test]
fn error_rendering_and_exit_codes() {
    let e = Error::new("boom").context("reading").context("running");
    assert_eq!(
        e.render("dnst", false),
        "[dnst] ERROR: boom\n... while reading\n\n... while running\n"
    );
    assert_eq!(Error::new("boom").render("dnst", true), "[dnst] \x1B[31mERROR:\x1B[0m boom");
    assert_eq!(e.exit_code(), 1);
    let u = Error::usage("error: bad usage");
    assert_eq!(u.exit_code(), 2);
    assert_eq!(u.render("dnst", false), "error: bad usage\n");
}

#[test]
fn context_on_results() {
    let ok: Result<u8, Error> = Ok(3);
    assert!(matches!(ok.context("x"), Ok(3)));
    let err: Result<u8, Error> = Err(Error::new("boom"));
    let e = err.with_context(|| "later".to_string()).err().unwrap();
    assert_eq!(e.render("p", false), "[p] ERROR: boom\n... while later\n");
}

#[test]
fn non_text_directory_with_text_file_name() {
    let args = vec![
        not_text("/\u{FFFD}/ldns-nsec3-hash", "\"/\\xFF/ldns-nsec3-hash\""),
        RawArg::Text("example.test".to_string()),
    ];
    let a = try_ldns_compatibility(args).unwrap().unwrap();
    assert_eq!(a.execute().unwrap(), "o09614ibh1cq1rcc86289olr22ea0fso.\n");
    let other = vec![not_text("/\u{FFFD}/dnst", "\"/\\xFF/dnst\"")];
    assert!(matches!(try_ldns_compatibility(other), Ok(None)));
    let no_name = vec![not_text("\u{FFFD}/..", "\"\\xFF/..\"")];
    assert_eq!(
        try_ldns_compatibility(no_name).err().unwrap().message(),
        "Missing binary file name"
    );
}

#[test]
fn legacy_attached_value_that_is_not_text() {
    let args = vec![
        RawArg::Text("a.example".to_string()),
        not_text("-s\u{FFFD}", "\"-s\\xFF\""),
    ];
    match Nsec3Hash::parse_ldns(&args) {
        Ok(_) => panic!("expected an error"),
        Err(e) => assert_eq!(
            e.message(),
            "Invalid value for salt (-s): \"\\xFF\" is not valid unicode"
        ),
    }
    let args = vec![
        RawArg::Text("a.example".to_string()),
        not_text("-t=\u{FFFD}", "\"-t=\\xFF\""),
    ];
    match Nsec3Hash::parse_ldns(&args) {
        Ok(_) => panic!("expected an error"),
        Err(e) => assert_eq!(
            e.message(),
            "Invalid value for iterations (-t): \"\\xFF\" is not valid unicode"
        ),
    }
}

#[test]
fn legacy_non_text_options_fail() {
    let args = vec![
        RawArg::Text("a.example".to_string()),
        not_text("--s\u{FFFD}=x", "\"--s\\xFF=x\""),
    ];
    match Nsec3Hash::parse_ldns(&args) {
        Ok(_) => panic!("expected an error"),
        Err(e) => assert_eq!(
            e.message(),
            "Long options are not supported, but `--s\u{FFFD}` given"
        ),
    }
    let args = vec![RawArg::Text("a.example".to_string()), not_text("-\u{FFFD}", "\"-\\xFF\"")];
    match Nsec3Hash::parse_ldns(&args) {
        Ok(_) => panic!("expected an error"),
        Err(e) => assert_eq!(e.message(), "Invalid short option: -\u{FFFD}"),
    }
}
