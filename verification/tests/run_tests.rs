use certo::cert_test::CertTest;
use certo::error::Error;
use certo::run::{conclude, exit_status, run};
use certo::types::DaysToExpiration;
use rustls_pki_types::pem::PemObject;
use rustls_pki_types::CertificateDer;

/// Not valid after 2060-06-15T12:30:45Z.
const LEAF_2060: &str = "\
-----BEGIN CERTIFICATE-----\n\
MIIBNDCB2qADAgECAhQmiVzrCMpqRouTqloY90c7IGu+xjAKBggqhkjOPQQDAjAZ\n\
MRcwFQYDVQQDDA5sZWFmLTIwNjAudGVzdDAgFw0yMDAxMDEwMDAwMDBaGA8yMDYw\n\
MDYxNTEyMzA0NVowGTEXMBUGA1UEAwwObGVhZi0yMDYwLnRlc3QwWTATBgcqhkjO\n\
PQIBBggqhkjOPQMBBwNCAASo/QiVunr5FV827BxGK+cr8/IPLk9r+ykkWHwYFa8x\n\
K4C93Dceht4VG+OHCXeTR+AZjQ1CbPHbN+sutBGARHayMAoGCCqGSM49BAMCA0kA\n\
MEYCIQCk8I5U5Tagh25hJv2Y6LMliygPDnyLbzbWP+EpU1XYUQIhAKFd3lfJjlPD\n\
pXo4JwH5qROKzHa96WWxOaDIFLNID/LK\n\
-----END CERTIFICATE-----\n\
";

/// Not valid after 2020-01-01T00:00:00Z.
const LEAF_2020: &str = "\
-----BEGIN CERTIFICATE-----\n\
MIIBMTCB2KADAgECAhQ65PmeB+A60cKYHqlRANFblDvyqDAKBggqhkjOPQQDAjAZ\n\
MRcwFQYDVQQDDA5sZWFmLTIwMjAudGVzdDAeFw0xOTAxMDEwMDAwMDBaFw0yMDAx\n\
MDEwMDAwMDBaMBkxFzAVBgNVBAMMDmxlYWYtMjAyMC50ZXN0MFkwEwYHKoZIzj0C\n\
AQYIKoZIzj0DAQcDQgAEtd2D/K2MxJuJm85R2g4puQwK1ZAp6zJe7TjRQ6AAtKSB\n\
7Oi7G7e0sKpdfpg4+cZp6ucRCk1rRtAsOQlbZYPN4jAKBggqhkjOPQQDAgNIADBF\n\
AiEA5aZ3j67vfL7mCvz2EV0XuWsY/YmuBvJND9saAKsqsbgCIA9wWQM1lQLCTrHq\n\
p7OEx6LMXO30/XuvdeHBojaBz0UN\n\
-----END CERTIFICATE-----\n\
";

fn der(pem: &str) -> Vec<u8> {
    CertificateDer::from_pem_slice(pem.as_bytes()).unwrap().to_vec()
}

fn unreachable_host(hostname: &str) -> Result<Vec<Vec<u8>>, Error> {
    Err(Error::ConnectionFailure {
        hostname: hostname.to_string(),
        details: "failed to lookup address information".to_string(),
    })
}

fn passed(hostname: &str, days: i64) -> CertTest<'_> {
    CertTest { hostname, result: Ok(DaysToExpiration(days)) }
}

fn outcome(test: &CertTest) -> String {
    match &test.result {
        Ok(_) => "pass".to_string(),
        Err(e) => format!("{:?}", e),
    }
}

#[test]
fn every_host_has_its_outcome_in_order() {
    let probes = vec![
        ("good.example", Ok(vec![der(LEAF_2060)])),
        ("nowhere.invalid", unreachable_host("nowhere.invalid")),
        ("old.example", Ok(vec![der(LEAF_2020)])),
        ("mute.example", Ok(Vec::new())),
        ("good.example", Ok(vec![der(LEAF_2060)])),
    ];
    let tests = run(probes, 5);

    assert_eq!(tests.len(), 5);
    let hosts: Vec<&str> = tests.iter().map(|t| t.hostname).collect();
    assert_eq!(
        hosts,
        vec!["good.example", "nowhere.invalid", "old.example", "mute.example", "good.example"]
    );
    assert!(tests[0].success());
    assert!(matches!(tests[1].result, Err(Error::ConnectionFailure { .. })));
    assert!(matches!(tests[2].result, Err(Error::AlmostExpiredCertificate { .. })));
    assert!(matches!(tests[3].result, Err(Error::NoCertificate)));
    assert!(tests[4].success());
    assert_eq!(exit_status(&tests), 1);
}

#[test]
fn an_unreachable_host_does_not_alter_the_others() {
    let alone = run(
        vec![
            ("a.example", Ok(vec![der(LEAF_2060)])),
            ("b.example", Ok(vec![der(LEAF_2020)])),
            ("c.example", Ok(vec![vec![0x30, 0x00]])),
        ],
        30,
    );
    let with_failure = run(
        vec![
            ("a.example", Ok(vec![der(LEAF_2060)])),
            ("nowhere.invalid", unreachable_host("nowhere.invalid")),
            ("b.example", Ok(vec![der(LEAF_2020)])),
            ("c.example", Ok(vec![vec![0x30, 0x00]])),
        ],
        30,
    );
    assert_eq!(alone.len(), 3);
    assert_eq!(with_failure.len(), 4);
    assert!(matches!(with_failure[1].result, Err(Error::ConnectionFailure { .. })));
    // the invalid certificate reads the same in both runs; the days may differ by the clock
    assert_eq!(outcome(&alone[2]), outcome(&with_failure[3]));
    assert_eq!(alone[0].success(), with_failure[0].success());
    assert_eq!(alone[1].success(), with_failure[2].success());
    let (first, second) = (alone[0].remaining_days().unwrap(), with_failure[0].remaining_days().unwrap());
    assert!((first - second).abs() <= 1);
    assert_eq!(exit_status(&alone), 1);
    assert_eq!(exit_status(&with_failure), 1);
}

#[test]
fn one_unreachable_host_fails_the_run() {
    let tests = run(
        vec![
            ("a.example", Ok(vec![der(LEAF_2060)])),
            ("nowhere.invalid", unreachable_host("nowhere.invalid")),
            ("b.example", Ok(vec![der(LEAF_2060)])),
        ],
        5,
    );
    assert!(tests[0].success());
    assert!(!tests[1].success());
    assert!(tests[2].success());
    assert_ne!(exit_status(&tests), 0);
    assert!(matches!(conclude(&tests), Err(Error::CertoTestFailure(1))));
}

#[test]
fn a_run_of_passes_is_clean() {
    let tests = run(
        vec![("a.example", Ok(vec![der(LEAF_2060)])), ("b.example", Ok(vec![der(LEAF_2060)]))],
        5,
    );
    assert!(tests.iter().all(|t| t.result.is_ok()));
    assert_eq!(exit_status(&tests), 0);
    assert!(conclude(&tests).is_ok());
}

#[test]
fn the_status_is_zero_exactly_when_every_outcome_is_ok() {
    let failed = |hostname| CertTest { hostname, result: Err(Error::NoCertificate) };
    let runs: Vec<Vec<CertTest>> = vec![
        vec![],
        vec![passed("a", 10)],
        vec![failed("a")],
        vec![passed("a", 10), passed("b", -1)],
        vec![passed("a", 10), failed("b")],
        vec![failed("a"), passed("b", 10)],
        vec![failed("a"), failed("b")],
        vec![passed("a", 1), passed("b", 2), failed("c"), passed("d", 4)],
    ];
    for tests in runs {
        let every_ok = tests.iter().all(|t| t.result.is_ok());
        assert_eq!(exit_status(&tests) == 0, every_ok);
        assert_eq!(conclude(&tests).is_ok(), every_ok);
    }
}

#[test]
fn a_failed_run_reports_a_test_failure() {
    let tests = vec![
        CertTest { hostname: "a", result: Err(Error::NoCertificate) },
        CertTest { hostname: "b", result: Err(Error::NoCertificate) },
    ];
    match conclude(&tests) {
        Err(e @ Error::CertoTestFailure(1)) => assert_eq!(e.to_string(), "Some (1) tests failed"),
        other => panic!("expected a test failure, got {:?}", other),
    }
    assert_eq!(exit_status(&tests), 1);
}

#[test]
fn a_run_over_no_hosts_has_no_outcomes() {
    let tests = run(Vec::new(), 5);
    assert!(tests.is_empty());
    assert_eq!(exit_status(&tests), 0);
}

#[test]
fn the_hosts_may_repeat() {
    let tests = run(
        vec![
            ("same.example", Ok(vec![der(LEAF_2060)])),
            ("same.example", unreachable_host("same.example")),
            ("same.example", Ok(vec![der(LEAF_2060)])),
        ],
        0,
    );
    assert_eq!(tests.len(), 3);
    assert!(tests[0].success());
    assert!(!tests[1].success());
    assert!(tests[2].success());
}
