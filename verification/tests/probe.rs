use netmonitor::{
    AllowPolicy, PingResult, ProbeRequest, Prober, TransportOutcome, ValidationError,
    PROBE_TIMEOUT_SECS,
};

const GOOGLE: &str = "https://www.google.com/";
const EVIL: &str = "https://evil.example.com/";

fn refusal_text(reply: Result<PingResult, ValidationError>) -> String {
    match reply {
        Ok(result) => panic!("expected a refusal, got {:?}", result),
        Err(error) => error.message(),
    }
}

#[test]
fn responds_in_42_ms_with_200() {
    let prober = Prober::default();
    let mut calls = 0;
    let reply = prober.probe(GOOGLE, |_request: &ProbeRequest| {
        calls += 1;
        (TransportOutcome::Responded { status: 200 }, 42)
    });
    assert_eq!(reply.unwrap(), PingResult { success: true, latency: 42 });
    assert_eq!(calls, 1);
}

#[test]
fn error_status_still_counts_as_reachable() {
    let prober = Prober::default();
    let mut calls = 0;
    let reply = prober.probe(GOOGLE, |_request: &ProbeRequest| {
        calls += 1;
        (TransportOutcome::Responded { status: 500 }, 10)
    });
    assert_eq!(reply.unwrap(), PingResult { success: true, latency: 10 });
    assert_eq!(calls, 1);
}

#[test]
fn disallowed_target_is_refused_without_a_request() {
    let prober = Prober::default();
    let mut calls = 0;
    let reply = prober.probe(EVIL, |_request: &ProbeRequest| {
        calls += 1;
        (TransportOutcome::Responded { status: 200 }, 1)
    });
    assert_eq!(
        refusal_text(reply),
        "Security Violation: URL must target www.google.com"
    );
    assert_eq!(calls, 0);
}

#[test]
fn timeout_reports_failure_without_latency() {
    let prober = Prober::default();
    let mut calls = 0;
    let reply = prober.probe(GOOGLE, |request: &ProbeRequest| {
        calls += 1;
        assert_eq!(request.timeout_secs(), 5);
        (TransportOutcome::Failed, 5000)
    });
    assert_eq!(reply.unwrap(), PingResult { success: false, latency: 0 });
    assert_eq!(calls, 1);
}

#[test]
fn refused_targets_never_reach_the_transport() {
    let prober = Prober::default();
    let targets = [
        "",
        "https://example.com/",
        "https://google.com/",
        "https://www.google.co/m",
        "www.google.co",
        "ww.google.com",
        "https://WWW.GOOGLE.COM/",
        "https://www.google.co",
        "https://www-google-com/",
    ];
    for target in targets {
        let reply = prober.probe(target, |_request: &ProbeRequest| {
            panic!("a request was made for a refused target")
        });
        assert!(reply.is_err(), "{target:?} was admitted");
        assert!(prober.begin(target).is_err());
    }
}

#[test]
fn permitted_targets_make_exactly_one_request() {
    let prober = Prober::default();
    let targets = [
        "www.google.com",
        "https://www.google.com/",
        "http://www.google.com:8080/search?q=1",
        "https://evil.example.com/?next=www.google.com",
        "not a url at all www.google.com !!",
        "wwwwww.google.comcom",
    ];
    for target in targets {
        let mut seen: Vec<String> = Vec::new();
        let reply = prober.probe(target, |request: &ProbeRequest| {
            seen.push(request.target().to_string());
            (TransportOutcome::Responded { status: 204 }, 3)
        });
        assert_eq!(reply.unwrap(), PingResult { success: true, latency: 3 });
        assert_eq!(seen, vec![target.to_string()]);
    }
}

#[test]
fn any_status_code_is_success() {
    let prober = Prober::default();
    for status in [0u16, 100, 199, 200, 204, 299, 301, 400, 404, 418, 500, 503, 599, 999, u16::MAX] {
        let request = prober.begin(GOOGLE).unwrap();
        let result = request.conclude(TransportOutcome::Responded { status }, 17);
        assert_eq!(result, PingResult { success: true, latency: 17 });
    }
}

#[test]
fn failure_is_exactly_false_and_zero() {
    let prober = Prober::default();
    for elapsed in [0u128, 1, 42, 4999, 5000, 5001, u64::MAX as u128, u128::MAX] {
        let request = prober.begin(GOOGLE).unwrap();
        let result = request.conclude(TransportOutcome::Failed, elapsed);
        assert_eq!(result, PingResult { success: false, latency: 0 });
    }
}

#[test]
fn latency_is_the_elapsed_time() {
    let prober = Prober::default();
    for elapsed in [0u64, 1, 42, 5000, 1 << 32, u64::MAX - 1, u64::MAX] {
        let request = prober.begin(GOOGLE).unwrap();
        let result = request.conclude(TransportOutcome::Responded { status: 200 }, elapsed as u128);
        assert_eq!(result, PingResult { success: true, latency: elapsed });
    }
}

#[test]
fn latency_keeps_the_low_64_bits() {
    let prober = Prober::default();
    let cases: [(u128, u64); 4] = [
        (1 << 64, 0),
        ((1 << 64) + 7, 7),
        ((3 << 64) + 5000, 5000),
        (u128::MAX, u64::MAX),
    ];
    for (elapsed, latency) in cases {
        let request = prober.begin(GOOGLE).unwrap();
        let result = request.conclude(TransportOutcome::Responded { status: 200 }, elapsed);
        assert_eq!(result, PingResult { success: true, latency });
    }
}

#[test]
fn repeated_probes_agree() {
    let prober = Prober::default();
    let outcomes = [
        TransportOutcome::Responded { status: 200 },
        TransportOutcome::Responded { status: 500 },
        TransportOutcome::Failed,
    ];
    for target in [GOOGLE, EVIL] {
        for outcome in outcomes {
            let first = prober.probe(target, |_request: &ProbeRequest| (outcome, 42));
            let second = prober.probe(target, |_request: &ProbeRequest| (outcome, 42));
            let later = prober.probe(target, |_request: &ProbeRequest| (outcome, 977));
            match (first, second, later) {
                (Ok(a), Ok(b), Ok(c)) => {
                    assert_eq!(a, b);
                    assert_eq!(a.success, c.success);
                }
                (Err(a), Err(b), Err(c)) => {
                    assert_eq!(a.message(), b.message());
                    assert_eq!(a.message(), c.message());
                }
                _ => panic!("the replies differ in kind"),
            }
        }
    }
}

#[test]
fn begin_hands_back_the_target_and_the_timeout() {
    let prober = Prober::new(AllowPolicy::single("example.org"), 30);
    let request = prober.begin("https://example.org/health").unwrap();
    assert_eq!(request.target(), "https://example.org/health");
    assert_eq!(request.timeout_secs(), 30);
}

#[test]
fn stock_prober_waits_five_seconds_for_google() {
    let prober = Prober::default();
    assert_eq!(PROBE_TIMEOUT_SECS, 5);
    assert_eq!(prober.timeout_secs, 5);
    assert!(prober.policy.allows("www.google.com"));
    assert!(!prober.policy.allows("www.example.com"));
    assert_eq!(prober.begin(GOOGLE).unwrap().timeout_secs(), 5);
}

#[test]
fn refusal_carries_the_policy() {
    let prober = Prober::new(AllowPolicy::single("intranet.local"), 5);
    let error = prober.begin(GOOGLE).unwrap_err();
    assert!(error.policy().allows("http://intranet.local/"));
    assert!(!error.policy().allows(GOOGLE));
    assert_eq!(error.message(), "Security Violation: URL must target intranet.local");
}
