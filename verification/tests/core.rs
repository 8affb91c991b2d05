use evndns::handler::{Action, Error, Handler};
use evndns::ip::{IpAddress, RecordType};
use evndns::message::{MessageType, OpCode, Query, Response, ResponseCode};
use evndns::name::DnsName;
use evndns::options::Options;
use evndns::resolver::{resolve, ResolverError, ResolverState};

fn options_with(domain: &str, entries: &[&str]) -> Options {
    Options {
        udp: Vec::new(),
        tcp: Vec::new(),
        domain: domain.to_string(),
        entries: entries.iter().map(|e| e.to_string()).collect(),
    }
}

fn query(name: &str, src: IpAddress) -> Query {
    Query {
        name: DnsName::from_text(name),
        query_type: RecordType::A,
        src,
        op_code: OpCode::Query,
        message_type: MessageType::Query,
    }
}

fn respond(h: &Handler, q: &Query) -> Response {
    match h.do_handle_request(q) {
        Ok(Action::Respond(resp)) => resp,
        other => panic!("expected a locally built response, got {:?}", describe(&other)),
    }
}

fn describe(r: &Result<Action, Error>) -> &'static str {
    match r {
        Ok(Action::Respond(_)) => "respond",
        Ok(Action::Forward(_)) => "forward",
        Err(_) => "error",
    }
}

#[test]
fn entry_query_is_authoritative_with_entry_address() {
    let options = options_with("evndns.local", &["foobar.evndns.local:127.0.0.1"]);
    let h = Handler::from_options(&options).expect("well-formed options");
    let q = query("foobar.evndns.local", IpAddress::V4(9, 9, 9, 9));
    let resp = respond(&h, &q);
    assert!(resp.authoritative);
    assert_eq!(resp.code, ResponseCode::NoError);
    assert_eq!(resp.answers.len(), 1);
    assert_eq!(resp.answers[0].addr, IpAddress::V4(127, 0, 0, 1));
    assert_eq!(resp.answers[0].ttl, 60);
    assert_eq!(resp.answers[0].name.as_bytes(), b"foobar.evndns.local");
    assert_eq!(resp.answers[0].addr.record_type(), RecordType::A);
}

#[test]
fn myip_query_reflects_requester_source() {
    let options = options_with("evndns.local", &["foobar.evndns.local:127.0.0.1"]);
    let h = Handler::from_options(&options).expect("well-formed options");
    let q = query("myip.evndns.local", IpAddress::V4(203, 0, 113, 7));
    let resp = respond(&h, &q);
    assert!(resp.authoritative);
    assert_eq!(resp.code, ResponseCode::NoError);
    assert_eq!(resp.answers.len(), 1);
    assert_eq!(resp.answers[0].addr, IpAddress::V4(203, 0, 113, 7));
    assert_eq!(resp.answers[0].ttl, 60);
}

#[test]
fn myip_subname_also_reflects() {
    let options = options_with("evndns.local", &[]);
    let h = Handler::from_options(&options).expect("well-formed options");
    let q = query("x.myip.evndns.local", IpAddress::V6(7));
    let resp = respond(&h, &q);
    assert!(resp.authoritative);
    assert_eq!(resp.answers.len(), 1);
    assert_eq!(resp.answers[0].addr, IpAddress::V6(7));
    assert_eq!(resp.answers[0].addr.record_type(), RecordType::AAAA);
}

#[test]
fn unknown_name_in_zone_is_authoritative_nxdomain() {
    let options = options_with("evndns.local", &["foobar.evndns.local:127.0.0.1"]);
    let h = Handler::from_options(&options).expect("well-formed options");
    let q = query("unknown.evndns.local", IpAddress::V4(1, 2, 3, 4));
    let resp = respond(&h, &q);
    assert!(resp.authoritative);
    assert_eq!(resp.code, ResponseCode::NXDomain);
    assert_eq!(resp.answers.len(), 0);
}

#[test]
fn outside_zone_is_forwarded_and_mirrors_upstream() {
    let options = options_with("evndns.local", &["foobar.evndns.local:127.0.0.1"]);
    let h = Handler::from_options(&options).expect("well-formed options");
    let q = query("example.com", IpAddress::V4(1, 2, 3, 4));
    let name = match h.do_handle_request(&q) {
        Ok(Action::Forward(name)) => name,
        other => panic!("expected a forward, got {:?}", describe(&other)),
    };
    assert_eq!(name.as_bytes(), b"example.com");
    let upstream = vec![IpAddress::V4(93, 184, 216, 34), IpAddress::V6(42)];
    let out = h.do_handle_request_other(&q, Ok(upstream.clone()));
    let resp = h.handle_request(out);
    assert!(!resp.authoritative);
    assert_eq!(resp.code, ResponseCode::NoError);
    assert_eq!(resp.answers.len(), 2);
    for (i, addr) in upstream.iter().enumerate() {
        assert_eq!(resp.answers[i].addr, *addr);
        assert_eq!(resp.answers[i].ttl, 60);
        assert_eq!(resp.answers[i].name.as_bytes(), b"example.com");
    }
}

#[test]
fn forwarded_empty_upstream_gives_empty_answer() {
    let options = options_with("evndns.local", &[]);
    let h = Handler::from_options(&options).expect("well-formed options");
    let q = query("example.org", IpAddress::V4(1, 2, 3, 4));
    let out = h.do_handle_request_other(&q, Ok(Vec::new()));
    let resp = h.handle_request(out);
    assert!(!resp.authoritative);
    assert_eq!(resp.code, ResponseCode::NoError);
    assert_eq!(resp.answers.len(), 0);
}

#[test]
fn entry_inside_reflection_zone_still_wins() {
    let options = options_with("evndns.local", &["myip.evndns.local:10.0.0.1"]);
    let h = Handler::from_options(&options).expect("well-formed options");
    let q = query("myip.evndns.local", IpAddress::V4(203, 0, 113, 7));
    let resp = respond(&h, &q);
    assert!(resp.authoritative);
    assert_eq!(resp.answers.len(), 1);
    assert_eq!(resp.answers[0].addr, IpAddress::V4(10, 0, 0, 1));
}

#[test]
fn entry_inside_root_zone_still_wins() {
    let options = options_with("evndns.local", &["deep.evndns.local:10.0.0.2"]);
    let h = Handler::from_options(&options).expect("well-formed options");
    let q = query("deep.evndns.local", IpAddress::V4(8, 8, 8, 8));
    let resp = respond(&h, &q);
    assert!(resp.authoritative);
    assert_eq!(resp.code, ResponseCode::NoError);
    assert_eq!(resp.answers[0].addr, IpAddress::V4(10, 0, 0, 2));
}

#[test]
fn invalid_opcode_yields_servfail() {
    let options = options_with("evndns.local", &[]);
    let h = Handler::from_options(&options).expect("well-formed options");
    let mut q = query("foobar.evndns.local", IpAddress::V4(1, 2, 3, 4));
    q.op_code = OpCode::Status;
    let step = h.do_handle_request(&q);
    let err = match step {
        Err(Error::InvalidOpCode(OpCode::Status)) => Error::InvalidOpCode(OpCode::Status),
        _ => panic!("gate must reject a non-query opcode"),
    };
    let resp = h.handle_request(Err(err));
    assert_eq!(resp.code, ResponseCode::ServFail);
    assert_eq!(resp.answers.len(), 0);
    assert!(!resp.authoritative);
}

#[test]
fn invalid_message_type_yields_servfail() {
    let options = options_with("evndns.local", &[]);
    let h = Handler::from_options(&options).expect("well-formed options");
    let mut q = query("foobar.evndns.local", IpAddress::V4(1, 2, 3, 4));
    q.message_type = MessageType::Response;
    let step = h.do_handle_request(&q);
    let err = match step {
        Err(Error::InvalidMessageType(MessageType::Response)) => {
            Error::InvalidMessageType(MessageType::Response)
        }
        _ => panic!("gate must reject a response message"),
    };
    let resp = h.handle_request(Err(err));
    assert_eq!(resp.code, ResponseCode::ServFail);
    assert_eq!(resp.answers.len(), 0);
}

#[test]
fn names_and_entries_compare_case_insensitively() {
    let options = options_with("EVNDNS.local", &["FooBar.EVNDNS.local:127.0.0.1"]);
    let h = Handler::from_options(&options).expect("well-formed options");
    assert_eq!(h.root_zone.as_bytes(), b"evndns.local");
    assert_eq!(h.myip_zone.as_bytes(), b"myip.evndns.local");
    assert_eq!(h.hello_zone.as_bytes(), b"hello.evndns.local");
    let q = query("FOOBAR.evndns.LOCAL.", IpAddress::V4(1, 1, 1, 1));
    let resp = respond(&h, &q);
    assert!(resp.authoritative);
    assert_eq!(resp.answers[0].addr, IpAddress::V4(127, 0, 0, 1));
}

#[test]
fn similar_suffix_is_not_inside_the_zone() {
    let options = options_with("evndns.local", &[]);
    let h = Handler::from_options(&options).expect("well-formed options");
    let q = query("aevndns.local", IpAddress::V4(1, 2, 3, 4));
    assert!(matches!(h.do_handle_request(&q), Ok(Action::Forward(_))));
    let deep = query("sub.deep.evndns.local", IpAddress::V4(1, 2, 3, 4));
    let resp = respond(&h, &deep);
    assert_eq!(resp.code, ResponseCode::NXDomain);
}

#[test]
fn malformed_entries_fail_construction() {
    for bad in [
        "nocolon",
        "name:256.1.1.1",
        "name:1.2.3",
        "name:01.2.3.4",
        "name:1.2.3.4.5",
        "name:",
        "name:::1",
        "name:1.2.3.x",
    ] {
        let options = options_with("evndns.local", &[bad]);
        assert!(
            Handler::from_options(&options).is_none(),
            "entry {:?} should be rejected",
            bad
        );
    }
}

#[test]
fn entry_text_after_second_colon_is_ignored() {
    let options = options_with("evndns.local", &["name.evndns.local:1.2.3.4:junk"]);
    let h = Handler::from_options(&options).expect("extra text is ignored");
    assert_eq!(h.entries.len(), 1);
    assert_eq!(h.entries[0].1, IpAddress::V4(1, 2, 3, 4));
}

#[test]
fn first_matching_entry_wins() {
    let options = options_with(
        "evndns.local",
        &["dup.evndns.local:1.1.1.1", "dup.evndns.local:2.2.2.2"],
    );
    let h = Handler::from_options(&options).expect("well-formed options");
    let q = query("dup.evndns.local", IpAddress::V4(9, 9, 9, 9));
    let resp = respond(&h, &q);
    assert_eq!(resp.answers[0].addr, IpAddress::V4(1, 1, 1, 1));
}

#[test]
fn ipv6_entries_answer_with_aaaa_records() {
    let base = options_with("evndns.local", &[]);
    let mut h = Handler::from_options(&base).expect("well-formed options");
    h.entries
        .push((DnsName::from_text("six.evndns.local"), IpAddress::V6(1)));
    let q = query("six.evndns.local", IpAddress::V4(1, 2, 3, 4));
    let resp = respond(&h, &q);
    assert_eq!(resp.answers[0].addr, IpAddress::V6(1));
    assert_eq!(resp.answers[0].addr.record_type(), RecordType::AAAA);
}

#[test]
fn resolver_state_initializes_once() {
    let mut state = ResolverState::Uninitialized;
    state.apply_init(Ok(()));
    assert!(matches!(state, ResolverState::Ready));
    state.apply_init(Err(ResolverError::Init("late".to_string())));
    assert!(matches!(state, ResolverState::Ready));
    assert!(state.cached_result().is_ok());
}

#[test]
fn resolver_failure_is_cached_and_yields_servfail() {
    let mut state = ResolverState::Uninitialized;
    state.apply_init(Err(ResolverError::Init("no system configuration".to_string())));
    match &state {
        ResolverState::FailedInit(ResolverError::Init(m)) => {
            assert_eq!(m, "no system configuration")
        }
        _ => panic!("construction failure was not recorded"),
    }
    state.apply_init(Ok(()));
    assert!(
        matches!(state, ResolverState::FailedInit(_)),
        "a later attempt must not overwrite the cached failure"
    );
    let cached = state.cached_result();
    let err = match cached {
        Err(e) => e,
        Ok(()) => panic!("cached failure must be returned"),
    };
    assert!(matches!(&err, ResolverError::Init(m) if m.as_str() == "no system configuration"));

    let options = options_with("evndns.local", &[]);
    let h = Handler::from_options(&options).expect("well-formed options");
    let q = query("example.net", IpAddress::V4(1, 2, 3, 4));
    let out = h.do_handle_request_other(&q, Err(err));
    assert!(matches!(&out, Err(Error::Resolver(ResolverError::Init(_)))));
    let resp = h.handle_request(out);
    assert_eq!(resp.code, ResponseCode::ServFail);
    assert_eq!(resp.answers.len(), 0);
}

#[test]
fn resolve_binds_records_to_the_queried_name_in_order() {
    let name = DnsName::from_text("host.example.com");
    let addrs = vec![
        IpAddress::V4(10, 0, 0, 1),
        IpAddress::V6(99),
        IpAddress::V4(10, 0, 0, 2),
    ];
    let records = resolve(&name, Ok(addrs.clone())).expect("lookup succeeded");
    assert_eq!(records.len(), 3);
    for (i, addr) in addrs.iter().enumerate() {
        assert_eq!(records[i].name.as_bytes(), b"host.example.com");
        assert_eq!(records[i].ttl, 60);
        assert_eq!(records[i].addr, *addr);
    }
    let failed = resolve(&name, Err(ResolverError::Lookup("timed out".to_string())));
    assert!(matches!(&failed, Err(ResolverError::Lookup(m)) if m.as_str() == "timed out"));
}

#[test]
fn servfail_response_shape() {
    let resp = Response::servfail();
    assert!(!resp.authoritative);
    assert_eq!(resp.code, ResponseCode::ServFail);
    assert_eq!(resp.answers.len(), 0);
}
