use proxy_session::http::HttpPhase;
use proxy_session::metrics::SessionMetrics;
use proxy_session::outcome::SessionResult;
use proxy_session::outcome::StateKind;
use proxy_session::outcome::StateResult;
use proxy_session::ready::Ready;
use proxy_session::ready::Token;
use proxy_session::session::Session;
use proxy_session::session::SessionConfig;
use proxy_session::session::SessionState;
use proxy_session::session::TokenSource;
use proxy_session::socket::Socket;

fn readable() -> Ready {
    Ready { readable: true, writable: false, error: false, hangup: false }
}

fn writable() -> Ready {
    Ready { readable: false, writable: true, error: false, hangup: false }
}

fn plain_config() -> SessionConfig {
    SessionConfig {
        send_proxy: false,
        proxy_header: Vec::new(),
        tls: false,
        transcript: Vec::new(),
        alpn_h2: false,
        h2_allowed: false,
    }
}

fn new_session(config: SessionConfig, fresh: &mut TokenSource) -> Session {
    let front = Socket::new(fresh.fresh_token());
    let back = Socket::new(fresh.fresh_token());
    Session::new(front, back, config, fresh)
}

#[test]
fn plaintext_listener_starts_in_http() {
    let mut fresh = TokenSource::new();
    let s = new_session(plain_config(), &mut fresh);
    assert!(matches!(s.state, SessionState::Http(_)));
}

#[test]
fn plaintext_full_exchange_then_close() {
    let mut fresh = TokenSource::new();
    let mut s = new_session(plain_config(), &mut fresh);
    let front_token = match &s.state {
        SessionState::Http(h) => h.res.front.token,
        _ => panic!("expected the HTTP phase"),
    };

    // a fully-buffered request is forwarded to the backend
    match &mut s.state {
        SessionState::Http(h) => {
            h.res.front.incoming = b"GET / HTTP/1.1\r\n\r\n".to_vec();
        },
        _ => panic!("expected the HTTP phase"),
    }
    s.state.update_readiness(front_token, readable());
    let (mut s, closed) = s.ready(&mut fresh);
    assert!(!closed);
    match &s.state {
        SessionState::Http(h) => {
            assert_eq!(h.res.back.outgoing, b"GET / HTTP/1.1\r\n\r\n".to_vec());
            assert_eq!(h.phase, HttpPhase::Response);
        },
        _ => panic!("expected the HTTP phase"),
    }

    // the backend's response is buffered for the client, and the session
    // keeps running until the response is flushed
    let back_token = match &mut s.state {
        SessionState::Http(h) => {
            h.res.back.incoming = b"HTTP/1.1 200 OK\r\n\r\n".to_vec();
            h.res.back.token
        },
        _ => panic!("expected the HTTP phase"),
    };
    s.state.update_readiness(back_token, readable());
    let (mut s, closed) = s.ready(&mut fresh);
    assert!(!closed);
    match &s.state {
        SessionState::Http(h) => {
            assert_eq!(h.res.front.outgoing, b"HTTP/1.1 200 OK\r\n\r\n".to_vec());
            assert_eq!(h.phase, HttpPhase::Flushed);
        },
        _ => panic!("expected the HTTP phase"),
    }

    // eighteen request bytes in and forwarded, nineteen response bytes
    // back and flushed
    assert_eq!(s.metrics.bytes_in, 18 + 19);
    assert_eq!(s.metrics.bytes_out, 18 + 19);

    // once the response went out, the connection closes
    let (s, closed) = s.ready(&mut fresh);
    assert!(closed);
    assert!(!match &s.state {
        SessionState::Http(h) => h.res.front.registered,
        _ => panic!("expected the HTTP phase"),
    });
    assert_eq!(s.metrics.close_reports, 1);
}

#[test]
fn tls_listener_valid_handshake_upgrades_to_http() {
    let mut fresh = TokenSource::new();
    let mut config = plain_config();
    config.tls = true;
    config.transcript = b"hello-tls".to_vec();
    let mut s = new_session(config, &mut fresh);
    assert!(matches!(s.state, SessionState::TlsHandshake(_)));

    let front_token = Token(0);
    match &mut s.state {
        SessionState::TlsHandshake(t) => {
            t.res.front.incoming = b"hello-tls".to_vec();
        },
        _ => panic!("expected the handshake phase"),
    }
    s.state.update_readiness(front_token, readable());
    let (s, closed) = s.ready(&mut fresh);
    assert!(!closed);
    match &s.state {
        SessionState::Http(h) => {
            // no carry-over: the handshake consumed exactly its bytes
            assert!(h.req.is_empty());
        },
        _ => panic!("expected the upgrade to HTTP"),
    }
}

#[test]
fn tls_listener_invalid_handshake_closes() {
    let mut fresh = TokenSource::new();
    let mut config = plain_config();
    config.tls = true;
    config.transcript = b"hello-tls".to_vec();
    let mut s = new_session(config, &mut fresh);

    match &mut s.state {
        SessionState::TlsHandshake(t) => {
            t.res.front.incoming = b"hellX".to_vec();
        },
        _ => panic!("expected the handshake phase"),
    }
    s.state.update_readiness(Token(0), readable());
    let (s, closed) = s.ready(&mut fresh);
    assert!(closed);
    assert_eq!(s.metrics.close_reports, 1);
}

#[test]
fn tls_listener_truncated_handshake_waits() {
    let mut fresh = TokenSource::new();
    let mut config = plain_config();
    config.tls = true;
    config.transcript = b"hello-tls".to_vec();
    let mut s = new_session(config, &mut fresh);

    match &mut s.state {
        SessionState::TlsHandshake(t) => {
            t.res.front.incoming = b"hel".to_vec();
        },
        _ => panic!("expected the handshake phase"),
    }
    s.state.update_readiness(Token(0), readable());
    let (s, closed) = s.ready(&mut fresh);
    assert!(!closed);
    match &s.state {
        SessionState::TlsHandshake(t) => {
            assert_eq!(t.expected, b"lo-tls".to_vec());
        },
        _ => panic!("expected the handshake phase to continue"),
    }

    // the rest of the handshake arrives later and completes it
    let mut s = s;
    match &mut s.state {
        SessionState::TlsHandshake(t) => {
            t.res.front.incoming = b"lo-tls".to_vec();
        },
        _ => panic!("expected the handshake phase"),
    }
    s.state.update_readiness(Token(0), readable());
    let (s, closed) = s.ready(&mut fresh);
    assert!(!closed);
    assert!(matches!(s.state, SessionState::Http(_)));
}

#[test]
fn response_head_may_arrive_in_pieces() {
    let mut fresh = TokenSource::new();
    let mut s = new_session(plain_config(), &mut fresh);
    match &mut s.state {
        SessionState::Http(h) => {
            h.res.front.incoming = b"GET / HTTP/1.1\r\n\r\n".to_vec();
        },
        _ => panic!("expected the HTTP phase"),
    }
    s.state.update_readiness(Token(0), readable());
    let (mut s, _) = s.ready(&mut fresh);

    match &mut s.state {
        SessionState::Http(h) => {
            h.res.back.incoming = b"HTTP/1.1 200".to_vec();
        },
        _ => panic!("expected the HTTP phase"),
    }
    s.state.update_readiness(Token(1), readable());
    let (mut s, closed) = s.ready(&mut fresh);
    assert!(!closed);
    match &s.state {
        SessionState::Http(h) => {
            assert_eq!(h.resp, b"HTTP/1.1 200".to_vec());
            assert_eq!(h.phase, HttpPhase::Response);
            assert!(h.res.front.outgoing.is_empty());
        },
        _ => panic!("expected the HTTP phase"),
    }

    match &mut s.state {
        SessionState::Http(h) => {
            h.res.back.incoming = b" OK\r\n\r\n".to_vec();
        },
        _ => panic!("expected the HTTP phase"),
    }
    s.state.update_readiness(Token(1), readable());
    let (s, closed) = s.ready(&mut fresh);
    assert!(!closed);
    match &s.state {
        SessionState::Http(h) => {
            assert_eq!(h.res.front.outgoing, b"HTTP/1.1 200 OK\r\n\r\n".to_vec());
            assert_eq!(h.phase, HttpPhase::Flushed);
        },
        _ => panic!("expected the HTTP phase"),
    }
}

#[test]
fn tls_carry_over_reaches_http_input() {
    let mut fresh = TokenSource::new();
    let mut config = plain_config();
    config.tls = true;
    config.transcript = b"hs".to_vec();
    let mut s = new_session(config, &mut fresh);

    match &mut s.state {
        SessionState::TlsHandshake(t) => {
            t.res.front.incoming = b"hsGET".to_vec();
        },
        _ => panic!("expected the handshake phase"),
    }
    s.state.update_readiness(Token(0), readable());
    let (s, closed) = s.ready(&mut fresh);
    assert!(!closed);
    match &s.state {
        SessionState::Http(h) => {
            assert_eq!(h.req, b"GET".to_vec());
        },
        _ => panic!("expected the upgrade to HTTP"),
    }
}

#[test]
fn proxy_protocol_then_tls_then_http() {
    let mut fresh = TokenSource::new();
    let mut config = plain_config();
    config.send_proxy = true;
    config.proxy_header = b"PROXY TCP4\r\n".to_vec();
    config.tls = true;
    config.transcript = b"hs".to_vec();
    let mut s = new_session(config, &mut fresh);
    assert!(matches!(s.state, SessionState::SendProxyProtocol(_)));

    // the backend becomes writable: the preamble goes out whole and the
    // session upgrades to the handshake with no carry-over
    s.state.update_readiness(Token(1), writable());
    let (mut s, closed) = s.ready(&mut fresh);
    assert!(!closed);
    match &s.state {
        SessionState::TlsHandshake(t) => {
            assert_eq!(t.res.back.outgoing, b"PROXY TCP4\r\n".to_vec());
            assert_eq!(t.expected, b"hs".to_vec());
        },
        _ => panic!("expected the upgrade to the handshake"),
    }

    // then the handshake completes as on any TLS listener
    match &mut s.state {
        SessionState::TlsHandshake(t) => {
            t.res.front.incoming = b"hs".to_vec();
        },
        _ => panic!("expected the handshake phase"),
    }
    s.state.update_readiness(Token(0), readable());
    let (s, closed) = s.ready(&mut fresh);
    assert!(!closed);
    assert!(matches!(s.state, SessionState::Http(_)));
}

#[test]
fn alpn_selects_h2_after_handshake() {
    let mut fresh = TokenSource::new();
    let mut config = plain_config();
    config.tls = true;
    config.transcript = b"hs".to_vec();
    config.alpn_h2 = true;
    let mut s = new_session(config, &mut fresh);

    match &mut s.state {
        SessionState::TlsHandshake(t) => {
            t.res.front.incoming = b"hsPRI".to_vec();
        },
        _ => panic!("expected the handshake phase"),
    }
    s.state.update_readiness(Token(0), readable());
    let (s, closed) = s.ready(&mut fresh);
    assert!(!closed);
    match &s.state {
        SessionState::H2(x) => {
            assert_eq!(x.front_frames, b"PRI".to_vec());
        },
        _ => panic!("expected the upgrade to HTTP/2"),
    }
}

#[test]
fn http_upgrades_to_pipe_and_forwards_carry_first() {
    let mut fresh = TokenSource::new();
    let mut s = new_session(plain_config(), &mut fresh);

    match &mut s.state {
        SessionState::Http(h) => {
            h.res.front.incoming = b"CONNECT x:443 HTTP/1.1\r\n\r\n".to_vec();
        },
        _ => panic!("expected the HTTP phase"),
    }
    s.state.update_readiness(Token(0), readable());
    let (mut s, closed) = s.ready(&mut fresh);
    assert!(!closed);

    // the backend answers with a protocol switch followed by tunneled
    // bytes that arrived in the same read
    match &mut s.state {
        SessionState::Http(h) => {
            h.res.back.incoming = b"HTTP/1.1 101 Switching\r\n\r\ntunnel-data".to_vec();
        },
        _ => panic!("expected the HTTP phase"),
    }
    s.state.update_readiness(Token(1), readable());
    let (s, closed) = s.ready(&mut fresh);
    assert!(!closed);
    match &s.state {
        SessionState::Pipe(p) => {
            // the switch head went out, then exactly the carried-over
            // bytes, before anything else was read from either socket
            assert_eq!(
                p.res.front.outgoing,
                b"HTTP/1.1 101 Switching\r\n\r\ntunnel-data".to_vec()
            );
            assert!(p.carry.is_empty());
        },
        _ => panic!("expected the upgrade to the tunnel"),
    }
}

#[test]
fn pipe_copies_both_directions() {
    let mut fresh = TokenSource::new();
    let mut s = new_session(plain_config(), &mut fresh);
    // reach the tunnel through the protocol switch
    match &mut s.state {
        SessionState::Http(h) => {
            h.res.front.incoming = b"CONNECT x HTTP/1.1\r\n\r\n".to_vec();
        },
        _ => panic!("expected the HTTP phase"),
    }
    s.state.update_readiness(Token(0), readable());
    let (mut s, _) = s.ready(&mut fresh);
    match &mut s.state {
        SessionState::Http(h) => {
            h.res.back.incoming = b"HTTP/1.1 101 ok\r\n\r\n".to_vec();
        },
        _ => panic!("expected the HTTP phase"),
    }
    s.state.update_readiness(Token(1), readable());
    let (mut s, _) = s.ready(&mut fresh);
    let (front_sent, back_sent) = match &s.state {
        SessionState::Pipe(p) => (p.res.front.outgoing.clone(), p.res.back.outgoing.clone()),
        _ => panic!("expected the tunnel"),
    };

    match &mut s.state {
        SessionState::Pipe(p) => {
            p.res.front.incoming = b"up".to_vec();
            p.res.back.incoming = b"down".to_vec();
        },
        _ => panic!("expected the tunnel"),
    }
    s.state.update_readiness(Token(0), readable());
    s.state.update_readiness(Token(1), readable());
    let (s, closed) = s.ready(&mut fresh);
    assert!(!closed);
    match &s.state {
        SessionState::Pipe(p) => {
            let mut expected_back = back_sent;
            expected_back.extend_from_slice(b"up");
            assert_eq!(p.res.back.outgoing, expected_back);
            let mut expected_front = front_sent;
            expected_front.extend_from_slice(b"down");
            assert_eq!(p.res.front.outgoing, expected_front);
        },
        _ => panic!("expected the tunnel"),
    }
}

#[test]
fn h2_preface_upgrades_in_place_when_allowed() {
    let mut fresh = TokenSource::new();
    let mut config = plain_config();
    config.h2_allowed = true;
    let mut s = new_session(config, &mut fresh);

    match &mut s.state {
        SessionState::Http(h) => {
            h.res.front.incoming = b"PRI * HTTP/2.0\r\n\r\nSM\r\n\r\n".to_vec();
        },
        _ => panic!("expected the HTTP phase"),
    }
    s.state.update_readiness(Token(0), readable());
    let (s, closed) = s.ready(&mut fresh);
    assert!(!closed);
    match &s.state {
        SessionState::H2(x) => {
            assert_eq!(x.front_frames, b"PRI * HTTP/2.0\r\n\r\nSM\r\n\r\n".to_vec());
        },
        _ => panic!("expected the upgrade to HTTP/2"),
    }
}

#[test]
fn h2_preface_closes_when_not_allowed() {
    let mut fresh = TokenSource::new();
    let mut s = new_session(plain_config(), &mut fresh);
    match &mut s.state {
        SessionState::Http(h) => {
            h.res.front.incoming = b"PRI * HTTP/2.0\r\n\r\nSM\r\n\r\n".to_vec();
        },
        _ => panic!("expected the HTTP phase"),
    }
    s.state.update_readiness(Token(0), readable());
    let (_, closed) = s.ready(&mut fresh);
    assert!(closed);
}

#[test]
fn two_events_before_scheduling_are_both_seen() {
    let mut fresh = TokenSource::new();
    let mut s = new_session(plain_config(), &mut fresh);
    s.state.update_readiness(Token(0), readable());
    s.state.update_readiness(Token(0), writable());
    match &s.state {
        SessionState::Http(h) => {
            assert!(h.res.front.readiness.readable);
            assert!(h.res.front.readiness.writable);
        },
        _ => panic!("expected the HTTP phase"),
    }
}

#[test]
fn shutting_down_waits_for_response_in_flight() {
    let mut fresh = TokenSource::new();
    let mut s = new_session(plain_config(), &mut fresh);
    // before any work, the session may close right away
    assert!(s.state.shutting_down());

    match &mut s.state {
        SessionState::Http(h) => {
            h.res.front.incoming = b"GET / HTTP/1.1\r\n\r\n".to_vec();
        },
        _ => panic!("expected the HTTP phase"),
    }
    s.state.update_readiness(Token(0), readable());
    let (mut s, _) = s.ready(&mut fresh);
    // the response is now in flight: a graceful shutdown must wait
    assert!(!s.state.shutting_down());

    match &mut s.state {
        SessionState::Http(h) => {
            h.res.back.incoming = b"HTTP/1.1 200 OK\r\n\r\n".to_vec();
        },
        _ => panic!("expected the HTTP phase"),
    }
    s.state.update_readiness(Token(1), readable());
    let (mut s, closed) = s.ready(&mut fresh);
    assert!(!closed);
    // the response went out in full: the shutdown may now proceed
    assert!(s.state.shutting_down());
}

#[test]
fn stale_timeout_after_upgrade_does_not_touch_new_state() {
    let mut fresh = TokenSource::new();
    let mut config = plain_config();
    config.tls = true;
    config.transcript = b"hs".to_vec();
    let mut s = new_session(config, &mut fresh);
    let old_timer = match &s.state {
        SessionState::TlsHandshake(t) => t.res.timeouts.front.unwrap(),
        _ => panic!("expected the handshake phase"),
    };

    match &mut s.state {
        SessionState::TlsHandshake(t) => {
            t.res.front.incoming = b"hs".to_vec();
        },
        _ => panic!("expected the handshake phase"),
    }
    s.state.update_readiness(Token(0), readable());
    let (mut s, _) = s.ready(&mut fresh);
    assert!(matches!(s.state, SessionState::Http(_)));

    // the old variant's timer fires late: it is ignored and nothing moves
    let mut m = SessionMetrics::new();
    let r = s.state.timeout(old_timer, &mut m);
    assert_eq!(r, StateResult::Continue);
    assert_eq!(m.timeouts_fired, 0);
    match &s.state {
        SessionState::Http(h) => {
            assert!(h.res.timeouts.front.is_some());
            assert_ne!(h.res.timeouts.front.unwrap(), old_timer);
        },
        _ => panic!("expected the HTTP phase"),
    }
}

#[test]
fn session_close_is_reported_once() {
    let mut fresh = TokenSource::new();
    let mut s = new_session(plain_config(), &mut fresh);
    let mut m = SessionMetrics::new();
    s.state.close(&mut m);
    s.state.close(&mut m);
    assert_eq!(m.close_reports, 1);
}

#[test]
fn peer_failure_closes_the_session() {
    let mut fresh = TokenSource::new();
    let mut s = new_session(plain_config(), &mut fresh);
    s.state.update_readiness(
        Token(0),
        Ready { readable: false, writable: false, error: true, hangup: false },
    );
    let (s, closed) = s.ready(&mut fresh);
    assert!(closed);
    assert_eq!(s.metrics.close_reports, 1);
}

#[test]
fn forward_only_phase_order() {
    let mut fresh = TokenSource::new();
    let mut config = plain_config();
    config.send_proxy = true;
    config.proxy_header = b"P\r\n".to_vec();
    let mut s = new_session(config, &mut fresh);
    s.state.update_readiness(Token(1), writable());
    let (s, closed) = s.ready(&mut fresh);
    // with neither TLS nor a preface left, the session lands in HTTP and
    // never revisits an earlier phase
    assert!(!closed);
    assert!(matches!(s.state, SessionState::Http(_)));
}

#[test]
fn upgrade_result_names_the_selected_variant() {
    let mut fresh = TokenSource::new();
    let mut s = new_session(plain_config(), &mut fresh);
    match &mut s.state {
        SessionState::Http(h) => {
            h.res.front.incoming = b"GET / HTTP/1.1\r\n\r\n".to_vec();
            h.res.front.readiness.merge(Ready {
                readable: true,
                writable: false,
                error: false,
                hangup: false,
            });
            h.res.back.incoming = b"HTTP/1.1 101 s\r\n\r\nrest".to_vec();
        },
        _ => panic!("expected the HTTP phase"),
    }
    let mut m = SessionMetrics::new();
    let r = s.state.ready(&mut m);
    assert!(matches!(r, SessionResult::Continue));
    s.state.update_readiness(Token(1), readable());
    let r = s.state.ready(&mut m);
    match r {
        SessionResult::UpgradeTo(kind, carry) => {
            assert_eq!(kind, StateKind::Pipe);
            assert_eq!(carry, b"rest".to_vec());
        },
        _ => panic!("expected an upgrade request"),
    }
}
