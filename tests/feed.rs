use price_feed::admission::{Acquire, Admission, Permit};
use price_feed::broadcast::{Broadcaster, Recv};
use price_feed::cache::LatestValueCache;
use price_feed::handler::{step, Action, Event, Phase};
use price_feed::hub::Hub;
use price_feed::line::{
    decimal_bytes, hundredths_bytes, make_error_line, make_parse_error_line,
    make_placeholder_line, make_quote_line, make_synthetic_line,
};
use price_feed::source::{
    make_outcome_line, next_synthetic_line, produce_from_fetch, produce_synthetic, FetchOutcome,
};

fn b(s: &str) -> Vec<u8> {
    s.as_bytes().to_vec()
}

fn text(v: &[u8]) -> String {
    String::from_utf8(v.to_vec()).unwrap()
}

fn granted(a: Acquire) -> Permit {
    match a {
        Acquire::Granted(p) => p,
        Acquire::Full => panic!("expected a permit, got Full"),
        Acquire::ShuttingDown => panic!("expected a permit, got ShuttingDown"),
    }
}

fn value(r: Recv) -> String {
    match r {
        Recv::Value(v) => text(&v),
        Recv::Lagged(n) => panic!("expected a value, got Lagged({})", n),
        Recv::Empty => panic!("expected a value, got Empty"),
        Recv::Closed => panic!("expected a value, got Closed"),
    }
}

#[test]
fn decimal_formats() {
    assert_eq!(text(&decimal_bytes(0)), "0");
    assert_eq!(text(&decimal_bytes(7)), "7");
    assert_eq!(text(&decimal_bytes(1024)), "1024");
    assert_eq!(text(&decimal_bytes(u64::MAX)), "18446744073709551615");
}

#[test]
fn hundredths_formats() {
    assert_eq!(text(&hundredths_bytes(10000)), "100.00");
    assert_eq!(text(&hundredths_bytes(10100)), "101.00");
    assert_eq!(text(&hundredths_bytes(12345)), "123.45");
    assert_eq!(text(&hundredths_bytes(5)), "0.05");
    assert_eq!(text(&hundredths_bytes(19999)), "199.99");
}

#[test]
fn line_formats() {
    assert_eq!(text(&make_error_line(&b("timeout"))), "Error fetching price: timeout\n");
    assert_eq!(text(&make_quote_line(&b("AAPL"), &b("187.5"))), "Stock price (AAPL): 187.5\n");
    assert_eq!(
        text(&make_parse_error_line(&b("AAPL"), &b("missing field `c`"))),
        "Stock price (AAPL): Parse Error - missing field `c`\n"
    );
    assert_eq!(text(&make_placeholder_line(&b("AAPL"))), "Stock Price (AAPL): Initializing\n");
    assert_eq!(text(&make_synthetic_line(15025)), "Stock Price: 150.25\n");
}

#[test]
fn outcome_lines() {
    let sym = b("MSFT");
    let q = FetchOutcome::Quote { price: b("410.1") };
    let u = FetchOutcome::Unreadable { reason: b("bad json") };
    let f = FetchOutcome::Failed { reason: b("connection refused") };
    assert_eq!(text(&make_outcome_line(&sym, &q)), "Stock price (MSFT): 410.1\n");
    assert_eq!(text(&make_outcome_line(&sym, &u)), "Stock price (MSFT): Parse Error - bad json\n");
    assert_eq!(text(&make_outcome_line(&sym, &f)), "Error fetching price: connection refused\n");
}

#[test]
fn synthetic_lines_in_range_and_varied() {
    let mut seen = Vec::new();
    for _ in 0..50 {
        let line = text(&next_synthetic_line());
        assert!(line.starts_with("Stock Price: "));
        assert!(line.ends_with('\n'));
        let price = &line["Stock Price: ".len()..line.len() - 1];
        let (whole, frac) = price.split_once('.').unwrap();
        assert_eq!(frac.len(), 2);
        let cents: u64 = whole.parse::<u64>().unwrap() * 100 + frac.parse::<u64>().unwrap();
        assert!((10000..20000).contains(&cents));
        seen.push(cents);
    }
    assert!(seen.iter().any(|c| *c != seen[0]));
}

#[test]
fn server_sends_price_line() {
    let mut hub = Hub::new(1000, 16, &make_placeholder_line(&b("AAPL")));
    produce_synthetic(&mut hub);
    let _permit = granted(hub.try_acquire());
    let conn = hub.connect().unwrap();
    assert!(text(&conn.initial).contains("Stock Price:"), "Server should send stock price");
}

#[test]
fn cache_get_and_set() {
    let mut c = LatestValueCache::new();
    assert!(c.get().is_none());
    c.set(&b("a\n"));
    c.set(&b("b\n"));
    assert_eq!(c.get().unwrap(), b("b\n"));
}

#[test]
fn admission_capacity_bound() {
    let mut a = Admission::new(3);
    let permit_a = granted(a.try_acquire());
    let _permit_b = granted(a.try_acquire());
    let _permit_c = granted(a.try_acquire());
    assert!(matches!(a.try_acquire(), Acquire::Full));
    assert_eq!(a.active(), 3);
    assert_eq!(a.available(), 0);
    assert!(a.release(&permit_a));
    assert_eq!(a.available(), 1);
    let permit_d = granted(a.try_acquire());
    assert_ne!(permit_d.id(), permit_a.id());
    assert!(matches!(a.try_acquire(), Acquire::Full));
}

#[test]
fn admission_release_is_idempotent() {
    let mut a = Admission::new(1);
    let p = granted(a.try_acquire());
    assert!(a.release(&p));
    assert!(!a.release(&p));
    assert_eq!(a.active(), 0);
    let _q = granted(a.try_acquire());
    assert!(!a.release(&p));
    assert_eq!(a.active(), 1);
}

#[test]
fn admission_zero_capacity_is_full() {
    let mut a = Admission::new(0);
    assert!(matches!(a.try_acquire(), Acquire::Full));
}

#[test]
fn admission_shutdown() {
    let mut a = Admission::new(2);
    let p = granted(a.try_acquire());
    a.shutdown();
    assert!(matches!(a.try_acquire(), Acquire::ShuttingDown));
    assert!(a.release(&p));
    assert!(matches!(a.try_acquire(), Acquire::ShuttingDown));
}

#[test]
fn broadcast_fan_out_in_order() {
    let mut bc = Broadcaster::new(16);
    let x = bc.subscribe().unwrap();
    let y = bc.subscribe().unwrap();
    assert_ne!(x, y);
    for l in ["1\n", "2\n", "3\n"] {
        bc.publish(&b(l));
    }
    assert_eq!(bc.published(), 3);
    for id in [x, y] {
        assert_eq!(value(bc.recv(id)), "1\n");
        assert_eq!(value(bc.recv(id)), "2\n");
        assert_eq!(value(bc.recv(id)), "3\n");
        assert!(matches!(bc.recv(id), Recv::Empty));
    }
}

#[test]
fn broadcast_late_subscriber_sees_only_later_lines() {
    let mut bc = Broadcaster::new(4);
    bc.publish(&b("old\n"));
    let s = bc.subscribe().unwrap();
    assert!(matches!(bc.recv(s), Recv::Empty));
    bc.publish(&b("new\n"));
    assert_eq!(value(bc.recv(s)), "new\n");
}

#[test]
fn broadcast_slow_subscriber_lags() {
    let mut bc = Broadcaster::new(2);
    let slow = bc.subscribe().unwrap();
    let fast = bc.subscribe().unwrap();
    for i in 0..5u64 {
        bc.publish(&format!("{}\n", i).into_bytes());
        assert_eq!(value(bc.recv(fast)), format!("{}\n", i));
    }
    match bc.recv(slow) {
        Recv::Lagged(n) => assert_eq!(n, 3),
        _ => panic!("expected Lagged"),
    }
    assert_eq!(value(bc.recv(slow)), "3\n");
    assert_eq!(value(bc.recv(slow)), "4\n");
    assert!(matches!(bc.recv(slow), Recv::Empty));
}

#[test]
fn broadcast_unsubscribe_and_slot_reuse() {
    let mut bc = Broadcaster::new(2);
    let s = bc.subscribe().unwrap();
    bc.unsubscribe(s);
    assert!(matches!(bc.recv(s), Recv::Closed));
    assert!(matches!(bc.recv(99), Recv::Closed));
    let t = bc.subscribe().unwrap();
    assert_eq!(t, s);
    bc.publish(&b("x\n"));
    assert_eq!(value(bc.recv(t)), "x\n");
}

#[test]
fn hub_initial_line_is_placeholder_then_cache() {
    let mut hub = Hub::new(4, 8, &b("Stock Price (AAPL): Initializing\n"));
    let c1 = hub.connect().unwrap();
    assert_eq!(text(&c1.initial), "Stock Price (AAPL): Initializing\n");
    hub.update(&b("v1\n"));
    hub.update(&b("v2\n"));
    let c2 = hub.connect().unwrap();
    assert_eq!(text(&c2.initial), "v2\n");
    assert!(matches!(hub.recv(c2.id), Recv::Empty));
    assert_eq!(value(hub.recv(c1.id)), "v1\n");
    hub.update(&b("v3\n"));
    assert_eq!(value(hub.recv(c2.id)), "v3\n");
    assert_eq!(hub.published(), 3);
}

#[test]
fn end_to_end_capacity_two() {
    let mut hub = Hub::new(2, 16, &make_placeholder_line(&b("AAPL")));
    let permit_a = granted(hub.try_acquire());
    let c1 = hub.connect().unwrap();
    let permit_b = granted(hub.try_acquire());
    let c2 = hub.connect().unwrap();
    assert!(matches!(hub.try_acquire(), Acquire::Full));
    hub.update(&make_synthetic_line(10000));
    hub.update(&make_synthetic_line(10100));
    for id in [c1.id, c2.id] {
        assert_eq!(value(hub.recv(id)), "Stock Price: 100.00\n");
        assert_eq!(value(hub.recv(id)), "Stock Price: 101.00\n");
    }
    assert!(matches!(hub.try_acquire(), Acquire::Full));
    assert!(hub.disconnect(&permit_a, c1.id));
    assert!(matches!(hub.recv(c1.id), Recv::Closed));
    assert_eq!(hub.available(), 1);
    let _permit_c = granted(hub.try_acquire());
    let c3 = hub.connect().unwrap();
    assert_eq!(text(&c3.initial), "Stock Price: 101.00\n");
    assert!(matches!(hub.recv(c3.id), Recv::Empty));
    assert_eq!(hub.active(), 2);
    assert!(hub.disconnect(&permit_b, c2.id));
    assert!(!hub.disconnect(&permit_b, c2.id));
    assert_eq!(hub.active(), 1);
}

#[test]
fn fetch_failure_is_visible_and_admission_continues() {
    let mut hub = Hub::new(1, 4, &make_placeholder_line(&b("AAPL")));
    let p = granted(hub.try_acquire());
    let c = hub.connect().unwrap();
    produce_from_fetch(&mut hub, &b("AAPL"), &FetchOutcome::Failed { reason: b("dns error") });
    let line = value(hub.recv(c.id));
    assert_eq!(line, "Error fetching price: dns error\n");
    assert!(!line.starts_with("Stock"));
    assert!(hub.disconnect(&p, c.id));
    let _q = granted(hub.try_acquire());
    let c2 = hub.connect().unwrap();
    assert_eq!(text(&c2.initial), "Error fetching price: dns error\n");
    produce_from_fetch(&mut hub, &b("AAPL"), &FetchOutcome::Quote { price: b("190.2") });
    assert_eq!(value(hub.recv(c2.id)), "Stock price (AAPL): 190.2\n");
}

#[test]
fn hub_shutdown_refuses() {
    let mut hub = Hub::new(5, 4, &b("init\n"));
    let p = granted(hub.try_acquire());
    hub.shutdown();
    assert!(matches!(hub.try_acquire(), Acquire::ShuttingDown));
    assert!(hub.release(&p));
    assert_eq!(hub.permits_granted(), 1);
}

#[test]
fn handler_normal_run() {
    let (p, a) = step(Phase::Init, Event::Subscribed(b("hello\n")));
    assert_eq!(p, Phase::SendingInitial);
    assert!(matches!(a, Action::Send(ref l) if *l == b("hello\n")));
    let (p, a) = step(p, Event::Written);
    assert_eq!(p, Phase::Streaming);
    assert!(matches!(a, Action::Receive));
    let (p, a) = step(p, Event::Received(Recv::Empty));
    assert_eq!(p, Phase::Streaming);
    assert!(matches!(a, Action::Wait));
    let (p, a) = step(p, Event::Received(Recv::Lagged(4)));
    assert_eq!(p, Phase::Streaming);
    assert!(matches!(a, Action::Receive));
    let (p, a) = step(p, Event::Received(Recv::Value(b("v\n"))));
    assert_eq!(p, Phase::Streaming);
    assert!(matches!(a, Action::Send(ref l) if *l == b("v\n")));
    let (p, a) = step(p, Event::PeerClosed);
    assert_eq!(p, Phase::Closed);
    assert!(matches!(a, Action::Release));
    let (p, a) = step(p, Event::Written);
    assert_eq!(p, Phase::Closed);
    assert!(matches!(a, Action::Stop));
}

#[test]
fn handler_failures_release() {
    let (p, a) = step(Phase::SendingInitial, Event::WriteFailed);
    assert_eq!(p, Phase::Closed);
    assert!(matches!(a, Action::Release));
    let (p, a) = step(Phase::Init, Event::NoSlot);
    assert_eq!(p, Phase::Closed);
    assert!(matches!(a, Action::Release));
    let (p, a) = step(Phase::Streaming, Event::Received(Recv::Closed));
    assert_eq!(p, Phase::Closed);
    assert!(matches!(a, Action::Release));
    let (p, a) = step(Phase::Init, Event::Written);
    assert_eq!(p, Phase::Closed);
    assert!(matches!(a, Action::Release));
}

#[test]
fn broadcast_backlog_of_one() {
    let mut bc = Broadcaster::new(1);
    let s = bc.subscribe().unwrap();
    bc.publish(&b("a\n"));
    bc.publish(&b("b\n"));
    match bc.recv(s) {
        Recv::Lagged(n) => assert_eq!(n, 1),
        _ => panic!("expected Lagged"),
    }
    assert_eq!(value(bc.recv(s)), "b\n");
    assert!(matches!(bc.recv(s), Recv::Empty));
}

#[test]
fn broadcast_publish_without_subscribers() {
    let mut bc = Broadcaster::new(3);
    for i in 0..10u64 {
        bc.publish(&format!("{}\n", i).into_bytes());
    }
    assert_eq!(bc.published(), 10);
    let s = bc.subscribe().unwrap();
    bc.publish(&b("next\n"));
    assert_eq!(value(bc.recv(s)), "next\n");
}
