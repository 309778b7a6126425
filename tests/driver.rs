use heapless::{FnvIndexMap, String};
use notecard::buffer::BUF_SIZE;
use notecard::hub::{HubGet, HubMode, HubSet};
use notecard::receive::RxNext;
use notecard::reset::ResetNext;
use notecard::{Config, Error, Notecard};

#[test]
fn default_config() {
    let c = Config::default();
    assert_eq!(c.response_timeout, 5000);
    assert_eq!(c.transaction_retry, 5);
    assert_eq!(c.chunk_delay, 20);
    assert_eq!(c.segment_delay, 250);
    assert_eq!(Notecard::new(1u8, 2u8).config(), c);
}

#[test]
fn hub_request_defaults() {
    assert_eq!(HubGet::default().req, "hub.get");
    let s = HubSet::default();
    assert_eq!(s.req, "hub.set");
    assert!(s.product.is_none() && s.host.is_none() && s.mode.is_none() && s.sn.is_none());
    assert!(s.outbound.is_none() && s.duration.is_none() && s.voutbound.is_none());
    assert!(s.inbound.is_none() && s.vinbound.is_none() && s.align.is_none() && s.sync.is_none());
    assert_ne!(HubMode::Periodic, HubMode::DFU);
}

#[test]
fn transaction_round_trip() {
    let mut nc = Notecard::new((), ());
    let (_, next) = nc.begin_reset();
    assert_eq!(next, ResetNext::Attempt);
    assert_eq!(nc.finish_reset(ResetNext::Synced), Ok(()));

    let mut fields: FnvIndexMap<String<8>, String<16>, 4> = FnvIndexMap::new();
    fields.insert(String::try_from("req").unwrap(), String::try_from("hub.get").unwrap()).unwrap();
    let mut encoded = [0u8; 64];
    let n = serde_json_core::to_slice(&fields, &mut encoded).unwrap();
    let request = &encoded[..n];
    assert_eq!(request, b"{\"req\":\"hub.get\"}");
    assert_eq!(nc.load_request(Some(request)), Ok(()));
    assert_eq!(nc.buffer(), b"{\"req\":\"hub.get\"}\n");
    let segments = nc.plan_send().unwrap();
    assert_eq!(segments, vec![(0, 18)]);

    let mut st = nc.begin_receive();
    assert!(nc.buffer().is_empty());
    assert_eq!(nc.receive_chunk(&mut st, b""), Ok(RxNext::Idle));
    assert_eq!(nc.receive_chunk(&mut st, b"{\"device\":"), Ok(RxNext::More));
    assert_eq!(nc.receive_chunk(&mut st, b"\"dev:1\"}\r\n"), Ok(RxNext::Complete));
    assert_eq!(nc.buffer(), b"{\"device\":\"dev:1\"}\r\n");
    assert!(!nc.reset_required());

    let (result, _): (FnvIndexMap<String<16>, String<16>, 4>, usize) =
        serde_json_core::from_slice(nc.buffer()).unwrap();
    assert_eq!(result.len(), 1);
    let key: String<16> = String::try_from("device").unwrap();
    assert_eq!(result.get(&key).map(|s| s.as_str()), Some("dev:1"));
}

#[test]
fn flags_are_cumulative_across_reads() {
    let mut nc = Notecard::new((), ());
    let mut st = nc.begin_receive();
    assert_eq!(nc.receive_chunk(&mut st, b"{\r"), Ok(RxNext::More));
    assert!(st.got_carriage && !st.got_newline);
    assert_eq!(nc.receive_chunk(&mut st, b"}"), Ok(RxNext::More));
    assert_eq!(nc.receive_chunk(&mut st, b"\nrest"), Ok(RxNext::Complete));
    assert_eq!(nc.buffer(), b"{\r}\nrest");
}

#[test]
fn receive_overflow_is_a_capacity_error() {
    let mut nc = Notecard::new((), ());
    let mut st = nc.begin_receive();
    let big = vec![b'a'; BUF_SIZE - 1];
    assert_eq!(nc.receive_chunk(&mut st, &big), Ok(RxNext::More));
    assert_eq!(nc.receive_chunk(&mut st, b"bc"), Err(Error::BufOverflow));
    assert_eq!(nc.buffer().len(), BUF_SIZE - 1);
    assert_eq!(nc.receive_chunk(&mut st, b"b"), Ok(RxNext::More));
    assert_eq!(nc.buffer().len(), BUF_SIZE);
}

#[test]
fn request_must_fit_with_its_newline() {
    let mut nc = Notecard::new((), ());
    assert_eq!(nc.load_request(None), Err(Error::SerError));
    assert!(nc.buffer().is_empty());
    let full = vec![b'a'; BUF_SIZE];
    assert_eq!(nc.load_request(Some(&full)), Err(Error::SerError));
    assert!(nc.buffer().is_empty());
    let fits = vec![b'a'; BUF_SIZE - 1];
    assert_eq!(nc.load_request(Some(&fits)), Ok(()));
    assert_eq!(nc.buffer().len(), BUF_SIZE);
    assert_eq!(nc.buffer()[BUF_SIZE - 1], b'\n');
}

#[test]
fn loading_clears_previous_request() {
    let mut nc = Notecard::new((), ());
    assert_eq!(nc.load_request(Some(b"{\"a\":1}")), Ok(()));
    assert_eq!(nc.load_request(Some(b"{}")), Ok(()));
    assert_eq!(nc.buffer(), b"{}\n");
}

#[test]
fn suspend_resume_keeps_config_and_flag() {
    let config = Config { response_timeout: 1, transaction_retry: 2, chunk_delay: 3, segment_delay: 4 };
    let mut nc = Notecard::new_with_config(7u32, 9u8, config);
    assert_eq!(nc.finish_reset(ResetNext::Synced), Ok(()));
    assert_eq!(nc.load_request(Some(b"{}")), Ok(()));
    let (iface, state) = nc.suspend();
    assert_eq!(iface, 7);
    assert_eq!(state.config(), config);
    assert!(!state.reset_required());
    let back = Notecard::resume(8u32, 9u8, state);
    assert_eq!(back.interface, 8);
    assert_eq!(back.config(), config);
    assert!(!back.reset_required());
    assert!(back.buffer().is_empty());

    let mut fresh = Notecard::new(1u8, 1u8);
    fresh.require_reset();
    let (_, state) = fresh.suspend();
    assert!(state.reset_required());
    assert!(Notecard::resume(2u8, 2u8, state).reset_required());
}

#[test]
fn failed_reset_keeps_flag() {
    let mut nc = Notecard::new((), ());
    assert_eq!(nc.finish_reset(ResetNext::GaveUp), Err(Error::TimeOut));
    assert!(nc.reset_required());
}
