use notecard::config::CARD_RESET_DRAIN_DELAY_MS;
use notecard::reset::{AttemptVerdict, ReadOutcome, ResetAttempt, ResetNext};
use notecard::{Config, Error, Notecard};

fn config_with_retry(retry: usize) -> Config {
    Config { transaction_retry: retry, ..Config::default() }
}

/// Runs one attempt against a transport that answers `echo` to the newline,
/// then stays silent. Returns the verdict and the milliseconds waited.
fn run_attempt(write_ok: bool, echo: &[u8]) -> (ResetAttempt, u32) {
    let (mut attempt, mut waited) = ResetAttempt::start(write_ok);
    let mut i = 0;
    loop {
        let read = if i < echo.len() { ReadOutcome::Byte(echo[i]) } else { ReadOutcome::TimedOut };
        i += 1;
        match attempt.observe(read) {
            AttemptVerdict::Pending => continue,
            AttemptVerdict::TimedOut => {
                waited += CARD_RESET_DRAIN_DELAY_MS;
                break;
            }
            _ => break,
        }
    }
    (attempt, waited)
}

/// Runs a whole reset; returns its result, the attempts made and the time waited.
fn run_reset(nc: &mut Notecard<(), ()>, echo: &[u8]) -> (Result<(), Error>, usize, u32) {
    let (mut progress, mut next) = nc.begin_reset();
    let mut attempts = 0;
    let mut waited = 0;
    while next == ResetNext::Attempt {
        let (attempt, w) = run_attempt(true, echo);
        attempts += 1;
        waited += w;
        next = progress.record(&attempt);
    }
    (nc.finish_reset(next), attempts, waited)
}

#[test]
fn clean_echo_syncs_on_first_attempt() {
    let mut nc = Notecard::new((), ());
    assert!(nc.reset_required());
    let (r, attempts, waited) = run_reset(&mut nc, b"\r\n");
    assert_eq!(r, Ok(()));
    assert_eq!(attempts, 1);
    assert_eq!(waited, 0);
    assert!(!nc.reset_required());
}

#[test]
fn reversed_clean_echo_syncs() {
    let (attempt, _) = run_attempt(true, b"\n\r");
    assert_eq!(attempt.verdict(), AttemptVerdict::Clean);
}

#[test]
fn noisy_echo_times_out_after_every_attempt() {
    for retry in 0..7usize {
        let mut nc = Notecard::new_with_config((), (), config_with_retry(retry));
        let (r, attempts, _) = run_reset(&mut nc, b"x\r\n");
        assert_eq!(r, Err(Error::TimeOut));
        assert_eq!(attempts, retry);
        assert!(nc.reset_required());
    }
}

#[test]
fn silent_transport_times_out_after_drain_delays() {
    let mut nc = Notecard::new((), ());
    let (r, attempts, waited) = run_reset(&mut nc, b"");
    assert_eq!(r, Err(Error::TimeOut));
    assert_eq!(attempts, 5);
    assert_eq!(waited, 5 * 500);
}

#[test]
fn zero_retries_give_up_at_once() {
    let nc = Notecard::new_with_config((), (), config_with_retry(0));
    let (_, next) = nc.begin_reset();
    assert_eq!(next, ResetNext::GaveUp);
}

#[test]
fn failed_write_waits_a_drain_delay() {
    let (_, wait) = ResetAttempt::start(false);
    assert_eq!(wait, 500);
    let (_, wait) = ResetAttempt::start(true);
    assert_eq!(wait, 0);
}

#[test]
fn failed_read_counts_as_noise() {
    let (mut attempt, _) = ResetAttempt::start(true);
    assert_eq!(attempt.observe(ReadOutcome::Failed), AttemptVerdict::Pending);
    assert_eq!(attempt.observe(ReadOutcome::Byte(b'\r')), AttemptVerdict::Pending);
    assert_eq!(attempt.observe(ReadOutcome::Byte(b'\n')), AttemptVerdict::Noisy);
}

#[test]
fn noise_then_clean_attempt_syncs_on_second() {
    let mut nc = Notecard::new((), ());
    let (mut progress, next) = nc.begin_reset();
    assert_eq!(next, ResetNext::Attempt);
    let (noisy, _) = run_attempt(true, b"ab\r\n");
    assert_eq!(progress.record(&noisy), ResetNext::Attempt);
    let (clean, _) = run_attempt(true, b"\r\n");
    let next = progress.record(&clean);
    assert_eq!(next, ResetNext::Synced);
    assert_eq!(nc.finish_reset(next), Ok(()));
    assert!(!nc.reset_required());
}
