//! The driver: its configuration, its synchronization flag and its working
//! buffer, and the steps of a transaction. The caller performs the I/O that
//! each step asks for and hands back what happened.
use vstd::prelude::*;
use crate::buffer::{buf_as_slice, buf_clear, buf_extend, buf_new, buf_push, buffer_bytes, BUF_SIZE};
use crate::config::Config;
use crate::error::Error;
use crate::receive::{after_chunk, chunk_contains, rx_next, ReceiveState, RxNext};
use crate::reset::{reset_verdict, ResetNext, ResetProgress};
use crate::transmit::{is_request, plan_segments, segment_count, segment_spec};

verus! {

/// What a suspended driver keeps: its configuration and whether it must
/// resynchronize before the next transaction.
pub struct SuspendState {
    config: Config,
    reset_required: bool,
}

impl SuspendState {
    pub closed spec fn config_spec(&self) -> Config {
        self.config
    }

    pub closed spec fn reset_required_spec(&self) -> bool {
        self.reset_required
    }

    /// The configuration kept.
    pub fn config(&self) -> (r: Config)
        ensures
            r == self.config_spec(),
    {
        self.config
    }

    /// Whether a reset is required before the next transaction.
    pub fn reset_required(&self) -> (r: bool)
        ensures
            r == self.reset_required_spec(),
    {
        self.reset_required
    }
}

/// A driver bound to a transport `IFT` and a delay provider `D`.
pub struct Notecard<IFT, D> {
    pub interface: IFT,
    pub delay: D,
    config: Config,
    reset_required: bool,
    buffer: heapless::Vec<u8, 18432>,
}

impl<IFT, D> Notecard<IFT, D> {
    pub closed spec fn interface_spec(&self) -> IFT {
        self.interface
    }

    pub closed spec fn delay_spec(&self) -> D {
        self.delay
    }

    pub closed spec fn config_spec(&self) -> Config {
        self.config
    }

    pub closed spec fn reset_required_spec(&self) -> bool {
        self.reset_required
    }

    /// The bytes in the working buffer.
    pub closed spec fn bytes(&self) -> Seq<u8> {
        buffer_bytes(self.buffer)
    }

    /// The state that a suspend keeps.
    pub closed spec fn snapshot(&self) -> SuspendState {
        SuspendState { config: self.config, reset_required: self.reset_required }
    }

    /// Whether this driver is the one resumed from `state`: same configuration
    /// and flag, empty buffer.
    pub open spec fn is_resumed_from(&self, state: SuspendState) -> bool {
        &&& self.config_spec() == state.config_spec()
        &&& self.reset_required_spec() == state.reset_required_spec()
        &&& self.bytes() == Seq::<u8>::empty()
    }

    /// A driver with the default configuration.
    pub fn new(interface: IFT, delay: D) -> (r: Self)
        ensures
            r.interface_spec() == interface,
            r.delay_spec() == delay,
            r.config_spec() == (Config {
                response_timeout: 5000,
                transaction_retry: 5,
                chunk_delay: 20,
                segment_delay: 250,
            }),
            r.reset_required_spec(),
            r.bytes() == Seq::<u8>::empty(),
    {
        Self::new_with_config(interface, delay, Config::default())
    }

    /// A driver with the given configuration; it must synchronize before its
    /// first transaction.
    pub fn new_with_config(interface: IFT, delay: D, config: Config) -> (r: Self)
        ensures
            r.interface_spec() == interface,
            r.delay_spec() == delay,
            r.config_spec() == config,
            r.reset_required_spec(),
            r.bytes() == Seq::<u8>::empty(),
    {
        Notecard { interface, delay, config, reset_required: true, buffer: buf_new() }
    }

    /// Release the transport, keeping the configuration and the flag; the
    /// working buffer is dropped.
    pub fn suspend(self) -> (r: (IFT, SuspendState))
        ensures
            r.0 == self.interface_spec(),
            r.1 == self.snapshot(),
    {
        (self.interface, SuspendState { config: self.config, reset_required: self.reset_required })
    }

    /// Rebuild a driver from a suspended state, on a transport and a delay
    /// provider, with an empty working buffer.
    pub fn resume(interface: IFT, delay: D, state: SuspendState) -> (r: Self)
        ensures
            r.interface_spec() == interface,
            r.delay_spec() == delay,
            r.is_resumed_from(state),
    {
        Notecard {
            interface,
            delay,
            config: state.config,
            reset_required: state.reset_required,
            buffer: buf_new(),
        }
    }

    /// The configuration.
    pub fn config(&self) -> (r: Config)
        ensures
            r == self.config_spec(),
    {
        self.config
    }

    /// Whether a reset is required before the next transaction.
    pub fn reset_required(&self) -> (r: bool)
        ensures
            r == self.reset_required_spec(),
    {
        self.reset_required
    }

    /// Ask for a reset before the next transaction.
    pub fn require_reset(&mut self)
        ensures
            final(self).reset_required_spec(),
            final(self).config_spec() == old(self).config_spec(),
            final(self).bytes() == old(self).bytes(),
            final(self).interface_spec() == old(self).interface_spec(),
            final(self).delay_spec() == old(self).delay_spec(),
    {
        self.reset_required = true;
    }

    /// The bytes in the working buffer.
    pub fn buffer(&self) -> (r: &[u8])
        ensures
            r@ == self.bytes(),
    {
        buf_as_slice(&self.buffer)
    }

    /// Begin a reset with the configured number of attempts.
    pub fn begin_reset(&self) -> (r: (ResetProgress, ResetNext))
        ensures
            r.0.wf(),
            r.0.retry() == self.config_spec().transaction_retry,
            r.0.attempts() == Seq::<crate::reset::AttemptRecord>::empty(),
            r.1 == reset_verdict(self.config_spec().transaction_retry as nat, Seq::empty()),
    {
        ResetProgress::new(self.config.transaction_retry)
    }

    /// End a reset: on success the flag is cleared; when every attempt has
    /// been used, the reset fails with a timeout and the flag stays.
    pub fn finish_reset(&mut self, next: ResetNext) -> (r: Result<(), Error>)
        requires
            next != ResetNext::Attempt,
        ensures
            next == ResetNext::Synced ==> r is Ok && !final(self).reset_required_spec(),
            next == ResetNext::GaveUp ==> r == Err::<(), Error>(Error::TimeOut)
                && final(self).reset_required_spec() == old(self).reset_required_spec(),
            final(self).config_spec() == old(self).config_spec(),
            final(self).bytes() == old(self).bytes(),
            final(self).interface_spec() == old(self).interface_spec(),
            final(self).delay_spec() == old(self).delay_spec(),
    {
        match next {
            ResetNext::Synced => {
                self.reset_required = false;
                Ok(())
            },
            _ => Err(Error::TimeOut),
        }
    }

    /// Put an encoded request in the working buffer, followed by a newline.
    /// `None` stands for a request that could not be encoded. The request
    /// with its newline must fit in the buffer, or the error is a
    /// serialization error; the buffer is then left empty.
    pub fn load_request(&mut self, encoded: Option<&[u8]>) -> (r: Result<(), Error>)
        ensures
            r is Ok <==> (encoded matches Some(e) && e@.len() < BUF_SIZE),
            r is Ok ==> final(self).bytes() == encoded.unwrap()@.push(10u8),
            r is Err ==> r == Err::<(), Error>(Error::SerError) && final(self).bytes()
                == Seq::<u8>::empty(),
            final(self).config_spec() == old(self).config_spec(),
            final(self).reset_required_spec() == old(self).reset_required_spec(),
            final(self).interface_spec() == old(self).interface_spec(),
            final(self).delay_spec() == old(self).delay_spec(),
    {
        buf_clear(&mut self.buffer);
        match encoded {
            None => Err(Error::SerError),
            Some(e) => {
                if e.len() >= BUF_SIZE {
                    return Err(Error::SerError);
                }
                let x = buf_extend(&mut self.buffer, e);
                let y = buf_push(&mut self.buffer, 10u8);
                proof {
                    assert(x is Ok);
                    assert(y is Ok);
                }
                Ok(())
            },
        }
    }

    /// The segments to write the buffered request in, or an invalid-request
    /// error, with nothing to write, when the buffer does not end in a newline.
    pub fn plan_send(&self) -> (r: Result<Vec<(usize, usize)>, Error>)
        ensures
            !is_request(self.bytes()) ==> r == Err::<Vec<(usize, usize)>, Error>(
                Error::InvalidRequest,
            ),
            is_request(self.bytes()) ==> (r matches Ok(segs) && segs@.len() == segment_count(
                self.bytes().len(),
                240,
            ) && forall|i: int|
                0 <= i < segs@.len() ==> #[trigger] segs@[i] == segment_spec(
                    self.bytes().len(),
                    240,
                    i as nat,
                )),
    {
        plan_segments(buf_as_slice(&self.buffer))
    }

    /// Begin receiving a response: the buffer is emptied and no flag is set.
    pub fn begin_receive(&mut self) -> (r: ReceiveState)
        ensures
            !r.got_newline,
            !r.got_carriage,
            final(self).bytes() == Seq::<u8>::empty(),
            final(self).config_spec() == old(self).config_spec(),
            final(self).reset_required_spec() == old(self).reset_required_spec(),
            final(self).interface_spec() == old(self).interface_spec(),
            final(self).delay_spec() == old(self).delay_spec(),
    {
        buf_clear(&mut self.buffer);
        ReceiveState::new()
    }

    /// Take the bytes of one read. An empty read asks for a pause. Otherwise
    /// the bytes are appended to the buffer, or, when they do not fit, the
    /// receive fails with a capacity error and the buffer is kept as it was.
    /// The response is complete once a line feed and a carriage return have
    /// both been read.
    pub fn receive_chunk(&mut self, st: &mut ReceiveState, chunk: &[u8]) -> (r: Result<RxNext, Error>)
        ensures
            chunk@.len() == 0 ==> (r == Ok::<RxNext, Error>(RxNext::Idle) && *final(st) == *old(st)
                && final(self).bytes() == old(self).bytes()),
            chunk@.len() > 0 && old(self).bytes().len() + chunk@.len() > BUF_SIZE ==> (r
                == Err::<RxNext, Error>(Error::BufOverflow) && *final(st) == *old(st)
                && final(self).bytes() == old(self).bytes()),
            chunk@.len() > 0 && old(self).bytes().len() + chunk@.len() <= BUF_SIZE ==> (r
                == Ok::<RxNext, Error>(rx_next(after_chunk(*old(st), chunk@))) && *final(st)
                == after_chunk(*old(st), chunk@) && final(self).bytes() == old(self).bytes()
                + chunk@),
            final(self).config_spec() == old(self).config_spec(),
            final(self).reset_required_spec() == old(self).reset_required_spec(),
            final(self).interface_spec() == old(self).interface_spec(),
            final(self).delay_spec() == old(self).delay_spec(),
    {
        if chunk.len() == 0 {
            return Ok(RxNext::Idle);
        }
        if buf_extend(&mut self.buffer, chunk).is_err() {
            return Err(Error::BufOverflow);
        }
        if chunk_contains(chunk, 10u8) {
            st.got_newline = true;
        }
        if chunk_contains(chunk, 13u8) {
            st.got_carriage = true;
        }
        if st.got_newline && st.got_carriage {
            Ok(RxNext::Complete)
        } else {
            Ok(RxNext::More)
        }
    }
}

/// Suspending a driver and resuming from what the suspend returned gives a
/// driver with the same configuration and the same synchronization flag, and
/// an empty working buffer whatever the first one held.
pub proof fn lemma_suspend_resume<IFT, D>(
    before: Notecard<IFT, D>,
    state: SuspendState,
    after: Notecard<IFT, D>,
)
    requires
        state == before.snapshot(),
        after.is_resumed_from(state),
    ensures
        after.config_spec() == before.config_spec(),
        after.reset_required_spec() == before.reset_required_spec(),
        after.bytes() == Seq::<u8>::empty(),
{
}

} // verus!
