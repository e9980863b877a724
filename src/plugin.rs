//! Hosting of an effect plugin behind a dedicated worker. The real-time caller
//! hands a frame to the worker over a request channel of capacity one and waits
//! a bounded time for the answer; every failure is a passthrough.
use vstd::prelude::*;
use crossbeam_channel::{Receiver, Sender};

verus! {

#[verifier::external_type_specification]
#[verifier::external_body]
#[verifier::reject_recursive_types(T)]
pub struct ExSender<T>(crossbeam_channel::Sender<T>);

#[verifier::external_type_specification]
#[verifier::external_body]
#[verifier::reject_recursive_types(T)]
pub struct ExReceiver<T>(crossbeam_channel::Receiver<T>);

/// Longest wait for a worker's answer, in milliseconds.
pub const PLUGIN_TIMEOUT_MS: u64 = 10;

/// Capacity of the request channel: one frame in flight at a time.
pub const REQUEST_CAPACITY: usize = 1;

/// A frame for the worker, with the channel on which to answer.
pub type PluginRequest<T> = (Vec<T>, Sender<Vec<T>>);

/// Relies on crossbeam_channel::bounded: a new connected channel pair of the
/// given capacity (it panics only for a capacity too large to allocate).
#[verifier::external_body]
fn bounded_channel<M>(cap: usize) -> (Sender<M>, Receiver<M>)
    requires
        cap <= 1024,
{
    crossbeam_channel::bounded(cap)
}

/// Relies on crossbeam_channel::Sender::try_send: it never blocks, and when the
/// channel is full or disconnected the error carries the message back.
#[verifier::external_body]
fn try_send_message<M>(s: &Sender<M>, msg: M) -> (r: Result<(), M>)
    ensures
        r matches Err(m) ==> m == msg,
{
    match s.try_send(msg) {
        Ok(()) => Ok(()),
        Err(e) => Err(e.into_inner()),
    }
}

/// Relies on crossbeam_channel::Receiver::recv_timeout: it waits at most about
/// `timeout_ms` milliseconds; `None` on timeout or when the sender is gone.
#[verifier::external_body]
fn receive_within<M>(rx: &Receiver<M>, timeout_ms: u64) -> Option<M> {
    rx.recv_timeout(std::time::Duration::from_millis(timeout_ms)).ok()
}

/// A copy of `frame`.
pub fn copy_frame<T: Copy>(frame: &[T]) -> (r: Vec<T>)
    ensures
        r@ == frame@,
{
    let mut out: Vec<T> = Vec::new();
    let mut i: usize = 0;
    while i < frame.len()
        invariant
            i <= frame@.len(),
            out@ == frame@.take(i as int),
        decreases frame@.len() - i,
    {
        out.push(frame[i]);
        i = i + 1;
        assert(out@ =~= frame@.take(i as int));
    }
    assert(frame@.take(i as int) =~= frame@);
    out
}

/// The caller's side of a round trip: the worker's answer when one came in
/// time, else the input unchanged.
pub fn resolve_round_trip<T: Copy>(input: &[T], response: Option<Vec<T>>) -> (r: Vec<T>)
    ensures
        r@ == match response {
            Some(v) => v@,
            None => input@,
        },
{
    match response {
        Some(v) => v,
        None => copy_frame(input),
    }
}

/// The real-time side of a loaded plugin.
#[verifier::reject_recursive_types(T)]
pub struct PluginHost<T> {
    plugin_name: String,
    enabled: bool,
    requests: Option<Sender<PluginRequest<T>>>,
}

impl<T: Copy> PluginHost<T> {
    pub closed spec fn spec_name(&self) -> Seq<char> {
        self.plugin_name@
    }

    pub closed spec fn spec_enabled(&self) -> bool {
        self.enabled
    }

    pub closed spec fn spec_connected(&self) -> bool {
        self.requests is Some
    }

    /// A new enabled host and the receiving end of its request channel, which
    /// the worker that owns the plugin instance reads from.
    pub fn connect(plugin_name: String) -> (r: (Self, Receiver<PluginRequest<T>>))
        ensures
            r.0.spec_name() == plugin_name@,
            r.0.spec_enabled(),
            r.0.spec_connected(),
    {
        let (tx, rx) = bounded_channel(REQUEST_CAPACITY);
        (PluginHost { plugin_name, enabled: true, requests: Some(tx) }, rx)
    }

    /// Runs `input` through the plugin. A disabled or disconnected host, or an
    /// empty frame, gives the input back with no round trip; so does a request
    /// that cannot be queued at once, or an answer that is later than
    /// `PLUGIN_TIMEOUT_MS`.
    pub fn process(&mut self, input: &[T]) -> (r: Vec<T>)
        ensures
            *final(self) == *old(self),
            !old(self).spec_enabled() || !old(self).spec_connected() || input@.len() == 0 ==> r@
                == input@,
    {
        if !self.enabled || input.len() == 0 {
            return copy_frame(input);
        }
        match &self.requests {
            None => copy_frame(input),
            Some(tx) => {
                let (answer_tx, answer_rx) = bounded_channel(1);
                match try_send_message(tx, (copy_frame(input), answer_tx)) {
                    Err(_) => copy_frame(input),
                    Ok(()) => {
                        let answer = receive_within(&answer_rx, PLUGIN_TIMEOUT_MS);
                        resolve_round_trip(input, answer)
                    },
                }
            },
        }
    }

    /// Closes the request channel, so the worker leaves its receive loop.
    pub fn disconnect(&mut self)
        ensures
            !final(self).spec_connected(),
            final(self).spec_enabled() == old(self).spec_enabled(),
            final(self).spec_name() == old(self).spec_name(),
    {
        self.requests = None;
    }

    pub fn is_connected(&self) -> (r: bool)
        ensures
            r == self.spec_connected(),
    {
        self.requests.is_some()
    }

    pub fn get_plugin_name(&self) -> (r: String)
        ensures
            r@ == self.spec_name(),
    {
        self.plugin_name.clone()
    }

    pub fn set_enabled(&mut self, enabled: bool)
        ensures
            final(self).spec_enabled() == enabled,
            final(self).spec_connected() == old(self).spec_connected(),
            final(self).spec_name() == old(self).spec_name(),
    {
        self.enabled = enabled;
    }

    pub fn is_enabled(&self) -> (r: bool)
        ensures
            r == self.spec_enabled(),
    {
        self.enabled
    }
}

} // verus!
