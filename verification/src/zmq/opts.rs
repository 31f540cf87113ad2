//! Options of the sockets of a subscription.
use vstd::prelude::*;

use crate::zmq::error::ZmqError;

verus! {

/// The kinds of ZMQ sockets.
#[allow(clippy::upper_case_acronyms)]
#[derive(Debug, Clone, Copy, PartialEq, Eq, Structural)]
pub enum SocketType {
    PAIR,
    PUB,
    SUB,
    REQ,
    REP,
    DEALER,
    ROUTER,
    PULL,
    PUSH,
    XPUB,
    XSUB,
    STREAM,
}

#[derive(Debug, Clone, Copy)]
pub struct ZmqConnectionOpts {
    /// ZMQ socket type (default: SUB)
    pub socket_type: SocketType,
    /// ZMQ receive timeout in milliseconds
    pub receive_timeout_ms: Option<i32>,
    /// ZMQ send timeout in milliseconds
    pub send_timeout_ms: Option<i32>,
    /// ZMQ receive high water mark
    pub receive_hwm: Option<i32>,
    /// ZMQ send high water mark
    pub send_hwm: Option<i32>,
    /// ZMQ linger period in milliseconds
    pub linger_ms: Option<i32>,
    /// ZMQ reconnect interval in milliseconds
    pub reconnect_interval_ms: Option<i32>,
    /// ZMQ max reconnect interval in milliseconds
    pub max_reconnect_interval_ms: Option<i32>,
}

/// The options that are used where none are given.
pub open spec fn default_opts() -> ZmqConnectionOpts {
    ZmqConnectionOpts {
        socket_type: SocketType::SUB,
        receive_timeout_ms: Some(1000),
        send_timeout_ms: None,
        receive_hwm: Some(1000),
        send_hwm: None,
        linger_ms: Some(0),
        reconnect_interval_ms: Some(100),
        max_reconnect_interval_ms: Some(10000),
    }
}

impl Default for ZmqConnectionOpts {
    fn default() -> (opts: Self)
        ensures
            opts == default_opts(),
    {
        ZmqConnectionOpts {
            socket_type: SocketType::SUB,
            receive_timeout_ms: Some(1000),
            send_timeout_ms: None,
            receive_hwm: Some(1000),
            send_hwm: None,
            linger_ms: Some(0),
            reconnect_interval_ms: Some(100),
            max_reconnect_interval_ms: Some(10000),
        }
    }
}

/// One option to set on a socket.
#[derive(Debug, Clone, Copy, PartialEq, Eq, Structural)]
pub enum SocketOption {
    ReceiveTimeout(i32),
    SendTimeout(i32),
    ReceiveHighWaterMark(i32),
    SendHighWaterMark(i32),
    Linger(i32),
    ReconnectInterval(i32),
    MaxReconnectInterval(i32),
}

/// `options`, followed by one more option where it has a value.
pub open spec fn then_set(
    options: Seq<SocketOption>,
    value: Option<i32>,
    option: spec_fn(i32) -> SocketOption,
) -> Seq<SocketOption> {
    match value {
        Some(v) => options.push(option(v)),
        None => options,
    }
}

/// Whether `sockets` are the states of a socket as its first options are set one
/// by one: the new socket, and what each setting made of the one before.
pub open spec fn states_of<S, O: Fn(S, SocketOption) -> Result<S, String>>(
    set_option: O,
    socket: S,
    options: Seq<SocketOption>,
    sockets: Seq<S>,
) -> bool {
    &&& 1 <= sockets.len() <= options.len() + 1
    &&& sockets[0] == socket
    &&& forall|i: int|
        1 <= i < sockets.len() ==> call_ensures(
            set_option,
            (sockets[i - 1], options[i - 1]),
            Ok::<S, String>(#[trigger] sockets[i]),
        )
}

/// Whether `configured` is what setting `options` on `socket` comes to: the
/// socket with all of them set, one after the other and nothing else done to it,
/// or the failure of the first one that could not be set.
pub open spec fn configures<S, O: Fn(S, SocketOption) -> Result<S, String>>(
    set_option: O,
    socket: S,
    options: Seq<SocketOption>,
    configured: Result<S, String>,
) -> bool {
    exists|sockets: Seq<S>|
        {
            &&& #[trigger] states_of(set_option, socket, options, sockets)
            &&& match configured {
                Ok(done) => sockets.len() == options.len() + 1 && done == sockets.last(),
                Err(cause) => sockets.len() <= options.len() && call_ensures(
                    set_option,
                    (sockets.last(), options[sockets.len() - 1]),
                    Err::<S, String>(cause),
                ),
            }
        }
}

/// Sets options on a socket, in order, up to the first failure, which it gives.
fn set_options<S, O>(socket: S, options: &Vec<SocketOption>, set_option: O) -> (configured: Result<
    S,
    String,
>) where O: Fn(S, SocketOption) -> Result<S, String>
    requires
        forall|socket: S, option: SocketOption|
            options@.contains(option) ==> call_requires(set_option, (socket, option)),
    ensures
        configures(set_option, socket, options@, configured),
{
    let ghost mut sockets: Seq<S> = seq![socket];
    let mut current: S = socket;
    let mut i: usize = 0;
    while i < options.len()
        invariant
            i <= options@.len(),
            forall|socket: S, option: SocketOption|
                options@.contains(option) ==> call_requires(set_option, (socket, option)),
            sockets.len() == i + 1,
            states_of(set_option, socket, options@, sockets),
            current == sockets.last(),
        decreases options@.len() - i,
    {
        assert(options@.contains(options@[i as int]));
        match set_option(current, options[i]) {
            Ok(next) => {
                proof {
                    sockets = sockets.push(next);
                }
                current = next;
            },
            Err(cause) => {
                return Err(cause);
            },
        }
        i = i + 1;
    }
    Ok(current)
}

impl ZmqConnectionOpts {
    /// The options to set on a new socket, in the order in which they are set:
    /// one for each field that has a value.
    pub open spec fn settings(self) -> Seq<SocketOption> {
        let s0 = Seq::<SocketOption>::empty();
        let s1 = then_set(s0, self.receive_timeout_ms, |v: i32| SocketOption::ReceiveTimeout(v));
        let s2 = then_set(s1, self.send_timeout_ms, |v: i32| SocketOption::SendTimeout(v));
        let s3 = then_set(s2, self.receive_hwm, |v: i32| SocketOption::ReceiveHighWaterMark(v));
        let s4 = then_set(s3, self.send_hwm, |v: i32| SocketOption::SendHighWaterMark(v));
        let s5 = then_set(s4, self.linger_ms, |v: i32| SocketOption::Linger(v));
        let s6 = then_set(
            s5,
            self.reconnect_interval_ms,
            |v: i32| SocketOption::ReconnectInterval(v),
        );
        then_set(s6, self.max_reconnect_interval_ms, |v: i32| SocketOption::MaxReconnectInterval(v))
    }

    /// Lists the options to set on a new socket, in order.
    pub fn socket_options(&self) -> (options: Vec<SocketOption>)
        ensures
            options@ == self.settings(),
    {
        let mut options: Vec<SocketOption> = Vec::new();
        if let Some(timeout) = self.receive_timeout_ms {
            options.push(SocketOption::ReceiveTimeout(timeout));
        }
        if let Some(timeout) = self.send_timeout_ms {
            options.push(SocketOption::SendTimeout(timeout));
        }
        if let Some(hwm) = self.receive_hwm {
            options.push(SocketOption::ReceiveHighWaterMark(hwm));
        }
        if let Some(hwm) = self.send_hwm {
            options.push(SocketOption::SendHighWaterMark(hwm));
        }
        if let Some(linger) = self.linger_ms {
            options.push(SocketOption::Linger(linger));
        }
        if let Some(interval) = self.reconnect_interval_ms {
            options.push(SocketOption::ReconnectInterval(interval));
        }
        if let Some(max_interval) = self.max_reconnect_interval_ms {
            options.push(SocketOption::MaxReconnectInterval(max_interval));
        }
        options
    }

    /// Creates a socket of the type that is set and sets its options, in order.
    ///
    /// The socket passes from each setting to the next. The first failure, be it
    /// of `new_socket` or of `set_option`, is the error that is returned; the
    /// socket is given up with it.
    pub fn create_socket<S, N, O>(&self, new_socket: N, set_option: O) -> (created: Result<
        S,
        ZmqError,
    >) where
        N: FnOnce(SocketType) -> Result<S, String>,
        O: Fn(S, SocketOption) -> Result<S, String>,

        requires
            call_requires(new_socket, (self.socket_type,)),
            forall|socket: S, option: SocketOption|
                self.settings().contains(option) ==> call_requires(set_option, (socket, option)),
        ensures
            exists|made: Result<S, String>|
                {
                    &&& #[trigger] call_ensures(new_socket, (self.socket_type,), made)
                    &&& match made {
                        Ok(socket) => match created {
                            Ok(done) => configures(
                                set_option,
                                socket,
                                self.settings(),
                                Ok::<S, String>(done),
                            ),
                            Err(error) => error matches ZmqError::Socket(cause) && configures(
                                set_option,
                                socket,
                                self.settings(),
                                Err::<S, String>(cause),
                            ),
                        },
                        Err(cause) => created == Err::<S, ZmqError>(ZmqError::Socket(cause)),
                    }
                },
    {
        let socket = match new_socket(self.socket_type) {
            Ok(socket) => socket,
            Err(cause) => {
                return Err(ZmqError::Socket(cause));
            },
        };
        let options = self.socket_options();
        match set_options(socket, &options, set_option) {
            Ok(done) => Ok(done),
            Err(cause) => Err(ZmqError::Socket(cause)),
        }
    }
}

} // verus!
