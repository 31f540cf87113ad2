use std::cell::RefCell;

use drift_stream::zmq::error::ZmqError;
use drift_stream::zmq::opts::{SocketOption, SocketType, ZmqConnectionOpts};

#[test]
fn default_options() {
    let opts = ZmqConnectionOpts::default();
    assert_eq!(opts.socket_type, SocketType::SUB);
    assert_eq!(opts.receive_timeout_ms, Some(1000));
    assert_eq!(opts.send_timeout_ms, None);
    assert_eq!(opts.receive_hwm, Some(1000));
    assert_eq!(opts.send_hwm, None);
    assert_eq!(opts.linger_ms, Some(0));
    assert_eq!(opts.reconnect_interval_ms, Some(100));
    assert_eq!(opts.max_reconnect_interval_ms, Some(10000));
}

#[test]
fn options_with_a_value_are_set_in_order() {
    assert_eq!(
        ZmqConnectionOpts::default().socket_options(),
        vec![
            SocketOption::ReceiveTimeout(1000),
            SocketOption::ReceiveHighWaterMark(1000),
            SocketOption::Linger(0),
            SocketOption::ReconnectInterval(100),
            SocketOption::MaxReconnectInterval(10000),
        ]
    );
    let opts = ZmqConnectionOpts {
        socket_type: SocketType::PULL,
        receive_timeout_ms: None,
        send_timeout_ms: Some(1),
        receive_hwm: None,
        send_hwm: Some(2),
        linger_ms: None,
        reconnect_interval_ms: None,
        max_reconnect_interval_ms: None,
    };
    assert_eq!(
        opts.socket_options(),
        vec![
            SocketOption::SendTimeout(1),
            SocketOption::SendHighWaterMark(2)
        ]
    );
}

/// A socket that keeps the options that were set on it.
#[derive(Debug, PartialEq)]
struct Socket {
    socket_type: SocketType,
    options: Vec<SocketOption>,
}

/// Creates a socket on which `failing` cannot be set, and gives what was created
/// and the options that were tried.
fn create(failing: Option<SocketOption>) -> (Result<Socket, ZmqError>, Vec<SocketOption>) {
    let tried = RefCell::new(vec![]);
    let created = ZmqConnectionOpts::default().create_socket(
        |socket_type: SocketType| {
            Ok(Socket {
                socket_type,
                options: vec![],
            })
        },
        |mut socket: Socket, option: SocketOption| {
            tried.borrow_mut().push(option);
            if Some(option) == failing {
                Err(format!("{option:?}"))
            } else {
                socket.options.push(option);
                Ok(socket)
            }
        },
    );
    (created, tried.into_inner())
}

#[test]
fn sockets_are_created_when_every_option_is_set() {
    let (created, tried) = create(None);
    assert_eq!(
        created,
        Ok(Socket {
            socket_type: SocketType::SUB,
            options: ZmqConnectionOpts::default().socket_options(),
        })
    );
    assert_eq!(tried, ZmqConnectionOpts::default().socket_options());
}

#[test]
fn the_first_option_that_fails_is_the_error() {
    let (created, tried) = create(Some(SocketOption::Linger(0)));
    assert_eq!(created, Err(ZmqError::Socket("Linger(0)".into())));
    assert_eq!(
        tried,
        vec![
            SocketOption::ReceiveTimeout(1000),
            SocketOption::ReceiveHighWaterMark(1000),
            SocketOption::Linger(0),
        ]
    );
    let (created, tried) = create(Some(SocketOption::MaxReconnectInterval(10000)));
    assert_eq!(
        created,
        Err(ZmqError::Socket("MaxReconnectInterval(10000)".into()))
    );
    assert_eq!(tried.len(), 5);
}

#[test]
fn sockets_that_cannot_be_made_get_no_options() {
    let created: Result<(), ZmqError> = ZmqConnectionOpts::default().create_socket(
        |socket_type: SocketType| Err(format!("no {socket_type:?}")),
        |_: (), _: SocketOption| panic!("an option was set"),
    );
    assert_eq!(created, Err(ZmqError::Socket("no SUB".into())));
}

#[test]
fn errors_give_their_cause() {
    for error in [
        ZmqError::Context("why".into()),
        ZmqError::Socket("why".into()),
        ZmqError::Connect("why".into()),
        ZmqError::Receive("why".into()),
        ZmqError::Deserialize("why".into()),
    ] {
        assert_eq!(error.into_cause(), "why");
    }
}

#[test]
fn errors_read_as_text() {
    let cause = "why".to_string();
    assert_eq!(
        ZmqError::Context(cause.clone()).message(),
        "zmq context err: why"
    );
    assert_eq!(
        ZmqError::Socket(cause.clone()).message(),
        "zmq socket err: why"
    );
    assert_eq!(
        ZmqError::Connect(cause.clone()).message(),
        "zmq connect err: why"
    );
    assert_eq!(
        ZmqError::Receive(cause.clone()).message(),
        "zmq receive err: why"
    );
    assert_eq!(
        ZmqError::Deserialize(cause).message(),
        "zmq deserialize err: why"
    );
}
