use vstd::prelude::*;
use crate::iot_error::{ConnectError, RequestError};
use crate::iot_message::{frame_len, message_matches_frame, wire_bytes, IotMessage};
use crate::transport::Transport;
use crate::{clnt_literal, clnt_literal_bytes, frame_ready, serv_literal, serv_literal_bytes,
    bytes_equal};

verus! {

/// The server's side of one accepted connection, once the handshake has
/// succeeded; it answers requests one at a time.
pub struct IotConnection<T: Transport> {
    stream: T,
}

impl<T: Transport> IotConnection<T> {
    /// The stream the connection runs over.
    pub closed spec fn transport(&self) -> T {
        self.stream
    }

    /// Closes the connection and hands the stream back.
    pub fn into_transport(self) -> (r: T)
        ensures
            r == self.transport(),
    {
        self.stream
    }

    /// Performs the server half of the handshake on a freshly accepted
    /// stream: reads eight bytes and demands the client literal, then
    /// answers with the server literal. A peer that opens with any other
    /// eight bytes is refused with a handshake failure and no connection —
    /// so no request of such a peer is ever processed.
    pub fn try_handshake(stream: T) -> (r: Result<Self, ConnectError>)
        ensures
            r matches Ok(c) ==> stream.incoming().len() >= 8 && stream.incoming().take(8)
                == clnt_literal() && c.transport().incoming() == stream.incoming().skip(8)
                && c.transport().outgoing() == stream.outgoing() + serv_literal(),
            stream.incoming().len() >= 8 && stream.incoming().take(8) != clnt_literal() ==> !(r
                is Ok),
            r matches Err(e) ==> (e is BadHandshake ==> stream.incoming().len() >= 8
                && stream.incoming().take(8) != clnt_literal()),
    {
        let mut stream = stream;
        let buf = match stream.read_exact_bytes(8) {
            Ok(b) => b,
            Err(e) => {
                return Err(ConnectError::Io(e));
            },
        };
        let expected = clnt_literal_bytes();
        if !bytes_equal(&buf, &expected) {
            return Err(ConnectError::BadHandshake);
        }
        let answer = serv_literal_bytes();
        match stream.write_all_bytes(&answer) {
            Ok(()) => (),
            Err(e) => {
                return Err(ConnectError::Io(e));
            },
        }
        Ok(IotConnection { stream })
    }

    /// Receives exactly one request, hands it to the caller's handler, and
    /// sends the handler's response back. The handler owns all device
    /// logic; this call only frames the exchange.
    pub fn process_request<F: FnOnce(IotMessage) -> IotMessage>(&mut self, message_handler: F) -> (r:
        Result<(), RequestError>)
        requires
            forall|m: IotMessage| call_requires(message_handler, (m,)),
        ensures
            r is Ok ==> exists|req: IotMessage, resp: IotMessage|
                ({
                    let inc = old(self).transport().incoming();
                    frame_ready(inc) && message_matches_frame(req@, inc.take(frame_len(inc)))
                        && #[trigger] call_ensures(message_handler, (req,), resp)
                        && final(self).transport().incoming() == inc.skip(frame_len(inc))
                        && final(self).transport().outgoing() == old(self).transport().outgoing()
                        + wire_bytes(resp@)
                }),
    {
        let request = match crate::receive_message(&mut self.stream) {
            Ok(m) => m,
            Err(e) => {
                return Err(RequestError::Recv(e));
            },
        };
        let ghost request_snapshot = request;
        let response = message_handler(request);
        let ghost response_snapshot = response;
        match crate::send_message(response, &mut self.stream) {
            Ok(()) => (),
            Err(e) => {
                return Err(RequestError::Send(e));
            },
        }
        proof {
            assert(call_ensures(message_handler, (request_snapshot,), response_snapshot));
        }
        Ok(())
    }
}

} // verus!
