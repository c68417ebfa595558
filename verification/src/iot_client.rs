use vstd::prelude::*;
use crate::iot_error::{ConnectError, RequestError};
use crate::iot_message::{frame_len, message_matches_frame, wire_bytes, IotMessage};
use crate::transport::Transport;
use crate::{clnt_literal, clnt_literal_bytes, frame_ready, serv_literal, serv_literal_bytes,
    bytes_equal};

verus! {

/// The client's side of a connection, once the handshake has succeeded.
pub struct IotClient<T: Transport> {
    stream: T,
}

impl<T: Transport> IotClient<T> {
    /// The stream the session runs over.
    pub closed spec fn transport(&self) -> T {
        self.stream
    }

    /// Ends the session and hands the stream back.
    pub fn into_transport(self) -> (r: T)
        ensures
            r == self.transport(),
    {
        self.stream
    }

    /// Performs the client half of the handshake on a fresh stream: writes
    /// the client literal, then reads eight bytes and demands the server
    /// literal. Any other answer is a handshake failure and yields no
    /// session; a stream that answers with the server literal is never
    /// rejected as a bad handshake.
    pub fn try_handshake(stream: T) -> (r: Result<Self, ConnectError>)
        ensures
            r matches Ok(c) ==> stream.incoming().len() >= 8 && stream.incoming().take(8)
                == serv_literal() && c.transport().incoming() == stream.incoming().skip(8)
                && c.transport().outgoing() == stream.outgoing() + clnt_literal(),
            stream.incoming().len() >= 8 && stream.incoming().take(8) != serv_literal() ==> !(r
                is Ok),
            r matches Err(e) ==> (e is BadHandshake ==> stream.incoming().len() >= 8
                && stream.incoming().take(8) != serv_literal()),
    {
        let mut stream = stream;
        let greeting = clnt_literal_bytes();
        match stream.write_all_bytes(&greeting) {
            Ok(()) => (),
            Err(e) => {
                return Err(ConnectError::Io(e));
            },
        }
        let buf = match stream.read_exact_bytes(8) {
            Ok(b) => b,
            Err(e) => {
                return Err(ConnectError::Io(e));
            },
        };
        let expected = serv_literal_bytes();
        if !bytes_equal(&buf, &expected) {
            return Err(ConnectError::BadHandshake);
        }
        Ok(IotClient { stream })
    }

    /// Sends one request and blocks for exactly one response, whose payload
    /// carries the result. A failure says in which phase it happened: a send
    /// failure means the request may never have reached the device, a
    /// receive failure that the result is unknown.
    pub fn send_request(&mut self, req: IotMessage) -> (r: Result<IotMessage, RequestError>)
        ensures
            r matches Ok(resp) ==> ({
                let inc = old(self).transport().incoming();
                final(self).transport().outgoing() == old(self).transport().outgoing()
                    + wire_bytes(req@) && frame_ready(inc) && message_matches_frame(
                    resp@,
                    inc.take(frame_len(inc)),
                ) && final(self).transport().incoming() == inc.skip(frame_len(inc))
            }),
            r matches Err(e) ==> (e is Send ==> final(self).transport().incoming() == old(
                self,
            ).transport().incoming()),
    {
        match crate::send_message(req, &mut self.stream) {
            Ok(()) => (),
            Err(e) => {
                return Err(RequestError::Send(e));
            },
        }
        match crate::receive_message(&mut self.stream) {
            Ok(response) => Ok(response),
            Err(e) => Err(RequestError::Recv(e)),
        }
    }
}

} // verus!
