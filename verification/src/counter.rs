//! The example counting actors: each message bumps a per-actor counter and is
//! answered with the message and the new count.

use vstd::prelude::*;

use crate::text::{append_decimal, append_str, decimal};

verus! {

/// A message to the first example actor.
#[derive(Debug)]
pub struct Ping {
    pub message: String,
}

/// The answer of the first example actor.
#[derive(Debug)]
pub struct Res {
    pub p: String,
}

/// A message to the second example actor.
#[derive(Debug)]
pub struct RemoteRequest {
    pub message: String,
}

/// The message that the example actors refuse.
pub open spec fn error_message() -> Seq<char> {
    "Error"@
}

/// The answer to `message` with the count it brings the counter to.
pub open spec fn count_reply(message: Seq<char>, counter: u8) -> Seq<char> {
    message + " "@ + decimal(counter as nat)
}

/// How an example actor with counter `counter` handles `message`: the refused
/// message is answered with an error and leaves the counter alone; any other
/// message increments the counter and is answered with the message and the
/// new count.
pub fn count_message(message: &str, counter: u8) -> (r: Result<(u8, String), String>)
    requires
        message@ != error_message() ==> counter < 255,
    ensures
        message@ == error_message() ==> (r matches Err(e) && e@ == error_message()),
        message@ != error_message() ==> (r matches Ok((c, reply)) && c == counter + 1 && reply@
            == count_reply(message@, c)),
{
    let mut refused = String::new();
    append_str(&mut refused, "Error");
    let given = message.to_owned();
    if given == refused {
        return Err(refused);
    }
    let c: u8 = counter + 1;
    let mut reply = message.to_owned();
    append_str(&mut reply, " ");
    append_decimal(&mut reply, c as u64);
    Ok((c, reply))
}

/// The answer of the first example actor to a ping.
pub fn handle_ping(msg: &Ping, counter: u8) -> (r: Result<(u8, Res), String>)
    requires
        msg.message@ != error_message() ==> counter < 255,
    ensures
        msg.message@ == error_message() ==> (r matches Err(e) && e@ == error_message()),
        msg.message@ != error_message() ==> (r matches Ok((c, res)) && c == counter + 1 && res.p@
            == count_reply(msg.message@, c)),
{
    match count_message(msg.message.as_str(), counter) {
        Ok((c, reply)) => Ok((c, Res { p: reply })),
        Err(e) => Err(e),
    }
}

/// The answer of the second example actor to a request.
pub fn handle_remote_request(msg: &RemoteRequest, counter: u8) -> (r: Result<(u8, String), String>)
    requires
        msg.message@ != error_message() ==> counter < 255,
    ensures
        msg.message@ == error_message() ==> (r matches Err(e) && e@ == error_message()),
        msg.message@ != error_message() ==> (r matches Ok((c, reply)) && c == counter + 1
            && reply@ == count_reply(msg.message@, c)),
{
    count_message(msg.message.as_str(), counter)
}

} // verus!
