//! The local daemon's request and response messages, and how the daemon
//! answers from a serving session's status.
use vstd::prelude::*;

use crate::crypto::{pairing_code_text, PairingCode};
use crate::serving::{EndorsingStatus, StatusInfo};
use crate::text::{concat_text, decimal_digits, int_text, int_to_text, owned, push_char};

verus! {

/// Request from CLI to daemon.
#[derive(Debug, Clone, Copy, PartialEq, Eq, Structural)]
pub enum Request {
    Status,
    GetActivationCode,
    Shutdown,
}

/// Endorsing state in a status response.
#[derive(Debug, Clone, Copy, PartialEq, Eq, Structural)]
pub enum EndorsingData {
    AwaitingPairNode,
    AwaitingCosign { new_node_number: i32 },
}

/// Status in a response.
#[derive(Debug)]
pub struct StatusData {
    pub connected: bool,
    pub node_number: i32,
    pub cg_id: String,
    pub endorsing: Option<EndorsingData>,
}

/// The activation code in a response.
#[derive(Debug)]
pub struct ActivationCodeData {
    pub activation_code: String,
}

/// Data payload for successful responses.
#[derive(Debug)]
pub enum ResponseData {
    Status(StatusData),
    ActivationCode(ActivationCodeData),
    Empty,
}

/// Response from daemon to CLI.
#[derive(Debug)]
pub enum Response {
    Success { ok: bool, data: ResponseData },
    Error { ok: bool, error: String },
}

impl Response {
    pub fn success(data: ResponseData) -> (r: Self)
        ensures
            r matches Response::Success { ok, data: d } && ok && d == data,
    {
        Response::Success { ok: true, data }
    }

    pub fn error(msg: String) -> (r: Self)
        ensures
            r matches Response::Error { ok, error } && !ok && error@ == msg@,
    {
        Response::Error { ok: false, error: msg }
    }
}

/// The endorsing data of an endorsing status.
pub open spec fn endorsing_data(e: EndorsingStatus) -> EndorsingData {
    match e {
        EndorsingStatus::AwaitingPairNode => EndorsingData::AwaitingPairNode,
        EndorsingStatus::AwaitingCosign { new_node_number } => EndorsingData::AwaitingCosign {
            new_node_number,
        },
    }
}

/// The answer to a status request, from the session's status.
pub fn status_response(status: &StatusInfo) -> (r: Response)
    ensures
        r matches Response::Success { ok, data: ResponseData::Status(s) } && ok && s.connected
            == status.connected && s.node_number == status.node_number && s.cg_id@
            == status.connectivity_group_id@ && s.endorsing == (match status.endorsing {
            Some(e) => Some(endorsing_data(e)),
            None => None,
        }),
{
    let endorsing = match status.endorsing {
        Some(EndorsingStatus::AwaitingPairNode) => Some(EndorsingData::AwaitingPairNode),
        Some(EndorsingStatus::AwaitingCosign { new_node_number }) => Some(
            EndorsingData::AwaitingCosign { new_node_number },
        ),
        None => None,
    };
    Response::success(
        ResponseData::Status(
            StatusData {
                connected: status.connected,
                node_number: status.node_number,
                cg_id: owned(status.connectivity_group_id.as_str()),
                endorsing,
            },
        ),
    )
}

/// The answer to an activation code request, from the generated code.
pub fn activation_code_response(code: &PairingCode) -> (r: Response)
    ensures
        r matches Response::Success { ok, data: ResponseData::ActivationCode(a) } && ok
            && a.activation_code@ == pairing_code_text(code.node_number, code.secret@),
{
    Response::success(ResponseData::ActivationCode(ActivationCodeData { activation_code: code.format() }))
}

/// The answer while the hub is not connected yet: a status says so, other
/// requests are refused.
pub fn not_connected_response(request: Request) -> (r: Response)
    ensures
        request == Request::Status ==> (r matches Response::Success {
            ok,
            data: ResponseData::Status(s),
        } && ok && !s.connected && s.node_number == 0 && s.cg_id@ == Seq::<char>::empty()
            && s.endorsing is None),
        request != Request::Status ==> (r matches Response::Error { ok, error } && !ok && error@
            == "hub not connected yet"@),
{
    match request {
        Request::Status => Response::success(
            ResponseData::Status(
                StatusData {
                    connected: false,
                    node_number: 0,
                    cg_id: String::new(),
                    endorsing: None,
                },
            ),
        ),
        _ => Response::error(owned("hub not connected yet")),
    }
}

/// The file name of a node's daemon socket: `{group}-{node}.sock`.
pub open spec fn socket_file_text(connectivity_group_id: Seq<char>, node_number: i32) -> Seq<char> {
    connectivity_group_id + seq!['-'] + int_text(node_number as int) + ".sock"@
}

/// The file name of a node's daemon socket.
pub fn socket_file_name(connectivity_group_id: &str, node_number: i32) -> (r: String)
    ensures
        r@ == socket_file_text(connectivity_group_id@, node_number),
{
    let mut r = owned(connectivity_group_id);
    push_char(&mut r, '-');
    let n = int_to_text(node_number as i64);
    r.append(n.as_str());
    r.append(".sock");
    r
}

} // verus!
