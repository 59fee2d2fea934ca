//! The requesting end of the APDU channel.
//!
//! The channel is shared with the APDU processor, which moves its state at any
//! time. Nothing is therefore promised about whether a call succeeds: each
//! function below reports what the channel answered, and the pipe decides on it.

use vstd::prelude::*;
use crate::buffer::MessageBuffer;

verus! {

#[verifier::external_type_specification]
#[verifier::external_body]
#[verifier::reject_recursive_types(Rq)]
#[verifier::reject_recursive_types(Rp)]
pub struct ExRequester<'i, Rq, Rp>(interchange::Requester<'i, Rq, Rp>);

/// The requesting end of a channel that carries one APDU each way.
pub type ApduRequester<'pipe> = interchange::Requester<'pipe, MessageBuffer, MessageBuffer>;

/// Where an exchange over the channel stands.
#[derive(Copy, Clone, Debug, PartialEq, Eq, Structural)]
pub enum ChannelState {
    Idle,
    BuildingRequest,
    Requested,
    BuildingResponse,
    Responded,
    Canceled,
}

/// `interchange::Requester::take_response`: hands out the response if one is
/// waiting. Whether one is waiting is up to the other end, so nothing is said
/// of the result.
pub assume_specification<'i, Rq, Rp>[ interchange::Requester::<'i, Rq, Rp>::take_response ](
    requester: &mut interchange::Requester<'i, Rq, Rp>,
) -> (response: Option<Rp>);

/// `interchange::Requester::state`: the state of the channel at the time of the
/// call. The other end may move it at any time, so nothing is said of the
/// result.
#[verifier::external_body]
pub(crate) fn channel_state(requester: &ApduRequester<'_>) -> (state: ChannelState) {
    match requester.state() {
        interchange::State::Idle => ChannelState::Idle,
        interchange::State::BuildingRequest => ChannelState::BuildingRequest,
        interchange::State::Requested => ChannelState::Requested,
        interchange::State::BuildingResponse => ChannelState::BuildingResponse,
        interchange::State::Responded => ChannelState::Responded,
        interchange::State::Canceled => ChannelState::Canceled,
    }
}

/// `interchange::Requester::request`: hands `message` to the other end as a
/// request. The result says whether the channel took it, which depends on the
/// state of the channel.
#[verifier::external_body]
pub(crate) fn channel_request(requester: &mut ApduRequester<'_>, message: MessageBuffer) -> (taken:
    bool) {
    requester.request(message).is_ok()
}

/// `interchange::Requester::cancel`: withdraws a request. The result is `None`
/// where there was nothing to withdraw, and else holds the request if the other
/// end had not picked it up yet.
#[verifier::external_body]
pub(crate) fn channel_cancel(requester: &mut ApduRequester<'_>) -> (withdrawn: Option<
    Option<MessageBuffer>,
>) {
    requester.cancel().ok()
}

/// `interchange::Requester::request_mut`: the request buffer of the channel, or
/// `None` while the channel is busy with an exchange. Nothing is said of what
/// the buffer holds.
#[verifier::external_body]
pub(crate) fn channel_request_mut<'a>(requester: &'a mut ApduRequester<'_>) -> (request: Option<
    &'a mut MessageBuffer,
>) {
    requester.request_mut().ok()
}

/// `interchange::Requester::send_request`: hands the request that was built in
/// the request buffer to the other end. The result says whether the channel
/// was in the state to do so.
#[verifier::external_body]
pub(crate) fn channel_send_request(requester: &mut ApduRequester<'_>) -> (sent: bool) {
    requester.send_request().is_ok()
}

/// `interchange::Requester::response`: the response that waits in the channel,
/// or `None` if none waits. Nothing is said of what the response holds.
#[verifier::external_body]
pub(crate) fn channel_response<'a>(requester: &'a ApduRequester<'_>) -> (response: Option<
    &'a MessageBuffer,
>) {
    requester.response().ok()
}

} // verus!
