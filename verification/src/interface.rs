//! The application's side of the bridge: submit a command, wait for the
//! event that completes it, hand back what it returned.

use vstd::prelude::*;
use crate::hci::bluenrg::{
    BlueNrg, BlueNrgCommand, BlueNrgReturnParameters, FirmwareBuildNumber, GET_FIRMWARE_BUILD_NUMBER,
};
use crate::hci::{CoreEvent, HciCommand, HciEvent, HciPacket, HciReturnParameters};
use crate::queue::{PacketConsumer, PacketProducer};

verus! {

/// Why a command brought no return parameters.
#[derive(Debug, Clone, Copy, PartialEq, Eq, Structural)]
pub enum Error {
    /// The request queue was full; the command was not queued.
    QueueFull,
    /// No matching event arrived within the allowed number of polls.
    Timeout,
    /// The matching event did not carry the return parameters asked for.
    UnexpectedParameters,
}

/// The return parameters that `polled` brings for the command `opcode`:
/// those of a command-complete event with that opcode, and of nothing else.
pub open spec fn response_to(opcode: u16, polled: Option<HciPacket<BlueNrg>>) -> Option<
    HciReturnParameters<BlueNrg>,
> {
    match polled {
        Some(HciPacket::Event(HciEvent::Core(CoreEvent::CommandComplete { opcode: o, return_parameters, .. }))) =>
            if o == opcode {
                Some(return_parameters)
            } else {
                None
            },
        _ => None,
    }
}

/// Whether `r` is what waiting for the command `opcode` gives when the
/// response queue was polled `polled.len()` times with these outcomes: the
/// wait ends with the first poll that brings a matching event, whose return
/// parameters are the result; everything polled before is passed over; and
/// after `max_polls` polls without a match the wait gives up.
pub open spec fn awaited(
    opcode: u16,
    max_polls: usize,
    polled: Seq<Option<HciPacket<BlueNrg>>>,
    r: Result<HciReturnParameters<BlueNrg>, Error>,
) -> bool {
    &&& polled.len() <= max_polls
    &&& forall|k: int| 0 <= k < polled.len() - 1 ==> response_to(opcode, #[trigger] polled[k]) is None
    &&& match r {
        Ok(parameters) => polled.len() >= 1 && response_to(opcode, polled.last()) == Some(parameters),
        Err(e) => e == Error::Timeout && polled.len() == max_polls && (polled.len() >= 1 ==> response_to(
            opcode,
            polled.last(),
        ) is None),
    }
}

/// Whether `r` is what sending the command `opcode` gives when the request
/// queue took the command or not (`accepted`) and the response queue was
/// then polled with the outcomes `polled`. A command that is not taken is
/// not waited for.
pub open spec fn sent(
    opcode: u16,
    max_polls: usize,
    accepted: bool,
    polled: Seq<Option<HciPacket<BlueNrg>>>,
    r: Result<HciReturnParameters<BlueNrg>, Error>,
) -> bool {
    if accepted {
        awaited(opcode, max_polls, polled, r)
    } else {
        polled.len() == 0 && r == Err::<HciReturnParameters<BlueNrg>, Error>(Error::QueueFull)
    }
}

/// The firmware build number in what sending the command that asks for it
/// gave: it is read out of the vendor's return parameters, and a failure to
/// get any stays that failure.
pub open spec fn build_version(found: Result<HciReturnParameters<BlueNrg>, Error>) -> Result<
    FirmwareBuildNumber,
    Error,
> {
    match found {
        Ok(HciReturnParameters::Vendor(BlueNrgReturnParameters::FirmwareBuildNumber { status, build_number })) => Ok(
            FirmwareBuildNumber { status, build_number },
        ),
        Ok(HciReturnParameters::Hci) => Err(Error::UnexpectedParameters),
        Err(e) => Err(e),
    }
}

/// Picks the return parameters for the command `sent_opcode` out of what a
/// poll of the response queue brought.
pub fn match_response(sent_opcode: u16, polled: Option<HciPacket<BlueNrg>>) -> (r: Option<
    HciReturnParameters<BlueNrg>,
>)
    ensures
        r == response_to(sent_opcode, polled),
{
    match polled {
        Some(HciPacket::Event(HciEvent::Core(CoreEvent::CommandComplete { packets: _, opcode, return_parameters }))) => {
            if opcode == sent_opcode {
                Some(return_parameters)
            } else {
                None
            }
        },
        _ => None,
    }
}

/// Reads the firmware build number out of what sending the command that
/// asks for it gave.
pub fn firmware_build_version(found: Result<HciReturnParameters<BlueNrg>, Error>) -> (r: Result<
    FirmwareBuildNumber,
    Error,
>)
    ensures
        r == build_version(found),
{
    match found {
        Ok(HciReturnParameters::Vendor(BlueNrgReturnParameters::FirmwareBuildNumber { status, build_number })) => Ok(
            FirmwareBuildNumber { status, build_number },
        ),
        Ok(HciReturnParameters::Hci) => Err(Error::UnexpectedParameters),
        Err(e) => Err(e),
    }
}

/// The application's ends of the two queues: the writing end of the
/// request queue and the reading end of the response queue.
pub struct Interface {
    requests: PacketProducer,
    responses: PacketConsumer,
}

impl Interface {
    /// The application's end of the request queue. It is the same value
    /// before and after a call exactly if the call offered it nothing.
    pub closed spec fn requests(&self) -> PacketProducer {
        self.requests
    }

    /// The application's end of the response queue. It is the same value
    /// before and after a call exactly if the call took nothing from it.
    pub closed spec fn responses(&self) -> PacketConsumer {
        self.responses
    }

    /// An interface over these two ends.
    pub fn new(requests: PacketProducer, responses: PacketConsumer) -> (made: Interface)
        ensures
            made.requests() == requests,
            made.responses() == responses,
    {
        Interface { requests, responses }
    }

    /// Asks the controller for its firmware build number: sends the command
    /// and reads the answer out of what comes back.
    pub fn get_firmware_build_version(&mut self, max_polls: usize) -> (r: Result<FirmwareBuildNumber, Error>)
        ensures
            exists|
                accepted: bool,
                polled: Seq<Option<HciPacket<BlueNrg>>>,
                found: Result<HciReturnParameters<BlueNrg>, Error>,
            | #[trigger]
                sent(GET_FIRMWARE_BUILD_NUMBER, max_polls, accepted, polled, found) && r == build_version(found),
            (r matches Err(e) && e == Error::QueueFull) || max_polls == 0
                ==> final(self).responses() == old(self).responses(),
    {
        let found = self.send_command(HciCommand::Vendor(BlueNrgCommand::GetFirmwareBuildNumber), max_polls);
        firmware_build_version(found)
    }

    /// Queues `command` for the controller and polls the response queue, at
    /// most `max_polls` times, for the event that completes it. A full
    /// request queue refuses the command, and then nothing is polled. What
    /// is polled before the completing event is passed over; nothing is
    /// polled after it.
    pub fn send_command(&mut self, command: HciCommand<BlueNrg>, max_polls: usize) -> (r: Result<
        HciReturnParameters<BlueNrg>,
        Error,
    >)
        requires
            command is Vendor,
        ensures
            exists|accepted: bool, polled: Seq<Option<HciPacket<BlueNrg>>>| #[trigger]
                sent(command.opcode_spec(), max_polls, accepted, polled, r),
            (r matches Err(e) && e == Error::QueueFull) || max_polls == 0
                ==> final(self).responses() == old(self).responses(),
    {
        let sent_opcode = command.opcode();
        if self.requests.enqueue(HciPacket::Command(command)).is_err() {
            assert(sent(sent_opcode, max_polls, false, Seq::empty(), Err(Error::QueueFull)));
            return Err(Error::QueueFull);
        }
        let ghost untouched = self.responses;
        let ghost mut polled: Seq<Option<HciPacket<BlueNrg>>> = Seq::empty();
        let mut polls: usize = 0;
        while polls < max_polls
            invariant
                sent_opcode == command.opcode_spec(),
                polls == 0 ==> self.responses == untouched,
                polls <= max_polls,
                polled.len() == polls,
                forall|k: int| 0 <= k < polled.len() ==> response_to(sent_opcode, #[trigger] polled[k]) is None,
            decreases max_polls - polls,
        {
            let packet = self.responses.dequeue();
            proof {
                polled = polled.push(packet);
            }
            polls += 1;
            if let Some(parameters) = match_response(sent_opcode, packet) {
                assert(sent(sent_opcode, max_polls, true, polled, Ok(parameters)));
                return Ok(parameters);
            }
        }
        assert(sent(sent_opcode, max_polls, true, polled, Err(Error::Timeout)));
        Err(Error::Timeout)
    }
}

/// A wait ends with the first event that matches: nothing is polled after
/// it, and its return parameters are the result.
pub proof fn lemma_first_match_ends_the_wait(
    opcode: u16,
    max_polls: usize,
    polled: Seq<Option<HciPacket<BlueNrg>>>,
    r: Result<HciReturnParameters<BlueNrg>, Error>,
    k: int,
)
    requires
        awaited(opcode, max_polls, polled, r),
        0 <= k < polled.len(),
        response_to(opcode, polled[k]) is Some,
    ensures
        k == polled.len() - 1,
        r matches Ok(parameters) && response_to(opcode, polled[k]) == Some(parameters),
{
}

/// A wait fails only by running out of polls, none of which brought a
/// matching event.
pub proof fn lemma_timeout_without_match(
    opcode: u16,
    max_polls: usize,
    polled: Seq<Option<HciPacket<BlueNrg>>>,
    r: Result<HciReturnParameters<BlueNrg>, Error>,
)
    requires
        awaited(opcode, max_polls, polled, r),
        r is Err,
    ensures
        r matches Err(e) && e == Error::Timeout,
        polled.len() == max_polls,
        forall|k: int| 0 <= k < polled.len() ==> response_to(opcode, #[trigger] polled[k]) is None,
{
}

/// An event for another opcode, an event of another kind, a command and an
/// empty poll bring no return parameters.
pub proof fn lemma_only_the_completion_matches(opcode: u16, polled: Option<HciPacket<BlueNrg>>)
    ensures
        response_to(opcode, polled) is Some <==> (polled matches Some(
            HciPacket::Event(HciEvent::Core(CoreEvent::CommandComplete { opcode: o, .. })),
        ) && o == opcode),
{
}

} // verus!
