//! The control transfers that talk to the microphone array: the read of
//! its voice-detection status and the writes that switch its lights off.

use vstd::prelude::*;

verus! {

/// The vendor id of the microphone array.
pub const VENDOR_ID: u16 = 0x2886;

/// The product id of the microphone array.
pub const PRODUCT_ID: u16 = 0x0018;

/// The time, in milliseconds, after which a control transfer is given up.
pub const TIMEOUT_MS: u64 = 8000;

/// The request number of every transfer.
pub const REQUEST: u8 = 0;

/// The parameter that selects the voice-detection status.
pub const VALUE_SPEECH: u16 = 0xD6;

/// The index of the voice-detection status.
pub const INDEX_SPEECH: u16 = 19;

/// The parameter that selects the brightness of the ring.
pub const VALUE_LED: u16 = 0x20;

/// The parameter that selects the voice-activity light.
pub const VALUE_VAD_LED: u16 = 0x22;

/// The index of the light parameters.
pub const INDEX_WRITE: u16 = 0x1C;

/// The interface that is claimed around the writes.
pub const INTERFACE: u8 = 0;

/// The way a control transfer's data goes.
#[derive(Clone, Copy, Debug, PartialEq, Eq, Structural)]
pub enum Flow {
    /// From the device to the host.
    In,
    /// From the host to the device.
    Out,
}

/// The setup fields of a control transfer.
#[derive(Clone, Copy, Debug, PartialEq, Eq, Structural)]
pub struct ControlRequest {
    /// The request type: direction, type and recipient in one byte.
    pub request_type: u8,
    /// The request number.
    pub request: u8,
    /// The request's parameter.
    pub value: u16,
    /// The request's index.
    pub index: u16,
}

/// One step of a conversation with the device.
#[derive(Clone, Copy, Debug, PartialEq, Eq, Structural)]
pub enum UsbStep {
    /// Claim an interface.
    Claim { interface: u8 },
    /// Write one byte of data with a control transfer.
    Write { request: ControlRequest, data: u8 },
    /// Release an interface.
    Release { interface: u8 },
}

/// A step together with what its failure means.
#[derive(Clone, Copy, Debug, PartialEq, Eq, Structural)]
pub struct PlannedStep {
    /// What is to be done.
    pub step: UsbStep,
    /// Whether the conversation is given up if the step fails.
    pub must_succeed: bool,
}

/// The request-type byte of a vendor request to the device as a whole: the
/// vendor type in bits 5 and 6, the direction in bit 7.
pub open spec fn spec_vendor_request_type(flow: Flow) -> u8 {
    match flow {
        Flow::In => 0xC0,
        Flow::Out => 0x40,
    }
}

/// The read of the voice-detection status.
pub open spec fn spec_voice_status_request() -> ControlRequest {
    ControlRequest {
        request_type: spec_vendor_request_type(Flow::In),
        request: REQUEST,
        value: VALUE_SPEECH,
        index: INDEX_SPEECH,
    }
}

/// The write of the parameter `value` of the lights.
pub open spec fn spec_light_request(value: u16) -> ControlRequest {
    ControlRequest {
        request_type: spec_vendor_request_type(Flow::Out),
        request: REQUEST,
        value,
        index: INDEX_WRITE,
    }
}

/// The conversation that switches the lights off: the ring's brightness
/// and the voice-activity light are both written zero. The writes must
/// succeed; claiming and releasing the interface around them may fail.
pub open spec fn spec_led_off_plan() -> Seq<PlannedStep> {
    seq![
        PlannedStep { step: UsbStep::Claim { interface: INTERFACE }, must_succeed: false },
        PlannedStep {
            step: UsbStep::Write { request: spec_light_request(VALUE_LED), data: 0 },
            must_succeed: true,
        },
        PlannedStep {
            step: UsbStep::Write { request: spec_light_request(VALUE_VAD_LED), data: 0 },
            must_succeed: true,
        },
        PlannedStep { step: UsbStep::Release { interface: INTERFACE }, must_succeed: false },
    ]
}

/// Has `rusb::request_type` build the request-type byte of a vendor
/// request to the device as a whole, in the given direction. The contract
/// states the byte that `rusb` puts together from libusb's constants: 0x80
/// for the direction in, 0x40 for the vendor type, nothing for the device
/// as recipient.
#[verifier::external_body]
fn vendor_request_type(flow: Flow) -> (byte: u8)
    ensures
        byte == spec_vendor_request_type(flow),
{
    let direction = match flow {
        Flow::In => rusb::Direction::In,
        Flow::Out => rusb::Direction::Out,
    };
    rusb::request_type(direction, rusb::RequestType::Vendor, rusb::Recipient::Device)
}

/// The control transfer that reads the voice-detection status.
pub fn voice_status_request() -> (request: ControlRequest)
    ensures
        request == spec_voice_status_request(),
{
    ControlRequest {
        request_type: vendor_request_type(Flow::In),
        request: REQUEST,
        value: VALUE_SPEECH,
        index: INDEX_SPEECH,
    }
}

/// The steps that switch the lights of the device off, in order.
pub fn led_off_plan() -> (plan: Vec<PlannedStep>)
    ensures
        plan@ == spec_led_off_plan(),
{
    let request_type = vendor_request_type(Flow::Out);
    let ring = ControlRequest {
        request_type,
        request: REQUEST,
        value: VALUE_LED,
        index: INDEX_WRITE,
    };
    let vad = ControlRequest {
        request_type,
        request: REQUEST,
        value: VALUE_VAD_LED,
        index: INDEX_WRITE,
    };
    let mut plan: Vec<PlannedStep> = Vec::new();
    plan.push(PlannedStep { step: UsbStep::Claim { interface: INTERFACE }, must_succeed: false });
    plan.push(PlannedStep { step: UsbStep::Write { request: ring, data: 0 }, must_succeed: true });
    plan.push(PlannedStep { step: UsbStep::Write { request: vad, data: 0 }, must_succeed: true });
    plan.push(
        PlannedStep { step: UsbStep::Release { interface: INTERFACE }, must_succeed: false },
    );
    assert(plan@ =~= spec_led_off_plan());
    plan
}

} // verus!
