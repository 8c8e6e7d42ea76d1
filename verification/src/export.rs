//! The buffer-export operation: building the request record the driver
//! expects, and translating the control transfer's outcome into either an
//! exported descriptor value or a typed error.

use vstd::prelude::*;

use crate::flags::ExpbufFlags;
use crate::queue::QueueType;

verus! {

broadcast use vstd::array::group_array_axioms;

/// In-memory image of the record exchanged with the driver, field for field:
/// the queue role's ABI code, the buffer and plane indices, the flag bits,
/// the descriptor slot the driver writes on success, and reserved words that
/// must be zero. The unsafe shell that performs the transfer copies this
/// record into the driver's binary layout unchanged.
#[derive(Clone, Copy, Debug, PartialEq, Eq)]
pub struct ExportRequest {
    /// ABI code of the queue role ([`QueueType::code`]).
    pub queue_type: u32,
    /// Index of the buffer within its queue's pool.
    pub index: u32,
    /// Plane within the buffer, for multi-planar formats; zero otherwise.
    pub plane: u32,
    /// Raw flag bits ([`ExpbufFlags::bits`]).
    pub flags: u32,
    /// Descriptor slot: zero when sent, overwritten by the driver on success.
    pub fd: i32,
    /// Reserved words, always zero on both sides of the exchange.
    pub reserved: [u32; 11],
}

/// What a freshly built request record holds: the four identifying fields
/// are exactly the caller's inputs, and every field the driver does not
/// explicitly receive — the descriptor slot and the reserved words — is zero.
pub open spec fn fresh_request(
    r: ExportRequest,
    queue: QueueType,
    index: u32,
    plane: u32,
    flags: ExpbufFlags,
) -> bool {
    &&& r.queue_type == queue.spec_code()
    &&& r.index == index
    &&& r.plane == plane
    &&& r.flags == flags.spec_bits()
    &&& r.fd == 0
    &&& forall|i: int| 0 <= i < 11 ==> r.reserved@[i] == 0
}

impl ExportRequest {
    /// Request Builder: a fresh, fully initialized record for exporting the
    /// buffer `index` (plane `plane`) of queue `queue` with `flags`.
    pub fn new(queue: QueueType, index: u32, plane: u32, flags: ExpbufFlags) -> (r: Self)
        ensures
            fresh_request(r, queue, index, plane, flags),
    {
        ExportRequest {
            queue_type: queue.code(),
            index,
            plane,
            flags: flags.bits(),
            fd: 0,
            reserved: [0u32; 11],
        }
    }
}

/// Error of the export operation: the privileged control transfer failed.
/// No other error exists, because this core validates nothing locally.
#[derive(Clone, Copy, Debug, PartialEq, Eq, Structural)]
pub enum ExpbufError {
    /// The transfer failed; the payload is the raw error code it reported,
    /// preserved for diagnosis.
    IoctlError(i32),
}

/// What the Result Translator returns for a response record and a transfer
/// status: on success, the descriptor now present in the record's slot; on
/// failure, an error wrapping exactly the reported code.
pub open spec fn spec_translate(
    response: ExportRequest,
    status: Result<(), i32>,
) -> Result<i32, ExpbufError> {
    match status {
        Ok(_) => Ok(response.fd),
        Err(code) => Err(ExpbufError::IoctlError(code)),
    }
}

/// Result Translator: interprets the transfer's outcome. `response` is the
/// record after the driver has seen it, `status` is what the transfer
/// mechanism reported. Returns the exported descriptor value if and only if
/// the transfer succeeded, and otherwise the typed error wrapping the code.
pub fn translate_outcome(response: &ExportRequest, status: Result<(), i32>) -> (r: Result<
    i32,
    ExpbufError,
>)
    ensures
        r == spec_translate(*response, status),
{
    match status {
        Ok(_) => Ok(response.fd),
        Err(code) => Err(ExpbufError::IoctlError(code)),
    }
}

/// The export operation end to end, with the control transfer abstracted to
/// its observable act on the record: `Ok(fd)` means the driver accepted the
/// request and wrote `fd` into the descriptor slot, `Err(code)` means the
/// transfer failed with `code` and the record is discarded unread.
///
/// The unsafe shell around this library performs the real transfer and then
/// follows exactly this path; a test drives it with a mock driver's act.
pub fn export_with_outcome(
    queue: QueueType,
    index: u32,
    plane: u32,
    flags: ExpbufFlags,
    outcome: Result<i32, i32>,
) -> (r: Result<i32, ExpbufError>)
    ensures
        outcome matches Ok(fd) ==> r == Ok::<i32, ExpbufError>(fd),
        outcome matches Err(code) ==> r == Err::<i32, ExpbufError>(ExpbufError::IoctlError(code)),
{
    let request = ExportRequest::new(queue, index, plane, flags);
    match outcome {
        Ok(fd) => {
            let mut response = request;
            response.fd = fd;
            translate_outcome(&response, Ok(()))
        },
        Err(code) => translate_outcome(&request, Err(code)),
    }
}

/// Law: a successful transfer yields exactly the descriptor value the driver
/// placed in the record's output slot, whatever the rest of the record holds.
pub proof fn lemma_success_returns_driver_descriptor(response: ExportRequest)
    ensures
        spec_translate(response, Ok(())) == Ok::<i32, ExpbufError>(response.fd),
{
}

/// Law: a failed transfer yields an error wrapping exactly the code the
/// driver reported, and no descriptor value is observable in the result.
pub proof fn lemma_failure_wraps_exact_code(response: ExportRequest, code: i32)
    ensures
        spec_translate(response, Err(code)) == Err::<i32, ExpbufError>(
            ExpbufError::IoctlError(code),
        ),
        !(spec_translate(response, Err(code)) is Ok),
{
}

/// Law: building a request is deterministic zero-initialization — two
/// records built from identical inputs are identical, and every field the
/// driver does not explicitly receive is zero in them.
pub proof fn lemma_request_deterministic(
    a: ExportRequest,
    b: ExportRequest,
    queue: QueueType,
    index: u32,
    plane: u32,
    flags: ExpbufFlags,
)
    requires
        fresh_request(a, queue, index, plane, flags),
        fresh_request(b, queue, index, plane, flags),
    ensures
        a == b,
        a.fd == 0,
        forall|i: int| 0 <= i < 11 ==> a.reserved@[i] == 0,
{
    assert(a.reserved =~= b.reserved);
}

/// Law: flags round-trip — the bit pattern a fresh request sends to the
/// driver is exactly the caller's flag combination, for every combination.
pub proof fn lemma_flags_roundtrip(
    r: ExportRequest,
    queue: QueueType,
    index: u32,
    plane: u32,
    flags: ExpbufFlags,
)
    requires
        fresh_request(r, queue, index, plane, flags),
    ensures
        r.flags == flags.spec_bits(),
{
}

/// Law: the operation keeps no state between calls — two exchanges built
/// from identical inputs, against a driver that accepts both and writes the
/// same descriptor value, each independently yield that descriptor.
pub proof fn lemma_export_idempotent(
    a: ExportRequest,
    b: ExportRequest,
    queue: QueueType,
    index: u32,
    plane: u32,
    flags: ExpbufFlags,
    fd: i32,
)
    requires
        fresh_request(a, queue, index, plane, flags),
        fresh_request(b, queue, index, plane, flags),
    ensures
        spec_translate(ExportRequest { fd: fd, ..a }, Ok(())) == spec_translate(
            ExportRequest { fd: fd, ..b },
            Ok(()),
        ),
        spec_translate(ExportRequest { fd: fd, ..a }, Ok(())) == Ok::<i32, ExpbufError>(fd),
{
}

} // verus!
