use vstd::prelude::*;

verus! {

/// The backend's report that an asynchronous buffer mapping failed, as
/// `wgpu` delivers it to the completion callback of `BufferSlice::map_async`.
/// The value is carried through unread.
#[verifier::external_type_specification]
#[verifier::external_body]
pub struct ExBufferAsyncError(wgpu::BufferAsyncError);

/// What can go wrong when a device buffer is read back.
#[derive(Debug)]
pub enum BufferError {
    /// The backend reported that the asynchronous map request failed, for
    /// example because the device was lost or the buffer was destroyed.
    AsyncMapError(wgpu::BufferAsyncError),
}

pub type BufferResult<T> = Result<T, BufferError>;

/// The text `wgpu` displays for a failed asynchronous mapping.
pub open spec fn spec_async_map_error_text() -> Seq<char> {
    "Error occurred when trying to async map a buffer"@
}

/// Calls `to_string` on a `wgpu::BufferAsyncError`, which goes through its
/// `Display` impl. That impl writes one fixed sentence, whatever the value;
/// the contract states that sentence.
#[verifier::external_body]
fn async_map_error_text(source: &wgpu::BufferAsyncError) -> (text: String)
    ensures
        text@ == spec_async_map_error_text(),
{
    source.to_string()
}

impl BufferError {
    /// The error's text: that of the backend's report, passed on as it is.
    pub open spec fn spec_message(&self) -> Seq<char> {
        spec_async_map_error_text()
    }

    /// The error's text: that of the backend's report, passed on as it is.
    pub fn message(&self) -> (text: String)
        ensures
            text@ == self.spec_message(),
    {
        match self {
            BufferError::AsyncMapError(source) => async_map_error_text(source),
        }
    }
}

impl From<wgpu::BufferAsyncError> for BufferError {
    fn from(source: wgpu::BufferAsyncError) -> (error: BufferError) {
        BufferError::AsyncMapError(source)
    }
}

impl vstd::std_specs::convert::FromSpecImpl<wgpu::BufferAsyncError> for BufferError {
    open spec fn obeys_from_spec() -> bool {
        true
    }

    open spec fn from_spec(source: wgpu::BufferAsyncError) -> BufferError {
        BufferError::AsyncMapError(source)
    }
}

} // verus!
