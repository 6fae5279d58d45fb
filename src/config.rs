//! Settings of a processing session.
use crate::framing::FrameFormat;
use vstd::prelude::*;
use vstd::utf8::encode_utf8;

verus! {

/// Where the controller is attached.
#[derive(Clone, Debug)]
pub struct UartPortConfig {
    pub port_name: String,
    pub baud: u32,
    pub response_timeout_s: u32,
}

/// How frames are laid out on the serial line.
#[derive(Clone, Debug)]
pub struct UartPackageConfig {
    pub preamble: String,
    pub size_field_length: u32,
}

/// Where the processor keeps its state between runs.
#[derive(Clone, Debug)]
pub struct GcodeProcessorStorageConfig {
    pub file_path: String,
}

#[derive(Clone, Debug)]
pub struct GcodeProcessorConfig {
    pub uart_port: UartPortConfig,
    pub uart_package: UartPackageConfig,
    pub state_storage: GcodeProcessorStorageConfig,
}

impl UartPackageConfig {
    /// The frame layout: the preamble's UTF-8 bytes and the size field's
    /// width; `None` when a header's length would not fit in `usize`.
    pub fn frame_format(&self) -> (r: Option<FrameFormat>)
        ensures
            encode_utf8(self.preamble@).len() + self.size_field_length <= usize::MAX ==> (r matches Some(
                f,
            ) && f.wf() && f.preamble@ == encode_utf8(self.preamble@) && f.size_field_length
                == self.size_field_length),
            encode_utf8(self.preamble@).len() + self.size_field_length > usize::MAX ==> r is None,
    {
        let bytes = self.preamble.as_str().as_bytes();
        let width = self.size_field_length as usize;
        if bytes.len() > usize::MAX - width {
            return None;
        }
        Some(FrameFormat::new(bytes, width))
    }
}

} // verus!
