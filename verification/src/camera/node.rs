//! One camera, and the node that is published for it.
use vstd::prelude::*;

use crate::camera::frame::{
    camera_format, frame_size, make_buffer_pod, make_format_pod, BufferOffer, FormatOffer,
    VideoFormat, FORMAT_NV21,
};
#[allow(unused_imports)]
use crate::camera::frame::{buffer_offer, format_offer, frame_bytes, service_format};
use crate::text::numbered;
#[allow(unused_imports)]
use crate::text::decimal;

verus! {

pub const DEFAULT_WIDTH: u32 = 1280;
pub const DEFAULT_HEIGHT: u32 = 720;
/// What a frame is made of when there is none: mid grey.
pub const BLANK: u8 = 128;

/// What is known of a camera.
#[derive(Debug)]
pub struct CameraData {
    pub width: u32,
    pub height: u32,
    pub format: u16,
    /// Someone watches the node.
    pub streaming: bool,
    /// The service was told to record.
    pub recording: bool,
    /// With which control socket it was told.
    pub recording_generation: u64,
    /// There is a stream to read from.
    pub live: bool,
    /// The node asked for a frame at least once.
    pub process_seen: bool,
    pub have_frame: bool,
    pub frame: Vec<u8>,
    pub stream_generation: u64,
    pub node_generation: u64,
}

/// The same, as a plain value.
pub struct DataModel {
    pub width: u32,
    pub height: u32,
    pub format: u16,
    pub streaming: bool,
    pub recording: bool,
    pub recording_generation: u64,
    pub live: bool,
    pub process_seen: bool,
    pub have_frame: bool,
    pub frame: Seq<u8>,
    pub stream_generation: u64,
    pub node_generation: u64,
}

impl View for CameraData {
    type V = DataModel;

    open spec fn view(&self) -> DataModel {
        DataModel {
            width: self.width,
            height: self.height,
            format: self.format,
            streaming: self.streaming,
            recording: self.recording,
            recording_generation: self.recording_generation,
            live: self.live,
            process_seen: self.process_seen,
            have_frame: self.have_frame,
            frame: self.frame@,
            stream_generation: self.stream_generation,
            node_generation: self.node_generation,
        }
    }
}

/// How a node describes the frame that it was given.
#[derive(Debug, Clone, Copy, PartialEq, Eq, Structural)]
pub enum NodeOutput {
    /// The buffer is left as it is.
    Untouched,
    /// The buffer holds nothing.
    Empty,
    /// The buffer holds a frame.
    Frame { stride: i32, size: u32 },
}

/// How a node is to be published.
pub struct NodePlan {
    pub name: String,
    pub description: String,
    /// Nothing if no node can offer the frames: then the node cannot be published.
    pub offer: Option<FormatOffer>,
}

/// What a node was told of the format that was agreed on.
#[derive(Debug, Clone, Copy, PartialEq, Eq, Structural)]
pub struct Negotiation {
    /// It is raw video.
    pub raw_video: bool,
    pub format: VideoFormat,
    /// Where 0, the size stays.
    pub width: u32,
    pub height: u32,
}

/// The format that was agreed on, with the buffers to ask for.
#[derive(Debug, Clone, Copy, PartialEq, Eq, Structural)]
pub struct Agreed {
    pub width: u32,
    pub height: u32,
    pub format: u16,
    /// Nothing if no such buffers can be asked for: then the node failed.
    pub buffers: Option<BufferOffer>,
}

impl DataModel {
    /// What holds of every camera: frames come only from a stream.
    pub open spec fn wf(self) -> bool {
        self.have_frame ==> self.live
    }

    /// What a node is given: the frame, or grey if there is none. Nothing if the frame does not
    /// have the size that was agreed on, or the buffer is too small for it.
    pub open spec fn processed(self, mapped: bool, output: Seq<u8>) -> (NodeOutput, Seq<u8>) {
        let live = self.live && self.have_frame;
        match frame_bytes(self.width, self.height) {
            None => (NodeOutput::Empty, output),
            Some(expected) => if live && self.frame.len() != expected {
                (NodeOutput::Empty, output)
            } else if !mapped {
                (NodeOutput::Untouched, output)
            } else if output.len() < expected {
                (NodeOutput::Empty, output)
            } else {
                let shown = if live {
                    self.frame
                } else {
                    Seq::new(expected as nat, |i: int| BLANK)
                };
                (
                    NodeOutput::Frame { stride: self.width as i32, size: expected as u32 },
                    shown + output.skip(expected as int),
                )
            },
        }
    }

    /// What was agreed on holds from here on, if the buffers were asked for.
    pub open spec fn negotiated(self, agreed: Agreed, updated: bool) -> DataModel {
        if updated {
            DataModel {
                width: agreed.width,
                height: agreed.height,
                format: agreed.format,
                ..self
            }
        } else {
            self
        }
    }

    /// A camera that nothing is known of.
    pub open spec fn unknown() -> DataModel {
        DataModel {
            width: 0,
            height: 0,
            format: FORMAT_NV21,
            streaming: false,
            recording: false,
            recording_generation: 0,
            live: false,
            process_seen: false,
            have_frame: false,
            frame: Seq::empty(),
            stream_generation: 0,
            node_generation: 0,
        }
    }

    /// The size and format that were agreed on, if frames can be like that.
    pub open spec fn agreed(self, n: Negotiation) -> Option<(u32, u32, u16)> {
        let width = if n.width == 0 {
            self.width
        } else {
            n.width
        };
        let height = if n.height == 0 {
            self.height
        } else {
            n.height
        };
        match (service_format(n.format), frame_bytes(width, height)) {
            (Some(format), Some(_)) => if n.raw_video {
                Some((width, height, format))
            } else {
                None
            },
            _ => None,
        }
    }
}

impl CameraData {
    /// A camera that nothing is known of.
    pub fn new() -> (data: CameraData)
        ensures
            data@ == DataModel::unknown(),
    {
        CameraData {
            width: 0,
            height: 0,
            format: FORMAT_NV21,
            streaming: false,
            recording: false,
            recording_generation: 0,
            live: false,
            process_seen: false,
            have_frame: false,
            frame: Vec::new(),
            stream_generation: 0,
            node_generation: 0,
        }
    }

    /// The node asked for a frame. Tells whether that is the first time.
    pub fn note_process(&mut self) -> (first: bool)
        ensures
            first == !old(self).process_seen,
            final(self)@ == (DataModel { process_seen: true, ..old(self)@ }),
    {
        let first = !self.process_seen;
        self.process_seen = true;
        first
    }

    /// Fills the buffer of a node. A buffer that is not mapped has no bytes to fill.
    pub fn node_process(&self, mapped: bool, output: &mut [u8]) -> (r: NodeOutput)
        ensures
            (r, final(output)@) == self@.processed(mapped, old(output)@),
    {
        let live = self.live && self.have_frame;
        let Some(expected) = frame_size(self.width, self.height) else {
            return NodeOutput::Empty;
        };
        if live && self.frame.len() != expected {
            return NodeOutput::Empty;
        }
        if !mapped {
            return NodeOutput::Untouched;
        }
        if output.len() < expected {
            return NodeOutput::Empty;
        }
        let ghost shown = if live {
            self.frame@
        } else {
            Seq::new(expected as nat, |i: int| BLANK)
        };
        let mut i: usize = 0;
        while i < expected
            invariant
                i <= expected,
                expected <= output@.len(),
                output@.len() == old(output)@.len(),
                live ==> self.frame@.len() == expected && shown == self.frame@,
                !live ==> shown == Seq::new(expected as nat, |i: int| BLANK),
                forall|j: int| 0 <= j < i ==> output@[j] == shown[j],
                forall|j: int| i <= j < output@.len() ==> output@[j] == old(output)@[j],
            decreases expected - i,
        {
            output[i] = if live {
                self.frame[i]
            } else {
                BLANK
            };
            i += 1;
        }
        assert(output@ =~= shown + old(output)@.skip(expected as int));
        NodeOutput::Frame { stride: self.width as i32, size: expected as u32 }
    }

    /// Takes what was agreed on for the node, and says which buffers to ask for. `mem_ptr` and
    /// `mem_fd` number the kinds of memory.
    pub fn node_param_changed(&self, n: Negotiation, mem_ptr: u32, mem_fd: u32) -> (r: Option<
        Agreed,
    >)
        ensures
            match r {
                Some(a) => self@.agreed(n) == Some((a.width, a.height, a.format)) && a.buffers
                    == buffer_offer(a.width, a.height, mem_ptr, mem_fd),
                None => self@.agreed(n) is None,
            },
    {
        if !n.raw_video {
            return None;
        }
        let Some(format) = camera_format(n.format) else {
            return None;
        };
        let width: u32 = if n.width == 0 {
            self.width
        } else {
            n.width
        };
        let height: u32 = if n.height == 0 {
            self.height
        } else {
            n.height
        };
        if frame_size(width, height).is_none() {
            return None;
        }
        let buffers = make_buffer_pod(width, height, mem_ptr, mem_fd);
        Some(Agreed { width, height, format, buffers })
    }

    /// The buffers are asked for, or could not be. Tells whether the node failed.
    pub fn finish_negotiation(&mut self, agreed: Agreed, updated: bool) -> (failed: bool)
        ensures
            failed == !updated,
            final(self)@ == old(self)@.negotiated(agreed, updated),
    {
        if !updated {
            return true;
        }
        self.width = agreed.width;
        self.height = agreed.height;
        self.format = agreed.format;
        false
    }
}

/// How a node is published.
pub fn node_plan(camera: u32, width: u32, height: u32, format: u16) -> (plan: NodePlan)
    ensures
        plan.name@ == "anland-camera-"@ + decimal(camera as nat),
        plan.description@ == "Anland remote camera "@ + decimal(camera as nat),
        plan.offer == format_offer(width, height, format),
{
    NodePlan {
        name: numbered("anland-camera-", camera),
        description: numbered("Anland remote camera ", camera),
        offer: make_format_pod(width, height, format),
    }
}

/// A camera without a stream or without a frame shows grey, in the size that was agreed on.
pub proof fn law_without_frames_a_node_shows_grey(data: DataModel, output: Seq<u8>)
    requires
        !data.live || !data.have_frame,
        frame_bytes(data.width, data.height) matches Some(expected) && expected <= output.len(),
    ensures
        ({
            let (told, shown) = data.processed(true, output);
            let expected = frame_bytes(data.width, data.height)->0;
            &&& told == (NodeOutput::Frame { stride: data.width as i32, size: expected as u32 })
            &&& shown.len() == output.len()
            &&& forall|i: int| 0 <= i < expected ==> #[trigger] shown[i] == BLANK
            &&& forall|i: int| expected <= i < output.len() ==> #[trigger] shown[i] == output[i]
        }),
{
}

/// A node never shows part of a frame: it shows all bytes of the frame, or grey, or nothing.
pub proof fn law_frames_are_shown_whole(data: DataModel, mapped: bool, output: Seq<u8>)
    ensures
        ({
            let (told, shown) = data.processed(mapped, output);
            &&& shown.len() == output.len()
            &&& told is Frame && data.live && data.have_frame ==> shown.take(
                data.frame.len() as int,
            ) == data.frame && told->size == data.frame.len()
            &&& !(told is Frame) ==> shown == output
        }),
{
    let (told, shown) = data.processed(mapped, output);
    if told is Frame && data.live && data.have_frame {
        crate::camera::frame::law_frames_are_bounded(data.width, data.height);
        assert(shown.take(data.frame.len() as int) =~= data.frame);
    }
}

} // verus!
