//! Buffers that the passes share.

use std::rc::Rc;
use vstd::prelude::*;

use crate::context::Gpu;
use crate::error::{staged, BuildError, BuildStage};
use crate::gpu::{buffer_request, create_buffer, word_bytes, write_buffer};
use crate::particle::{particle_count, particles_in};

verus! {

/// Buffer usage: may be the source of a copy.
pub const USAGE_COPY_SRC: u32 = 4;

/// Buffer usage: may be the destination of a copy or a queue write.
pub const USAGE_COPY_DST: u32 = 8;

/// Buffer usage: may be bound as a vertex buffer.
pub const USAGE_VERTEX: u32 = 32;

/// Buffer usage: may be bound as a uniform buffer.
pub const USAGE_UNIFORM: u32 = 64;

/// Buffer usage: may be bound as a storage buffer.
pub const USAGE_STORAGE: u32 = 128;

/// A uniform buffer of 32-bit words that the queue can overwrite.
pub struct UniformBuffer {
    buffer: wgpu::Buffer,
    label: String,
    words: usize,
    initial: Ghost<Seq<u32>>,
}

/// What becomes of the device's answer to a write into a new buffer: nothing
/// on success, the refusal as a build error otherwise.
pub fn written(answer: Option<wgpu::Error>) -> (r: Result<(), BuildError>)
    ensures
        answer is None <==> r is Ok,
        r matches Err(e) ==> e.stage == BuildStage::Buffer,
{
    match answer {
        None => Ok(()),
        Some(cause) => staged(BuildStage::Buffer, Err(cause)),
    }
}

impl UniformBuffer {
    /// The diagnostic label of this buffer.
    pub closed spec fn label(&self) -> Seq<char> {
        self.label@
    }

    /// The buffer that the device made.
    pub closed spec fn handle(&self) -> wgpu::Buffer {
        self.buffer
    }

    /// The words that were written into the buffer when it was made.
    pub closed spec fn initial(&self) -> Seq<u32> {
        self.initial@
    }

    /// The number of words this buffer holds.
    pub closed spec fn words(&self) -> nat {
        self.words as nat
    }

    /// Creates a buffer of the size of `contents` and writes `contents`
    /// into it.
    ///
    /// The device alone decides whether the buffer can be had and written.
    pub fn new(gpu: &Gpu, label: &str, contents: &[u32]) -> (r: Result<UniformBuffer, BuildError>)
        ensures
            r matches Ok(b) ==> b.label() == label@ && b.words() == contents@.len() && b.initial() == contents@
                && buffer_request(b.handle()) == (label@, (4 * contents@.len()) as u64, 72u32),
            r matches Err(e) ==> e.stage == BuildStage::Buffer,
    {
        let bytes = word_bytes(contents);
        assert(USAGE_UNIFORM | USAGE_COPY_DST == 72) by (bit_vector)
            requires
                USAGE_UNIFORM == 64,
                USAGE_COPY_DST == 8,
        ;
        let buffer = match staged(
            BuildStage::Buffer,
            create_buffer(gpu.device(), label, bytes.len() as u64, USAGE_UNIFORM | USAGE_COPY_DST),
        ) {
            Ok(buffer) => buffer,
            Err(e) => {
                return Err(e);
            },
        };
        match written(write_buffer(gpu.device(), gpu.queue(), &buffer, 0, bytes)) {
            Err(e) => Err(e),
            Ok(()) => Ok(
                UniformBuffer { buffer, label: label.to_owned(), words: contents.len(), initial: Ghost(contents@) },
            ),
        }
    }

    /// The number of words this buffer holds.
    pub fn len(&self) -> (n: usize)
        ensures
            n == self.words(),
    {
        self.words
    }

    /// The device's buffer.
    pub fn buffer(&self) -> (buffer: &wgpu::Buffer)
        ensures
            *buffer == self.handle(),
    {
        &self.buffer
    }
}

/// The particle array on the GPU.  Its length is fixed when it is created:
/// nothing in this crate resizes it.
pub struct Buffers {
    /// The particle records, shared by the passes that read or write them.
    pub star_buffer: Rc<wgpu::Buffer>,
    /// The number of particles in `star_buffer`.
    pub particles: u32,
}

/// The usage bits of the particle buffer: vertex input and storage, filled
/// through the queue; if it is to be read back, it may also be copied from.
pub open spec fn star_usage(readable: bool) -> u32 {
    if readable {
        172
    } else {
        168
    }
}

impl Buffers {
    /// Uploads particle records.  `contents` holds whole particles one
    /// after the other; bytes behind the last whole particle are uploaded but
    /// not counted.  `readable` says whether the buffer may later be copied
    /// from, to read the particles back.
    ///
    /// Fails without asking the device if there are more particles than a
    /// 32-bit count can hold; otherwise the device decides.
    pub fn new(gpu: &Gpu, contents: &[u8], readable: bool) -> (r: Result<Buffers, BuildError>)
        ensures
            r matches Ok(b) ==> b.particles == particles_in(contents@.len()) && buffer_request(*b.star_buffer) == (
                "Star Buffer"@,
                contents@.len() as u64,
                star_usage(readable),
            ),
            r matches Err(e) ==> e.stage == BuildStage::Buffer,
            particles_in(contents@.len()) > u32::MAX ==> r is Err,
    {
        match particle_count(contents.len()) {
            None => Err(
                BuildError { stage: BuildStage::Buffer, message: "too many particles to count".to_owned() },
            ),
            Some(particles) => {
                assert(USAGE_VERTEX | USAGE_STORAGE | USAGE_COPY_DST == 168) by (bit_vector)
                    requires
                        USAGE_VERTEX == 32,
                        USAGE_STORAGE == 128,
                        USAGE_COPY_DST == 8,
                ;
                assert(USAGE_VERTEX | USAGE_STORAGE | USAGE_COPY_DST | USAGE_COPY_SRC == 172) by (bit_vector)
                    requires
                        USAGE_VERTEX == 32,
                        USAGE_STORAGE == 128,
                        USAGE_COPY_SRC == 4,
                        USAGE_COPY_DST == 8,
                ;
                let usage: u32 = if readable {
                    USAGE_VERTEX | USAGE_STORAGE | USAGE_COPY_DST | USAGE_COPY_SRC
                } else {
                    USAGE_VERTEX | USAGE_STORAGE | USAGE_COPY_DST
                };
                let buffer = match staged(
                    BuildStage::Buffer,
                    create_buffer(gpu.device(), "Star Buffer", contents.len() as u64, usage),
                ) {
                    Ok(buffer) => buffer,
                    Err(e) => {
                        return Err(e);
                    },
                };
                match written(write_buffer(gpu.device(), gpu.queue(), &buffer, 0, contents)) {
                    Err(e) => Err(e),
                    Ok(()) => Ok(Buffers { star_buffer: Rc::new(buffer), particles }),
                }
            },
        }
    }
}

} // verus!
