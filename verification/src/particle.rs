//! The particle record.
//!
//! A particle is eight 32-bit floats: position (three), mass, velocity
//! (three), brightness.  The particle array is at once a vertex stream and a
//! storage buffer, so its layout is fixed here for every pass.

use vstd::prelude::*;

use crate::vertex::{
    lemma_packed_size_step, packed, packed_attributes, packed_size, Attribute, AttributeFormat, StepMode,
    VertexLayout,
};

verus! {

/// The number of 32-bit words in one particle.
pub const PARTICLE_WORDS: u64 = 8;

/// The size of one particle in bytes.
pub const PARTICLE_BYTES: u64 = 32;

/// The number of particles that the program simulates unless told otherwise.
pub const N_PARTS: u32 = 96304;

/// The formats of a particle's attributes, in storage order.
pub open spec fn particle_formats() -> Seq<AttributeFormat> {
    seq![
        AttributeFormat::Float32x3,
        AttributeFormat::Float32,
        AttributeFormat::Float32x3,
        AttributeFormat::Float32,
    ]
}

/// The attributes of a particle as a vertex: position at byte 0, mass at 12,
/// velocity at 16, brightness at 28.
pub open spec fn particle_attributes() -> Seq<Attribute> {
    seq![
        Attribute { location: 0, offset: 0, format: AttributeFormat::Float32x3 },
        Attribute { location: 1, offset: 12, format: AttributeFormat::Float32 },
        Attribute { location: 2, offset: 16, format: AttributeFormat::Float32x3 },
        Attribute { location: 3, offset: 28, format: AttributeFormat::Float32 },
    ]
}

/// Packing the particle formats gives the particle attributes, and fills the
/// record exactly.
pub proof fn lemma_particle_packing()
    ensures
        packed_attributes(particle_formats()) == particle_attributes(),
        packed_size(particle_formats()) == PARTICLE_BYTES,
{
    let f = particle_formats();
    assert(packed_size(f.take(0)) == 0);
    lemma_packed_size_step(f, 0);
    lemma_packed_size_step(f, 1);
    lemma_packed_size_step(f, 2);
    lemma_packed_size_step(f, 3);
    assert(f.take(4) =~= f);
    assert(packed_attributes(f) =~= particle_attributes());
}

/// The vertex layout of the particle buffer.
pub fn particle_layout() -> (layout: VertexLayout)
    ensures
        layout@.stride == PARTICLE_BYTES,
        layout@.step == StepMode::Vertex,
        layout@.attributes == particle_attributes(),
{
    let mut formats: Vec<AttributeFormat> = Vec::new();
    formats.push(AttributeFormat::Float32x3);
    formats.push(AttributeFormat::Float32);
    formats.push(AttributeFormat::Float32x3);
    formats.push(AttributeFormat::Float32);
    proof {
        assert(formats@ =~= particle_formats());
        lemma_particle_packing();
    }
    packed(&formats)
}

/// The number of whole particles in a buffer of `bytes` bytes.
pub open spec fn particles_in(bytes: nat) -> nat {
    bytes / (PARTICLE_BYTES as nat)
}

/// The number of whole particles in `bytes` bytes of particle data, as far as
/// it can be counted in 32 bits.
pub fn particle_count(bytes: usize) -> (n: Option<u32>)
    ensures
        particles_in(bytes as nat) <= u32::MAX ==> n == Some(particles_in(bytes as nat) as u32),
        particles_in(bytes as nat) > u32::MAX ==> n is None,
{
    let whole: usize = bytes / 32;
    if whole <= 0xffff_ffff {
        Some(whole as u32)
    } else {
        None
    }
}

/// The brightness of the particles of the first cluster: 1.0 as a
/// single-precision bit pattern.
pub const FULL_BRIGHTNESS: u32 = 0x3f80_0000;

/// The brightness of the particles of the second cluster: 0.5 as a
/// single-precision bit pattern.
pub const HALF_BRIGHTNESS: u32 = 0x3f00_0000;

/// What is drawn at random for one particle: where it is and how heavy, as
/// single-precision bit patterns.
#[derive(Clone, Copy, Debug, PartialEq, Eq, Structural)]
pub struct Draw {
    pub x: u32,
    pub y: u32,
    pub z: u32,
    pub mass: u32,
}

/// The brightness of particle `index` of `count`: the first half of the
/// particles is the first cluster, the rest the second.
pub open spec fn brightness_of(index: int, count: int) -> u32 {
    if index < count / 2 {
        FULL_BRIGHTNESS
    } else {
        HALF_BRIGHTNESS
    }
}

/// The record of a particle at rest: position, mass, a velocity of zero and
/// the brightness.
pub open spec fn record(draw: Draw, bright: u32) -> Seq<u32> {
    seq![draw.x, draw.y, draw.z, draw.mass, 0, 0, 0, bright]
}

/// The records of the first `k` of the particles drawn, one after the
/// other.
pub open spec fn records(draws: Seq<Draw>, k: nat) -> Seq<u32>
    decreases k,
{
    if k == 0 {
        Seq::empty()
    } else {
        records(draws, (k - 1) as nat) + record(draws[k - 1], brightness_of(k - 1, draws.len() as int))
    }
}

/// Every particle of a population has a record of eight words: it is at
/// rest where it was drawn, with the mass that was drawn, and as bright as
/// its cluster.
pub proof fn lemma_population_record(draws: Seq<Draw>, k: nat, i: int)
    requires
        0 <= i < k <= draws.len(),
    ensures
        records(draws, k).len() == 8 * k,
        records(draws, k).subrange(8 * i, 8 * i + 8) == record(draws[i], brightness_of(i, draws.len() as int)),
    decreases k,
{
    lemma_records_len(draws, k);
    lemma_records_len(draws, (k - 1) as nat);
    let last = record(draws[k - 1], brightness_of(k - 1, draws.len() as int));
    if i == k - 1 {
        assert(records(draws, k).subrange(8 * i, 8 * i + 8) =~= last);
    } else {
        lemma_population_record(draws, (k - 1) as nat, i);
        assert(records(draws, k).subrange(8 * i, 8 * i + 8) =~= records(draws, (k - 1) as nat).subrange(
            8 * i,
            8 * i + 8,
        ));
    }
}

/// The records of `k` particles take eight words each.
pub proof fn lemma_records_len(draws: Seq<Draw>, k: nat)
    ensures
        records(draws, k).len() == 8 * k,
    decreases k,
{
    if k > 0 {
        lemma_records_len(draws, (k - 1) as nat);
    }
}

/// The particles the simulation starts with, as the words of the particle
/// buffer: two clusters of equal size when `draws` has an even length, all
/// at rest, the first at full and the second at half brightness.
pub fn population(draws: &Vec<Draw>) -> (words: Vec<u32>)
    ensures
        words@ == records(draws@, draws@.len()),
{
    let half: usize = draws.len() / 2;
    let mut words: Vec<u32> = Vec::new();
    let mut i: usize = 0;
    while i < draws.len()
        invariant
            i <= draws@.len(),
            half == draws@.len() / 2,
            words@ == records(draws@, i as nat),
        decreases draws@.len() - i,
    {
        let draw = draws[i];
        let bright: u32 = if i < half {
            FULL_BRIGHTNESS
        } else {
            HALF_BRIGHTNESS
        };
        words.push(draw.x);
        words.push(draw.y);
        words.push(draw.z);
        words.push(draw.mass);
        words.push(0);
        words.push(0);
        words.push(0);
        words.push(bright);
        assert(words@ =~= records(draws@, (i + 1) as nat));
        i += 1;
    }
    words
}

} // verus!
