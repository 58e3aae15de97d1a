//! The byte layout of everything the renderer uploads.
//!
//! A scalar is a 32-bit word: an unsigned integer, or the bit pattern of an
//! IEEE-754 single-precision number. Words are laid out least significant byte
//! first, fields in declaration order, records back to back with no gap. The
//! shading program indexes its buffers by the same strides.

use vstd::prelude::*;

verus! {

/// Bytes in one camera uniform.
pub const CAMERA_SIZE: usize = 8;

/// Bytes in one time uniform.
pub const TIME_SIZE: usize = 8;

/// Bytes in one object record.
pub const SPHERE_SIZE: usize = 32;

/// Bytes in one vertex of the static geometry.
pub const VERTEX_SIZE: usize = 20;

/// Bytes in one index of the static geometry.
pub const INDEX_SIZE: usize = 2;

/// The four bytes of a word, least significant first.
pub open spec fn word_bytes(word: u32) -> Seq<u8> {
    seq![
        (word % 256) as u8,
        (word / 256 % 256) as u8,
        (word / 65536 % 256) as u8,
        (word / 16777216) as u8,
    ]
}

/// The bytes of a run of words: four per word, in order.
pub open spec fn words_bytes(words: Seq<u32>) -> Seq<u8> {
    Seq::new(4 * words.len(), |i: int| word_bytes(words[i / 4])[i % 4])
}

/// The two bytes of a 16-bit index, least significant first.
pub open spec fn index_bytes(index: u16) -> Seq<u8> {
    seq![(index % 256) as u8, (index / 256) as u8]
}

/// The bytes of a word are its digits to the base 256, lowest first: the word
/// is their sum, each weighted by its place.
pub proof fn lemma_word_bytes_are_digits(word: u32)
    ensures
        word_bytes(word).len() == 4,
        word == word_bytes(word)[0] + 256 * word_bytes(word)[1] + 65536 * word_bytes(word)[2]
            + 16777216 * word_bytes(word)[3],
{
}

/// Appends the four bytes of `word` to `out`.
pub fn push_word(out: &mut Vec<u8>, word: u32)
    ensures
        final(out)@ == old(out)@ + word_bytes(word),
{
    out.push((word % 256) as u8);
    out.push((word / 256 % 256) as u8);
    out.push((word / 65536 % 256) as u8);
    out.push((word / 16777216) as u8);
    assert(out@ =~= old(out)@ + word_bytes(word));
}

/// The surface dimensions, as the shading program reads them.
#[derive(Clone, Copy, Debug, PartialEq, Eq)]
pub struct CameraUniform {
    /// Width of the surface in pixels.
    pub width: u32,
    /// Height of the surface in pixels.
    pub height: u32,
}

impl CameraUniform {
    /// The words of the uniform: width, then height.
    pub open spec fn words(self) -> Seq<u32> {
        seq![self.width, self.height]
    }

    /// The eight bytes of the uniform.
    pub open spec fn bytes(self) -> Seq<u8> {
        words_bytes(self.words())
    }

    /// Lays the uniform out as bytes.
    pub fn to_bytes(&self) -> (out: Vec<u8>)
        ensures
            out@ == self.bytes(),
            out@.len() == CAMERA_SIZE,
    {
        let mut out: Vec<u8> = Vec::new();
        push_word(&mut out, self.width);
        push_word(&mut out, self.height);
        assert(out@ =~= self.bytes());
        out
    }
}

/// The time since the session began, as the shading program reads it.
#[derive(Clone, Copy, Debug, PartialEq, Eq)]
pub struct TimeUniform {
    /// Elapsed milliseconds, as a single-precision bit pattern.
    pub elapsed_ms: u32,
}

impl TimeUniform {
    /// The words of the uniform: the elapsed time, then one word of padding that
    /// is always zero.
    pub open spec fn words(self) -> Seq<u32> {
        seq![self.elapsed_ms, 0u32]
    }

    /// The eight bytes of the uniform.
    pub open spec fn bytes(self) -> Seq<u8> {
        words_bytes(self.words())
    }

    /// Lays the uniform out as bytes.
    pub fn to_bytes(&self) -> (out: Vec<u8>)
        ensures
            out@ == self.bytes(),
            out@.len() == TIME_SIZE,
    {
        let mut out: Vec<u8> = Vec::new();
        push_word(&mut out, self.elapsed_ms);
        push_word(&mut out, 0);
        assert(out@ =~= self.bytes());
        out
    }
}

/// One object of the scene: a sphere. Every scalar is a single-precision bit
/// pattern.
#[derive(Clone, Copy, Debug, PartialEq, Eq)]
pub struct Sphere {
    /// Centre of the sphere: x, y, z.
    pub position: [u32; 3],
    /// Radius of the sphere.
    pub radius: u32,
    /// Colour of the sphere: red, green, blue, alpha.
    pub color: [u32; 4],
}

impl Sphere {
    /// The eight words of the record: position, radius, colour.
    pub open spec fn words(self) -> Seq<u32> {
        seq![
            self.position[0],
            self.position[1],
            self.position[2],
            self.radius,
            self.color[0],
            self.color[1],
            self.color[2],
            self.color[3],
        ]
    }

    /// The thirty-two bytes of the record.
    pub open spec fn bytes(self) -> Seq<u8> {
        words_bytes(self.words())
    }

    /// Appends the bytes of the record to `out`.
    pub fn write_to(&self, out: &mut Vec<u8>)
        ensures
            final(out)@ == old(out)@ + self.bytes(),
    {
        push_word(out, self.position[0]);
        push_word(out, self.position[1]);
        push_word(out, self.position[2]);
        push_word(out, self.radius);
        push_word(out, self.color[0]);
        push_word(out, self.color[1]);
        push_word(out, self.color[2]);
        push_word(out, self.color[3]);
        assert(out@ =~= old(out)@ + self.bytes());
    }
}

/// The bytes of a run of object records: thirty-two per record, in order.
pub open spec fn spheres_bytes(spheres: Seq<Sphere>) -> Seq<u8> {
    Seq::new(32 * spheres.len(), |i: int| spheres[i / 32].bytes()[i % 32])
}

/// The layout loses nothing: two scenes with the same bytes are the same
/// records in the same order.
pub proof fn lemma_spheres_bytes_injective(a: Seq<Sphere>, b: Seq<Sphere>)
    requires
        spheres_bytes(a) == spheres_bytes(b),
    ensures
        a == b,
{
    assert(spheres_bytes(a).len() == 32 * a.len());
    assert(spheres_bytes(b).len() == 32 * b.len());
    assert(a.len() == b.len());
    assert forall|k: int| 0 <= k < a.len() implies a[k] == b[k] by {
        assert forall|w: int| 0 <= w < 8 implies a[k].words()[w] == b[k].words()[w] by {
            assert forall|j: int| 0 <= j < 4 implies word_bytes(a[k].words()[w])[j] == word_bytes(
                b[k].words()[w],
            )[j] by {
                let i = 32 * k + 4 * w + j;
                let n = 4 * w + j;
                assert(i / 32 == k && i % 32 == n);
                assert(n / 4 == w && n % 4 == j);
                assert(a[k].words().len() == 8 && b[k].words().len() == 8);
                assert(spheres_bytes(a)[i] == a[k].bytes()[n]);
                assert(spheres_bytes(b)[i] == b[k].bytes()[n]);
                assert(a[k].bytes()[n] == word_bytes(a[k].words()[w])[j]);
                assert(b[k].bytes()[n] == word_bytes(b[k].words()[w])[j]);
            }
            lemma_word_bytes_are_digits(a[k].words()[w]);
            lemma_word_bytes_are_digits(b[k].words()[w]);
        }
        let x = a[k];
        let y = b[k];
        assert(x.words()[0] == y.words()[0]);
        assert(x.words()[1] == y.words()[1]);
        assert(x.words()[2] == y.words()[2]);
        assert(x.words()[3] == y.words()[3]);
        assert(x.words()[4] == y.words()[4]);
        assert(x.words()[5] == y.words()[5]);
        assert(x.words()[6] == y.words()[6]);
        assert(x.words()[7] == y.words()[7]);
        assert(x.position =~= y.position);
        assert(x.color =~= y.color);
    }
    assert(a =~= b);
}

/// Laying out one more record appends its bytes.
pub proof fn lemma_spheres_bytes_push(spheres: Seq<Sphere>, sphere: Sphere)
    ensures
        spheres_bytes(spheres.push(sphere)) == spheres_bytes(spheres) + sphere.bytes(),
{
    assert(spheres_bytes(spheres.push(sphere)) =~= spheres_bytes(spheres) + sphere.bytes());
}

/// Lays a run of object records out as bytes.
pub fn encode_spheres(spheres: &[Sphere]) -> (out: Vec<u8>)
    ensures
        out@ == spheres_bytes(spheres@),
        out@.len() == 32 * spheres@.len(),
{
    let mut out: Vec<u8> = Vec::new();
    let mut i: usize = 0;
    assert(out@ =~= spheres_bytes(spheres@.take(0)));
    while i < spheres.len()
        invariant
            i <= spheres.len(),
            out@ == spheres_bytes(spheres@.take(i as int)),
        decreases spheres.len() - i,
    {
        spheres[i].write_to(&mut out);
        proof {
            lemma_spheres_bytes_push(spheres@.take(i as int), spheres@[i as int]);
            assert(spheres@.take(i as int).push(spheres@[i as int]) =~= spheres@.take(i + 1));
        }
        i += 1;
    }
    assert(spheres@.take(i as int) =~= spheres@);
    out
}

/// One corner of the static geometry. Every scalar is a single-precision bit
/// pattern.
#[derive(Clone, Copy, Debug, PartialEq, Eq)]
pub struct Vertex {
    /// Position in clip space: x, y, z.
    pub position: [u32; 3],
    /// Coordinates handed to the fragment stage: u, v.
    pub uv: [u32; 2],
}

impl Vertex {
    /// The five words of the vertex: position, then coordinates.
    pub open spec fn words(self) -> Seq<u32> {
        seq![self.position[0], self.position[1], self.position[2], self.uv[0], self.uv[1]]
    }

    /// The twenty bytes of the vertex.
    pub open spec fn bytes(self) -> Seq<u8> {
        words_bytes(self.words())
    }

    /// A vertex from its position and coordinates.
    pub fn new(position: [u32; 3], uv: [u32; 2]) -> (vertex: Vertex)
        ensures
            vertex == (Vertex { position, uv }),
    {
        Vertex { position, uv }
    }

    /// Appends the bytes of the vertex to `out`.
    pub fn write_to(&self, out: &mut Vec<u8>)
        ensures
            final(out)@ == old(out)@ + self.bytes(),
    {
        push_word(out, self.position[0]);
        push_word(out, self.position[1]);
        push_word(out, self.position[2]);
        push_word(out, self.uv[0]);
        push_word(out, self.uv[1]);
        assert(out@ =~= old(out)@ + self.bytes());
    }
}

/// The bytes of a run of vertices: twenty per vertex, in order.
pub open spec fn vertices_bytes(vertices: Seq<Vertex>) -> Seq<u8> {
    Seq::new(20 * vertices.len(), |i: int| vertices[i / 20].bytes()[i % 20])
}

/// The bytes of a run of indices: two per index, in order.
pub open spec fn indices_bytes(indices: Seq<u16>) -> Seq<u8> {
    Seq::new(2 * indices.len(), |i: int| index_bytes(indices[i / 2])[i % 2])
}

/// Lays a run of vertices out as bytes.
pub fn encode_vertices(vertices: &[Vertex]) -> (out: Vec<u8>)
    ensures
        out@ == vertices_bytes(vertices@),
        out@.len() == 20 * vertices@.len(),
{
    let mut out: Vec<u8> = Vec::new();
    let mut i: usize = 0;
    assert(out@ =~= vertices_bytes(vertices@.take(0)));
    while i < vertices.len()
        invariant
            i <= vertices.len(),
            out@ == vertices_bytes(vertices@.take(i as int)),
        decreases vertices.len() - i,
    {
        vertices[i].write_to(&mut out);
        proof {
            let done = vertices@.take(i as int);
            let next = vertices@[i as int];
            assert(vertices_bytes(done.push(next)) =~= vertices_bytes(done) + next.bytes());
            assert(done.push(next) =~= vertices@.take(i + 1));
        }
        i += 1;
    }
    assert(vertices@.take(i as int) =~= vertices@);
    out
}

/// Lays a run of indices out as bytes.
pub fn encode_indices(indices: &[u16]) -> (out: Vec<u8>)
    ensures
        out@ == indices_bytes(indices@),
        out@.len() == 2 * indices@.len(),
{
    let mut out: Vec<u8> = Vec::new();
    let mut i: usize = 0;
    assert(out@ =~= indices_bytes(indices@.take(0)));
    while i < indices.len()
        invariant
            i <= indices.len(),
            out@ == indices_bytes(indices@.take(i as int)),
        decreases indices.len() - i,
    {
        let index: u16 = indices[i];
        out.push((index % 256) as u8);
        out.push((index / 256) as u8);
        proof {
            let done = indices@.take(i as int);
            assert(out@ =~= indices_bytes(done) + index_bytes(index));
            assert(indices_bytes(done.push(index)) =~= indices_bytes(done) + index_bytes(index));
            assert(done.push(index) =~= indices@.take(i + 1));
        }
        i += 1;
    }
    assert(indices@.take(i as int) =~= indices@);
    out
}

} // verus!
