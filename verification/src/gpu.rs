//! The arithmetic of the GPU image processor: which compute pipelines exist,
//! how the filters run between two textures, how many workgroups cover an
//! image, and how the rows read back from a texture are stripped of the
//! padding that the copy adds to each row.
use vstd::prelude::*;

use crate::text::chars_of;

verus! {

/// A filter with a compute pipeline of its own.
#[derive(Debug, Clone, Copy, PartialEq, Eq, Structural)]
pub enum GpuFilter {
    Sobel,
    GaussianHBlur,
    GaussianVBlur,
}

/// The pipeline name of a filter.
pub open spec fn pipeline_name(f: GpuFilter) -> Seq<char> {
    match f {
        GpuFilter::Sobel => seq!['s', 'o', 'b', 'e', 'l'],
        GpuFilter::GaussianHBlur => seq![
            'g', 'a', 'u', 's', 's', 'i', 'a', 'n', '_', 'h', 'b', 'l', 'u', 'r'
        ],
        GpuFilter::GaussianVBlur => seq![
            'g', 'a', 'u', 's', 's', 'i', 'a', 'n', '_', 'v', 'b', 'l', 'u', 'r'
        ],
    }
}

impl GpuFilter {
    /// The name of the pipeline that implements the filter.
    pub fn to_string(&self) -> (s: String)
        ensures
            s@ == pipeline_name(*self),
    {
        let v: Vec<char> = match self {
            GpuFilter::Sobel => vec!['s', 'o', 'b', 'e', 'l'],
            GpuFilter::GaussianHBlur => vec![
                'g', 'a', 'u', 's', 's', 'i', 'a', 'n', '_', 'h', 'b', 'l', 'u', 'r'
            ],
            GpuFilter::GaussianVBlur => vec![
                'g', 'a', 'u', 's', 's', 'i', 'a', 'n', '_', 'v', 'b', 'l', 'u', 'r'
            ],
        };
        proof {
            assert(v@ =~= pipeline_name(*self));
        }
        crate::text::string_from_chars(&v)
    }

    /// The filter whose pipeline has the given name; pipelines of any other
    /// name are unknown.
    pub fn from_pipeline_name(name: &str) -> (r: Option<GpuFilter>)
        ensures
            r matches Some(f) ==> pipeline_name(f) == name@,
            r is None ==> forall|f: GpuFilter| pipeline_name(f) != name@,
    {
        let c = chars_of(name);
        let known = [GpuFilter::Sobel, GpuFilter::GaussianHBlur, GpuFilter::GaussianVBlur];
        let mut i: usize = 0;
        while i < 3
            invariant
                i <= 3,
                c@ == name@,
                known@ == seq![GpuFilter::Sobel, GpuFilter::GaussianHBlur, GpuFilter::GaussianVBlur],
                forall|j: int| 0 <= j < i ==> pipeline_name(#[trigger] known@[j]) != name@,
            decreases 3 - i,
        {
            let f = known[i];
            let n = f.to_chars();
            if n.len() == c.len() {
                let mut k: usize = 0;
                let mut same = true;
                while k < n.len()
                    invariant
                        n.len() == c.len(),
                        n@ == pipeline_name(f),
                        k <= n.len(),
                        same == forall|m: int| 0 <= m < k ==> n@[m] == c@[m],
                    decreases n.len() - k,
                {
                    if n[k] != c[k] {
                        same = false;
                    }
                    k = k + 1;
                }
                if same {
                    proof {
                        assert(n@ =~= c@);
                    }
                    return Some(f);
                }
                proof {
                    let m = choose|m: int| 0 <= m < k && n@[m] != c@[m];
                    assert(n@[m] != c@[m]);
                }
            }
            i = i + 1;
        }
        proof {
            assert forall|f: GpuFilter| pipeline_name(f) != name@ by {
                match f {
                    GpuFilter::Sobel => assert(pipeline_name(known@[0]) != name@),
                    GpuFilter::GaussianHBlur => assert(pipeline_name(known@[1]) != name@),
                    GpuFilter::GaussianVBlur => assert(pipeline_name(known@[2]) != name@),
                }
            }
        }
        None
    }

    fn to_chars(&self) -> (v: Vec<char>)
        ensures
            v@ == pipeline_name(*self),
    {
        let v: Vec<char> = match self {
            GpuFilter::Sobel => vec!['s', 'o', 'b', 'e', 'l'],
            GpuFilter::GaussianHBlur => vec![
                'g', 'a', 'u', 's', 's', 'i', 'a', 'n', '_', 'h', 'b', 'l', 'u', 'r'
            ],
            GpuFilter::GaussianVBlur => vec![
                'g', 'a', 'u', 's', 's', 'i', 'a', 'n', '_', 'v', 'b', 'l', 'u', 'r'
            ],
        };
        proof {
            assert(v@ =~= pipeline_name(*self));
        }
        v
    }
}

/// Side length of the square workgroup of the compute shaders.
pub const WORKGROUP_SIZE: u32 = 16;

/// Number of workgroups that cover `extent` pixels along one axis (rounded up).
pub fn workgroup_count(extent: u32) -> (n: u32)
    requires
        extent + 15 <= u32::MAX,
    ensures
        n == (extent + 15) / 16,
        n * 16 >= extent,
        n * 16 < extent + 16,
{
    (extent + 15) / 16
}

/// Bytes per pixel of the RGBA textures.
pub const BYTES_PER_PIXEL: u32 = 4;

/// Bytes of one image row without padding.
pub open spec fn unpadded_row(width: nat) -> nat {
    width * 4
}

/// Bytes of one image row as a texture-to-buffer copy lays it out: the row
/// rounded up to a multiple of 256 bytes.
pub open spec fn padded_row(width: nat) -> nat {
    ((unpadded_row(width) + 255) / 256) * 256
}

/// The layout of a read-back buffer: `(unpadded, padded)` bytes per row.
pub fn row_layout(width: u32) -> (r: (u32, u32))
    requires
        width * 4 + 255 <= u32::MAX,
    ensures
        r.0 == unpadded_row(width as nat),
        r.1 == padded_row(width as nat),
        r.0 <= r.1,
        r.1 % 256 == 0,
        r.1 < r.0 + 256,
{
    let unpadded = width * BYTES_PER_PIXEL;
    let padded = ((unpadded + 255) / 256) * 256;
    (unpadded, padded)
}

/// The tightly packed pixels of a read-back buffer: the first `unpadded`
/// bytes of every `padded`-byte chunk, in order.
pub open spec fn unpad_rows(data: Seq<u8>, unpadded: nat, padded: nat) -> Seq<u8>
    recommends
        padded > 0,
    decreases data.len(),
{
    if data.len() == 0 || padded == 0 {
        Seq::empty()
    } else if data.len() <= padded {
        data.take(unpadded as int)
    } else {
        data.take(unpadded as int) + unpad_rows(data.skip(padded as int), unpadded, padded)
    }
}

/// Strips the row padding of a read-back buffer. Every chunk of `padded`
/// bytes, the last one too, must hold at least `unpadded` bytes.
pub fn strip_row_padding(data: &[u8], unpadded: usize, padded: usize) -> (pixels: Vec<u8>)
    requires
        0 < unpadded <= padded,
        data.len() % padded == 0 || data.len() % padded >= unpadded,
    ensures
        pixels@ == unpad_rows(data@, unpadded as nat, padded as nat),
{
    let mut pixels: Vec<u8> = Vec::new();
    let mut start: usize = 0;
    proof {
        assert(data@.skip(0) == data@);
    }
    while start < data.len()
        invariant
            0 < unpadded <= padded,
            start <= data.len(),
            data.len() % padded == 0 || data.len() % padded >= unpadded,
            start % padded == 0 || start == data.len(),
            pixels@ + unpad_rows(data@.skip(start as int), unpadded as nat, padded as nat)
                == unpad_rows(data@, unpadded as nat, padded as nat),
        decreases data.len() - start,
    {
        let ghost rest = data@.skip(start as int);
        let remaining = data.len() - start;
        proof {
            lemma_chunk_room(data.len() as int, start as int, padded as int, unpadded as int);
        }
        let mut k: usize = 0;
        let ghost before = pixels@;
        while k < unpadded
            invariant
                k <= unpadded,
                start + unpadded <= data.len(),
                pixels@ == before + data@.subrange(start as int, start + k),
            decreases unpadded - k,
        {
            pixels.push(data[start + k]);
            k = k + 1;
            proof {
                assert(pixels@ =~= before + data@.subrange(start as int, start + k));
            }
        }
        proof {
            assert(rest.take(unpadded as int) =~= data@.subrange(start as int, start + unpadded));
        }
        if remaining <= padded {
            proof {
                assert(unpad_rows(rest, unpadded as nat, padded as nat) == rest.take(
                    unpadded as int,
                ));
                assert(data@.skip(data.len() as int).len() == 0);
            }
            start = data.len();
            proof {
                assert(unpad_rows(data@.skip(start as int), unpadded as nat, padded as nat)
                    =~= Seq::<u8>::empty());
                assert(pixels@ + unpad_rows(data@.skip(start as int), unpadded as nat, padded as nat)
                    =~= pixels@);
            }
        } else {
            proof {
                assert(rest.skip(padded as int) =~= data@.skip(start + padded));
                lemma_mod_step(start as int, padded as int);
            }
            start = start + padded;
            proof {
                assert(pixels@ + unpad_rows(data@.skip(start as int), unpadded as nat, padded as nat)
                    =~= before + unpad_rows(rest, unpadded as nat, padded as nat));
            }
        }
    }
    proof {
        assert(data@.skip(start as int).len() == 0);
        assert(pixels@ + Seq::<u8>::empty() =~= pixels@);
    }
    pixels
}

proof fn lemma_mod_step(start: int, padded: int)
    requires
        padded > 0,
        start >= 0,
        start % padded == 0,
    ensures
        (start + padded) % padded == 0,
{
    vstd::arithmetic::div_mod::lemma_mod_add_multiples_vanish(start, padded);
}

/// The chunk that begins at `start` holds at least `unpadded` bytes.
proof fn lemma_chunk_room(len: int, start: int, padded: int, unpadded: int)
    requires
        0 < unpadded <= padded,
        0 <= start < len,
        start % padded == 0,
        len % padded == 0 || len % padded >= unpadded,
    ensures
        start + unpadded <= len,
{
    vstd::arithmetic::div_mod::lemma_fundamental_div_mod(len, padded);
    vstd::arithmetic::div_mod::lemma_fundamental_div_mod(start, padded);
    let q = len / padded;
    let p = start / padded;
    assert(start == padded * p);
    assert(len == padded * q + len % padded);
    if p >= q {
        assert(padded * p >= padded * q) by (nonlinear_arith)
            requires
                p >= q,
                padded > 0,
        ;
        assert(len % padded < padded) by {
            vstd::arithmetic::div_mod::lemma_mod_bound(len, padded);
        }
        assert(start >= len - len % padded);
        assert(len % padded > 0);
        assert(p == q) by {
            if p > q {
                assert(padded * p >= padded * (q + 1)) by (nonlinear_arith)
                    requires
                        p >= q + 1,
                        padded > 0,
                ;
                assert(padded * (q + 1) == padded * q + padded) by (nonlinear_arith);
            }
        }
    } else {
        assert(padded * p + padded <= padded * q) by (nonlinear_arith)
            requires
                p + 1 <= q,
                padded > 0,
        ;
        assert(len % padded >= 0) by {
            vstd::arithmetic::div_mod::lemma_mod_bound(len, padded);
        }
    }
}

/// Reading back a texture of `rows` rows: the packed pixels hold
/// `rows * unpadded` bytes, and byte `c` of row `r` is byte `c` of the
/// `r`-th padded row of the buffer.
pub proof fn lemma_unpad_rows_pixel(data: Seq<u8>, unpadded: nat, padded: nat, rows: nat, r: int, c: int)
    requires
        0 < unpadded <= padded,
        data.len() == rows * padded,
        0 <= r < rows,
        0 <= c < unpadded,
    ensures
        unpad_rows(data, unpadded, padded).len() == rows * unpadded,
        r * unpadded + c < rows * unpadded,
        unpad_rows(data, unpadded, padded)[r * unpadded + c] == data[r * padded + c],
    decreases rows,
{
    let out = unpad_rows(data, unpadded, padded);
    assert(rows * padded == padded + (rows - 1) * padded) by (nonlinear_arith)
        requires
            rows >= 1,
    ;
    assert(rows * unpadded == unpadded + (rows - 1) * unpadded) by (nonlinear_arith)
        requires
            rows >= 1,
    ;
    if rows == 1 {
        assert(data.len() == padded);
        assert(out == data.take(unpadded as int));
        assert(r == 0);
        assert(r * unpadded == 0 && r * padded == 0) by (nonlinear_arith)
            requires
                r == 0,
        ;
        assert(out[r * unpadded + c] == data[r * padded + c]);
    } else {
        let rest = data.skip(padded as int);
        assert(rest.len() == (rows - 1) * padded);
        assert(data.len() > padded) by (nonlinear_arith)
            requires
                data.len() == padded + (rows - 1) * padded,
                rows >= 2,
                padded > 0,
        ;
        assert(out == data.take(unpadded as int) + unpad_rows(rest, unpadded, padded));
        if r == 0 {
            lemma_unpad_rows_pixel(rest, unpadded, padded, (rows - 1) as nat, 0, 0);
            assert(r * unpadded == 0 && r * padded == 0) by (nonlinear_arith)
                requires
                    r == 0,
            ;
            assert(out[c] == data[c]);
        } else {
            lemma_unpad_rows_pixel(rest, unpadded, padded, (rows - 1) as nat, r - 1, c);
            assert(r * unpadded + c == unpadded + ((r - 1) * unpadded + c)) by (nonlinear_arith);
            assert(r * padded + c == padded + ((r - 1) * padded + c)) by (nonlinear_arith);
            let i = (r - 1) * unpadded + c;
            assert(out[unpadded + i] == unpad_rows(rest, unpadded, padded)[i]);
            assert(0 <= (r - 1) * padded + c < (rows - 1) * padded) by (nonlinear_arith)
                requires
                    1 <= r < rows,
                    0 <= c < unpadded,
                    unpadded <= padded,
            ;
            assert(rest[(r - 1) * padded + c] == data[padded + ((r - 1) * padded + c)]);
        }
    }
    assert(r * unpadded + c < rows * unpadded) by (nonlinear_arith)
        requires
            0 <= r < rows,
            0 <= c < unpadded,
    ;
}

/// One of the two textures the filters are applied between.
#[derive(Debug, Clone, Copy, PartialEq, Eq, Structural)]
pub enum Texture {
    /// The texture the image is uploaded to.
    First,
    Second,
}

/// The other texture.
pub open spec fn other(t: Texture) -> Texture {
    match t {
        Texture::First => Texture::Second,
        Texture::Second => Texture::First,
    }
}

/// One run of a filter's pipeline: it reads `input` and writes `output`.
#[derive(Debug, Clone, Copy, PartialEq, Eq, Structural)]
pub struct Pass {
    pub filter: GpuFilter,
    pub input: Texture,
    pub output: Texture,
}

/// The runs of the filters, one after the other, alternating between the two
/// textures, and the texture the result is read back from. Each run reads
/// what the one before it wrote, the first reads the uploaded image, and the
/// result is what the last one wrote (the image itself when there are no
/// filters).
pub fn plan_passes(filters: &[GpuFilter]) -> (r: (Vec<Pass>, Texture))
    ensures
        r.0@.len() == filters@.len(),
        forall|i: int|
            0 <= i < filters@.len() ==> (#[trigger] r.0@[i]).filter == filters@[i] && r.0@[i].output
                == other(r.0@[i].input),
        filters@.len() > 0 ==> r.0@[0].input == Texture::First,
        forall|i: int| 0 < i < filters@.len() ==> (#[trigger] r.0@[i]).input == r.0@[i - 1].output,
        filters@.len() == 0 ==> r.1 == Texture::First,
        filters@.len() > 0 ==> r.1 == r.0@[filters@.len() - 1].output,
{
    let mut passes: Vec<Pass> = Vec::new();
    let mut a = Texture::First;
    let mut b = Texture::Second;
    let mut i: usize = 0;
    while i < filters.len()
        invariant
            i <= filters@.len(),
            passes@.len() == i,
            b == other(a),
            i == 0 ==> a == Texture::First,
            i > 0 ==> a == passes@[i - 1].output,
            passes@.len() > 0 ==> passes@[0].input == Texture::First,
            forall|j: int|
                0 <= j < i ==> (#[trigger] passes@[j]).filter == filters@[j] && passes@[j].output
                    == other(passes@[j].input),
            forall|j: int| 0 < j < i ==> (#[trigger] passes@[j]).input == passes@[j - 1].output,
        decreases filters.len() - i,
    {
        passes.push(Pass { filter: filters[i], input: a, output: b });
        let t = a;
        a = b;
        b = t;
        i = i + 1;
    }
    (passes, a)
}

} // verus!
