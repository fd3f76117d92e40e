//! Where the mip levels of a texture lie in a packed source buffer, and which
//! of them are written to the device.
//!
//! A texture is stored level after level, largest first, each level rounded
//! up to whole blocks of its format. Levels smaller than one block are never
//! written.

use vstd::arithmetic::div_mod::{
    lemma_div_is_ordered, lemma_div_is_ordered_by_denominator, lemma_div_multiples_vanish,
    lemma_div_pos_is_pos, lemma_fundamental_div_mod_converse,
};
use vstd::arithmetic::mul::{lemma_mul_inequality, lemma_mul_is_commutative, lemma_mul_upper_bound};
use vstd::arithmetic::power2::{
    lemma2_to64, lemma_pow2_adds, lemma_pow2_pos, lemma_pow2_strictly_increases,
    lemma_pow2_unfold, pow2,
};
use vstd::prelude::*;

verus! {

/// The number of faces of a cube texture.
pub const CUBE_FACES: u32 = 6;

/// `floor(log2(value))` for a positive `value`, and 0 below that.
pub open spec fn log2_floor(value: int) -> int
    decreases value,
{
    if value <= 1 {
        0
    } else {
        1 + log2_floor(value / 2)
    }
}

/// `value` rounded up to a multiple of `multiple`.
pub open spec fn rounded_to_multiple(value: int, multiple: int) -> int {
    (value + multiple - 1) / multiple * multiple
}

/// `floor(log2(value))` is the one exponent whose power of two is at most
/// `value` while the next power is above it.
pub proof fn lemma_log2_floor_bounds(value: int)
    requires
        value >= 1,
    ensures
        0 <= log2_floor(value),
        pow2(log2_floor(value) as nat) <= value < 2 * pow2(log2_floor(value) as nat),
    decreases value,
{
    lemma2_to64();
    if value > 1 {
        lemma_log2_floor_bounds(value / 2);
        lemma_pow2_unfold(log2_floor(value) as nat);
    }
}

/// An exponent whose power of two is at most `value`, while the next power
/// is above it, is `floor(log2(value))`.
pub proof fn lemma_log2_floor_unique(value: int, exponent: nat)
    requires
        pow2(exponent) <= value < 2 * pow2(exponent),
    ensures
        log2_floor(value) == exponent,
    decreases exponent,
{
    lemma2_to64();
    if exponent == 0 {
        assert(value == 1);
    } else {
        lemma_pow2_unfold(exponent);
        lemma_pow2_pos((exponent - 1) as nat);
        lemma_log2_floor_unique(value / 2, (exponent - 1) as nat);
    }
}

/// `floor(log2(value))` of a positive `value`.
pub fn log2(value: u32) -> (exponent: u32)
    requires
        value > 0,
    ensures
        exponent == log2_floor(value as int),
        exponent < 32,
{
    let zeros = value.leading_zeros();
    proof {
        vstd::std_specs::bits::axiom_u32_leading_zeros(value);
    }
    let exponent: u32 = 31 - zeros;
    proof {
        let above: u32 = (32 - zeros) as u32;
        assert(above == exponent + 1);
        assert(value >= (1u32 << exponent)) by (bit_vector)
            requires
                exponent < 32,
                (value >> exponent) & 1u32 != 0u32,
        ;
        assert(exponent < 31 ==> value < (1u32 << above)) by (bit_vector)
            requires
                above == exponent + 1,
                exponent < 32,
                value >> above == 0,
        ;
        lemma2_to64();
        if exponent < 31 {
            lemma_pow2_strictly_increases(above as nat, 32);
            lemma_pow2_strictly_increases(exponent as nat, 32);
            vstd::bits::lemma_u32_shl_is_mul(1, above);
        } else {
            lemma_pow2_strictly_increases(exponent as nat, 32);
        }
        vstd::bits::lemma_u32_shl_is_mul(1, exponent);
        lemma_pow2_unfold(above as nat);
        lemma_log2_floor_unique(value as int, exponent as nat);
    }
    exponent
}

/// Rounds `value` up to a multiple of `multiple`.
pub fn round_to_multiple(value: u32, multiple: u32) -> (rounded: u32)
    requires
        multiple > 0,
        value + multiple - 1 <= u32::MAX,
    ensures
        rounded == rounded_to_multiple(value as int, multiple as int),
        rounded >= value,
        rounded < value + multiple,
        rounded % multiple == 0,
{
    let blocks = (value + (multiple - 1)) / multiple;
    proof {
        let total = value + multiple - 1;
        vstd::arithmetic::div_mod::lemma_fundamental_div_mod(total, multiple as int);
        vstd::arithmetic::div_mod::lemma_mod_bound(total, multiple as int);
        lemma_mul_is_commutative(blocks as int, multiple as int);
        vstd::arithmetic::div_mod::lemma_mod_multiples_basic(blocks as int, multiple as int);
    }
    blocks * multiple
}

/// One write of one mip level of one face: the bytes `offset..offset_end` of
/// the source go to level `mip_level` of layer `layer`, as rows of
/// `bytes_per_row` bytes that cover `width` by `height` texels.
#[derive(Debug, Clone, Copy, PartialEq, Eq, Structural)]
pub struct MipUpload {
    pub layer: u32,
    pub mip_level: u32,
    pub offset: usize,
    pub offset_end: usize,
    pub bytes_per_row: u32,
    pub width: u32,
    pub height: u32,
}

/// The shape of a texture's source data: the resolution of its largest
/// level, the number of levels stored, and the block of its format, which is
/// `block_width` texels on each side and takes `block_bytes` bytes.
#[derive(Debug, Clone, Copy, PartialEq, Eq, Structural)]
pub struct TextureLayout {
    pub width: u32,
    pub height: u32,
    pub mip_levels: u32,
    pub block_width: u32,
    pub block_bytes: u32,
}

impl TextureLayout {
    /// The smaller side of the largest level.
    pub open spec fn smaller_side(&self) -> int {
        if self.width <= self.height {
            self.width as int
        } else {
            self.height as int
        }
    }

    /// The texture has texels and at least one level, and its largest level
    /// has no fewer binary digits on its smaller side than a block has.
    pub open spec fn valid(&self) -> bool {
        &&& self.width > 0
        &&& self.height > 0
        &&& self.mip_levels > 0
        &&& self.block_width > 0
        &&& log2_floor(self.block_width as int) <= log2_floor(self.smaller_side())
    }

    /// The sizes of the largest level fit the integers that carry them.
    pub open spec fn fits(&self) -> bool {
        &&& self.width + self.block_width - 1 <= u32::MAX
        &&& self.height + self.block_width - 1 <= u32::MAX
        &&& self.level_bytes(0) <= u32::MAX
    }

    /// The number of levels that may be written: beyond it a level is
    /// smaller than one block.
    pub open spec fn max_mip_levels(&self) -> int {
        log2_floor(self.smaller_side()) - log2_floor(self.block_width as int) + 1
    }

    /// The number of levels that are written: those stored, up to the
    /// maximum.
    pub open spec fn written_levels(&self) -> int {
        if self.mip_levels <= self.max_mip_levels() {
            self.mip_levels as int
        } else {
            self.max_mip_levels()
        }
    }

    /// The width of level `mip` in whole blocks.
    pub open spec fn blocks_wide(&self, mip: nat) -> int {
        ((self.width as int) / (pow2(mip) as int) + self.block_width - 1) / (self.block_width as int)
    }

    /// The height of level `mip` in whole blocks.
    pub open spec fn blocks_high(&self, mip: nat) -> int {
        ((self.height as int) / (pow2(mip) as int) + self.block_width - 1) / (self.block_width as int)
    }

    /// The bytes of one row of blocks of level `mip`.
    pub open spec fn row_bytes(&self, mip: nat) -> int {
        self.blocks_wide(mip) * self.block_bytes
    }

    /// The bytes of level `mip`.
    pub open spec fn level_bytes(&self, mip: nat) -> int {
        self.row_bytes(mip) * self.blocks_high(mip)
    }

    /// The bytes of the levels before level `mip`: where level `mip` starts
    /// within a face.
    pub open spec fn level_offset(&self, mip: nat) -> int
        decreases mip,
    {
        if mip == 0 {
            0
        } else {
            self.level_offset((mip - 1) as nat) + self.level_bytes((mip - 1) as nat)
        }
    }

    /// The bytes of one face: all the levels stored, written or not.
    pub open spec fn face_bytes(&self) -> int {
        self.level_offset(self.mip_levels as nat)
    }

    /// The write of level `mip` of layer `layer` whose bytes start at
    /// `offset`.
    pub open spec fn upload(&self, layer: int, mip: int, offset: int) -> MipUpload {
        MipUpload {
            layer: layer as u32,
            mip_level: mip as u32,
            offset: offset as usize,
            offset_end: (offset + self.level_bytes(mip as nat)) as usize,
            bytes_per_row: self.row_bytes(mip as nat) as u32,
            width: (self.blocks_wide(mip as nat) * self.block_width) as u32,
            height: (self.blocks_high(mip as nat) * self.block_width) as u32,
        }
    }

    /// The writes of a 2D texture: its written levels in order, packed from
    /// offset 0.
    pub open spec fn uploads_2d(&self) -> Seq<MipUpload> {
        Seq::new(
            self.written_levels() as nat,
            |mip: int| self.upload(0, mip, self.level_offset(mip as nat)),
        )
    }

    /// The writes of a cube texture: face after face, the written levels of
    /// each in order. Every face takes `face_bytes` of the source, so the
    /// levels that are not written are skipped over.
    pub open spec fn uploads_cube(&self) -> Seq<MipUpload> {
        Seq::new(
            (CUBE_FACES * self.written_levels()) as nat,
            |i: int|
                self.upload(
                    i / self.written_levels(),
                    i % self.written_levels(),
                    (i / self.written_levels()) * self.face_bytes() + self.level_offset(
                        (i % self.written_levels()) as nat,
                    ),
                ),
        )
    }

    /// Between 1 and 32 levels may be written.
    pub proof fn lemma_max_mip_levels_range(&self)
        requires
            self.valid(),
        ensures
            1 <= self.max_mip_levels() <= 32,
            1 <= self.written_levels() <= self.mip_levels,
            self.written_levels() <= self.max_mip_levels(),
    {
        let side = self.smaller_side();
        lemma_log2_floor_bounds(side);
        lemma_log2_floor_bounds(self.block_width as int);
        lemma2_to64();
        if log2_floor(side) >= 32 {
            if log2_floor(side) > 32 {
                lemma_pow2_strictly_increases(32, log2_floor(side) as nat);
            }
        }
    }

    /// No level is larger than the largest: sizes and byte counts of level
    /// `mip` are bounded by those of level 0.
    pub proof fn lemma_level_bounds(&self, mip: nat)
        requires
            self.valid(),
        ensures
            0 <= self.blocks_wide(mip) <= self.blocks_wide(0),
            0 <= self.blocks_high(mip) <= self.blocks_high(0),
            1 <= self.blocks_wide(0),
            1 <= self.blocks_high(0),
            self.blocks_wide(0) * self.block_width < self.width + self.block_width,
            self.blocks_high(0) * self.block_width < self.height + self.block_width,
            self.blocks_wide(mip) * self.block_width <= self.blocks_wide(0) * self.block_width,
            self.blocks_high(mip) * self.block_width <= self.blocks_high(0) * self.block_width,
            0 <= self.row_bytes(mip) <= self.row_bytes(0) <= self.level_bytes(0),
            0 <= self.level_bytes(mip) <= self.level_bytes(0),
    {
        let bw = self.block_width as int;
        let bb = self.block_bytes as int;
        lemma2_to64();
        lemma_pow2_pos(mip);
        let p = pow2(mip) as int;
        let w = self.width as int;
        let h = self.height as int;
        lemma_div_is_ordered_by_denominator(w, 1, p);
        lemma_div_is_ordered_by_denominator(h, 1, p);
        lemma_div_pos_is_pos(w, p);
        lemma_div_pos_is_pos(h, p);
        assert(w / 1 == w);
        assert(h / 1 == h);
        lemma_div_is_ordered(w / p + bw - 1, w + bw - 1, bw);
        lemma_div_is_ordered(h / p + bw - 1, h + bw - 1, bw);
        lemma_div_pos_is_pos(w / p + bw - 1, bw);
        lemma_div_pos_is_pos(h / p + bw - 1, bw);
        lemma_div_is_ordered(bw, w + bw - 1, bw);
        lemma_div_is_ordered(bw, h + bw - 1, bw);
        assert(bw / bw == 1) by {
            vstd::arithmetic::div_mod::lemma_div_basics(bw);
        }
        let w0 = self.blocks_wide(0);
        let h0 = self.blocks_high(0);
        let wm = self.blocks_wide(mip);
        let hm = self.blocks_high(mip);
        assert(w0 == (w + bw - 1) / bw);
        assert(h0 == (h + bw - 1) / bw);
        vstd::arithmetic::div_mod::lemma_fundamental_div_mod(w + bw - 1, bw);
        vstd::arithmetic::div_mod::lemma_fundamental_div_mod(h + bw - 1, bw);
        vstd::arithmetic::div_mod::lemma_mod_bound(w + bw - 1, bw);
        vstd::arithmetic::div_mod::lemma_mod_bound(h + bw - 1, bw);
        lemma_mul_is_commutative(w0, bw);
        lemma_mul_is_commutative(h0, bw);
        lemma_mul_inequality(wm, w0, bw);
        lemma_mul_inequality(hm, h0, bw);
        lemma_mul_inequality(wm, w0, bb);
        assert(0 <= wm * bb) by (nonlinear_arith)
            requires
                0 <= wm,
                0 <= bb,
        ;
        assert(0 <= (wm * bb) * hm) by (nonlinear_arith)
            requires
                0 <= wm * bb,
                0 <= hm,
        ;
        lemma_mul_upper_bound(wm * bb, w0 * bb, hm, h0);
        assert(w0 * bb <= (w0 * bb) * h0) by (nonlinear_arith)
            requires
                0 <= w0 * bb,
                1 <= h0,
        ;
    }

    /// Levels lie one after another: offsets never decrease.
    pub proof fn lemma_level_offset_ordered(&self, earlier: nat, later: nat)
        requires
            self.valid(),
            earlier <= later,
        ensures
            0 <= self.level_offset(earlier) <= self.level_offset(later),
        decreases later,
    {
        if later == 0 {
        } else if earlier == later {
            self.lemma_level_offset_ordered(0, (later - 1) as nat);
            self.lemma_level_bounds((later - 1) as nat);
        } else {
            self.lemma_level_offset_ordered(earlier, (later - 1) as nat);
            self.lemma_level_bounds((later - 1) as nat);
        }
    }

    /// Where the block is as wide as a power of two, no written level is
    /// smaller than one block: even the smaller side of a written level
    /// spans at least a block's width.
    pub proof fn lemma_written_level_spans_block(&self, mip: nat)
        requires
            self.valid(),
            pow2(log2_floor(self.block_width as int) as nat) == self.block_width,
            mip < self.max_mip_levels(),
        ensures
            self.smaller_side() / (pow2(mip) as int) >= self.block_width,
    {
        let side = self.smaller_side();
        let t = log2_floor(side) as nat;
        let b = log2_floor(self.block_width as int) as nat;
        lemma_log2_floor_bounds(side);
        lemma_log2_floor_bounds(self.block_width as int);
        lemma_pow2_pos(mip);
        let rest = (t - mip) as nat;
        lemma_pow2_adds(rest, mip);
        lemma_div_is_ordered(pow2(t) as int, side, pow2(mip) as int);
        lemma_div_multiples_vanish(pow2(rest) as int, pow2(mip) as int);
        lemma_mul_is_commutative(pow2(rest) as int, pow2(mip) as int);
        if b < rest {
            lemma_pow2_strictly_increases(b, rest);
        }
    }

    /// Every level takes at most as many bytes as fit a `u32`, so the levels
    /// before level `mip` take at most `mip` times that.
    pub proof fn lemma_level_offset_bound(&self, mip: nat)
        requires
            self.valid(),
            self.fits(),
        ensures
            self.level_offset(mip) <= mip * u32::MAX,
        decreases mip,
    {
        if mip > 0 {
            self.lemma_level_offset_bound((mip - 1) as nat);
            self.lemma_level_bounds((mip - 1) as nat);
            assert((mip - 1) * u32::MAX + u32::MAX == mip * u32::MAX) by (nonlinear_arith);
        }
    }

    /// Where offsets have 64 bits, the written levels of a 2D texture can
    /// always be addressed, however many levels are stored.
    pub proof fn lemma_offsets_fit_2d(&self)
        requires
            self.valid(),
            self.fits(),
            usize::MAX >= 0xffff_ffff_ffff_ffff,
        ensures
            self.level_offset(self.written_levels() as nat) <= usize::MAX,
    {
        self.lemma_max_mip_levels_range();
        self.lemma_level_offset_bound(self.written_levels() as nat);
        assert(self.written_levels() * u32::MAX <= 32 * u32::MAX) by (nonlinear_arith)
            requires
                self.written_levels() <= 32,
        ;
    }

    /// Where offsets have 64 bits, the six faces of a cube texture of at most
    /// 32 stored levels can always be addressed.
    pub proof fn lemma_offsets_fit_cube(&self)
        requires
            self.valid(),
            self.fits(),
            self.mip_levels <= 32,
            usize::MAX >= 0xffff_ffff_ffff_ffff,
        ensures
            CUBE_FACES * self.face_bytes() <= usize::MAX,
    {
        self.lemma_level_offset_bound(self.mip_levels as nat);
        assert(self.mip_levels * u32::MAX <= 32 * u32::MAX) by (nonlinear_arith)
            requires
                self.mip_levels <= 32,
        ;
    }

    /// Whether the layout is [`valid`](Self::valid).
    pub fn is_valid(&self) -> (valid: bool)
        ensures
            valid == self.valid(),
    {
        if self.width == 0 || self.height == 0 || self.mip_levels == 0 || self.block_width == 0 {
            return false;
        }
        let smaller_dim = if self.width <= self.height {
            self.width
        } else {
            self.height
        };
        log2(self.block_width) <= log2(smaller_dim)
    }

    /// Whether the sizes of the largest level [fit](Self::fits) the integers
    /// that carry them.
    pub fn fits_exec(&self) -> (fits: bool)
        requires
            self.valid(),
        ensures
            fits == self.fits(),
    {
        let limit = u32::MAX - (self.block_width - 1);
        if self.width > limit || self.height > limit {
            return false;
        }
        proof {
            self.lemma_level_bounds(0);
            lemma2_to64();
            assert(self.width as int / 1 == self.width);
            assert(self.height as int / 1 == self.height);
        }
        let blocks_wide: u64 = ((self.width + (self.block_width - 1)) / self.block_width) as u64;
        let blocks_high: u64 = ((self.height + (self.block_width - 1)) / self.block_width) as u64;
        assert(blocks_wide == self.blocks_wide(0));
        assert(blocks_high == self.blocks_high(0));
        assert(blocks_wide * self.block_bytes <= 0xffff_ffff * 0xffff_ffff) by (nonlinear_arith)
            requires
                0 <= blocks_wide <= 0xffff_ffff,
                0 <= self.block_bytes <= 0xffff_ffff,
        ;
        let row_bytes: u64 = blocks_wide * (self.block_bytes as u64);
        if row_bytes > u32::MAX as u64 {
            return false;
        }
        assert(row_bytes * blocks_high <= 0xffff_ffff * 0xffff_ffff) by (nonlinear_arith)
            requires
                0 <= row_bytes <= 0xffff_ffff,
                0 <= blocks_high <= 0xffff_ffff,
        ;
        row_bytes * blocks_high <= u32::MAX as u64
    }

    /// The number of levels that may be written.
    pub fn max_mip_levels_exec(&self) -> (levels: u32)
        requires
            self.valid(),
        ensures
            levels == self.max_mip_levels(),
            1 <= levels <= 32,
    {
        proof {
            self.lemma_max_mip_levels_range();
        }
        let smaller_dim = if self.width <= self.height {
            self.width
        } else {
            self.height
        };
        let tex_mips = log2(smaller_dim);
        let block_mips = log2(self.block_width);
        tex_mips - block_mips + 1
    }

    /// The number of levels that are written: those stored, up to the
    /// maximum.
    pub fn mip_level_count(&self) -> (levels: u32)
        requires
            self.valid(),
        ensures
            levels == self.written_levels(),
            1 <= levels <= 32,
            levels <= self.mip_levels,
    {
        let max_mip_levels = self.max_mip_levels_exec();
        if self.mip_levels <= max_mip_levels {
            self.mip_levels
        } else {
            max_mip_levels
        }
    }

    /// The write of level `mip` of layer `layer` whose bytes start at
    /// `offset`.
    pub fn mip_upload(&self, layer: u32, mip: u32, offset: usize) -> (upload: MipUpload)
        requires
            self.valid(),
            self.fits(),
            mip < 32,
            offset + self.level_bytes(mip as nat) <= usize::MAX,
        ensures
            upload == self.upload(layer as int, mip as int, offset as int),
            upload.offset == offset,
            upload.offset_end == offset + self.level_bytes(mip as nat),
    {
        proof {
            self.lemma_level_bounds(mip as nat);
            lemma2_to64();
            lemma_pow2_strictly_increases(mip as nat, 32);
            vstd::bits::lemma_u32_shl_is_mul(1, mip);
            lemma_pow2_pos(mip as nat);
        }
        // Each level is half the size of the one before, so the divisors are
        // the powers of two.
        let div: u32 = 1u32 << mip;
        proof {
            lemma_div_is_ordered_by_denominator(self.width as int, 1, div as int);
            lemma_div_is_ordered_by_denominator(self.height as int, 1, div as int);
        }
        // Compressed formats store whole blocks, so the extents are rounded
        // up to the block width.
        let width = round_to_multiple(self.width / div, self.block_width);
        let height = round_to_multiple(self.height / div, self.block_width);

        let width_blocks = width / self.block_width;
        let height_blocks = height / self.block_width;
        proof {
            lemma_div_multiples_vanish(self.blocks_wide(mip as nat), self.block_width as int);
            lemma_div_multiples_vanish(self.blocks_high(mip as nat), self.block_width as int);
            lemma_mul_is_commutative(self.blocks_wide(mip as nat), self.block_width as int);
            lemma_mul_is_commutative(self.blocks_high(mip as nat), self.block_width as int);
            assert(width_blocks == self.blocks_wide(mip as nat));
            assert(height_blocks == self.blocks_high(mip as nat));
        }

        let bytes_per_row = width_blocks * self.block_bytes;
        let bytes = bytes_per_row * height_blocks;

        let offset_end = offset + bytes as usize;

        MipUpload { layer, mip_level: mip, offset, offset_end, bytes_per_row, width, height }
    }

    fn levels_bytes(&self, levels: u32) -> (total: u64)
        requires
            self.valid(),
            self.fits(),
            levels <= 32,
        ensures
            total == self.level_offset(levels as nat),
    {
        let mut total: u64 = 0;
        let mut mip: u32 = 0;
        while mip < levels
            invariant
                self.valid(),
                self.fits(),
                levels <= 32,
                0 <= mip <= levels,
                total == self.level_offset(mip as nat),
            decreases levels - mip,
        {
            proof {
                self.lemma_level_bounds(mip as nat);
                self.lemma_level_offset_bound(mip as nat);
                assert(mip * u32::MAX <= 32 * u32::MAX) by (nonlinear_arith)
                    requires
                        mip <= 32,
                ;
            }
            let upload = self.mip_upload(0, mip, 0);
            total = total + upload.offset_end as u64;
            mip = mip + 1;
        }
        total
    }

    /// Whether the written levels of a 2D texture can be addressed: whether
    /// [`texture_2d_uploads`](Self::texture_2d_uploads) may be called.
    pub fn offsets_fit_2d(&self) -> (fit: bool)
        requires
            self.valid(),
            self.fits(),
        ensures
            fit == (self.level_offset(self.written_levels() as nat) <= usize::MAX),
    {
        let written = self.mip_level_count();
        self.levels_bytes(written) <= usize::MAX as u64
    }

    /// Whether the six faces of a cube texture can be addressed and no level
    /// stored is beyond what a side has bits for: whether
    /// [`texture_cube_uploads`](Self::texture_cube_uploads) may be called.
    pub fn offsets_fit_cube(&self) -> (fit: bool)
        requires
            self.valid(),
            self.fits(),
        ensures
            fit == (self.mip_levels <= 32 && CUBE_FACES * self.face_bytes() <= usize::MAX),
    {
        if self.mip_levels > 32 {
            return false;
        }
        proof {
            self.lemma_level_offset_bound(self.mip_levels as nat);
            assert(self.mip_levels * u32::MAX <= 32 * u32::MAX) by (nonlinear_arith)
                requires
                    self.mip_levels <= 32,
            ;
        }
        let face = self.levels_bytes(self.mip_levels);
        assert(CUBE_FACES * face <= 6 * (32 * 0xffff_ffff)) by (nonlinear_arith)
            requires
                CUBE_FACES == 6,
                face <= 32 * 0xffff_ffff,
        ;
        (CUBE_FACES as u64) * face <= usize::MAX as u64
    }

    /// The writes of a 2D texture: one for each written level, largest
    /// first, with the levels packed one after another from offset 0.
    pub fn texture_2d_uploads(&self) -> (uploads: Vec<MipUpload>)
        requires
            self.valid(),
            self.fits(),
            self.level_offset(self.written_levels() as nat) <= usize::MAX,
        ensures
            uploads@ == self.uploads_2d(),
            uploads@.len() == self.written_levels(),
            forall|i: int|
                0 <= i < uploads@.len() ==> (#[trigger] uploads@[i]).mip_level == i
                    && uploads@[i].mip_level < self.max_mip_levels() && uploads@[i].layer == 0,
    {
        let mip_levels = self.mip_level_count();
        let mut uploads: Vec<MipUpload> = Vec::new();
        let mut offset: usize = 0;
        let mut mip: u32 = 0;
        while mip < mip_levels
            invariant
                self.valid(),
                self.fits(),
                mip_levels == self.written_levels(),
                mip_levels <= 32,
                self.level_offset(mip_levels as nat) <= usize::MAX,
                0 <= mip <= mip_levels,
                offset == self.level_offset(mip as nat),
                uploads@.len() == mip,
                forall|i: int|
                    0 <= i < mip ==> #[trigger] uploads@[i] == self.upload(
                        0,
                        i,
                        self.level_offset(i as nat),
                    ),
            decreases mip_levels - mip,
        {
            proof {
                self.lemma_level_offset_ordered((mip + 1) as nat, mip_levels as nat);
                self.lemma_level_bounds(mip as nat);
            }
            let upload = self.mip_upload(0, mip, offset);
            uploads.push(upload);
            offset = upload.offset_end;
            mip = mip + 1;
        }
        assert(uploads@ =~= self.uploads_2d());
        proof {
            self.lemma_max_mip_levels_range();
        }
        uploads
    }

    /// The writes of a cube texture: for each of the six faces in turn, one
    /// for each written level. Every level stored takes its place in the
    /// source, so a face's levels that are not written are skipped over and
    /// the next face starts `face_bytes` after this one.
    pub fn texture_cube_uploads(&self) -> (uploads: Vec<MipUpload>)
        requires
            self.valid(),
            self.fits(),
            self.mip_levels <= 32,
            CUBE_FACES * self.face_bytes() <= usize::MAX,
        ensures
            uploads@ == self.uploads_cube(),
            uploads@.len() == CUBE_FACES * self.written_levels(),
            forall|i: int|
                0 <= i < uploads@.len() ==> (#[trigger] uploads@[i]).mip_level
                    < self.max_mip_levels() && uploads@[i].layer < CUBE_FACES,
    {
        let max_mip_levels = self.max_mip_levels_exec();
        let ghost written = self.written_levels();
        let ghost face = self.face_bytes();
        let mut uploads: Vec<MipUpload> = Vec::new();
        let mut offset: usize = 0;
        let mut layer: u32 = 0;
        proof {
            self.lemma_max_mip_levels_range();
            self.lemma_level_offset_ordered(0, self.mip_levels as nat);
        }
        while layer < CUBE_FACES
            invariant
                self.valid(),
                self.fits(),
                self.mip_levels <= 32,
                max_mip_levels == self.max_mip_levels(),
                written == self.written_levels(),
                face == self.face_bytes(),
                1 <= written <= self.mip_levels,
                written <= max_mip_levels,
                0 <= face,
                CUBE_FACES * face <= usize::MAX,
                0 <= layer <= CUBE_FACES,
                offset == layer * face,
                uploads@.len() == layer * written,
                forall|i: int|
                    0 <= i < uploads@.len() ==> #[trigger] uploads@[i] == self.uploads_cube()[i],
            decreases CUBE_FACES - layer,
        {
            let mut mip: u32 = 0;
            // Not only the written levels: the levels that are skipped take
            // their place in the source too.
            while mip < self.mip_levels
                invariant
                    self.valid(),
                    self.fits(),
                    self.mip_levels <= 32,
                    max_mip_levels == self.max_mip_levels(),
                    written == self.written_levels(),
                    face == self.face_bytes(),
                    1 <= written <= self.mip_levels,
                    written <= max_mip_levels,
                    0 <= face,
                    CUBE_FACES * face <= usize::MAX,
                    0 <= layer < CUBE_FACES,
                    0 <= mip <= self.mip_levels,
                    offset == layer * face + self.level_offset(mip as nat),
                    uploads@.len() == layer * written + (if mip <= written {
                        mip as int
                    } else {
                        written
                    }),
                    forall|i: int|
                        0 <= i < uploads@.len() ==> #[trigger] uploads@[i]
                            == self.uploads_cube()[i],
                decreases self.mip_levels - mip,
            {
                proof {
                    self.lemma_level_offset_ordered((mip + 1) as nat, self.mip_levels as nat);
                    self.lemma_level_bounds(mip as nat);
                    assert(layer * face + face <= CUBE_FACES * face) by (nonlinear_arith)
                        requires
                            0 <= layer < CUBE_FACES,
                            0 <= face,
                    ;
                }
                let upload = self.mip_upload(layer, mip, offset);

                // Only write up to the maximum level and skip over the rest.
                if mip < max_mip_levels {
                    proof {
                        let i = uploads@.len() as int;
                        assert(i == layer * written + mip);
                        lemma_mul_is_commutative(layer as int, written);
                        lemma_fundamental_div_mod_converse(i, written, layer as int, mip as int);
                        assert(i < CUBE_FACES * written) by (nonlinear_arith)
                            requires
                                i == layer * written + mip,
                                0 <= mip < written,
                                0 <= layer < CUBE_FACES,
                        ;
                        assert(self.uploads_cube()[i] == upload);
                    }
                    uploads.push(upload);
                }
                offset = upload.offset_end;
                mip = mip + 1;
            }
            proof {
                assert(layer * face + face == (layer + 1) * face) by (nonlinear_arith);
                assert(layer * written + written == (layer + 1) * written) by (nonlinear_arith);
            }
            layer = layer + 1;
        }
        assert(uploads@ =~= self.uploads_cube());
        proof {
            assert forall|i: int| 0 <= i < uploads@.len() implies (#[trigger] uploads@[i]).mip_level
                < self.max_mip_levels() && uploads@[i].layer < CUBE_FACES by {
                vstd::arithmetic::div_mod::lemma_mod_bound(i, written);
                vstd::arithmetic::div_mod::lemma_div_pos_is_pos(i, written);
                vstd::arithmetic::div_mod::lemma_fundamental_div_mod(i, written);
                let q = i / written;
                assert(q < CUBE_FACES) by (nonlinear_arith)
                    requires
                        i == written * q + i % written,
                        0 <= i % written,
                        i < CUBE_FACES * written,
                        written > 0,
                ;
            }
        }
        uploads
    }
}

} // verus!
