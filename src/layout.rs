//! The binary layout the shader reads.
//!
//! Every field is 32 bits wide, so a record is a sequence of words; padding words hold
//! zero and keep vector fields and nested records on the alignment the GPU requires.
//! Words are written little-endian.
//!
//! Sizes in words: envelope 8, wave 24, phase 4, lifetime 4, color effect 36, alpha
//! effect 32, spatial effect 32, effect 240, stack 1444 (5776 bytes).
use vstd::prelude::*;

use crate::alpha::AlphaEffect;
use crate::color::ColorEffect;
use crate::effect_stack::{Effect, EffectStack};
use crate::envelope::Envelope;
use crate::lifetime::Lifetime;
use crate::phase::Phase;
use crate::spatial::SpatialEffect;
use crate::wave::Wave;
use crate::MAX_FX;
use vstd::seq_lib::lemma_concat_associative;

verus! {

/// Number of words in one stack record.
pub const STACK_WORDS: usize = 1444;

/// Number of bytes in one stack record.
pub const STACK_BYTES: usize = 5776;

/// The four bytes of `w`, least significant first.
pub open spec fn le_bytes(w: u32) -> Seq<u8> {
    seq![
        (w % 256) as u8,
        ((w / 256) % 256) as u8,
        ((w / 65536) % 256) as u8,
        ((w / 16777216) % 256) as u8,
    ]
}

/// The words of `ws` written little-endian, one after another.
pub open spec fn words_to_bytes(ws: Seq<u32>) -> Seq<u8>
    decreases ws.len(),
{
    if ws.len() == 0 {
        Seq::empty()
    } else {
        words_to_bytes(ws.drop_last()) + le_bytes(ws.last())
    }
}

pub open spec fn envelope_words(e: Envelope) -> Seq<u32> {
    seq![
        e.attack.bits,
        e.hold.bits,
        e.release.bits,
        e.growth_mode,
        e.growth.bits,
        e.enabled,
        e.decay_mode,
        e.decay.bits,
    ]
}

/// Shape, frequency, amplitude, bias, phase, three padding words, then the amplitude and
/// frequency envelopes.
pub open spec fn wave_words(w: Wave) -> Seq<u32> {
    seq![w.kind, w.freq.bits, w.amp.bits, w.bias.bits, w.phase.bits, 0u32, 0u32, 0u32]
        + envelope_words(w.amp_envelope) + envelope_words(w.freq_envelope)
}

/// Start, end, and two padding words.
pub open spec fn phase_words(p: Phase) -> Seq<u32> {
    seq![p.start.bits, p.end.bits, 0u32, 0u32]
}

pub open spec fn lifetime_words(l: Lifetime) -> Seq<u32> {
    seq![l.enabled, l.looping, l.start_time.bits, l.duration.bits]
}

/// Window, wave, the four color channels, the blend mode, and three padding words.
pub open spec fn color_words(c: ColorEffect) -> Seq<u32> {
    phase_words(c.phase) + wave_words(c.wave) + seq![
        c.color.x.bits,
        c.color.y.bits,
        c.color.z.bits,
        c.color.w.bits,
        c.blend_mode,
        0u32,
        0u32,
        0u32,
    ]
}

/// Window, wave, target alpha, and three padding words.
pub open spec fn alpha_words(a: AlphaEffect) -> Seq<u32> {
    phase_words(a.phase) + wave_words(a.wave) + seq![a.target_alpha.bits, 0u32, 0u32, 0u32]
}

/// Window, wave, manipulation, intensity, and the anchor's two coordinates.
pub open spec fn spatial_words(s: SpatialEffect) -> Seq<u32> {
    phase_words(s.phase) + wave_words(s.wave) + seq![
        s.manipulation,
        s.intensity.bits,
        s.anchor.x.bits,
        s.anchor.y.bits,
    ]
}

/// Lifetime, the three color effects, the alpha effect, the three spatial effects.
#[verifier::opaque]
pub open spec fn effect_words(e: Effect) -> Seq<u32> {
    lifetime_words(e.lifetime) + color_words(e.color_effects[0]) + color_words(e.color_effects[1])
        + color_words(e.color_effects[2]) + alpha_words(e.alpha_effect) + spatial_words(
        e.spatial_effects[0],
    ) + spatial_words(e.spatial_effects[1]) + spatial_words(e.spatial_effects[2])
}

/// Tile index, three padding words, then the six effects.
#[verifier::opaque]
pub open spec fn stack_words(s: EffectStack) -> Seq<u32> {
    seq![s.tile_index, 0u32, 0u32, 0u32] + effect_words(s.effects[0]) + effect_words(s.effects[1])
        + effect_words(s.effects[2]) + effect_words(s.effects[3]) + effect_words(s.effects[4])
        + effect_words(s.effects[5])
}

/// The header and the first `n` effects of a stack's record.
pub open spec fn stack_prefix_words(s: EffectStack, n: int) -> Seq<u32>
    decreases n,
{
    if n <= 0 {
        seq![s.tile_index, 0u32, 0u32, 0u32]
    } else {
        stack_prefix_words(s, n - 1) + effect_words(s.effects[n - 1])
    }
}

/// The records of `rows`, one after another.
pub open spec fn rows_words(rows: Seq<EffectStack>) -> Seq<u32>
    decreases rows.len(),
{
    if rows.len() == 0 {
        Seq::empty()
    } else {
        rows_words(rows.drop_last()) + stack_words(rows.last())
    }
}

/// Four bytes per word.
pub proof fn lemma_words_to_bytes_len(ws: Seq<u32>)
    ensures
        words_to_bytes(ws).len() == 4 * ws.len(),
    decreases ws.len(),
{
    if ws.len() > 0 {
        lemma_words_to_bytes_len(ws.drop_last());
    }
}

/// Writing two runs of words is writing one after the other.
pub proof fn lemma_words_to_bytes_concat(a: Seq<u32>, b: Seq<u32>)
    ensures
        words_to_bytes(a + b) == words_to_bytes(a) + words_to_bytes(b),
    decreases b.len(),
{
    if b.len() == 0 {
        assert(a + b =~= a);
        assert(words_to_bytes(a) + words_to_bytes(b) =~= words_to_bytes(a));
    } else {
        lemma_words_to_bytes_concat(a, b.drop_last());
        assert((a + b).drop_last() =~= a + b.drop_last());
        assert((a + b).last() == b.last());
        lemma_concat_associative(words_to_bytes(a), words_to_bytes(b.drop_last()), le_bytes(b.last()));
    }
}

/// Every effect record has the same number of words.
pub proof fn lemma_effect_words_len(e: Effect)
    ensures
        effect_words(e).len() == 240,
{
    reveal(effect_words);
}

/// Every stack record has the same number of words.
pub proof fn lemma_stack_words_len(s: EffectStack)
    ensures
        stack_words(s).len() == STACK_WORDS,
{
    lemma_effect_words_len(s.effects[0]);
    lemma_effect_words_len(s.effects[1]);
    lemma_effect_words_len(s.effects[2]);
    lemma_effect_words_len(s.effects[3]);
    lemma_effect_words_len(s.effects[4]);
    lemma_effect_words_len(s.effects[5]);
    reveal(stack_words);
}

/// The bytes of consecutive rows: `STACK_BYTES` per row, row `t` at offset
/// `t * STACK_BYTES`.
pub proof fn lemma_rows_bytes(rows: Seq<EffectStack>)
    ensures
        words_to_bytes(rows_words(rows)).len() == rows.len() * STACK_BYTES,
        forall|t: int|
            0 <= t < rows.len() ==> #[trigger] words_to_bytes(rows_words(rows)).subrange(
                t * STACK_BYTES,
                t * STACK_BYTES + STACK_BYTES,
            ) == words_to_bytes(stack_words(rows[t])),
    decreases rows.len(),
{
    if rows.len() > 0 {
        let init = rows.drop_last();
        lemma_rows_bytes(init);
        lemma_words_to_bytes_concat(rows_words(init), stack_words(rows.last()));
        lemma_stack_words_len(rows.last());
        lemma_words_to_bytes_len(stack_words(rows.last()));
        let head = words_to_bytes(rows_words(init));
        let tail = words_to_bytes(stack_words(rows.last()));
        let all = words_to_bytes(rows_words(rows));
        assert(all == head + tail);
        assert forall|t: int| 0 <= t < rows.len() implies #[trigger] all.subrange(
            t * STACK_BYTES,
            t * STACK_BYTES + STACK_BYTES,
        ) == words_to_bytes(stack_words(rows[t])) by {
            if t < rows.len() - 1 {
                assert(init[t] == rows[t]);
                assert(head.subrange(t * STACK_BYTES, t * STACK_BYTES + STACK_BYTES) == words_to_bytes(
                    stack_words(init[t]),
                ));
                assert(all.subrange(t * STACK_BYTES, t * STACK_BYTES + STACK_BYTES) =~= head.subrange(
                    t * STACK_BYTES,
                    t * STACK_BYTES + STACK_BYTES,
                ));
            } else {
                assert(all.subrange(t * STACK_BYTES, t * STACK_BYTES + STACK_BYTES) =~= tail);
            }
        }
    }
}

fn put_envelope(out: &mut Vec<u32>, e: &Envelope)
    ensures
        final(out)@ == old(out)@ + envelope_words(*e),
{
    out.push(e.attack.bits);
    out.push(e.hold.bits);
    out.push(e.release.bits);
    out.push(e.growth_mode);
    out.push(e.growth.bits);
    out.push(e.enabled);
    out.push(e.decay_mode);
    out.push(e.decay.bits);
    assert(out@ =~= old(out)@ + envelope_words(*e));
}

fn put_wave(out: &mut Vec<u32>, w: &Wave)
    ensures
        final(out)@ == old(out)@ + wave_words(*w),
{
    out.push(w.kind);
    out.push(w.freq.bits);
    out.push(w.amp.bits);
    out.push(w.bias.bits);
    out.push(w.phase.bits);
    out.push(0);
    out.push(0);
    out.push(0);
    put_envelope(out, &w.amp_envelope);
    put_envelope(out, &w.freq_envelope);
    assert(out@ =~= old(out)@ + wave_words(*w));
}

fn put_phase(out: &mut Vec<u32>, p: &Phase)
    ensures
        final(out)@ == old(out)@ + phase_words(*p),
{
    out.push(p.start.bits);
    out.push(p.end.bits);
    out.push(0);
    out.push(0);
    assert(out@ =~= old(out)@ + phase_words(*p));
}

fn put_lifetime(out: &mut Vec<u32>, l: &Lifetime)
    ensures
        final(out)@ == old(out)@ + lifetime_words(*l),
{
    out.push(l.enabled);
    out.push(l.looping);
    out.push(l.start_time.bits);
    out.push(l.duration.bits);
    assert(out@ =~= old(out)@ + lifetime_words(*l));
}

fn put_color(out: &mut Vec<u32>, c: &ColorEffect)
    ensures
        final(out)@ == old(out)@ + color_words(*c),
{
    put_phase(out, &c.phase);
    put_wave(out, &c.wave);
    out.push(c.color.x.bits);
    out.push(c.color.y.bits);
    out.push(c.color.z.bits);
    out.push(c.color.w.bits);
    out.push(c.blend_mode);
    out.push(0);
    out.push(0);
    out.push(0);
    assert(out@ =~= old(out)@ + color_words(*c));
}

fn put_alpha(out: &mut Vec<u32>, a: &AlphaEffect)
    ensures
        final(out)@ == old(out)@ + alpha_words(*a),
{
    put_phase(out, &a.phase);
    put_wave(out, &a.wave);
    out.push(a.target_alpha.bits);
    out.push(0);
    out.push(0);
    out.push(0);
    assert(out@ =~= old(out)@ + alpha_words(*a));
}

fn put_spatial(out: &mut Vec<u32>, s: &SpatialEffect)
    ensures
        final(out)@ == old(out)@ + spatial_words(*s),
{
    put_phase(out, &s.phase);
    put_wave(out, &s.wave);
    out.push(s.manipulation);
    out.push(s.intensity.bits);
    out.push(s.anchor.x.bits);
    out.push(s.anchor.y.bits);
    assert(out@ =~= old(out)@ + spatial_words(*s));
}

fn put_effect(out: &mut Vec<u32>, e: &Effect)
    ensures
        final(out)@ == old(out)@ + effect_words(*e),
        effect_words(*e).len() == 240,
{
    reveal(effect_words);
    put_lifetime(out, &e.lifetime);
    put_color(out, &e.color_effects[0]);
    put_color(out, &e.color_effects[1]);
    put_color(out, &e.color_effects[2]);
    put_alpha(out, &e.alpha_effect);
    put_spatial(out, &e.spatial_effects[0]);
    put_spatial(out, &e.spatial_effects[1]);
    put_spatial(out, &e.spatial_effects[2]);
    assert(out@ =~= old(out)@ + effect_words(*e));
}

fn put_stack(out: &mut Vec<u32>, s: &EffectStack)
    ensures
        final(out)@ == old(out)@ + stack_words(*s),
        stack_words(*s).len() == STACK_WORDS,
{
    let ghost o = out@;
    let ghost h = seq![s.tile_index, 0u32, 0u32, 0u32];
    out.push(s.tile_index);
    out.push(0);
    out.push(0);
    out.push(0);
    assert(out@ =~= o + h);
    let ghost mut acc = h;
    let mut i: usize = 0;
    while i < MAX_FX
        invariant
            i <= MAX_FX,
            out@ == o + acc,
            acc == stack_prefix_words(*s, i as int),
            acc.len() == 4 + 240 * i,
        decreases MAX_FX - i,
    {
        put_effect(out, &s.effects[i]);
        proof {
            lemma_concat_associative(o, acc, effect_words(s.effects[i as int]));
            acc = acc + effect_words(s.effects[i as int]);
        }
        i = i + 1;
    }
    proof {
        reveal(stack_words);
        reveal_with_fuel(stack_prefix_words, 7);
    }
}

/// The words written little-endian.
pub fn to_le_bytes(ws: &Vec<u32>) -> (r: Vec<u8>)
    ensures
        r@ == words_to_bytes(ws@),
{
    let mut out: Vec<u8> = Vec::new();
    let mut i: usize = 0;
    while i < ws.len()
        invariant
            i <= ws@.len(),
            out@ == words_to_bytes(ws@.take(i as int)),
        decreases ws@.len() - i,
    {
        let w = ws[i];
        out.push((w % 256) as u8);
        out.push(((w / 256) % 256) as u8);
        out.push(((w / 65536) % 256) as u8);
        out.push(((w / 16777216) % 256) as u8);
        assert(ws@.take(i + 1).drop_last() =~= ws@.take(i as int));
        assert(out@ =~= words_to_bytes(ws@.take(i + 1)));
        i = i + 1;
    }
    assert(ws@.take(ws@.len() as int) =~= ws@);
    out
}

/// The records of `rows` as words, one after another.
pub fn rows_to_words(rows: &Vec<EffectStack>) -> (r: Vec<u32>)
    ensures
        r@ == rows_words(rows@),
{
    let mut out: Vec<u32> = Vec::new();
    let mut i: usize = 0;
    while i < rows.len()
        invariant
            i <= rows@.len(),
            out@ == rows_words(rows@.take(i as int)),
        decreases rows@.len() - i,
    {
        put_stack(&mut out, &rows[i]);
        assert(rows@.take(i + 1).drop_last() =~= rows@.take(i as int));
        i = i + 1;
    }
    assert(rows@.take(rows@.len() as int) =~= rows@);
    out
}

impl EffectStack {
    /// The stack's record as words.
    pub fn to_words(&self) -> (r: Vec<u32>)
        ensures
            r@ == stack_words(*self),
            r@.len() == STACK_WORDS,
    {
        let mut out: Vec<u32> = Vec::new();
        put_stack(&mut out, self);
        assert(out@ =~= stack_words(*self));
        out
    }

    /// The stack's record as the bytes the shader reads.
    pub fn to_bytes(&self) -> (r: Vec<u8>)
        ensures
            r@ == words_to_bytes(stack_words(*self)),
            r@.len() == STACK_BYTES,
    {
        proof {
            lemma_stack_words_len(*self);
            lemma_words_to_bytes_len(stack_words(*self));
        }
        to_le_bytes(&self.to_words())
    }
}

} // verus!
