//! What the reset handler does to memory before `main` runs: copy the
//! initialised data image from flash into RAM and clear the
//! zero-initialised section.
//!
//! Memory is a slice of 32-bit words whose first word sits at byte address
//! `base`: word `i` of the slice is the word at byte address `base + 4 * i`.
use vstd::prelude::*;
use vstd::arithmetic::div_mod::{lemma_mod_sub_multiples_vanish, lemma_small_mod};

verus! {

/// Where the linker placed the sections that start-up prepares: the
/// initialised data image in flash begins at `text_end`; it is copied to
/// `relocate_start .. relocate_end` in RAM; `zero_start .. zero_end` is the
/// zero-initialised section.  All five are byte addresses.
#[derive(Clone, Copy)]
pub struct SectionLayout {
    pub text_end: usize,
    pub relocate_start: usize,
    pub relocate_end: usize,
    pub zero_start: usize,
    pub zero_end: usize,
}

/// Byte address `addr` is a word address (as the address of a `u32` is).
pub open spec fn word_aligned(addr: int) -> bool {
    addr % 4 == 0
}

/// The index of the word at byte address `addr` in memory that begins at
/// byte address `base`.
pub open spec fn word_index(base: int, addr: int) -> int {
    (addr - base) / 4
}

/// The number of words in the byte range `start .. end`; none when the
/// range is empty or reversed.
pub open spec fn word_count(start: int, end: int) -> int {
    if start < end {
        (end - start) / 4
    } else {
        0
    }
}

/// The `n` words from byte address `addr` lie inside `len` words of memory
/// that begin at byte address `base`.
pub open spec fn covers(base: int, len: int, addr: int, n: int) -> bool {
    &&& base <= addr
    &&& addr + 4 * n <= base + 4 * len
}

/// The value that a forward, word-by-word copy of `n` words from word index
/// `si` to word index `di` leaves in word `di + k` (`k < n`).  When the
/// destination lies above an overlapping source, the first `di - si` source
/// words repeat.
pub open spec fn copied_word(old: Seq<u32>, si: int, di: int, k: int) -> u32 {
    if si < di {
        old[si + k % (di - si)]
    } else {
        old[si + k]
    }
}

/// The words after a forward copy of `n` words from index `si` to index
/// `di`: the destination words hold `copied_word`, every other word is as
/// it was.
pub open spec fn forward_copy(old: Seq<u32>, si: int, di: int, n: int) -> Seq<u32> {
    Seq::new(
        old.len(),
        |i: int|
            if di <= i < di + n {
                copied_word(old, si, di, i - di)
            } else {
                old[i]
            },
    )
}

/// The words after the `n` words from index `zi` are set to zero.
pub open spec fn zero_fill(old: Seq<u32>, zi: int, n: int) -> Seq<u32> {
    Seq::new(old.len(), |i: int| if zi <= i < zi + n { 0u32 } else { old[i] })
}

/// The words, of memory that begins at byte address `base`, after the data
/// copy of start-up: nothing changes when the image already sits at its
/// run-time address or the data section is empty; else a forward copy from
/// `text_end` to `start`.
pub open spec fn relocated_words(
    base: int,
    words: Seq<u32>,
    text_end: int,
    start: int,
    end: int,
) -> Seq<u32> {
    if text_end != start && start < end {
        forward_copy(
            words,
            word_index(base, text_end),
            word_index(base, start),
            word_count(start, end),
        )
    } else {
        words
    }
}

/// The words, of memory that begins at byte address `base`, after the byte
/// range `start .. end` is cleared.
pub open spec fn zeroed_words(base: int, words: Seq<u32>, start: int, end: int) -> Seq<u32> {
    zero_fill(words, word_index(base, start), word_count(start, end))
}

/// The words, of memory that begins at byte address `base`, after start-up:
/// the data image copied, then the zero-initialised section cleared.
pub open spec fn startup_words(base: int, words: Seq<u32>, layout: SectionLayout) -> Seq<u32> {
    zeroed_words(
        base,
        relocated_words(
            base,
            words,
            layout.text_end as int,
            layout.relocate_start as int,
            layout.relocate_end as int,
        ),
        layout.zero_start as int,
        layout.zero_end as int,
    )
}

/// What the data copy may read or write lies inside `len` words of memory
/// that begin at byte address `base`.
pub open spec fn relocation_fits(base: int, len: int, text_end: int, start: int, end: int) -> bool {
    text_end != start && start < end ==> {
        &&& covers(base, len, start, word_count(start, end))
        &&& covers(base, len, text_end, word_count(start, end))
    }
}

/// What the clearing may write lies inside `len` words of memory that begin
/// at byte address `base`.
pub open spec fn zeroing_fits(base: int, len: int, start: int, end: int) -> bool {
    start < end ==> covers(base, len, start, word_count(start, end))
}

/// The layout's addresses are word addresses and every word that start-up
/// reads or writes lies inside `len` words of memory that begin at byte
/// address `base`.
pub open spec fn layout_fits(base: int, len: int, layout: SectionLayout) -> bool {
    &&& word_aligned(base)
    &&& word_aligned(layout.text_end as int)
    &&& word_aligned(layout.relocate_start as int)
    &&& word_aligned(layout.relocate_end as int)
    &&& word_aligned(layout.zero_start as int)
    &&& word_aligned(layout.zero_end as int)
    &&& relocation_fits(
        base,
        len,
        layout.text_end as int,
        layout.relocate_start as int,
        layout.relocate_end as int,
    )
    &&& zeroing_fits(base, len, layout.zero_start as int, layout.zero_end as int)
}

/// Copies the initialised data image from `text_end` to `start .. end`, one
/// word at a time from the lowest address up, unless the image already sits
/// at its run-time address.
pub fn relocate_data(memory: &mut [u32], base: usize, text_end: usize, start: usize, end: usize)
    requires
        word_aligned(base as int),
        word_aligned(text_end as int),
        word_aligned(start as int),
        word_aligned(end as int),
        relocation_fits(base as int, old(memory)@.len() as int, text_end as int, start as int, end as int),
    ensures
        final(memory)@ == relocated_words(
            base as int,
            old(memory)@,
            text_end as int,
            start as int,
            end as int,
        ),
{
    if text_end != start && start < end {
        let ghost old_words = memory@;
        let si: usize = (text_end - base) / 4;
        let di: usize = (start - base) / 4;
        let n: usize = (end - start) / 4;
        let mut k: usize = 0;
        while k < n
            invariant
                old_words == old(memory)@,
                si == word_index(base as int, text_end as int),
                di == word_index(base as int, start as int),
                n == word_count(start as int, end as int),
                si + n <= old_words.len(),
                di + n <= old_words.len(),
                k <= n,
                memory@ == forward_copy(old_words, si as int, di as int, k as int),
            decreases n - k,
        {
            proof {
                lemma_copy_step(old_words, si as int, di as int, k as int);
            }
            let w = memory[si + k];
            memory[di + k] = w;
            k = k + 1;
            proof {
                assert(memory@ =~= forward_copy(old_words, si as int, di as int, k as int));
            }
        }
    }
}

/// Sets every word in the byte range `start .. end` to zero.
pub fn zero_region(memory: &mut [u32], base: usize, start: usize, end: usize)
    requires
        word_aligned(base as int),
        word_aligned(start as int),
        word_aligned(end as int),
        zeroing_fits(base as int, old(memory)@.len() as int, start as int, end as int),
    ensures
        final(memory)@ == zeroed_words(base as int, old(memory)@, start as int, end as int),
{
    if start < end {
        let ghost old_words = memory@;
        let zi: usize = (start - base) / 4;
        let n: usize = (end - start) / 4;
        let mut k: usize = 0;
        while k < n
            invariant
                old_words == old(memory)@,
                zi == word_index(base as int, start as int),
                n == word_count(start as int, end as int),
                zi + n <= old_words.len(),
                k <= n,
                memory@ == zero_fill(old_words, zi as int, k as int),
            decreases n - k,
        {
            memory[zi + k] = 0;
            k = k + 1;
            proof {
                assert(memory@ =~= zero_fill(old_words, zi as int, k as int));
            }
        }
    } else {
        proof {
            assert(memory@ =~= zeroed_words(base as int, old(memory)@, start as int, end as int));
        }
    }
}

/// Prepares memory the way the reset handler does before `main`: copies the
/// initialised data image from flash into RAM (unless it already sits
/// there), then clears the zero-initialised section.
pub fn initialize_memory(memory: &mut [u32], base: usize, layout: SectionLayout)
    requires
        layout_fits(base as int, old(memory)@.len() as int, layout),
    ensures
        final(memory)@ == startup_words(base as int, old(memory)@, layout),
{
    relocate_data(memory, base, layout.text_end, layout.relocate_start, layout.relocate_end);
    zero_region(memory, base, layout.zero_start, layout.zero_end);
}

/// The lowest byte address start-up may touch: the least of the three
/// section starts.
pub open spec fn span_low(layout: SectionLayout) -> int {
    let a = layout.text_end as int;
    let b = layout.relocate_start as int;
    let c = layout.zero_start as int;
    if a <= b && a <= c {
        a
    } else if b <= c {
        b
    } else {
        c
    }
}

/// Just past the highest byte address start-up may touch: the greatest end
/// of the flash image, the data section and the zero-initialised section.
pub open spec fn span_high(layout: SectionLayout) -> int {
    let d = 4 * word_count(layout.relocate_start as int, layout.relocate_end as int);
    let a = layout.text_end + d;
    let b = layout.relocate_start + d;
    let c = layout.zero_start + 4 * word_count(layout.zero_start as int, layout.zero_end as int);
    if a >= b && a >= c {
        a
    } else if b >= c {
        b
    } else {
        c
    }
}

/// `base` is the least of the three section starts: no start lies below
/// it, and it is one of them.
pub open spec fn span_starts_at(layout: SectionLayout, base: int) -> bool {
    &&& base <= layout.text_end
    &&& base <= layout.relocate_start
    &&& base <= layout.zero_start
    &&& (base == layout.text_end || base == layout.relocate_start || base == layout.zero_start)
}

/// The three ends that start-up reaches: of the flash image, of the data
/// section and of the zero-initialised section.
pub open spec fn section_ends(layout: SectionLayout) -> (int, int, int) {
    let n = word_count(layout.relocate_start as int, layout.relocate_end as int);
    let m = word_count(layout.zero_start as int, layout.zero_end as int);
    (
        layout.text_end + 4 * n,
        layout.relocate_start + 4 * n,
        layout.zero_start + 4 * m,
    )
}

/// `top` is the greatest of the three section ends: no end lies above it,
/// and it is one of them.
pub open spec fn span_ends_at(layout: SectionLayout, top: int) -> bool {
    let (a, b, c) = section_ends(layout);
    &&& a <= top
    &&& b <= top
    &&& c <= top
    &&& (top == a || top == b || top == c)
}

/// `top` lies within a word below the greatest section end: every end is
/// below `top + 4`, and some end is at or above `top`.
pub open spec fn span_ends_near(layout: SectionLayout, top: int) -> bool {
    let (a, b, c) = section_ends(layout);
    &&& a < top + 4
    &&& b < top + 4
    &&& c < top + 4
    &&& (top <= a || top <= b || top <= c)
}

/// `span_low` is the least section start and `span_high` the greatest
/// section end.
pub proof fn lemma_span_extremes(layout: SectionLayout)
    ensures
        span_starts_at(layout, span_low(layout)),
        span_ends_at(layout, span_high(layout)),
{
}

/// With word-aligned sections, the span from `span_low` to `span_high` holds
/// every word that start-up reads or writes.
#[verifier::spinoff_prover]
proof fn lemma_span_fits(layout: SectionLayout)
    ensures
        (word_aligned(layout.text_end as int) && word_aligned(layout.relocate_start as int)
            && word_aligned(layout.relocate_end as int) && word_aligned(layout.zero_start as int)
            && word_aligned(layout.zero_end as int)) ==> layout_fits(
            span_low(layout),
            (span_high(layout) - span_low(layout)) / 4,
            layout,
        ),
{
    if word_aligned(layout.text_end as int) && word_aligned(layout.relocate_start as int)
        && word_aligned(layout.relocate_end as int) && word_aligned(layout.zero_start as int)
        && word_aligned(layout.zero_end as int) {
        lemma_span_extremes(layout);
        let low = span_low(layout);
        let high = span_high(layout);
        let dn = word_count(layout.relocate_start as int, layout.relocate_end as int);
        let zn = word_count(layout.zero_start as int, layout.zero_end as int);
        assert(word_aligned(low));
        assert(word_aligned(layout.text_end + 4 * dn));
        assert(word_aligned(layout.relocate_start + 4 * dn));
        assert(word_aligned(layout.zero_start + 4 * zn));
        assert(word_aligned(high));
        let q = (high - low) / 4;
        let r = (high - low) % 4;
        assert(high - low == 4 * q + r && 0 <= r < 4) by {
            vstd::arithmetic::div_mod::lemma_fundamental_div_mod(high - low, 4);
        }
        assert(r == 0);
        assert(low + 4 * q == high);
    }
}

/// The word length of the span reaches to within a word of its greatest
/// end, and exactly to it when the section starts are word-aligned.
#[verifier::spinoff_prover]
proof fn lemma_span_length(layout: SectionLayout)
    requires
        span_low(layout) <= span_high(layout),
    ensures
        span_ends_near(layout, span_low(layout) + 4 * ((span_high(layout) - span_low(layout)) / 4)),
        (word_aligned(layout.text_end as int) && word_aligned(layout.relocate_start as int)
            && word_aligned(layout.zero_start as int)) ==> span_ends_at(
            layout,
            span_low(layout) + 4 * ((span_high(layout) - span_low(layout)) / 4),
        ),
{
    lemma_span_extremes(layout);
    let low = span_low(layout);
    let high = span_high(layout);
    let q = (high - low) / 4;
    let r = (high - low) % 4;
    assert(high - low == 4 * q + r && 0 <= r < 4) by {
        vstd::arithmetic::div_mod::lemma_fundamental_div_mod(high - low, 4);
    }
    assert(low + 4 * q == high - r);
    if word_aligned(layout.text_end as int) && word_aligned(layout.relocate_start as int)
        && word_aligned(layout.zero_start as int) {
        assert(word_aligned(low));
        assert(word_aligned(high));
        assert(r == 0);
    }
}

/// The run of memory that start-up works on: its first byte address and its
/// length in words.  `None` when an end of a section lies past the top of
/// the address space.
pub fn startup_span(layout: SectionLayout) -> (r: Option<(usize, usize)>)
    ensures
        r is Some <==> span_high(layout) <= usize::MAX,
        r matches Some((base, len)) ==> {
            &&& base == span_low(layout)
            &&& len == (span_high(layout) - span_low(layout)) / 4
            &&& (word_aligned(layout.text_end as int) && word_aligned(layout.relocate_start as int)
                && word_aligned(layout.relocate_end as int) && word_aligned(layout.zero_start as int)
                && word_aligned(layout.zero_end as int)) ==> layout_fits(base as int, len as int, layout)
            &&& span_starts_at(layout, base as int)
            &&& span_ends_near(layout, base as int + 4 * len)
            &&& (word_aligned(layout.text_end as int) && word_aligned(layout.relocate_start as int)
                && word_aligned(layout.zero_start as int)) ==> span_ends_at(
                layout,
                base as int + 4 * len,
            )
        },
{
    let d: usize = if layout.relocate_start < layout.relocate_end {
        (layout.relocate_end - layout.relocate_start) / 4 * 4
    } else {
        0
    };
    let z: usize = if layout.zero_start < layout.zero_end {
        (layout.zero_end - layout.zero_start) / 4 * 4
    } else {
        0
    };
    let a = layout.text_end.checked_add(d);
    let b = layout.relocate_start.checked_add(d);
    let c = layout.zero_start.checked_add(z);
    match (a, b, c) {
        (Some(a), Some(b), Some(c)) => {
            let low = if layout.text_end <= layout.relocate_start && layout.text_end <= layout.zero_start {
                layout.text_end
            } else if layout.relocate_start <= layout.zero_start {
                layout.relocate_start
            } else {
                layout.zero_start
            };
            let high = if a >= b && a >= c {
                a
            } else if b >= c {
                b
            } else {
                c
            };
            proof {
                lemma_span_fits(layout);
                lemma_span_extremes(layout);
                lemma_span_length(layout);
            }
            Some((low, (high - low) / 4))
        },
        _ => None,
    }
}

/// Reading word `si + k` in the middle of a forward copy gives the value that
/// the copy is to leave in word `di + k`.
proof fn lemma_copy_step(old: Seq<u32>, si: int, di: int, k: int)
    requires
        0 <= si,
        0 <= di,
        0 <= k,
        si + k < old.len(),
        di + k < old.len(),
    ensures
        forward_copy(old, si, di, k)[si + k] == copied_word(old, si, di, k),
{
    if si < di {
        let d = di - si;
        if k < d {
            lemma_small_mod(k as nat, d as nat);
        } else {
            lemma_mod_sub_multiples_vanish(k, d);
            assert(si + k == di + (k - d));
        }
    }
}

/// The flash image does not lie below the data section while overlapping
/// it, so a forward copy reproduces it word for word.
pub open spec fn copy_reads_image(layout: SectionLayout) -> bool {
    let n = word_count(layout.relocate_start as int, layout.relocate_end as int);
    layout.text_end >= layout.relocate_start || layout.text_end + 4 * n <= layout.relocate_start
}

/// After start-up every word of the zero-initialised section is zero; every
/// other word of the data section holds the word at the same offset in the
/// flash image (when the image does not overlap the data section from
/// below); every word outside both sections is as it was.
pub proof fn lemma_startup_image(base: int, words: Seq<u32>, layout: SectionLayout)
    requires
        layout_fits(base, words.len() as int, layout),
        copy_reads_image(layout),
    ensures
        ({
            let r = startup_words(base, words, layout);
            let si = word_index(base, layout.text_end as int);
            let di = word_index(base, layout.relocate_start as int);
            let dn = word_count(layout.relocate_start as int, layout.relocate_end as int);
            let zi = word_index(base, layout.zero_start as int);
            let zn = word_count(layout.zero_start as int, layout.zero_end as int);
            &&& r.len() == words.len()
            &&& forall|i: int| 0 <= i < r.len() && zi <= i < zi + zn ==> #[trigger] r[i] == 0
            &&& forall|i: int|
                0 <= i < r.len() && di <= i < di + dn && !(zi <= i < zi + zn) ==> #[trigger] r[i]
                    == words[si + (i - di)]
            &&& forall|i: int|
                0 <= i < r.len() && !(di <= i < di + dn) && !(zi <= i < zi + zn) ==> #[trigger] r[i]
                    == words[i]
        }),
{
    let si = word_index(base, layout.text_end as int);
    let di = word_index(base, layout.relocate_start as int);
    let dn = word_count(layout.relocate_start as int, layout.relocate_end as int);
    let r = startup_words(base, words, layout);
    let zi = word_index(base, layout.zero_start as int);
    let zn = word_count(layout.zero_start as int, layout.zero_end as int);
    assert forall|i: int|
        0 <= i < r.len() && di <= i < di + dn && !(zi <= i < zi + zn) implies #[trigger] r[i]
            == words[si + (i - di)] by {
        if layout.text_end != layout.relocate_start && si < di {
            lemma_small_mod((i - di) as nat, (di - si) as nat);
        }
    }
}

/// Start-up can be repeated: when the flash image overlaps neither the data
/// section nor the zero-initialised section, preparing memory a second time
/// leaves it as the first time did.
pub proof fn lemma_startup_repeatable(base: int, words: Seq<u32>, layout: SectionLayout)
    requires
        layout_fits(base, words.len() as int, layout),
        ({
            let si = word_index(base, layout.text_end as int);
            let di = word_index(base, layout.relocate_start as int);
            let dn = word_count(layout.relocate_start as int, layout.relocate_end as int);
            let zi = word_index(base, layout.zero_start as int);
            let zn = word_count(layout.zero_start as int, layout.zero_end as int);
            &&& (si + dn <= di || di + dn <= si)
            &&& (zn == 0 || si + dn <= zi || zi + zn <= si)
        }),
    ensures
        startup_words(base, startup_words(base, words, layout), layout) == startup_words(
            base,
            words,
            layout,
        ),
{
    let si = word_index(base, layout.text_end as int);
    let di = word_index(base, layout.relocate_start as int);
    let dn = word_count(layout.relocate_start as int, layout.relocate_end as int);
    let once = startup_words(base, words, layout);
    let twice = startup_words(base, once, layout);
    assert forall|i: int| 0 <= i < once.len() implies #[trigger] twice[i] == once[i] by {
        if layout.text_end != layout.relocate_start && si < di && di <= i < di + dn {
            lemma_small_mod((i - di) as nat, (di - si) as nat);
        }
    }
    assert(twice =~= once);
}

} // verus!
