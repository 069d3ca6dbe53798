//! The rotating image: which of the stored bitmaps is on screen.

use vstd::prelude::*;
use vstd::arithmetic::div_mod::{
    lemma_add_mod_noop, lemma_fundamental_div_mod, lemma_mod_bound, lemma_mod_multiples_vanish,
    lemma_mod_self_0, lemma_small_mod,
};

verus! {

/// Which way a button press moves the image selection.
#[derive(Clone, Copy, PartialEq, Eq, Structural, Debug)]
pub enum Shift {
    Stay,
    Next,
    Prev,
}

/// The selected image among `count` stored ones.
#[derive(Clone, Copy, PartialEq, Eq, Structural, Debug)]
pub struct ImageIndex {
    pub current: usize,
    pub count: usize,
}

impl ImageIndex {
    /// There is at least one image, and the selection names one of them.
    pub open spec fn wf(&self) -> bool {
        self.current < self.count
    }

    /// The first of `count` images; `None` when there is no image at all.
    pub fn new(count: usize) -> (index: Option<ImageIndex>)
        ensures
            index == (if count > 0 {
                Some(ImageIndex { current: 0, count })
            } else {
                None
            }),
    {
        if count > 0 {
            Some(ImageIndex { current: 0, count })
        } else {
            None
        }
    }
}

/// The position reached from `current` by `steps` presses among `count` images:
/// forward for positive `steps`, back for negative ones, wrapping at both ends.
pub open spec fn rotated(current: int, count: int, steps: int) -> int {
    (current + steps) % count
}

/// How many positions a shift moves the selection.
pub open spec fn steps_of(dir: Shift) -> int {
    match dir {
        Shift::Next => 1,
        Shift::Prev => -1,
        Shift::Stay => 0,
    }
}

/// One press from a valid position: the neighbour, or the other end at the edge.
pub proof fn lemma_single_step(current: int, count: int)
    requires
        0 <= current < count,
    ensures
        rotated(current, count, 1) == (if current == count - 1 {
            0
        } else {
            current + 1
        }),
        rotated(current, count, -1) == (if current == 0 {
            count - 1
        } else {
            current - 1
        }),
        rotated(current, count, 0) == current,
{
    lemma_small_mod(current as nat, count as nat);
    if current == count - 1 {
        lemma_mod_self_0(count);
    } else {
        lemma_small_mod((current + 1) as nat, count as nat);
    }
    if current == 0 {
        lemma_mod_multiples_vanish(-1, count - 1, count);
        lemma_small_mod((count - 1) as nat, count as nat);
    } else {
        lemma_small_mod((current - 1) as nat, count as nat);
    }
}

/// Where every rotating image is anchored: the left edge, just below the header.
pub fn get_position() -> (at: (i32, i32))
    ensures
        at == (0i32, 24i32),
{
    (0, 24)
}

/// The bitmap of the selected image, if `images` holds one for it.
pub fn get_image<'a>(index: &ImageIndex, images: &'a [&'a [u8]]) -> (bitmap: Option<&'a [u8]>)
    ensures
        index.current < images@.len() ==> bitmap == Some(images@[index.current as int]),
        index.current >= images@.len() ==> bitmap is None,
{
    if index.current < images.len() {
        Some(images[index.current])
    } else {
        None
    }
}

/// Moves the selection one image forward, wrapping from the last to the first.
pub fn next(index: &mut ImageIndex)
    requires
        old(index).wf(),
    ensures
        final(index).count == old(index).count,
        final(index).current == rotated(old(index).current as int, old(index).count as int, 1),
        final(index).wf(),
{
    proof {
        lemma_single_step(index.current as int, index.count as int);
    }
    let following: usize = if index.current == index.count - 1 {
        0
    } else {
        index.current + 1
    };
    index.current = following;
}

/// Moves the selection one image back, wrapping from the first to the last.
pub fn prev(index: &mut ImageIndex)
    requires
        old(index).wf(),
    ensures
        final(index).count == old(index).count,
        final(index).current == rotated(old(index).current as int, old(index).count as int, -1),
        final(index).wf(),
{
    proof {
        lemma_single_step(index.current as int, index.count as int);
    }
    let preceding: usize = (if index.current == 0 {
        index.count
    } else {
        index.current
    }) - 1;
    index.current = preceding;
}

/// Moves the selection as `dir` says; `Shift::Stay` leaves it alone.
pub fn shift(index: &mut ImageIndex, dir: Shift)
    requires
        old(index).wf(),
    ensures
        final(index).count == old(index).count,
        final(index).current == rotated(
            old(index).current as int,
            old(index).count as int,
            steps_of(dir),
        ),
        final(index).wf(),
{
    proof {
        lemma_single_step(index.current as int, index.count as int);
    }
    match dir {
        Shift::Next => next(index),
        Shift::Prev => prev(index),
        Shift::Stay => {},
    }
}

/// Selects image `position`; a position past the end selects the last image.
pub fn set(index: &mut ImageIndex, position: usize)
    requires
        old(index).count > 0,
    ensures
        final(index).count == old(index).count,
        final(index).current == (if position < old(index).count {
            position
        } else {
            (old(index).count - 1) as usize
        }),
        final(index).wf(),
{
    let last: usize = index.count - 1;
    index.current = if position < last {
        position
    } else {
        last
    };
}

/// The selected position.
pub fn get(index: &ImageIndex) -> (position: usize)
    ensures
        position == index.current,
{
    index.current
}

/// The position reached from `current` by pressing "next" `presses` times.
pub open spec fn after_presses(current: int, count: int, presses: nat) -> int
    decreases presses,
{
    if presses == 0 {
        current
    } else {
        rotated(after_presses(current, count, (presses - 1) as nat), count, 1)
    }
}

/// Pressing "next" `presses` times moves the selection `presses` positions on,
/// counted round the ring of images.
pub proof fn lemma_presses_add_up(current: int, count: int, presses: nat)
    requires
        0 <= current < count,
    ensures
        after_presses(current, count, presses) == rotated(current, count, presses as int),
        0 <= after_presses(current, count, presses) < count,
    decreases presses,
{
    lemma_mod_bound(current + presses, count);
    if presses == 0 {
        lemma_small_mod(current as nat, count as nat);
    } else {
        lemma_presses_add_up(current, count, (presses - 1) as nat);
        let before = current + presses - 1;
        lemma_add_mod_noop(before, 1, count);
        if count == 1 {
            lemma_mod_bound(before % count + 1, count);
        } else {
            lemma_small_mod(1, count as nat);
        }
    }
}

/// Two positions of the ring that are reached by different numbers of presses,
/// both below the number of images, are different positions.
proof fn lemma_presses_differ(current: int, count: int, fewer: nat, more: nat)
    requires
        0 <= current < count,
        fewer < more < count,
    ensures
        rotated(current, count, fewer as int) != rotated(current, count, more as int),
{
    let low = current + fewer;
    let high = current + more;
    lemma_fundamental_div_mod(low, count);
    lemma_fundamental_div_mod(high, count);
    if low % count == high % count {
        let turns = high / count - low / count;
        assert(high - low == count * turns) by (nonlinear_arith)
            requires
                low == count * (low / count) + low % count,
                high == count * (high / count) + high % count,
                low % count == high % count,
                turns == high / count - low / count,
        ;
        assert(false) by (nonlinear_arith)
            requires
                0 < high - low < count,
                high - low == count * turns,
        ;
    }
}

/// Whether `target` is shown within the first `count` presses of "next".
pub open spec fn is_reached(current: int, count: int, target: int) -> bool {
    exists|presses: nat|
        presses < count && #[trigger] after_presses(current, count, presses) == target
}

/// Rotation goes through every image and wraps.
///
/// From any selection among `count` images, the first `count` presses of
/// "next" show `count` different images; every image is among them; the press
/// on the last image leads to the first; and after `count` presses the
/// selection is back where it was.
pub proof fn lemma_rotation_cycles(current: int, count: int)
    requires
        0 <= current < count,
    ensures
        forall|fewer: nat, more: nat|
            fewer < more < count ==> #[trigger] after_presses(current, count, fewer)
                != #[trigger] after_presses(current, count, more),
        forall|target: int| 0 <= target < count ==> #[trigger] is_reached(current, count, target),
        rotated(count - 1, count, 1) == 0,
        after_presses(current, count, count as nat) == current,
{
    assert forall|fewer: nat, more: nat| fewer < more < count implies #[trigger] after_presses(
        current,
        count,
        fewer,
    ) != #[trigger] after_presses(current, count, more) by {
        lemma_presses_add_up(current, count, fewer);
        lemma_presses_add_up(current, count, more);
        lemma_presses_differ(current, count, fewer, more);
    }
    assert forall|target: int| 0 <= target < count implies #[trigger] is_reached(
        current,
        count,
        target,
    ) by {
        let presses: nat = if target >= current {
            (target - current) as nat
        } else {
            (target - current + count) as nat
        };
        lemma_presses_add_up(current, count, presses);
        if target >= current {
            lemma_small_mod(target as nat, count as nat);
        } else {
            lemma_mod_multiples_vanish(1, target, count);
            lemma_small_mod(target as nat, count as nat);
        }
        assert(after_presses(current, count, presses) == target);
    }
    lemma_single_step(count - 1, count);
    lemma_presses_add_up(current, count, count as nat);
    lemma_mod_multiples_vanish(1, current, count);
    lemma_small_mod(current as nat, count as nat);
}

} // verus!
